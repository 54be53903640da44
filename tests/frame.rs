use lumen::engine::Engine;
use lumen::error::EngineError;
use lumen::geometry_manager::GeometryManager;
use lumen::mesh::{Mesh, Palette};
use lumen::renderer::{DrawCommand, FrameData, Renderer, VulkanInstance, record_draw_commands_forward};
use lumen::scene::Scene;
use lumen::uniform_manager::{DescriptorBufferInfo, UniformManager};
use lumen::vertex::{Transform, Vertex, mat4_to_bytes};

fn vertex(x: f32, y: f32, z: f32) -> Vertex {
    Vertex {
        position_: [x.to_bits(), y.to_bits(), z.to_bits()],
        normal_: [0, 0, 1.0f32.to_bits()],
        color_: [1.0f32.to_bits(); 3],
        uv_: [0, 0],
    }
}

fn triangle() -> Mesh {
    Mesh::new(
        vec![vertex(0.0, 0.0, 0.0), vertex(1.0, 0.0, 0.0), vertex(0.0, 1.0, 0.0)],
        vec![0, 1, 2],
    )
}

fn translation(x: f32, y: f32, z: f32) -> Transform {
    let mut t = Transform::identity();
    t.elements_[12] = x.to_bits();
    t.elements_[13] = y.to_bits();
    t.elements_[14] = z.to_bits();
    t
}

fn transform_bytes(t: &Transform) -> Vec<u8> {
    let mut out = vec![];
    for e in t.elements_.iter() {
        out.extend_from_slice(&f32::from_bits(*e).to_le_bytes());
    }
    out
}

#[test]
fn one_triangle_scene_draws_once() {
    let mut palette = Palette::new();
    let mesh_id = palette.load_mesh(&triangle());
    let mut engine = Engine::new();
    engine.load_palette(&palette).unwrap();
    let renderer_id = engine.create_renderer(3);
    let mut scene = Scene::new();
    scene.create_instance(mesh_id, None);
    engine.queue_scene(renderer_id, &scene).unwrap();
    let frame = engine.update();
    assert!(frame.upload_.is_some());
    assert_eq!(frame.frames_.len(), 1);
    let plan = frame.frames_[0].as_ref().unwrap();
    let recording = plan.recording_.as_ref().unwrap();
    assert_eq!(recording.draws_.len(), 1);
    assert_eq!(
        recording.draws_[0],
        DrawCommand {
            descriptor_set_: 0,
            index_count_: 3,
            instance_count_: 1,
            first_index_: 0,
            vertex_offset_: 0,
            first_instance_: 0,
        }
    );
    assert_eq!(recording.push_constants_.len(), 128);
    let identity = transform_bytes(&Transform::identity());
    assert_eq!(&recording.push_constants_[0..64], &identity[..]);
    assert_eq!(&recording.push_constants_[64..128], &identity[..]);
    assert_eq!(plan.frame_slot_, 0);
}

#[test]
fn draws_use_each_instance_mesh_range() {
    let mut g = GeometryManager::new(100, 100);
    let a = g.load_mesh(&triangle()).unwrap();
    let quad = Mesh::new(
        vec![vertex(0.0, 0.0, 0.0), vertex(1.0, 0.0, 0.0), vertex(1.0, 1.0, 0.0), vertex(0.0, 1.0, 0.0)],
        vec![0, 1, 2, 0, 2, 3],
    );
    let b = g.load_mesh(&quad).unwrap();
    let mut scene = Scene::new();
    scene.create_instance(b, None);
    scene.create_instance(a, None);
    let mut r = Renderer::new(2, 2, 10);
    r.queue_scene(&scene);
    let plan = r.update(&g).unwrap();
    let rec = plan.recording_.unwrap();
    assert_eq!(rec.draws_[0].index_count_, 6);
    assert_eq!(rec.draws_[0].first_index_, 3);
    assert_eq!(rec.draws_[0].vertex_offset_, 3);
    assert_eq!(rec.draws_[0].descriptor_set_, 0);
    assert_eq!(rec.draws_[1].index_count_, 3);
    assert_eq!(rec.draws_[1].first_index_, 0);
    assert_eq!(rec.draws_[1].vertex_offset_, 0);
    assert_eq!(rec.draws_[1].descriptor_set_, 1);
    assert_eq!(rec.descriptor_writes_[1].dst_set_, 1);
    assert_eq!(
        rec.descriptor_writes_[1].buffer_info_,
        DescriptorBufferInfo { buffer_slot_: 0, offset_: 64, range_: 64 }
    );
}

#[test]
fn uniform_writes_follow_input_order() {
    let mut u = UniformManager::new(100, 2);
    let mut scene = Scene::new();
    let ts = [translation(1.0, 0.0, 0.0), translation(0.0, 2.0, 0.0), translation(0.0, 0.0, 3.0)];
    for t in ts.iter() {
        scene.create_instance(0, Some(*t));
    }
    let infos = u.update_uniforms(1, &scene.get_instances()).unwrap();
    assert_eq!(infos.len(), 3);
    for (i, info) in infos.iter().enumerate() {
        assert_eq!(*info, DescriptorBufferInfo { buffer_slot_: 1, offset_: 64 * i as u64, range_: 64 });
        let back = u.read_back(1, 64 * i, 64);
        assert_eq!(back, transform_bytes(&ts[i]));
        assert_eq!(back, mat4_to_bytes(&ts[i]));
    }
    assert_eq!(u.read_back(0, 0, 64), vec![0u8; 64]);
    assert_eq!(u.read_back(1, 192, 64), vec![0u8; 64]);
}

#[test]
fn too_many_instances_for_the_uniform_buffer_are_refused() {
    let mut u = UniformManager::new(2, 2);
    let mut scene = Scene::new();
    for _ in 0..3 {
        scene.create_instance(0, None);
    }
    assert_eq!(u.update_uniforms(0, &scene.get_instances()), Err(EngineError::CapacityExceeded));
    assert_eq!(u.read_back(0, 0, 128), vec![0u8; 128]);
}

#[test]
fn queued_scene_is_a_snapshot() {
    let mut g = GeometryManager::new(100, 100);
    let m = g.load_mesh(&triangle()).unwrap();
    let mut scene = Scene::new();
    let id = scene.create_instance(m, Some(translation(5.0, 0.0, 0.0)));
    let mut r = Renderer::new(2, 2, 10);
    r.queue_scene(&scene);
    scene.update_instance(id, translation(9.0, 9.0, 9.0)).unwrap();
    scene.create_instance(m, None);
    let plan = r.update(&g).unwrap();
    assert_eq!(plan.recording_.unwrap().draws_.len(), 1);
    assert_eq!(r.read_uniforms(0, 0, 64), transform_bytes(&translation(5.0, 0.0, 0.0)));
}

#[test]
fn frame_slots_cycle_through_the_ring() {
    let g = GeometryManager::new(10, 10);
    let mut r = Renderer::new(3, 2, 10);
    let slots: Vec<u32> = (0..5).map(|_| r.update(&g).unwrap().frame_slot_).collect();
    assert_eq!(slots, vec![0, 1, 0, 1, 0]);
    assert_eq!(r.current_frame(), 1);
}

#[test]
fn empty_queue_records_nothing() {
    let g = GeometryManager::new(10, 10);
    let mut r = Renderer::new(3, 2, 10);
    let plan = r.update(&g).unwrap();
    assert!(plan.recording_.is_none());
}

#[test]
fn scenes_are_taken_one_per_frame_in_order() {
    let mut g = GeometryManager::new(100, 100);
    let m = g.load_mesh(&triangle()).unwrap();
    let mut first = Scene::new();
    first.create_instance(m, None);
    let mut second = Scene::new();
    second.create_instance(m, None);
    second.create_instance(m, None);
    let mut r = Renderer::new(2, 2, 10);
    r.queue_scene(&first);
    r.queue_scene(&second);
    assert_eq!(r.queued_scenes(), 2);
    assert_eq!(r.update(&g).unwrap().recording_.unwrap().draws_.len(), 1);
    assert_eq!(r.update(&g).unwrap().recording_.unwrap().draws_.len(), 2);
    assert!(r.update(&g).unwrap().recording_.is_none());
}

#[test]
fn unknown_mesh_in_scene_is_not_found_and_kept() {
    let g = GeometryManager::new(100, 100);
    let mut scene = Scene::new();
    scene.create_instance(7, None);
    let mut r = Renderer::new(2, 2, 10);
    r.queue_scene(&scene);
    assert_eq!(r.update(&g).err(), Some(EngineError::NotFound));
    assert_eq!(r.queued_scenes(), 1);
    assert_eq!(r.current_frame(), 0);
}

#[test]
fn scene_over_instance_capacity_is_refused() {
    let mut g = GeometryManager::new(100, 100);
    let m = g.load_mesh(&triangle()).unwrap();
    let mut scene = Scene::new();
    for _ in 0..3 {
        scene.create_instance(m, None);
    }
    let mut r = Renderer::new(2, 2, 2);
    r.queue_scene(&scene);
    assert_eq!(r.update(&g).err(), Some(EngineError::CapacityExceeded));
}

#[test]
fn descriptor_pool_holds_a_set_per_instance_per_image() {
    let r = Renderer::new(3, 2, 100);
    assert_eq!(r.create_descriptor_sets(), 300);
}

#[test]
fn engine_renderer_lookup() {
    let mut engine = Engine::new();
    assert_eq!(engine.create_renderer(2), 0);
    assert_eq!(engine.create_renderer(2), 1);
    assert!(engine.get_renderer(1).is_ok());
    assert!(engine.get_renderer(2).is_err());
    assert_eq!(engine.queue_scene(5, &Scene::new()), Err(EngineError::NotFound));
    let frame = engine.update();
    assert!(frame.upload_.is_none());
    assert_eq!(frame.frames_.len(), 2);
}

#[test]
fn unknown_frame_slot_is_not_found() {
    let mut u = UniformManager::new(4, 2);
    let mut scene = Scene::new();
    scene.create_instance(0, None);
    assert_eq!(u.update_uniforms(2, &scene.get_instances()), Err(EngineError::NotFound));
    assert_eq!(u.read_back(0, 0, 64), vec![0u8; 64]);
}

#[test]
fn frame_commands_push_the_camera_then_draw() {
    let mut g = GeometryManager::new(100, 100);
    let m = g.load_mesh(&triangle()).unwrap();
    let view = translation(1.0, 2.0, 3.0);
    let frame = FrameData {
        vulkan_instances_: vec![VulkanInstance { mesh_id_: m, descriptor_set_: 5 }],
        view_: view,
        projection_: Transform::identity(),
    };
    let commands = record_draw_commands_forward(&g, &frame).unwrap();
    let mut expected = transform_bytes(&view);
    expected.extend(transform_bytes(&Transform::identity()));
    assert_eq!(commands.push_constants_, expected);
    assert_eq!(commands.draws_[0].descriptor_set_, 5);
    assert_eq!(commands.draws_[0].index_count_, 3);
    let missing = FrameData {
        vulkan_instances_: vec![VulkanInstance { mesh_id_: 9, descriptor_set_: 0 }],
        view_: view,
        projection_: view,
    };
    assert_eq!(record_draw_commands_forward(&g, &missing).err(), Some(EngineError::NotFound));
}
