use lumen::error::EngineError;
use lumen::scene::{Instance, Scene};
use lumen::scene_manager::{LightUBO, SceneManager};
use lumen::vertex::Transform;

#[test]
fn instance_ids_increase() {
    let mut s = Scene::new();
    let ids: Vec<u64> = (0..5).map(|k| s.create_instance(k, None)).collect();
    assert_eq!(ids, vec![0, 1, 2, 3, 4]);
    assert_eq!(s.len(), 5);
}

#[test]
fn new_instance_defaults_to_identity() {
    let i = Instance::new(3, None);
    assert_eq!(i.mesh_id_, 3);
    assert!(i.dirty_);
    let one = 1.0f32.to_bits();
    assert_eq!(
        i.transform_.elements_,
        [one, 0, 0, 0, 0, one, 0, 0, 0, 0, one, 0, 0, 0, 0, one]
    );
}

#[test]
fn update_instance_replaces_the_transform() {
    let mut s = Scene::new();
    let id = s.create_instance(0, None);
    let t = Transform { elements_: [7; 16] };
    assert_eq!(s.update_instance(id, t), Ok(()));
    assert_eq!(s.get_instance(id).unwrap().transform_.elements_, [7; 16]);
    assert_eq!(s.update_instance(id + 1, t), Err(EngineError::NotFound));
    assert!(s.get_instance(id + 1).is_err());
}

#[test]
fn light_ids_increase_and_capacity_is_enforced() {
    let mut m = SceneManager::new(2, 3);
    assert_eq!(m.create_light(), Ok(0));
    assert_eq!(m.create_light(), Ok(1));
    assert_eq!(m.create_light(), Err(EngineError::CapacityExceeded));
}

#[test]
fn lights_are_written_in_identifier_order() {
    let mut m = SceneManager::new(4, 2);
    m.create_light().unwrap();
    m.create_light().unwrap();
    let light = LightUBO { position_: [1, 2, 3, 4], color_: [5, 6, 7, 8] };
    m.set_light(1, light).unwrap();
    assert!(m.set_light(2, light).is_err());
    m.update(1);
    assert_eq!(m.read_back(1, 0, 32), vec![0u8; 32]);
    let mut expected = vec![];
    for w in 1u32..9 {
        expected.extend_from_slice(&w.to_le_bytes());
    }
    assert_eq!(m.read_back(1, 32, 32), expected);
    assert_eq!(m.read_back(0, 32, 32), vec![0u8; 32]);
    let info = m.get_descriptor_buffer_info();
    assert_eq!(info.offset_, 0);
    assert_eq!(info.range_, 64);
}

#[test]
fn instances_change_in_place() {
    let mut s = Scene::new();
    let id = s.create_instance(1, None);
    s.get_mut_instance(id).unwrap().transform_ = Transform { elements_: [3; 16] };
    assert_eq!(s.get_instance(id).unwrap().transform_.elements_, [3; 16]);
    let mut m = SceneManager::new(2, 1);
    let l = m.create_light().unwrap();
    m.get_mut_light(l).unwrap().color_ = [9, 9, 9, 9];
    assert_eq!(m.get_light(l).unwrap().color_, [9, 9, 9, 9]);
}

#[test]
fn unknown_instance_or_light_is_not_found() {
    let mut s = Scene::new();
    s.create_instance(0, None);
    assert_eq!(s.get_mut_instance(1).err(), Some(EngineError::NotFound));
    let mut m = SceneManager::new(2, 1);
    assert_eq!(m.get_mut_light(0).err(), Some(EngineError::NotFound));
}
