use lumen::error::EngineError;
use lumen::geometry_manager::{GeometryManager, MeshLocation};
use lumen::mesh::{Mesh, Palette};
use lumen::vertex::{Vertex, vertices_to_bytes};

fn vertex(x: f32, y: f32, z: f32) -> Vertex {
    Vertex {
        position_: [x.to_bits(), y.to_bits(), z.to_bits()],
        normal_: [0, 0, 0],
        color_: [1.0f32.to_bits(), 1.0f32.to_bits(), 1.0f32.to_bits()],
        uv_: [0, 0],
    }
}

fn triangle() -> Mesh {
    Mesh::new(
        vec![vertex(0.0, 0.0, 0.0), vertex(1.0, 0.0, 0.0), vertex(0.0, 1.0, 0.0)],
        vec![0, 1, 2],
    )
}

fn quad() -> Mesh {
    Mesh::new(
        vec![
            vertex(0.0, 0.0, 0.0),
            vertex(1.0, 0.0, 0.0),
            vertex(1.0, 1.0, 0.0),
            vertex(0.0, 1.0, 0.0),
        ],
        vec![0, 1, 2, 0, 2, 3],
    )
}

#[test]
fn meshes_loaded_in_sequence_lie_back_to_back() {
    let mut g = GeometryManager::new(10000, 1000000);
    let a = g.load_mesh(&triangle()).unwrap();
    let b = g.load_mesh(&quad()).unwrap();
    let la = g.get_mesh_location(a).unwrap();
    let lb = g.get_mesh_location(b).unwrap();
    assert_eq!(la, MeshLocation { vertex_offset_: 0, index_offset_: 0, vertex_count_: 3, index_count_: 3 });
    assert_eq!(lb.vertex_offset_, la.vertex_offset_ + la.vertex_count_);
    assert_eq!(lb.index_offset_, la.index_offset_ + la.index_count_);
    assert_eq!(lb, MeshLocation { vertex_offset_: 3, index_offset_: 3, vertex_count_: 4, index_count_: 6 });
    assert_eq!(g.vertex_count(), 7);
    assert_eq!(g.index_count(), 9);
}

#[test]
fn load_mesh_ids_increase() {
    let mut g = GeometryManager::new(100, 100);
    let ids: Vec<u64> = (0..4).map(|_| g.load_mesh(&triangle()).unwrap()).collect();
    assert_eq!(ids, vec![0, 1, 2, 3]);
}

#[test]
fn load_mesh_past_capacity_is_refused_and_changes_nothing() {
    let mut g = GeometryManager::new(5, 100);
    assert_eq!(g.load_mesh(&triangle()), Ok(0));
    assert_eq!(g.load_mesh(&quad()), Err(EngineError::CapacityExceeded));
    assert_eq!(g.vertex_count(), 3);
    assert_eq!(g.index_count(), 3);
    assert_eq!(g.get_mesh_location(1), Err(EngineError::NotFound));
    let mut h = GeometryManager::new(100, 8);
    assert_eq!(h.load_mesh(&quad()), Ok(0));
    assert_eq!(h.load_mesh(&triangle()), Err(EngineError::CapacityExceeded));
}

#[test]
fn load_mesh_filling_capacity_exactly_is_accepted() {
    let mut g = GeometryManager::new(7, 9);
    assert!(g.load_mesh(&triangle()).is_ok());
    assert!(g.load_mesh(&quad()).is_ok());
    assert_eq!(g.vertex_count(), 7);
}

#[test]
fn unknown_mesh_location_is_not_found() {
    let g = GeometryManager::new(10, 10);
    assert_eq!(g.get_mesh_location(0), Err(EngineError::NotFound));
}

#[test]
fn palette_loads_in_identifier_order() {
    let mut p = Palette::new();
    assert_eq!(p.load_mesh(&quad()), 0);
    assert_eq!(p.load_mesh(&triangle()), 1);
    assert_eq!(p.len(), 2);
    let mut g = GeometryManager::new(100, 100);
    assert_eq!(g.load_palette(&p), Ok(()));
    assert_eq!(
        g.get_mesh_location(0).unwrap(),
        MeshLocation { vertex_offset_: 0, index_offset_: 0, vertex_count_: 4, index_count_: 6 }
    );
    assert_eq!(
        g.get_mesh_location(1).unwrap(),
        MeshLocation { vertex_offset_: 4, index_offset_: 6, vertex_count_: 3, index_count_: 3 }
    );
    assert_eq!(g.vertex_count(), 7);
    assert_eq!(g.index_count(), 9);
}

#[test]
fn palette_too_large_is_refused_whole() {
    let mut p = Palette::new();
    p.load_mesh(&triangle());
    p.load_mesh(&quad());
    let mut g = GeometryManager::new(6, 100);
    assert_eq!(g.load_palette(&p), Err(EngineError::CapacityExceeded));
    assert_eq!(g.vertex_count(), 0);
    assert!(!g.is_dirty());
}

#[test]
fn reloading_a_palette_duplicates_its_data() {
    let mut p = Palette::new();
    p.load_mesh(&triangle());
    let mut g = GeometryManager::new(100, 100);
    g.load_palette(&p).unwrap();
    g.load_palette(&p).unwrap();
    assert_eq!(g.vertex_count(), 6);
    assert_eq!(g.get_mesh_location(0).unwrap().vertex_offset_, 3);
}

#[test]
fn palette_get_mesh() {
    let mut p = Palette::new();
    p.load_mesh(&triangle());
    assert_eq!(p.get_mesh(0).unwrap().indices_, vec![0, 1, 2]);
    assert!(p.get_mesh(1).is_none());
}

#[test]
fn update_uploads_once_after_a_change() {
    let mut g = GeometryManager::new(100, 100);
    assert!(g.update().is_none());
    g.load_mesh(&triangle()).unwrap();
    assert!(g.is_dirty());
    let upload = g.update().unwrap();
    assert_eq!(upload.vertex_copy.size, 3 * 44);
    assert_eq!(upload.index_copy.size, 12);
    assert_eq!(upload.vertex_copy.src_offset, 0);
    assert_eq!(upload.vertex_copy.dst_offset, 0);
    assert_eq!(upload.vertex_bytes.len(), 132);
    assert_eq!(upload.index_bytes, vec![0, 0, 0, 0, 1, 0, 0, 0, 2, 0, 0, 0]);
    assert!(!g.is_dirty());
    assert!(g.update().is_none());
}

#[test]
fn staged_vertices_are_little_endian_components_in_order() {
    let v = vertex(1.0, 2.0, -0.5);
    let bytes = vertices_to_bytes(&vec![v]);
    let mut expected = vec![];
    for x in [1.0f32, 2.0, -0.5, 0.0, 0.0, 0.0, 1.0, 1.0, 1.0, 0.0, 0.0] {
        expected.extend_from_slice(&x.to_le_bytes());
    }
    assert_eq!(bytes, expected);
    let mut g = GeometryManager::new(10, 10);
    g.load_mesh(&Mesh::new(vec![v], vec![0])).unwrap();
    assert_eq!(g.stage_vertices(), expected);
}

#[test]
fn load_mesh_after_palette_gets_a_fresh_id() {
    let mut p = Palette::new();
    p.load_mesh(&triangle());
    let mut g = GeometryManager::new(100, 100);
    g.load_palette(&p).unwrap();
    let id = g.load_mesh(&quad()).unwrap();
    assert_eq!(id, 1);
    assert_eq!(
        g.get_mesh_location(0).unwrap(),
        MeshLocation { vertex_offset_: 0, index_offset_: 0, vertex_count_: 3, index_count_: 3 }
    );
    assert_eq!(
        g.get_mesh_location(1).unwrap(),
        MeshLocation { vertex_offset_: 3, index_offset_: 3, vertex_count_: 4, index_count_: 6 }
    );
}
