use lumen::error::EngineError;
use lumen::instance_manager::{Instance, InstanceManager, UBO};
use lumen::renderer::Renderer;
use lumen::vertex::Transform;

fn ubo(k: u32) -> UBO {
    UBO {
        model_: Transform { elements_: [k; 16] },
        view_: Transform { elements_: [k + 1; 16] },
        projection_: Transform { elements_: [k + 2; 16] },
    }
}

#[test]
fn instance_blocks_are_written_at_their_identifier() {
    let mut m = InstanceManager::new(4, 2);
    assert_eq!(m.create_instance(9, 0), Ok(0));
    assert_eq!(m.create_instance(9, 1), Ok(1));
    m.update_instance(1, ubo(0x01020304)).unwrap();
    m.update(1);
    let back = m.read_back(1, 192, 192);
    assert_eq!(&back[0..4], &[4, 3, 2, 1]);
    assert_eq!(&back[64..68], &[5, 3, 2, 1]);
    assert_eq!(&back[128..132], &[6, 3, 2, 1]);
    let one = 1.0f32.to_le_bytes();
    let first = m.read_back(1, 0, 192);
    assert_eq!(&first[0..4], &one);
    assert_eq!(&first[4..8], &[0, 0, 0, 0]);
    assert_eq!(m.read_back(0, 0, 384), vec![0u8; 384]);
    assert_eq!(m.read_back(1, 384, 192), vec![0u8; 192]);
}

#[test]
fn instance_manager_capacity_and_lookup() {
    let mut two = InstanceManager::new(2, 1);
    two.create_instance(0, 0).unwrap();
    two.create_instance(0, 1).unwrap();
    assert_eq!(two.get_instances()[1].1.offset_, 192);
    let mut m = InstanceManager::new(1, 1);
    assert_eq!(m.create_instance(0, 0), Ok(0));
    assert_eq!(m.create_instance(0, 1), Err(EngineError::CapacityExceeded));
    assert_eq!(m.update_instance(3, ubo(0)), Err(EngineError::NotFound));
    let all = m.get_instances();
    assert_eq!(all.len(), 1);
    assert_eq!(all[0].1.range_, 192);
    assert_eq!(all[0].1.offset_, 0);
}

#[test]
fn new_instance_is_dirty_with_identity_blocks() {
    let i = Instance::new(2, 5);
    assert!(i.dirty_);
    assert_eq!(i.descriptor_set_, 5);
    assert_eq!(i.ubo().model_.elements_[0], 1.0f32.to_bits());
    assert_eq!(i.ubo().view_.elements_[5], 1.0f32.to_bits());
    assert_eq!(i.ubo().projection_.elements_[15], 1.0f32.to_bits());
    assert_eq!(ubo(7).to_bytes().len(), 192);
}

#[test]
fn renderer_instances_take_successive_descriptor_sets() {
    let mut r = Renderer::new(1, 2, 2);
    assert_eq!(r.create_instance(4), Ok(0));
    assert_eq!(r.create_instance(4), Ok(1));
    assert_eq!(r.create_instance(4), Err(EngineError::CapacityExceeded));
}
