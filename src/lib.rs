//! The frame pipeline of a real-time renderer, verified: geometry batched into one vertex and
//! one index array, per-frame uniform buffers of instance transforms, descriptor-set rewrites,
//! the queue of scenes and the ring of frames in flight, and the choices made from what the
//! graphics driver reports. Every decision is made here on plain values; the calls into the
//! driver that carry the decisions out live outside this crate.
use vstd::prelude::*;

pub mod bytes;
pub mod device;
pub mod engine;
pub mod error;
pub mod frame_ring;
pub mod geometry_manager;
pub mod instance_manager;
pub mod mesh;
pub mod renderer;
pub mod scene;
pub mod scene_manager;
pub mod shader_interface;
pub mod surface;
pub mod uniform_manager;
pub mod vertex;

verus! {

/// The sum of `a` and `b`.
pub fn super_dark_sum(a: u64, b: u64) -> (r: u64)
    requires
        a + b <= u64::MAX,
    ensures
        r == a + b,
{
    a + b
}

/// Narrows an optional queue family index to the width the graphics API takes.
pub fn truncate_optional_usize_to_optional_u32(source: Option<usize>) -> (r: Option<u32>)
    ensures
        source.is_none() <==> r.is_none(),
        source.is_some() ==> r.unwrap() == source.unwrap() as u32,
{
    match source {
        Some(x) => Some(x as u32),
        None => None,
    }
}

} // verus!
