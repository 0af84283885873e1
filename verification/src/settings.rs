//! User-facing renderer settings and the small lookups they need.

use vstd::prelude::*;

verus! {

/// The renderer settings the overlay menu edits. No setting is currently
/// recognized.
pub struct RendererSetting {}

/// How the camera is controlled.
#[derive(Clone, Copy, Debug, PartialEq, Eq, Structural)]
pub enum CameraMode {
    Orbital,
    Fps,
}

/// A camera movement direction.
#[derive(Clone, Copy, Debug, PartialEq, Eq, Structural)]
pub enum Direction {
    Forward,
    Backward,
    Left,
    Right,
}

/// The ambient-occlusion kernel sizes the renderer recognizes, in order.
pub open spec fn spec_kernel_sizes() -> Seq<u32> {
    seq![16u32, 32u32, 64u32, 128u32]
}

/// The position of a kernel size among the recognized sizes. Only the
/// recognized sizes are legal inputs.
pub fn get_kernel_size_index(size: u32) -> (r: usize)
    requires
        spec_kernel_sizes().contains(size),
    ensures
        r < spec_kernel_sizes().len(),
        spec_kernel_sizes()[r as int] == size,
        forall|k: int| 0 <= k < r ==> spec_kernel_sizes()[k] != size,
{
    if size == 16 {
        0
    } else if size == 32 {
        1
    } else if size == 64 {
        2
    } else {
        proof {
            let j = choose|j: int| 0 <= j < spec_kernel_sizes().len() && spec_kernel_sizes()[j]
                == size;
            assert(spec_kernel_sizes()[3] == 128u32);
            assert(size == 128);
        }
        3
    }
}

} // verus!
