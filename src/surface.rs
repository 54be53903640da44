//! Choices made about the swapchain from what the surface reports: image extent, image count,
//! present mode and pixel format.
use vstd::prelude::*;

verus! {

/// The native present modes this engine chooses between.
pub const PRESENT_MODE_MAILBOX: i32 = 1;
pub const PRESENT_MODE_FIFO: i32 = 2;

/// The native codes of the preferred pixel format and color space.
pub const FORMAT_B8G8R8A8_SRGB: i32 = 50;
pub const COLOR_SPACE_SRGB_NONLINEAR: i32 = 0;

/// A width and a height in pixels.
#[derive(Clone, Copy, Debug, PartialEq, Eq, Structural)]
pub struct Extent2D {
    pub width: u32,
    pub height: u32,
}

/// A pixel format with its color space, both as native codes.
#[derive(Clone, Copy, Debug, PartialEq, Eq, Structural)]
pub struct SurfaceFormat {
    pub format: i32,
    pub color_space: i32,
}

/// `input` limited to the range from `min` to `max`.
pub open spec fn clamped(input: u32, min: u32, max: u32) -> u32 {
    if input < min {
        min
    } else if input > max {
        max
    } else {
        input
    }
}

/// Relies on `num::clamp` (num-traits 0.2.19): it returns `min` when `input < min`, `max` when
/// `input > max`, and `input` otherwise; in debug builds it asserts `min <= max`.
#[verifier::external_body]
fn clamp_u32(input: u32, min: u32, max: u32) -> (r: u32)
    requires
        min <= max,
    ensures
        r == clamped(input, min, max),
{
    num::clamp(input, min, max)
}

/// The extent of the swapchain images: the surface's current extent when it reports one;
/// when it reports the width `u32::MAX` instead, `default_extent` limited to the range the
/// surface allows, in each dimension.
pub fn get_initial_extent(
    current_extent: Extent2D,
    min_image_extent: Extent2D,
    max_image_extent: Extent2D,
    default_extent: Extent2D,
) -> (r: Extent2D)
    requires
        min_image_extent.width <= max_image_extent.width,
        min_image_extent.height <= max_image_extent.height,
    ensures
        current_extent.width != u32::MAX ==> r == current_extent,
        current_extent.width == u32::MAX ==> r == (Extent2D {
            width: clamped(default_extent.width, min_image_extent.width, max_image_extent.width),
            height: clamped(
                default_extent.height,
                min_image_extent.height,
                max_image_extent.height,
            ),
        }),
{
    if current_extent.width != u32::MAX {
        current_extent
    } else {
        Extent2D {
            width: clamp_u32(default_extent.width, min_image_extent.width, max_image_extent.width),
            height: clamp_u32(
                default_extent.height,
                min_image_extent.height,
                max_image_extent.height,
            ),
        }
    }
}

/// One image more than the surface's minimum, but no more than its maximum when it has one
/// (a maximum of 0 means none).
pub fn get_min_image_count(min_image_count: u32, max_image_count: u32) -> (r: u32)
    requires
        min_image_count < u32::MAX,
    ensures
        r == if max_image_count > 0 && min_image_count + 1 > max_image_count {
            max_image_count as int
        } else {
            min_image_count + 1
        },
{
    let mut count = min_image_count + 1;
    if max_image_count > 0 && count > max_image_count {
        count = max_image_count;
    }
    count
}

/// Mailbox when the surface offers it, else FIFO, which every surface offers.
pub fn get_preferred_present_mode(available: &Vec<i32>) -> (r: i32)
    ensures
        r == if (exists|i: int| 0 <= i < available@.len() && available@[i] == PRESENT_MODE_MAILBOX) {
            PRESENT_MODE_MAILBOX
        } else {
            PRESENT_MODE_FIFO
        },
{
    let mut i: usize = 0;
    while i < available.len()
        invariant
            i <= available@.len(),
            forall|j: int| 0 <= j < i ==> available@[j] != PRESENT_MODE_MAILBOX,
        decreases available@.len() - i,
    {
        if available[i] == PRESENT_MODE_MAILBOX {
            return PRESENT_MODE_MAILBOX;
        }
        i = i + 1;
    }
    PRESENT_MODE_FIFO
}

pub open spec fn is_preferred_format(f: SurfaceFormat) -> bool {
    f.format == FORMAT_B8G8R8A8_SRGB && f.color_space == COLOR_SPACE_SRGB_NONLINEAR
}

/// The first offered format that is 8-bit BGRA sRGB in the non-linear sRGB color space, else
/// the first offered format.
pub fn get_preferred_image_format(available: &Vec<SurfaceFormat>) -> (r: SurfaceFormat)
    requires
        available@.len() > 0,
    ensures
        is_preferred_format(r) || r == available@[0],
        is_preferred_format(r) ==> exists|i: int|
            0 <= i < available@.len() && available@[i] == r,
        !is_preferred_format(r) ==> forall|i: int|
            0 <= i < available@.len() ==> !is_preferred_format(#[trigger] available@[i]),
{
    let mut i: usize = 0;
    while i < available.len()
        invariant
            i <= available@.len(),
            forall|j: int| 0 <= j < i ==> !is_preferred_format(#[trigger] available@[j]),
        decreases available@.len() - i,
    {
        let f = available[i];
        if f.format == FORMAT_B8G8R8A8_SRGB && f.color_space == COLOR_SPACE_SRGB_NONLINEAR {
            return f;
        }
        i = i + 1;
    }
    available[0]
}

} // verus!
