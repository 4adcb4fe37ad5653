//! The fixed preferences of surface negotiation.

use ash::vk;
use vstd::prelude::*;

use super::{PresentMode, SurfaceFormat};

verus! {

/// The image count asked for where the surface allows it: triple buffering.
pub const PREFERRED_IMAGE_COUNT: u32 = 3;

/// The one surface format the renderer presents in: 8-bit BGRA, sRGB encoded,
/// in the non-linear sRGB colour space.
pub open spec fn spec_format() -> SurfaceFormat {
    SurfaceFormat { format: 50, color_space: 0 }
}

/// The present mode asked for first: relaxed vertical sync.
pub open spec fn spec_preferred_present_mode() -> PresentMode {
    PresentMode { raw: 3 }
}

/// The present mode fallen back on: blocking vertical sync, which every
/// driver offers.
pub open spec fn spec_fallback_present_mode() -> PresentMode {
    PresentMode { raw: 2 }
}

/// `ash::vk::Format::B8G8R8A8_SRGB` and `ash::vk::ColorSpaceKHR::SRGB_NONLINEAR`,
/// by their raw values. Trusted: that `ash` numbers them 50 and 0.
#[verifier::external_body]
fn ash_format() -> (format: SurfaceFormat)
    ensures
        format == spec_format(),
{
    SurfaceFormat {
        format: vk::Format::B8G8R8A8_SRGB.as_raw(),
        color_space: vk::ColorSpaceKHR::SRGB_NONLINEAR.as_raw(),
    }
}

/// `ash::vk::PresentModeKHR::FIFO_RELAXED`, by its raw value. Trusted: that
/// `ash` numbers it 3.
#[verifier::external_body]
fn ash_fifo_relaxed() -> (mode: PresentMode)
    ensures
        mode == spec_preferred_present_mode(),
{
    PresentMode { raw: vk::PresentModeKHR::FIFO_RELAXED.as_raw() }
}

/// `ash::vk::PresentModeKHR::FIFO`, by its raw value. Trusted: that `ash`
/// numbers it 2.
#[verifier::external_body]
fn ash_fifo() -> (mode: PresentMode)
    ensures
        mode == spec_fallback_present_mode(),
{
    PresentMode { raw: vk::PresentModeKHR::FIFO.as_raw() }
}

/// The one surface format the renderer presents in.
#[verifier::when_used_as_spec(spec_format)]
pub fn format() -> (format: SurfaceFormat)
    ensures
        format == spec_format(),
{
    ash_format()
}

/// The present mode asked for first.
#[verifier::when_used_as_spec(spec_preferred_present_mode)]
pub fn preferred_present_mode() -> (mode: PresentMode)
    ensures
        mode == spec_preferred_present_mode(),
{
    ash_fifo_relaxed()
}

/// The present mode fallen back on.
#[verifier::when_used_as_spec(spec_fallback_present_mode)]
pub fn fallback_present_mode() -> (mode: PresentMode)
    ensures
        mode == spec_fallback_present_mode(),
{
    ash_fifo()
}

} // verus!
