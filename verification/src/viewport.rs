//! The logical viewport that the engine is told to render into.

use vstd::prelude::*;

verus! {

/// The logical width of every page, in CSS pixels.
pub const LOGICAL_WIDTH: u32 = 375;

/// The height of the viewport while the page's own height is not yet known,
/// and the height assumed where it cannot be measured.
pub const PROBE_HEIGHT: u32 = 800;

/// Device pixels per CSS pixel.
pub const DEVICE_SCALE: u32 = 4;

/// A viewport override: size in CSS pixels, pixel density, and whether the
/// engine emulates a mobile device.
#[derive(Clone, Copy, Debug, PartialEq, Eq, Structural)]
pub struct ViewportSpec {
    pub width: u32,
    pub height: u32,
    pub device_scale: u32,
    pub mobile: bool,
}

impl ViewportSpec {
    /// The viewport of a conversion at `height`: everything but the height is
    /// fixed.
    pub open spec fn at_height(height: u32) -> ViewportSpec {
        ViewportSpec {
            width: LOGICAL_WIDTH,
            height,
            device_scale: DEVICE_SCALE,
            mobile: true,
        }
    }

    /// The viewport in which a page is loaded and measured.
    pub fn probe() -> (v: ViewportSpec)
        ensures
            v == Self::at_height(PROBE_HEIGHT),
    {
        ViewportSpec {
            width: LOGICAL_WIDTH,
            height: PROBE_HEIGHT,
            device_scale: DEVICE_SCALE,
            mobile: true,
        }
    }

    /// The viewport in which a page of the measured `height` is captured.
    pub fn fitted(height: u32) -> (v: ViewportSpec)
        ensures
            v == Self::at_height(height),
    {
        ViewportSpec { width: LOGICAL_WIDTH, height, device_scale: DEVICE_SCALE, mobile: true }
    }
}

/// The height to capture at, from what the engine reported for the page:
/// the reported height, or the probe height where there is no usable report.
pub fn measured_height(reading: Option<u32>) -> (height: u32)
    ensures
        height == match reading {
            Some(h) => h,
            None => PROBE_HEIGHT,
        },
{
    match reading {
        Some(h) => h,
        None => PROBE_HEIGHT,
    }
}

/// From the probe to the capture only the height of the viewport changes:
/// width, pixel density and mobile emulation are the same in both.
pub proof fn lemma_only_height_changes(height: u32)
    ensures
        ViewportSpec::at_height(height).width == ViewportSpec::at_height(PROBE_HEIGHT).width,
        ViewportSpec::at_height(height).device_scale == ViewportSpec::at_height(
            PROBE_HEIGHT,
        ).device_scale,
        ViewportSpec::at_height(height).mobile == ViewportSpec::at_height(PROBE_HEIGHT).mobile,
        ViewportSpec::at_height(height).height == height,
{
}

} // verus!
