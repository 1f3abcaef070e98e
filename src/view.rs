//! What the render passes need to know of a view, and the draws they issue.
use vstd::prelude::*;

verus! {

/// Per-view settings that select a pipeline variant.
#[derive(Clone, Copy, Debug, PartialEq, Eq, Structural)]
pub struct ViewSettings {
    /// The view renders to a high-dynamic-range target.
    pub hdr: bool,
    /// Multisample count of the view's targets; 1 means multisampling is off.
    pub msaa_samples: u32,
}

/// Texture format of a pass's color target.
#[derive(Clone, Copy, Debug, PartialEq, Eq, Structural)]
pub enum ColorTargetFormat {
    /// The view target's high-dynamic-range format.
    Hdr,
    /// The engine's default display format.
    Standard,
}

/// The color target format for a view that is or is not HDR.
pub fn color_target_format(hdr: bool) -> (r: ColorTargetFormat)
    ensures
        r == (if hdr { ColorTargetFormat::Hdr } else { ColorTargetFormat::Standard }),
{
    if hdr {
        ColorTargetFormat::Hdr
    } else {
        ColorTargetFormat::Standard
    }
}

/// A non-indexed draw of vertices `0..vertex_count`, instances `0..instance_count`.
#[derive(Clone, Copy, Debug, PartialEq, Eq, Structural)]
pub struct DrawCall {
    pub vertex_count: u32,
    pub instance_count: u32,
}

} // verus!
