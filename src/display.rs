//! The display stage: draws the shared vertex buffer as a triangle list.
use vstd::prelude::*;
use crate::buffers::{vertices_in, VERTEX_STRIDE};
use crate::view::{color_target_format, ColorTargetFormat, DrawCall, ViewSettings};

verus! {

/// Marks an entity whose view draws the voxel mesh.
#[derive(Clone, Copy, Debug, Default)]
pub struct VoxeledRendered;

/// Depth comparison of the display pass, for a reversed depth buffer.
#[derive(Clone, Copy, Debug, PartialEq, Eq, Structural)]
pub enum DepthCompare {
    Greater,
    GreaterEqual,
}

/// The settings of the display pipeline that vary or matter to the pass.
#[derive(Clone, Copy, Debug, PartialEq, Eq, Structural)]
pub struct DisplayPipelineSpec {
    pub color_target: ColorTargetFormat,
    pub msaa_samples: u32,
    /// Bytes between consecutive vertices of the vertex stream.
    pub vertex_stride: u64,
    /// Byte offset of the position within a vertex record.
    pub position_offset: u64,
    /// Back-facing triangles are culled.
    pub cull_back_faces: bool,
    pub depth_write_enabled: bool,
    pub depth_compare: DepthCompare,
}

/// The display pipeline for a view: its color format and sample count, a
/// position-only vertex stream of `VERTEX_STRIDE`-byte records, back faces
/// culled, and depth written and tested greater-or-equal.
pub fn specialize_display_pipeline(view: ViewSettings) -> (r: DisplayPipelineSpec)
    ensures
        r.color_target == (if view.hdr { ColorTargetFormat::Hdr } else { ColorTargetFormat::Standard }),
        r.msaa_samples == view.msaa_samples,
        r.vertex_stride == VERTEX_STRIDE,
        r.position_offset == 0,
        r.cull_back_faces,
        r.depth_write_enabled,
        r.depth_compare == DepthCompare::GreaterEqual,
{
    DisplayPipelineSpec {
        color_target: color_target_format(view.hdr),
        msaa_samples: view.msaa_samples,
        vertex_stride: VERTEX_STRIDE,
        position_offset: 0,
        cull_back_faces: true,
        depth_write_enabled: true,
        depth_compare: DepthCompare::GreaterEqual,
    }
}

/// The draw over a vertex buffer of `byte_length` bytes: every whole vertex
/// record in it, one instance; `None` where the vertex count exceeds what a
/// draw can address.
pub fn draw_voxeled(byte_length: u64) -> (r: Option<DrawCall>)
    ensures
        r is Some <==> vertices_in(byte_length as int) <= u32::MAX,
        r is Some ==> r->0.vertex_count == vertices_in(byte_length as int)
            && r->0.instance_count == 1,
{
    let count: u64 = byte_length / VERTEX_STRIDE;
    if count > u32::MAX as u64 {
        None
    } else {
        Some(DrawCall { vertex_count: count as u32, instance_count: 1 })
    }
}

} // verus!
