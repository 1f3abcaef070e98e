//! The shared vertex buffer: written by the compute stage, drawn by the
//! display stage, sized once for the worst case of its volume.
use vstd::prelude::*;
use crate::compute::VERTICES_PER_VOXEL;
use crate::volume::VoxelVolume;

verus! {

/// Bytes of one vertex record: a position of three 4-byte floats and 4 bytes
/// of padding.
pub const VERTEX_STRIDE: u64 = 16;

/// Bytes reserved for a volume of `total_voxels` voxels.
pub open spec fn vertex_buffer_bytes(total_voxels: int) -> int {
    VERTICES_PER_VOXEL * VERTEX_STRIDE * total_voxels
}

/// Vertices that a draw over a buffer of `byte_length` bytes covers.
pub open spec fn vertices_in(byte_length: int) -> int {
    byte_length / (VERTEX_STRIDE as int)
}

/// The buffers of the marching-cubes pipeline.
pub struct MarchingCubesBuffers {
    vertex_buffer_size: u64,
}

impl View for MarchingCubesBuffers {
    type V = nat;

    /// Byte capacity of the vertex buffer.
    closed spec fn view(&self) -> nat {
        self.vertex_buffer_size as nat
    }
}

impl MarchingCubesBuffers {
    /// Sizing for `volume`: room for `VERTICES_PER_VOXEL` vertices of every
    /// voxel, whatever the compute stage emits; `None` where that many bytes
    /// do not fit in `u64`.
    pub fn for_volume(volume: &VoxelVolume) -> (r: Option<MarchingCubesBuffers>)
        requires
            volume.wf(),
        ensures
            r is Some <==> vertex_buffer_bytes(volume.total_voxels()) <= u64::MAX,
            r is Some ==> r->0@ == vertex_buffer_bytes(volume.total_voxels()),
    {
        let d = volume.count_dims();
        proof {
            assert(d.x as int * d.y as int <= 0xffff_ffff_ffff_ffff) by (nonlinear_arith)
                requires
                    d.x <= 0xffff_ffff,
                    d.y <= 0xffff_ffff,
            ;
        }
        let xy: u128 = d.x as u128 * d.y as u128;
        proof {
            assert(xy * d.z <= 0xffff_ffff_ffff_ffff * 0xffff_ffff) by (nonlinear_arith)
                requires
                    xy == d.x as int * d.y as int,
                    d.x <= 0xffff_ffff,
                    d.y <= 0xffff_ffff,
                    d.z <= 0xffff_ffff,
            ;
            assert(d.product() == xy * d.z) by (nonlinear_arith)
                requires
                    xy == d.x as int * d.y as int,
            ;
        }
        let voxels: u128 = xy * d.z as u128;
        let per_voxel: u128 = (VERTICES_PER_VOXEL as u64 * VERTEX_STRIDE) as u128;
        assert(per_voxel * voxels <= 192 * (0xffff_ffff_ffff_ffff * 0xffff_ffff)) by (nonlinear_arith)
            requires
                per_voxel == 192,
                voxels <= 0xffff_ffff_ffff_ffff * 0xffff_ffff,
        ;
        let size: u128 = per_voxel * voxels;
        if size > u64::MAX as u128 {
            None
        } else {
            Some(MarchingCubesBuffers { vertex_buffer_size: size as u64 })
        }
    }

    /// Byte capacity of the vertex buffer.
    pub fn vertex_buffer_size(&self) -> (r: u64)
        ensures
            r == self@,
    {
        self.vertex_buffer_size
    }
}

/// A buffer sized for a volume holds a whole number of vertex records, and a
/// draw over its full length covers exactly the vertices reserved for the
/// voxels.
pub proof fn lemma_buffer_holds_whole_vertices(total_voxels: int)
    requires
        0 <= total_voxels,
    ensures
        vertex_buffer_bytes(total_voxels) % (VERTEX_STRIDE as int) == 0,
        vertices_in(vertex_buffer_bytes(total_voxels)) == VERTICES_PER_VOXEL * total_voxels,
{
    let v = VERTICES_PER_VOXEL * total_voxels;
    assert(vertex_buffer_bytes(total_voxels) == v * 16) by (nonlinear_arith)
        requires
            v == VERTICES_PER_VOXEL * total_voxels,
            VERTICES_PER_VOXEL == 12,
            VERTEX_STRIDE == 16,
    ;
    vstd::arithmetic::div_mod::lemma_fundamental_div_mod_converse(v * 16, 16, v, 0);
}

} // verus!
