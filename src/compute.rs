//! The compute stage: how many workgroups a frame dispatches, whether the
//! compute pipeline may be used yet, and where each voxel writes its vertices.
use vstd::prelude::*;
use vstd::arithmetic::div_mod::lemma_fundamental_div_mod_converse;
use crate::volume::{UVec3, VoxelVolumeUniform};

verus! {

/// Number of voxels along each axis covered by one compute workgroup.
pub const WORKGROUP_SIZE: u32 = 8;

/// Vertices reserved in the output buffer for every voxel.
pub const VERTICES_PER_VOXEL: u32 = 12;

/// Workgroups along an axis of `voxel_count` voxels: one more than the whole
/// groups that fit, so an exact multiple of the group size gets a spare group.
pub open spec fn groups_for(voxel_count: u32) -> int {
    (voxel_count + WORKGROUP_SIZE) / (WORKGROUP_SIZE as int)
}

/// Workgroups per axis for a grid of `voxels`.
pub open spec fn dispatch_dims(voxels: UVec3) -> UVec3 {
    UVec3 {
        x: groups_for(voxels.x) as u32,
        y: groups_for(voxels.y) as u32,
        z: groups_for(voxels.z) as u32,
    }
}

/// Number of workgroups dispatched along one axis holding `voxel_count` voxels.
pub fn workgroup_count(voxel_count: u32) -> (r: u32)
    ensures
        r == groups_for(voxel_count),
{
    ((voxel_count as u64 + WORKGROUP_SIZE as u64) / WORKGROUP_SIZE as u64) as u32
}

/// Workgroups per axis for a grid of `voxel_count` voxels.
pub fn dispatch_size(voxel_count: UVec3) -> (r: UVec3)
    ensures
        r == dispatch_dims(voxel_count),
{
    UVec3 {
        x: workgroup_count(voxel_count.x),
        y: workgroup_count(voxel_count.y),
        z: workgroup_count(voxel_count.z),
    }
}

/// The groups dispatched along an axis cover all of its voxels, with fewer
/// than one group to spare; on an exact multiple of the group size exactly
/// one whole group is spare.
pub proof fn lemma_dispatch_covers(voxel_count: u32)
    ensures
        groups_for(voxel_count) * WORKGROUP_SIZE > voxel_count,
        groups_for(voxel_count) * WORKGROUP_SIZE <= voxel_count + WORKGROUP_SIZE,
        voxel_count % WORKGROUP_SIZE == 0 ==> groups_for(voxel_count) == voxel_count
            / WORKGROUP_SIZE + 1,
{
}

/// Compilation state of the compute pipeline.
#[derive(Debug)]
pub enum PipelineState {
    /// Still queued or compiling.
    Pending,
    /// Compiled: dispatch may use it.
    Ready,
    /// Compilation failed with the given message.
    Failed(String),
}

/// Render-graph node of the compute stage: tracks readiness of its pipeline
/// and decides each frame's dispatch.
pub struct MarchingCubesNode {
    state: PipelineState,
}

impl View for MarchingCubesNode {
    type V = PipelineState;

    closed spec fn view(&self) -> PipelineState {
        self.state
    }
}

impl MarchingCubesNode {
    /// A node whose pipeline is still pending.
    pub fn new() -> (r: MarchingCubesNode)
        ensures
            r@ is Pending,
    {
        MarchingCubesNode { state: PipelineState::Pending }
    }

    /// Whether dispatch may run.
    pub fn is_ready(&self) -> (r: bool)
        ensures
            r == self@ is Ready,
    {
        match self.state {
            PipelineState::Ready => true,
            _ => false,
        }
    }

    /// Takes in the pipeline cache's current `observed` state. A pending
    /// node takes it on; a ready node stays ready. A failed compilation seen
    /// by a pending node is fatal and is never handed in: the caller aborts.
    pub fn update(&mut self, observed: PipelineState)
        requires
            !(old(self)@ is Pending && observed is Failed),
        ensures
            old(self)@ is Pending ==> final(self)@ == observed,
            !(old(self)@ is Pending) ==> final(self)@ == old(self)@,
    {
        match self.state {
            PipelineState::Pending => {
                self.state = observed;
            },
            _ => {},
        }
    }

    /// The workgroups to dispatch this frame for `volume`, or `None` (nothing
    /// is dispatched or written) while the pipeline is not ready or the GPU
    /// resources the pass binds are not yet in place.
    pub fn run(&self, volume: &VoxelVolumeUniform, resources_ready: bool) -> (r: Option<UVec3>)
        requires
            volume.wf(),
        ensures
            r is Some <==> (self@ is Ready && resources_ready),
            r is Some ==> r->0 == dispatch_dims(volume.dims()),
    {
        if !self.is_ready() || !resources_ready {
            return None;
        }
        let voxel_count = volume.count_dims();
        Some(dispatch_size(voxel_count))
    }
}

impl Default for MarchingCubesNode {
    fn default() -> (r: MarchingCubesNode)
        ensures
            r@ is Pending,
    {
        MarchingCubesNode::new()
    }
}

/// Position of voxel `(x, y, z)` in x-fastest order over a grid of `dims`.
pub open spec fn voxel_index(dims: UVec3, x: int, y: int, z: int) -> int {
    x + dims.x * (y + dims.y * z)
}

/// Vertex slot of the `k`-th vertex emitted by voxel `(x, y, z)`.
pub open spec fn slot_of(dims: UVec3, x: int, y: int, z: int, k: int) -> int {
    VERTICES_PER_VOXEL * voxel_index(dims, x, y, z) + k
}

/// Whether `(x, y, z, k)` names a voxel of the grid and one of its vertices.
pub open spec fn in_grid(dims: UVec3, x: int, y: int, z: int, k: int) -> bool {
    0 <= x < dims.x && 0 <= y < dims.y && 0 <= z < dims.z && 0 <= k < VERTICES_PER_VOXEL
}

/// Slot in the output buffer where the `k`-th vertex of voxel `(x, y, z)` is
/// written, or `None` where the write must be dropped: an invocation outside
/// the grid, or a vertex beyond the voxel's reserve.
pub fn vertex_slot(dims: UVec3, x: u32, y: u32, z: u32, k: u32) -> (r: Option<u64>)
    requires
        dims.product() <= u32::MAX,
    ensures
        r is Some <==> in_grid(dims, x as int, y as int, z as int, k as int),
        r is Some ==> r->0 == slot_of(dims, x as int, y as int, z as int, k as int),
{
    if x >= dims.x || y >= dims.y || z >= dims.z || k >= VERTICES_PER_VOXEL {
        return None;
    }
    proof {
        lemma_index_in_grid(dims, x as int, y as int, z as int);
    }
    let plane: u64 = y as u64 + dims.y as u64 * z as u64;
    let index: u64 = x as u64 + dims.x as u64 * plane;
    assert(index == voxel_index(dims, x as int, y as int, z as int));
    let per_voxel: u64 = VERTICES_PER_VOXEL as u64;
    assert(per_voxel * index + k < 12 * 0x1_0000_0000) by (nonlinear_arith)
        requires
            per_voxel == 12,
            index < 0x1_0000_0000,
            k < 12,
    ;
    Some(per_voxel * index + k as u64)
}

/// A voxel of the grid has an index below the number of voxels, and each of
/// its partial sums is bounded the same way.
proof fn lemma_index_in_grid(dims: UVec3, x: int, y: int, z: int)
    requires
        0 <= x < dims.x,
        0 <= y < dims.y,
        0 <= z < dims.z,
    ensures
        0 <= dims.y * z,
        0 <= y + dims.y * z < dims.y * dims.z,
        dims.y * dims.z <= dims.product(),
        dims.x * (y + dims.y * z) <= dims.x * (dims.y * dims.z - 1),
        0 <= voxel_index(dims, x, y, z) < dims.product(),
{
    let (dx, dy, dz) = (dims.x as int, dims.y as int, dims.z as int);
    assert(0 <= dy * z && dy * dz <= dx * dy * dz) by (nonlinear_arith)
        requires
            1 <= dx,
            0 <= dy,
            0 <= z < dz,
    ;
    assert(0 <= y + dy * z < dy * dz) by (nonlinear_arith)
        requires
            0 <= y < dy,
            0 <= z < dz,
    ;
    assert(dx * (y + dy * z) <= dx * (dy * dz - 1)) by (nonlinear_arith)
        requires
            0 <= y + dy * z <= dy * dz - 1,
            dx >= 0,
    ;
    assert(0 <= x + dx * (y + dy * z) < dx * dy * dz) by (nonlinear_arith)
        requires
            0 <= x < dx,
            0 <= y + dy * z < dy * dz,
            dx * (y + dy * z) <= dx * (dy * dz - 1),
    ;
}

/// Concurrent voxel invocations never write the same vertex slot: distinct
/// (voxel, vertex) pairs of the grid get distinct slots, and every slot lies
/// within the `VERTICES_PER_VOXEL` vertices reserved per voxel.
pub proof fn lemma_vertex_slots_disjoint(
    dims: UVec3,
    x1: int,
    y1: int,
    z1: int,
    k1: int,
    x2: int,
    y2: int,
    z2: int,
    k2: int,
)
    requires
        in_grid(dims, x1, y1, z1, k1),
        in_grid(dims, x2, y2, z2, k2),
        (x1, y1, z1, k1) != (x2, y2, z2, k2),
    ensures
        slot_of(dims, x1, y1, z1, k1) != slot_of(dims, x2, y2, z2, k2),
        0 <= slot_of(dims, x1, y1, z1, k1) < VERTICES_PER_VOXEL * dims.product(),
{
    lemma_index_in_grid(dims, x1, y1, z1);
    lemma_index_in_grid(dims, x2, y2, z2);
    let n = VERTICES_PER_VOXEL as int;
    let (dx, dy) = (dims.x as int, dims.y as int);
    let i1 = voxel_index(dims, x1, y1, z1);
    let i2 = voxel_index(dims, x2, y2, z2);
    assert(0 <= n * i1 + k1 < n * dims.product()) by (nonlinear_arith)
        requires
            0 <= i1 < dims.product(),
            0 <= k1 < n,
    ;
    if slot_of(dims, x1, y1, z1, k1) == slot_of(dims, x2, y2, z2, k2) {
        let s = n * i1 + k1;
        assert(n * i1 + k1 == n * i2 + k2);
        lemma_fundamental_div_mod_converse(s, n, i1, k1);
        lemma_fundamental_div_mod_converse(s, n, i2, k2);
        assert(i1 * n == n * i1 && i2 * n == n * i2) by (nonlinear_arith);
        lemma_fundamental_div_mod_converse(i1, dx, y1 + dy * z1, x1);
        lemma_fundamental_div_mod_converse(i1, dx, y2 + dy * z2, x2);
        assert((y1 + dy * z1) * dx == dx * (y1 + dy * z1)) by (nonlinear_arith);
        assert((y2 + dy * z2) * dx == dx * (y2 + dy * z2)) by (nonlinear_arith);
        assert((y1 + dy * z1) == (y2 + dy * z2));
        lemma_fundamental_div_mod_converse(y1 + dy * z1, dy, z1, y1);
        lemma_fundamental_div_mod_converse(y1 + dy * z1, dy, z2, y2);
        assert(z1 * dy == dy * z1 && z2 * dy == dy * z2) by (nonlinear_arith);
    }
}

} // verus!
