//! The voxel volume: an axis-aligned box sampled by cubic voxels.
//!
//! Lengths are fixed-point integers: `LENGTH_UNIT` of them make one world
//! unit, so a box corner and the voxel edge are exact values (decimal lengths
//! down to a millionth included) and the voxel counts below are exact floors.
use vstd::prelude::*;

verus! {

/// Fixed-point length units in one world unit.
pub const LENGTH_UNIT: i64 = 1_000_000;

/// Three unsigned counts, one per axis.
#[derive(Clone, Copy, Debug, PartialEq, Eq, Structural)]
pub struct UVec3 {
    pub x: u32,
    pub y: u32,
    pub z: u32,
}

impl UVec3 {
    pub fn new(x: u32, y: u32, z: u32) -> (r: UVec3)
        ensures
            r == (UVec3 { x, y, z }),
    {
        UVec3 { x, y, z }
    }

    /// Product of the three components.
    pub open spec fn product(self) -> int {
        self.x as int * self.y as int * self.z as int
    }
}

/// A point in space, in fixed-point length units.
#[derive(Clone, Copy, Debug, PartialEq, Eq, Structural)]
pub struct FixedVec3 {
    pub x: i64,
    pub y: i64,
    pub z: i64,
}

impl FixedVec3 {
    pub fn new(x: i64, y: i64, z: i64) -> (r: FixedVec3)
        ensures
            r == (FixedVec3 { x, y, z }),
    {
        FixedVec3 { x, y, z }
    }

    /// Every component of `self` is at most the matching one of `o`.
    pub open spec fn le(self, o: FixedVec3) -> bool {
        self.x <= o.x && self.y <= o.y && self.z <= o.z
    }
}

/// Axis-aligned bounding box.
#[derive(Clone, Copy, Debug, PartialEq, Eq, Structural)]
pub struct Aabb3d {
    pub min: FixedVec3,
    pub max: FixedVec3,
}

impl Aabb3d {
    /// The box of the given `center` and `half_size`, which spans
    /// `center - half_size` to `center + half_size` on every axis.
    pub fn new(center: FixedVec3, half_size: FixedVec3) -> (r: Aabb3d)
        requires
            half_size.x >= 0 && half_size.y >= 0 && half_size.z >= 0,
            i64::MIN <= center.x - half_size.x && center.x + half_size.x <= i64::MAX,
            i64::MIN <= center.y - half_size.y && center.y + half_size.y <= i64::MAX,
            i64::MIN <= center.z - half_size.z && center.z + half_size.z <= i64::MAX,
        ensures
            r.min == (FixedVec3 {
                x: (center.x - half_size.x) as i64,
                y: (center.y - half_size.y) as i64,
                z: (center.z - half_size.z) as i64,
            }),
            r.max == (FixedVec3 {
                x: (center.x + half_size.x) as i64,
                y: (center.y + half_size.y) as i64,
                z: (center.z + half_size.z) as i64,
            }),
    {
        Aabb3d {
            min: FixedVec3 {
                x: center.x - half_size.x,
                y: center.y - half_size.y,
                z: center.z - half_size.z,
            },
            max: FixedVec3 {
                x: center.x + half_size.x,
                y: center.y + half_size.y,
                z: center.z + half_size.z,
            },
        }
    }

    /// The box with corners `min` and `max`.
    pub fn from_corners(min: FixedVec3, max: FixedVec3) -> (r: Aabb3d)
        ensures
            r == (Aabb3d { min, max }),
    {
        Aabb3d { min, max }
    }
}

/// Voxels of edge `voxel_size` that fit between `min` and `max` on one axis:
/// the floor of the span over the edge, saturated at `u32::MAX` as a cast of
/// a larger count to `u32` would be.
pub open spec fn axis_count(min: i64, max: i64, voxel_size: u64) -> u32 {
    let n = (max - min) / (voxel_size as int);
    if n > u32::MAX {
        u32::MAX
    } else {
        n as u32
    }
}

/// Voxel counts per axis of a box sampled with edge `voxel_size`.
pub open spec fn grid_dims(min: FixedVec3, max: FixedVec3, voxel_size: u64) -> UVec3 {
    UVec3 {
        x: axis_count(min.x, max.x, voxel_size),
        y: axis_count(min.y, max.y, voxel_size),
        z: axis_count(min.z, max.z, voxel_size),
    }
}

/// A box and an edge are a valid volume when the edge is positive and the
/// box is not inverted on any axis.
pub open spec fn valid_volume(min: FixedVec3, max: FixedVec3, voxel_size: u64) -> bool {
    voxel_size > 0 && min.le(max)
}

fn axis_voxel_count(min: i64, max: i64, voxel_size: u64) -> (r: u32)
    requires
        min <= max,
        voxel_size > 0,
    ensures
        r == axis_count(min, max, voxel_size),
{
    let span: u128 = (max as i128 - min as i128) as u128;
    let n: u128 = span / (voxel_size as u128);
    if n > u32::MAX as u128 {
        u32::MAX
    } else {
        n as u32
    }
}

fn count_grid(min: &FixedVec3, max: &FixedVec3, voxel_size: u64) -> (r: UVec3)
    requires
        valid_volume(*min, *max, voxel_size),
    ensures
        r == grid_dims(*min, *max, voxel_size),
{
    UVec3 {
        x: axis_voxel_count(min.x, max.x, voxel_size),
        y: axis_voxel_count(min.y, max.y, voxel_size),
        z: axis_voxel_count(min.z, max.z, voxel_size),
    }
}

/// The region to mesh and the edge length of its voxels.
#[derive(Clone, Copy, Debug)]
pub struct VoxelVolume {
    pub aabb: Aabb3d,
    pub voxel_size: u64,
}

impl VoxelVolume {
    /// Positive voxel edge and a box with `max >= min` on every axis.
    pub open spec fn wf(&self) -> bool {
        valid_volume(self.aabb.min, self.aabb.max, self.voxel_size)
    }

    /// Voxel counts per axis.
    pub open spec fn dims(&self) -> UVec3 {
        grid_dims(self.aabb.min, self.aabb.max, self.voxel_size)
    }

    /// Number of voxels in the whole volume.
    pub open spec fn total_voxels(&self) -> int {
        self.dims().product()
    }

    /// A volume over `aabb` with voxel edge `voxel_size`, or `None` where the
    /// two do not make a valid volume.
    pub fn new(aabb: Aabb3d, voxel_size: u64) -> (r: Option<VoxelVolume>)
        ensures
            r is Some <==> valid_volume(aabb.min, aabb.max, voxel_size),
            r is Some ==> r->0.aabb == aabb && r->0.voxel_size == voxel_size,
    {
        if voxel_size > 0 && aabb.min.x <= aabb.max.x && aabb.min.y <= aabb.max.y
            && aabb.min.z <= aabb.max.z {
            Some(VoxelVolume { aabb, voxel_size })
        } else {
            None
        }
    }

    /// Voxel counts per axis.
    #[inline]
    pub fn count_dims(&self) -> (r: UVec3)
        requires
            self.wf(),
        ensures
            r == self.dims(),
    {
        count_grid(&self.aabb.min, &self.aabb.max, self.voxel_size)
    }

    /// Number of voxels, for a volume whose count fits in `u32`.
    #[inline]
    pub fn count_all(&self) -> (r: u32)
        requires
            self.wf(),
            self.total_voxels() <= u32::MAX,
        ensures
            r == self.total_voxels(),
    {
        self.checked_count_all().unwrap()
    }

    /// Whether the volume is valid.
    pub fn is_valid(&self) -> (r: bool)
        ensures
            r == self.wf(),
    {
        self.voxel_size > 0 && self.aabb.min.x <= self.aabb.max.x
            && self.aabb.min.y <= self.aabb.max.y && self.aabb.min.z <= self.aabb.max.z
    }

    /// Number of voxels, or `None` where it does not fit in `u32`.
    pub fn checked_count_all(&self) -> (r: Option<u32>)
        requires
            self.wf(),
        ensures
            r is Some <==> self.total_voxels() <= u32::MAX,
            r is Some ==> r->0 == self.total_voxels(),
    {
        let d = self.count_dims();
        proof {
            lemma_product_bounds(d);
        }
        let xy: u64 = d.x as u64 * d.y as u64;
        if d.z == 0 {
            proof {
                assert(d.product() == 0) by (nonlinear_arith)
                    requires
                        d.z == 0,
                ;
            }
            Some(0)
        } else if xy > u32::MAX as u64 {
            proof {
                assert(d.product() >= xy) by (nonlinear_arith)
                    requires
                        d.z >= 1,
                        xy == d.x as int * d.y as int,
                ;
            }
            None
        } else {
            proof {
                assert(xy * d.z <= u32::MAX as int * u32::MAX as int) by (nonlinear_arith)
                    requires
                        xy <= u32::MAX,
                        d.z <= u32::MAX,
                ;
            }
            let all: u64 = xy * d.z as u64;
            if all > u32::MAX as u64 {
                None
            } else {
                Some(all as u32)
            }
        }
    }
}

/// Products of the counts are non-negative, and the two-factor product
/// bounds the three-factor one.
proof fn lemma_product_bounds(d: UVec3)
    ensures
        d.x as int * d.y as int >= 0,
        d.product() >= 0,
        d.product() == (d.x as int * d.y as int) * d.z as int,
        d.x as int * d.y as int <= u32::MAX as int * u32::MAX as int,
{
    assert(d.x as int * d.y as int >= 0) by (nonlinear_arith);
    assert(d.product() >= 0) by (nonlinear_arith);
    assert(d.x as int * d.y as int <= u32::MAX as int * u32::MAX as int) by (nonlinear_arith);
}

impl Default for VoxelVolume {
    /// The box of half-size one world unit around the origin, sampled with
    /// voxels a quarter unit wide.
    fn default() -> (r: VoxelVolume)
        ensures
            r.aabb.min.x == -LENGTH_UNIT && r.aabb.min.y == -LENGTH_UNIT && r.aabb.min.z == -LENGTH_UNIT,
            r.aabb.max == (FixedVec3 { x: LENGTH_UNIT, y: LENGTH_UNIT, z: LENGTH_UNIT }),
            r.voxel_size == LENGTH_UNIT / 4,
    {
        VoxelVolume {
            aabb: Aabb3d::new(
                FixedVec3 { x: 0, y: 0, z: 0 },
                FixedVec3 { x: LENGTH_UNIT, y: LENGTH_UNIT, z: LENGTH_UNIT },
            ),
            voxel_size: (LENGTH_UNIT / 4) as u64,
        }
    }
}

/// The volume as the compute kernel receives it, snapshotted once per frame.
#[derive(Clone, Copy, Debug)]
pub struct VoxelVolumeUniform {
    pub min_bound: FixedVec3,
    pub max_bound: FixedVec3,
    pub voxel_size: u64,
}

impl VoxelVolumeUniform {
    pub open spec fn wf(&self) -> bool {
        valid_volume(self.min_bound, self.max_bound, self.voxel_size)
    }

    pub open spec fn dims(&self) -> UVec3 {
        grid_dims(self.min_bound, self.max_bound, self.voxel_size)
    }

    /// Whether the snapshot describes a valid volume.
    pub fn is_valid(&self) -> (r: bool)
        ensures
            r == self.wf(),
    {
        self.voxel_size > 0 && self.min_bound.x <= self.max_bound.x
            && self.min_bound.y <= self.max_bound.y && self.min_bound.z <= self.max_bound.z
    }

    /// Snapshot of `source` for the compute stage.
    pub fn extract_resource(source: &VoxelVolume) -> (r: VoxelVolumeUniform)
        ensures
            r.min_bound == source.aabb.min,
            r.max_bound == source.aabb.max,
            r.voxel_size == source.voxel_size,
    {
        VoxelVolumeUniform {
            min_bound: source.aabb.min,
            max_bound: source.aabb.max,
            voxel_size: source.voxel_size,
        }
    }

    /// Voxel counts per axis, as the compute stage sizes its dispatch.
    pub fn count_dims(&self) -> (r: UVec3)
        requires
            self.wf(),
        ensures
            r == self.dims(),
    {
        count_grid(&self.min_bound, &self.max_bound, self.voxel_size)
    }
}

/// The snapshot handed to the compute stage is valid and counts exactly the
/// voxels that the buffer was sized for.
pub proof fn lemma_uniform_agrees(volume: VoxelVolume, uniform: VoxelVolumeUniform)
    requires
        volume.wf(),
        uniform.min_bound == volume.aabb.min,
        uniform.max_bound == volume.aabb.max,
        uniform.voxel_size == volume.voxel_size,
    ensures
        uniform.wf(),
        uniform.dims() == volume.dims(),
        uniform.dims().product() == volume.total_voxels(),
{
}

} // verus!
