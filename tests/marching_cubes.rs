use rendering::buffers::{MarchingCubesBuffers, VERTEX_STRIDE};
use rendering::compute::{
    dispatch_size, vertex_slot, workgroup_count, MarchingCubesNode, PipelineState,
    VERTICES_PER_VOXEL, WORKGROUP_SIZE,
};
use rendering::display::{draw_voxeled, specialize_display_pipeline, DepthCompare};
use rendering::view::{ColorTargetFormat, DrawCall, ViewSettings};
use rendering::volume::{Aabb3d, FixedVec3, UVec3, VoxelVolume, VoxelVolumeUniform, LENGTH_UNIT};

fn cube(side: i64, voxel_size: u64) -> VoxelVolume {
    VoxelVolume::new(
        Aabb3d::from_corners(FixedVec3::new(0, 0, 0), FixedVec3::new(side, side, side)),
        voxel_size,
    )
    .unwrap()
}

fn ready_node() -> MarchingCubesNode {
    let mut node = MarchingCubesNode::new();
    node.update(PipelineState::Ready);
    node
}

#[test]
fn unit_cube_end_to_end() {
    let volume = VoxelVolume::new(
        Aabb3d::from_corners(FixedVec3::new(0, 0, 0), FixedVec3::new(LENGTH_UNIT, LENGTH_UNIT, LENGTH_UNIT)),
        (LENGTH_UNIT / 4) as u64,
    )
    .unwrap();
    assert_eq!(volume.count_dims(), UVec3::new(4, 4, 4));
    assert_eq!(volume.count_all(), 64);
    let buffers = MarchingCubesBuffers::for_volume(&volume).unwrap();
    assert_eq!(buffers.vertex_buffer_size(), 12288);
    let uniform = VoxelVolumeUniform::extract_resource(&volume);
    assert_eq!(ready_node().run(&uniform, true), Some(UVec3::new(1, 1, 1)));
}

#[test]
fn default_volume_spans_one_unit_around_origin() {
    let volume = VoxelVolume::default();
    assert_eq!(volume.aabb.min, FixedVec3::new(-LENGTH_UNIT, -LENGTH_UNIT, -LENGTH_UNIT));
    assert_eq!(volume.aabb.max, FixedVec3::new(LENGTH_UNIT, LENGTH_UNIT, LENGTH_UNIT));
    assert_eq!(volume.voxel_size, (LENGTH_UNIT / 4) as u64);
    assert_eq!(volume.count_dims(), UVec3::new(8, 8, 8));
    assert_eq!(volume.count_all(), 512);
    let buffers = MarchingCubesBuffers::for_volume(&volume).unwrap();
    assert_eq!(buffers.vertex_buffer_size(), 98304);
}

#[test]
fn box_from_center_and_half_size() {
    let aabb = Aabb3d::new(FixedVec3::new(5, 6, 7), FixedVec3::new(1, 2, 3));
    assert_eq!(aabb.min, FixedVec3::new(4, 4, 4));
    assert_eq!(aabb.max, FixedVec3::new(6, 8, 10));
    let unit = Aabb3d::new(FixedVec3::new(0, 0, 0), FixedVec3::new(LENGTH_UNIT, LENGTH_UNIT, LENGTH_UNIT));
    assert_eq!(unit, VoxelVolume::default().aabb);
}

#[test]
fn decimal_voxel_size_counts_exactly() {
    let volume = VoxelVolume::new(
        Aabb3d::from_corners(FixedVec3::new(0, 0, 0), FixedVec3::new(LENGTH_UNIT, LENGTH_UNIT, LENGTH_UNIT)),
        (LENGTH_UNIT / 10) as u64,
    )
    .unwrap();
    assert_eq!(volume.count_dims(), UVec3::new(10, 10, 10));
}

#[test]
fn dims_floor_each_axis() {
    let volume = VoxelVolume::new(
        Aabb3d::from_corners(FixedVec3::new(-10, 0, 5), FixedVec3::new(10, 7, 5)),
        3,
    )
    .unwrap();
    assert_eq!(volume.count_dims(), UVec3::new(6, 2, 0));
    assert_eq!(volume.count_all(), 0);
    assert_eq!(volume.checked_count_all(), Some(0));
}

#[test]
fn total_is_product_of_dims() {
    let volume = VoxelVolume::new(
        Aabb3d::from_corners(FixedVec3::new(0, 0, 0), FixedVec3::new(20, 30, 50)),
        10,
    )
    .unwrap();
    let d = volume.count_dims();
    assert_eq!(d, UVec3::new(2, 3, 5));
    assert_eq!(volume.count_all(), d.x * d.y * d.z);
}

#[test]
fn invalid_volumes_are_rejected() {
    let aabb = Aabb3d::from_corners(FixedVec3::new(0, 0, 0), FixedVec3::new(1, 1, 1));
    assert!(VoxelVolume::new(aabb, 0).is_none());
    let inverted = Aabb3d::from_corners(FixedVec3::new(0, 2, 0), FixedVec3::new(1, 1, 1));
    assert!(VoxelVolume::new(inverted, 1).is_none());
    assert!(!VoxelVolume { aabb, voxel_size: 0 }.is_valid());
    assert!(!VoxelVolume { aabb: inverted, voxel_size: 1 }.is_valid());
    assert!(VoxelVolume { aabb, voxel_size: 1 }.is_valid());
}

#[test]
fn counts_saturate_and_overflow_is_reported() {
    let volume = VoxelVolume::new(
        Aabb3d::from_corners(FixedVec3::new(i64::MIN, 0, 0), FixedVec3::new(i64::MAX, 1, 1)),
        1,
    )
    .unwrap();
    assert_eq!(volume.count_dims(), UVec3::new(u32::MAX, 1, 1));
    assert_eq!(volume.checked_count_all(), Some(u32::MAX));
    let big = cube(1 << 20, 1);
    assert_eq!(big.checked_count_all(), None);
    assert!(MarchingCubesBuffers::for_volume(&big).is_none());
}

#[test]
fn buffer_sized_beyond_u32_voxel_counts() {
    let volume = cube(1 << 16, 1);
    assert_eq!(volume.checked_count_all(), None);
    let buffers = MarchingCubesBuffers::for_volume(&volume).unwrap();
    assert_eq!(buffers.vertex_buffer_size(), 192 << 48);
}

#[test]
fn dispatch_over_dispatches_exact_multiples() {
    assert_eq!(WORKGROUP_SIZE, 8);
    assert_eq!(workgroup_count(64), 9);
    assert_eq!(dispatch_size(UVec3::new(64, 64, 64)), UVec3::new(9, 9, 9));
    assert_eq!(workgroup_count(0), 1);
    assert_eq!(workgroup_count(7), 1);
    assert_eq!(workgroup_count(9), 2);
    assert_eq!(workgroup_count(u32::MAX), 536870912);
}

#[test]
fn dispatch_of_sixty_four_cubed_volume() {
    let volume = cube(64, 1);
    let uniform = VoxelVolumeUniform::extract_resource(&volume);
    assert_eq!(uniform.count_dims(), UVec3::new(64, 64, 64));
    assert_eq!(ready_node().run(&uniform, true), Some(UVec3::new(9, 9, 9)));
}

#[test]
fn pending_pipeline_dispatches_nothing() {
    let volume = cube(4, 1);
    let uniform = VoxelVolumeUniform::extract_resource(&volume);
    let mut node = MarchingCubesNode::default();
    assert_eq!(node.run(&uniform, true), None);
    node.update(PipelineState::Pending);
    assert!(!node.is_ready());
    assert_eq!(node.run(&uniform, true), None);
    node.update(PipelineState::Ready);
    assert!(node.is_ready());
    assert_eq!(node.run(&uniform, true), Some(UVec3::new(1, 1, 1)));
}

#[test]
fn missing_resources_skip_the_dispatch() {
    let uniform = VoxelVolumeUniform::extract_resource(&cube(4, 1));
    assert_eq!(ready_node().run(&uniform, false), None);
}

#[test]
fn ready_pipeline_stays_ready() {
    let mut node = ready_node();
    node.update(PipelineState::Failed("late".to_string()));
    assert!(node.is_ready());
    node.update(PipelineState::Pending);
    assert!(node.is_ready());
}

#[test]
fn buffer_capacity_reserves_twelve_vertices_per_voxel() {
    assert_eq!(VERTEX_STRIDE, 16);
    assert_eq!(VERTICES_PER_VOXEL, 12);
    let volume = cube(6, 2);
    assert_eq!(volume.count_all(), 27);
    let buffers = MarchingCubesBuffers::for_volume(&volume).unwrap();
    assert_eq!(buffers.vertex_buffer_size(), 12 * 16 * 27);
}

#[test]
fn draw_covers_whole_buffer() {
    let buffers = MarchingCubesBuffers::for_volume(&VoxelVolume::default()).unwrap();
    let draw = draw_voxeled(buffers.vertex_buffer_size()).unwrap();
    assert_eq!(draw, DrawCall { vertex_count: 6144, instance_count: 1 });
    assert_eq!(draw.vertex_count as u64 * VERTEX_STRIDE, buffers.vertex_buffer_size());
}

#[test]
fn draw_of_odd_length_and_too_many_vertices() {
    assert_eq!(draw_voxeled(0), Some(DrawCall { vertex_count: 0, instance_count: 1 }));
    assert_eq!(draw_voxeled(33), Some(DrawCall { vertex_count: 2, instance_count: 1 }));
    assert_eq!(
        draw_voxeled(16 * u32::MAX as u64),
        Some(DrawCall { vertex_count: u32::MAX, instance_count: 1 })
    );
    assert_eq!(draw_voxeled(16 * (u32::MAX as u64 + 1)), None);
}

#[test]
fn voxel_slots_are_disjoint_and_in_capacity() {
    let dims = UVec3::new(2, 2, 2);
    let mut seen = Vec::new();
    for z in 0..2 {
        for y in 0..2 {
            for x in 0..2 {
                for k in 0..12 {
                    let slot = vertex_slot(dims, x, y, z, k).unwrap();
                    assert!(slot < 12 * 8);
                    assert!(!seen.contains(&slot));
                    seen.push(slot);
                }
            }
        }
    }
    assert_eq!(seen.len(), 96);
    assert_eq!(vertex_slot(dims, 1, 1, 1, 11), Some(95));
    assert_eq!(vertex_slot(dims, 1, 0, 1, 3), Some(12 * 5 + 3));
}

#[test]
fn out_of_grid_writes_are_dropped() {
    let dims = UVec3::new(4, 4, 4);
    assert_eq!(vertex_slot(dims, 4, 0, 0, 0), None);
    assert_eq!(vertex_slot(dims, 0, 7, 0, 0), None);
    assert_eq!(vertex_slot(dims, 0, 0, 4, 0), None);
    assert_eq!(vertex_slot(dims, 0, 0, 0, 12), None);
}

#[test]
fn display_pipeline_settings() {
    let hdr = specialize_display_pipeline(ViewSettings { hdr: true, msaa_samples: 4 });
    assert_eq!(hdr.color_target, ColorTargetFormat::Hdr);
    assert_eq!(hdr.msaa_samples, 4);
    assert_eq!(hdr.vertex_stride, 16);
    assert_eq!(hdr.position_offset, 0);
    assert!(hdr.cull_back_faces);
    assert!(hdr.depth_write_enabled);
    assert_eq!(hdr.depth_compare, DepthCompare::GreaterEqual);
    let sdr = specialize_display_pipeline(ViewSettings { hdr: false, msaa_samples: 1 });
    assert_eq!(sdr.color_target, ColorTargetFormat::Standard);
    assert_eq!(sdr.msaa_samples, 1);
}
