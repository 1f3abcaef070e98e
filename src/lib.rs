//! GPU marching-cubes meshing of a voxel volume, and an edge-detection
//! post-process: the sizing, dispatch, readiness and draw decisions of both
//! render passes.
pub mod volume;
pub mod compute;
pub mod view;
pub mod buffers;
pub mod display;
pub mod edge_detection;

pub use buffers::MarchingCubesBuffers;
pub use compute::MarchingCubesNode;
pub use display::VoxeledRendered;
pub use edge_detection::{EdgeDetectionNode, EdgeDetectionPipelineKey};
pub use volume::VoxelVolume;
