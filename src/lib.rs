//! Streaming point clouds into GPU-ready assets: a binary container decoder,
//! an arena-backed asset handle store, the load-path selector, and the
//! per-frame planning logic of the point-splatting / eye-dome render node.

pub mod decode;
pub mod store;
pub mod render_node;
pub mod loader;
pub mod schedule;

pub use decode::{decode, DecodeError, PointCloudAsset, PointRecord};
pub use store::{AssetStore, GpuPointCloud, Handle, LoadState};
pub use render_node::{plan_frame, PointCloudNode, DrawCall, Dispatch, FramePlan, PipelineStatus, RenderEntity, SkipReason, ViewInfo};
pub use loader::{load, select_load_path, try_load, ConfigError, LoadConfig, LoadPath};
pub use schedule::{frame_actions, FrameAction, LoadCase, ScheduledLoad};
