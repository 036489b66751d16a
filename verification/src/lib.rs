//! Shared types for the Rewire ecosystem: custom Rerun archetypes for ROS 2
//! topic, node and diagnostics metadata, and a tracker of bridge heartbeats.

pub mod clock;
pub mod columns;
pub mod decimal;
pub mod diagnostics_info;
pub mod heartbeat;
pub mod node_info;
pub mod topic_info;

pub use diagnostics_info::{DiagnosticsRow, ROS2DiagnosticsInfo};
pub use heartbeat::{BridgeState, HeartbeatTracker};
pub use node_info::{NodeMeta, ROS2NodeInfo};
pub use topic_info::{ROS2TopicInfo, TopicMeta};
