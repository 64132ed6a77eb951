//! Userspace control-plane client for the HymoFS overlay filesystem.
//!
//! The kernel-resident component enforces the overlay rules; this crate
//! computes everything the client sends to it: transport opcodes, command
//! payloads, the capability-acquisition schedule, and the overlay plan
//! derived from a snapshot of the module directory tree.

pub mod acquire;
pub mod cbytes;
pub mod codec;
pub mod errors;
pub mod facade;
pub mod listing;
pub mod planner;
pub mod status;

pub use acquire::AcquireSchedule;
pub use acquire::AttemptPlan;
pub use acquire::CapabilityCache;
pub use acquire::Mechanism;
pub use acquire::is_valid_descriptor;
pub use acquire::CMD_GET_FD;
pub use acquire::MAGIC1;
pub use acquire::MAGIC2;
pub use acquire::PRCTL_GET_FD;
pub use codec::Command;
pub use codec::Direction;
pub use errors::HymoError;
pub use facade::HymoFS;
pub use facade::IoctlCall;
pub use facade::Payload;
pub use listing::decode_rule_listing;
pub use planner::MergeRule;
pub use planner::ModuleInfo;
pub use planner::plan_overlay;
pub use status::EXPECTED_PROTOCOL_VERSION;
pub use status::HymoFSStatus;
