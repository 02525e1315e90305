//! Secure erasure of block storage devices: capability probing, the tiered
//! wipe state machine, the NVMe sanitize-status poller and the signed
//! evidence record.

pub mod ata;
pub mod bytes;
pub mod canonical;
pub mod device;
pub mod digest;
pub mod evidence;
pub mod nvme;
pub mod overwrite;
pub mod poll;
pub mod probe;
pub mod signed;
pub mod text;
pub mod wipe;

pub use crate::device::{Device, DeviceType};
pub use crate::evidence::WipeEvidence;
