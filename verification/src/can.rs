//! Raw CAN: identifiers and frames as the kernel lays them out.

pub mod frame;
pub mod id;

pub use frame::{CanFrame, RawFrame};
pub use id::{CanId, ExtendedId, StandardId};
