//! A client stack for talking to automotive control units over a CAN bus,
//! written so that every decision it takes is proved against its contract.
//!
//! The crate performs no input or output. The [`uds`] module holds the
//! diagnostic protocol: the wire format of every service, the table of
//! negative response codes, the judgement of received messages, and one
//! exchange per service that says which message to transmit next. The
//! [`can`] and [`isotp`] modules hold what the transport needs to know of
//! frames, identifiers and socket options.

pub mod can;
pub mod isotp;
pub mod uds;

pub use can::{CanFrame, CanId, ExtendedId, RawFrame, StandardId};
pub use isotp::{IsoTpOptions, IsotpOptionsFlag};
