//! Unified Diagnostic Services: requests, responses and the exchanges that
//! connect them.

pub mod client;
pub mod error;
pub mod nrc;
pub mod pdus;
pub mod services;
pub mod text;

pub use client::{Query, Reply, Step, UdsClient};
pub use error::UdsError;
pub use nrc::Nrc;
