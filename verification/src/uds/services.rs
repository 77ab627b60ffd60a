//! One exchange per service: which request opens it, and what each
//! received message leads to.

pub mod download;
pub mod dsc;
pub mod ecu_reset;
pub mod routine;
pub mod security_access;
pub mod tester;
