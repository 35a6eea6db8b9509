//! Decoding of CAN frames into typed signals and the policy that decides when
//! subscribers hear about them.

pub mod types;
pub mod gate;
pub mod action;
pub mod bits;
pub mod coordinator;
pub mod signal;
pub mod message;
pub mod session;
