//! The service that keeps the built-in devices in line with the attached ones.

pub mod runner;
pub mod status;
