//! The command-line interface: its commands, their arguments, and what they show.

pub mod config;
pub mod detect;
pub mod main;
