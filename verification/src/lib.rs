//! Aegis Input: disables the built-in keyboard and touchpad of a laptop while
//! external keyboards or pointing devices are attached.

pub mod logic;
pub mod text;
pub mod path;
pub mod platform;
pub mod service;
pub mod cli;
pub mod config;
pub mod detection;
pub mod installer;
