//! Helpers for Linux systems.

pub mod installer;
pub mod os;
