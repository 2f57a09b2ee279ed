//! Installing what the tests need.

pub mod common;
pub mod file;
pub mod package;
