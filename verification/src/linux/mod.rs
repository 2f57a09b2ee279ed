//! What is particular to Linux.

pub mod utils;
