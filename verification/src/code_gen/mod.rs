//! Generating test code from the descriptions.

pub mod flutter;
pub mod gen_iface;
pub mod generator;
