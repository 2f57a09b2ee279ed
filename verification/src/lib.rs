//! Orchestration engine for driving integration test suites, locally or on a
//! remote host, through a fixed lifecycle of hooks.

pub mod text;
pub mod utils;
pub mod code_gen;
pub mod code_run;
pub mod gmail;
pub mod hooks;
pub mod linux;
pub mod models;
pub mod schemas;
