//! Small helpers used across the engine.

pub mod command;
pub mod dbus;
pub mod dir;
pub mod downloader_def;
pub mod errors;
pub mod execution;
pub mod file_logger;
pub mod flutter;
pub mod os;
pub mod patterns;
pub mod semver;
pub mod shlex;
pub mod string;
pub mod time;
pub mod variables;
