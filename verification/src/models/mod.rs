//! The data that the engine works on.

pub mod app_state;
pub mod args;
pub mod config;
pub mod gen_state;
pub mod remote_session;
pub mod vars;
