//! Reading one-time codes from mail.

pub mod client;
pub mod imap_client;
