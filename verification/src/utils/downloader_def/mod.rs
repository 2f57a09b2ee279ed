//! Fetching artifacts from where they are published.

pub mod downloader;
pub mod provider;
