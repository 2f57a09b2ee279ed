//! The schemas of the description files.

pub mod schema_gen;
