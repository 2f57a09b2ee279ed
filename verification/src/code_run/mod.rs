//! Running the tests and reading what the test driver prints.

pub mod order;
pub mod output;
pub mod pubspec;
pub mod run;
pub mod run_flutter;
pub mod run_iface;
