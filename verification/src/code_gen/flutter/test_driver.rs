//! The entry point of the test driver.

use vstd::prelude::*;

verus! {

/// The text of `test_driver/integration_test.dart`.
pub const TEST_DRIVER_DART: &'static str = "// GENERATED FILE - DO NOT EDIT\n\
    import 'package:integration_test/integration_test_driver.dart';\n\
    \n\
    Future<void> main() => integrationDriver();\n\
    ";

} // verus!
