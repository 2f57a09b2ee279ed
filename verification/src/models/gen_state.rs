//! The state that code generators share.

use crate::models::feature_test::FeatureTest;
use vstd::prelude::*;

verus! {

/// Shared application state for code generation.
#[derive(Clone, Debug, PartialEq, Eq)]
pub struct GenState {
    pub features: Vec<FeatureTest>,
}

} // verus!
