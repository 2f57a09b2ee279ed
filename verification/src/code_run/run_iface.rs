//! What every runner of tests has in common.

use crate::models::config::ProjectType;
use vstd::prelude::*;

verus! {

/// A runner of tests says for which kind of project it is. Running the
/// tests is the caller's business: it touches the outside world.
pub trait CodeRunTrait {
    /// The kind of project whose tests the runner runs.
    spec fn project_type(&self) -> ProjectType;

    /// The kind of project whose tests the runner runs.
    fn get_type(&self) -> (t: ProjectType)
        ensures
            t == self.project_type(),
    ;
}

} // verus!
