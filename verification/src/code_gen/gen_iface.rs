//! What every code generator has in common.

use crate::models::config::ProjectType;
use vstd::prelude::*;

verus! {

/// A code generator says for which kind of project it is.
pub trait CodeGenTrait {
    /// The kind of project for which the generator makes code.
    spec fn project_type(&self) -> ProjectType;

    /// The kind of project for which the generator makes code.
    fn get_type(&self) -> (t: ProjectType)
        ensures
            t == self.project_type(),
    ;
}

} // verus!
