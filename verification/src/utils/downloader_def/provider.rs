//! What a source of artifacts offers.

use vstd::prelude::*;

verus! {

/// An artifact that can be fetched.
#[derive(Clone, Debug, PartialEq, Eq)]
pub struct ArtifactInfo {
    pub name: String,
    pub size: Option<u64>,
    pub download_url: Option<String>,
}

/// A source of artifacts. What it lists and fetches depends on the
/// outside world: each source says for itself which answers it may give,
/// and nothing more is promised of either.
pub trait SourceProvider {
    /// `r` is an answer that the source may give when it is asked for its
    /// artifacts. A source that says nothing may give any answer.
    open spec fn may_list(&self, r: Result<Vec<ArtifactInfo>, String>) -> bool {
        true
    }

    /// `r` is an answer that the source may give when it is asked to fetch
    /// the artifact named `artifact_name` into the file `dest_path`. A
    /// source that says nothing may give any answer.
    open spec fn may_fetch(
        &self,
        artifact_name: Seq<char>,
        dest_path: Seq<char>,
        r: Result<(), String>,
    ) -> bool {
        true
    }

    /// The artifacts that the source offers.
    fn list_artifacts(&self) -> (r: Result<Vec<ArtifactInfo>, String>)
        ensures
            self.may_list(r),
    ;

    /// Fetches the artifact named `artifact_name` into the file
    /// `dest_path`.
    fn download_artifact(&self, artifact_name: &str, dest_path: &str) -> (r: Result<(), String>)
        ensures
            self.may_fetch(artifact_name@, dest_path@, r),
    ;
}

impl ArtifactInfo {
    /// A copy of the value.
    pub fn duplicate(&self) -> (out: Self)
        ensures
            out == *self,
    {
        ArtifactInfo {
            name: self.name.clone(),
            size: self.size,
            download_url: match &self.download_url {
                Some(u) => Some(u.clone()),
                None => None,
            },
        }
    }
}

} // verus!
