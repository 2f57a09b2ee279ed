//! Choosing the artifact to fetch.

use crate::text::{comes_before, ends_with, has_suffix, text_before, to_chars};
use crate::utils::downloader_def::provider::{ArtifactInfo, SourceProvider};
use crate::utils::patterns::{regex_error, regex_group};
use crate::utils::semver::{version_numbers, SemverUtils, TRIPLE_PATTERN};
use vstd::prelude::*;
use vstd::string::*;

verus! {

/// The version that stands in `name`, if one does.
pub open spec fn version_in(name: Seq<char>) -> Option<(u64, u64, u64)> {
    match regex_error(TRIPLE_PATTERN@) {
        Some(_) => None,
        None => match regex_group(TRIPLE_PATTERN@, name, 1) {
            Some(v) => version_numbers(v),
            None => None,
        },
    }
}

/// Version `a` is older than version `b`.
pub open spec fn older(a: (u64, u64, u64), b: (u64, u64, u64)) -> bool {
    a.0 < b.0 || (a.0 == b.0 && (a.1 < b.1 || (a.1 == b.1 && a.2 < b.2)))
}

/// Artifact `a` ranks below artifact `b`: by version if both names hold
/// one, else by name.
pub open spec fn ranks_below(a: Seq<char>, b: Seq<char>) -> bool {
    match (version_in(a), version_in(b)) {
        (Some(va), Some(vb)) => older(va, vb),
        _ => text_before(a, b),
    }
}

/// The artifact named `name` is a package for the architecture `arch`, in
/// the version `wanted` if one is wanted.
pub open spec fn fits(name: Seq<char>, arch: Seq<char>, wanted: Option<(u64, u64, u64)>) -> bool {
    has_suffix(name, arch + ".rpm"@) && (wanted is Some ==> version_in(name) == wanted)
}

/// The best of the first `n` artifacts that fit: the last in the list
/// among those below which no later one ranks.
pub open spec fn best_of(
    names: Seq<Seq<char>>,
    arch: Seq<char>,
    wanted: Option<(u64, u64, u64)>,
    n: int,
) -> Option<int>
    decreases n,
{
    if n <= 0 {
        None
    } else {
        let before = best_of(names, arch, wanted, n - 1);
        if !fits(names[n - 1], arch, wanted) {
            before
        } else {
            match before {
                Some(b) => if ranks_below(names[n - 1], names[b]) {
                    Some(b)
                } else {
                    Some(n - 1)
                },
                None => Some(n - 1),
            }
        }
    }
}

/// Some artifact among the first `n` is a package for the architecture.
pub open spec fn any_package(names: Seq<Seq<char>>, arch: Seq<char>, n: int) -> bool {
    exists|i: int| 0 <= i < n && i < names.len() && has_suffix(#[trigger] names[i], arch + ".rpm"@)
}

pub open spec fn artifact_names(artifacts: Seq<ArtifactInfo>) -> Seq<Seq<char>> {
    Seq::new(artifacts.len(), |i: int| artifacts[i].name@)
}

/// `r` is the choice among `artifacts` for the architecture `arch` and the
/// version `wanted`: the best package that fits, or none if no package is
/// in that version; an error if there is no package for the architecture
/// at all.
pub open spec fn is_choice(
    artifacts: Seq<ArtifactInfo>,
    arch: Seq<char>,
    wanted: Option<(u64, u64, u64)>,
    r: Result<Option<ArtifactInfo>, String>,
) -> bool {
    match r {
        Ok(chosen) => {
            &&& any_package(artifact_names(artifacts), arch, artifacts.len() as int)
            &&& match best_of(artifact_names(artifacts), arch, wanted, artifacts.len() as int) {
                Some(i) => chosen == Some(artifacts[i]),
                None => chosen is None,
            }
        },
        Err(e) => !any_package(artifact_names(artifacts), arch, artifacts.len() as int) && e@
            == "No matching "@ + arch + ".rpm artifacts found"@,
    }
}

/// `r` is what comes of the listing `listing`: the choice among the
/// artifacts that were listed, or the error with which the listing
/// failed.
pub open spec fn follows_listing(
    listing: Result<Vec<ArtifactInfo>, String>,
    arch: Seq<char>,
    wanted: Option<(u64, u64, u64)>,
    r: Result<Option<ArtifactInfo>, String>,
) -> bool {
    match listing {
        Ok(artifacts) => is_choice(artifacts@, arch, wanted, r),
        Err(e) => r == Err::<Option<ArtifactInfo>, String>(e),
    }
}

fn older_than(a: (u64, u64, u64), b: (u64, u64, u64)) -> (r: bool)
    ensures
        r == older(a, b),
{
    a.0 < b.0 || (a.0 == b.0 && (a.1 < b.1 || (a.1 == b.1 && a.2 < b.2)))
}

fn same_version(a: Option<(u64, u64, u64)>, b: Option<(u64, u64, u64)>) -> (r: bool)
    ensures
        r == (a == b),
{
    match (a, b) {
        (Some(x), Some(y)) => x.0 == y.0 && x.1 == y.1 && x.2 == y.2,
        (None, None) => true,
        _ => false,
    }
}

/// Fetches artifacts from a source.
pub struct Downloader<P: SourceProvider> {
    pub provider: P,
}

impl<P: SourceProvider> Downloader<P> {
    pub fn new(provider: P) -> (d: Self)
        ensures
            d.provider == provider,
    {
        Downloader { provider }
    }

    /// The artifacts that the source offers: the answer of the source, as
    /// it is.
    pub fn list(&self) -> (r: Result<Vec<ArtifactInfo>, String>)
        ensures
            self.provider.may_list(r),
    {
        self.provider.list_artifacts()
    }

    /// Fetches the artifact named `artifact_name` into the file
    /// `dest_path`: the source is asked for just that, and its answer is
    /// handed on as it is.
    pub fn download(&self, artifact_name: &str, dest_path: &str) -> (r: Result<(), String>)
        ensures
            self.provider.may_fetch(artifact_name@, dest_path@, r),
    {
        self.provider.download_artifact(artifact_name, dest_path)
    }

    /// Chooses among `artifacts` the package for the architecture `arch`
    /// that is fetched: the newest, or the one in the version that
    /// `version` names if it names one. No package for the architecture at
    /// all is an error.
    pub fn select_artifact(artifacts: &Vec<ArtifactInfo>, arch: &str, version: &Option<String>) -> (r:
        Result<Option<ArtifactInfo>, String>)
        ensures
            is_choice(artifacts@, arch@, Self::wanted(*version), r),
    {
        let wanted: Option<(u64, u64, u64)> = match version {
            Some(v) => SemverUtils::extract_version(v.as_str()),
            None => None,
        };
        let mut ending = String::from_str(arch);
        ending.append(".rpm");
        let suffix = to_chars(ending.as_str());
        let ghost names = artifact_names(artifacts@);
        let mut best: Option<usize> = None;
        let mut best_version: Option<(u64, u64, u64)> = None;
        let mut found: bool = false;
        let mut i: usize = 0;
        while i < artifacts.len()
            invariant
                i <= artifacts.len(),
                names == artifact_names(artifacts@),
                suffix@ == arch@ + ".rpm"@,
                wanted == Self::wanted(*version),
                found == any_package(names, arch@, i as int),
                match best {
                    Some(b) => b < i && best_of(names, arch@, wanted, i as int) == Some(b as int)
                        && best_version == version_in(names[b as int]),
                    None => best_of(names, arch@, wanted, i as int) is None,
                },
            decreases artifacts.len() - i,
        {
            let name = to_chars(artifacts[i].name.as_str());
            assert(name@ == names[i as int]);
            let is_package = ends_with(&name, &suffix);
            proof {
                if found {
                    let w = choose|w: int|
                        0 <= w < i && w < names.len() && has_suffix(
                            #[trigger] names[w],
                            arch@ + ".rpm"@,
                        );
                    assert(has_suffix(names[w], arch@ + ".rpm"@));
                }
                if any_package(names, arch@, i + 1) && !is_package {
                    let w = choose|w: int|
                        0 <= w < i + 1 && w < names.len() && has_suffix(
                            #[trigger] names[w],
                            arch@ + ".rpm"@,
                        );
                    assert(w < i);
                }
            }
            if is_package {
                found = true;
                let this_version = SemverUtils::extract_version(artifacts[i].name.as_str());
                let fits_version: bool = match wanted {
                    Some(_) => same_version(this_version, wanted),
                    None => true,
                };
                if fits_version {
                    let keep: bool = match best {
                        Some(b) => {
                            match (this_version, best_version) {
                                (Some(va), Some(vb)) => older_than(va, vb),
                                _ => {
                                    let other = to_chars(artifacts[b].name.as_str());
                                    assert(other@ == names[b as int]);
                                    comes_before(&name, &other)
                                },
                            }
                        },
                        None => false,
                    };
                    if !keep {
                        best = Some(i);
                        best_version = this_version;
                    }
                }
            }
            i += 1;
        }
        if !found {
            let mut e = String::from_str("No matching ");
            e.append(arch);
            e.append(".rpm artifacts found");
            return Err(e);
        }
        match best {
            Some(b) => Ok(Some(artifacts[b].duplicate())),
            None => Ok(None),
        }
    }

    /// The version that `version` asks for, if it names one.
    pub open spec fn wanted(version: Option<String>) -> Option<(u64, u64, u64)> {
        match version {
            Some(v) => version_in(v@),
            None => None,
        }
    }

    /// Lists the artifacts of the source and chooses the package for the
    /// architecture `arch` that is fetched. What the source lists is not
    /// known before. Whatever it lists, the result is the choice of
    /// `select_artifact` among that; if the listing fails, its error is
    /// the result.
    pub fn get_versioned_artifact(&self, arch: &str, version: Option<String>) -> (r: Result<
        Option<ArtifactInfo>,
        String,
    >)
        ensures
            exists|listing: Result<Vec<ArtifactInfo>, String>|
                #[trigger] self.provider.may_list(listing) && follows_listing(
                    listing,
                    arch@,
                    Self::wanted(version),
                    r,
                ),
    {
        let listing = self.list();
        let ghost listed = listing;
        let r = match listing {
            Ok(artifacts) => Self::select_artifact(&artifacts, arch, &version),
            Err(e) => Err(e),
        };
        proof {
            assert(self.provider.may_list(listed) && follows_listing(
                listed,
                arch@,
                Self::wanted(version),
                r,
            ));
        }
        r
    }
}

} // verus!
