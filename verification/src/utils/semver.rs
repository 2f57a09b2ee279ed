//! Version numbers: finding them in what a tool prints, and holding them
//! against what is required.

use crate::utils::patterns::{capture_group, find_first, regex_error, regex_find, regex_group};
use vstd::prelude::*;
use vstd::string::*;

verus! {

/// The pattern that finds a version number in what a tool prints.
pub const VERSION_PATTERN: &'static str = "\\d+(\\.\\d+)+";

/// The pattern that finds a version number of three parts in a name.
pub const TRIPLE_PATTERN: &'static str = "(\\d+\\.\\d+\\.\\d+)";

/// The error with which `semver::Version::parse` refuses `text`, in its
/// `Debug` form; nothing when `text` is a version.
pub uninterp spec fn version_error(text: Seq<char>) -> Option<Seq<char>>;

/// The error with which `semver::VersionReq::parse` refuses `text`, in its
/// `Debug` form; nothing when `text` is a requirement.
pub uninterp spec fn requirement_error(text: Seq<char>) -> Option<Seq<char>>;

/// Whether the version `version` meets the requirement `requirement`, as
/// `semver::VersionReq::matches` says. Both texts are read by the crate.
pub uninterp spec fn meets(requirement: Seq<char>, version: Seq<char>) -> bool;

/// The three numbers of the version that `semver::Version::parse` reads
/// from `text`: major, minor, patch.
pub uninterp spec fn version_numbers(text: Seq<char>) -> Option<(u64, u64, u64)>;

/// Reads `text` with `semver::Version::parse` and hands back the error, if
/// there is one, in its `Debug` form.
#[verifier::external_body]
fn check_version(text: &str) -> (r: Option<String>)
    ensures
        crate::utils::patterns::text_of(r) == version_error(text@),
{
    semver::Version::parse(text).err().map(|e| format!("{e:?}"))
}

/// Reads `text` with `semver::VersionReq::parse` and hands back the error,
/// if there is one, in its `Debug` form.
#[verifier::external_body]
fn check_requirement(text: &str) -> (r: Option<String>)
    ensures
        crate::utils::patterns::text_of(r) == requirement_error(text@),
{
    semver::VersionReq::parse(text).err().map(|e| format!("{e:?}"))
}

/// Holds a version against a requirement with
/// `semver::VersionReq::matches`. Both texts have been read without error
/// before.
#[verifier::external_body]
fn requirement_met(requirement: &str, version: &str) -> (r: bool)
    requires
        requirement_error(requirement@) is None,
        version_error(version@) is None,
    ensures
        r == meets(requirement@, version@),
{
    let req = semver::VersionReq::parse(requirement).unwrap();
    let found = semver::Version::parse(version).unwrap();
    req.matches(&found)
}

/// Reads `text` with `semver::Version::parse` and hands back its three
/// numbers; nothing when `text` is no version.
#[verifier::external_body]
fn read_numbers(text: &str) -> (r: Option<(u64, u64, u64)>)
    ensures
        r == version_numbers(text@),
{
    semver::Version::parse(text).ok().map(|v| (v.major, v.minor, v.patch))
}

/// The message of a failure: what was tried, and why it failed.
pub open spec fn failure(what: Seq<char>, subject: Seq<char>, why: Seq<char>) -> Seq<char> {
    what + subject + ": "@ + why
}

/// Whether the version in `input` meets `min_version`, given what the
/// pattern found in `input`.
pub open spec fn version_check(min_version: Seq<char>, found: Option<Seq<char>>) -> Result<
    bool,
    Seq<char>,
> {
    match found {
        None => Ok(false),
        Some(v) => match version_error(v) {
            Some(e) => Err(failure("Failed to parse version: "@, v, e)),
            None => match requirement_error(min_version) {
                Some(e) => Err(failure("Invalid min_version in config: "@, min_version, e)),
                None => Ok(meets(min_version, v)),
            },
        },
    }
}

pub open spec fn check_view(r: Result<bool, String>) -> Result<bool, Seq<char>> {
    match r {
        Ok(b) => Ok(b),
        Err(e) => Err(e@),
    }
}

pub struct SemverUtils {}

impl SemverUtils {
    fn fail(what: &str, subject: &str, why: &str) -> (r: String)
        ensures
            r@ == failure(what@, subject@, why@),
    {
        let mut s = String::from_str(what);
        s.append(subject);
        s.append(": ");
        s.append(why);
        s
    }

    /// Whether `found`, the version number that was found in what a tool
    /// printed, meets the requirement `min_version`. Nothing found means
    /// that the requirement is not met.
    pub fn judge_version(min_version: &str, found: &Option<String>) -> (r: Result<bool, String>)
        ensures
            check_view(r) == version_check(min_version@, crate::utils::patterns::text_of(*found)),
    {
        match found {
            None => Ok(false),
            Some(v) => {
                match check_version(v.as_str()) {
                    Some(e) => Err(Self::fail("Failed to parse version: ", v.as_str(), e.as_str())),
                    None => match check_requirement(min_version) {
                        Some(e) => Err(
                            Self::fail("Invalid min_version in config: ", min_version, e.as_str()),
                        ),
                        None => Ok(requirement_met(min_version, v.as_str())),
                    },
                }
            },
        }
    }

    /// Whether the first version number in `input` meets the requirement
    /// `min_version`. An input without a version number does not meet it.
    pub fn is_version_greater_or_equal(min_version: &str, input: &str) -> (r: Result<bool, String>)
        ensures
            check_view(r) == (match regex_error(VERSION_PATTERN@) {
                Some(e) => Err(e),
                None => version_check(min_version@, regex_find(VERSION_PATTERN@, input@)),
            }),
    {
        match find_first(VERSION_PATTERN, input) {
            Ok(found) => Self::judge_version(min_version, &found),
            Err(e) => Err(e),
        }
    }

    /// Whether `found`, the version number that was found in what a tool
    /// printed, is a version.
    pub fn judge_valid(found: &Option<String>) -> (b: bool)
        ensures
            b == (match crate::utils::patterns::text_of(*found) {
                Some(v) => version_error(v) is None,
                None => false,
            }),
    {
        match found {
            Some(v) => check_version(v.as_str()).is_none(),
            None => false,
        }
    }

    /// Whether `input` holds a version number that is a version.
    pub fn is_valid_version(input: &str) -> (b: bool)
        ensures
            b == (regex_error(VERSION_PATTERN@) is None && (match regex_find(
                VERSION_PATTERN@,
                input@,
            ) {
                Some(v) => version_error(v) is None,
                None => false,
            })),
    {
        match find_first(VERSION_PATTERN, input) {
            Ok(found) => Self::judge_valid(&found),
            Err(_) => false,
        }
    }

    /// The numbers of the version of three parts that was found in a name.
    pub fn judge_extracted(found: &Option<String>) -> (r: Option<(u64, u64, u64)>)
        ensures
            r == (match crate::utils::patterns::text_of(*found) {
                Some(v) => version_numbers(v),
                None => None,
            }),
    {
        match found {
            Some(v) => read_numbers(v.as_str()),
            None => None,
        }
    }

    /// The numbers of the first version of three parts in `name`: major,
    /// minor, patch.
    pub fn extract_version(name: &str) -> (r: Option<(u64, u64, u64)>)
        ensures
            r == (match regex_error(TRIPLE_PATTERN@) {
                Some(_) => None,
                None => match regex_group(TRIPLE_PATTERN@, name@, 1) {
                    Some(v) => version_numbers(v),
                    None => None,
                },
            }),
    {
        match capture_group(TRIPLE_PATTERN, name, 1) {
            Ok(found) => Self::judge_extracted(&found),
            Err(_) => None,
        }
    }
}

} // verus!
