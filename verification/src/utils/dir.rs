//! Where the project's files are, and which of them count.

use crate::text::{chars_to_string, ends_with, has_suffix, slice_of, to_chars};
use vstd::prelude::*;
use vstd::string::*;

verus! {

/// The kinds of description files.
#[derive(Clone, Copy, Debug, PartialEq, Eq, Structural)]
pub enum YamlType {
    FeatureTest,
    Vars,
}

/// A description file that was read: its name without the ending, and what
/// it holds.
#[derive(Clone, Debug, PartialEq, Eq)]
pub struct YamlResult<T> {
    pub file_name: String,
    pub content: T,
}

/// `name` ends with `ending` and is then cut off before it.
pub open spec fn cut(name: Seq<char>, ending: Seq<char>) -> Option<Seq<char>> {
    if has_suffix(name, ending) {
        Some(name.take(name.len() - ending.len()))
    } else {
        None
    }
}

/// The name under which a file of kind `yaml_type` is known: the file's
/// name without its ending, if the ending is one of the kind.
pub open spec fn yaml_stem(name: Seq<char>, yaml_type: YamlType) -> Option<Seq<char>> {
    match yaml_type {
        YamlType::FeatureTest => if cut(name, ".test.yaml"@) is Some {
            cut(name, ".test.yaml"@)
        } else {
            cut(name, ".test.yml"@)
        },
        YamlType::Vars => if cut(name, ".vars.yaml"@) is Some {
            cut(name, ".vars.yaml"@)
        } else {
            cut(name, ".vars.yml"@)
        },
    }
}

/// `dir` with the entry `name` below it.
pub open spec fn joined(dir: Seq<char>, name: Seq<char>) -> Seq<char> {
    if dir.len() == 0 {
        name
    } else if dir.last() == '/' {
        dir + name
    } else {
        dir + "/"@ + name
    }
}

pub struct DirUtils;

impl DirUtils {
    fn strip(name: &Vec<char>, ending: &str) -> (r: Option<Vec<char>>)
        ensures
            match r {
                Some(stem) => cut(name@, ending@) == Some(stem@),
                None => cut(name@, ending@) is None,
            },
    {
        let e = to_chars(ending);
        if ends_with(name, &e) {
            Some(slice_of(name, 0, name.len() - e.len()))
        } else {
            None
        }
    }

    /// Whether the file named `file_name` is a description of kind
    /// `yaml_type`, and under which name it is known.
    pub fn yaml_file_stem(file_name: &str, yaml_type: YamlType) -> (r: Option<String>)
        ensures
            match r {
                Some(stem) => yaml_stem(file_name@, yaml_type) == Some(stem@),
                None => yaml_stem(file_name@, yaml_type) is None,
            },
    {
        let name = to_chars(file_name);
        let found = match yaml_type {
            YamlType::FeatureTest => match Self::strip(&name, ".test.yaml") {
                Some(stem) => Some(stem),
                None => Self::strip(&name, ".test.yml"),
            },
            YamlType::Vars => match Self::strip(&name, ".vars.yaml") {
                Some(stem) => Some(stem),
                None => Self::strip(&name, ".vars.yml"),
            },
        };
        match found {
            Some(stem) => Some(chars_to_string(&stem)),
            None => None,
        }
    }

    /// The path of the entry `name` in the directory `dir`. `name` is a
    /// relative path.
    pub fn join(dir: &str, name: &str) -> (r: String)
        ensures
            r@ == joined(dir@, name@),
    {
        let d = to_chars(dir);
        let mut out = String::from_str(dir);
        if d.len() == 0 {
            assert(dir@ + name@ =~= name@);
        } else if d[d.len() - 1] != '/' {
            out.append("/");
        }
        out.append(name);
        out
    }

    /// The working directory of a run: `playmaster` below the home
    /// directory `home`.
    pub fn root_dir(home: &str) -> (r: String)
        ensures
            r@ == joined(home@, "playmaster"@),
    {
        Self::join(home, "playmaster")
    }
}

} // verus!
