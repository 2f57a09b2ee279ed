//! The package description that goes to the remote host.
//!
//! The remote host only runs the built application, so the description is
//! sent with the dependencies of a bare Flutter project: whatever the
//! project depends on is replaced, and overrides are taken out.

use vstd::prelude::*;
use vstd::string::*;

verus! {

/// A YAML value.
#[derive(Debug)]
pub enum Yaml {
    Null,
    Bool(bool),
    /// A number, as it is written.
    Number(String),
    Text(String),
    Sequence(Vec<Yaml>),
    /// The entries of a mapping, in order; no key stands twice.
    Mapping(Vec<(Yaml, Yaml)>),
    Tagged(String, Box<Yaml>),
}

/// The value is the text `name`.
pub open spec fn is_text(value: Yaml, name: Seq<char>) -> bool {
    value matches Yaml::Text(s) && s@ == name
}

/// The index of the first entry whose key is the text `name`, or the
/// number of entries when there is none.
pub open spec fn key_index(entries: Seq<(Yaml, Yaml)>, name: Seq<char>) -> int
    decreases entries.len(),
{
    if entries.len() == 0 {
        0
    } else if is_text(entries[0].0, name) {
        0
    } else {
        1 + key_index(entries.skip(1), name)
    }
}

/// The value says that a package comes with the Flutter SDK.
pub open spec fn is_sdk_source(value: Yaml) -> bool {
    &&& value matches Yaml::Mapping(entries)
    &&& entries@.len() == 1
    &&& is_text(entries@[0].0, "sdk"@)
    &&& is_text(entries@[0].1, "flutter"@)
}

/// The value lists the packages `names`, in order, each coming with the
/// Flutter SDK.
pub open spec fn is_sdk_packages(value: Yaml, names: Seq<Seq<char>>) -> bool {
    &&& value matches Yaml::Mapping(entries)
    &&& entries@.len() == names.len()
    &&& forall|i: int|
        0 <= i < names.len() ==> is_text((#[trigger] entries@[i]).0, names[i]) && is_sdk_source(
            entries@[i].1,
        )
}

/// `after` is `before` with the packages `names` under the key `name`:
/// in the place of what stood under the key, or at the end if the key was
/// not there.
pub open spec fn sets_packages(
    before: Seq<(Yaml, Yaml)>,
    after: Seq<(Yaml, Yaml)>,
    name: Seq<char>,
    names: Seq<Seq<char>>,
) -> bool {
    let i = key_index(before, name);
    &&& after.len() == (if i < before.len() {
        before.len()
    } else {
        before.len() + 1
    })
    &&& forall|k: int| 0 <= k < before.len() && k != i ==> #[trigger] after[k] == before[k]
    &&& is_text(after[i].0, name)
    &&& is_sdk_packages(after[i].1, names)
}

/// `after` is `before` without the entry under the key `name`: the last
/// entry stands in its place.
pub open spec fn takes_out(before: Seq<(Yaml, Yaml)>, after: Seq<(Yaml, Yaml)>, name: Seq<char>) -> bool {
    let i = key_index(before, name);
    if i >= before.len() {
        after == before
    } else {
        &&& after.len() == before.len() - 1
        &&& forall|k: int| 0 <= k < after.len() && k != i ==> #[trigger] after[k] == before[k]
        &&& i < after.len() ==> after[i] == before.last()
    }
}

proof fn lemma_key_index(entries: Seq<(Yaml, Yaml)>, name: Seq<char>, i: int)
    requires
        0 <= i <= entries.len(),
        forall|k: int| 0 <= k < i ==> !is_text(entries[k].0, name),
        i < entries.len() ==> is_text(entries[i].0, name),
    ensures
        key_index(entries, name) == i,
    decreases i,
{
    if i > 0 {
        let t = entries.skip(1);
        assert forall|k: int| 0 <= k < i - 1 implies !is_text(t[k].0, name) by {
            assert(t[k] == entries[k + 1]);
        }
        lemma_key_index(t, name, i - 1);
    }
}

fn text(s: &str) -> (v: Yaml)
    ensures
        is_text(v, s@),
{
    Yaml::Text(String::from_str(s))
}

fn sdk_source() -> (v: Yaml)
    ensures
        is_sdk_source(v),
{
    let mut entries: Vec<(Yaml, Yaml)> = Vec::new();
    entries.push((text("sdk"), text("flutter")));
    Yaml::Mapping(entries)
}

/// The index of the entry whose key is the text `name`.
fn find_key(entries: &Vec<(Yaml, Yaml)>, name: &str) -> (i: usize)
    ensures
        i == key_index(entries@, name@),
        i <= entries.len(),
{
    let mut i: usize = 0;
    while i < entries.len()
        invariant
            i <= entries.len(),
            forall|k: int| 0 <= k < i ==> !is_text(entries@[k].0, name@),
        decreases entries.len() - i,
    {
        let found = match &entries[i].0 {
            Yaml::Text(s) => crate::text::same_text(s.as_str(), name),
            _ => false,
        };
        if found {
            proof {
                lemma_key_index(entries@, name@, i as int);
            }
            return i;
        }
        i += 1;
    }
    proof {
        lemma_key_index(entries@, name@, i as int);
    }
    i
}

/// Puts `value` under the key `name`: in the place of what stood there,
/// or at the end.
fn put(entries: &mut Vec<(Yaml, Yaml)>, name: &str, value: Yaml)
    ensures
        final(entries)@.len() == (if key_index(old(entries)@, name@) < old(entries)@.len() {
            old(entries)@.len()
        } else {
            old(entries)@.len() + 1
        }),
        forall|k: int|
            0 <= k < old(entries)@.len() && k != key_index(old(entries)@, name@)
                ==> #[trigger] final(entries)@[k] == old(entries)@[k],
        is_text(final(entries)@[key_index(old(entries)@, name@)].0, name@),
        final(entries)@[key_index(old(entries)@, name@)].1 == value,
{
    let i = find_key(entries, name);
    if i < entries.len() {
        entries.set(i, (text(name), value));
    } else {
        entries.push((text(name), value));
    }
}

/// The description of a project, cleaned for the remote host: it depends
/// on `flutter` alone, its development depends on `flutter_test` and
/// `integration_test`, all from the SDK, and nothing is overridden. A
/// description that is no mapping is an error.
pub fn cleaned_pubspec(root: Yaml) -> (r: Result<Yaml, String>)
    ensures
        match root {
            Yaml::Mapping(before) => {
                &&& r matches Ok(Yaml::Mapping(after))
                &&& exists|a: Seq<(Yaml, Yaml)>, b: Seq<(Yaml, Yaml)>|
                    {
                        &&& sets_packages(before@, a, "dependencies"@, seq!["flutter"@])
                        &&& sets_packages(
                            a,
                            b,
                            "dev_dependencies"@,
                            seq!["flutter_test"@, "integration_test"@],
                        )
                        &&& takes_out(b, after@, "dependency_overrides"@)
                    }
            },
            _ => r matches Err(e) && e@ == "pubspec.yaml root is not a mapping"@,
        },
{
    match root {
        Yaml::Mapping(entries) => {
            let mut entries = entries;
            let ghost before = entries@;
            let mut deps: Vec<(Yaml, Yaml)> = Vec::new();
            deps.push((text("flutter"), sdk_source()));
            let deps_value = Yaml::Mapping(deps);
            assert(is_sdk_packages(deps_value, seq!["flutter"@]));
            put(&mut entries, "dependencies", deps_value);
            let ghost a = entries@;
            let mut dev_deps: Vec<(Yaml, Yaml)> = Vec::new();
            dev_deps.push((text("flutter_test"), sdk_source()));
            dev_deps.push((text("integration_test"), sdk_source()));
            let dev_value = Yaml::Mapping(dev_deps);
            assert(is_sdk_packages(dev_value, seq!["flutter_test"@, "integration_test"@]));
            put(&mut entries, "dev_dependencies", dev_value);
            let ghost b = entries@;
            let i = find_key(&entries, "dependency_overrides");
            if i < entries.len() {
                let _ = entries.swap_remove(i);
            }
            proof {
                assert(sets_packages(before, a, "dependencies"@, seq!["flutter"@]));
                assert(sets_packages(
                    a,
                    b,
                    "dev_dependencies"@,
                    seq!["flutter_test"@, "integration_test"@],
                ));
                assert(takes_out(b, entries@, "dependency_overrides"@));
            }
            Ok(Yaml::Mapping(entries))
        },
        _ => Err(String::from_str("pubspec.yaml root is not a mapping")),
    }
}

/// The name of the application: what the description names, or the name
/// of the project's directory when it names nothing.
pub fn project_name(root: &Yaml, directory_name: &str) -> (name: String)
    ensures
        name@ == (match *root {
            Yaml::Mapping(entries) => {
                let i = key_index(entries@, "name"@);
                if i < entries@.len() && entries@[i].1 is Text {
                    entries@[i].1->Text_0@
                } else {
                    directory_name@
                }
            },
            _ => directory_name@,
        }),
{
    match root {
        Yaml::Mapping(entries) => {
            let i = find_key(entries, "name");
            if i < entries.len() {
                match &entries[i].1 {
                    Yaml::Text(s) => {
                        return s.clone();
                    },
                    _ => {},
                }
            }
            String::from_str(directory_name)
        },
        _ => String::from_str(directory_name),
    }
}

} // verus!
