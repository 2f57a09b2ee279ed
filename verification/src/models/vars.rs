//! Variables that test descriptions refer to.

use crate::models::config::{copy_pairs, pair_texts};
use crate::utils::dir::YamlResult;
use crate::utils::variables::{filled, optional_pairs, Fill, VariablesUtils};
use vstd::prelude::*;
use vstd::string::*;

verus! {

/// The variables of one file, as pairs of name and value.
#[derive(Clone, Debug, PartialEq, Eq)]
pub struct VarsData(pub Vec<(String, String)>);

/// All variables of a project.
#[derive(Clone, Debug, PartialEq, Eq)]
pub struct Vars {
    /// The files that hold variables.
    pub data: Vec<YamlResult<VarsData>>,
    /// Every variable under its full name, `vars.<file>.<name>`. Where a
    /// name stands twice, the later value counts.
    pub all_vars: Vec<(String, String)>,
}

/// The full name of the variable `key` of the file `file`.
pub open spec fn var_key(file: Seq<char>, key: Seq<char>) -> Seq<char> {
    "vars."@ + file + "."@ + key
}

/// The variables of one file under their full names.
pub open spec fn file_vars(file: YamlResult<VarsData>) -> Seq<(Seq<char>, Seq<char>)> {
    Seq::new(
        file.content.0@.len(),
        |i: int| (var_key(file.file_name@, file.content.0@[i].0@), file.content.0@[i].1@),
    )
}

/// The variables of the first `n` files under their full names, file after
/// file.
pub open spec fn all_file_vars(files: Seq<YamlResult<VarsData>>, n: int) -> Seq<(Seq<char>, Seq<char>)>
    decreases n,
{
    if n <= 0 {
        Seq::empty()
    } else {
        all_file_vars(files, n - 1) + file_vars(files[n - 1])
    }
}

/// What a file says: its name and its variables.
pub open spec fn file_view(file: YamlResult<VarsData>) -> (Seq<char>, Seq<(Seq<char>, Seq<char>)>) {
    (file.file_name@, pair_texts(file.content.0@))
}

/// The files among the first `n` that hold at least one variable, in
/// order.
pub open spec fn filled_files(files: Seq<YamlResult<VarsData>>, n: int) -> Seq<
    (Seq<char>, Seq<(Seq<char>, Seq<char>)>),
>
    decreases n,
{
    if n <= 0 {
        Seq::empty()
    } else if files[n - 1].content.0@.len() > 0 {
        filled_files(files, n - 1).push(file_view(files[n - 1]))
    } else {
        filled_files(files, n - 1)
    }
}

pub open spec fn file_views(files: Seq<YamlResult<VarsData>>) -> Seq<
    (Seq<char>, Seq<(Seq<char>, Seq<char>)>),
> {
    Seq::new(files.len(), |i: int| file_view(files[i]))
}

impl Vars {
    /// No variables.
    pub fn new() -> (vars: Self)
        ensures
            vars.data@.len() == 0,
            vars.all_vars@.len() == 0,
    {
        Vars { data: Vec::new(), all_vars: Vec::new() }
    }

    /// The variables of the files `found`, which are the variable files
    /// below the current directory. Files without variables are left out.
    pub fn all_from_curr_dir(found: &Vec<YamlResult<VarsData>>) -> (vars: Self)
        ensures
            file_views(vars.data@) == filled_files(found@, found@.len() as int),
            pair_texts(vars.all_vars@) == all_file_vars(found@, found@.len() as int),
    {
        let mut data: Vec<YamlResult<VarsData>> = Vec::new();
        let mut all_vars: Vec<(String, String)> = Vec::new();
        let mut i: usize = 0;
        proof {
            assert(file_views(data@) =~= Seq::empty());
            assert(pair_texts(all_vars@) =~= Seq::empty());
        }
        while i < found.len()
            invariant
                i <= found.len(),
                file_views(data@) == filled_files(found@, i as int),
                pair_texts(all_vars@) == all_file_vars(found@, i as int),
            decreases found.len() - i,
        {
            let file = &found[i];
            let ghost views_before = file_views(data@);
            if file.content.0.len() > 0 {
                let copy = YamlResult {
                    file_name: file.file_name.clone(),
                    content: VarsData(copy_pairs(&file.content.0)),
                };
                data.push(copy);
                assert(file_views(data@) =~= views_before.push(file_view(*file)));
            }
            let ghost before = pair_texts(all_vars@);
            let mut k: usize = 0;
            assert(before + file_vars(*file).take(0) =~= before);
            while k < file.content.0.len()
                invariant
                    k <= file.content.0.len(),
                    pair_texts(all_vars@) == before + file_vars(*file).take(k as int),
                decreases file.content.0.len() - k,
            {
                let ghost pairs_before = pair_texts(all_vars@);
                let mut key = String::from_str("vars.");
                key.append(file.file_name.as_str());
                key.append(".");
                key.append(file.content.0[k].0.as_str());
                let value = file.content.0[k].1.clone();
                all_vars.push((key, value));
                proof {
                    assert(pair_texts(all_vars@) =~= pairs_before.push(file_vars(*file)[k as int]));
                    assert(before + file_vars(*file).take(k + 1) =~= (before + file_vars(
                        *file,
                    ).take(k as int)).push(file_vars(*file)[k as int]));
                }
                k += 1;
            }
            proof {
                assert(file_vars(*file).take(file.content.0@.len() as int) =~= file_vars(*file));
            }
            i += 1;
        }
        Vars { data, all_vars }
    }

    /// `input` with every placeholder turned into a reference to the
    /// variable, for generated code.
    pub fn replace_var_usage(&self, input: &str) -> (r: String)
        ensures
            r@ == filled(input@, Fill::Usage),
    {
        VariablesUtils::replace_var_usage(input)
    }

    /// `input` with every placeholder filled with its value: that of
    /// `extra_map` if it has the name, else that of the project's
    /// variables.
    pub fn replace_var(&self, input: &str, extra_map: Option<&Vec<(String, String)>>) -> (r: String)
        ensures
            r@ == filled(
                input@,
                Fill::Values { extra: optional_pairs(extra_map), vars: pair_texts(self.all_vars@) },
            ),
    {
        VariablesUtils::replace_vars(input, &self.all_vars, extra_map)
    }
}

} // verus!
