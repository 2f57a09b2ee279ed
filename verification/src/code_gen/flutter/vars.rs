//! The file that holds the variables of the project.

use crate::code_gen::flutter::{
    banner, by_name, constants, constants_code, sort_by_name, GenFlutter, GeneratedFile,
};
use crate::models::config::pair_texts;
use crate::models::vars::{Vars, VarsData};
use crate::utils::dir::{joined, DirUtils, YamlResult};
use crate::utils::string::{pascal_case, StringUtils};
use vstd::prelude::*;
use vstd::string::*;

verus! {

/// The class that holds the variables of one file, in the order of their
/// names.
pub open spec fn class_code(file: YamlResult<VarsData>) -> Seq<char> {
    "class "@ + pascal_case(file.file_name@) + " {\n"@ + constants_code(
        "  static const "@,
        by_name(pair_texts(file.content.0@)),
        by_name(pair_texts(file.content.0@)).len() as int,
    ) + "}\n\n"@
}

/// The classes of the first `upto` files.
pub open spec fn classes_code(files: Seq<YamlResult<VarsData>>, upto: int) -> Seq<char>
    decreases upto,
{
    if upto <= 0 || upto > files.len() {
        Seq::empty()
    } else {
        classes_code(files, upto - 1) + class_code(files[upto - 1])
    }
}

/// The text of `vars.dart`.
pub open spec fn vars_code(files: Seq<YamlResult<VarsData>>) -> Seq<char> {
    banner() + "// This file contains vars from all *.vars.yaml files in feature_test/\n\n"@
        + classes_code(files, files.len() as int)
}

fn class_text(file: &YamlResult<VarsData>) -> (out: String)
    ensures
        out@ == class_code(*file),
{
    let sorted = sort_by_name(&file.content.0);
    let mut out = String::from_str("class ");
    out.append(StringUtils::to_pascal_case(file.file_name.as_str()).as_str());
    out.append(" {\n");
    out.append(constants("  static const ", &sorted).as_str());
    out.append("}\n\n");
    out
}

impl GenFlutter {
    /// The file that declares the project's variables, one class per
    /// variable file; nothing when the project has no variables.
    pub fn generate_vars(&self, vars: &Vars) -> (file: Option<GeneratedFile>)
        ensures
            match file {
                Some(f) => vars.data@.len() > 0 && f.path@ == joined(self.out_dir@, "vars.dart"@)
                    && f.content@ == vars_code(vars.data@),
                None => vars.data@.len() == 0,
            },
    {
        if vars.data.len() == 0 {
            return None;
        }
        let mut classes = String::new();
        let mut i: usize = 0;
        while i < vars.data.len()
            invariant
                i <= vars.data.len(),
                classes@ == classes_code(vars.data@, i as int),
            decreases vars.data.len() - i,
        {
            classes.append(class_text(&vars.data[i]).as_str());
            i += 1;
        }
        let mut content = String::from_str("// GENERATED FILE - DO NOT EDIT\n");
        content.append("// This file contains vars from all *.vars.yaml files in feature_test/\n\n");
        content.append(classes.as_str());
        Some(GeneratedFile { path: DirUtils::join(self.out_dir.as_str(), "vars.dart"), content })
    }
}

} // verus!
