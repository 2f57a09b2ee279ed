//! The file that runs all generated tests.

use crate::code_gen::flutter::{banner, test_file_stem, GenFlutter, GeneratedFile};
use crate::models::feature_test::FeatureTest;
use crate::text::{replace_text, replaced};
use crate::utils::dir::{joined, DirUtils};
use crate::utils::string::{lower_case_of, to_lower_case};
use vstd::prelude::*;
use vstd::string::*;

verus! {

/// The name under which a feature's file is imported: the feature's name
/// in lower case, with `_` for every space and every `-`.
pub open spec fn import_alias(name: Seq<char>) -> Seq<char> {
    replaced(replaced(lower_case_of(name), " "@, "_"@), "-"@, "_"@)
}

/// The lines that import the files of the first `upto` features.
pub open spec fn imports_code(features: Seq<FeatureTest>, upto: int) -> Seq<char>
    decreases upto,
{
    if upto <= 0 || upto > features.len() {
        Seq::empty()
    } else {
        imports_code(features, upto - 1) + "import '"@ + test_file_stem(features[upto - 1].name@)
            + ".dart' as "@ + import_alias(features[upto - 1].name@) + ";\n"@
    }
}

/// The lines that run the tests of the first `upto` features.
pub open spec fn calls_code(features: Seq<FeatureTest>, upto: int) -> Seq<char>
    decreases upto,
{
    if upto <= 0 || upto > features.len() {
        Seq::empty()
    } else {
        calls_code(features, upto - 1) + "  "@ + import_alias(features[upto - 1].name@)
            + ".main();\n"@
    }
}

/// The text of `all_tests.dart`.
pub open spec fn entrypoint_code(features: Seq<FeatureTest>) -> Seq<char> {
    banner() + "// This file aggregates all generated integration tests.\n\n"@ + imports_code(
        features,
        features.len() as int,
    ) + "\nvoid main() {\n"@ + calls_code(features, features.len() as int) + "}\n"@
}

fn alias(name: &str) -> (out: String)
    ensures
        out@ == import_alias(name@),
{
    let lower = to_lower_case(name);
    let spaced = replace_text(lower.as_str(), " ", "_");
    replace_text(spaced.as_str(), "-", "_")
}

impl GenFlutter {
    /// The file that imports every feature's file and runs its tests.
    pub fn generate_all_entrypoint(&self, features: &Vec<FeatureTest>) -> (file: GeneratedFile)
        ensures
            file.path@ == joined(self.out_dir@, "all_tests.dart"@),
            file.content@ == entrypoint_code(features@),
    {
        let mut imports = String::new();
        let mut i: usize = 0;
        while i < features.len()
            invariant
                i <= features.len(),
                imports@ == imports_code(features@, i as int),
            decreases features.len() - i,
        {
            let mut line = String::from_str("import '");
            line.append(features[i].file_stem().as_str());
            line.append(".dart' as ");
            line.append(alias(features[i].name.as_str()).as_str());
            line.append(";\n");
            proof {
                let before = imports_code(features@, i as int);
                assert(before + line@ =~= before + "import '"@ + test_file_stem(
                    features@[i as int].name@,
                ) + ".dart' as "@ + import_alias(features@[i as int].name@) + ";\n"@);
            }
            imports.append(line.as_str());
            i += 1;
        }
        let mut calls = String::new();
        let mut k: usize = 0;
        while k < features.len()
            invariant
                k <= features.len(),
                calls@ == calls_code(features@, k as int),
            decreases features.len() - k,
        {
            let mut line = String::from_str("  ");
            line.append(alias(features[k].name.as_str()).as_str());
            line.append(".main();\n");
            proof {
                let before = calls_code(features@, k as int);
                assert(before + line@ =~= before + "  "@ + import_alias(features@[k as int].name@)
                    + ".main();\n"@);
            }
            calls.append(line.as_str());
            k += 1;
        }
        let mut content = String::from_str("// GENERATED FILE - DO NOT EDIT\n");
        content.append("// This file aggregates all generated integration tests.\n\n");
        content.append(imports.as_str());
        content.append("\nvoid main() {\n");
        content.append(calls.as_str());
        content.append("}\n");
        GeneratedFile { path: DirUtils::join(self.out_dir.as_str(), "all_tests.dart"), content }
    }
}

} // verus!
