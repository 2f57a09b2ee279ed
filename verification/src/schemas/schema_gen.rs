//! Where the schemas of the description files are written.

use crate::utils::dir::{joined, DirUtils};
use vstd::prelude::*;
use vstd::string::*;

verus! {

/// The kinds of files that have a schema.
#[derive(Clone, Copy, Debug, PartialEq, Eq, Structural)]
pub enum SchemaKind {
    FeatureTest,
    Config,
}

/// A schema to write.
#[derive(Clone, Debug, PartialEq, Eq)]
pub struct SchemaFile {
    pub kind: SchemaKind,
    pub path: String,
}

/// The directory of the schemas below the project's directory.
pub open spec fn schema_dir(curr_dir: Seq<char>) -> Seq<char> {
    joined(joined(joined(curr_dir, "src"@), "schemas"@), "generated"@)
}

pub struct SchemaGen {}

impl SchemaGen {
    pub fn new() -> (generator: Self)
        ensures
            generator == (SchemaGen {  }),
    {
        SchemaGen {  }
    }

    /// Where the schema named `file_name` is written, below the project's
    /// directory `curr_dir`.
    pub fn generate_single(&self, curr_dir: &str, file_name: &str) -> (path: String)
        ensures
            path@ == joined(schema_dir(curr_dir@), file_name@),
    {
        let src = DirUtils::join(curr_dir, "src");
        let schemas = DirUtils::join(src.as_str(), "schemas");
        let generated = DirUtils::join(schemas.as_str(), "generated");
        DirUtils::join(generated.as_str(), file_name)
    }

    /// The schemas to write: that of the test descriptions, then that of
    /// the configuration.
    pub fn execute(&self, curr_dir: &str) -> (files: Vec<SchemaFile>)
        ensures
            files@.len() == 2,
            files@[0].kind == SchemaKind::FeatureTest,
            files@[0].path@ == joined(schema_dir(curr_dir@), "feature_test_schema.json"@),
            files@[1].kind == SchemaKind::Config,
            files@[1].path@ == joined(schema_dir(curr_dir@), "config.json"@),
    {
        let mut files: Vec<SchemaFile> = Vec::new();
        files.push(
            SchemaFile {
                kind: SchemaKind::FeatureTest,
                path: self.generate_single(curr_dir, "feature_test_schema.json"),
            },
        );
        files.push(
            SchemaFile {
                kind: SchemaKind::Config,
                path: self.generate_single(curr_dir, "config.json"),
            },
        );
        files
    }
}

} // verus!
