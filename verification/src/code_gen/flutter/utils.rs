//! The tools that are run over the generated files.

use crate::code_gen::flutter::GenFlutter;
use vstd::prelude::*;
use vstd::string::*;

verus! {

/// A program and its arguments.
#[derive(Clone, Debug, PartialEq, Eq)]
pub struct ToolRun {
    pub program: String,
    pub args: Vec<String>,
}

impl GenFlutter {
    /// The run of the tool that mends the generated files.
    pub fn run_dart_fix(&self) -> (run: ToolRun)
        ensures
            run.program@ == "dart"@,
            run.args@.len() == 3,
            run.args@[0]@ == "fix"@,
            run.args@[1]@ == self.out_dir@,
            run.args@[2]@ == "--apply"@,
    {
        let mut args: Vec<String> = Vec::new();
        args.push(String::from_str("fix"));
        args.push(self.out_dir.clone());
        args.push(String::from_str("--apply"));
        ToolRun { program: String::from_str("dart"), args }
    }

    /// The run of the tool that formats the generated files.
    pub fn run_dart_format(&self) -> (run: ToolRun)
        ensures
            run.program@ == "dart"@,
            run.args@.len() == 2,
            run.args@[0]@ == "format"@,
            run.args@[1]@ == self.out_dir@,
    {
        let mut args: Vec<String> = Vec::new();
        args.push(String::from_str("format"));
        args.push(self.out_dir.clone());
        ToolRun { program: String::from_str("dart"), args }
    }
}

} // verus!
