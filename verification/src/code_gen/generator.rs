//! The controller of code generation.

use crate::code_gen::flutter::entrypoint::entrypoint_code;
use crate::code_gen::flutter::helper::HELPERS_DART;
use crate::code_gen::flutter::test_driver::TEST_DRIVER_DART;
use crate::code_gen::flutter::utils::ToolRun;
use crate::code_gen::flutter::vars::vars_code;
use crate::code_gen::flutter::{feature_code, test_file_stem, GenFlutter, GeneratedFile};
use crate::code_gen::gen_iface::CodeGenTrait;
use crate::models::args::AppArgs;
use crate::models::config::{Config, ProjectType};
use crate::models::feature_test::FeatureTest;
use crate::models::gen_state::GenState;
use crate::models::vars::Vars;
use crate::utils::dir::{joined, DirUtils};
use vstd::prelude::*;
use vstd::string::*;

verus! {

/// What a generation comes to.
#[derive(Debug, PartialEq, Eq)]
pub struct Generation {
    /// The directory that is emptied and made anew before anything is
    /// written; none when there is nothing to generate.
    pub out_dir: Option<String>,
    /// The files to write, in order.
    pub files: Vec<GeneratedFile>,
    /// The tools to run over the files afterwards, in order; a tool that
    /// fails does not stop the generation.
    pub tools: Vec<ToolRun>,
}

/// The file that holds the helpers.
pub open spec fn is_helpers_file(f: GeneratedFile, out_dir: Seq<char>) -> bool {
    f.path@ == joined(out_dir, "helpers.dart"@) && f.content@ == HELPERS_DART@
}

/// The file of the test driver.
pub open spec fn is_driver_file(f: GeneratedFile, curr_dir: Seq<char>) -> bool {
    f.path@ == joined(joined(curr_dir, "test_driver"@), "integration_test.dart"@) && f.content@
        == TEST_DRIVER_DART@
}

/// The file of the feature `feature`.
pub open spec fn is_feature_file(f: GeneratedFile, feature: FeatureTest, out_dir: Seq<char>) -> bool {
    f.path@ == joined(out_dir, test_file_stem(feature.name@) + ".dart"@) && f.content@
        == feature_code(feature)
}

/// `files` are the files of a Flutter project with the features
/// `features`: the helpers, one file per feature, the entry point, the
/// variables if there are any, and the test driver.
pub open spec fn flutter_files(
    files: Seq<GeneratedFile>,
    features: Seq<FeatureTest>,
    vars: Vars,
    out_dir: Seq<char>,
    curr_dir: Seq<char>,
) -> bool {
    let n = features.len() as int;
    let with_vars = vars.data@.len() > 0;
    &&& files.len() == n + 3 + (if with_vars {
        1int
    } else {
        0int
    })
    &&& is_helpers_file(files[0], out_dir)
    &&& forall|i: int| 0 <= i < n ==> is_feature_file(#[trigger] files[1 + i], features[i], out_dir)
    &&& files[n + 1].path@ == joined(out_dir, "all_tests.dart"@)
    &&& files[n + 1].content@ == entrypoint_code(features)
    &&& with_vars ==> files[n + 2].path@ == joined(out_dir, "vars.dart"@) && files[n
        + 2].content@ == vars_code(vars.data@)
    &&& is_driver_file(files.last(), curr_dir)
}

impl GenFlutter {
    /// The file that holds the helpers.
    pub fn generate_helpers(&self) -> (file: GeneratedFile)
        ensures
            is_helpers_file(file, self.out_dir@),
    {
        GeneratedFile {
            path: DirUtils::join(self.out_dir.as_str(), "helpers.dart"),
            content: String::from_str(HELPERS_DART),
        }
    }

    /// The file of the test driver, in `test_driver` below the project's
    /// directory.
    pub fn generate_test_driver(&self, curr_dir: &str) -> (file: GeneratedFile)
        ensures
            is_driver_file(file, curr_dir@),
    {
        let parent = DirUtils::join(curr_dir, "test_driver");
        GeneratedFile {
            path: DirUtils::join(parent.as_str(), "integration_test.dart"),
            content: String::from_str(TEST_DRIVER_DART),
        }
    }

    /// The files of the project, in the order in which they are written.
    pub fn run(&self, features: &Vec<FeatureTest>, vars: &Vars, curr_dir: &str) -> (files: Vec<
        GeneratedFile,
    >)
        ensures
            flutter_files(files@, features@, *vars, self.out_dir@, curr_dir@),
    {
        let mut files: Vec<GeneratedFile> = Vec::new();
        files.push(self.generate_helpers());
        let mut i: usize = 0;
        while i < features.len()
            invariant
                i <= features.len(),
                files@.len() == 1 + i,
                is_helpers_file(files@[0], self.out_dir@),
                forall|k: int|
                    0 <= k < i ==> is_feature_file(
                        #[trigger] files@[1 + k],
                        features@[k],
                        self.out_dir@,
                    ),
            decreases features.len() - i,
        {
            files.push(features[i].generate_dart(vars, self.out_dir.as_str()));
            i += 1;
        }
        files.push(self.generate_all_entrypoint(features));
        match self.generate_vars(vars) {
            Some(f) => {
                files.push(f);
            },
            None => {},
        }
        files.push(self.generate_test_driver(curr_dir));
        files
    }
}

/// Main controller of the code generation.
pub struct CodeGen {
    pub args: AppArgs,
    pub config: Config,
    pub vars: Vars,
}

impl CodeGen {
    pub fn new(args: AppArgs, config: Config, vars: Vars) -> (generator: Self)
        ensures
            generator.args == args,
            generator.config == config,
            generator.vars == vars,
    {
        CodeGen { args, config, vars }
    }

    /// The generators for the project's kind, each writing below the
    /// project's directory `curr_dir`.
    pub fn get_generators(&self, curr_dir: &str) -> (generators: Vec<GenFlutter>)
        ensures
            generators@.len() == 1,
            generators@[0].project_type() == self.config.project_type,
            generators@[0].out_dir@ == joined(curr_dir@, "integration_test/generated"@),
    {
        let mut generators: Vec<GenFlutter> = Vec::new();
        let candidate = GenFlutter::from_exec_dir(curr_dir);
        match self.config.project_type {
            ProjectType::Flutter => {
                generators.push(candidate);
            },
        }
        generators
    }

    /// What is generated for the features of `state`, in the project's
    /// directory `curr_dir`: nothing if there are no features; else the
    /// files of the project, into a directory that is made anew, and the
    /// formatter and the mender over them.
    pub fn execute(&self, state: &GenState, curr_dir: &str) -> (plan: Generation)
        ensures
            state.features@.len() == 0 ==> plan.out_dir is None && plan.files@.len() == 0
                && plan.tools@.len() == 0,
            state.features@.len() > 0 ==> {
                &&& plan.out_dir matches Some(dir)
                &&& dir@ == joined(curr_dir@, "integration_test/generated"@)
                &&& flutter_files(plan.files@, state.features@, self.vars, dir@, curr_dir@)
                &&& plan.tools@.len() == 2
                &&& plan.tools@[0].program@ == "dart"@
                &&& plan.tools@[0].args@.len() == 2
                &&& plan.tools@[0].args@[0]@ == "format"@
                &&& plan.tools@[0].args@[1]@ == dir@
                &&& plan.tools@[1].program@ == "dart"@
                &&& plan.tools@[1].args@.len() == 3
                &&& plan.tools@[1].args@[0]@ == "fix"@
                &&& plan.tools@[1].args@[1]@ == dir@
                &&& plan.tools@[1].args@[2]@ == "--apply"@
            },
    {
        if state.features.len() == 0 {
            return Generation { out_dir: None, files: Vec::new(), tools: Vec::new() };
        }
        self.generate_code(&state.features, curr_dir)
    }

    fn generate_code(&self, features: &Vec<FeatureTest>, curr_dir: &str) -> (plan: Generation)
        ensures
            plan.out_dir matches Some(dir) && dir@ == joined(
                curr_dir@,
                "integration_test/generated"@,
            ) && flutter_files(plan.files@, features@, self.vars, dir@, curr_dir@),
            plan.tools@.len() == 2,
            plan.tools@[0].program@ == "dart"@,
            plan.tools@[0].args@.len() == 2,
            plan.tools@[0].args@[0]@ == "format"@,
            plan.tools@[0].args@[1]@ == joined(curr_dir@, "integration_test/generated"@),
            plan.tools@[1].program@ == "dart"@,
            plan.tools@[1].args@.len() == 3,
            plan.tools@[1].args@[0]@ == "fix"@,
            plan.tools@[1].args@[1]@ == joined(curr_dir@, "integration_test/generated"@),
            plan.tools@[1].args@[2]@ == "--apply"@,
    {
        let generators = self.get_generators(curr_dir);
        let generator = &generators[0];
        let files = generator.run(features, &self.vars, curr_dir);
        let mut tools: Vec<ToolRun> = Vec::new();
        tools.push(generator.run_dart_format());
        tools.push(generator.run_dart_fix());
        Generation { out_dir: Some(generator.out_dir.clone()), files, tools }
    }
}

} // verus!
