//! Running the tests of a Flutter project.
//!
//! The commands that build the application and start the test driver, what
//! is copied to the remote host, and what is made of the driver's output.

use crate::code_run::output::{
    event_views, initial_state, lemma_step_counters, option_view, run, run_events, run_requests,
    step, OutputParser, TestEvent,
};
use crate::code_run::run_iface::CodeRunTrait;
use crate::gmail::client::GmailClient;
use crate::models::app_state::AppState;
use crate::models::config::{pair_texts, Config, ProjectType};
use crate::models::feature_test::{
    full_test_name, FeatureTest, Step, TestCase, UserInputGmail, UserInputGmailRegexType,
};
use crate::models::vars::Vars;
use crate::text::same_text;
use crate::utils::command::{env_sourced, CommandUtils};
use crate::utils::dbus::{continue_cmd, DbusUtils};
use crate::utils::dir::{joined, DirUtils};
use crate::utils::variables::{filled, Fill};
use vstd::prelude::*;
use vstd::string::*;

verus! {

/// The command that builds the application.
pub const BUILD_COMMAND: &'static str =
    "flutter pub get && flutter build linux --debug --target=integration_test/generated/all_tests.dart";

/// The pattern that finds a code of six digits.
pub const MFA_PATTERN: &'static str = "\\b(\\d{6})\\b";

/// The command that starts the test driver for the application binary
/// named `binary_name`.
pub open spec fn drive_command(binary_name: Seq<char>) -> Seq<char> {
    "flutter drive --driver=test_driver/integration_test.dart --target=integration_test/generated/all_tests.dart --use-application-binary=build/linux/x64/debug/bundle/"@
        + binary_name + " --no-headless -d linux"@
}

/// A directory that is copied to the remote host.
#[derive(Clone, Debug, PartialEq, Eq)]
pub struct SyncDir {
    pub local: String,
    pub remote: String,
}

/// One step of the preparation of a run.
#[derive(Clone, Debug, PartialEq, Eq)]
pub enum PrepareStep {
    /// Run this command in the project's directory; stop if it fails.
    Build { command: String },
    /// Copy the directory to the remote host.
    Sync { dir: SyncDir },
    /// Clean the project's package description and copy it to the remote
    /// host.
    SyncPubspec { local: String, remote: String },
}

/// How the value of an input is obtained.
#[derive(Clone, Debug, PartialEq, Eq)]
pub enum InputPlan {
    /// From the newest mail that fits; the first group of `pattern` is the
    /// value.
    Email {
        from: String,
        subject_contains: String,
        pattern: String,
        after_timestamp: i64,
        timeout_secs: u64,
        poll_interval_secs: u64,
    },
    /// From the terminal; nothing after `timeout_secs` means the empty
    /// value.
    Prompt { message: String, timeout_secs: u64 },
}

/// What one line of the driver's output gave.
#[derive(Debug, PartialEq, Eq)]
pub struct StreamStep {
    pub events: Vec<TestEvent>,
    /// The input that the running test waits for, and how to obtain it.
    pub input: Option<InputPlan>,
}

/// What a whole stream of output gave.
#[derive(Debug, PartialEq, Eq)]
pub struct StreamReport {
    pub events: Vec<TestEvent>,
    /// The inputs that tests waited for, in order.
    pub inputs: Vec<InputPlan>,
    pub result: Result<(), String>,
}

/// The description of the first test at or after `from` of feature `f` that
/// the driver reports as `full`.
pub open spec fn description_in(f: FeatureTest, full: Seq<char>, from: int) -> Option<Seq<char>>
    decreases f.tests@.len() - from,
{
    if from < 0 || from >= f.tests@.len() {
        None
    } else if full_test_name(f.name@, f.tests@[from].name@) == full {
        Some(f.tests@[from].description@)
    } else {
        description_in(f, full, from + 1)
    }
}

/// The description of the first test, in the features at or after `from`,
/// that the driver reports as `full`.
pub open spec fn description_of(features: Seq<FeatureTest>, full: Seq<char>, from: int) -> Option<
    Seq<char>,
>
    decreases features.len() - from,
{
    if from < 0 || from >= features.len() {
        None
    } else if description_in(features[from], full, 0) is Some {
        description_in(features[from], full, 0)
    } else {
        description_of(features, full, from + 1)
    }
}

/// Where the value of the input `input` comes from, by the first step at or
/// after `from` that asks for it.
pub open spec fn source_in_steps(steps: Seq<Step>, input: Seq<char>, from: int) -> Option<
    Option<UserInputGmail>,
>
    decreases steps.len() - from,
{
    if from < 0 || from >= steps.len() {
        None
    } else if steps[from] matches Step::UserInput { user_input } && user_input.name@ == input {
        Some(steps[from]->UserInput_user_input.gmail)
    } else {
        source_in_steps(steps, input, from + 1)
    }
}

/// The same, by the first test at or after `from` of feature `f` that the
/// driver reports as `full` and that asks for the input.
pub open spec fn source_in_tests(f: FeatureTest, full: Seq<char>, input: Seq<char>, from: int) -> Option<
    Option<UserInputGmail>,
>
    decreases f.tests@.len() - from,
{
    if from < 0 || from >= f.tests@.len() {
        None
    } else if full_test_name(f.name@, f.tests@[from].name@) == full && source_in_steps(
        f.tests@[from].steps@,
        input,
        0,
    ) is Some {
        source_in_steps(f.tests@[from].steps@, input, 0)
    } else {
        source_in_tests(f, full, input, from + 1)
    }
}

/// The same, by the first feature at or after `from` that has such a test.
pub open spec fn source_in_features(
    features: Seq<FeatureTest>,
    full: Seq<char>,
    input: Seq<char>,
    from: int,
) -> Option<Option<UserInputGmail>>
    decreases features.len() - from,
{
    if from < 0 || from >= features.len() {
        None
    } else if source_in_tests(features[from], full, input, 0) is Some {
        source_in_tests(features[from], full, input, 0)
    } else {
        source_in_features(features, full, input, from + 1)
    }
}

/// The mail rule for the input `input` of the test that the driver reports
/// as `full`, if the descriptions have one.
pub open spec fn mail_rule(features: Seq<FeatureTest>, full: Seq<char>, input: Seq<char>) -> Option<
    UserInputGmail,
> {
    match source_in_features(features, full, input, 0) {
        Some(Some(rule)) => Some(rule),
        _ => None,
    }
}

/// The pattern by which a rule cuts the value out of a mail.
pub open spec fn rule_pattern(rule: UserInputGmail) -> Seq<char> {
    match rule.regex {
        UserInputGmailRegexType::Custom { pattern } => pattern@,
        UserInputGmailRegexType::Mfa => MFA_PATTERN@,
    }
}

/// The question that is put on the terminal for the input `input`.
pub open spec fn prompt_message(input: Seq<char>) -> Seq<char> {
    "User input requested for "@ + input + ":"@
}

/// `plan` is how the input `input` of the test `test` is obtained: by mail
/// if the configuration enables it and the descriptions have a rule for the
/// input, else from the terminal.
pub open spec fn plans_input(
    plan: InputPlan,
    config: Config,
    vars: Vars,
    features: Seq<FeatureTest>,
    test: Seq<char>,
    input: Seq<char>,
    start_timestamp: i64,
) -> bool {
    match plan {
        InputPlan::Email {
            from,
            subject_contains,
            pattern,
            after_timestamp,
            timeout_secs,
            poll_interval_secs,
        } => {
            &&& config.gmail.enabled
            &&& mail_rule(features, test, input) matches Some(rule)
            &&& from@ == filled(
                rule.from@,
                Fill::Values { extra: Seq::empty(), vars: pair_texts(vars.all_vars@) },
            )
            &&& subject_contains@ == filled(
                rule.subject_contains@,
                Fill::Values { extra: Seq::empty(), vars: pair_texts(vars.all_vars@) },
            )
            &&& pattern@ == rule_pattern(rule)
            &&& after_timestamp == start_timestamp
            &&& timeout_secs == 30
            &&& poll_interval_secs == 3
        },
        InputPlan::Prompt { message, timeout_secs } => {
            &&& !(config.gmail.enabled && mail_rule(features, test, input) is Some)
            &&& message@ == prompt_message(input)
            &&& timeout_secs == 30
        },
    }
}

pub open spec fn line_views(lines: Seq<String>) -> Seq<Seq<char>> {
    Seq::new(lines.len(), |i: int| lines[i]@)
}

/// How a run of the tests ends: with an error if a test failed, or if the
/// driver ended badly though no test failed.
pub open spec fn stream_result(failed: nat, exit_ok: bool) -> Result<(), Seq<char>> {
    if failed > 0 {
        Err("Some tests failed"@)
    } else if !exit_ok {
        Err("Error during tests"@)
    } else {
        Ok(())
    }
}

/// The runner for Flutter projects.
#[derive(Clone, Copy, Debug, PartialEq, Eq)]
pub struct RunFlutter;

impl CodeRunTrait for RunFlutter {
    open spec fn project_type(&self) -> ProjectType {
        ProjectType::Flutter
    }

    fn get_type(&self) -> (t: ProjectType) {
        ProjectType::Flutter
    }
}

impl RunFlutter {
    pub fn new() -> (runner: Self)
        ensures
            runner.project_type() == ProjectType::Flutter,
    {
        RunFlutter
    }

    /// The directory in which the tests run: `flutter_app` below the
    /// working directory on a remote host, the project's directory on the
    /// local machine.
    pub fn exec_dir(&self, remote: bool, root_dir: &str, curr_dir: &str) -> (dir: String)
        ensures
            dir@ == (if remote {
                joined(root_dir@, "flutter_app"@)
            } else {
                curr_dir@
            }),
    {
        if remote {
            DirUtils::join(root_dir, "flutter_app")
        } else {
            String::from_str(curr_dir)
        }
    }

    fn sync_pair(curr_dir: &str, exec_dir: &str, name: &str) -> (dir: SyncDir)
        ensures
            dir.local@ == joined(curr_dir@, name@),
            dir.remote@ == joined(exec_dir@, name@),
    {
        SyncDir { local: DirUtils::join(curr_dir, name), remote: DirUtils::join(exec_dir, name) }
    }

    /// The build that goes to the remote host.
    pub fn sync_build(&self, curr_dir: &str, exec_dir: &str) -> (dir: SyncDir)
        ensures
            dir.local@ == joined(curr_dir@, "build/linux/x64/debug/bundle"@),
            dir.remote@ == joined(exec_dir@, "build/linux/x64/debug/bundle"@),
    {
        Self::sync_pair(curr_dir, exec_dir, "build/linux/x64/debug/bundle")
    }

    /// The integration tests that go to the remote host.
    pub fn sync_tests(&self, curr_dir: &str, exec_dir: &str) -> (dir: SyncDir)
        ensures
            dir.local@ == joined(curr_dir@, "integration_test"@),
            dir.remote@ == joined(exec_dir@, "integration_test"@),
    {
        Self::sync_pair(curr_dir, exec_dir, "integration_test")
    }

    /// The test driver that goes to the remote host.
    pub fn sync_driver(&self, curr_dir: &str, exec_dir: &str) -> (dir: SyncDir)
        ensures
            dir.local@ == joined(curr_dir@, "test_driver"@),
            dir.remote@ == joined(exec_dir@, "test_driver"@),
    {
        Self::sync_pair(curr_dir, exec_dir, "test_driver")
    }

    /// The platform directory that goes to the remote host.
    pub fn sync_linux(&self, curr_dir: &str, exec_dir: &str) -> (dir: SyncDir)
        ensures
            dir.local@ == joined(curr_dir@, "linux"@),
            dir.remote@ == joined(exec_dir@, "linux"@),
    {
        Self::sync_pair(curr_dir, exec_dir, "linux")
    }

    /// What has to be done before the driver starts: the build, and for a
    /// remote run the four directories and the package description, in
    /// this order.
    pub fn prepare_env(&self, remote: bool, curr_dir: &str, exec_dir: &str) -> (steps: Vec<
        PrepareStep,
    >)
        ensures
            steps@.len() == (if remote {
                6int
            } else {
                1int
            }),
            steps@[0] matches PrepareStep::Build { command } && command@ == BUILD_COMMAND@,
            remote ==> {
                &&& steps@[1] matches PrepareStep::Sync { dir } && dir.local@ == joined(
                    curr_dir@,
                    "build/linux/x64/debug/bundle"@,
                ) && dir.remote@ == joined(exec_dir@, "build/linux/x64/debug/bundle"@)
                &&& steps@[2] matches PrepareStep::Sync { dir } && dir.local@ == joined(
                    curr_dir@,
                    "integration_test"@,
                ) && dir.remote@ == joined(exec_dir@, "integration_test"@)
                &&& steps@[3] matches PrepareStep::Sync { dir } && dir.local@ == joined(
                    curr_dir@,
                    "test_driver"@,
                ) && dir.remote@ == joined(exec_dir@, "test_driver"@)
                &&& steps@[4] matches PrepareStep::Sync { dir } && dir.local@ == joined(
                    curr_dir@,
                    "linux"@,
                ) && dir.remote@ == joined(exec_dir@, "linux"@)
                &&& steps@[5] matches PrepareStep::SyncPubspec { local, remote } && local@
                    == joined(curr_dir@, "pubspec.yaml"@) && remote@ == joined(
                    exec_dir@,
                    "pubspec.yaml"@,
                )
            },
    {
        let mut steps: Vec<PrepareStep> = Vec::new();
        steps.push(PrepareStep::Build { command: String::from_str(BUILD_COMMAND) });
        if remote {
            steps.push(PrepareStep::Sync { dir: self.sync_build(curr_dir, exec_dir) });
            steps.push(PrepareStep::Sync { dir: self.sync_tests(curr_dir, exec_dir) });
            steps.push(PrepareStep::Sync { dir: self.sync_driver(curr_dir, exec_dir) });
            steps.push(PrepareStep::Sync { dir: self.sync_linux(curr_dir, exec_dir) });
            steps.push(
                PrepareStep::SyncPubspec {
                    local: DirUtils::join(curr_dir, "pubspec.yaml"),
                    remote: DirUtils::join(exec_dir, "pubspec.yaml"),
                },
            );
        }
        steps
    }

    /// The command that starts the test driver, with the environment of
    /// the working directory.
    pub fn get_flutter_drive_command_str(&self, root_dir: &str, binary_name: &str) -> (r: String)
        ensures
            r@ == env_sourced(root_dir@, drive_command(binary_name@)),
    {
        let mut drive = String::from_str(
            "flutter drive --driver=test_driver/integration_test.dart --target=integration_test/generated/all_tests.dart --use-application-binary=build/linux/x64/debug/bundle/",
        );
        drive.append(binary_name);
        drive.append(" --no-headless -d linux");
        CommandUtils::with_env_source(root_dir, drive.as_str())
    }

    /// The command that starts the test driver on the remote host, in the
    /// directory `exec_dir`.
    pub fn remote_drive_command(&self, exec_dir: &str, root_dir: &str, binary_name: &str) -> (r:
        String)
        ensures
            r@ == "cd "@ + exec_dir@ + " && "@ + env_sourced(root_dir@, drive_command(binary_name@)),
    {
        let drive = self.get_flutter_drive_command_str(root_dir, binary_name);
        let mut cmd = String::from_str("cd ");
        cmd.append(exec_dir);
        cmd.append(" && ");
        cmd.append(drive.as_str());
        cmd
    }

    /// The mail client, if the configuration enables reading mail.
    pub fn get_gmail_client(&self, config: &Config) -> (client: Option<GmailClient>)
        ensures
            client is Some <==> config.gmail.enabled,
            client matches Some(c) ==> match config.gmail.credentials.s3 {
                Some(s3) => c.s3_bucket == Some(s3.bucket) && c.s3_key_prefix == Some(s3.key_prefix),
                None => c.s3_bucket is None && c.s3_key_prefix is None,
            },
    {
        if !config.gmail.enabled {
            return None;
        }
        match &config.gmail.credentials.s3 {
            Some(s3) => Some(
                GmailClient::new(Some(s3.bucket.clone()), Some(s3.key_prefix.clone())),
            ),
            None => Some(GmailClient::new(None, None)),
        }
    }

    fn description_in_feature(feature: &FeatureTest, full_test_name: &str) -> (r: Option<String>)
        ensures
            option_view(r) == description_in(*feature, full_test_name@, 0),
    {
        let mut i: usize = 0;
        while i < feature.tests.len()
            invariant
                i <= feature.tests.len(),
                description_in(*feature, full_test_name@, 0) == description_in(
                    *feature,
                    full_test_name@,
                    i as int,
                ),
            decreases feature.tests.len() - i,
        {
            let test = &feature.tests[i];
            let mut joined_name = feature.name.clone();
            joined_name.append(" - ");
            joined_name.append(test.name.as_str());
            if same_text(joined_name.as_str(), full_test_name) {
                return Some(test.description.clone());
            }
            i += 1;
        }
        None
    }

    /// The description of the test that the driver reports as
    /// `full_test_name`, which is the feature's name, ` - ` and the test's
    /// name. The first such test counts.
    pub fn find_feature_test_description(
        &self,
        features: &Vec<FeatureTest>,
        full_test_name: &str,
    ) -> (r: Option<String>)
        ensures
            option_view(r) == description_of(features@, full_test_name@, 0),
    {
        let mut i: usize = 0;
        while i < features.len()
            invariant
                i <= features.len(),
                description_of(features@, full_test_name@, 0) == description_of(
                    features@,
                    full_test_name@,
                    i as int,
                ),
            decreases features.len() - i,
        {
            let found = Self::description_in_feature(&features[i], full_test_name);
            if found.is_some() {
                return found;
            }
            i += 1;
        }
        None
    }

    fn source_in_test(test: &TestCase, user_input_name: &str) -> (r: Option<Option<UserInputGmail>>)
        ensures
            r == source_in_steps(test.steps@, user_input_name@, 0),
    {
        let mut i: usize = 0;
        while i < test.steps.len()
            invariant
                i <= test.steps.len(),
                source_in_steps(test.steps@, user_input_name@, 0) == source_in_steps(
                    test.steps@,
                    user_input_name@,
                    i as int,
                ),
            decreases test.steps.len() - i,
        {
            match &test.steps[i] {
                Step::UserInput { user_input } => {
                    if same_text(user_input.name.as_str(), user_input_name) {
                        return Some(
                            match &user_input.gmail {
                                Some(rule) => Some(rule.duplicate()),
                                None => None,
                            },
                        );
                    }
                },
                _ => {},
            }
            i += 1;
        }
        None
    }

    fn source_in_feature(feature: &FeatureTest, full_test_name: &str, user_input_name: &str) -> (r:
        Option<Option<UserInputGmail>>)
        ensures
            r == source_in_tests(*feature, full_test_name@, user_input_name@, 0),
    {
        let mut i: usize = 0;
        while i < feature.tests.len()
            invariant
                i <= feature.tests.len(),
                source_in_tests(*feature, full_test_name@, user_input_name@, 0) == source_in_tests(
                    *feature,
                    full_test_name@,
                    user_input_name@,
                    i as int,
                ),
            decreases feature.tests.len() - i,
        {
            let test = &feature.tests[i];
            let mut joined_name = feature.name.clone();
            joined_name.append(" - ");
            joined_name.append(test.name.as_str());
            if same_text(joined_name.as_str(), full_test_name) {
                let found = Self::source_in_test(test, user_input_name);
                if found.is_some() {
                    return found;
                }
            }
            i += 1;
        }
        None
    }

    /// The mail rule for the input `user_input_name` of the test that the
    /// driver reports as `full_test_name`: that of the first step that asks
    /// for the input, in the first such test that has one.
    pub fn find_feature_test_gmail_config(
        &self,
        features: &Vec<FeatureTest>,
        full_test_name: &str,
        user_input_name: &str,
    ) -> (r: Option<UserInputGmail>)
        ensures
            r == mail_rule(features@, full_test_name@, user_input_name@),
    {
        let mut i: usize = 0;
        while i < features.len()
            invariant
                i <= features.len(),
                source_in_features(features@, full_test_name@, user_input_name@, 0)
                    == source_in_features(features@, full_test_name@, user_input_name@, i as int),
            decreases features.len() - i,
        {
            let found = Self::source_in_feature(&features[i], full_test_name, user_input_name);
            match found {
                Some(source) => {
                    return source;
                },
                None => {},
            }
            i += 1;
        }
        None
    }

    /// Decides how the value of the input `input_name`, for which the test
    /// `curr_test` waits, is obtained. How the value is then handed to the
    /// test is said by `continue_command`.
    pub fn process_user_input(
        &self,
        config: &Config,
        vars: &Vars,
        features: &Vec<FeatureTest>,
        curr_test: &str,
        input_name: &str,
        start_timestamp: i64,
    ) -> (plan: InputPlan)
        ensures
            plans_input(plan, *config, *vars, features@, curr_test@, input_name@, start_timestamp),
    {
        if config.gmail.enabled {
            match self.find_feature_test_gmail_config(features, curr_test, input_name) {
                Some(rule) => {
                    let from = vars.replace_var(rule.from.as_str(), None);
                    let subject_contains = vars.replace_var(rule.subject_contains.as_str(), None);
                    let pattern = match &rule.regex {
                        UserInputGmailRegexType::Custom { pattern } => pattern.clone(),
                        UserInputGmailRegexType::Mfa => String::from_str(MFA_PATTERN),
                    };
                    return InputPlan::Email {
                        from,
                        subject_contains,
                        pattern,
                        after_timestamp: start_timestamp,
                        timeout_secs: 30,
                        poll_interval_secs: 3,
                    };
                },
                None => {},
            }
        }
        let mut message = String::from_str("User input requested for ");
        message.append(input_name);
        message.append(":");
        InputPlan::Prompt { message, timeout_secs: 30 }
    }

    /// The command that hands the value to the waiting test. A value that
    /// could not be obtained is handed over as the empty value.
    pub fn continue_command(&self, value: &Result<String, String>, root_dir: &str) -> (r: String)
        ensures
            r@ == env_sourced(
                root_dir@,
                continue_cmd(
                    match value {
                        Ok(v) => v@,
                        Err(_) => Seq::empty(),
                    },
                ),
            ),
    {
        let cmd = match value {
            Ok(v) => DbusUtils::dbus_method_continue_cmd(v.as_str()),
            Err(_) => {
                proof {
                    reveal_strlit("");
                    assert(""@ =~= Seq::<char>::empty());
                }
                DbusUtils::dbus_method_continue_cmd("")
            },
        };
        CommandUtils::with_env_source(root_dir, cmd.as_str())
    }

    /// Reads one line of the driver's output.
    ///
    /// The parser takes the line in. Each test that the line ends is added
    /// to the counts of the shared results, which may hold the counts of
    /// earlier streams. If the line asks for an input, the result says how
    /// to obtain it.
    pub fn process_line(
        &self,
        parser: &mut OutputParser,
        state: &mut AppState,
        config: &Config,
        vars: &Vars,
        features: &Vec<FeatureTest>,
        raw: &str,
        start_timestamp: i64,
    ) -> (out: StreamStep)
        requires
            old(state).results.passed < u64::MAX,
            old(state).results.failed < u64::MAX,
        ensures
            final(parser)@ == step(old(parser)@, raw@).state,
            event_views(out.events@) == step(old(parser)@, raw@).events,
            match step(old(parser)@, raw@).request {
                Some(input) => out.input matches Some(plan) && old(parser)@.current matches Some(
                    test,
                ) && plans_input(plan, *config, *vars, features@, test, input, start_timestamp),
                None => out.input is None,
            },
            final(state).results.passed == old(state).results.passed + (final(parser)@.passed
                - old(parser)@.passed),
            final(state).results.failed == old(state).results.failed + (final(parser)@.failed
                - old(parser)@.failed),
            old(state).results.passed <= final(state).results.passed <= old(state).results.passed
                + 1,
            old(state).results.failed <= final(state).results.failed <= old(state).results.failed
                + 1,
            final(state).results.total == old(state).results.total,
            final(state).results.start_time == old(state).results.start_time,
            final(state).results.end_time == old(state).results.end_time,
            final(state).results.full_log == old(state).results.full_log,
            final(state).results.error == old(state).results.error,
            final(state).remote == old(state).remote,
            final(state).os_info == old(state).os_info,
            final(state).sudo_password == old(state).sudo_password,
            final(state).root_dir == old(state).root_dir,
    {
        let running = parser.current_test();
        let passed_before: u64 = parser.passed();
        let failed_before: u64 = parser.failed();
        let outcome = parser.process_line(raw);
        let passed: u64 = state.results.passed + (parser.passed() - passed_before);
        let failed: u64 = state.results.failed + (parser.failed() - failed_before);
        state.set_results_counts(passed, failed);
        let input = match &outcome.request {
            Some(name) => match &running {
                Some(test) => Some(
                    self.process_user_input(
                        config,
                        vars,
                        features,
                        test.as_str(),
                        name.as_str(),
                        start_timestamp,
                    ),
                ),
                None => None,
            },
            None => None,
        };
        StreamStep { events: outcome.events, input }
    }

    /// Closes the results when the stream has ended: the total is the
    /// number of tests that this stream saw pass plus the number that it
    /// saw fail, the times are stamped and the full log is stored. The
    /// counts of passed and failed tests, which grew line by line, stay.
    /// The run of the tests is an error if a test of this stream failed, or
    /// if the driver ended badly (`exit_ok` is false) though no test failed.
    pub fn finish_lines(
        &self,
        parser: &OutputParser,
        state: &mut AppState,
        start_time: i64,
        end_time: i64,
        exit_ok: bool,
    ) -> (result: Result<(), String>)
        ensures
            crate::code_run::run::result_view(result) == stream_result(parser@.failed, exit_ok),
            final(state).results.passed == old(state).results.passed,
            final(state).results.failed == old(state).results.failed,
            final(state).results.total == parser@.passed + parser@.failed,
            final(state).results.start_time == start_time,
            final(state).results.end_time == end_time,
            final(state).results.full_log@ == parser@.log,
            final(state).results.error == old(state).results.error,
            final(state).remote == old(state).remote,
            final(state).os_info == old(state).os_info,
            final(state).sudo_password == old(state).sudo_password,
            final(state).root_dir == old(state).root_dir,
    {
        let tally = parser.tally();
        state.set_results_total(tally.total);
        state.set_results_time(start_time, end_time);
        state.set_results_full_log(parser.full_log());
        if tally.failed > 0 {
            Err(String::from_str("Some tests failed"))
        } else if !exit_ok {
            Err(String::from_str("Error during tests"))
        } else {
            Ok(())
        }
    }

    /// Reads a whole stream of output, from a parser that has read
    /// nothing, and closes the results.
    ///
    /// The tests that the stream saw pass and fail are added to the counts
    /// of the shared results; the total is what this stream counted. The
    /// report lists, in the order of the lines, how each input that a test
    /// waited for is obtained. No line ends more than one test of a kind, so
    /// the counts fit if there is room for one test a line.
    pub fn process_lines(
        &self,
        lines: &Vec<String>,
        state: &mut AppState,
        config: &Config,
        vars: &Vars,
        features: &Vec<FeatureTest>,
        start_time: i64,
        end_time: i64,
        exit_ok: bool,
    ) -> (report: StreamReport)
        requires
            old(state).results.passed + lines@.len() <= u64::MAX,
            old(state).results.failed + lines@.len() <= u64::MAX,
        ensures
            event_views(report.events@) == run_events(initial_state(), line_views(lines@)),
            report.inputs@.len() == run_requests(initial_state(), line_views(lines@)).len(),
            forall|k: int|
                0 <= k < report.inputs@.len() ==> plans_input(
                    #[trigger] report.inputs@[k],
                    *config,
                    *vars,
                    features@,
                    run_requests(initial_state(), line_views(lines@))[k].0,
                    run_requests(initial_state(), line_views(lines@))[k].1,
                    start_time,
                ),
            crate::code_run::run::result_view(report.result) == stream_result(
                run(initial_state(), line_views(lines@)).failed,
                exit_ok,
            ),
            final(state).results.passed == old(state).results.passed + run(
                initial_state(),
                line_views(lines@),
            ).passed,
            final(state).results.failed == old(state).results.failed + run(
                initial_state(),
                line_views(lines@),
            ).failed,
            final(state).results.total == run(initial_state(), line_views(lines@)).passed + run(
                initial_state(),
                line_views(lines@),
            ).failed,
            old(state).results.passed == 0 && old(state).results.failed == 0
                ==> final(state).results.total == final(state).results.passed
                + final(state).results.failed,
            final(state).results.start_time == start_time,
            final(state).results.end_time == end_time,
            final(state).results.full_log@ == run(initial_state(), line_views(lines@)).log,
            final(state).results.error == old(state).results.error,
            final(state).remote == old(state).remote,
            final(state).os_info == old(state).os_info,
            final(state).sudo_password == old(state).sudo_password,
            final(state).root_dir == old(state).root_dir,
    {
        let mut parser = OutputParser::new();
        let mut events: Vec<TestEvent> = Vec::new();
        let mut inputs: Vec<InputPlan> = Vec::new();
        let mut i: usize = 0;
        proof {
            assert(line_views(lines@).take(0) =~= Seq::empty());
            assert(event_views(events@) =~= Seq::empty());
        }
        while i < lines.len()
            invariant
                i <= lines.len(),
                old(state).results.passed + lines@.len() <= u64::MAX,
                old(state).results.failed + lines@.len() <= u64::MAX,
                parser@ == run(initial_state(), line_views(lines@).take(i as int)),
                parser@.passed <= i,
                parser@.failed <= i,
                event_views(events@) == run_events(
                    initial_state(),
                    line_views(lines@).take(i as int),
                ),
                inputs@.len() == run_requests(
                    initial_state(),
                    line_views(lines@).take(i as int),
                ).len(),
                forall|k: int|
                    0 <= k < inputs@.len() ==> plans_input(
                        #[trigger] inputs@[k],
                        *config,
                        *vars,
                        features@,
                        run_requests(initial_state(), line_views(lines@).take(i as int))[k].0,
                        run_requests(initial_state(), line_views(lines@).take(i as int))[k].1,
                        start_time,
                    ),
                state.results.passed == old(state).results.passed + parser@.passed,
                state.results.failed == old(state).results.failed + parser@.failed,
                state.results.total == old(state).results.total,
                state.results.start_time == old(state).results.start_time,
                state.results.end_time == old(state).results.end_time,
                state.results.full_log == old(state).results.full_log,
                state.results.error == old(state).results.error,
                state.remote == old(state).remote,
                state.os_info == old(state).os_info,
                state.sudo_password == old(state).sudo_password,
                state.root_dir == old(state).root_dir,
            decreases lines.len() - i,
        {
            let ghost before = event_views(events@);
            let ghost parser_before = parser@;
            let step_out = self.process_line(
                &mut parser,
                state,
                config,
                vars,
                features,
                lines[i].as_str(),
                start_time,
            );
            let ghost added = event_views(step_out.events@);
            let mut new_events = step_out.events;
            let ghost old_events = events@;
            let ghost new_seq = new_events@;
            events.append(&mut new_events);
            proof {
                let upto = line_views(lines@).take(i + 1);
                assert(upto.drop_last() =~= line_views(lines@).take(i as int));
                assert(upto.last() == lines@[i as int]@);
                assert(events@ =~= old_events + new_seq);
                assert(event_views(events@) =~= before + added);
                lemma_step_counters(parser_before, lines@[i as int]@);
            }
            match step_out.input {
                Some(plan) => {
                    inputs.push(plan);
                },
                None => {},
            }
            i += 1;
        }
        proof {
            assert(line_views(lines@).take(lines@.len() as int) =~= line_views(lines@));
        }
        let result = self.finish_lines(&parser, state, start_time, end_time, exit_ok);
        StreamReport { events, inputs, result }
    }
}

} // verus!
