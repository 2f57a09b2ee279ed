use playmaster::code_run::output::TestEvent;
use playmaster::code_run::run_flutter::{
    InputPlan, PrepareStep, RunFlutter, SyncDir, BUILD_COMMAND, MFA_PATTERN,
};
use playmaster::code_run::run_iface::CodeRunTrait;
use playmaster::code_run::output::OutputParser;
use playmaster::gmail::client::GmailClient;
use playmaster::models::app_state::AppState;
use playmaster::models::config::{Config, ProjectType, S3Config};
use playmaster::models::feature_test::{
    FeatureTest, FindBy, Step, TestCase, UserInput, UserInputGmail, UserInputGmailRegexType,
};
use playmaster::models::vars::Vars;
use playmaster::utils::dir::YamlResult;
use playmaster::utils::downloader_def::downloader::Downloader;
use playmaster::utils::downloader_def::provider::{ArtifactInfo, SourceProvider};

fn rule(pattern: Option<&str>) -> UserInputGmail {
    UserInputGmail {
        from: "noreply@{{ vars.shop.domain }}".to_string(),
        subject_contains: "Your code".to_string(),
        regex: match pattern {
            Some(p) => UserInputGmailRegexType::Custom { pattern: p.to_string() },
            None => UserInputGmailRegexType::Mfa,
        },
    }
}

fn input(name: &str, gmail: Option<UserInputGmail>) -> Step {
    Step::UserInput { user_input: UserInput { name: name.to_string(), gmail } }
}

fn test_case(name: &str, description: &str, steps: Vec<Step>) -> TestCase {
    TestCase { name: name.to_string(), description: description.to_string(), state: String::new(), steps }
}

fn feature(name: &str, tests: Vec<TestCase>) -> FeatureTest {
    FeatureTest {
        name: name.to_string(),
        description: String::new(),
        before_each: None,
        tests,
        vars: vec![],
        step_definitions: vec![],
    }
}

fn features() -> Vec<FeatureTest> {
    vec![
        feature(
            "Login",
            vec![
                test_case("with code", "first", vec![Step::Tap { tap: FindBy::Key { key: "k".to_string() } }]),
                test_case(
                    "with code",
                    "second",
                    vec![input("other", None), input("mfa", Some(rule(None))), input("mfa", None)],
                ),
                test_case("by hand", "third", vec![input("pin", None)]),
            ],
        ),
        feature("Login", vec![test_case("with code", "fourth", vec![input("mfa", Some(rule(Some("(x)"))))])]),
        feature("Shop - cart", vec![test_case("pay", "fifth", vec![input("mfa", Some(rule(Some("c=(\\d+)"))))])]),
    ]
}

fn vars() -> Vars {
    let mut v = Vars::new();
    v.all_vars.push(("vars.shop.domain".to_string(), "shop.example".to_string()));
    v
}

fn config(gmail: bool) -> Config {
    let mut c = Config::new(ProjectType::Flutter);
    c.gmail.enabled = gmail;
    c
}

#[test]
fn runner_is_for_flutter() {
    assert_eq!(RunFlutter::new().get_type(), ProjectType::Flutter);
}

#[test]
fn descriptions_are_found_by_full_name() {
    let r = RunFlutter::new();
    assert_eq!(r.find_feature_test_description(&features(), "Login - with code"), Some("first".to_string()));
    assert_eq!(r.find_feature_test_description(&features(), "Login - by hand"), Some("third".to_string()));
    assert_eq!(r.find_feature_test_description(&features(), "Shop - cart - pay"), Some("fifth".to_string()));
    assert_eq!(r.find_feature_test_description(&features(), "Login with code"), None);
    assert_eq!(r.find_feature_test_description(&vec![], "Login - with code"), None);
}

#[test]
fn mail_rules_are_found_by_test_and_input() {
    let r = RunFlutter::new();
    assert_eq!(r.find_feature_test_gmail_config(&features(), "Login - with code", "mfa"), Some(rule(None)));
    assert_eq!(r.find_feature_test_gmail_config(&features(), "Login - with code", "other"), None);
    assert_eq!(r.find_feature_test_gmail_config(&features(), "Login - by hand", "pin"), None);
    assert_eq!(r.find_feature_test_gmail_config(&features(), "Login - by hand", "mfa"), None);
    assert_eq!(
        r.find_feature_test_gmail_config(&features(), "Shop - cart - pay", "mfa"),
        Some(rule(Some("c=(\\d+)")))
    );
}

#[test]
fn input_comes_by_mail_only_when_enabled_and_ruled() {
    let r = RunFlutter::new();
    let by_mail = r.process_user_input(&config(true), &vars(), &features(), "Login - with code", "mfa", 1700);
    assert_eq!(
        by_mail,
        InputPlan::Email {
            from: "noreply@shop.example".to_string(),
            subject_contains: "Your code".to_string(),
            pattern: MFA_PATTERN.to_string(),
            after_timestamp: 1700,
            timeout_secs: 30,
            poll_interval_secs: 3,
        }
    );
    assert_eq!(MFA_PATTERN, r"\b(\d{6})\b");
    if let InputPlan::Email { pattern, .. } =
        r.process_user_input(&config(true), &vars(), &features(), "Shop - cart - pay", "mfa", 0)
    {
        assert_eq!(pattern, "c=(\\d+)");
    } else {
        panic!("expected a mail plan");
    }
    let prompt = InputPlan::Prompt { message: "User input requested for mfa:".to_string(), timeout_secs: 30 };
    assert_eq!(r.process_user_input(&config(false), &vars(), &features(), "Login - with code", "mfa", 1), prompt);
    assert_eq!(
        r.process_user_input(&config(true), &vars(), &features(), "Login - by hand", "pin", 1),
        InputPlan::Prompt { message: "User input requested for pin:".to_string(), timeout_secs: 30 }
    );
}

#[test]
fn value_that_could_not_be_obtained_is_sent_empty() {
    let r = RunFlutter::new();
    assert_eq!(
        r.continue_command(&Ok("123456".to_string()), "/r"),
        "source /r/.bashrc > /dev/null 2>&1 || true; busctl --user call one.playmaster.E2E /one/playmaster/E2E one.playmaster.E2E Continue s \"123456\""
    );
    assert_eq!(
        r.continue_command(&Err("timed out".to_string()), "/r"),
        "source /r/.bashrc > /dev/null 2>&1 || true; busctl --user call one.playmaster.E2E /one/playmaster/E2E one.playmaster.E2E Continue s \"\""
    );
}

#[test]
fn driver_command_names_the_binary() {
    let r = RunFlutter::new();
    assert_eq!(
        r.get_flutter_drive_command_str("/r", "shop"),
        "source /r/.bashrc > /dev/null 2>&1 || true; flutter drive --driver=test_driver/integration_test.dart --target=integration_test/generated/all_tests.dart --use-application-binary=build/linux/x64/debug/bundle/shop --no-headless -d linux"
    );
    assert!(r.remote_drive_command("/r/flutter_app", "/r", "shop").starts_with(
        "cd /r/flutter_app && source /r/.bashrc > /dev/null 2>&1 || true; flutter drive "
    ));
    assert_eq!(r.exec_dir(true, "/r", "/work"), "/r/flutter_app");
    assert_eq!(r.exec_dir(false, "/r", "/work"), "/work");
}

#[test]
fn remote_run_syncs_what_the_driver_needs() {
    let r = RunFlutter::new();
    let dir = |name: &str| PrepareStep::Sync {
        dir: SyncDir { local: format!("/work/{name}"), remote: format!("/r/app/{name}") },
    };
    assert_eq!(
        r.prepare_env(true, "/work", "/r/app"),
        vec![
            PrepareStep::Build { command: BUILD_COMMAND.to_string() },
            dir("build/linux/x64/debug/bundle"),
            dir("integration_test"),
            dir("test_driver"),
            dir("linux"),
            PrepareStep::SyncPubspec {
                local: "/work/pubspec.yaml".to_string(),
                remote: "/r/app/pubspec.yaml".to_string(),
            },
        ]
    );
    assert_eq!(
        r.prepare_env(false, "/work", "/work"),
        vec![PrepareStep::Build { command: BUILD_COMMAND.to_string() }]
    );
    assert_eq!(
        BUILD_COMMAND,
        "flutter pub get && flutter build linux --debug --target=integration_test/generated/all_tests.dart"
    );
    assert_eq!(r.sync_linux("/a/", "b").local, "/a/linux");
}

#[test]
fn mail_client_is_made_only_when_enabled() {
    let r = RunFlutter::new();
    assert_eq!(r.get_gmail_client(&config(false)), None);
    assert_eq!(r.get_gmail_client(&config(true)), Some(GmailClient::new(None, None)));
    let mut c = config(true);
    c.gmail.credentials.s3 = Some(S3Config { key_prefix: "k/".to_string(), bucket: "b".to_string() });
    assert_eq!(
        r.get_gmail_client(&c),
        Some(GmailClient::new(Some("b".to_string()), Some("k/".to_string())))
    );
}

#[test]
fn stream_updates_the_shared_results() {
    let r = RunFlutter::new();
    let mut state = AppState::new();
    state.add_results_error("kept".to_string());
    let lines: Vec<String> = [
        "00:01 +0: Setup",
        "00:02 +0 -0: Feature - Case A",
        "00:05 +1 -0: Feature - Case A",
        "00:06 +1 -0: Feature - Case B",
        "Waiting for DBus method call one.playmaster.E2E.Continue(pin) ...",
        "00:09 +1 -1: Feature - Case B",
    ]
    .iter()
    .map(|s| s.to_string())
    .collect();
    let report = r.process_lines(&lines, &mut state, &config(true), &vars(), &features(), 100, 160, true);
    assert_eq!(
        report.events,
        vec![
            TestEvent::Started { name: "Feature - Case A".to_string() },
            TestEvent::Passed { name: "Feature - Case A".to_string() },
            TestEvent::Started { name: "Feature - Case B".to_string() },
            TestEvent::Failed { name: "Feature - Case B".to_string(), output: String::new() },
        ]
    );
    assert_eq!(
        report.inputs,
        vec![InputPlan::Prompt { message: "User input requested for pin:".to_string(), timeout_secs: 30 }]
    );
    assert_eq!(report.result, Err("Some tests failed".to_string()));
    assert_eq!((state.results.passed, state.results.failed, state.results.total), (1, 1, 2));
    assert_eq!((state.results.start_time, state.results.end_time), (100, 160));
    assert_eq!(state.results.full_log, lines.join("\n") + "\n");
    assert_eq!(state.results.error, vec!["kept"]);
}

#[test]
fn bad_exit_without_failed_tests_is_an_error() {
    let r = RunFlutter::new();
    let lines = vec!["00:01 +0 -0: A".to_string(), "00:02 +1 -0: (tearDownAll)".to_string()];
    let mut state = AppState::new();
    let bad = r.process_lines(&lines, &mut state, &config(false), &vars(), &vec![], 0, 0, false);
    assert_eq!(bad.result, Err("Error during tests".to_string()));
    assert_eq!((state.results.passed, state.results.failed, state.results.total), (1, 0, 1));
    let mut state = AppState::new();
    let good = r.process_lines(&lines, &mut state, &config(false), &vars(), &vec![], 0, 0, true);
    assert_eq!(good.result, Ok(()));
    assert_eq!((state.results.passed, state.results.failed, state.results.total), (1, 0, 1));
    let mut state = AppState::new();
    let empty = r.process_lines(&vec![], &mut state, &config(false), &vars(), &vec![], 0, 0, true);
    assert_eq!(empty.result, Ok(()));
    assert_eq!((state.results.passed, state.results.failed, state.results.total), (0, 0, 0));
}

#[test]
fn counts_of_earlier_streams_are_kept() {
    let r = RunFlutter::new();
    let mut state = AppState::new();
    state.set_results_counts(5, 2);
    state.set_results_total(7);
    let lines: Vec<String> = [
        "00:01 +0 -0: A",
        "00:02 +1 -0: B",
        "00:03 +1 -1: C",
        "00:04 +2 -1: (tearDownAll)",
    ]
    .iter()
    .map(|s| s.to_string())
    .collect();
    let report = r.process_lines(&lines, &mut state, &config(false), &vars(), &vec![], 0, 9, true);
    assert_eq!(report.result, Err("Some tests failed".to_string()));
    assert_eq!((state.results.passed, state.results.failed, state.results.total), (7, 3, 3));
    let again = r.process_lines(&vec![], &mut state, &config(false), &vars(), &vec![], 0, 9, true);
    assert_eq!(again.result, Ok(()));
    assert_eq!((state.results.passed, state.results.failed, state.results.total), (7, 3, 0));
}

#[test]
fn a_line_adds_what_it_ended_to_the_shared_counts() {
    let r = RunFlutter::new();
    let mut parser = OutputParser::new();
    let mut state = AppState::new();
    state.set_results_counts(10, 20);
    let c = config(false);
    let v = vars();
    let f = features();
    r.process_line(&mut parser, &mut state, &c, &v, &f, "00:01 +0 -0: A", 0);
    assert_eq!((state.results.passed, state.results.failed), (10, 20));
    r.process_line(&mut parser, &mut state, &c, &v, &f, "00:02 +1 -0: B", 0);
    assert_eq!((state.results.passed, state.results.failed), (11, 20));
    r.process_line(&mut parser, &mut state, &c, &v, &f, "some output", 0);
    assert_eq!((state.results.passed, state.results.failed), (11, 20));
    r.process_line(&mut parser, &mut state, &c, &v, &f, "00:03 +2 -1: C", 0);
    assert_eq!((state.results.passed, state.results.failed), (12, 21));
    assert_eq!(r.finish_lines(&parser, &mut state, 1, 2, true), Err("Some tests failed".to_string()));
    assert_eq!((state.results.passed, state.results.failed, state.results.total), (12, 21, 3));
}

#[test]
fn inputs_are_planned_in_the_order_of_the_requests() {
    let r = RunFlutter::new();
    let mut state = AppState::new();
    let lines: Vec<String> = [
        "Waiting for DBus method call one.playmaster.E2E.Continue(early) ...",
        "00:01 +0 -0: Login - with code",
        "flutter: Waiting for DBus method call one.playmaster.E2E.Continue(pin) ...",
        "plain output",
        "Waiting for DBus method call one.playmaster.E2E.Continue(mfa) ...",
        "00:02 +1 -0: (tearDownAll)",
        "Waiting for DBus method call one.playmaster.E2E.Continue(late) ...",
    ]
    .iter()
    .map(|s| s.to_string())
    .collect();
    let report = r.process_lines(&lines, &mut state, &config(true), &vars(), &features(), 77, 99, true);
    assert_eq!(report.inputs.len(), 2);
    assert_eq!(
        report.inputs[0],
        InputPlan::Prompt { message: "User input requested for pin:".to_string(), timeout_secs: 30 }
    );
    match &report.inputs[1] {
        InputPlan::Email { after_timestamp, timeout_secs, poll_interval_secs, .. } => {
            assert_eq!((*after_timestamp, *timeout_secs, *poll_interval_secs), (77, 30, 3));
        }
        other => panic!("unexpected plan {other:?}"),
    }
    assert_eq!(report.result, Ok(()));
}

#[test]
fn line_by_line_reading_plans_the_input() {
    let r = RunFlutter::new();
    let mut parser = OutputParser::new();
    let mut state = AppState::new();
    let c = config(true);
    let v = vars();
    let f = features();
    let step = r.process_line(&mut parser, &mut state, &c, &v, &f, "00:01 +0 -0: Login - with code", 5);
    assert_eq!(step.input, None);
    let step = r.process_line(
        &mut parser,
        &mut state,
        &c,
        &v,
        &f,
        "flutter: Waiting for DBus method call one.playmaster.E2E.Continue(mfa) ...",
        5,
    );
    assert_eq!(step.events, vec![]);
    match step.input {
        Some(InputPlan::Email { after_timestamp, .. }) => assert_eq!(after_timestamp, 5),
        other => panic!("unexpected plan {other:?}"),
    }
    r.process_line(&mut parser, &mut state, &c, &v, &f, "00:03 +1 -0: (tearDownAll)", 5);
    assert_eq!(state.results.passed, 1);
    assert_eq!(r.finish_lines(&parser, &mut state, 5, 9, true), Ok(()));
    assert_eq!(state.results.total, 1);
}

#[test]
fn features_are_taken_from_their_files() {
    let found = vec![
        YamlResult { file_name: "a".to_string(), content: feature("A", vec![]) },
        YamlResult { file_name: "b".to_string(), content: feature("B", vec![test_case("t", "", vec![])]) },
        YamlResult { file_name: "c".to_string(), content: feature("C", vec![]) },
    ];
    let features = FeatureTest::all_from_curr_dir(found);
    let names: Vec<&str> = features.iter().map(|f| f.name.as_str()).collect();
    assert_eq!(names, vec!["A", "B", "C"]);
    assert!(features[0].is_empty());
    assert!(!features[1].is_empty());
}

struct Listing(Result<Vec<ArtifactInfo>, String>);

impl SourceProvider for Listing {
    fn list_artifacts(&self) -> Result<Vec<ArtifactInfo>, String> {
        self.0.clone()
    }

    fn download_artifact(&self, artifact_name: &str, dest_path: &str) -> Result<(), String> {
        Err(format!("cannot fetch {artifact_name} to {dest_path}"))
    }
}

fn artifacts(names: &[&str]) -> Vec<ArtifactInfo> {
    names.iter().map(|n| ArtifactInfo { name: n.to_string(), size: None, download_url: None }).collect()
}

fn chosen(names: &[&str], arch: &str, version: Option<&str>) -> Result<Option<String>, String> {
    let d = Downloader::new(Listing(Ok(artifacts(names))));
    d.get_versioned_artifact(arch, version.map(str::to_string)).map(|a| a.map(|a| a.name))
}

#[test]
fn newest_fitting_artifact_is_chosen() {
    let names = [
        "tool-1.2.3.x86_64.rpm",
        "tool-1.10.0.x86_64.rpm",
        "tool-1.9.9.x86_64.rpm",
        "tool-2.0.0.aarch64.rpm",
        "tool-1.10.0.x86_64.deb",
    ];
    assert_eq!(chosen(&names, "x86_64", None), Ok(Some("tool-1.10.0.x86_64.rpm".to_string())));
    assert_eq!(chosen(&names, "aarch64", None), Ok(Some("tool-2.0.0.aarch64.rpm".to_string())));
    assert_eq!(chosen(&names, "x86_64", Some("1.9.9")), Ok(Some("tool-1.9.9.x86_64.rpm".to_string())));
    assert_eq!(chosen(&names, "x86_64", Some("v1.2.3-beta")), Ok(Some("tool-1.2.3.x86_64.rpm".to_string())));
    assert_eq!(chosen(&names, "x86_64", Some("7.7.7")), Ok(None));
    assert_eq!(chosen(&names, "x86_64", Some("latest")), Ok(Some("tool-1.10.0.x86_64.rpm".to_string())));
    assert_eq!(chosen(&names, "riscv", None), Err("No matching riscv.rpm artifacts found".to_string()));
    assert_eq!(chosen(&[], "x86_64", None), Err("No matching x86_64.rpm artifacts found".to_string()));
}

#[test]
fn artifacts_without_version_rank_by_name() {
    assert_eq!(chosen(&["b.x86_64.rpm", "c.x86_64.rpm", "a.x86_64.rpm"], "x86_64", None), Ok(Some("c.x86_64.rpm".to_string())));
    assert_eq!(
        chosen(&["same-1.0.0.x86_64.rpm", "other-1.0.0.x86_64.rpm"], "x86_64", None),
        Ok(Some("other-1.0.0.x86_64.rpm".to_string()))
    );
}

#[test]
fn downloader_hands_on_what_the_source_says() {
    let d = Downloader::new(Listing(Err("offline".to_string())));
    assert_eq!(d.list(), Err("offline".to_string()));
    assert_eq!(d.get_versioned_artifact("x86_64", None), Err("offline".to_string()));
    assert_eq!(d.download("a", "/tmp/a"), Err("cannot fetch a to /tmp/a".to_string()));
}
