use playmaster::code_run::run::{CodeRun, Cursor, RunAction, RunEvent};
use playmaster::hooks::iface::{Hook, HookListExt, HookType};
use playmaster::hooks::AnyHook;
use playmaster::models::args::{AppArgs, Command};
use playmaster::models::config::{Config, HookConfig, ProjectType, WebhookConfig, WebhookType};
use playmaster::models::vars::Vars;

fn args(setup: bool) -> AppArgs {
    AppArgs { command: Command::Run { mode: None, yes: false, setup, remote_addr: None } }
}

fn custom(name: &str, hook_type: HookType, tolerant: bool) -> HookConfig {
    HookConfig {
        name: name.to_string(),
        hook_type,
        is_async: false,
        continue_on_error: tolerant,
        condition: None,
        command: format!("echo {name}"),
        env: None,
    }
}

fn webhook() -> WebhookConfig {
    WebhookConfig {
        webhook_type: WebhookType::Results,
        url: "http://localhost/hook".to_string(),
        message_template: String::new(),
        ignore_error: false,
        s3_config: None,
    }
}

fn config(hooks: Vec<HookConfig>, webhooks: usize) -> Config {
    let mut c = Config::new(ProjectType::Flutter);
    c.hooks = hooks;
    for _ in 0..webhooks {
        c.webhooks.push(webhook());
    }
    c
}

/// Drives a run to its end. `fails` are the hooks that fail; the tests
/// pass unless `tests_fail`.
fn drive(run: &mut CodeRun, fails: &[usize], tests_fail: bool) -> (Vec<RunAction>, Result<(), String>) {
    let mut actions = Vec::new();
    let mut action = run.execute(RunEvent::Loaded { result: Ok(()) }, true);
    loop {
        let event = match &action {
            RunAction::RunHook { index } => RunEvent::HookFinished {
                result: if fails.contains(index) { Err(format!("hook {index} broke")) } else { Ok(()) },
            },
            RunAction::RunTests => RunEvent::TestsFinished {
                result: if tests_fail { Err("Some tests failed".to_string()) } else { Ok(()) },
            },
            RunAction::TerminateAll => RunEvent::Terminated,
            RunAction::LoadFeatures => RunEvent::Loaded { result: Ok(()) },
            RunAction::Finish { result } => {
                let result = result.clone();
                actions.push(action);
                return (actions, result);
            }
        };
        actions.push(action);
        action = run.execute(event, true);
    }
}

#[test]
fn pre_and_post_phases_are_fixed() {
    assert_eq!(
        HookType::pre_hooks(),
        vec![HookType::Connect, HookType::VerifySystem, HookType::PrepareSystem]
    );
    assert_eq!(HookType::post_hooks(), vec![HookType::Finished]);
    assert_eq!(HookType::PrepareSystem.name(), "PrepareSystem");
}

#[test]
fn hooks_are_loaded_in_declared_order() {
    let c = config(
        vec![custom("a", HookType::PrepareSystem, false), custom("b", HookType::Connect, true)],
        1,
    );
    let hooks = CodeRun::load_hooks(&c);
    assert_eq!(hooks.len(), 6);
    assert!(matches!(hooks[0], AnyHook::CheckDependency(_)));
    assert!(matches!(hooks[1], AnyHook::Connect(_)));
    assert!(matches!(hooks[2], AnyHook::SetupState(_)));
    assert_eq!(hooks[3].get_type(), HookType::PrepareSystem);
    assert_eq!(hooks[4].get_type(), HookType::Connect);
    assert!(hooks[4].continue_on_error());
    assert_eq!(hooks[5].get_type(), HookType::Finished);
    assert!(hooks[5].continue_on_error());
    assert_eq!(hooks.hooks_of_type(HookType::Connect), vec![1, 2, 4]);
    assert_eq!(hooks.hooks_of_type(HookType::VerifySystem), vec![0]);
    assert_eq!(hooks.hooks_of_type(HookType::PrepareSystem), vec![3]);
    assert_eq!(hooks.hooks_of_type(HookType::Finished), vec![5]);
    match &hooks[3] {
        AnyHook::Custom(h) => assert_eq!(h.config.command, "echo a"),
        _ => panic!("not a custom hook"),
    }
}

#[test]
fn hooks_run_in_phase_order() {
    let c = config(
        vec![
            custom("finish", HookType::Finished, false),
            custom("prepare", HookType::PrepareSystem, false),
            custom("verify", HookType::VerifySystem, false),
            custom("connect", HookType::Connect, false),
        ],
        1,
    );
    let mut run = CodeRun::new(args(false), c, Vars::new());
    assert_eq!(run.pending(), RunAction::LoadFeatures);
    let (actions, result) = drive(&mut run, &[], false);
    assert_eq!(result, Ok(()));
    assert_eq!(run.executed(), &vec![1, 2, 6, 0, 5, 4, 3, 7]);
    assert_eq!(
        actions,
        vec![
            RunAction::RunHook { index: 1 },
            RunAction::RunHook { index: 2 },
            RunAction::RunHook { index: 6 },
            RunAction::RunHook { index: 0 },
            RunAction::RunHook { index: 5 },
            RunAction::RunHook { index: 4 },
            RunAction::RunTests,
            RunAction::TerminateAll,
            RunAction::RunHook { index: 3 },
            RunAction::RunHook { index: 7 },
            RunAction::TerminateAll,
            RunAction::Finish { result: Ok(()) },
        ]
    );
    assert_eq!(run.cursor(), Cursor::Done);
    assert!(!run.has_error());
}

#[test]
fn failure_skips_intolerant_hooks_but_not_tolerant_reporting() {
    let c = config(
        vec![
            custom("a", HookType::VerifySystem, false),
            custom("b", HookType::VerifySystem, false),
            custom("c", HookType::VerifySystem, true),
            custom("d", HookType::PrepareSystem, false),
            custom("e", HookType::PrepareSystem, true),
            custom("f", HookType::Finished, false),
            custom("g", HookType::Finished, true),
        ],
        1,
    );
    // Hook 3 is `a`.
    let mut run = CodeRun::new(args(false), c, Vars::new());
    let (actions, result) = drive(&mut run, &[3], false);
    assert_eq!(result, Err("Pre-hook failed".to_string()));
    assert_eq!(run.executed(), &vec![1, 2, 0, 3, 5, 7, 9, 10]);
    assert!(!actions.contains(&RunAction::RunTests));
    assert!(run.has_error());
    assert_eq!(
        run.state().results.error,
        vec!["Pre-hook error VerifySystem failed: hook 3 broke".to_string()]
    );
}

#[test]
fn failing_reporting_hook_is_recorded() {
    let c = config(vec![custom("f", HookType::Finished, false)], 1);
    let mut run = CodeRun::new(args(false), c, Vars::new());
    let (_, result) = drive(&mut run, &[3], true);
    assert_eq!(result, Err("Some tests failed".to_string()));
    assert_eq!(run.executed(), &vec![1, 2, 0, 3, 4]);
    assert_eq!(
        run.state().results.error,
        vec!["Post-hook Finished failed: hook 3 broke".to_string()]
    );
}

#[test]
fn cancelled_run_leaves_later_phases_out() {
    let c = config(
        vec![custom("v", HookType::VerifySystem, true), custom("p", HookType::PrepareSystem, true)],
        1,
    );
    let mut run = CodeRun::new(args(false), c, Vars::new());
    let mut action = run.execute(RunEvent::Loaded { result: Ok(()) }, true);
    assert_eq!(action, RunAction::RunHook { index: 1 });
    // The first hook fails after the run was told to stop.
    action = run.execute(RunEvent::HookFinished { result: Err("cut".to_string()) }, false);
    assert_eq!(action, RunAction::TerminateAll);
    action = run.execute(RunEvent::Terminated, false);
    assert_eq!(action, RunAction::RunHook { index: 5 });
    action = run.execute(RunEvent::HookFinished { result: Ok(()) }, false);
    assert_eq!(action, RunAction::TerminateAll);
    action = run.execute(RunEvent::Terminated, false);
    assert_eq!(action, RunAction::Finish { result: Err("Pre-hook failed".to_string()) });
    assert_eq!(run.executed(), &vec![1, 5]);
}

#[test]
fn cancelled_run_without_failure_skips_only_the_tests() {
    let c = config(vec![], 0);
    let mut run = CodeRun::new(args(false), c, Vars::new());
    run.execute(RunEvent::Loaded { result: Ok(()) }, true);
    run.execute(RunEvent::HookFinished { result: Ok(()) }, false);
    run.execute(RunEvent::HookFinished { result: Ok(()) }, false);
    let action = run.execute(RunEvent::HookFinished { result: Ok(()) }, false);
    assert_eq!(action, RunAction::TerminateAll);
    assert_eq!(run.executed(), &vec![1, 2, 0]);
}

#[test]
fn setup_only_run_skips_the_tests() {
    let mut run = CodeRun::new(args(true), config(vec![], 0), Vars::new());
    let (actions, result) = drive(&mut run, &[], true);
    assert_eq!(result, Ok(()));
    assert!(!actions.contains(&RunAction::RunTests));
}

#[test]
fn unloadable_features_still_report() {
    let c = config(
        vec![custom("f", HookType::Finished, false), custom("g", HookType::Finished, true)],
        0,
    );
    let mut run = CodeRun::new(args(false), c, Vars::new());
    let mut action = run.execute(RunEvent::Loaded { result: Err("no directory".to_string()) }, true);
    assert_eq!(action, RunAction::RunHook { index: 4 });
    action = run.execute(RunEvent::HookFinished { result: Err("down".to_string()) }, true);
    assert_eq!(action, RunAction::Finish { result: Err("Failed to load feature tests".to_string()) });
    assert_eq!(
        run.state().results.error,
        vec![
            "Failed to load feature tests: no directory".to_string(),
            "Post-hook Finished failed: down".to_string(),
        ]
    );
}

#[test]
fn unexpected_event_changes_nothing() {
    let mut run = CodeRun::new(args(false), config(vec![], 0), Vars::new());
    assert_eq!(run.execute(RunEvent::Terminated, true), RunAction::LoadFeatures);
    assert_eq!(run.execute(RunEvent::Loaded { result: Ok(()) }, true), RunAction::RunHook { index: 1 });
    assert_eq!(run.execute(RunEvent::Loaded { result: Ok(()) }, true), RunAction::RunHook { index: 1 });
    assert_eq!(
        run.execute(RunEvent::TestsFinished { result: Ok(()) }, true),
        RunAction::RunHook { index: 1 }
    );
    assert_eq!(run.executed(), &vec![1]);
    assert_eq!(run.run_hooks_of_type(HookType::Connect, 0, false), 1);
    assert_eq!(run.run_hooks_of_type(HookType::Connect, 2, true), 3);
    assert_eq!(run.run_hooks_of_type(HookType::VerifySystem, 0, true), 0);
}

#[test]
fn a_step_changes_the_shared_state_in_place() {
    let c = config(vec![custom("a", HookType::Finished, true)], 0);
    let mut run = CodeRun::new(args(true), c.clone(), Vars::new());
    {
        let (a, cfg, vars, hooks, state) = run.parts();
        assert_eq!(a, &args(true));
        assert_eq!(cfg, &c);
        assert_eq!(vars, &Vars::new());
        assert_eq!(hooks.len(), 4);
        state.set_results_counts(3, 1);
        state.set_root_dir("/home/u".to_string());
        state.add_results_error("noted".to_string());
    }
    assert_eq!((run.state().results.passed, run.state().results.failed), (3, 1));
    assert_eq!(run.state().get_root_dir(), "/home/u");
    assert_eq!(run.state().results.error, vec!["noted".to_string()]);
    assert_eq!(run.hooks().len(), 4);

    let mut other = run.state().clone();
    other.set_results_total(4);
    run.set_state(other);
    assert_eq!(run.state().results.total, 4);
    assert_eq!(run.state().results.passed, 3);
}
