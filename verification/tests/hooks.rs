use playmaster::hooks::check_dependency::{Download, HookCheckDependency, Verdict};
use playmaster::hooks::connect::{ConnectFailure, ConnectStep, HookConnect};
use playmaster::hooks::custom::{HookCustom, RunMode};
use playmaster::hooks::iface::{Hook, HookContext, HookType};
use playmaster::hooks::results::HookResults;
use playmaster::hooks::setup_state::HookSetupState;
use playmaster::linux::utils::installer::common::BashrcEdit;
use playmaster::models::app_state::{AppState, CommandOutput, RemoteInfo, Results};
use playmaster::models::args::{AppArgs, AppMode, Command};
use playmaster::models::config::{
    Config, Dependency, HookConfig, InstallSource, InstallSpec, ProjectType, S3Config,
    WebhookConfig, WebhookType,
};
use playmaster::models::vars::Vars;
use playmaster::utils::command::CommandCheck;
use playmaster::utils::os::InstallType;

fn run_args(mode: Option<AppMode>, yes: bool, remote_addr: Option<&str>) -> AppArgs {
    AppArgs {
        command: Command::Run { mode, yes, setup: false, remote_addr: remote_addr.map(str::to_string) },
    }
}

fn hook(env: Option<Vec<(&str, &str)>>, is_async: bool) -> HookCustom {
    HookCustom::new(HookConfig {
        name: "seed".to_string(),
        hook_type: HookType::PrepareSystem,
        is_async,
        continue_on_error: true,
        condition: None,
        command: "echo seed".to_string(),
        env: env.map(|e| e.into_iter().map(|(k, v)| (k.to_string(), v.to_string())).collect()),
    })
}

fn output(stdout: &str, stderr: &str, status: i32) -> CommandOutput {
    CommandOutput { stdout: stdout.to_string(), stderr: stderr.to_string(), status }
}

#[test]
fn built_in_hooks_have_their_phase() {
    assert_eq!(HookCheckDependency::new().get_type(), HookType::VerifySystem);
    assert!(HookCheckDependency::new().continue_on_error());
    assert_eq!(HookConnect::new().get_type(), HookType::Connect);
    assert!(!HookConnect::new().continue_on_error());
    assert_eq!(HookSetupState::new().get_type(), HookType::Connect);
    assert!(!HookSetupState::new().continue_on_error());
    let custom = hook(None, false);
    assert_eq!(custom.get_type(), HookType::PrepareSystem);
    assert!(custom.continue_on_error());
}

#[test]
fn custom_hook_command_sets_the_environment() {
    let plain = hook(None, false).build_cmd("/tmp/a1.sh", ":1");
    assert_eq!(plain.file_path, "/tmp/a1.sh");
    assert_eq!(plain.command, "DISPLAY=':1' /tmp/a1.sh");
    let with_env = hook(Some(vec![("A", "1"), ("B", "two words")]), false).build_cmd("/tmp/a1.sh", ":0");
    assert_eq!(with_env.command, "A='1' B='two words' DISPLAY=':0' /tmp/a1.sh");
    let own_display = hook(Some(vec![("DISPLAY", ":7"), ("A", "1")]), false).build_cmd("/tmp/a1.sh", ":0");
    assert_eq!(own_display.command, "DISPLAY=':7' A='1' /tmp/a1.sh");
    let empty_env = hook(Some(vec![]), false).build_cmd("s", "d");
    assert_eq!(empty_env.command, "DISPLAY='d' s");
}

#[test]
fn custom_hook_mode_follows_target_and_declaration() {
    assert_eq!(hook(None, false).run_mode(false), RunMode::LocalSync);
    assert_eq!(hook(None, true).run_mode(false), RunMode::LocalAsync);
    assert_eq!(hook(None, false).run_mode(true), RunMode::RemoteSync);
    assert_eq!(hook(None, true).run_mode(true), RunMode::RemoteAsync);
}

#[test]
fn custom_hook_results_name_the_hook() {
    let h = hook(None, false);
    assert_eq!(h.run_local_sync(Some(0)), Ok(()));
    assert_eq!(
        h.run_local_sync(Some(2)),
        Err("Custom hook 'seed' failed with exit code Some(2)".to_string())
    );
    assert_eq!(
        h.run_local_sync(Some(-9)),
        Err("Custom hook 'seed' failed with exit code Some(-9)".to_string())
    );
    assert_eq!(h.run_local_sync(None), Err("Custom hook 'seed' failed with exit code None".to_string()));
    assert_eq!(h.run_remote_sync(0), Ok(()));
    assert_eq!(
        h.run_remote_sync(127),
        Err("Remote custom hook 'seed' failed with exit code 127".to_string())
    );
    assert_eq!(
        h.run_local_async("No such file"),
        "Failed to spawn async custom hook 'seed': No such file"
    );
    assert_eq!(h.log_file("stdout"), "seed.stdout.log");
    assert_eq!(h.run_remote_async("A='1' DISPLAY=':0' /tmp/x9.sh"), "/tmp/x9.sh");
    assert_eq!(h.run_remote_async("one  "), "one");
    assert_eq!(h.run_remote_async("   "), "");
    assert_eq!(h.run_remote_async(""), "");
}

#[test]
fn connect_hook_decides_by_the_command_line() {
    let h = HookConnect::new();
    assert_eq!(h.first_step(&run_args(Some(AppMode::Local), false, None)), ConnectStep::Skip);
    assert_eq!(h.first_step(&run_args(Some(AppMode::Remote), false, None)), ConnectStep::Establish);
    assert_eq!(h.first_step(&run_args(None, false, None)), ConnectStep::Ask);
    assert_eq!(h.first_step(&AppArgs { command: Command::Gen }), ConnectStep::Ask);
    assert_eq!(h.prompt_for_remote_conn(true), ConnectStep::Establish);
    assert_eq!(h.prompt_for_remote_conn(false), ConnectStep::Skip);
    assert_eq!(h.remote_address(&run_args(None, false, Some("a@b"))), Ok(Some("a@b".to_string())));
    assert_eq!(h.remote_address(&run_args(None, false, None)), Ok(None));
    assert_eq!(
        h.remote_address(&AppArgs { command: Command::Schema }),
        Err("Invalid command context for establishing SSH connection".to_string())
    );
}

#[test]
fn addresses_are_read_with_optional_port() {
    let h = HookConnect::new();
    let ok = |u: &str, host: &str, p: u16| Ok((u.to_string(), host.to_string(), p));
    assert_eq!(h.parse_addr("dev@192.168.1.100:2222"), ok("dev", "192.168.1.100", 2222));
    assert_eq!(h.parse_addr("dev@box"), ok("dev", "box", 22));
    assert_eq!(h.parse_addr("dev@box:70000"), ok("dev", "box", 22));
    assert_eq!(h.parse_addr("dev@box:65535"), ok("dev", "box", 65535));
    assert_eq!(h.parse_addr("dev@box:0022"), ok("dev", "box", 22));
    let bad = Err("Invalid address format. Expected user@host:port".to_string());
    assert_eq!(h.parse_addr("box"), bad);
    assert_eq!(h.parse_addr("@box"), bad);
    assert_eq!(h.parse_addr("dev@box:"), bad);
    assert_eq!(h.parse_addr("dev@box:22:23"), bad);
    assert_eq!(h.parse_addr(""), bad);
    assert_eq!(h.address_error("x"), "address parse error: x");
}

#[test]
fn connection_failures_are_told_apart() {
    let h = HookConnect::new();
    assert_eq!(
        h.establish_ssh_connection(&ConnectFailure::Unreachable { cause: "refused".to_string() }, "box", 22),
        "unable to connect to box:22 \u{2014} refused"
    );
    assert_eq!(
        h.establish_ssh_connection(&ConnectFailure::Session { cause: "no memory".to_string() }, "box", 22),
        "failed to create ssh session: no memory"
    );
    assert_eq!(
        h.establish_ssh_connection(&ConnectFailure::Handshake { cause: "kex".to_string() }, "box", 22),
        "SSH handshake failed: kex"
    );
    assert_eq!(
        h.establish_ssh_connection(&ConnectFailure::Auth { cause: "denied".to_string() }, "box", 22),
        "SSH auth failed: denied"
    );
    assert_eq!(
        h.establish_ssh_connection(&ConnectFailure::Unauthenticated, "box", 22),
        "SSH authentication unsuccessful"
    );
    let remote = h.connected("u".to_string(), "h".to_string(), 1, "p".to_string());
    assert_eq!(
        remote,
        RemoteInfo { user: "u".to_string(), host: "h".to_string(), port: 1, password: "p".to_string() }
    );
}

#[test]
fn context_stores_the_remote_host() {
    let args = run_args(None, false, None);
    let config = Config::new(ProjectType::Flutter);
    let vars = Vars::new();
    let mut ctx = HookContext { args: &args, config: &config, vars: &vars, state: AppState::new() };
    assert_eq!(ctx.read_state().remote, None);
    let remote = RemoteInfo { user: "u".to_string(), host: "h".to_string(), port: 22, password: "p".to_string() };
    ctx.initiate_remote(remote.clone());
    assert_eq!(ctx.read_state().remote, Some(remote));
}

#[test]
fn setup_state_prepares_the_working_directory() {
    let h = HookSetupState::new();
    let mut state = AppState::new();
    h.set_root_dir(&mut state, &h.remote_home(&output(" /home/dev \r\n", "", 0)));
    assert_eq!(state.root_dir, "/home/dev/playmaster");
    assert_eq!(
        h.create_bashrc_if_not_existing(&state),
        "mkdir -p /home/dev/playmaster && touch /home/dev/playmaster/.bashrc"
    );
    assert_eq!(
        h.add_display_to_bashrc(&state, ":0"),
        BashrcEdit::Local {
            file_path: "/home/dev/playmaster/.bashrc".to_string(),
            line: "export DISPLAY=:0".to_string(),
        }
    );
    state.initiate_remote(RemoteInfo {
        user: "u".to_string(),
        host: "h".to_string(),
        port: 22,
        password: "p".to_string(),
    });
    assert_eq!(
        h.add_display_to_bashrc(&state, ":1"),
        BashrcEdit::Remote {
            check: CommandCheck {
                command: "grep -Fxq \"export DISPLAY=:1\" /home/dev/playmaster/.bashrc || echo \"export DISPLAY=:1\" >> /home/dev/playmaster/.bashrc"
                    .to_string(),
                failure: "Failed to add line remotely".to_string(),
            },
        }
    );
}

fn dependency(install: bool) -> Dependency {
    Dependency {
        name: "flutter".to_string(),
        min_version: "3.29.2".to_string(),
        version_command: "flutter --version".to_string(),
        install: if install { Some(spec(None)) } else { None },
    }
}

fn spec(bin_path: Option<&str>) -> InstallSpec {
    InstallSpec {
        tool: "flutter".to_string(),
        version: Some("3.29.2".to_string()),
        bin_path: bin_path.map(str::to_string),
        setup: Some("flutter doctor".to_string()),
        source: None,
    }
}

#[test]
fn dependency_is_met_missing_or_hopeless() {
    let h = HookCheckDependency::new();
    let met = output(" 3.30.1\n", "", 0);
    let old = output("3.1.0", "", 0);
    let none = output("command not found", "", 127);
    assert_eq!(h.validate_dependency(&dependency(true), true, &met), Ok(Verdict::Met));
    assert_eq!(h.validate_dependency(&dependency(false), false, &met), Ok(Verdict::Met));
    assert_eq!(h.validate_dependency(&dependency(true), true, &old), Ok(Verdict::Install));
    assert_eq!(h.validate_dependency(&dependency(true), true, &none), Ok(Verdict::Install));
    let hopeless = Err("Some dependencies are not met".to_string());
    assert_eq!(h.validate_dependency(&dependency(true), false, &old), hopeless);
    assert_eq!(h.validate_dependency(&dependency(false), true, &old), hopeless);
    assert_eq!(h.validate_dependency(&dependency(false), true, &none), hopeless);
    let mut odd = dependency(true);
    odd.min_version = "what".to_string();
    assert!(h
        .validate_dependency(&odd, true, &met)
        .unwrap_err()
        .starts_with("Invalid min_version in config: what: "));
}

#[test]
fn installation_is_asked_for_unless_accepted() {
    let h = HookCheckDependency::new();
    assert_eq!(h.prompt_install(&run_args(None, true, None), &spec(None)), None);
    assert_eq!(
        h.prompt_install(&run_args(None, false, None), &spec(None)),
        Some("Do you want to install flutter now?".to_string())
    );
    assert_eq!(h.install_answer(true), Ok(()));
    assert_eq!(h.install_answer(false), Err("Dependency installation declined".to_string()));
    assert_eq!(
        h.install_tool(&spec(None), Some("/tmp/f.tar.xz".to_string())),
        (InstallType::File, "/tmp/f.tar.xz".to_string())
    );
    assert_eq!(h.install_tool(&spec(None), None), (InstallType::Package, "flutter".to_string()));
}

#[test]
fn tools_are_fetched_to_tmp() {
    let h = HookCheckDependency::new();
    let url = "https://host/releases/flutter_linux_{{version}}-stable.tar.xz";
    assert_eq!(
        h.download_url(url, false, Some("3.29.2".to_string())),
        Download::Local {
            url: "https://host/releases/flutter_linux_3.29.2-stable.tar.xz".to_string(),
            dest_path: "/tmp/flutter_linux_3.29.2-stable.tar.xz".to_string(),
        }
    );
    assert_eq!(
        h.download_url("https://host/a/b.zip", true, None),
        Download::Remote {
            command: "stdbuf -eL curl -L -o /tmp/b.zip 'https://host/a/b.zip'".to_string(),
            dest_path: "/tmp/b.zip".to_string(),
        }
    );
    assert_eq!(
        h.download_url("plain", false, None),
        Download::Local { url: "plain".to_string(), dest_path: "/tmp/plain".to_string() }
    );
    assert_eq!(
        h.download_url("dir/", false, None),
        Download::Local { url: "dir/".to_string(), dest_path: "/tmp/".to_string() }
    );
    let bitbucket = InstallSource::Bitbucket { repo: "org/tool/x".to_string(), token: "t".to_string() };
    assert_eq!(
        h.download_tool(&bitbucket, Some("1.0.0".to_string()), true),
        Ok(Download::Bitbucket {
            org: "org".to_string(),
            repo: "tool/x".to_string(),
            token: "t".to_string(),
            version: Some("1.0.0".to_string()),
        })
    );
    let bad = InstallSource::Bitbucket { repo: "tool".to_string(), token: "t".to_string() };
    assert_eq!(
        h.download_tool(&bad, None, false),
        Err("Invalid Bitbucket repo format, expected org/repo".to_string())
    );
    let from_url = InstallSource::Url { url: "http://h/x.zip".to_string() };
    assert_eq!(
        h.download_tool(&from_url, None, false),
        Ok(Download::Local { url: "http://h/x.zip".to_string(), dest_path: "/tmp/x.zip".to_string() })
    );
    assert_eq!(h.download_with_provider("tool-1.0.0.x86_64.rpm"), "/tmp/tool-1.0.0.x86_64.rpm");
}

#[test]
fn binaries_are_put_on_the_search_path() {
    let h = HookCheckDependency::new();
    let local = |line: &str| {
        Some(BashrcEdit::Local { file_path: "/root/pm/.bashrc".to_string(), line: line.to_string() })
    };
    assert_eq!(
        h.setup_bin_path(&spec(Some("flutter/bin")), false, "/root/pm"),
        local("export PATH=\"/root/pm/flutter/bin:\\\\$PATH\"")
    );
    assert_eq!(
        h.setup_bin_path(&spec(Some("/opt/bin")), false, "/root/pm"),
        local("export PATH=\"/opt/bin:\\\\$PATH\"")
    );
    assert_eq!(
        h.setup_bin_path(&spec(Some("~/tools~")), false, "/root/pm"),
        local("export PATH=\"/root/pm/tools/root/pm:\\\\$PATH\"")
    );
    assert_eq!(h.setup_bin_path(&spec(None), false, "/root/pm"), None);
    assert_eq!(h.run_setup_cmd(&spec(None)), Some("flutter doctor".to_string()));
    assert_eq!(h.setup_result(&output("", "", 0)), Ok(()));
    assert_eq!(
        h.setup_result(&output("", "no network", 4)),
        Err("Setup command failed with status 4: no network".to_string())
    );
}

fn results() -> Results {
    let mut r = Results::new();
    r.passed = 3;
    r.failed = 1;
    r.total = 4;
    r.start_time = 1431648000;
    r.end_time = 1431648060;
    r.full_log = "log".to_string();
    r.error = vec!["first".to_string(), "second".to_string()];
    r
}

fn webhook(template: &str, ignore_error: bool) -> HookResults {
    HookResults::new(WebhookConfig {
        webhook_type: WebhookType::Results,
        url: "http://hook".to_string(),
        message_template: template.to_string(),
        ignore_error,
        s3_config: None,
    })
}

#[test]
fn results_message_summarises_the_run() {
    let h = webhook("", false);
    assert_eq!(h.get_type(), HookType::Finished);
    assert!(h.continue_on_error());
    assert!(h.call_webhook());
    assert_eq!(
        h.get_message(&results(), "http://logs"),
        "Test Run Completed:\n\u{2705} Passed: 3\n\u{274c} Failed: 1\n\u{1f4cb} Total: 4\nStart Time: 2015-05-15 00:00:00 UTC\nEnd Time: 2015-05-15 00:01:00 UTC\nLogs: http://logs\nErrors: first\nsecond"
    );
    assert_eq!(
        h.get_message(&Results::new(), ""),
        "Test Run Completed:\n\u{2705} Passed: 0\n\u{274c} Failed: 0\n\u{1f4cb} Total: 0\nStart Time: 1970-01-01 00:00:00 UTC\nEnd Time: 1970-01-01 00:00:00 UTC\nLogs: \nErrors: "
    );
}

#[test]
fn results_message_fills_a_template() {
    let h = webhook(
        "{{status_icon}} {{ status }}: {{passed}}/{{total}} ({{failed}} failed) {{logs_url}} [{{errors}}] {{start_time}} {{error}}|{{full_log}}|{{nope}}",
        false,
    );
    assert_eq!(
        h.get_message(&results(), "u"),
        "\u{274c} Failed: 3/4 (1 failed) u [first\nsecond] 2015-05-15T00:00:00+00:00 |log|${{nope}}"
    );
    let mut clean = results();
    clean.failed = 0;
    clean.error = vec![];
    assert_eq!(webhook("{{status_icon}}{{status}}", false).get_message(&clean, ""), "\u{2705}Passed");
}

#[test]
fn webhook_without_address_is_not_called() {
    let mut h = webhook("", false);
    h.config.url = String::new();
    assert!(!h.call_webhook());
}

#[test]
fn webhook_errors_can_be_ignored() {
    assert_eq!(webhook("", false).send_message(true, "200 OK"), Ok(()));
    assert_eq!(
        webhook("", false).send_message(false, "500 Internal Server Error"),
        Err("Webhook API returned error status: 500 Internal Server Error".to_string())
    );
    assert_eq!(webhook("", true).send_message(false, "500"), Ok(()));
}

#[test]
fn logs_are_stored_under_the_start_time() {
    let h = webhook("", false);
    let s3 = S3Config { key_prefix: "runs/".to_string(), bucket: "my-bucket".to_string() };
    let upload = h.upload_logs_to_s3(&results(), &s3).unwrap();
    assert_eq!(upload.bucket, "my-bucket");
    assert_eq!(upload.key, "runs/results_2015-05-15_00:00:00_UTC.txt");
    assert_eq!(upload.url, "https://my-bucket.s3.amazonaws.com/runs/results_2015-05-15_00:00:00_UTC.txt");
    let mut empty = results();
    empty.full_log = String::new();
    assert_eq!(h.upload_logs_to_s3(&empty, &s3), None);
}
