use playmaster::models::app_state::{AppState, RemoteInfo};
use playmaster::models::remote_session::{
    ExecCapture, PollAction, ReadOutcome, RemoteLineIterator,
};

fn remote() -> RemoteInfo {
    RemoteInfo {
        user: "dev".to_string(),
        host: "10.0.0.5".to_string(),
        port: 22,
        password: "pw".to_string(),
    }
}

#[test]
fn remote_stream_splits_lines_and_flushes_the_rest() {
    let mut lines = RemoteLineIterator::new();
    assert_eq!(lines.feed(b"abc\ndef\ngh"), vec!["abc".to_string(), "def".to_string()]);
    assert_eq!(lines.buffer, b"gh".to_vec());
    assert_eq!(lines.finish(), Some("gh".to_string()));
    assert_eq!(lines.buffer, Vec::<u8>::new());
    assert_eq!(lines.finish(), None);
}

#[test]
fn lines_may_arrive_in_pieces() {
    let mut lines = RemoteLineIterator::new();
    assert_eq!(lines.feed(b"ab"), Vec::<String>::new());
    assert_eq!(lines.feed(b"c\nd"), vec!["abc".to_string()]);
    assert_eq!(lines.feed(b""), Vec::<String>::new());
    assert_eq!(lines.feed(b"ef\n\n"), vec!["def".to_string(), String::new()]);
    assert_eq!(lines.finish(), None);
}

#[test]
fn carriage_returns_stay_in_the_line() {
    let mut lines = RemoteLineIterator::new();
    assert_eq!(lines.feed(b"a\r\nb"), vec!["a\r".to_string()]);
}

#[test]
fn lines_that_are_not_utf8_are_dropped() {
    let mut lines = RemoteLineIterator::new();
    assert_eq!(lines.feed(&[b'o', b'k', b'\n', 0xff, 0xfe, b'\n', b'x', b'\n']), vec!["ok", "x"]);
    lines.feed(&[0xc3]);
    assert_eq!(lines.finish(), None);
    assert_eq!(lines.buffer.len(), 0);
    let mut split = RemoteLineIterator::new();
    assert_eq!(split.feed(&[0xc3]), Vec::<String>::new());
    assert_eq!(split.feed(&[0xa9, b'\n']), vec!["\u{e9}".to_string()]);
}

#[test]
fn reader_waits_only_when_nothing_is_there() {
    let data = ReadOutcome::Data { bytes: vec![1] };
    assert_eq!(RemoteLineIterator::after_read(&data, false), PollAction::Continue);
    assert_eq!(RemoteLineIterator::after_read(&data, true), PollAction::Stop);
    assert_eq!(
        RemoteLineIterator::after_read(&ReadOutcome::WouldBlock, false),
        PollAction::Sleep { millis: 30 }
    );
    assert_eq!(RemoteLineIterator::after_read(&ReadOutcome::WouldBlock, true), PollAction::Stop);
    assert_eq!(
        RemoteLineIterator::after_read(&ReadOutcome::Failed { error: "x".to_string() }, false),
        PollAction::Stop
    );
    assert_eq!(RemoteLineIterator::after_read(&ReadOutcome::Nothing, false), PollAction::Continue);
}

#[test]
fn commands_are_wrapped_for_the_remote_shell() {
    let r = remote();
    assert_eq!(r.exec_command("echo hi"), "bash -c 'echo hi'");
    assert_eq!(r.exec_command("echo 'a b' \\$HOME"), "bash -c 'echo '\\''a b'\\'' $HOME'");
    assert_eq!(r.stream_command("cd /x && run"), "sh -c 'cd /x && run'");
    assert_eq!(r.stream_command("it's"), "sh -c 'it'\\''s'");
}

#[test]
fn pty_follows_the_terminal_or_falls_back() {
    assert_eq!(RemoteInfo::pty_size(Some((200, 50))), (200, 50));
    assert_eq!(RemoteInfo::pty_size(None), (120, 30));
}

#[test]
fn capture_collects_both_streams() {
    let mut capture = ExecCapture::new();
    let step = capture.on_poll(
        ReadOutcome::Data { bytes: b"out".to_vec() },
        ReadOutcome::Data { bytes: b"err".to_vec() },
        false,
    );
    assert_eq!(step.action, PollAction::Continue);
    assert_eq!(step.echo_stdout, Some("[Remote Log]: out".to_string()));
    assert_eq!(step.echo_stderr, Some("[Remote Error Log]: err".to_string()));
    let step = capture.on_poll(ReadOutcome::WouldBlock, ReadOutcome::Nothing, false);
    assert_eq!(step.action, PollAction::Sleep { millis: 50 });
    assert_eq!(step.echo_stdout, None);
    let step = capture.on_poll(ReadOutcome::Data { bytes: b"exited".to_vec() }, ReadOutcome::WouldBlock, true);
    assert_eq!(step.action, PollAction::Stop);
    assert_eq!(step.echo_stdout, None);
    let output = capture.finish(3);
    assert_eq!(output.stdout, "outexited");
    assert_eq!(output.stderr, "err");
    assert_eq!(output.status, 3);
}

#[test]
fn capture_replaces_what_is_not_utf8() {
    let mut capture = ExecCapture::new();
    capture.on_poll(ReadOutcome::Data { bytes: vec![b'a', 0xff, b'b'] }, ReadOutcome::Nothing, false);
    assert_eq!(capture.stdout, "a\u{fffd}b");
}

#[test]
fn capture_fails_on_a_failed_read() {
    let mut capture = ExecCapture::new();
    let step = capture.on_poll(
        ReadOutcome::Failed { error: "broken pipe".to_string() },
        ReadOutcome::Data { bytes: b"late".to_vec() },
        false,
    );
    assert_eq!(step.action, PollAction::Fail { error: "broken pipe".to_string() });
    assert_eq!(capture.stderr, "");
    let step = capture.on_poll(
        ReadOutcome::Data { bytes: b"x".to_vec() },
        ReadOutcome::Failed { error: "gone".to_string() },
        true,
    );
    assert_eq!(step.action, PollAction::Fail { error: "gone".to_string() });
    assert_eq!(capture.stdout, "x");
}

#[test]
fn state_accessors_change_what_they_name() {
    let mut state = AppState::new();
    assert!(!state.is_remote());
    assert_eq!(state.get_remote_info(), None);
    state.initiate_remote(remote());
    assert!(state.is_remote());
    assert_eq!(state.get_remote_info(), Some(remote()));
    state.set_root_dir("/home/dev/playmaster".to_string());
    assert_eq!(state.get_root_dir(), "/home/dev/playmaster");
    state.note_ostree(true);
    state.note_ostree(false);
    assert!(state.os_info.is_ostree);
    state.add_results_error("first".to_string());
    state.add_results_error("second".to_string());
    assert_eq!(state.results.error, vec!["first", "second"]);
    assert!(!state.results.is_clean());
    state.set_results_counts(4, 1);
    state.set_results_total(5);
    state.set_results_time(10, 20);
    state.set_results_full_log("log".to_string());
    assert_eq!(
        (state.results.passed, state.results.failed, state.results.total),
        (4, 1, 5)
    );
    assert_eq!((state.results.start_time, state.results.end_time), (10, 20));
    assert_eq!(state.results.full_log, "log");
    assert!(state.is_remote());
}
