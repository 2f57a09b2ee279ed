use playmaster::code_run::output::{parse_marker, OutputParser, ProgressMarker, TestEvent};
use playmaster::text::to_chars;

fn feed(parser: &mut OutputParser, lines: &[&str]) -> Vec<TestEvent> {
    let mut events = Vec::new();
    for line in lines {
        let outcome = parser.process_line(line);
        events.extend(outcome.events);
    }
    events
}

fn started(name: &str) -> TestEvent {
    TestEvent::Started { name: name.to_string() }
}

fn passed(name: &str) -> TestEvent {
    TestEvent::Passed { name: name.to_string() }
}

fn failed(name: &str, output: &str) -> TestEvent {
    TestEvent::Failed { name: name.to_string(), output: output.to_string() }
}

#[test]
fn sample_stream_reports_each_test_once() {
    let mut parser = OutputParser::new();
    let events = feed(
        &mut parser,
        &[
            "00:01 +0: Setup",
            "00:02 +0 -0: Feature - Case A",
            "00:05 +1 -0: Feature - Case A",
            "00:06 +1 -0: Feature - Case B",
            "00:09 +1 -1: Feature - Case B",
        ],
    );
    assert_eq!(
        events,
        vec![
            started("Feature - Case A"),
            passed("Feature - Case A"),
            started("Feature - Case B"),
            failed("Feature - Case B", ""),
        ]
    );
    let tally = parser.tally();
    assert_eq!(tally.passed, 1);
    assert_eq!(tally.failed, 1);
    assert_eq!(tally.total, 2);
}

#[test]
fn replayed_progress_line_gives_one_verdict() {
    let mut parser = OutputParser::new();
    let first = feed(&mut parser, &["00:02 +0 -0: A", "00:05 +1 -0: B"]);
    assert_eq!(first, vec![started("A"), passed("A"), started("B")]);
    let again = feed(&mut parser, &["00:05 +1 -0: B"]);
    assert_eq!(again, vec![TestEvent::ProgressNoise]);
    let later = feed(&mut parser, &["some log", "00:07 +1 -0: B", "00:02 +0 -0: A"]);
    assert_eq!(later, vec![TestEvent::ProgressNoise, TestEvent::ProgressNoise]);
    assert_eq!(parser.passed(), 1);
    assert_eq!(parser.failed(), 0);
}

#[test]
fn replay_does_not_count_twice_when_counter_jumps() {
    let mut parser = OutputParser::new();
    feed(&mut parser, &["00:01 +0 -0: A"]);
    let first = feed(&mut parser, &["00:02 +5 -0: B"]);
    assert_eq!(first, vec![passed("A"), started("B")]);
    let second = feed(&mut parser, &["00:02 +5 -0: B"]);
    assert_eq!(second, vec![TestEvent::ProgressNoise]);
    assert_eq!(parser.passed(), 1);
}

#[test]
fn counters_never_decrease() {
    let mut parser = OutputParser::new();
    let lines = [
        "00:01 +0 -0: A",
        "00:02 +1 -0: B",
        "00:03 +0 -0: C",
        "noise",
        "00:04 +1 -1: D",
        "00:05 +0 -0: E",
        "00:06 +9 -9: F",
    ];
    let mut last = (0u64, 0u64);
    for line in lines {
        parser.process_line(line);
        let now = (parser.passed(), parser.failed());
        assert!(now.0 >= last.0);
        assert!(now.1 >= last.1);
        last = now;
    }
    let tally = parser.tally();
    assert_eq!(tally.total, tally.passed + tally.failed);
    assert_eq!(tally.passed, 2);
    assert_eq!(tally.failed, 2);
}

#[test]
fn failure_carries_output_of_the_test() {
    let mut parser = OutputParser::new();
    let events = feed(
        &mut parser,
        &[
            "00:01 +0 -0: Login works",
            "flutter: expected one widget",
            "   found none   ",
            "",
            "00:04 +0 -1: (tearDownAll)",
        ],
    );
    assert_eq!(
        events,
        vec![
            started("Login works"),
            failed("Login works", "expected one widget\nfound none\n"),
        ]
    );
    assert_eq!(parser.current_test(), None);
    assert_eq!(parser.failed(), 1);
}

#[test]
fn output_is_reset_when_next_test_starts() {
    let mut parser = OutputParser::new();
    let events = feed(
        &mut parser,
        &["00:01 +0 -0: A", "log of a", "00:02 +1 -0: B", "log of b", "00:03 +1 -1: C"],
    );
    assert_eq!(
        events,
        vec![started("A"), passed("A"), started("B"), failed("B", "log of b\n"), started("C")]
    );
}

#[test]
fn pseudo_tests_are_not_started() {
    let mut parser = OutputParser::new();
    let events = feed(&mut parser, &["00:00 +0 -0: (setUpAll)", "00:01 +0 -0: A"]);
    assert_eq!(events, vec![TestEvent::ProgressNoise, started("A")]);
}

#[test]
fn banners_and_empty_lines_are_skipped_but_logged() {
    let mut parser = OutputParser::new();
    feed(&mut parser, &["00:01 +0 -0: A"]);
    let events = feed(
        &mut parser,
        &["", "   ", "00:09 +1 -1: Some tests failed.", "All tests passed!", "VMServiceFlutterDriver: x"],
    );
    assert_eq!(events, vec![]);
    assert_eq!(parser.current_output(), "");
    assert_eq!(
        parser.full_log(),
        "00:01 +0 -0: A\n\n\n00:09 +1 -1: Some tests failed.\nAll tests passed!\nVMServiceFlutterDriver: x\n"
    );
    assert_eq!(parser.passed(), 0);
    assert_eq!(parser.failed(), 0);
}

#[test]
fn lines_without_a_running_test_are_not_collected() {
    let mut parser = OutputParser::new();
    let events = feed(&mut parser, &["hello", "flutter: world"]);
    assert_eq!(events, vec![]);
    assert_eq!(parser.current_output(), "");
    assert_eq!(parser.full_log(), "hello\nflutter: world\n");
}

#[test]
fn continuation_request_names_the_input() {
    let mut parser = OutputParser::new();
    parser.process_line("00:01 +0 -0: Login - with code");
    let outcome =
        parser.process_line("flutter: Waiting for DBus method call one.playmaster.E2E.Continue(mfa) ...");
    assert_eq!(outcome.events, vec![]);
    assert_eq!(outcome.request, Some("mfa".to_string()));
    assert_eq!(parser.current_output(), "");
}

#[test]
fn continuation_request_without_running_test_is_an_ordinary_line() {
    let mut parser = OutputParser::new();
    let outcome =
        parser.process_line("Waiting for DBus method call one.playmaster.E2E.Continue(mfa) ...");
    assert_eq!(outcome.request, None);
    assert_eq!(outcome.events, vec![]);
}

fn marker(line: &str) -> Option<ProgressMarker> {
    parse_marker(&to_chars(line))
}

#[test]
fn marker_needs_two_counters() {
    assert_eq!(
        marker("00:02 +3 -1: Feature - Case"),
        Some(ProgressMarker { passed: 3, failed: 1, name: "Feature - Case".to_string() })
    );
    assert_eq!(marker("00:01 +0: Setup"), None);
    assert_eq!(marker("00:01 +0 -0 -0: Setup"), None);
    assert_eq!(marker("00:01 +x -0: Setup"), None);
    assert_eq!(marker("00:01 -0 +0: Setup"), None);
    assert_eq!(marker("00:01 +0 -0 Setup"), None);
    assert_eq!(marker("nospace"), None);
    assert_eq!(marker("00:01  +0 -0: two spaces"), None);
}

#[test]
fn marker_counters_are_absolute_and_bounded() {
    assert_eq!(
        marker("1 +7 +2: a: b"),
        Some(ProgressMarker { passed: 7, failed: 2, name: "a: b".to_string() })
    );
    assert_eq!(
        marker("1 +4294967295   -0:x"),
        Some(ProgressMarker { passed: 4294967295, failed: 0, name: "x".to_string() })
    );
    assert_eq!(marker("1 +4294967296 -0: x"), None);
    assert_eq!(marker("1 +00012 -003: x"), Some(ProgressMarker { passed: 12, failed: 3, name: "x".to_string() }));
    assert_eq!(marker("1 + -0: x"), None);
}

#[test]
fn error_tagged_line_is_logged_and_skipped() {
    let mut parser = OutputParser::new();
    let events = feed(&mut parser, &["00:01 +0 -0: A", "first"]);
    assert_eq!(events, vec![started("A")]);
    let outcome = parser.process_line("00:02 +0 -1: A [E]");
    assert_eq!(outcome.events, vec![]);
    assert_eq!(outcome.request, None);
    assert_eq!((parser.passed(), parser.failed()), (0, 0));
    assert_eq!(parser.current_test(), Some("A".to_string()));
    assert_eq!(parser.current_output(), "first\n");
    let outcome = parser.process_line("flutter:   Expected: true [E] at line 3");
    assert_eq!(outcome.events, vec![]);
    assert_eq!(parser.current_output(), "first\n");
    assert_eq!(
        parser.full_log(),
        "00:01 +0 -0: A\nfirst\n00:02 +0 -1: A [E]\nflutter:   Expected: true [E] at line 3\n"
    );
    let events = feed(&mut parser, &["00:03 +0 -1: B"]);
    assert_eq!(events, vec![failed("A", "first\n"), started("B")]);
}

#[test]
fn error_tag_counts_only_behind_the_first_space() {
    let mut parser = OutputParser::new();
    feed(&mut parser, &["00:01 +0 -0: A"]);
    parser.process_line("[E] oops");
    assert_eq!(parser.current_output(), "[E] oops\n");
    parser.process_line("[E]");
    assert_eq!(parser.current_output(), "[E] oops\n[E]\n");
    parser.process_line("oops\t[E]");
    assert_eq!(parser.current_output(), "[E] oops\n[E]\noops\t[E]\n");
    parser.process_line("a b [E]");
    assert_eq!(parser.current_output(), "[E] oops\n[E]\noops\t[E]\n");
}

#[test]
fn error_tagged_progress_line_is_not_remembered() {
    let mut parser = OutputParser::new();
    let events = feed(&mut parser, &["00:01 +0 -0: A", "00:02 +1 -0: B [E]", "00:02 +1 -0: B [E]"]);
    assert_eq!(events, vec![started("A")]);
    assert_eq!(parser.passed(), 0);
}
