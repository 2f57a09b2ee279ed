//! Reading the test driver's output, line by line.
//!
//! The driver prints plain text. Progress lines have the shape
//! `<elapsed> +P -F: <name>`, where `P` and `F` count the tests that have
//! passed and failed so far. Everything else is log output of the test that
//! is running, banner noise, or a request for outside input.
//!
//! A progress line carries both counters: a line with one counter, or with
//! more than two, is no progress line. A line that carries the driver's
//! error tag `[E]` behind its first space is logged and otherwise skipped.
//!
//! Two choices are fixed here. A progress line whose counters and name are
//! the same as those of an earlier progress line is a re-emission: it changes
//! nothing. A progress line that names the test that is already running only
//! brings new counters: the test is not started again and keeps its output.

use crate::text::{
    all_digits, chars_to_string, contains, contains_seq, digits_value, find_char, find_space,
    first_index_of, first_space, has_prefix, matches_at, parse_digits, slice_of, to_chars, trim,
    trim_chars, trim_start, trim_start_chars,
};
use crate::utils::dbus::{continue_request, DbusUtils};
use vstd::prelude::*;
use vstd::string::*;

verus! {

/// What the parser reports about the life of a test.
#[derive(Clone, Debug, PartialEq, Eq)]
pub enum TestEvent {
    Started { name: String },
    Passed { name: String },
    Failed { name: String, output: String },
    /// A progress line that neither started nor ended a test.
    ProgressNoise,
}

/// The mathematical value of a `TestEvent`.
pub enum EventView {
    Started { name: Seq<char> },
    Passed { name: Seq<char> },
    Failed { name: Seq<char>, output: Seq<char> },
    ProgressNoise,
}

impl View for TestEvent {
    type V = EventView;

    open spec fn view(&self) -> EventView {
        match self {
            TestEvent::Started { name } => EventView::Started { name: name@ },
            TestEvent::Passed { name } => EventView::Passed { name: name@ },
            TestEvent::Failed { name, output } => EventView::Failed {
                name: name@,
                output: output@,
            },
            TestEvent::ProgressNoise => EventView::ProgressNoise,
        }
    }
}

impl EventView {
    /// The event reports the end of a test.
    pub open spec fn is_verdict(self) -> bool {
        self is Passed || self is Failed
    }
}

/// The values of a list of events, in order.
pub open spec fn event_views(events: Seq<TestEvent>) -> Seq<EventView> {
    Seq::new(events.len(), |i: int| events[i]@)
}

/// What a progress line says: the two counters and the test's name.
#[derive(Clone, Debug, PartialEq, Eq)]
pub struct ProgressMarker {
    pub passed: u32,
    pub failed: u32,
    pub name: String,
}

/// The mathematical value of a `ProgressMarker`.
pub struct MarkerView {
    pub passed: nat,
    pub failed: nat,
    pub name: Seq<char>,
}

impl View for ProgressMarker {
    type V = MarkerView;

    open spec fn view(&self) -> MarkerView {
        MarkerView { passed: self.passed as nat, failed: self.failed as nat, name: self.name@ }
    }
}

/// The value of one counter: an optional sign, then decimal digits that
/// write a number no larger than `u32::MAX`. The sign is dropped.
pub open spec fn counter_value(tok: Seq<char>) -> Option<nat> {
    let digits = if tok.len() > 0 && (tok[0] == '+' || tok[0] == '-') {
        tok.skip(1)
    } else {
        tok
    };
    if digits.len() > 0 && all_digits(digits) && digits_value(digits) <= u32::MAX {
        Some(digits_value(digits))
    } else {
        None
    }
}

/// The two counters of a counter block: exactly two tokens, parted by white
/// space.
pub open spec fn counter_pair(block: Seq<char>) -> Option<(nat, nat)> {
    let cut = first_space(block);
    let first = block.take(cut);
    let second = trim_start(block.skip(cut));
    if first_space(second) == second.len() {
        match (counter_value(first), counter_value(second)) {
            (Some(p), Some(f)) => Some((p, f)),
            _ => None,
        }
    } else {
        None
    }
}

/// What `line` says if it is a progress line. `line` has no white space at
/// either end. The elapsed time is whatever stands before the first space;
/// after that space come `+`, the counter block, the first `:` and the name.
pub open spec fn marker_of(line: Seq<char>) -> Option<MarkerView> {
    let sp = first_index_of(line, ' ');
    if sp >= line.len() {
        None
    } else {
        let rest = line.skip(sp + 1);
        let colon = first_index_of(rest, ':');
        if rest.len() > 0 && rest[0] == '+' && colon < rest.len() {
            match counter_pair(trim(rest.take(colon))) {
                Some((p, f)) => Some(
                    MarkerView { passed: p, failed: f, name: trim(rest.skip(colon + 1)) },
                ),
                None => None,
            }
        } else {
            None
        }
    }
}

/// Lines that carry nothing: empty ones and the driver's banners.
pub open spec fn banner_noise(line: Seq<char>) -> bool {
    ||| line.len() == 0
    ||| contains_seq(line, "Some tests failed"@)
    ||| contains_seq(line, "All tests passed"@)
    ||| contains_seq(line, "VMServiceFlutterDriver"@)
}

/// The tag that the framework puts before forwarded application logs.
pub open spec fn log_prefix() -> Seq<char> {
    "flutter:"@
}

/// `line` without the forwarding tag, and without white space at either end.
pub open spec fn without_log_prefix(line: Seq<char>) -> Seq<char> {
    if has_prefix(line, log_prefix()) {
        trim(line.skip(log_prefix().len() as int))
    } else {
        trim(line)
    }
}

/// The state of the parser, as mathematics.
pub struct ParserView {
    pub passed: nat,
    pub failed: nat,
    /// The test that is running.
    pub current: Option<Seq<char>>,
    /// What the running test has printed.
    pub output: Seq<char>,
    /// Every line read so far, trimmed, each followed by a line feed.
    pub log: Seq<char>,
    /// The progress lines read so far, without re-emissions.
    pub seen: Seq<MarkerView>,
}

/// What one line does: the next state, the events, and the input that the
/// line asks for.
pub struct StepView {
    pub state: ParserView,
    pub events: Seq<EventView>,
    pub request: Option<Seq<char>>,
}

/// The state before any line.
pub open spec fn initial_state() -> ParserView {
    ParserView {
        passed: 0,
        failed: 0,
        current: None,
        output: Seq::empty(),
        log: Seq::empty(),
        seen: Seq::empty(),
    }
}

/// The events that new counters bring: a failure, then a success, each for
/// the running test and each at most once.
pub open spec fn verdicts(s: ParserView, m: MarkerView) -> Seq<EventView> {
    let failure = if m.failed > s.failed && s.current is Some {
        seq![EventView::Failed { name: s.current->0, output: s.output }]
    } else {
        Seq::empty()
    };
    let success = if m.passed > s.passed && s.current is Some {
        seq![EventView::Passed { name: s.current->0 }]
    } else {
        Seq::empty()
    };
    failure + success
}

/// A progress line that names a test starts it, unless its name begins with
/// `(` (set-up and tear-down steps of the framework) or it is the test that
/// is running.
pub open spec fn starts_test(s: ParserView, m: MarkerView) -> bool {
    !has_prefix(m.name, seq!['(']) && s.current != Some(m.name)
}

/// What a progress line does to the state.
pub open spec fn on_marker(s: ParserView, m: MarkerView) -> StepView {
    if s.seen.contains(m) {
        StepView { state: s, events: seq![EventView::ProgressNoise], request: None }
    } else {
        let ended = verdicts(s, m);
        let started = if starts_test(s, m) {
            seq![EventView::Started { name: m.name }]
        } else {
            Seq::empty()
        };
        let events = ended + started;
        let state = ParserView {
            passed: if m.passed > s.passed && s.current is Some {
                s.passed + 1
            } else {
                s.passed
            },
            failed: if m.failed > s.failed && s.current is Some {
                s.failed + 1
            } else {
                s.failed
            },
            current: if has_prefix(m.name, seq!['(']) {
                None
            } else {
                Some(m.name)
            },
            output: if starts_test(s, m) {
                Seq::empty()
            } else {
                s.output
            },
            log: s.log,
            seen: s.seen.push(m),
        };
        StepView {
            state,
            events: if events.len() == 0 {
                seq![EventView::ProgressNoise]
            } else {
                events
            },
            request: None,
        }
    }
}

/// The line carries the driver's error tag: `[E]` stands somewhere behind
/// its first space. Such a line only repeats, with the tag, the progress
/// line of the test that has just failed; it is logged and otherwise
/// skipped.
pub open spec fn error_tagged(text: Seq<char>) -> bool {
    let sp = first_index_of(text, ' ');
    sp < text.len() && contains_seq(text.skip(sp + 1), "[E]"@)
}

/// What one raw line does to the state.
pub open spec fn step(s: ParserView, raw: Seq<char>) -> StepView {
    let line = trim(raw);
    let logged = ParserView { log: s.log + line + seq!['\n'], ..s };
    if banner_noise(line) {
        StepView { state: logged, events: Seq::empty(), request: None }
    } else if continue_request(line) is Some && s.current is Some {
        StepView { state: logged, events: Seq::empty(), request: continue_request(line) }
    } else {
        let text = without_log_prefix(line);
        if error_tagged(text) {
            StepView { state: logged, events: Seq::empty(), request: None }
        } else {
            match marker_of(text) {
                Some(m) => on_marker(logged, m),
                None => StepView {
                    state: if s.current is Some && text.len() > 0 {
                        ParserView { output: s.output + text + seq!['\n'], ..logged }
                    } else {
                        logged
                    },
                    events: Seq::empty(),
                    request: None,
                },
            }
        }
    }
}

/// The state after the lines `lines`, read in order from `s`.
pub open spec fn run(s: ParserView, lines: Seq<Seq<char>>) -> ParserView
    decreases lines.len(),
{
    if lines.len() == 0 {
        s
    } else {
        step(run(s, lines.drop_last()), lines.last()).state
    }
}

/// The events of the lines `lines`, read in order from `s`.
pub open spec fn run_events(s: ParserView, lines: Seq<Seq<char>>) -> Seq<EventView>
    decreases lines.len(),
{
    if lines.len() == 0 {
        Seq::empty()
    } else {
        run_events(s, lines.drop_last()) + step(run(s, lines.drop_last()), lines.last()).events
    }
}

/// The inputs that the lines `lines`, read in order from `s`, ask for: for
/// each line that is a request, the test that was waiting and the name of
/// the input.
pub open spec fn run_requests(s: ParserView, lines: Seq<Seq<char>>) -> Seq<
    (Seq<char>, Seq<char>),
>
    decreases lines.len(),
{
    if lines.len() == 0 {
        Seq::empty()
    } else {
        let before = run(s, lines.drop_last());
        let earlier = run_requests(s, lines.drop_last());
        match (before.current, step(before, lines.last()).request) {
            (Some(test), Some(input)) => earlier.push((test, input)),
            _ => earlier,
        }
    }
}

/// What one line gave: the events, in order, and the name of the input that
/// the running test waits for.
#[derive(Clone, Debug, PartialEq, Eq)]
pub struct LineOutcome {
    pub events: Vec<TestEvent>,
    pub request: Option<String>,
}

/// The counts at the end of the stream.
#[derive(Clone, Copy, Debug, PartialEq, Eq)]
pub struct Tally {
    pub passed: u64,
    pub failed: u64,
    pub total: u64,
}

pub open spec fn option_view(o: Option<String>) -> Option<Seq<char>> {
    match o {
        Some(s) => Some(s@),
        None => None,
    }
}

pub open spec fn marker_views(seen: Seq<ProgressMarker>) -> Seq<MarkerView> {
    Seq::new(seen.len(), |i: int| seen[i]@)
}

/// Reads one counter.
fn parse_counter(tok: &Vec<char>) -> (r: Option<u32>)
    ensures
        match r {
            Some(n) => counter_value(tok@) == Some(n as nat),
            None => counter_value(tok@) is None,
        },
{
    if tok.len() > 0 && (tok[0] == '+' || tok[0] == '-') {
        let digits = slice_of(tok, 1, tok.len());
        assert(digits@ == tok@.skip(1));
        parse_digits(&digits)
    } else {
        parse_digits(tok)
    }
}

/// Reads the two counters of a counter block.
fn parse_counter_pair(block: &Vec<char>) -> (r: Option<(u32, u32)>)
    ensures
        match r {
            Some((p, f)) => counter_pair(block@) == Some((p as nat, f as nat)),
            None => counter_pair(block@) is None,
        },
{
    let cut: usize = find_space(block);
    let first = slice_of(block, 0, cut);
    let tail = slice_of(block, cut, block.len());
    assert(first@ == block@.take(cut as int));
    assert(tail@ == block@.skip(cut as int));
    let second = trim_start_chars(&tail);
    if find_space(&second) != second.len() {
        return None;
    }
    match parse_counter(&first) {
        Some(p) => match parse_counter(&second) {
            Some(f) => Some((p, f)),
            None => None,
        },
        None => None,
    }
}

/// Reads a progress line. `line` has no white space at either end.
pub fn parse_marker(line: &Vec<char>) -> (r: Option<ProgressMarker>)
    ensures
        match r {
            Some(m) => marker_of(line@) == Some(m@),
            None => marker_of(line@) is None,
        },
{
    let sp: usize = find_char(line, ' ');
    if sp >= line.len() {
        return None;
    }
    let rest = slice_of(line, sp + 1, line.len());
    assert(rest@ == line@.skip(sp + 1));
    let colon: usize = find_char(&rest, ':');
    if rest.len() == 0 || rest[0] != '+' || colon >= rest.len() {
        return None;
    }
    let head = slice_of(&rest, 0, colon);
    let tail = slice_of(&rest, colon + 1, rest.len());
    assert(head@ == rest@.take(colon as int));
    assert(tail@ == rest@.skip(colon + 1));
    let block = trim_chars(&head);
    match parse_counter_pair(&block) {
        Some((p, f)) => {
            let name = trim_chars(&tail);
            Some(ProgressMarker { passed: p, failed: f, name: chars_to_string(&name) })
        },
        None => None,
    }
}

/// Tells banner noise from lines that matter.
pub fn is_banner_noise(line: &Vec<char>) -> (b: bool)
    ensures
        b == banner_noise(line@),
{
    if line.len() == 0 {
        return true;
    }
    let failed = to_chars("Some tests failed");
    let passed = to_chars("All tests passed");
    let driver = to_chars("VMServiceFlutterDriver");
    contains(line, &failed) || contains(line, &passed) || contains(line, &driver)
}

/// Tells whether a line carries the driver's error tag.
pub fn is_error_tagged(text: &Vec<char>) -> (b: bool)
    ensures
        b == error_tagged(text@),
{
    let sp: usize = find_char(text, ' ');
    if sp >= text.len() {
        return false;
    }
    let rest = slice_of(text, sp + 1, text.len());
    assert(rest@ == text@.skip(sp + 1));
    let tag = to_chars("[E]");
    contains(&rest, &tag)
}

/// Takes the forwarding tag and the white space round the rest away.
pub fn strip_log_prefix(line: &Vec<char>) -> (out: Vec<char>)
    ensures
        out@ == without_log_prefix(line@),
{
    let prefix = to_chars("flutter:");
    if matches_at(line, &prefix, 0) {
        let tail = slice_of(line, prefix.len(), line.len());
        assert(tail@ == line@.skip(log_prefix().len() as int));
        trim_chars(&tail)
    } else {
        trim_chars(line)
    }
}

/// Turns the driver's output into test events, one line at a time.
pub struct OutputParser {
    passed: u32,
    failed: u32,
    current_test: Option<String>,
    current_output: String,
    full_log: String,
    /// The progress lines that were read, each once, in the order in which
    /// they came: a set, kept as a list so that what the parser remembers
    /// can be stated line by line (`each_seen_once`).
    seen: Vec<ProgressMarker>,
}

impl View for OutputParser {
    type V = ParserView;

    closed spec fn view(&self) -> ParserView {
        ParserView {
            passed: self.passed as nat,
            failed: self.failed as nat,
            current: option_view(self.current_test),
            output: self.current_output@,
            log: self.full_log@,
            seen: marker_views(self.seen@),
        }
    }
}

impl OutputParser {
    /// A parser that has read nothing.
    pub fn new() -> (p: Self)
        ensures
            p@ == initial_state(),
            each_seen_once(p@),
    {
        let p = OutputParser {
            passed: 0,
            failed: 0,
            current_test: None,
            current_output: String::new(),
            full_log: String::new(),
            seen: Vec::new(),
        };
        assert(marker_views(p.seen@) =~= Seq::empty());
        p
    }

    /// The number of tests that have passed.
    pub fn passed(&self) -> (n: u64)
        ensures
            n == self@.passed,
    {
        self.passed as u64
    }

    /// The number of tests that have failed.
    pub fn failed(&self) -> (n: u64)
        ensures
            n == self@.failed,
    {
        self.failed as u64
    }

    /// The test that is running.
    pub fn current_test(&self) -> (r: Option<String>)
        ensures
            option_view(r) == self@.current,
    {
        self.current_test.clone()
    }

    /// What the running test has printed so far.
    pub fn current_output(&self) -> (r: String)
        ensures
            r@ == self@.output,
    {
        self.current_output.clone()
    }

    /// Every line read so far.
    pub fn full_log(&self) -> (r: String)
        ensures
            r@ == self@.log,
    {
        self.full_log.clone()
    }

    fn seen_before(&self, m: &ProgressMarker) -> (b: bool)
        ensures
            b == self@.seen.contains(m@),
    {
        let mut i: usize = 0;
        while i < self.seen.len()
            invariant
                i <= self.seen.len(),
                forall|j: int| 0 <= j < i ==> marker_views(self.seen@)[j] != m@,
            decreases self.seen.len() - i,
        {
            let other = &self.seen[i];
            if other.passed == m.passed && other.failed == m.failed && other.name == m.name {
                assert(marker_views(self.seen@)[i as int] == m@);
                return true;
            }
            i += 1;
        }
        false
    }

    /// Takes a progress line in.
    fn take_marker(&mut self, m: ProgressMarker) -> (events: Vec<TestEvent>)
        ensures
            final(self)@ == on_marker(old(self)@, m@).state,
            event_views(events@) == on_marker(old(self)@, m@).events,
    {
        let mut events: Vec<TestEvent> = Vec::new();
        if self.seen_before(&m) {
            events.push(TestEvent::ProgressNoise);
            assert(event_views(events@) =~= seq![EventView::ProgressNoise]);
            return events;
        }
        let ghost before = self@;
        let ghost mv = m@;
        assert(event_views(events@) =~= Seq::empty());
        let running: bool = self.current_test.is_some();
        let failed_now: bool = m.failed > self.failed && running;
        let passed_now: bool = m.passed > self.passed && running;
        if failed_now {
            match &self.current_test {
                Some(name) => {
                    events.push(
                        TestEvent::Failed {
                            name: name.clone(),
                            output: self.current_output.clone(),
                        },
                    );
                },
                None => {},
            }
            self.failed = self.failed + 1;
        }
        if passed_now {
            match &self.current_test {
                Some(name) => {
                    events.push(TestEvent::Passed { name: name.clone() });
                },
                None => {},
            }
            self.passed = self.passed + 1;
        }
        assert(event_views(events@) =~= verdicts(before, mv));
        let name_chars = to_chars(m.name.as_str());
        let paren: bool = name_chars.len() > 0 && name_chars[0] == '(';
        assert(paren == has_prefix(mv.name, seq!['('])) by {
            let p = seq!['('];
            assert(p.len() == 1 && p[0] == '(');
            if name_chars.len() > 0 {
                assert(name_chars@ == mv.name);
                assert(mv.name.subrange(0, 1) =~= seq![mv.name[0]]);
                assert(seq![mv.name[0]][0] == mv.name[0]);
                if paren {
                    assert(seq![mv.name[0]] =~= p);
                }
            }
        }
        let same: bool = match &self.current_test {
            Some(name) => *name == m.name,
            None => false,
        };
        assert(same == (before.current == Some(mv.name)));
        if paren {
            self.current_test = None;
        } else {
            if !same {
                events.push(TestEvent::Started { name: m.name.clone() });
                self.current_output = String::new();
            }
            self.current_test = Some(m.name.clone());
        }
        assert(event_views(events@) =~= verdicts(before, mv) + if starts_test(before, mv) {
            seq![EventView::Started { name: mv.name }]
        } else {
            Seq::empty()
        });
        let ghost old_seen = self.seen@;
        self.seen.push(m);
        assert(marker_views(self.seen@) =~= marker_views(old_seen).push(mv));
        if events.len() == 0 {
            events.push(TestEvent::ProgressNoise);
            assert(event_views(events@) =~= seq![EventView::ProgressNoise]);
        }
        events
    }

    /// Reads one line of the driver's output.
    ///
    /// The line is added to the full log. The result holds the events that
    /// the line brought, and the name of the input that the running test
    /// waits for if the line is a request for one.
    pub fn process_line(&mut self, raw: &str) -> (out: LineOutcome)
        ensures
            final(self)@ == step(old(self)@, raw@).state,
            event_views(out.events@) == step(old(self)@, raw@).events,
            option_view(out.request) == step(old(self)@, raw@).request,
            old(self)@.passed <= final(self)@.passed <= old(self)@.passed + 1,
            old(self)@.failed <= final(self)@.failed <= old(self)@.failed + 1,
            each_seen_once(old(self)@) ==> each_seen_once(final(self)@),
    {
        proof {
            if each_seen_once(old(self)@) {
                lemma_step_sees_each_once(old(self)@, raw@);
            }
        }
        let raw_chars = to_chars(raw);
        let line = trim_chars(&raw_chars);
        let line_text = chars_to_string(&line);
        self.full_log.append(line_text.as_str());
        self.full_log.append("\n");
        proof {
            reveal_strlit("\n");
            assert("\n"@ =~= seq!['\n']);
        }
        let ghost logged = self@;
        assert(logged == ParserView { log: old(self)@.log + line@ + seq!['\n'], ..old(self)@ });
        if is_banner_noise(&line) {
            let events: Vec<TestEvent> = Vec::new();
            assert(event_views(events@) =~= Seq::empty());
            return LineOutcome { events, request: None };
        }
        if self.current_test.is_some() {
            let request = DbusUtils::identify_continue_request(line_text.as_str());
            if request.is_some() {
                let events: Vec<TestEvent> = Vec::new();
                assert(event_views(events@) =~= Seq::empty());
                return LineOutcome { events, request };
            }
        }
        let text = strip_log_prefix(&line);
        if is_error_tagged(&text) {
            let events: Vec<TestEvent> = Vec::new();
            assert(event_views(events@) =~= Seq::empty());
            return LineOutcome { events, request: None };
        }
        match parse_marker(&text) {
            Some(m) => {
                let events = self.take_marker(m);
                LineOutcome { events, request: None }
            },
            None => {
                if self.current_test.is_some() && text.len() > 0 {
                    let text_string = chars_to_string(&text);
                    self.current_output.append(text_string.as_str());
                    self.current_output.append("\n");
                }
                let events: Vec<TestEvent> = Vec::new();
                assert(event_views(events@) =~= Seq::empty());
                LineOutcome { events, request: None }
            },
        }
    }

    /// The counts at the end of the stream: the total is the number of tests
    /// that passed plus the number of tests that failed.
    pub fn tally(&self) -> (t: Tally)
        ensures
            t.passed == self@.passed,
            t.failed == self@.failed,
            t.total == self@.passed + self@.failed,
    {
        let passed: u64 = self.passed as u64;
        let failed: u64 = self.failed as u64;
        Tally { passed, failed, total: passed + failed }
    }
}

} // verus!

verus! {

/// A line never lowers a counter, and raises each by at most one.
pub proof fn lemma_step_counters(s: ParserView, raw: Seq<char>)
    ensures
        s.passed <= step(s, raw).state.passed <= s.passed + 1,
        s.failed <= step(s, raw).state.failed <= s.failed + 1,
{
}

/// Over any sequence of lines the counters never decrease: what has been
/// counted after some of the lines is still counted after more of them.
pub proof fn lemma_counters_never_decrease(s: ParserView, lines: Seq<Seq<char>>, i: int, j: int)
    requires
        0 <= i <= j <= lines.len(),
    ensures
        run(s, lines.take(i)).passed <= run(s, lines.take(j)).passed,
        run(s, lines.take(i)).failed <= run(s, lines.take(j)).failed,
    decreases j - i,
{
    if i < j {
        lemma_counters_never_decrease(s, lines, i, j - 1);
        let shorter = lines.take(j - 1);
        let longer = lines.take(j);
        assert(longer.drop_last() =~= shorter);
        lemma_step_counters(run(s, shorter), longer.last());
    }
}

/// A line keeps every progress line that was read before it.
pub proof fn lemma_step_keeps_seen(s: ParserView, raw: Seq<char>, m: MarkerView)
    requires
        s.seen.contains(m),
    ensures
        step(s, raw).state.seen.contains(m),
{
    let next = step(s, raw).state.seen;
    if next != s.seen {
        let i = choose|i: int| 0 <= i < s.seen.len() && s.seen[i] == m;
        assert(next[i] == m);
    }
}

/// Any number of lines keep every progress line that was read before them.
pub proof fn lemma_run_keeps_seen(s: ParserView, lines: Seq<Seq<char>>, m: MarkerView)
    requires
        s.seen.contains(m),
    ensures
        run(s, lines).seen.contains(m),
    decreases lines.len(),
{
    if lines.len() > 0 {
        lemma_run_keeps_seen(s, lines.drop_last(), m);
        lemma_step_keeps_seen(run(s, lines.drop_last()), lines.last(), m);
    }
}

/// No progress line is kept twice: the progress lines that were read form
/// a set, held in the order in which they came.
pub open spec fn each_seen_once(s: ParserView) -> bool {
    forall|i: int, j: int| 0 <= i < j < s.seen.len() ==> s.seen[i] != s.seen[j]
}

/// A line keeps the progress lines that were read apart.
pub proof fn lemma_step_sees_each_once(s: ParserView, raw: Seq<char>)
    requires
        each_seen_once(s),
    ensures
        each_seen_once(step(s, raw).state),
{
    let next = step(s, raw).state;
    if next.seen != s.seen {
        let m = next.seen.last();
        assert(next.seen == s.seen.push(m));
        assert(!s.seen.contains(m));
        assert forall|i: int, j: int| 0 <= i < j < next.seen.len() implies next.seen[i]
            != next.seen[j] by {
            if j == s.seen.len() {
                assert(s.seen.contains(s.seen[i]));
            }
        }
    }
}

/// From a parser that has read nothing, no sequence of lines makes the
/// parser keep a progress line twice.
pub proof fn lemma_run_sees_each_once(lines: Seq<Seq<char>>)
    ensures
        each_seen_once(run(initial_state(), lines)),
    decreases lines.len(),
{
    if lines.len() > 0 {
        lemma_run_sees_each_once(lines.drop_last());
        lemma_step_sees_each_once(run(initial_state(), lines.drop_last()), lines.last());
    }
}

/// A line that is read a second time, at once or after any other lines, ends
/// no test: the second reading brings neither `Passed` nor `Failed`.
pub proof fn lemma_replayed_line_ends_no_test(
    s: ParserView,
    raw: Seq<char>,
    between: Seq<Seq<char>>,
)
    ensures
        forall|k: int|
            #![auto]
            0 <= k < step(run(step(s, raw).state, between), raw).events.len() ==> !step(
                run(step(s, raw).state, between),
                raw,
            ).events[k].is_verdict(),
{
    let first = step(s, raw);
    let later = run(first.state, between);
    let second = step(later, raw);
    let line = trim(raw);
    if banner_noise(line) {
    } else if continue_request(line) is Some && later.current is Some {
    } else {
        let text = without_log_prefix(line);
        match marker_of(text) {
            Some(m) => {
                if error_tagged(text) {
                } else if continue_request(line) is Some && s.current is Some {
                    // The first reading was a request, so the marker may be
                    // new; no test is running now, so none can end.
                    assert(later.current is None);
                } else {
                    let logged = ParserView { log: s.log + line + seq!['\n'], ..s };
                    assert(first.state.seen.contains(m)) by {
                        if !logged.seen.contains(m) {
                            assert(first.state.seen == logged.seen.push(m));
                            assert(logged.seen.push(m)[logged.seen.len() as int] == m);
                        }
                    }
                    lemma_run_keeps_seen(first.state, between, m);
                    assert(second.events =~= seq![EventView::ProgressNoise]);
                }
            },
            None => {},
        }
    }
}

} // verus!
