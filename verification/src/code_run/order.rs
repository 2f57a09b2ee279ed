//! What holds of every run of the hook pipeline.
//!
//! The statements are about the states that a run can reach from its start
//! by any sequence of events, whatever the hooks and the tests do.

use crate::code_run::run::{
    after_event, eligible, enter_phase, fresh_run, leave_phase, next_eligible, to_tests, CursorView,
    EventKind, HookMeta, RunView,
};
use crate::hooks::iface::HookType;
use vstd::prelude::*;

verus! {

/// Hook `a` has its place in a run before hook `b`: its phase comes first,
/// or they share the phase and `a` is listed first.
pub open spec fn runs_before(hooks: Seq<HookMeta>, a: int, b: int) -> bool {
    hooks[a].phase.rank() < hooks[b].phase.rank() || (hooks[a].phase.rank() == hooks[b].phase.rank()
        && a < b)
}

/// The hooks `executed` are hooks of the list and stand in the order of the
/// phases, and within a phase in the order of the list.
pub open spec fn in_phase_order(hooks: Seq<HookMeta>, executed: Seq<int>) -> bool {
    &&& forall|i: int| 0 <= i < executed.len() ==> 0 <= #[trigger] executed[i] < hooks.len()
    &&& forall|i: int, j: int|
        0 <= i < j < executed.len() ==> runs_before(hooks, #[trigger] executed[i], #[trigger] executed[j])
}

/// Every hook of `executed` has its place before hook `from` of `phase`.
pub open spec fn all_before(
    hooks: Seq<HookMeta>,
    executed: Seq<int>,
    phase: HookType,
    from: int,
) -> bool {
    forall|i: int|
        0 <= i < executed.len() ==> {
            let e = #[trigger] executed[i];
            hooks[e].phase.rank() < phase.rank() || (hooks[e].phase == phase && e < from)
        }
}

/// Every hook of the last phase among the first `n` that tolerates errors
/// has been run.
pub open spec fn reporting_done(s: RunView, n: int) -> bool {
    forall|j: int|
        0 <= j < n && j < s.hooks.len() && (#[trigger] s.hooks[j]).phase == HookType::Finished
            && s.hooks[j].tolerant ==> s.executed.contains(j)
}

/// Every hook that was run since the run had `count` hooks behind it
/// tolerates errors.
pub open spec fn tolerant_since(s: RunView, count: int) -> bool {
    forall|k: int| count <= k < s.executed.len() ==> s.hooks[#[trigger] s.executed[k]].tolerant
}

/// The states that a run can be in.
pub open spec fn consistent(s: RunView) -> bool {
    &&& in_phase_order(s.hooks, s.executed)
    &&& match s.cursor {
        CursorView::Idle => s.executed.len() == 0 && !s.has_error && !s.fallback,
        CursorView::Hook { phase, index } => {
            &&& 0 <= index < s.hooks.len()
            &&& s.hooks[index].phase == phase
            &&& s.executed.len() > 0
            &&& s.executed.last() == index
            &&& all_before(s.hooks, s.executed, phase, index + 1)
            &&& s.has_error ==> s.hooks[index].tolerant
            &&& s.fallback ==> phase == HookType::Finished
            &&& phase == HookType::Finished ==> reporting_done(s, index + 1)
        },
        CursorView::Tests => {
            &&& all_before(s.hooks, s.executed, HookType::Finished, 0)
            &&& !s.has_error
            &&& !s.fallback
        },
        CursorView::Cleanup { after_post } => if after_post {
            reporting_done(s, s.hooks.len() as int) && !s.fallback
        } else {
            all_before(s.hooks, s.executed, HookType::Finished, 0) && !s.fallback
        },
        CursorView::Done => reporting_done(s, s.hooks.len() as int),
    }
}

/// The state after the events `events`, each with the cancellation flag at
/// its time, taken in order from `s`.
pub open spec fn replay(s: RunView, events: Seq<(EventKind, bool)>) -> RunView
    decreases events.len(),
{
    if events.len() == 0 {
        s
    } else {
        after_event(replay(s, events.drop_last()), events.last().0, events.last().1)
    }
}

proof fn lemma_next_eligible(hooks: Seq<HookMeta>, phase: HookType, has_error: bool, from: int)
    requires
        0 <= from,
    ensures
        ({
            let i = next_eligible(hooks, phase, has_error, from);
            &&& from <= i || i == hooks.len()
            &&& i <= hooks.len() || from > hooks.len()
            &&& i < hooks.len() ==> from <= i && eligible(hooks, phase, has_error, i)
            &&& forall|j: int| from <= j < i && j < hooks.len() ==> !eligible(hooks, phase, has_error, j)
        }),
    decreases hooks.len() - from,
{
    if from < hooks.len() && !eligible(hooks, phase, has_error, from) {
        lemma_next_eligible(hooks, phase, has_error, from + 1);
    }
}

/// What has to hold when phase `phase` goes on from hook `from`.
spec fn ready(s: RunView, phase: HookType, from: int) -> bool {
    &&& 0 <= from
    &&& in_phase_order(s.hooks, s.executed)
    &&& all_before(s.hooks, s.executed, phase, from)
    &&& s.fallback ==> phase == HookType::Finished
    &&& phase == HookType::Finished ==> reporting_done(s, from)
}

proof fn lemma_push_in_order(s: RunView, phase: HookType, i: int)
    requires
        in_phase_order(s.hooks, s.executed),
        0 <= i < s.hooks.len(),
        s.hooks[i].phase == phase,
        all_before(s.hooks, s.executed, phase, i),
    ensures
        in_phase_order(s.hooks, s.executed.push(i)),
        all_before(s.hooks, s.executed.push(i), phase, i + 1),
{
    let pushed = s.executed.push(i);
    assert forall|a: int, b: int| 0 <= a < b < pushed.len() implies runs_before(
        s.hooks,
        #[trigger] pushed[a],
        #[trigger] pushed[b],
    ) by {
        if b < s.executed.len() {
            assert(pushed[a] == s.executed[a] && pushed[b] == s.executed[b]);
        } else {
            assert(pushed[a] == s.executed[a]);
        }
    }
    assert forall|k: int| 0 <= k < pushed.len() implies {
        let e = #[trigger] pushed[k];
        s.hooks[e].phase.rank() < phase.rank() || (s.hooks[e].phase == phase && e < i + 1)
    } by {
        if k < s.executed.len() {
            assert(pushed[k] == s.executed[k]);
        }
    }
}

proof fn lemma_to_tests(s: RunView, phase: HookType, from: int, running: bool)
    requires
        ready(s, phase, from),
        phase != HookType::Finished,
    ensures
        consistent(to_tests(s, running)),
        to_tests(s, running).executed == s.executed,
        to_tests(s, running).has_error == s.has_error,
        to_tests(s, running).hooks == s.hooks,
{
    assert forall|k: int| 0 <= k < s.executed.len() implies {
        let e = #[trigger] s.executed[k];
        s.hooks[e].phase.rank() < HookType::Finished.rank() || (s.hooks[e].phase
            == HookType::Finished && e < 0)
    } by {}
}

proof fn lemma_enter_phase(s: RunView, phase: HookType, from: int, running: bool)
    requires
        ready(s, phase, from),
    ensures
        ({
            let t = enter_phase(s, phase, from, running);
            &&& consistent(t)
            &&& t.hooks == s.hooks
            &&& t.has_error == s.has_error
            &&& t.errors == s.errors
            &&& t.setup_only == s.setup_only
            &&& t.fallback == s.fallback
            &&& t.executed.len() >= s.executed.len()
            &&& t.executed.take(s.executed.len() as int) == s.executed
            &&& t.executed.len() <= s.executed.len() + 1
            &&& s.has_error ==> tolerant_since(t, s.executed.len() as int)
        }),
    decreases 3 - phase.rank(), 1int, s.hooks.len() - from,
{
    let i = next_eligible(s.hooks, phase, s.has_error, from);
    lemma_next_eligible(s.hooks, phase, s.has_error, from);
    if i < s.hooks.len() {
        let t = enter_phase(s, phase, from, running);
        assert forall|k: int| 0 <= k < s.executed.len() implies {
            let e = #[trigger] s.executed[k];
            s.hooks[e].phase.rank() < phase.rank() || (s.hooks[e].phase == phase && e < i)
        } by {}
        lemma_push_in_order(s, phase, i);
        assert(t.executed.take(s.executed.len() as int) =~= s.executed);
        if phase == HookType::Finished {
            assert forall|j: int|
                0 <= j < i + 1 && j < t.hooks.len() && (#[trigger] t.hooks[j]).phase
                    == HookType::Finished && t.hooks[j].tolerant implies t.executed.contains(j) by {
                if j < from {
                    assert(s.executed.contains(j));
                    let w = choose|w: int| 0 <= w < s.executed.len() && s.executed[w] == j;
                    assert(t.executed[w] == j);
                } else if j < i {
                    assert(!eligible(s.hooks, phase, s.has_error, j));
                } else {
                    assert(t.executed[s.executed.len() as int] == i);
                }
            }
        }
    } else {
        lemma_leave_phase(s, phase, from, running);
    }
}

proof fn lemma_leave_phase(s: RunView, phase: HookType, from: int, running: bool)
    requires
        ready(s, phase, from),
        next_eligible(s.hooks, phase, s.has_error, from) >= s.hooks.len(),
    ensures
        ({
            let t = leave_phase(s, phase, running);
            &&& consistent(t)
            &&& t.hooks == s.hooks
            &&& t.has_error == s.has_error
            &&& t.errors == s.errors
            &&& t.setup_only == s.setup_only
            &&& t.fallback == s.fallback
            &&& t.executed.len() >= s.executed.len()
            &&& t.executed.take(s.executed.len() as int) == s.executed
            &&& t.executed.len() <= s.executed.len() + 1
            &&& s.has_error ==> tolerant_since(t, s.executed.len() as int)
        }),
    decreases 3 - phase.rank(), 0int,
{
    lemma_next_eligible(s.hooks, phase, s.has_error, from);
    assert(s.executed.take(s.executed.len() as int) =~= s.executed);
    match phase {
        HookType::Connect => {
            if s.phase_failed && !running {
                lemma_to_tests(s, phase, from, running);
            } else {
                let cleared = RunView { phase_failed: false, ..s };
                assert(ready(cleared, HookType::VerifySystem, 0)) by {
                    assert forall|k: int| 0 <= k < s.executed.len() implies {
                        let e = #[trigger] s.executed[k];
                        s.hooks[e].phase.rank() < HookType::VerifySystem.rank() || (
                        s.hooks[e].phase == HookType::VerifySystem && e < 0)
                    } by {}
                }
                lemma_enter_phase(cleared, HookType::VerifySystem, 0, running);
            }
        },
        HookType::VerifySystem => {
            if s.phase_failed && !running {
                lemma_to_tests(s, phase, from, running);
            } else {
                let cleared = RunView { phase_failed: false, ..s };
                assert(ready(cleared, HookType::PrepareSystem, 0)) by {
                    assert forall|k: int| 0 <= k < s.executed.len() implies {
                        let e = #[trigger] s.executed[k];
                        s.hooks[e].phase.rank() < HookType::PrepareSystem.rank() || (
                        s.hooks[e].phase == HookType::PrepareSystem && e < 0)
                    } by {}
                }
                lemma_enter_phase(cleared, HookType::PrepareSystem, 0, running);
            }
        },
        HookType::PrepareSystem => {
            lemma_to_tests(s, phase, from, running);
        },
        HookType::Finished => {
            let t = leave_phase(s, phase, running);
            assert forall|j: int|
                0 <= j < t.hooks.len() && (#[trigger] t.hooks[j]).phase == HookType::Finished
                    && t.hooks[j].tolerant implies t.executed.contains(j) by {
                if j >= from {
                    assert(!eligible(s.hooks, phase, s.has_error, j));
                }
            }
        },
    }
}

/// A run that has not begun is in a state that a run can be in.
pub proof fn lemma_fresh_run_consistent(hooks: Seq<HookMeta>, setup_only: bool)
    ensures
        consistent(fresh_run(hooks, setup_only)),
{
}

/// What one event does to a run: the state stays one that a run can be in;
/// the hooks stay; an error, once there, stays; at most one more hook is
/// run; and if there was an error before the event, that hook tolerates
/// errors.
pub proof fn lemma_after_event(s: RunView, event: EventKind, running: bool)
    requires
        consistent(s),
    ensures
        ({
            let t = after_event(s, event, running);
            &&& consistent(t)
            &&& t.hooks == s.hooks
            &&& s.has_error ==> t.has_error
            &&& t.executed.len() >= s.executed.len()
            &&& t.executed.take(s.executed.len() as int) == s.executed
            &&& t.executed.len() <= s.executed.len() + 1
            &&& s.has_error ==> tolerant_since(t, s.executed.len() as int)
        }),
{
    assert(s.executed.take(s.executed.len() as int) =~= s.executed);
    match (s.cursor, event) {
        (CursorView::Idle, EventKind::Loaded { result: Ok(_) }) => {
            lemma_enter_phase(s, HookType::Connect, 0, running);
        },
        (CursorView::Idle, EventKind::Loaded { result: Err(e) }) => {
            let failed = RunView {
                has_error: true,
                fallback: true,
                errors: s.errors.push(crate::code_run::run::load_error_message(e)),
                outcome: Some(Err("Failed to load feature tests"@)),
                ..s
            };
            lemma_enter_phase(failed, HookType::Finished, 0, running);
        },
        (CursorView::Hook { phase, index }, EventKind::HookFinished { result: Ok(_) }) => {
            lemma_enter_phase(s, phase, index + 1, running);
        },
        (CursorView::Hook { phase, index }, EventKind::HookFinished { result: Err(e) }) => {
            let failed = RunView {
                has_error: true,
                phase_failed: true,
                errors: s.errors.push(crate::code_run::run::hook_error_message(phase, e)),
                ..s
            };
            lemma_enter_phase(failed, phase, index + 1, running);
            let t = enter_phase(failed, phase, index + 1, running);
            if s.has_error {
                assert(tolerant_since(t, s.executed.len() as int));
            }
        },
        (CursorView::Tests, EventKind::TestsFinished { result }) => {},
        (CursorView::Cleanup { after_post: false }, EventKind::Terminated) => {
            let cleared = RunView { phase_failed: false, ..s };
            assert(reporting_done(cleared, 0));
            lemma_enter_phase(cleared, HookType::Finished, 0, running);
        },
        (CursorView::Cleanup { after_post: true }, EventKind::Terminated) => {},
        _ => {},
    }
}

/// Whatever events a run is given, its state stays one that a run can be
/// in, and its hooks stay.
pub proof fn lemma_replay_consistent(s: RunView, events: Seq<(EventKind, bool)>)
    requires
        consistent(s),
    ensures
        consistent(replay(s, events)),
        replay(s, events).hooks == s.hooks,
        s.has_error ==> replay(s, events).has_error,
        replay(s, events).executed.len() >= s.executed.len(),
        replay(s, events).executed.take(s.executed.len() as int) == s.executed,
        s.has_error ==> tolerant_since(replay(s, events), s.executed.len() as int),
    decreases events.len(),
{
    if events.len() == 0 {
        assert(s.executed.take(s.executed.len() as int) =~= s.executed);
    } else {
        let before = replay(s, events.drop_last());
        lemma_replay_consistent(s, events.drop_last());
        lemma_after_event(before, events.last().0, events.last().1);
        let after = replay(s, events);
        assert(after.executed.take(s.executed.len() as int) =~= s.executed) by {
            assert(after.executed.take(before.executed.len() as int) == before.executed);
            assert(before.executed.take(s.executed.len() as int) == s.executed);
            assert forall|k: int| 0 <= k < s.executed.len() implies after.executed[k]
                == s.executed[k] by {
                assert(after.executed.take(before.executed.len() as int)[k] == after.executed[k]);
                assert(before.executed.take(s.executed.len() as int)[k] == before.executed[k]);
            }
        }
        if s.has_error {
            assert forall|k: int| s.executed.len() <= k < after.executed.len() implies after.hooks[
                #[trigger] after.executed[k]].tolerant by {
                if k < before.executed.len() {
                    assert(after.executed.take(before.executed.len() as int)[k]
                        == after.executed[k]);
                }
            }
        }
    }
}

/// For any list of hooks and whatever the hooks and the tests do, the hooks
/// that are run are run in the order of the phases `Connect`,
/// `VerifySystem`, `PrepareSystem`, `Finished`, and within a phase in the
/// order of the list; none is run twice.
pub proof fn lemma_hooks_run_in_phase_order(
    hooks: Seq<HookMeta>,
    setup_only: bool,
    events: Seq<(EventKind, bool)>,
)
    ensures
        in_phase_order(hooks, replay(fresh_run(hooks, setup_only), events).executed),
{
    lemma_fresh_run_consistent(hooks, setup_only);
    lemma_replay_consistent(fresh_run(hooks, setup_only), events);
}

/// When a hook fails, the run has an error from then on, and every hook
/// that is run after the failure, in whatever phase, tolerates errors.
pub proof fn lemma_after_failure_only_tolerant_hooks_run(
    s: RunView,
    error: Seq<char>,
    running: bool,
    later: Seq<(EventKind, bool)>,
)
    requires
        consistent(s),
        s.cursor is Hook,
    ensures
        ({
            let failed = after_event(s, EventKind::HookFinished { result: Err(error) }, running);
            let end = replay(failed, later);
            &&& failed.has_error
            &&& end.has_error
            &&& end.executed.take(s.executed.len() as int) == s.executed
            &&& tolerant_since(end, s.executed.len() as int)
        }),
{
    let event = EventKind::HookFinished { result: Err(error) };
    let failed = after_event(s, event, running);
    let end = replay(failed, later);
    lemma_after_event(s, event, running);
    let phase = s.cursor->Hook_phase;
    let index = s.cursor->Hook_index;
    let marked = RunView {
        has_error: true,
        phase_failed: true,
        errors: s.errors.push(crate::code_run::run::hook_error_message(phase, error)),
        ..s
    };
    lemma_enter_phase(marked, phase, index + 1, running);
    assert(failed.has_error);
    assert(tolerant_since(failed, s.executed.len() as int));
    lemma_replay_consistent(failed, later);
    assert(end.executed.take(s.executed.len() as int) =~= s.executed) by {
        assert forall|k: int| 0 <= k < s.executed.len() implies end.executed[k] == s.executed[k] by {
            assert(end.executed.take(failed.executed.len() as int)[k] == end.executed[k]);
            assert(failed.executed.take(s.executed.len() as int)[k] == failed.executed[k]);
        }
    }
    assert forall|k: int| s.executed.len() <= k < end.executed.len() implies end.hooks[
        #[trigger] end.executed[k]].tolerant by {
        if k < failed.executed.len() {
            assert(end.executed.take(failed.executed.len() as int)[k] == end.executed[k]);
        }
    }
}

/// The tests are asked for only in a run without an error, and a run that
/// was told to stop never comes to ask for them.
pub proof fn lemma_tests_need_a_clean_run(s: RunView, event: EventKind, running: bool)
    requires
        consistent(s),
        !(s.cursor is Tests),
        after_event(s, event, running).cursor is Tests,
    ensures
        running,
        !after_event(s, event, running).has_error,
        !s.has_error,
{
    lemma_after_event(s, event, running);
    lemma_tests_follow_running(s, event, running);
}

proof fn lemma_enter_reaches_tests(s: RunView, phase: HookType, from: int, running: bool)
    requires
        enter_phase(s, phase, from, running).cursor is Tests,
    ensures
        running,
    decreases 3 - phase.rank(), 1int, s.hooks.len() - from,
{
    let i = next_eligible(s.hooks, phase, s.has_error, from);
    if 0 <= from && i < s.hooks.len() {
    } else {
        match phase {
            HookType::Connect => {
                if s.phase_failed && !running {
                } else {
                    lemma_enter_reaches_tests(
                        RunView { phase_failed: false, ..s },
                        HookType::VerifySystem,
                        0,
                        running,
                    );
                }
            },
            HookType::VerifySystem => {
                if s.phase_failed && !running {
                } else {
                    lemma_enter_reaches_tests(
                        RunView { phase_failed: false, ..s },
                        HookType::PrepareSystem,
                        0,
                        running,
                    );
                }
            },
            HookType::PrepareSystem => {},
            HookType::Finished => {},
        }
    }
}

proof fn lemma_tests_follow_running(s: RunView, event: EventKind, running: bool)
    requires
        !(s.cursor is Tests),
        after_event(s, event, running).cursor is Tests,
    ensures
        running,
{
    match (s.cursor, event) {
        (CursorView::Idle, EventKind::Loaded { result: Ok(_) }) => {
            lemma_enter_reaches_tests(s, HookType::Connect, 0, running);
        },
        (CursorView::Idle, EventKind::Loaded { result: Err(e) }) => {
            let failed = RunView {
                has_error: true,
                fallback: true,
                errors: s.errors.push(crate::code_run::run::load_error_message(e)),
                outcome: Some(Err("Failed to load feature tests"@)),
                ..s
            };
            lemma_enter_reaches_tests(failed, HookType::Finished, 0, running);
        },
        (CursorView::Hook { phase, index }, EventKind::HookFinished { result: Ok(_) }) => {
            lemma_enter_reaches_tests(s, phase, index + 1, running);
        },
        (CursorView::Hook { phase, index }, EventKind::HookFinished { result: Err(e) }) => {
            let failed = RunView {
                has_error: true,
                phase_failed: true,
                errors: s.errors.push(crate::code_run::run::hook_error_message(phase, e)),
                ..s
            };
            lemma_enter_reaches_tests(failed, phase, index + 1, running);
        },
        (CursorView::Cleanup { after_post: false }, EventKind::Terminated) => {
            lemma_enter_reaches_tests(
                RunView { phase_failed: false, ..s },
                HookType::Finished,
                0,
                running,
            );
        },
        _ => {},
    }
}

/// When a run is over, every hook of the last phase that tolerates errors
/// has been run, whatever failed before.
pub proof fn lemma_tolerant_reporting_hooks_always_run(
    hooks: Seq<HookMeta>,
    setup_only: bool,
    events: Seq<(EventKind, bool)>,
    j: int,
)
    requires
        replay(fresh_run(hooks, setup_only), events).cursor is Done,
        0 <= j < hooks.len(),
        hooks[j].phase == HookType::Finished,
        hooks[j].tolerant,
    ensures
        replay(fresh_run(hooks, setup_only), events).executed.contains(j),
{
    lemma_fresh_run_consistent(hooks, setup_only);
    lemma_replay_consistent(fresh_run(hooks, setup_only), events);
}

} // verus!

verus! {

/// How far a run has come: every step that the run waits for has its
/// place, from the loading of the feature tests to the end.
pub open spec fn progress(s: RunView) -> int {
    let n = s.hooks.len() as int;
    match s.cursor {
        CursorView::Idle => 0,
        CursorView::Hook { phase, index } => match phase {
            HookType::Connect => 1 + index,
            HookType::VerifySystem => 1 + (n + 1) + index,
            HookType::PrepareSystem => 1 + 2 * (n + 1) + index,
            HookType::Finished => 3 + 3 * (n + 1) + index,
        },
        CursorView::Tests => 1 + 3 * (n + 1),
        CursorView::Cleanup { after_post } => if after_post {
            3 + 4 * (n + 1)
        } else {
            2 + 3 * (n + 1)
        },
        CursorView::Done => 4 + 4 * (n + 1),
    }
}

/// The place of hook `from` of phase `phase`.
pub open spec fn place(s: RunView, phase: HookType, from: int) -> int {
    let n = s.hooks.len() as int;
    match phase {
        HookType::Connect => 1 + from,
        HookType::VerifySystem => 1 + (n + 1) + from,
        HookType::PrepareSystem => 1 + 2 * (n + 1) + from,
        HookType::Finished => 3 + 3 * (n + 1) + from,
    }
}

/// The event is the one that the run waits for.
pub open spec fn awaited(s: RunView, event: EventKind) -> bool {
    match (s.cursor, event) {
        (CursorView::Idle, EventKind::Loaded { .. }) => true,
        (CursorView::Hook { .. }, EventKind::HookFinished { .. }) => true,
        (CursorView::Tests, EventKind::TestsFinished { .. }) => true,
        (CursorView::Cleanup { .. }, EventKind::Terminated) => true,
        _ => false,
    }
}

proof fn lemma_enter_phase_goes_on(s: RunView, phase: HookType, from: int, running: bool)
    requires
        0 <= from <= s.hooks.len(),
    ensures
        progress(enter_phase(s, phase, from, running)) >= place(s, phase, from),
        enter_phase(s, phase, from, running).hooks == s.hooks,
    decreases 3 - phase.rank(), 1int, s.hooks.len() - from,
{
    let i = next_eligible(s.hooks, phase, s.has_error, from);
    lemma_next_eligible(s.hooks, phase, s.has_error, from);
    if i < s.hooks.len() {
    } else {
        match phase {
            HookType::Connect => {
                if s.phase_failed && !running {
                } else {
                    lemma_enter_phase_goes_on(
                        RunView { phase_failed: false, ..s },
                        HookType::VerifySystem,
                        0,
                        running,
                    );
                }
            },
            HookType::VerifySystem => {
                if s.phase_failed && !running {
                } else {
                    lemma_enter_phase_goes_on(
                        RunView { phase_failed: false, ..s },
                        HookType::PrepareSystem,
                        0,
                        running,
                    );
                }
            },
            HookType::PrepareSystem => {},
            HookType::Finished => {},
        }
    }
}

/// A run always goes on and comes to its end: every event that the run
/// waits for takes it further, and no run goes further than its end, which
/// lies four steps and four times the hooks from its start. So a run is
/// over after no more events than that.
pub proof fn lemma_run_goes_on(s: RunView, event: EventKind, running: bool)
    requires
        consistent(s),
        awaited(s, event),
    ensures
        progress(after_event(s, event, running)) > progress(s),
        progress(after_event(s, event, running)) <= 4 + 4 * (s.hooks.len() + 1),
        0 <= progress(s),
{
    lemma_after_event(s, event, running);
    let t = after_event(s, event, running);
    match (s.cursor, event) {
        (CursorView::Idle, EventKind::Loaded { result: Ok(_) }) => {
            lemma_enter_phase_goes_on(s, HookType::Connect, 0, running);
        },
        (CursorView::Idle, EventKind::Loaded { result: Err(e) }) => {
            let failed = RunView {
                has_error: true,
                fallback: true,
                errors: s.errors.push(crate::code_run::run::load_error_message(e)),
                outcome: Some(Err("Failed to load feature tests"@)),
                ..s
            };
            lemma_enter_phase_goes_on(failed, HookType::Finished, 0, running);
        },
        (CursorView::Hook { phase, index }, EventKind::HookFinished { result: Ok(_) }) => {
            lemma_enter_phase_goes_on(s, phase, index + 1, running);
        },
        (CursorView::Hook { phase, index }, EventKind::HookFinished { result: Err(e) }) => {
            let failed = RunView {
                has_error: true,
                phase_failed: true,
                errors: s.errors.push(crate::code_run::run::hook_error_message(phase, e)),
                ..s
            };
            lemma_enter_phase_goes_on(failed, phase, index + 1, running);
        },
        (CursorView::Cleanup { after_post: false }, EventKind::Terminated) => {
            lemma_enter_phase_goes_on(
                RunView { phase_failed: false, ..s },
                HookType::Finished,
                0,
                running,
            );
        },
        _ => {},
    }
    assert(t.hooks == s.hooks);
    match t.cursor {
        CursorView::Hook { phase, index } => {
            assert(index < t.hooks.len());
        },
        _ => {},
    }
}

} // verus!
