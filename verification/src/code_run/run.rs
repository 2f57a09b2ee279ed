//! The hook pipeline: which step of a run comes next.
//!
//! A run goes through `Connect`, `VerifySystem` and `PrepareSystem`, then the
//! tests, then `Finished`. The hooks of a phase run in the order of the list.
//! Once a hook has failed, only hooks that tolerate errors still run, and the
//! tests are skipped. Every step touches the outside world, so the caller
//! performs it: `CodeRun` says which step is next and takes back how it went.

use crate::code_run::order::{consistent, in_phase_order, lemma_after_event};
use crate::hooks::check_dependency::HookCheckDependency;
use crate::hooks::connect::HookConnect;
use crate::hooks::custom::HookCustom;
use crate::hooks::iface::{Hook, HookType};
use crate::hooks::results::HookResults;
use crate::hooks::setup_state::HookSetupState;
use crate::hooks::AnyHook;
use crate::models::app_state::{texts, AppState};
use crate::models::args::AppArgs;
use crate::models::config::{Config, WebhookType};
use crate::models::vars::Vars;
use vstd::prelude::*;
use vstd::string::*;

verus! {

/// Where a run stands: what it waits for.
#[derive(Clone, Copy, Debug, PartialEq, Eq)]
pub enum Cursor {
    /// For the feature tests to be loaded.
    Idle,
    /// For hook `index`, which runs in phase `phase`.
    Hook { phase: HookType, index: usize },
    /// For the tests.
    Tests,
    /// For the tracked processes to be terminated, before the last phase or
    /// after it.
    Cleanup { after_post: bool },
    /// For nothing: the run is over.
    Done,
}

/// What the caller does next.
#[derive(Debug, PartialEq, Eq)]
pub enum RunAction {
    /// Load the feature tests, then report `RunEvent::Loaded`.
    LoadFeatures,
    /// Run hook `index`, then report `RunEvent::HookFinished`.
    RunHook { index: usize },
    /// Run the tests, then report `RunEvent::TestsFinished`.
    RunTests,
    /// Terminate every tracked process, then report `RunEvent::Terminated`.
    TerminateAll,
    /// Stop: this is the result of the run.
    Finish { result: Result<(), String> },
}

/// What the caller reports back.
#[derive(Debug, PartialEq, Eq)]
pub enum RunEvent {
    Loaded { result: Result<(), String> },
    HookFinished { result: Result<(), String> },
    TestsFinished { result: Result<(), String> },
    Terminated,
}

/// What the pipeline reads of a hook.
pub struct HookMeta {
    pub phase: HookType,
    pub tolerant: bool,
}

/// The mathematical value of a cursor.
pub enum CursorView {
    Idle,
    Hook { phase: HookType, index: int },
    Tests,
    Cleanup { after_post: bool },
    Done,
}

/// The mathematical value of a run.
pub struct RunView {
    pub hooks: Seq<HookMeta>,
    /// The run stops after the system is prepared.
    pub setup_only: bool,
    pub cursor: CursorView,
    /// Some hook has failed, or the feature tests could not be loaded.
    pub has_error: bool,
    /// A hook of the phase that is running has failed.
    pub phase_failed: bool,
    /// The feature tests could not be loaded: only the last phase runs.
    pub fallback: bool,
    /// The hooks that were run, in the order in which they were run.
    pub executed: Seq<int>,
    /// The errors recorded in the results.
    pub errors: Seq<Seq<char>>,
    /// How the tests went, once that is known.
    pub outcome: Option<Result<(), Seq<char>>>,
}

/// What an event carries, as mathematics.
pub enum EventKind {
    Loaded { result: Result<(), Seq<char>> },
    HookFinished { result: Result<(), Seq<char>> },
    TestsFinished { result: Result<(), Seq<char>> },
    Terminated,
}

/// What an action asks for, as mathematics.
pub enum ActionView {
    LoadFeatures,
    RunHook { index: int },
    RunTests,
    TerminateAll,
    Finish { result: Result<(), Seq<char>> },
}

pub open spec fn result_view(r: Result<(), String>) -> Result<(), Seq<char>> {
    match r {
        Ok(_) => Ok(()),
        Err(e) => Err(e@),
    }
}

impl View for RunEvent {
    type V = EventKind;

    open spec fn view(&self) -> EventKind {
        match self {
            RunEvent::Loaded { result } => EventKind::Loaded { result: result_view(*result) },
            RunEvent::HookFinished { result } => EventKind::HookFinished {
                result: result_view(*result),
            },
            RunEvent::TestsFinished { result } => EventKind::TestsFinished {
                result: result_view(*result),
            },
            RunEvent::Terminated => EventKind::Terminated,
        }
    }
}

impl View for RunAction {
    type V = ActionView;

    open spec fn view(&self) -> ActionView {
        match self {
            RunAction::LoadFeatures => ActionView::LoadFeatures,
            RunAction::RunHook { index } => ActionView::RunHook { index: *index as int },
            RunAction::RunTests => ActionView::RunTests,
            RunAction::TerminateAll => ActionView::TerminateAll,
            RunAction::Finish { result } => ActionView::Finish { result: result_view(*result) },
        }
    }
}

impl View for Cursor {
    type V = CursorView;

    open spec fn view(&self) -> CursorView {
        match self {
            Cursor::Idle => CursorView::Idle,
            Cursor::Hook { phase, index } => CursorView::Hook {
                phase: *phase,
                index: *index as int,
            },
            Cursor::Tests => CursorView::Tests,
            Cursor::Cleanup { after_post } => CursorView::Cleanup { after_post: *after_post },
            Cursor::Done => CursorView::Done,
        }
    }
}

/// What the pipeline reads of each hook of a list.
pub open spec fn metas<H: Hook>(hooks: Seq<H>) -> Seq<HookMeta> {
    Seq::new(hooks.len(), |i: int| HookMeta { phase: hooks[i].phase(), tolerant: hooks[i].tolerant() })
}

/// Hook `i` runs in phase `phase` under the error flag `has_error`.
pub open spec fn eligible(hooks: Seq<HookMeta>, phase: HookType, has_error: bool, i: int) -> bool {
    hooks[i].phase == phase && (hooks[i].tolerant || !has_error)
}

/// The first hook at or after `from` that runs in phase `phase`, or the
/// length of the list when there is none.
pub open spec fn next_eligible(
    hooks: Seq<HookMeta>,
    phase: HookType,
    has_error: bool,
    from: int,
) -> int
    decreases hooks.len() - from,
{
    if from < 0 || from >= hooks.len() {
        hooks.len() as int
    } else if eligible(hooks, phase, has_error, from) {
        from
    } else {
        next_eligible(hooks, phase, has_error, from + 1)
    }
}

/// The error that is recorded when a hook of phase `phase` fails.
pub open spec fn hook_error_message(phase: HookType, error: Seq<char>) -> Seq<char> {
    if phase == HookType::Finished {
        "Post-hook "@ + phase.label() + " failed: "@ + error
    } else {
        "Pre-hook error "@ + phase.label() + " failed: "@ + error
    }
}

/// The error that is recorded when the feature tests cannot be loaded.
pub open spec fn load_error_message(error: Seq<char>) -> Seq<char> {
    "Failed to load feature tests: "@ + error
}

/// What the run waits for once the phases before the tests are over: the
/// tests, if nothing has failed and the run was not cancelled; else the
/// clean-up, with the tests counted as failed. A run that only prepares
/// the system counts the tests as passed without running them.
pub open spec fn to_tests(s: RunView, running: bool) -> RunView {
    if !s.has_error && running {
        if s.setup_only {
            RunView { cursor: CursorView::Cleanup { after_post: false }, outcome: Some(Ok(())), ..s }
        } else {
            RunView { cursor: CursorView::Tests, ..s }
        }
    } else {
        RunView {
            cursor: CursorView::Cleanup { after_post: false },
            outcome: Some(Err("Pre-hook failed"@)),
            ..s
        }
    }
}

/// What the run waits for once phase `phase` is over.
pub open spec fn leave_phase(s: RunView, phase: HookType, running: bool) -> RunView
    decreases 3 - phase.rank(), 0int,
{
    match phase {
        HookType::Connect => if s.phase_failed && !running {
            to_tests(s, running)
        } else {
            enter_phase(RunView { phase_failed: false, ..s }, HookType::VerifySystem, 0, running)
        },
        HookType::VerifySystem => if s.phase_failed && !running {
            to_tests(s, running)
        } else {
            enter_phase(RunView { phase_failed: false, ..s }, HookType::PrepareSystem, 0, running)
        },
        HookType::PrepareSystem => to_tests(s, running),
        HookType::Finished => if s.fallback {
            RunView { cursor: CursorView::Done, ..s }
        } else {
            RunView { cursor: CursorView::Cleanup { after_post: true }, ..s }
        },
    }
}

/// What the run waits for when phase `phase` goes on from hook `from`: the
/// next hook of the phase that may run, which is then counted as run, or
/// whatever follows the phase.
pub open spec fn enter_phase(s: RunView, phase: HookType, from: int, running: bool) -> RunView
    decreases 3 - phase.rank(), 1int, s.hooks.len() - from,
{
    let i = next_eligible(s.hooks, phase, s.has_error, from);
    if 0 <= from && i < s.hooks.len() {
        RunView { cursor: CursorView::Hook { phase, index: i }, executed: s.executed.push(i), ..s }
    } else {
        leave_phase(s, phase, running)
    }
}

/// The state after `event`, reported while the cancellation flag says
/// `running`. An event that the run does not wait for changes nothing.
pub open spec fn after_event(s: RunView, event: EventKind, running: bool) -> RunView {
    match (s.cursor, event) {
        (CursorView::Idle, EventKind::Loaded { result: Ok(_) }) => enter_phase(
            s,
            HookType::Connect,
            0,
            running,
        ),
        (CursorView::Idle, EventKind::Loaded { result: Err(e) }) => enter_phase(
            RunView {
                has_error: true,
                fallback: true,
                errors: s.errors.push(load_error_message(e)),
                outcome: Some(Err("Failed to load feature tests"@)),
                ..s
            },
            HookType::Finished,
            0,
            running,
        ),
        (CursorView::Hook { phase, index }, EventKind::HookFinished { result: Ok(_) }) => enter_phase(
            s,
            phase,
            index + 1,
            running,
        ),
        (CursorView::Hook { phase, index }, EventKind::HookFinished { result: Err(e) }) => enter_phase(
            RunView {
                has_error: true,
                phase_failed: true,
                errors: s.errors.push(hook_error_message(phase, e)),
                ..s
            },
            phase,
            index + 1,
            running,
        ),
        (CursorView::Tests, EventKind::TestsFinished { result }) => RunView {
            cursor: CursorView::Cleanup { after_post: false },
            outcome: Some(result),
            ..s
        },
        (CursorView::Cleanup { after_post: false }, EventKind::Terminated) => enter_phase(
            RunView { phase_failed: false, ..s },
            HookType::Finished,
            0,
            running,
        ),
        (CursorView::Cleanup { after_post: true }, EventKind::Terminated) => RunView {
            cursor: CursorView::Done,
            ..s
        },
        _ => s,
    }
}

/// What the caller is asked to do in state `s`.
pub open spec fn action_of(s: RunView) -> ActionView {
    match s.cursor {
        CursorView::Idle => ActionView::LoadFeatures,
        CursorView::Hook { index, .. } => ActionView::RunHook { index },
        CursorView::Tests => ActionView::RunTests,
        CursorView::Cleanup { .. } => ActionView::TerminateAll,
        CursorView::Done => ActionView::Finish {
            result: match s.outcome {
                Some(r) => r,
                None => Ok(()),
            },
        },
    }
}

/// The hooks of a configuration, in the order in which they are listed:
/// the three built-in ones, the user's, then one per results webhook.
pub open spec fn configured_hooks(config: Config) -> Seq<HookMeta> {
    seq![
        HookMeta { phase: HookType::VerifySystem, tolerant: true },
        HookMeta { phase: HookType::Connect, tolerant: false },
        HookMeta { phase: HookType::Connect, tolerant: false },
    ] + Seq::new(
        config.hooks@.len(),
        |i: int|
            HookMeta {
                phase: config.hooks@[i].hook_type,
                tolerant: config.hooks@[i].continue_on_error,
            },
    ) + Seq::new(
        config.webhooks@.len(),
        |i: int| HookMeta { phase: HookType::Finished, tolerant: true },
    )
}

/// Hook `i` of the list is the user's hook declared as `declared`.
pub open spec fn custom_at(
    hooks: Seq<AnyHook>,
    i: int,
    declared: crate::models::config::HookConfig,
) -> bool {
    &&& 0 <= i < hooks.len()
    &&& hooks[i] matches AnyHook::Custom(h)
    &&& h.config.same_as(&declared)
}

/// Hook `i` of the list reports to the webhook `declared`.
pub open spec fn results_at(
    hooks: Seq<AnyHook>,
    i: int,
    declared: crate::models::config::WebhookConfig,
) -> bool {
    &&& 0 <= i < hooks.len()
    &&& hooks[i] matches AnyHook::Results(h)
    &&& h.config == declared
}

/// The state of a run that has not begun.
pub open spec fn fresh_run(hooks: Seq<HookMeta>, setup_only: bool) -> RunView {
    RunView {
        hooks,
        setup_only,
        cursor: CursorView::Idle,
        has_error: false,
        phase_failed: false,
        fallback: false,
        executed: Seq::empty(),
        errors: Seq::empty(),
        outcome: None,
    }
}

/// Main controller of a run.
pub struct CodeRun {
    args: AppArgs,
    config: Config,
    vars: Vars,
    hooks: Vec<AnyHook>,
    state: AppState,
    cursor: Cursor,
    has_error: bool,
    phase_failed: bool,
    fallback: bool,
    executed: Vec<usize>,
    outcome: Option<Result<(), String>>,
}

pub open spec fn outcome_view(o: Option<Result<(), String>>) -> Option<Result<(), Seq<char>>> {
    match o {
        Some(r) => Some(result_view(r)),
        None => None,
    }
}

impl View for CodeRun {
    type V = RunView;

    closed spec fn view(&self) -> RunView {
        RunView {
            hooks: metas(self.hooks@),
            setup_only: self.args.setup_only(),
            cursor: self.cursor@,
            has_error: self.has_error,
            phase_failed: self.phase_failed,
            fallback: self.fallback,
            executed: self.executed@.map_values(|i: usize| i as int),
            errors: texts(self.state.results.error@),
            outcome: outcome_view(self.outcome),
        }
    }
}

impl CodeRun {
    /// A run that has not begun, over the hooks of `config`.
    pub fn new(args: AppArgs, config: Config, vars: Vars) -> (run: Self)
        ensures
            run@ == fresh_run(configured_hooks(config), args.setup_only()),
            consistent(run@),
            run.args() == args,
            run.config() == config,
            run.vars() == vars,
            metas(run.hook_list()) == configured_hooks(config),
            run.hook_list().len() == 3 + config.hooks@.len() + config.webhooks@.len(),
            run.hook_list()[0] is CheckDependency,
            run.hook_list()[1] is Connect,
            run.hook_list()[2] is SetupState,
            forall|k: int|
                0 <= k < config.hooks@.len() ==> custom_at(run.hook_list(), 3 + k, config.hooks@[k]),
            forall|k: int|
                0 <= k < config.webhooks@.len() ==> results_at(
                    run.hook_list(),
                    3 + config.hooks@.len() + k,
                    config.webhooks@[k],
                ),
            run.shared_state().remote is None,
            !run.shared_state().os_info.is_ostree,
            run.shared_state().root_dir@.len() == 0,
            run.shared_state().results.passed == 0,
            run.shared_state().results.failed == 0,
            run.shared_state().results.total == 0,
            run.shared_state().results.full_log@.len() == 0,
    {
        let hooks = Self::load_hooks(&config);
        let run = CodeRun {
            args,
            config,
            vars,
            hooks,
            state: AppState::new(),
            cursor: Cursor::Idle,
            has_error: false,
            phase_failed: false,
            fallback: false,
            executed: Vec::new(),
            outcome: None,
        };
        assert(run.executed@.map_values(|i: usize| i as int) =~= Seq::empty());
        assert(texts(run.state.results.error@) =~= Seq::empty());
        run
    }

    pub closed spec fn args(&self) -> AppArgs {
        self.args
    }

    pub closed spec fn config(&self) -> Config {
        self.config
    }

    pub closed spec fn vars(&self) -> Vars {
        self.vars
    }

    /// The hooks of the run, in the order in which they are listed.
    pub closed spec fn hook_list(&self) -> Seq<AnyHook> {
        self.hooks@
    }

    /// What the command line asked for.
    pub fn get_args(&self) -> (args: &AppArgs)
        ensures
            *args == self.args(),
    {
        &self.args
    }

    /// The project's configuration.
    pub fn get_config(&self) -> (config: &Config)
        ensures
            *config == self.config(),
    {
        &self.config
    }

    /// The project's variables.
    pub fn get_vars(&self) -> (vars: &Vars)
        ensures
            *vars == self.vars(),
    {
        &self.vars
    }

    /// The state that the hooks and the runner share.
    pub closed spec fn shared_state(&self) -> AppState {
        self.state
    }

    /// The state that the hooks and the runner share.
    pub fn state(&self) -> (state: &AppState)
        ensures
            *state == self.shared_state(),
    {
        &self.state
    }

    /// Puts `state` in the place of the shared state. The errors recorded
    /// in it become the errors of the run.
    pub fn set_state(&mut self, state: AppState)
        ensures
            final(self).shared_state() == state,
            consistent(old(self)@) ==> consistent(final(self)@),
            final(self)@ == (RunView { errors: texts(state.results.error@), ..old(self)@ }),
            final(self).args() == old(self).args(),
            final(self).config() == old(self).config(),
            final(self).vars() == old(self).vars(),
            final(self).hook_list() == old(self).hook_list(),
    {
        self.state = state;
    }

    /// The run taken apart for one step of it: what the step only reads,
    /// and the shared state, which the step changes in place. The errors
    /// that the step records in the state become the errors of the run.
    pub fn parts(&mut self) -> ((args, config, vars, hooks, state): (
        &AppArgs,
        &Config,
        &Vars,
        &Vec<AnyHook>,
        &mut AppState,
    ))
        ensures
            *args == old(self).args(),
            *config == old(self).config(),
            *vars == old(self).vars(),
            hooks@ == old(self).hook_list(),
            *state == old(self).shared_state(),
            final(self).shared_state() == *final(state),
            final(self)@ == (RunView {
                errors: texts(final(state).results.error@),
                ..old(self)@
            }),
            consistent(old(self)@) ==> consistent(final(self)@),
            final(self).args() == old(self).args(),
            final(self).config() == old(self).config(),
            final(self).vars() == old(self).vars(),
            final(self).hook_list() == old(self).hook_list(),
    {
        (&self.args, &self.config, &self.vars, &self.hooks, &mut self.state)
    }

    /// The hooks of a configuration: the built-in ones first, then the
    /// user's in the order in which they are declared, then one per results
    /// webhook.
    pub fn load_hooks(config: &Config) -> (hooks: Vec<AnyHook>)
        ensures
            metas(hooks@) == configured_hooks(*config),
            hooks@.len() == 3 + config.hooks@.len() + config.webhooks@.len(),
            hooks@[0] is CheckDependency,
            hooks@[1] is Connect,
            hooks@[2] is SetupState,
            forall|k: int|
                0 <= k < config.hooks@.len() ==> custom_at(hooks@, 3 + k, config.hooks@[k]),
            forall|k: int|
                0 <= k < config.webhooks@.len() ==> results_at(
                    hooks@,
                    3 + config.hooks@.len() + k,
                    config.webhooks@[k],
                ),
    {
        let mut hooks: Vec<AnyHook> = Vec::new();
        hooks.push(AnyHook::CheckDependency(HookCheckDependency::new()));
        hooks.push(AnyHook::Connect(HookConnect::new()));
        hooks.push(AnyHook::SetupState(HookSetupState::new()));
        let ghost built_in = metas(hooks@);
        assert(built_in =~= seq![
            HookMeta { phase: HookType::VerifySystem, tolerant: true },
            HookMeta { phase: HookType::Connect, tolerant: false },
            HookMeta { phase: HookType::Connect, tolerant: false },
        ]);
        let mut i: usize = 0;
        while i < config.hooks.len()
            invariant
                i <= config.hooks.len(),
                hooks@.len() == 3 + i,
                hooks@[0] is CheckDependency,
                hooks@[1] is Connect,
                hooks@[2] is SetupState,
                forall|k: int| 0 <= k < i ==> custom_at(hooks@, 3 + k, config.hooks@[k]),
                metas(hooks@) == built_in + Seq::new(
                    i as nat,
                    |k: int|
                        HookMeta {
                            phase: config.hooks@[k].hook_type,
                            tolerant: config.hooks@[k].continue_on_error,
                        },
                ),
            decreases config.hooks.len() - i,
        {
            let ghost before = metas(hooks@);
            let declared = &config.hooks[i];
            let copy = declared.duplicate();
            hooks.push(AnyHook::Custom(HookCustom::new(copy)));
            assert(metas(hooks@) =~= before.push(
                HookMeta { phase: declared.hook_type, tolerant: declared.continue_on_error },
            ));
            assert(metas(hooks@) =~= built_in + Seq::new(
                (i + 1) as nat,
                |k: int|
                    HookMeta {
                        phase: config.hooks@[k].hook_type,
                        tolerant: config.hooks@[k].continue_on_error,
                    },
            ));
            i += 1;
        }
        let ghost declared_all = metas(hooks@);
        let mut j: usize = 0;
        while j < config.webhooks.len()
            invariant
                j <= config.webhooks.len(),
                hooks@.len() == 3 + config.hooks@.len() + j,
                hooks@[0] is CheckDependency,
                hooks@[1] is Connect,
                hooks@[2] is SetupState,
                forall|k: int|
                    0 <= k < config.hooks@.len() ==> custom_at(hooks@, 3 + k, config.hooks@[k]),
                forall|k: int|
                    0 <= k < j ==> results_at(
                        hooks@,
                        3 + config.hooks@.len() + k,
                        config.webhooks@[k],
                    ),
                metas(hooks@) == declared_all + Seq::new(
                    j as nat,
                    |k: int| HookMeta { phase: HookType::Finished, tolerant: true },
                ),
            decreases config.webhooks.len() - j,
        {
            let ghost before = metas(hooks@);
            let webhook = &config.webhooks[j];
            match webhook.webhook_type {
                WebhookType::Results => {
                    let copy = webhook.duplicate();
                    hooks.push(AnyHook::Results(HookResults::new(copy)));
                },
            }
            assert(metas(hooks@) =~= before.push(
                HookMeta { phase: HookType::Finished, tolerant: true },
            ));
            assert(metas(hooks@) =~= declared_all + Seq::new(
                (j + 1) as nat,
                |k: int| HookMeta { phase: HookType::Finished, tolerant: true },
            ));
            j += 1;
        }
        hooks
    }

    /// The hooks of the run, in the order in which they are listed.
    pub fn hooks(&self) -> (hooks: &Vec<AnyHook>)
        ensures
            hooks@ == self.hook_list(),
            metas(hooks@) == self@.hooks,
    {
        &self.hooks
    }

    /// The hooks that were run so far, in the order in which they were run.
    pub fn executed(&self) -> (list: &Vec<usize>)
        ensures
            list@.map_values(|i: usize| i as int) == self@.executed,
    {
        &self.executed
    }

    /// Whether a hook has failed or the feature tests could not be loaded.
    pub fn has_error(&self) -> (b: bool)
        ensures
            b == self@.has_error,
    {
        self.has_error
    }

    /// What the run waits for.
    pub fn cursor(&self) -> (c: Cursor)
        ensures
            c@ == self@.cursor,
    {
        self.cursor
    }

    /// What the caller is asked to do now.
    pub fn pending(&self) -> (action: RunAction)
        ensures
            action@ == action_of(self@),
    {
        match self.cursor {
            Cursor::Idle => RunAction::LoadFeatures,
            Cursor::Hook { phase, index } => RunAction::RunHook { index },
            Cursor::Tests => RunAction::RunTests,
            Cursor::Cleanup { after_post } => RunAction::TerminateAll,
            Cursor::Done => RunAction::Finish {
                result: match &self.outcome {
                    Some(Ok(_)) => Ok(()),
                    Some(Err(e)) => Err(e.clone()),
                    None => Ok(()),
                },
            },
        }
    }

    /// The first hook at or after `from` that runs in phase `hook_type`
    /// under the error flag `has_error`, or the number of hooks when there is
    /// none.
    pub fn run_hooks_of_type(&self, hook_type: HookType, from: usize, has_error: bool) -> (i: usize)
        ensures
            i == next_eligible(self@.hooks, hook_type, has_error, from as int),
            i <= self@.hooks.len(),
    {
        let mut i: usize = from;
        while i < self.hooks.len()
            invariant
                from <= i,
                next_eligible(self@.hooks, hook_type, has_error, from as int) == next_eligible(
                    self@.hooks,
                    hook_type,
                    has_error,
                    i as int,
                ),
            decreases self.hooks.len() - i,
        {
            let hook = &self.hooks[i];
            if hook.get_type() == hook_type && (hook.continue_on_error() || !has_error) {
                return i;
            }
            i += 1;
        }
        self.hooks.len()
    }

    /// Decides what follows the phases before the tests.
    fn run_tests(&mut self, running: bool)
        ensures
            final(self)@ == to_tests(old(self)@, running),
            final(self).args == old(self).args,
            final(self).config == old(self).config,
            final(self).vars == old(self).vars,
            final(self).hooks == old(self).hooks,
            final(self).state == old(self).state,
    {
        if !self.has_error && running {
            if self.args.is_setup_only() {
                self.outcome = Some(Ok(()));
                self.cursor = Cursor::Cleanup { after_post: false };
            } else {
                self.cursor = Cursor::Tests;
            }
        } else {
            self.outcome = Some(Err(String::from_str("Pre-hook failed")));
            self.cursor = Cursor::Cleanup { after_post: false };
        }
    }

    fn leave(&mut self, phase: HookType, running: bool)
        ensures
            final(self)@ == leave_phase(old(self)@, phase, running),
            final(self).args == old(self).args,
            final(self).config == old(self).config,
            final(self).vars == old(self).vars,
            final(self).hooks == old(self).hooks,
            final(self).state == old(self).state,
        decreases 3 - phase.rank(), 0int,
    {
        match phase {
            HookType::Connect => {
                if self.phase_failed && !running {
                    self.run_tests(running);
                } else {
                    self.phase_failed = false;
                    self.enter(HookType::VerifySystem, 0, running);
                }
            },
            HookType::VerifySystem => {
                if self.phase_failed && !running {
                    self.run_tests(running);
                } else {
                    self.phase_failed = false;
                    self.enter(HookType::PrepareSystem, 0, running);
                }
            },
            HookType::PrepareSystem => {
                self.run_tests(running);
            },
            HookType::Finished => {
                if self.fallback {
                    self.cursor = Cursor::Done;
                } else {
                    self.cursor = Cursor::Cleanup { after_post: true };
                }
            },
        }
    }

    fn enter(&mut self, phase: HookType, from: usize, running: bool)
        ensures
            final(self)@ == enter_phase(old(self)@, phase, from as int, running),
            final(self).args == old(self).args,
            final(self).config == old(self).config,
            final(self).vars == old(self).vars,
            final(self).hooks == old(self).hooks,
            final(self).state == old(self).state,
        decreases 3 - phase.rank(), 1int, old(self).hooks@.len() - from,
    {
        let i: usize = self.run_hooks_of_type(phase, from, self.has_error);
        if i < self.hooks.len() {
            let ghost before = self.executed@;
            self.cursor = Cursor::Hook { phase, index: i };
            self.executed.push(i);
            assert(self.executed@.map_values(|k: usize| k as int) =~= before.map_values(
                |k: usize| k as int,
            ).push(i as int));
        } else {
            self.leave(phase, running);
        }
    }

    fn record_error(&mut self, message: String)
        ensures
            final(self)@ == (RunView { errors: old(self)@.errors.push(message@), ..old(self)@ }),
            final(self).args == old(self).args,
            final(self).config == old(self).config,
            final(self).vars == old(self).vars,
            final(self).hooks == old(self).hooks,
            final(self).state.remote == old(self).state.remote,
            final(self).state.os_info == old(self).state.os_info,
            final(self).state.sudo_password == old(self).state.sudo_password,
            final(self).state.root_dir == old(self).state.root_dir,
            final(self).state.results.passed == old(self).state.results.passed,
            final(self).state.results.failed == old(self).state.results.failed,
            final(self).state.results.total == old(self).state.results.total,
            final(self).state.results.start_time == old(self).state.results.start_time,
            final(self).state.results.end_time == old(self).state.results.end_time,
            final(self).state.results.full_log == old(self).state.results.full_log,
    {
        self.state.add_results_error(message);
    }

    /// Takes `event` in and says what the caller does next.
    ///
    /// `running` is the cancellation flag at the time of the call: `false`
    /// once the run was told to stop. An event that the run does not wait
    /// for changes nothing, and the pending step is asked for again.
    pub fn execute(&mut self, event: RunEvent, running: bool) -> (action: RunAction)
        ensures
            final(self)@ == after_event(old(self)@, event@, running),
            action@ == action_of(final(self)@),
            final(self).args() == old(self).args(),
            final(self).config() == old(self).config(),
            final(self).vars() == old(self).vars(),
            final(self).hook_list() == old(self).hook_list(),
            final(self).shared_state().remote == old(self).shared_state().remote,
            final(self).shared_state().os_info == old(self).shared_state().os_info,
            final(self).shared_state().sudo_password == old(self).shared_state().sudo_password,
            final(self).shared_state().root_dir == old(self).shared_state().root_dir,
            final(self).shared_state().results.passed == old(self).shared_state().results.passed,
            final(self).shared_state().results.failed == old(self).shared_state().results.failed,
            final(self).shared_state().results.total == old(self).shared_state().results.total,
            final(self).shared_state().results.start_time == old(self).shared_state().results.start_time,
            final(self).shared_state().results.end_time == old(self).shared_state().results.end_time,
            final(self).shared_state().results.full_log == old(self).shared_state().results.full_log,
            texts(final(self).shared_state().results.error@) == final(self)@.errors,
            consistent(old(self)@) ==> consistent(final(self)@) && in_phase_order(
                final(self)@.hooks,
                final(self)@.executed,
            ),
    {
        proof {
            if consistent(self@) {
                lemma_after_event(self@, event@, running);
            }
        }
        match self.cursor {
            Cursor::Idle => match event {
                RunEvent::Loaded { result } => match result {
                    Ok(_) => {
                        self.enter(HookType::Connect, 0, running);
                    },
                    Err(e) => {
                        let mut message = String::from_str("Failed to load feature tests: ");
                        message.append(e.as_str());
                        self.record_error(message);
                        self.has_error = true;
                        self.fallback = true;
                        self.outcome = Some(Err(String::from_str("Failed to load feature tests")));
                        self.enter(HookType::Finished, 0, running);
                    },
                },
                _ => {},
            },
            Cursor::Hook { phase, index } => match event {
                RunEvent::HookFinished { result } => match result {
                    Ok(_) => {
                        if index < usize::MAX {
                            self.enter(phase, index + 1, running);
                        } else {
                            let n: usize = self.hooks.len();
                            proof {
                                let hooks = self@.hooks;
                                assert(hooks.len() == n);
                                assert(index + 1 >= hooks.len());
                                assert(next_eligible(hooks, phase, self@.has_error, index + 1)
                                    == hooks.len());
                            }
                            self.leave(phase, running);
                        }
                    },
                    Err(e) => {
                        let mut message = match phase {
                            HookType::Finished => String::from_str("Post-hook "),
                            _ => String::from_str("Pre-hook error "),
                        };
                        message.append(phase.name());
                        message.append(" failed: ");
                        message.append(e.as_str());
                        self.record_error(message);
                        self.has_error = true;
                        self.phase_failed = true;
                        if index < usize::MAX {
                            self.enter(phase, index + 1, running);
                        } else {
                            let n: usize = self.hooks.len();
                            proof {
                                let hooks = self@.hooks;
                                assert(hooks.len() == n);
                                assert(index + 1 >= hooks.len());
                                assert(next_eligible(hooks, phase, self@.has_error, index + 1)
                                    == hooks.len());
                            }
                            self.leave(phase, running);
                        }
                    },
                },
                _ => {},
            },
            Cursor::Tests => match event {
                RunEvent::TestsFinished { result } => {
                    self.outcome = Some(result);
                    self.cursor = Cursor::Cleanup { after_post: false };
                },
                _ => {},
            },
            Cursor::Cleanup { after_post } => match event {
                RunEvent::Terminated => {
                    if after_post {
                        self.cursor = Cursor::Done;
                    } else {
                        self.phase_failed = false;
                        self.enter(HookType::Finished, 0, running);
                    }
                },
                _ => {},
            },
            Cursor::Done => {},
        }
        self.pending()
    }
}

} // verus!
