//! The phases of a run and what every hook has in common.

use crate::models::app_state::{AppState, RemoteInfo};
use crate::models::args::AppArgs;
use crate::models::config::Config;
use crate::models::vars::Vars;
use vstd::prelude::*;

verus! {

/// The phases of a run.
///
/// `Connect`: reach the machine under test. `VerifySystem`: check what the
/// tests need. `PrepareSystem`: set the machine up. `Finished`: report.
#[derive(Clone, Copy, Debug, PartialEq, Eq, Structural)]
pub enum HookType {
    Connect,
    VerifySystem,
    PrepareSystem,
    Finished,
}

impl HookType {
    /// The place of the phase in a run.
    pub open spec fn rank(self) -> nat {
        match self {
            HookType::Connect => 0,
            HookType::VerifySystem => 1,
            HookType::PrepareSystem => 2,
            HookType::Finished => 3,
        }
    }

    /// The phases that come before the tests, in order.
    pub open spec fn pre_phases() -> Seq<HookType> {
        seq![HookType::Connect, HookType::VerifySystem, HookType::PrepareSystem]
    }

    /// The phases that come after the tests, in order.
    pub open spec fn post_phases() -> Seq<HookType> {
        seq![HookType::Finished]
    }

    /// The phases that come before the tests, in the order in which they run.
    pub fn pre_hooks() -> (phases: Vec<HookType>)
        ensures
            phases@ == Self::pre_phases(),
    {
        let mut phases: Vec<HookType> = Vec::new();
        phases.push(HookType::Connect);
        phases.push(HookType::VerifySystem);
        phases.push(HookType::PrepareSystem);
        assert(phases@ =~= Self::pre_phases());
        phases
    }

    /// The phases that come after the tests, in the order in which they run.
    pub fn post_hooks() -> (phases: Vec<HookType>)
        ensures
            phases@ == Self::post_phases(),
    {
        let mut phases: Vec<HookType> = Vec::new();
        phases.push(HookType::Finished);
        assert(phases@ =~= Self::post_phases());
        phases
    }

    /// The name of the phase, as it stands in messages.
    pub open spec fn label(self) -> Seq<char> {
        match self {
            HookType::Connect => "Connect"@,
            HookType::VerifySystem => "VerifySystem"@,
            HookType::PrepareSystem => "PrepareSystem"@,
            HookType::Finished => "Finished"@,
        }
    }

    /// The name of the phase, as it stands in messages.
    pub fn name(self) -> (r: &'static str)
        ensures
            r@ == self.label(),
    {
        match self {
            HookType::Connect => "Connect",
            HookType::VerifySystem => "VerifySystem",
            HookType::PrepareSystem => "PrepareSystem",
            HookType::Finished => "Finished",
        }
    }
}

/// What every hook says of itself. Running a hook is the caller's business:
/// it touches the outside world.
pub trait Hook {
    /// The phase in which the hook runs.
    spec fn phase(&self) -> HookType;

    /// The hook also runs after an earlier failure.
    spec fn tolerant(&self) -> bool;

    /// The phase in which the hook runs.
    fn get_type(&self) -> (t: HookType)
        ensures
            t == self.phase(),
    ;

    /// Whether the hook also runs after an earlier failure.
    fn continue_on_error(&self) -> (b: bool)
        ensures
            b == self.tolerant(),
    ;
}

/// The indices in `0..n` whose hook runs in phase `phase`, in order.
pub open spec fn indices_of_type<H: Hook>(hooks: Seq<H>, phase: HookType, n: int) -> Seq<int>
    decreases n,
{
    if n <= 0 {
        Seq::empty()
    } else if hooks[n - 1].phase() == phase {
        indices_of_type(hooks, phase, n - 1).push(n - 1)
    } else {
        indices_of_type(hooks, phase, n - 1)
    }
}

/// Selecting the hooks of one phase from a list.
pub trait HookListExt {
    /// The indices that `hooks_of_type` returns.
    spec fn selected(&self, hook_type: HookType) -> Seq<int>;

    /// The places in the list of the hooks that run in phase `hook_type`, in
    /// the order of the list.
    fn hooks_of_type(&self, hook_type: HookType) -> (found: Vec<usize>)
        ensures
            found@.map_values(|i: usize| i as int) == self.selected(hook_type),
    ;
}

impl<H: Hook> HookListExt for Vec<H> {
    open spec fn selected(&self, hook_type: HookType) -> Seq<int> {
        indices_of_type(self@, hook_type, self@.len() as int)
    }

    fn hooks_of_type(&self, hook_type: HookType) -> (found: Vec<usize>) {
        let mut found: Vec<usize> = Vec::new();
        let mut i: usize = 0;
        while i < self.len()
            invariant
                i <= self.len(),
                found@.map_values(|k: usize| k as int) == indices_of_type(
                    self@,
                    hook_type,
                    i as int,
                ),
            decreases self.len() - i,
        {
            let ghost before = found@;
            if self[i].get_type() == hook_type {
                found.push(i);
                assert(found@.map_values(|k: usize| k as int) =~= before.map_values(
                    |k: usize| k as int,
                ).push(i as int));
            }
            i += 1;
        }
        found
    }
}

/// What a hook is given when it runs: the command line, the configuration,
/// the variables and the shared state.
pub struct HookContext<'a, State> {
    pub args: &'a AppArgs,
    pub config: &'a Config,
    pub vars: &'a Vars,
    pub state: State,
}

impl<'a, State> HookContext<'a, State> {
    /// The shared state, for reading.
    pub fn read_state(&self) -> (state: &State)
        ensures
            *state == self.state,
    {
        &self.state
    }
}

impl<'a> HookContext<'a, AppState> {
    /// Stores how to reach the remote host.
    pub fn initiate_remote(&mut self, remote: RemoteInfo)
        ensures
            final(self).state == (AppState { remote: Some(remote), ..old(self).state }),
            final(self).args == old(self).args,
            final(self).config == old(self).config,
            final(self).vars == old(self).vars,
    {
        self.state.initiate_remote(remote);
    }
}

} // verus!
