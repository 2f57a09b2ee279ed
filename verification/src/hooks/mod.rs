//! The units of work that run before and after the tests.

pub mod check_dependency;
pub mod connect;
pub mod custom;
pub mod iface;
pub mod results;
pub mod setup_state;

use crate::hooks::check_dependency::HookCheckDependency;
use crate::hooks::connect::HookConnect;
use crate::hooks::custom::HookCustom;
use crate::hooks::iface::{Hook, HookType};
use crate::hooks::results::HookResults;
use crate::hooks::setup_state::HookSetupState;
use vstd::prelude::*;

verus! {

/// Any of the hooks that a run can hold.
#[derive(Clone, Debug, PartialEq, Eq)]
pub enum AnyHook {
    CheckDependency(HookCheckDependency),
    Connect(HookConnect),
    SetupState(HookSetupState),
    Custom(HookCustom),
    Results(HookResults),
}

impl Hook for AnyHook {
    open spec fn phase(&self) -> HookType {
        match self {
            AnyHook::CheckDependency(h) => h.phase(),
            AnyHook::Connect(h) => h.phase(),
            AnyHook::SetupState(h) => h.phase(),
            AnyHook::Custom(h) => h.phase(),
            AnyHook::Results(h) => h.phase(),
        }
    }

    open spec fn tolerant(&self) -> bool {
        match self {
            AnyHook::CheckDependency(h) => h.tolerant(),
            AnyHook::Connect(h) => h.tolerant(),
            AnyHook::SetupState(h) => h.tolerant(),
            AnyHook::Custom(h) => h.tolerant(),
            AnyHook::Results(h) => h.tolerant(),
        }
    }

    fn get_type(&self) -> (t: HookType) {
        match self {
            AnyHook::CheckDependency(h) => h.get_type(),
            AnyHook::Connect(h) => h.get_type(),
            AnyHook::SetupState(h) => h.get_type(),
            AnyHook::Custom(h) => h.get_type(),
            AnyHook::Results(h) => h.get_type(),
        }
    }

    fn continue_on_error(&self) -> (b: bool) {
        match self {
            AnyHook::CheckDependency(h) => h.continue_on_error(),
            AnyHook::Connect(h) => h.continue_on_error(),
            AnyHook::SetupState(h) => h.continue_on_error(),
            AnyHook::Custom(h) => h.continue_on_error(),
            AnyHook::Results(h) => h.continue_on_error(),
        }
    }
}

} // verus!
