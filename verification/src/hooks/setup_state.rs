//! The hook that finds out where and on what the tests run.

use crate::hooks::iface::{Hook, HookType};
use crate::linux::utils::installer::common::BashrcEdit;
use crate::models::app_state::{AppState, CommandOutput};
use crate::text::{chars_to_string, to_chars, trim, trim_chars};
use crate::utils::dir::{joined, DirUtils};
use crate::utils::os::OsUtils;
use vstd::prelude::*;
use vstd::string::*;

verus! {

/// The command that makes sure that the working directory `root_dir` and
/// the start-up file in it exist.
pub open spec fn bashrc_command(root_dir: Seq<char>) -> Seq<char> {
    "mkdir -p "@ + root_dir + " && touch "@ + joined(root_dir, ".bashrc"@)
}

/// Fills the shared state: the kind of system and the working directory.
#[derive(Clone, Copy, Debug, PartialEq, Eq)]
pub struct HookSetupState {}

impl HookSetupState {
    pub fn new() -> (hook: Self)
        ensures
            hook.phase() == HookType::Connect,
            !hook.tolerant(),
    {
        HookSetupState {  }
    }

    /// The home directory on the remote host, from what `pwd` printed
    /// there.
    pub fn remote_home(&self, printed: &CommandOutput) -> (home: String)
        ensures
            home@ == trim(printed.stdout@),
    {
        let chars = to_chars(printed.stdout.as_str());
        let trimmed = trim_chars(&chars);
        chars_to_string(&trimmed)
    }

    /// Sets the working directory of the run: `playmaster` below the home
    /// directory `home` of the machine under test.
    pub fn set_root_dir(&self, state: &mut AppState, home: &str)
        ensures
            final(state).root_dir@ == joined(home@, "playmaster"@),
            final(state).remote == old(state).remote,
            final(state).os_info == old(state).os_info,
            final(state).sudo_password == old(state).sudo_password,
            final(state).results == old(state).results,
    {
        state.set_root_dir(DirUtils::root_dir(home));
    }

    /// The command that makes sure that the working directory and the
    /// start-up file in it exist.
    pub fn create_bashrc_if_not_existing(&self, state: &AppState) -> (command: String)
        ensures
            command@ == bashrc_command(state.root_dir@),
    {
        let file_path = DirUtils::join(state.root_dir.as_str(), ".bashrc");
        let mut command = String::from_str("mkdir -p ");
        command.append(state.root_dir.as_str());
        command.append(" && touch ");
        command.append(file_path.as_str());
        command
    }

    /// How the display `display` is made known to every shell on the
    /// machine under test.
    pub fn add_display_to_bashrc(&self, state: &AppState, display: &str) -> (edit: BashrcEdit)
        ensures
            edit.adds("export DISPLAY="@ + display@, state.remote is Some, state.root_dir@),
    {
        let mut line = String::from_str("export DISPLAY=");
        line.append(display);
        OsUtils::add_line_to_bashrc(line.as_str(), state.is_remote(), state.root_dir.as_str())
    }
}

impl Hook for HookSetupState {
    open spec fn phase(&self) -> HookType {
        HookType::Connect
    }

    open spec fn tolerant(&self) -> bool {
        false
    }

    fn get_type(&self) -> (t: HookType) {
        HookType::Connect
    }

    fn continue_on_error(&self) -> (b: bool) {
        false
    }
}

} // verus!
