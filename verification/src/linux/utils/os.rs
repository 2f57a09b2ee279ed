//! What depends on the operating system, on Linux.

use crate::linux::utils::installer::common::{
    add_bin_to_path, add_line_to_bashrc, install_plan, path_line, BashrcEdit,
    Installer,
};
use crate::models::app_state::{AppState, CommandOutput};
use crate::text::{same_chars, to_chars, trim, trim_chars};
use crate::utils::command::CommandCheck;
use crate::utils::os::{FileMode, InstallType};
use vstd::prelude::*;
use vstd::string::*;

verus! {

/// The file whose presence marks an image-based system.
pub const OSTREE_MARK: &'static str = "/run/ostree-booted";

/// The command that looks for the mark on a remote host.
pub const OSTREE_PROBE: &'static str = "test -e /run/ostree-booted && echo true || echo false";

pub struct OsUtils;

impl OsUtils {
    /// Notes whether the system under test is image-based. What was found
    /// before is kept.
    pub fn setup_state(state: &mut AppState, is_ostree: bool)
        ensures
            final(state).os_info.is_ostree == (old(state).os_info.is_ostree || is_ostree),
            final(state).remote == old(state).remote,
            final(state).sudo_password == old(state).sudo_password,
            final(state).root_dir == old(state).root_dir,
            final(state).results == old(state).results,
    {
        state.note_ostree(is_ostree);
    }

    /// Whether the remote host is image-based, from what the probe
    /// printed: `true`, with or without white space round it.
    pub fn is_fedora_silverblue(probe: &CommandOutput) -> (b: bool)
        ensures
            b == (trim(probe.stdout@) == "true"@),
    {
        let printed = to_chars(probe.stdout.as_str());
        let trimmed = trim_chars(&printed);
        let yes = to_chars("true");
        same_chars(&trimmed, &yes)
    }

    /// The permissions of a script that was written: everyone may read and
    /// run it, the owner may write it.
    pub fn set_file_permissions(file_path: &str) -> (r: FileMode)
        ensures
            r.path@ == file_path@,
            r.mode == 0o755,
    {
        FileMode { path: String::from_str(file_path), mode: 0o755 }
    }

    /// The commands that install `package`, a file or a package, on the
    /// system that `state` describes.
    pub fn install_package(install_type: InstallType, state: &AppState, package: &str) -> (r: Result<
        Vec<CommandCheck>,
        String,
    >)
        ensures
            install_plan(install_type, *state, package@, r),
    {
        let installer = <dyn Installer>::from_type(install_type);
        installer.run(state, package)
    }

    /// How the directory `path` is put on the search path.
    pub fn add_bin(path: &str, remote: bool, root_dir: &str) -> (edit: BashrcEdit)
        ensures
            edit.adds(path_line(path@), remote, root_dir@),
    {
        add_bin_to_path(path, remote, root_dir)
    }

    /// How `line` is put into the shell's start-up file.
    pub fn add_line_to_bashrc(line: &str, remote: bool, root_dir: &str) -> (edit: BashrcEdit)
        ensures
            edit.adds(line@, remote, root_dir@),
    {
        add_line_to_bashrc(line, remote, root_dir)
    }

    /// The display on which the application shows: the one that the
    /// environment names, or `:0`.
    pub fn get_display(from_env: Option<String>) -> (display: String)
        ensures
            display@ == (match from_env {
                Some(d) => d@,
                None => ":0"@,
            }),
    {
        match from_env {
            Some(d) => d,
            None => String::from_str(":0"),
        }
    }
}

} // verus!
