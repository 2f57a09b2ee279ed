//! What depends on the operating system.

use crate::linux::utils::installer::common::{
    install_plan, path_line, BashrcEdit, Installer,
};
use crate::models::app_state::AppState;
use crate::text::{chars_to_string, to_chars, trim, trim_chars};
use crate::utils::command::CommandCheck;
use vstd::prelude::*;
use vstd::string::*;

verus! {

/// What is installed: a file that was fetched, or a package by name.
#[derive(Clone, Copy, Debug, PartialEq, Eq, Structural)]
pub enum InstallType {
    File,
    Package,
}

/// The beginning of every script that is written for a hook.
pub open spec fn script_header() -> Seq<char> {
    "#!/usr/bin/env bash\nset -Eeuo pipefail\n# Uncomment for debug tracing\n# set -x\n\n"@
}

/// A file and the permissions that it gets.
#[derive(Clone, Debug, PartialEq, Eq)]
pub struct FileMode {
    pub path: String,
    pub mode: u32,
}

pub struct OsUtils {}

impl OsUtils {
    /// Notes whether the system under test is image-based. What was found
    /// before is kept.
    pub fn setup_state(state: &mut AppState, is_ostree: bool)
        ensures
            final(state).os_info.is_ostree == (old(state).os_info.is_ostree || is_ostree),
            final(state).remote == old(state).remote,
            final(state).sudo_password == old(state).sudo_password,
            final(state).root_dir == old(state).root_dir,
            final(state).results == old(state).results,
    {
        crate::linux::utils::os::OsUtils::setup_state(state, is_ostree);
    }

    /// The commands that install `arg`, a file or a package, on the system
    /// that `state` describes.
    pub fn install(install_type: InstallType, state: &AppState, arg: &str) -> (r: Result<
        Vec<CommandCheck>,
        String,
    >)
        ensures
            install_plan(install_type, *state, arg@, r),
    {
        crate::linux::utils::os::OsUtils::install_package(install_type, state, arg)
    }

    /// The permissions of a script that was written: everyone may read and
    /// run it, the owner may write it.
    pub fn set_file_permissions(file_path: &str) -> (r: FileMode)
        ensures
            r.path@ == file_path@,
            r.mode == 0o755,
    {
        crate::linux::utils::os::OsUtils::set_file_permissions(file_path)
    }

    /// How the directory `path` is put on the search path.
    pub fn add_bin(path: &str, remote: bool, root_dir: &str) -> (edit: BashrcEdit)
        ensures
            edit.adds(path_line(path@), remote, root_dir@),
    {
        crate::linux::utils::os::OsUtils::add_bin(path, remote, root_dir)
    }

    /// The display on which the application shows: the one that the
    /// environment names, or `:0`.
    pub fn get_display(from_env: Option<String>) -> (display: String)
        ensures
            display@ == (match from_env {
                Some(d) => d@,
                None => ":0"@,
            }),
    {
        crate::linux::utils::os::OsUtils::get_display(from_env)
    }

    /// How `line` is put into the shell's start-up file.
    pub fn add_line_to_bashrc(line: &str, remote: bool, root_dir: &str) -> (edit: BashrcEdit)
        ensures
            edit.adds(line@, remote, root_dir@),
    {
        crate::linux::utils::os::OsUtils::add_line_to_bashrc(line, remote, root_dir)
    }

    /// The architecture of the machine, from what `uname -m` printed, or
    /// `x86_64` when that is not known.
    pub fn detect_arch(printed: Option<String>) -> (arch: String)
        ensures
            arch@ == (match printed {
                Some(p) => trim(p@),
                None => "x86_64"@,
            }),
    {
        match printed {
            Some(p) => {
                let chars = to_chars(p.as_str());
                let trimmed = trim_chars(&chars);
                chars_to_string(&trimmed)
            },
            None => String::from_str("x86_64"),
        }
    }

    /// The name and the text of the script that is written for a hook:
    /// the name is `random` and `.sh`, the text is the header and
    /// `contents`.
    pub fn write_temp_script(random: &str, contents: &str) -> (script: (String, String))
        ensures
            script.0@ == random@ + ".sh"@,
            script.1@ == script_header() + contents@,
    {
        let mut name = String::from_str(random);
        name.append(".sh");
        let mut text = String::from_str(
            "#!/usr/bin/env bash\nset -Eeuo pipefail\n# Uncomment for debug tracing\n# set -x\n\n",
        );
        text.append(contents);
        (name, text)
    }
}

} // verus!
