//! What the installers have in common.

use crate::linux::utils::installer::file::{file_plan, FileInstaller};
use crate::linux::utils::installer::package::{package_plan, PackageInstaller};
use crate::models::app_state::AppState;
use crate::text::{contains, contains_seq, to_chars};
use crate::utils::command::CommandCheck;
use crate::utils::dir::{joined, DirUtils};
use crate::utils::os::InstallType;
use vstd::prelude::*;
use vstd::string::*;

verus! {

/// The commands of a plan, as texts: each command with its error.
pub open spec fn check_texts(checks: Seq<CommandCheck>) -> Seq<(Seq<char>, Seq<char>)> {
    Seq::new(checks.len(), |i: int| (checks[i].command@, checks[i].failure@))
}

/// What an installation comes to: the commands to run, in order and each
/// only if the one before it ended well, or an error.
pub open spec fn plan_view(r: Result<Vec<CommandCheck>, String>) -> Result<
    Seq<(Seq<char>, Seq<char>)>,
    Seq<char>,
> {
    match r {
        Ok(checks) => Ok(check_texts(checks@)),
        Err(e) => Err(e@),
    }
}

/// `r` is how `arg` is installed on the system that `state` describes.
pub open spec fn install_plan(
    install_type: InstallType,
    state: AppState,
    arg: Seq<char>,
    r: Result<Vec<CommandCheck>, String>,
) -> bool {
    plan_view(r) == (match install_type {
        InstallType::File => file_plan(state, arg),
        InstallType::Package => package_plan(state, arg),
    })
}

/// An installer says what it installs and how.
pub trait Installer {
    /// What the installer installs.
    spec fn kind(&self) -> InstallType;

    /// What the installer installs.
    fn get_type(&self) -> (t: InstallType)
        ensures
            t == self.kind(),
    ;

    /// The commands that install `arg` on the system that `state`
    /// describes.
    fn run(&self, state: &AppState, arg: &str) -> (r: Result<Vec<CommandCheck>, String>)
        ensures
            install_plan(self.kind(), *state, arg@, r),
    ;
}

/// Either installer.
#[derive(Clone, Copy, Debug, PartialEq, Eq)]
pub enum AnyInstaller {
    File(FileInstaller),
    Package(PackageInstaller),
}

impl Installer for AnyInstaller {
    open spec fn kind(&self) -> InstallType {
        match self {
            AnyInstaller::File(i) => i.kind(),
            AnyInstaller::Package(i) => i.kind(),
        }
    }

    fn get_type(&self) -> (t: InstallType) {
        match self {
            AnyInstaller::File(i) => i.get_type(),
            AnyInstaller::Package(i) => i.get_type(),
        }
    }

    fn run(&self, state: &AppState, arg: &str) -> (r: Result<Vec<CommandCheck>, String>) {
        match self {
            AnyInstaller::File(i) => i.run(state, arg),
            AnyInstaller::Package(i) => i.run(state, arg),
        }
    }
}

impl dyn Installer {
    /// The installer for `install_type`.
    pub fn from_type(install_type: InstallType) -> (installer: AnyInstaller)
        ensures
            installer.kind() == install_type,
    {
        match install_type {
            InstallType::File => AnyInstaller::File(FileInstaller),
            InstallType::Package => AnyInstaller::Package(PackageInstaller),
        }
    }
}

/// The line that puts the directory `bin_path` on the search path.
pub open spec fn path_line(bin_path: Seq<char>) -> Seq<char> {
    "export PATH=\""@ + bin_path + ":\\\\$PATH\""@
}

/// The command that adds `line` to the file `file_path` unless the file
/// has it.
pub open spec fn add_line_command(line: Seq<char>, file_path: Seq<char>) -> Seq<char> {
    "grep -Fxq \""@ + line + "\" "@ + file_path + " || echo \""@ + line + "\" >> "@ + file_path
}

/// How a line gets into the shell's start-up file.
#[derive(Clone, Debug, PartialEq, Eq)]
pub enum BashrcEdit {
    /// On the remote host: by a command.
    Remote { check: CommandCheck },
    /// On the local machine: the file `file_path` is read, and `line` is
    /// added at its end unless the file has it.
    Local { file_path: String, line: String },
}

impl BashrcEdit {
    /// The edit adds `line` to the start-up file below `root_dir`.
    pub open spec fn adds(&self, line: Seq<char>, remote: bool, root_dir: Seq<char>) -> bool {
        match self {
            BashrcEdit::Remote { check } => {
                &&& remote
                &&& check.command@ == add_line_command(line, joined(root_dir, ".bashrc"@))
                &&& check.failure@ == "Failed to add line remotely"@
            },
            BashrcEdit::Local { file_path, line: l } => {
                &&& !remote
                &&& file_path@ == joined(root_dir, ".bashrc"@)
                &&& l@ == line
            },
        }
    }

    /// What is added at the end of a local start-up file that holds
    /// `contents`: the line and a line feed, or nothing if the file has
    /// the line.
    pub fn local_append(contents: &str, line: &str) -> (r: Option<String>)
        ensures
            match r {
                Some(added) => !contains_seq(contents@, line@) && added@ == line@ + "\n"@,
                None => contains_seq(contents@, line@),
            },
    {
        let text = to_chars(contents);
        let wanted = to_chars(line);
        if contains(&text, &wanted) {
            None
        } else {
            let mut added = String::from_str(line);
            added.append("\n");
            Some(added)
        }
    }
}

/// How the directory `bin_path` is put on the search path.
pub fn add_bin_to_path(bin_path: &str, remote: bool, root_dir: &str) -> (edit: BashrcEdit)
    ensures
        edit.adds(path_line(bin_path@), remote, root_dir@),
{
    let mut line = String::from_str("export PATH=\"");
    line.append(bin_path);
    line.append(":\\\\$PATH\"");
    add_line_to_bashrc(line.as_str(), remote, root_dir)
}

/// How `line` is put into the shell's start-up file, `.bashrc` below
/// `root_dir`.
pub fn add_line_to_bashrc(line: &str, remote: bool, root_dir: &str) -> (edit: BashrcEdit)
    ensures
        edit.adds(line@, remote, root_dir@),
{
    let file_path = DirUtils::join(root_dir, ".bashrc");
    if remote {
        let mut command = String::from_str("grep -Fxq \"");
        command.append(line);
        command.append("\" ");
        command.append(file_path.as_str());
        command.append(" || echo \"");
        command.append(line);
        command.append("\" >> ");
        command.append(file_path.as_str());
        BashrcEdit::Remote {
            check: CommandCheck {
                command,
                failure: String::from_str("Failed to add line remotely"),
            },
        }
    } else {
        BashrcEdit::Local { file_path, line: String::from_str(line) }
    }
}

} // verus!
