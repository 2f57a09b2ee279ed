//! Installing a file that was fetched.

use crate::linux::utils::installer::common::{check_texts, Installer};
use crate::linux::utils::installer::package::{package_plan, PackageInstaller};
use crate::models::app_state::AppState;
use crate::text::{ends_with, has_suffix, to_chars};
use crate::utils::command::{conn_name, conn_type, CommandCheck};
use crate::utils::os::InstallType;
use crate::utils::string::lower_case_of;
use vstd::prelude::*;
use vstd::string::*;

verus! {

/// The command that unpacks the archive `file_path` into `root_dir`, by
/// the archive's ending.
pub open spec fn extract_command(file_path: Seq<char>, root_dir: Seq<char>) -> Result<
    Seq<char>,
    Seq<char>,
> {
    if has_suffix(file_path, ".tar.xz"@) {
        Ok("mkdir -p "@ + root_dir + " && tar -xJvf "@ + file_path + " -C "@ + root_dir)
    } else if has_suffix(file_path, ".tar.gz"@) {
        Ok("mkdir -p "@ + root_dir + " && tar -xvzf "@ + file_path + " -C "@ + root_dir)
    } else if has_suffix(file_path, ".zip"@) {
        Ok("mkdir -p "@ + root_dir + " && unzip -v -o "@ + file_path + " -d "@ + root_dir)
    } else {
        Err("Unsupported archive type: "@ + file_path)
    }
}

/// The error that is reported when the archive cannot be unpacked.
pub open spec fn extract_failure(file_path: Seq<char>, remote: bool) -> Seq<char> {
    conn_type(remote) + " extraction of '"@ + file_path + "' failed"@
}

/// Whether `file_path` names an archive, whatever the case of its letters.
pub open spec fn is_archive(file_path: Seq<char>) -> bool {
    let lower = lower_case_of(file_path);
    has_suffix(lower, ".tar.xz"@) || has_suffix(lower, ".tar.gz"@) || has_suffix(lower, ".zip"@)
}

/// How the file `file_path` is installed: an archive is unpacked into
/// `root_dir`; anything else is refused.
pub open spec fn archive_plan(file_path: Seq<char>, remote: bool, root_dir: Seq<char>) -> Result<
    Seq<(Seq<char>, Seq<char>)>,
    Seq<char>,
> {
    if is_archive(file_path) {
        match extract_command(file_path, root_dir) {
            Ok(command) => Ok(seq![(command, extract_failure(file_path, remote))]),
            Err(e) => Err(e),
        }
    } else {
        Err("Unknown file type for installation: '"@ + file_path + "'"@)
    }
}

/// How the file `file_path` is installed on the system that `state`
/// describes: a package file goes to the package installer.
pub open spec fn file_plan(state: AppState, file_path: Seq<char>) -> Result<
    Seq<(Seq<char>, Seq<char>)>,
    Seq<char>,
> {
    if has_suffix(file_path, ".rpm"@) {
        package_plan(state, file_path)
    } else {
        archive_plan(file_path, state.remote is Some, state.root_dir@)
    }
}

/// Installs files that were fetched.
#[derive(Clone, Copy, Debug, PartialEq, Eq)]
pub struct FileInstaller;

impl Installer for FileInstaller {
    open spec fn kind(&self) -> InstallType {
        InstallType::File
    }

    fn get_type(&self) -> (t: InstallType) {
        InstallType::File
    }

    fn run(&self, state: &AppState, file_path: &str) -> (r: Result<Vec<CommandCheck>, String>) {
        let chars = to_chars(file_path);
        let rpm = to_chars(".rpm");
        if ends_with(&chars, &rpm) {
            let package_installer = PackageInstaller;
            return package_installer.run(state, file_path);
        }
        self.install_file(file_path, state.is_remote(), state.root_dir.as_str())
    }
}

impl FileInstaller {
    /// The commands that install the file `file_path`: an archive is
    /// unpacked into `root_dir`; anything else is refused.
    pub fn install_file(&self, file_path: &str, remote: bool, root_dir: &str) -> (r: Result<
        Vec<CommandCheck>,
        String,
    >)
        ensures
            crate::linux::utils::installer::common::plan_view(r) == archive_plan(
                file_path@,
                remote,
                root_dir@,
            ),
    {
        let lower = crate::utils::string::to_lower_case(file_path);
        let chars = to_chars(lower.as_str());
        let xz = to_chars(".tar.xz");
        let gz = to_chars(".tar.gz");
        let zip = to_chars(".zip");
        if ends_with(&chars, &xz) || ends_with(&chars, &gz) || ends_with(&chars, &zip) {
            self.install_archive(file_path, remote, root_dir)
        } else {
            let mut e = String::from_str("Unknown file type for installation: '");
            e.append(file_path);
            e.append("'");
            Err(e)
        }
    }

    /// The command that unpacks the archive `file_path` into `root_dir`.
    pub fn install_archive(&self, file_path: &str, remote: bool, root_dir: &str) -> (r: Result<
        Vec<CommandCheck>,
        String,
    >)
        ensures
            crate::linux::utils::installer::common::plan_view(r) == (match extract_command(
                file_path@,
                root_dir@,
            ) {
                Ok(command) => Ok(seq![(command, extract_failure(file_path@, remote))]),
                Err(e) => Err(e),
            }),
    {
        match self.get_base_install_cmd(file_path, root_dir) {
            Ok(command) => {
                let mut failure = String::from_str(conn_name(remote));
                failure.append(" extraction of '");
                failure.append(file_path);
                failure.append("' failed");
                let mut checks: Vec<CommandCheck> = Vec::new();
                checks.push(CommandCheck { command, failure });
                assert(check_texts(checks@) =~= seq![
                    (checks@[0].command@, checks@[0].failure@),
                ]);
                Ok(checks)
            },
            Err(e) => Err(e),
        }
    }

    fn unpack(tool: &str, file_path: &str, into: &str, root_dir: &str) -> (r: String)
        ensures
            r@ == "mkdir -p "@ + root_dir@ + tool@ + file_path@ + into@ + root_dir@,
    {
        let mut s = String::from_str("mkdir -p ");
        s.append(root_dir);
        s.append(tool);
        s.append(file_path);
        s.append(into);
        s.append(root_dir);
        s
    }

    /// The command that unpacks the archive `file_path` into `root_dir`,
    /// by the archive's ending.
    pub fn get_base_install_cmd(&self, file_path: &str, root_dir: &str) -> (r: Result<String, String>)
        ensures
            match r {
                Ok(c) => extract_command(file_path@, root_dir@) == Ok::<Seq<char>, Seq<char>>(c@),
                Err(e) => extract_command(file_path@, root_dir@) == Err::<Seq<char>, Seq<char>>(e@),
            },
    {
        let chars = to_chars(file_path);
        let xz = to_chars(".tar.xz");
        let gz = to_chars(".tar.gz");
        let zip = to_chars(".zip");
        if ends_with(&chars, &xz) {
            Ok(Self::unpack(" && tar -xJvf ", file_path, " -C ", root_dir))
        } else if ends_with(&chars, &gz) {
            Ok(Self::unpack(" && tar -xvzf ", file_path, " -C ", root_dir))
        } else if ends_with(&chars, &zip) {
            Ok(Self::unpack(" && unzip -v -o ", file_path, " -d ", root_dir))
        } else {
            let mut e = String::from_str("Unsupported archive type: ");
            e.append(file_path);
            Err(e)
        }
    }
}

} // verus!
