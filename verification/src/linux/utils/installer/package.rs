//! Installing a package by name.

use crate::linux::utils::installer::common::{check_texts, Installer};
use crate::models::app_state::AppState;
use crate::text::{chars_to_string, find_char, first_index_of, slice_of, to_chars};
use crate::utils::command::{conn_name, conn_type, CommandCheck};
use crate::utils::os::InstallType;
use vstd::prelude::*;
use vstd::string::*;

verus! {

/// The last component of `path`, as `std::path::Path::file_name` gives it;
/// empty when the path has none.
pub uninterp spec fn file_name_of(path: Seq<char>) -> Seq<char>;

/// Takes the last component of a path with `std::path::Path::file_name`.
#[verifier::external_body]
fn path_file_name(path: &str) -> (name: String)
    ensures
        name@ == file_name_of(path@),
{
    std::path::Path::new(path).file_name().unwrap_or_default().to_string_lossy().into_owned()
}

/// The command that installs `package`: inside a container on an
/// image-based system, with the system's package manager elsewhere.
pub open spec fn install_command(is_ostree: bool, package: Seq<char>, sudo_password: Seq<char>) -> Seq<
    char,
> {
    if is_ostree {
        "distrobox create --name dev --image fedora:41 --yes || true && distrobox enter --name dev -- sudo dnf install -y "@
            + package
    } else {
        "echo '"@ + sudo_password + "' | sudo -S dnf install -y "@ + package
    }
}

/// The name of the binary that `package` brings: the last component of
/// the path, up to its first dot.
pub open spec fn binary_name(package: Seq<char>) -> Seq<char> {
    let name = file_name_of(package);
    name.take(first_index_of(name, '.'))
}

/// The command that makes the binary of a package visible outside the
/// container.
pub open spec fn export_command(binary: Seq<char>) -> Seq<char> {
    "distrobox enter --name dev -- distrobox-export --bin /usr/bin/"@ + binary
}

/// The command that puts the directory of exported binaries on the search
/// path.
pub open spec fn local_bin_command() -> Seq<char> {
    "grep -qxF 'export PATH=\"$HOME/.local/bin:$PATH\"' ~/.bashrc || echo 'export PATH=\"$HOME/.local/bin:$PATH\"' >> ~/.bashrc"@
}

pub open spec fn install_step(
    package: Seq<char>,
    is_ostree: bool,
    sudo_password: Seq<char>,
    remote: bool,
) -> (Seq<char>, Seq<char>) {
    (
        install_command(is_ostree, package, sudo_password),
        conn_type(remote) + " installation of '"@ + package + "' failed"@,
    )
}

pub open spec fn export_step(package: Seq<char>, remote: bool) -> (Seq<char>, Seq<char>) {
    (
        export_command(binary_name(package)),
        conn_type(remote) + " export of '"@ + binary_name(package) + "' failed"@,
    )
}

pub open spec fn local_bin_step(remote: bool) -> (Seq<char>, Seq<char>) {
    (local_bin_command(), conn_type(remote) + " adding ~/.local/bin to PATH failed"@)
}

/// How `package` is installed on the system that `state` describes: the
/// installation, and on an image-based system also the export of the
/// binary and the search path.
pub open spec fn package_plan(state: AppState, package: Seq<char>) -> Result<
    Seq<(Seq<char>, Seq<char>)>,
    Seq<char>,
> {
    let remote = state.remote is Some;
    let first = install_step(package, state.os_info.is_ostree, state.sudo_password@, remote);
    if state.os_info.is_ostree {
        Ok(seq![first, export_step(package, remote), local_bin_step(remote)])
    } else {
        Ok(seq![first])
    }
}

pub open spec fn step_view(check: Option<CommandCheck>) -> Option<(Seq<char>, Seq<char>)> {
    match check {
        Some(c) => Some((c.command@, c.failure@)),
        None => None,
    }
}

/// Installs packages by name.
#[derive(Clone, Copy, Debug, PartialEq, Eq)]
pub struct PackageInstaller;

impl Installer for PackageInstaller {
    open spec fn kind(&self) -> InstallType {
        InstallType::Package
    }

    fn get_type(&self) -> (t: InstallType) {
        InstallType::Package
    }

    fn run(&self, state: &AppState, package: &str) -> (r: Result<Vec<CommandCheck>, String>) {
        let remote = state.is_remote();
        let is_ostree = state.os_info.is_ostree;
        let mut checks: Vec<CommandCheck> = Vec::new();
        checks.push(
            self.install_package(package, is_ostree, state.sudo_password.as_str(), remote),
        );
        match self.add_alias_post_install(package, is_ostree, remote) {
            Some(c) => {
                checks.push(c);
            },
            None => {},
        }
        match self.add_local_bin_to_bashrc_path(is_ostree, remote) {
            Some(c) => {
                checks.push(c);
            },
            None => {},
        }
        proof {
            let expected = package_plan(*state, package@)->Ok_0;
            assert(check_texts(checks@) =~= expected);
        }
        Ok(checks)
    }
}

impl PackageInstaller {
    /// The command that installs `package`, and the error that is
    /// reported when it fails.
    pub fn install_package(
        &self,
        package: &str,
        is_ostree: bool,
        sudo_password: &str,
        remote: bool,
    ) -> (check: CommandCheck)
        ensures
            (check.command@, check.failure@) == install_step(
                package@,
                is_ostree,
                sudo_password@,
                remote,
            ),
    {
        let command = self.get_base_install_cmd(is_ostree, package, sudo_password);
        let mut failure = String::from_str(conn_name(remote));
        failure.append(" installation of '");
        failure.append(package);
        failure.append("' failed");
        CommandCheck { command, failure }
    }

    /// On an image-based system: the command that makes the binary of
    /// `cmd` visible outside the container. Elsewhere nothing is to do.
    pub fn add_alias_post_install(&self, cmd: &str, is_ostree: bool, remote: bool) -> (check: Option<
        CommandCheck,
    >)
        ensures
            step_view(check) == (if is_ostree {
                Some(export_step(cmd@, remote))
            } else {
                None
            }),
    {
        if !is_ostree {
            return None;
        }
        let name = path_file_name(cmd);
        let chars = to_chars(name.as_str());
        let dot: usize = find_char(&chars, '.');
        let stem = slice_of(&chars, 0, dot);
        assert(stem@ == chars@.take(dot as int));
        let binary = chars_to_string(&stem);
        let mut command = String::from_str(
            "distrobox enter --name dev -- distrobox-export --bin /usr/bin/",
        );
        command.append(binary.as_str());
        let mut failure = String::from_str(conn_name(remote));
        failure.append(" export of '");
        failure.append(binary.as_str());
        failure.append("' failed");
        Some(CommandCheck { command, failure })
    }

    /// On an image-based system: the command that puts the directory of
    /// exported binaries on the search path. Elsewhere nothing is to do.
    pub fn add_local_bin_to_bashrc_path(&self, is_ostree: bool, remote: bool) -> (check: Option<
        CommandCheck,
    >)
        ensures
            step_view(check) == (if is_ostree {
                Some(local_bin_step(remote))
            } else {
                None
            }),
    {
        if !is_ostree {
            return None;
        }
        let command = String::from_str(
            "grep -qxF 'export PATH=\"$HOME/.local/bin:$PATH\"' ~/.bashrc || echo 'export PATH=\"$HOME/.local/bin:$PATH\"' >> ~/.bashrc",
        );
        let mut failure = String::from_str(conn_name(remote));
        failure.append(" adding ~/.local/bin to PATH failed");
        Some(CommandCheck { command, failure })
    }

    /// The command that installs `package`.
    pub fn get_base_install_cmd(&self, is_ostree: bool, package: &str, sudo_password: &str) -> (r:
        String)
        ensures
            r@ == install_command(is_ostree, package@, sudo_password@),
    {
        if is_ostree {
            let mut s = String::from_str(
                "distrobox create --name dev --image fedora:41 --yes || true && distrobox enter --name dev -- sudo dnf install -y ",
            );
            s.append(package);
            s
        } else {
            let mut s = String::from_str("echo '");
            s.append(sudo_password);
            s.append("' | sudo -S dnf install -y ");
            s.append(package);
            s
        }
    }
}

} // verus!
