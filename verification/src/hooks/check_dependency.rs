//! The hook that checks that the tools which the tests need are present.

use crate::hooks::iface::{Hook, HookType};
use crate::linux::utils::installer::common::{path_line, BashrcEdit};
use crate::models::app_state::CommandOutput;
use crate::models::args::AppArgs;
use crate::models::config::{Dependency, InstallSource, InstallSpec};
use crate::text::{
    chars_to_string, find_char, first_index_of, has_prefix, replace_text, replaced,
    signed_decimal, signed_decimal_string, slice_of, to_chars, trim, trim_chars,
};
use crate::utils::os::OsUtils;
use crate::utils::patterns::{regex_error, regex_find};
use crate::utils::semver::{
    check_view, version_check, version_error, SemverUtils, VERSION_PATTERN,
};
use vstd::prelude::*;
use vstd::string::*;

verus! {

/// What has to be done about a dependency.
#[derive(Clone, Copy, Debug, PartialEq, Eq, Structural)]
pub enum Verdict {
    /// Nothing: the dependency is met.
    Met,
    /// The tool has to be installed, and the dependency checked again.
    Install,
}

/// Where a tool is fetched from, and where it is put.
#[derive(Clone, Debug, PartialEq, Eq)]
pub enum Download {
    /// From the downloads of a repository: the newest artifact that fits.
    Bitbucket { org: String, repo: String, token: String, version: Option<String> },
    /// On the remote host, with this command.
    Remote { command: String, dest_path: String },
    /// On this machine.
    Local { url: String, dest_path: String },
}

/// What follows the last `/` of `url`.
pub open spec fn last_segment(url: Seq<char>) -> Seq<char>
    decreases url.len(),
{
    if url.len() == 0 || url.last() == '/' {
        Seq::empty()
    } else {
        last_segment(url.drop_last()).push(url.last())
    }
}

/// The address from which a tool is fetched: `url`, with the version in
/// the place of `{{version}}` if a version is asked for.
pub open spec fn versioned_url(url: Seq<char>, version: Option<Seq<char>>) -> Seq<char> {
    match version {
        Some(v) => replaced(url, "{{version}}"@, v),
        None => url,
    }
}

/// Where the file fetched from `url` is put.
pub open spec fn download_dest(url: Seq<char>) -> Seq<char> {
    "/tmp/"@ + last_segment(url)
}

/// The command that fetches `url` on the remote host.
pub open spec fn curl_command(url: Seq<char>) -> Seq<char> {
    "stdbuf -eL curl -L -o "@ + download_dest(url) + " '"@ + url + "'"@
}

/// The directory that is put on the search path for a tool whose binaries
/// are in `bin_path`: a path that begins with `/` or `~` counts as it is,
/// any other from the home directory; `~` stands for `root_dir`.
pub open spec fn bin_dir(bin_path: Seq<char>, root_dir: Seq<char>) -> Seq<char> {
    if has_prefix(bin_path, "/"@) || has_prefix(bin_path, "~"@) {
        replaced(bin_path, "~"@, root_dir)
    } else {
        replaced("~/"@ + bin_path, "~"@, root_dir)
    }
}

/// Whether the dependency is met by what its version command printed,
/// `Err` when the versions cannot be read.
pub open spec fn dependency_met(dep: Dependency, printed: Seq<char>) -> Result<bool, Seq<char>> {
    let output = trim(printed);
    match regex_error(VERSION_PATTERN@) {
        Some(e) => Ok(false),
        None => match regex_find(VERSION_PATTERN@, output) {
            Some(v) => if version_error(v) is None {
                version_check(dep.min_version@, Some(v))
            } else {
                Ok(false)
            },
            None => Ok(false),
        },
    }
}

/// What has to be done about the dependency: nothing if it is met; an
/// installation if it is not met, may be installed and says how; else the
/// run cannot go on.
pub open spec fn dependency_verdict(dep: Dependency, can_install: bool, printed: Seq<char>) -> Result<
    Verdict,
    Seq<char>,
> {
    match dependency_met(dep, printed) {
        Err(e) => Err(e),
        Ok(true) => Ok(Verdict::Met),
        Ok(false) => if can_install && dep.install is Some {
            Ok(Verdict::Install)
        } else {
            Err("Some dependencies are not met"@)
        },
    }
}

pub open spec fn verdict_view(r: Result<Verdict, String>) -> Result<Verdict, Seq<char>> {
    match r {
        Ok(v) => Ok(v),
        Err(e) => Err(e@),
    }
}

/// Checks the dependencies that the configuration names.
#[derive(Clone, Copy, Debug, PartialEq, Eq)]
pub struct HookCheckDependency {}

impl HookCheckDependency {
    pub fn new() -> (hook: Self)
        ensures
            hook.phase() == HookType::VerifySystem,
            hook.tolerant(),
    {
        HookCheckDependency {  }
    }

    /// The question that is put before a tool is installed; none when the
    /// command line accepts every installation.
    pub fn prompt_install(&self, args: &AppArgs, install: &InstallSpec) -> (question: Option<String>)
        ensures
            match question {
                Some(q) => !args.auto_accept() && q@ == "Do you want to install "@ + install.tool@
                    + " now?"@,
                None => args.auto_accept(),
            },
    {
        if args.accepts_installs() {
            return None;
        }
        let mut q = String::from_str("Do you want to install ");
        q.append(install.tool.as_str());
        q.append(" now?");
        Some(q)
    }

    /// What follows the answer to the question: the installation if the
    /// answer was yes, else the run cannot go on.
    pub fn install_answer(&self, yes: bool) -> (r: Result<(), String>)
        ensures
            match r {
                Ok(_) => yes,
                Err(e) => !yes && e@ == "Dependency installation declined"@,
            },
    {
        if yes {
            Ok(())
        } else {
            Err(String::from_str("Dependency installation declined"))
        }
    }

    /// Where the tool comes from and where it is put.
    pub fn download_tool(&self, source: &InstallSource, version: Option<String>, remote: bool) -> (r:
        Result<Download, String>)
        ensures
            match *source {
                InstallSource::Bitbucket { repo, token } => {
                    let cut = first_index_of(repo@, '/');
                    if cut < repo@.len() {
                        &&& r matches Ok(Download::Bitbucket { org, repo: name, token: t, version: v })
                        &&& org@ == repo@.take(cut)
                        &&& name@ == repo@.skip(cut + 1)
                        &&& t == token
                        &&& v == version
                    } else {
                        r matches Err(e) && e@ == "Invalid Bitbucket repo format, expected org/repo"@
                    }
                },
                InstallSource::Url { url } => r matches Ok(d) && Self::fetches(
                    d,
                    url@,
                    crate::utils::patterns::text_of(version),
                    remote,
                ),
            },
    {
        match source {
            InstallSource::Bitbucket { repo, token } => {
                let chars = to_chars(repo.as_str());
                let cut: usize = find_char(&chars, '/');
                if cut >= chars.len() {
                    return Err(String::from_str("Invalid Bitbucket repo format, expected org/repo"));
                }
                let org = slice_of(&chars, 0, cut);
                let name = slice_of(&chars, cut + 1, chars.len());
                assert(org@ == repo@.take(cut as int));
                assert(name@ == repo@.skip(cut + 1));
                Ok(
                    Download::Bitbucket {
                        org: chars_to_string(&org),
                        repo: chars_to_string(&name),
                        token: token.clone(),
                        version,
                    },
                )
            },
            InstallSource::Url { url } => Ok(self.download_url(url.as_str(), remote, version)),
        }
    }

    /// `d` fetches `url`, in the version `version`, to the machine under
    /// test.
    pub open spec fn fetches(d: Download, url: Seq<char>, version: Option<Seq<char>>, remote: bool) -> bool {
        let from = versioned_url(url, version);
        match d {
            Download::Remote { command, dest_path } => remote && command@ == curl_command(from)
                && dest_path@ == download_dest(from),
            Download::Local { url: u, dest_path } => !remote && u@ == from && dest_path@
                == download_dest(from),
            _ => false,
        }
    }

    /// Where the artifact named `artifact_name` is put.
    pub fn download_with_provider(&self, artifact_name: &str) -> (dest_path: String)
        ensures
            dest_path@ == crate::utils::dir::joined("/tmp"@, artifact_name@),
    {
        crate::utils::dir::DirUtils::join("/tmp", artifact_name)
    }

    fn segment(url: &Vec<char>) -> (out: Vec<char>)
        ensures
            out@ == last_segment(url@),
    {
        let mut start: usize = url.len();
        proof {
            assert(url@.take(start as int) =~= url@);
            assert(url@.subrange(start as int, url@.len() as int) =~= Seq::<char>::empty());
            assert(last_segment(url@) + Seq::<char>::empty() =~= last_segment(url@));
        }
        while start > 0 && url[start - 1] != '/'
            invariant
                start <= url.len(),
                last_segment(url@) == last_segment(url@.take(start as int)) + url@.subrange(
                    start as int,
                    url@.len() as int,
                ),
            decreases start,
        {
            proof {
                let t = url@.take(start as int);
                assert(t.last() == url@[start - 1]);
                assert(t.drop_last() =~= url@.take(start - 1));
                assert(last_segment(t.drop_last()).push(t.last()) + url@.subrange(
                    start as int,
                    url@.len() as int,
                ) =~= last_segment(t.drop_last()) + url@.subrange(
                    start - 1,
                    url@.len() as int,
                ));
            }
            start -= 1;
        }
        proof {
            let t = url@.take(start as int);
            if start > 0 {
                assert(t.last() == url@[start - 1]);
            }
            assert(last_segment(t) =~= Seq::<char>::empty());
            assert(Seq::<char>::empty() + url@.subrange(start as int, url@.len() as int)
                =~= url@.subrange(start as int, url@.len() as int));
        }
        slice_of(url, start, url.len())
    }

    /// How the file at `url` is fetched: on the remote host with a
    /// command, else on this machine; it is put under `/tmp` with the name
    /// that ends the address.
    pub fn download_url(&self, url: &str, remote: bool, version: Option<String>) -> (d: Download)
        ensures
            Self::fetches(d, url@, crate::utils::patterns::text_of(version), remote),
    {
        let from = match &version {
            Some(v) => {
                replace_text(url, "{{version}}", v.as_str())
            },
            None => String::from_str(url),
        };
        let chars = to_chars(from.as_str());
        let name = Self::segment(&chars);
        let mut dest_path = String::from_str("/tmp/");
        dest_path.append(chars_to_string(&name).as_str());
        if remote {
            let mut command = String::from_str("stdbuf -eL curl -L -o ");
            command.append(dest_path.as_str());
            command.append(" '");
            command.append(from.as_str());
            command.append("'");
            Download::Remote { command, dest_path }
        } else {
            Download::Local { url: from, dest_path }
        }
    }

    /// What is installed for `install`: the file at `fetched` if the tool
    /// was fetched, else the package of the tool's name.
    pub fn install_tool(&self, install: &InstallSpec, fetched: Option<String>) -> (r: (
        crate::utils::os::InstallType,
        String,
    ))
        ensures
            match fetched {
                Some(path) => r.0 == crate::utils::os::InstallType::File && r.1 == path,
                None => r.0 == crate::utils::os::InstallType::Package && r.1 == install.tool,
            },
    {
        match fetched {
            Some(path) => (crate::utils::os::InstallType::File, path),
            None => (crate::utils::os::InstallType::Package, install.tool.clone()),
        }
    }

    /// Decides what has to be done about a dependency whose version
    /// command printed `printed.stdout`, given whether the output holds a
    /// version and whether that version meets the requirement.
    pub fn judge_dependency(
        &self,
        dep: &Dependency,
        can_install: bool,
        valid: bool,
        met: Result<bool, String>,
    ) -> (r: Result<Verdict, String>)
        ensures
            verdict_view(r) == (if !valid {
                if can_install && dep.install is Some {
                    Ok(Verdict::Install)
                } else {
                    Err("Some dependencies are not met"@)
                }
            } else {
                match check_view(met) {
                    Err(e) => Err(e),
                    Ok(true) => Ok(Verdict::Met),
                    Ok(false) => if can_install && dep.install is Some {
                        Ok(Verdict::Install)
                    } else {
                        Err("Some dependencies are not met"@)
                    },
                }
            }),
    {
        let lacking: bool = if !valid {
            true
        } else {
            match met {
                Err(e) => {
                    return Err(e);
                },
                Ok(ok) => !ok,
            }
        };
        if !lacking {
            Ok(Verdict::Met)
        } else if can_install && dep.install.is_some() {
            Ok(Verdict::Install)
        } else {
            Err(String::from_str("Some dependencies are not met"))
        }
    }

    /// Decides what has to be done about a dependency, from what its
    /// version command printed.
    pub fn validate_dependency(&self, dep: &Dependency, can_install: bool, printed: &CommandOutput) -> (r:
        Result<Verdict, String>)
        ensures
            verdict_view(r) == dependency_verdict(*dep, can_install, printed.stdout@),
    {
        let chars = to_chars(printed.stdout.as_str());
        let trimmed = trim_chars(&chars);
        let output = chars_to_string(&trimmed);
        let valid = SemverUtils::is_valid_version(output.as_str());
        if !valid {
            return self.judge_dependency(dep, can_install, false, Ok(false));
        }
        let met = SemverUtils::is_version_greater_or_equal(
            dep.min_version.as_str(),
            output.as_str(),
        );
        self.judge_dependency(dep, can_install, true, met)
    }

    /// How the binaries of a tool get on the search path, if the tool
    /// says where they are.
    pub fn setup_bin_path(&self, install: &InstallSpec, remote: bool, root_dir: &str) -> (edit: Option<
        BashrcEdit,
    >)
        ensures
            match install.bin_path {
                Some(bin_path) => edit matches Some(e) && e.adds(
                    path_line(bin_dir(bin_path@, root_dir@)),
                    remote,
                    root_dir@,
                ),
                None => edit is None,
            },
    {
        match &install.bin_path {
            Some(bin_path) => {
                let chars = to_chars(bin_path.as_str());
                let slash = to_chars("/");
                let tilde = to_chars("~");
                let rooted = crate::text::starts_with(&chars, &slash) || crate::text::starts_with(
                    &chars,
                    &tilde,
                );
                let full = if rooted {
                    replace_text(bin_path.as_str(), "~", root_dir)
                } else {
                    let mut from_home = String::from_str("~/");
                    from_home.append(bin_path.as_str());
                    replace_text(from_home.as_str(), "~", root_dir)
                };
                Some(OsUtils::add_bin(full.as_str(), remote, root_dir))
            },
            None => None,
        }
    }

    /// The command that sets a tool up after its installation, if the tool
    /// has one.
    pub fn run_setup_cmd(&self, install: &InstallSpec) -> (command: Option<String>)
        ensures
            command == install.setup,
    {
        match &install.setup {
            Some(c) => Some(c.clone()),
            None => None,
        }
    }

    /// How the set-up command ended, given its output: well if its status
    /// is zero.
    pub fn setup_result(&self, output: &CommandOutput) -> (r: Result<(), String>)
        ensures
            match r {
                Ok(_) => output.status == 0,
                Err(e) => output.status != 0 && e@ == "Setup command failed with status "@
                    + signed_decimal(output.status as int) + ": "@ + output.stderr@,
            },
    {
        if output.status == 0 {
            return Ok(());
        }
        let mut e = String::from_str("Setup command failed with status ");
        e.append(signed_decimal_string(output.status as i64).as_str());
        e.append(": ");
        e.append(output.stderr.as_str());
        Err(e)
    }
}

impl Hook for HookCheckDependency {
    open spec fn phase(&self) -> HookType {
        HookType::VerifySystem
    }

    open spec fn tolerant(&self) -> bool {
        true
    }

    fn get_type(&self) -> (t: HookType) {
        HookType::VerifySystem
    }

    fn continue_on_error(&self) -> (b: bool) {
        true
    }
}

} // verus!
