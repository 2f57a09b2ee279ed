//! The project's configuration.

use crate::hooks::iface::HookType;
use crate::text::same_text;
use vstd::prelude::*;
use vstd::string::*;

verus! {

/// The kind of project under test.
#[derive(Clone, Copy, Debug, PartialEq, Eq, Structural)]
pub enum ProjectType {
    Flutter,
}

/// The kind of a webhook.
#[derive(Clone, Copy, Debug, PartialEq, Eq, Structural)]
pub enum WebhookType {
    Results,
}

/// Where logs are uploaded.
#[derive(Clone, Debug, Default, PartialEq, Eq)]
pub struct S3Config {
    pub key_prefix: String,
    pub bucket: String,
}

/// A webhook that is called when the run has finished.
#[derive(Clone, Debug, PartialEq, Eq)]
pub struct WebhookConfig {
    pub webhook_type: WebhookType,
    pub url: String,
    pub message_template: String,
    pub ignore_error: bool,
    pub s3_config: Option<S3Config>,
}

/// The command that puts the application into a named state.
#[derive(Clone, Debug, Default, PartialEq, Eq)]
pub struct StateSet {
    pub command: String,
    pub arguments: Vec<String>,
}

/// Where a tool is fetched from.
#[derive(Clone, Debug, PartialEq, Eq)]
pub enum InstallSource {
    Bitbucket { repo: String, token: String },
    Url { url: String },
}

/// How a missing tool is installed.
#[derive(Clone, Debug, PartialEq, Eq)]
pub struct InstallSpec {
    /// The tool's name.
    pub tool: String,
    /// The version to install, such as `1.2.3`.
    pub version: Option<String>,
    /// The directory of the binaries inside the archive, such as `flutter/bin`.
    pub bin_path: Option<String>,
    /// A command to run after the installation.
    pub setup: Option<String>,
    /// Where to fetch the tool; the system's packages when absent.
    pub source: Option<InstallSource>,
}

/// A tool that the tests need.
#[derive(Clone, Debug, PartialEq, Eq)]
pub struct Dependency {
    pub name: String,
    pub min_version: String,
    pub version_command: String,
    pub install: Option<InstallSpec>,
}

/// A hook that the user declared: a command bound to a phase.
#[derive(Clone, Debug, PartialEq, Eq)]
pub struct HookConfig {
    pub name: String,
    pub hook_type: HookType,
    pub is_async: bool,
    pub continue_on_error: bool,
    pub condition: Option<String>,
    pub command: String,
    /// Environment variables for the command, in the order in which they are
    /// set. Where a name stands twice, the later value counts: the command
    /// line sets both, and the shell keeps the last.
    pub env: Option<Vec<(String, String)>>,
}

/// Credentials for reading mail over IMAP.
#[derive(Clone, Debug, PartialEq, Eq)]
pub struct ImapConfig {
    pub email: String,
    pub app_password: String,
}

#[derive(Clone, Debug, Default, PartialEq, Eq)]
pub struct GmailCredentialsConfig {
    pub s3: Option<S3Config>,
    pub imap: Option<ImapConfig>,
}

/// Whether one-time codes are read from mail, and with what credentials.
#[derive(Clone, Debug, Default, PartialEq, Eq)]
pub struct GmailConfig {
    pub enabled: bool,
    pub credentials: GmailCredentialsConfig,
}

/// The configuration of a project.
#[derive(Clone, Debug, PartialEq, Eq)]
pub struct Config {
    pub project_type: ProjectType,
    pub dependencies: Vec<Dependency>,
    pub state_set: StateSet,
    pub hooks: Vec<HookConfig>,
    pub webhooks: Vec<WebhookConfig>,
    pub gmail: GmailConfig,
}

/// Some dependency among the first `n` is named `name`.
pub open spec fn names_dependency(deps: Seq<Dependency>, name: Seq<char>, n: int) -> bool {
    exists|i: int| 0 <= i < n && i < deps.len() && #[trigger] deps[i].name@ == name
}

impl Dependency {
    /// The dependency that every Flutter project has unless it names its own.
    pub open spec fn is_flutter_default(&self) -> bool {
        &&& self.name@ == "flutter"@
        &&& self.min_version@ == "3.29.2"@
        &&& self.version_command@ == "flutter --version | head -n 1 | awk '{print $2}'"@
        &&& self.install matches Some(spec)
        &&& spec.tool@ == "flutter"@
        &&& spec.version matches Some(version)
        &&& version@ == "3.29.2"@
        &&& spec.bin_path matches Some(bin_path)
        &&& bin_path@ == "flutter/bin"@
        &&& spec.setup matches Some(setup)
        &&& setup@ == "flutter --version || true"@
        &&& spec.source matches Some(InstallSource::Url { url })
        &&& url@
            == "https://storage.googleapis.com/flutter_infra_release/releases/stable/linux/flutter_linux_{{version}}-stable.tar.xz"@
    }
}

/// The texts of a list of pairs of strings, in order.
pub open spec fn pair_texts(v: Seq<(String, String)>) -> Seq<(Seq<char>, Seq<char>)> {
    Seq::new(v.len(), |i: int| (v[i].0@, v[i].1@))
}

/// The texts of an optional list of pairs of strings.
pub open spec fn env_texts(env: Option<Vec<(String, String)>>) -> Option<
    Seq<(Seq<char>, Seq<char>)>,
> {
    match env {
        Some(pairs) => Some(pair_texts(pairs@)),
        None => None,
    }
}

/// A copy of a list of pairs of strings.
pub fn copy_pairs(pairs: &Vec<(String, String)>) -> (out: Vec<(String, String)>)
    ensures
        pair_texts(out@) == pair_texts(pairs@),
{
    let mut out: Vec<(String, String)> = Vec::new();
    let mut i: usize = 0;
    while i < pairs.len()
        invariant
            i <= pairs.len(),
            out@.len() == i,
            forall|k: int| 0 <= k < i ==> out@[k].0@ == pairs@[k].0@ && out@[k].1@ == pairs@[k].1@,
        decreases pairs.len() - i,
    {
        let key = pairs[i].0.clone();
        let value = pairs[i].1.clone();
        out.push((key, value));
        i += 1;
    }
    assert(pair_texts(out@) =~= pair_texts(pairs@));
    out
}

/// A copy of an optional string.
pub fn copy_option(o: &Option<String>) -> (out: Option<String>)
    ensures
        out == *o,
{
    match o {
        Some(s) => Some(s.clone()),
        None => None,
    }
}

impl S3Config {
    /// A copy of the value.
    pub fn duplicate(&self) -> (out: Self)
        ensures
            out == *self,
    {
        S3Config { key_prefix: self.key_prefix.clone(), bucket: self.bucket.clone() }
    }
}

impl WebhookConfig {
    /// A copy of the value.
    pub fn duplicate(&self) -> (out: Self)
        ensures
            out == *self,
    {
        WebhookConfig {
            webhook_type: self.webhook_type,
            url: self.url.clone(),
            message_template: self.message_template.clone(),
            ignore_error: self.ignore_error,
            s3_config: match &self.s3_config {
                Some(c) => Some(c.duplicate()),
                None => None,
            },
        }
    }
}

impl HookConfig {
    /// The two values say the same.
    pub open spec fn same_as(&self, other: &HookConfig) -> bool {
        &&& self.name == other.name
        &&& self.hook_type == other.hook_type
        &&& self.is_async == other.is_async
        &&& self.continue_on_error == other.continue_on_error
        &&& self.condition == other.condition
        &&& self.command == other.command
        &&& env_texts(self.env) == env_texts(other.env)
    }

    /// A copy of the value.
    pub fn duplicate(&self) -> (out: Self)
        ensures
            out.same_as(self),
    {
        HookConfig {
            name: self.name.clone(),
            hook_type: self.hook_type,
            is_async: self.is_async,
            continue_on_error: self.continue_on_error,
            condition: copy_option(&self.condition),
            command: self.command.clone(),
            env: match &self.env {
                Some(pairs) => Some(copy_pairs(pairs)),
                None => None,
            },
        }
    }
}

impl Config {
    /// A configuration that declares nothing.
    pub fn new(project_type: ProjectType) -> (c: Self)
        ensures
            c.project_type == project_type,
            c.dependencies@.len() == 0,
            c.state_set.command@.len() == 0,
            c.state_set.arguments@.len() == 0,
            c.hooks@.len() == 0,
            c.webhooks@.len() == 0,
            !c.gmail.enabled,
            c.gmail.credentials.s3 is None,
            c.gmail.credentials.imap is None,
    {
        Config {
            project_type,
            dependencies: Vec::new(),
            state_set: StateSet { command: String::new(), arguments: Vec::new() },
            hooks: Vec::new(),
            webhooks: Vec::new(),
            gmail: GmailConfig {
                enabled: false,
                credentials: GmailCredentialsConfig { s3: None, imap: None },
            },
        }
    }

    /// Whether some dependency is named `name`.
    pub fn has_dependency(&self, name: &str) -> (b: bool)
        ensures
            b == names_dependency(self.dependencies@, name@, self.dependencies@.len() as int),
    {
        let mut i: usize = 0;
        while i < self.dependencies.len()
            invariant
                i <= self.dependencies.len(),
                !names_dependency(self.dependencies@, name@, i as int),
            decreases self.dependencies.len() - i,
        {
            if same_text(self.dependencies[i].name.as_str(), name) {
                return true;
            }
            i += 1;
        }
        false
    }

    /// Adds what every Flutter project needs: the `flutter` tool itself,
    /// unless the configuration already names it.
    pub fn add_flutter_defaults(&mut self)
        ensures
            final(self).project_type == old(self).project_type,
            final(self).state_set == old(self).state_set,
            final(self).hooks == old(self).hooks,
            final(self).webhooks == old(self).webhooks,
            final(self).gmail == old(self).gmail,
            names_dependency(
                old(self).dependencies@,
                "flutter"@,
                old(self).dependencies@.len() as int,
            ) ==> final(self).dependencies == old(self).dependencies,
            !names_dependency(
                old(self).dependencies@,
                "flutter"@,
                old(self).dependencies@.len() as int,
            ) ==> final(self).dependencies@.len() == old(self).dependencies@.len() + 1
                && final(self).dependencies@.drop_last() == old(self).dependencies@
                && final(self).dependencies@.last().is_flutter_default(),
    {
        if !self.has_dependency("flutter") {
            let flutter_dep = Dependency {
                name: String::from_str("flutter"),
                min_version: String::from_str("3.29.2"),
                version_command: String::from_str(
                    "flutter --version | head -n 1 | awk '{print $2}'",
                ),
                install: Some(
                    InstallSpec {
                        tool: String::from_str("flutter"),
                        version: Some(String::from_str("3.29.2")),
                        bin_path: Some(String::from_str("flutter/bin")),
                        setup: Some(String::from_str("flutter --version || true")),
                        source: Some(
                            InstallSource::Url {
                                url: String::from_str(
                                    "https://storage.googleapis.com/flutter_infra_release/releases/stable/linux/flutter_linux_{{version}}-stable.tar.xz",
                                ),
                            },
                        ),
                    },
                ),
            };
            let ghost before = self.dependencies@;
            self.dependencies.push(flutter_dep);
            assert(self.dependencies@.drop_last() =~= before);
        }
    }

    /// Fills in what the kind of project implies.
    pub fn load_default_configs(&mut self)
        ensures
            final(self).project_type == old(self).project_type,
            final(self).state_set == old(self).state_set,
            final(self).hooks == old(self).hooks,
            final(self).webhooks == old(self).webhooks,
            final(self).gmail == old(self).gmail,
            names_dependency(
                old(self).dependencies@,
                "flutter"@,
                old(self).dependencies@.len() as int,
            ) ==> final(self).dependencies == old(self).dependencies,
            !names_dependency(
                old(self).dependencies@,
                "flutter"@,
                old(self).dependencies@.len() as int,
            ) ==> final(self).dependencies@.len() == old(self).dependencies@.len() + 1
                && final(self).dependencies@.drop_last() == old(self).dependencies@
                && final(self).dependencies@.last().is_flutter_default(),
    {
        match self.project_type {
            ProjectType::Flutter => {
                self.add_flutter_defaults();
            },
        }
    }
}

} // verus!
