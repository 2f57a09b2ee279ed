//! Commands that were started and may have to be stopped.
//!
//! The registry of a run notes every process that a hook left running and
//! every command that was started on the remote host. When the run ends, or
//! is told to stop, the registry is emptied and says what has to be killed.

use crate::models::app_state::RemoteInfo;
use vstd::prelude::*;
use vstd::string::*;

verus! {

/// A local process that was left running.
#[derive(Clone, Debug, PartialEq, Eq)]
pub struct CmdInfo {
    pub name: String,
    /// The number under which the caller keeps the process's handle.
    pub handle: u64,
}

/// A command that was started on the remote host.
#[derive(Clone, Debug, PartialEq, Eq)]
pub struct RemoteCmdInfo {
    /// The pattern by which the command is found among the processes.
    pub command: String,
    pub remote: RemoteInfo,
}

/// What has to be done to stop one tracked command.
#[derive(Clone, Debug, PartialEq, Eq)]
pub enum Termination {
    /// Kill the local process, wait for it, and write what it printed into
    /// the two log files.
    KillLocal { name: String, handle: u64, stdout_log: String, stderr_log: String },
    /// Run `command` on the remote host.
    RunRemote { command: String, remote: RemoteInfo },
}

/// `cmd`, run with the environment of the working directory `root_dir`.
pub open spec fn env_sourced(root_dir: Seq<char>, cmd: Seq<char>) -> Seq<char> {
    "source "@ + root_dir + "/.bashrc > /dev/null 2>&1 || true; "@ + cmd
}

/// The command that kills every remote process whose command line matches
/// `pattern`.
pub open spec fn kill_command(pattern: Seq<char>) -> Seq<char> {
    "pkill -f \""@ + pattern + "\""@
}

/// The name of the file that takes what the command `name` printed on the
/// stream `stream` (`stdout` or `stderr`).
pub open spec fn log_file_name(name: Seq<char>, stream: Seq<char>) -> Seq<char> {
    "cmd_"@ + name + "_"@ + stream + ".log"@
}

/// What stops the local process `cmd`.
pub open spec fn local_termination(cmd: CmdInfo, t: Termination) -> bool {
    &&& t matches Termination::KillLocal { name, handle, stdout_log, stderr_log }
    &&& name == cmd.name
    &&& handle == cmd.handle
    &&& stdout_log@ == log_file_name(cmd.name@, "stdout"@)
    &&& stderr_log@ == log_file_name(cmd.name@, "stderr"@)
}

/// What stops the remote command `cmd`.
pub open spec fn remote_termination(cmd: RemoteCmdInfo, root_dir: Seq<char>, t: Termination) -> bool {
    &&& t matches Termination::RunRemote { command, remote }
    &&& command@ == env_sourced(root_dir, kill_command(cmd.command@))
    &&& remote == cmd.remote
}

/// `plan` stops every local process of `local`, in order, and then every
/// remote command of `remote`, in order, each exactly once.
pub open spec fn stops_all(
    local: Seq<CmdInfo>,
    remote: Seq<RemoteCmdInfo>,
    root_dir: Seq<char>,
    plan: Seq<Termination>,
) -> bool {
    &&& plan.len() == local.len() + remote.len()
    &&& forall|i: int| 0 <= i < local.len() ==> local_termination(local[i], #[trigger] plan[i])
    &&& forall|i: int|
        0 <= i < remote.len() ==> remote_termination(
            remote[i],
            root_dir,
            #[trigger] plan[local.len() + i],
        )
}

/// The registry of the commands that are running.
pub struct CommandUtils {
    pub running_cmds: Vec<CmdInfo>,
    pub running_remote_cmds: Vec<RemoteCmdInfo>,
}

impl CommandUtils {
    /// A registry that tracks nothing.
    pub fn new() -> (registry: Self)
        ensures
            registry.running_cmds@.len() == 0,
            registry.running_remote_cmds@.len() == 0,
    {
        CommandUtils { running_cmds: Vec::new(), running_remote_cmds: Vec::new() }
    }

    /// Whether anything is tracked.
    pub fn is_empty(&self) -> (b: bool)
        ensures
            b == (self.running_cmds@.len() == 0 && self.running_remote_cmds@.len() == 0),
    {
        self.running_cmds.len() == 0 && self.running_remote_cmds.len() == 0
    }

    /// Tracks the local process that the caller keeps under `handle`.
    pub fn track_cmd(&mut self, name: &str, handle: u64)
        ensures
            final(self).running_cmds@.len() == old(self).running_cmds@.len() + 1,
            final(self).running_cmds@.drop_last() == old(self).running_cmds@,
            final(self).running_cmds@.last().name@ == name@,
            final(self).running_cmds@.last().handle == handle,
            final(self).running_remote_cmds == old(self).running_remote_cmds,
    {
        let ghost before = self.running_cmds@;
        self.running_cmds.push(CmdInfo { name: String::from_str(name), handle });
        assert(self.running_cmds@.drop_last() =~= before);
    }

    /// Tracks a command that was started on the remote host.
    pub fn track_remote_cmd(&mut self, command: String, remote: RemoteInfo)
        ensures
            final(self).running_remote_cmds@ == old(self).running_remote_cmds@.push(
                RemoteCmdInfo { command, remote },
            ),
            final(self).running_cmds == old(self).running_cmds,
    {
        self.running_remote_cmds.push(RemoteCmdInfo { command, remote });
    }

    /// `cmd`, run with the environment of the working directory `root_dir`.
    pub fn with_env_source(root_dir: &str, cmd: &str) -> (r: String)
        ensures
            r@ == env_sourced(root_dir@, cmd@),
    {
        let mut s = String::from_str("source ");
        s.append(root_dir);
        s.append("/.bashrc > /dev/null 2>&1 || true; ");
        s.append(cmd);
        s
    }

    fn log_name(name: &str, stream: &str) -> (r: String)
        ensures
            r@ == log_file_name(name@, stream@),
    {
        let mut s = String::from_str("cmd_");
        s.append(name);
        s.append("_");
        s.append(stream);
        s.append(".log");
        s
    }

    /// What stops the local processes; they are tracked no longer.
    fn terminate_local_cmds(&mut self) -> (plan: Vec<Termination>)
        ensures
            final(self).running_cmds@.len() == 0,
            final(self).running_remote_cmds == old(self).running_remote_cmds,
            plan@.len() == old(self).running_cmds@.len(),
            forall|i: int|
                0 <= i < plan@.len() ==> local_termination(
                    old(self).running_cmds@[i],
                    #[trigger] plan@[i],
                ),
    {
        let mut plan: Vec<Termination> = Vec::new();
        let mut i: usize = 0;
        while i < self.running_cmds.len()
            invariant
                i <= self.running_cmds.len(),
                *self == *old(self),
                plan@.len() == i,
                forall|k: int|
                    0 <= k < i ==> local_termination(self.running_cmds@[k], #[trigger] plan@[k]),
            decreases self.running_cmds.len() - i,
        {
            let cmd = &self.running_cmds[i];
            let stdout_log = Self::log_name(cmd.name.as_str(), "stdout");
            let stderr_log = Self::log_name(cmd.name.as_str(), "stderr");
            plan.push(
                Termination::KillLocal {
                    name: cmd.name.clone(),
                    handle: cmd.handle,
                    stdout_log,
                    stderr_log,
                },
            );
            i += 1;
        }
        self.running_cmds = Vec::new();
        plan
    }

    /// What stops the remote commands; they are tracked no longer.
    pub fn terminate_remote_cmds(&mut self, root_dir: &str) -> (plan: Vec<Termination>)
        ensures
            final(self).running_remote_cmds@.len() == 0,
            final(self).running_cmds == old(self).running_cmds,
            plan@.len() == old(self).running_remote_cmds@.len(),
            forall|i: int|
                0 <= i < plan@.len() ==> remote_termination(
                    old(self).running_remote_cmds@[i],
                    root_dir@,
                    #[trigger] plan@[i],
                ),
    {
        let mut plan: Vec<Termination> = Vec::new();
        let mut i: usize = 0;
        while i < self.running_remote_cmds.len()
            invariant
                i <= self.running_remote_cmds.len(),
                *self == *old(self),
                plan@.len() == i,
                forall|k: int|
                    0 <= k < i ==> remote_termination(
                        self.running_remote_cmds@[k],
                        root_dir@,
                        #[trigger] plan@[k],
                    ),
            decreases self.running_remote_cmds.len() - i,
        {
            let cmd = &self.running_remote_cmds[i];
            let mut kill = String::from_str("pkill -f \"");
            kill.append(cmd.command.as_str());
            kill.append("\"");
            let command = Self::with_env_source(root_dir, kill.as_str());
            let remote = RemoteInfo {
                user: cmd.remote.user.clone(),
                host: cmd.remote.host.clone(),
                port: cmd.remote.port,
                password: cmd.remote.password.clone(),
            };
            plan.push(Termination::RunRemote { command, remote });
            i += 1;
        }
        self.running_remote_cmds = Vec::new();
        plan
    }

    /// Empties the registry and says what has to be stopped: every local
    /// process, then every remote command, each exactly once and in the
    /// order in which they were tracked. A second call finds nothing left.
    pub fn terminate_all_cmds(&mut self, root_dir: &str) -> (plan: Vec<Termination>)
        ensures
            final(self).running_cmds@.len() == 0,
            final(self).running_remote_cmds@.len() == 0,
            stops_all(old(self).running_cmds@, old(self).running_remote_cmds@, root_dir@, plan@),
    {
        let mut plan = self.terminate_local_cmds();
        let ghost local_plan = plan@;
        let mut remote_plan = self.terminate_remote_cmds(root_dir);
        let ghost remote_plan_before = remote_plan@;
        plan.append(&mut remote_plan);
        proof {
            assert(plan@ =~= local_plan + remote_plan_before);
            assert forall|i: int| 0 <= i < old(self).running_cmds@.len() implies local_termination(
                old(self).running_cmds@[i],
                #[trigger] plan@[i],
            ) by {
                assert(plan@[i] == local_plan[i]);
            }
            assert forall|i: int|
                0 <= i < old(self).running_remote_cmds@.len() implies remote_termination(
                old(self).running_remote_cmds@[i],
                root_dir@,
                #[trigger] plan@[old(self).running_cmds@.len() + i],
            ) by {
                assert(plan@[old(self).running_cmds@.len() + i] == remote_plan_before[i]);
            }
        }
        plan
    }
}

} // verus!

verus! {

/// A command to run, and the error that is reported when it ends with a
/// status other than zero.
#[derive(Clone, Debug, PartialEq, Eq)]
pub struct CommandCheck {
    pub command: String,
    pub failure: String,
}

impl CommandCheck {
    /// How the step ended, given the status with which the command ended:
    /// well if the status is zero, else with the error of the step.
    pub fn judge(&self, status: i32) -> (r: Result<(), String>)
        ensures
            match r {
                Ok(_) => status == 0,
                Err(e) => status != 0 && e@ == self.failure@,
            },
    {
        if status != 0 {
            Err(self.failure.clone())
        } else {
            Ok(())
        }
    }
}

/// Where a command runs, as messages name it.
pub open spec fn conn_type(remote: bool) -> Seq<char> {
    if remote {
        "remote"@
    } else {
        "local"@
    }
}

/// Where a command runs, as messages name it.
pub fn conn_name(remote: bool) -> (r: &'static str)
    ensures
        r@ == conn_type(remote),
{
    if remote {
        "remote"
    } else {
        "local"
    }
}

} // verus!

verus! {

/// How a command is run.
#[derive(Clone, Debug, PartialEq, Eq)]
pub enum CommandRun {
    /// On the remote host.
    Remote { command: String, remote: RemoteInfo },
    /// On this machine, by `bash -c`.
    Local { program: String, args: Vec<String> },
}

/// Copying a directory to the remote host: the directory is made there
/// first, then the copying tool is run here.
#[derive(Clone, Debug, PartialEq, Eq)]
pub struct SyncPlan {
    /// The command that makes the directory on the remote host.
    pub prepare: String,
    /// The program that copies.
    pub program: String,
    /// Its arguments.
    pub args: Vec<String>,
}

/// The arguments of the tool that copies `local_path` to `remote_path`
/// on the host `remote`.
pub open spec fn sync_args(remote: RemoteInfo, local_path: Seq<char>, remote_path: Seq<char>) -> Seq<
    Seq<char>,
> {
    seq![
        "-p"@,
        remote.password@,
        "rsync"@,
        "-azP"@,
        "--delete"@,
        "--exclude"@,
        "build/"@,
        "--exclude"@,
        ".dart_tool/"@,
        "--exclude"@,
        ".git/"@,
        "-e"@,
        "ssh -p "@ + crate::text::decimal(remote.port as nat),
        crate::text::without_slashes(local_path) + "/"@,
        remote.user@ + "@"@ + remote.host@ + ":"@ + crate::text::without_slashes(remote_path) + "/"@,
    ]
}

pub open spec fn arg_texts(args: Seq<String>) -> Seq<Seq<char>> {
    Seq::new(args.len(), |i: int| args[i]@)
}

impl CommandUtils {
    /// How `cmd` is run with the environment of the working directory: on
    /// the remote host if there is one, else on this machine by
    /// `bash -c`.
    pub fn run_command_str(cmd: &str, remote: Option<&RemoteInfo>, root_dir: &str) -> (run: CommandRun)
        ensures
            match run {
                CommandRun::Remote { command, remote: r } => remote == Some(&r) && command@
                    == env_sourced(root_dir@, cmd@),
                CommandRun::Local { program, args } => remote is None && program@ == "bash"@
                    && args@.len() == 2 && args@[0]@ == "-c"@ && args@[1]@ == env_sourced(
                    root_dir@,
                    cmd@,
                ),
            },
    {
        let command = Self::with_env_source(root_dir, cmd);
        match remote {
            Some(r) => CommandRun::Remote {
                command,
                remote: RemoteInfo {
                    user: r.user.clone(),
                    host: r.host.clone(),
                    port: r.port,
                    password: r.password.clone(),
                },
            },
            None => {
                let mut args: Vec<String> = Vec::new();
                args.push(String::from_str("-c"));
                args.push(command);
                CommandRun::Local { program: String::from_str("bash"), args }
            },
        }
    }

    /// The command that makes the file `remote_path` executable after it
    /// was copied to the remote host.
    pub fn copy_file_to_remote(remote_path: &str) -> (command: String)
        ensures
            command@ == "chmod +x "@ + remote_path@,
    {
        let mut command = String::from_str("chmod +x ");
        command.append(remote_path);
        command
    }

    /// How the directory `local_path` is copied to `remote_path` on the
    /// host `remote`.
    pub fn sync_dir_to_remote(remote: &RemoteInfo, local_path: &str, remote_path: &str) -> (plan:
        SyncPlan)
        ensures
            plan.prepare@ == "mkdir -p "@ + remote_path@,
            plan.program@ == "sshpass"@,
            arg_texts(plan.args@) == sync_args(*remote, local_path@, remote_path@),
    {
        let mut prepare = String::from_str("mkdir -p ");
        prepare.append(remote_path);
        let mut ssh = String::from_str("ssh -p ");
        ssh.append(crate::text::decimal_string(remote.port as u64).as_str());
        let mut from = crate::text::strip_slashes(local_path);
        from.append("/");
        let mut to = remote.user.clone();
        to.append("@");
        to.append(remote.host.as_str());
        to.append(":");
        to.append(crate::text::strip_slashes(remote_path).as_str());
        to.append("/");
        let mut args: Vec<String> = Vec::new();
        args.push(String::from_str("-p"));
        args.push(remote.password.clone());
        args.push(String::from_str("rsync"));
        args.push(String::from_str("-azP"));
        args.push(String::from_str("--delete"));
        args.push(String::from_str("--exclude"));
        args.push(String::from_str("build/"));
        args.push(String::from_str("--exclude"));
        args.push(String::from_str(".dart_tool/"));
        args.push(String::from_str("--exclude"));
        args.push(String::from_str(".git/"));
        args.push(String::from_str("-e"));
        args.push(ssh);
        args.push(from);
        args.push(to);
        assert(arg_texts(args@) =~= sync_args(*remote, local_path@, remote_path@));
        SyncPlan { prepare, program: String::from_str("sshpass"), args }
    }

    /// The error of a copy that failed, given what the tool printed on its
    /// standard error.
    pub fn sync_failure(stderr: &str) -> (e: String)
        ensures
            e@ == "rsync failed: "@ + stderr@,
    {
        let mut e = String::from_str("rsync failed: ");
        e.append(stderr);
        e
    }
}

} // verus!

verus! {

/// The escape character.
pub open spec fn escape() -> char {
    '\u{1b}'
}

/// A hexadecimal digit.
pub open spec fn is_hex(c: char) -> bool {
    ('0' <= c && c <= '9') || ('a' <= c && c <= 'f') || ('A' <= c && c <= 'F')
}

/// The value of a hexadecimal digit.
pub open spec fn hex_value(c: char) -> int {
    if '0' <= c && c <= '9' {
        c as int - '0' as int
    } else if 'a' <= c && c <= 'f' {
        c as int - 'a' as int + 10
    } else {
        c as int - 'A' as int + 10
    }
}

/// The number of zeros with which `s` begins.
pub open spec fn zero_run(s: Seq<char>) -> int
    decreases s.len(),
{
    if s.len() == 0 || s[0] != '0' {
        0
    } else {
        1 + zero_run(s.skip(1))
    }
}

/// The ways in which an escape character is written out in logs.
///
/// The grammar of these notations is this library's own. The spec function
/// `written_out` is its whole statement, and `unescape_ansi` is proved
/// against it: no pattern engine stands behind it.
pub enum Notation {
    /// `\u`, zeros, then `01b` or `01B`.
    Unicode,
    /// `\e`.
    Letter,
    /// `\033` or `\33`.
    Octal,
    /// `\x` and two hexadecimal digits: any byte; a byte above 127 becomes
    /// the replacement character.
    Hex,
}

/// The written-out character that begins `s`, in the notation
/// `notation`: the character that it stands for, and the number of
/// characters that it takes.
pub open spec fn written_out(s: Seq<char>, notation: Notation) -> Option<(char, int)> {
    if s.len() < 2 || s[0] != '\\' {
        None
    } else {
        match notation {
            Notation::Unicode => {
                let z = zero_run(s.skip(2));
                if s[1] == 'u' && z >= 1 && 2 + z + 1 < s.len() && s[2 + z] == '1' && (s[2 + z + 1]
                    == 'b' || s[2 + z + 1] == 'B') {
                    Some((escape(), z + 4))
                } else {
                    None
                }
            },
            Notation::Letter => if s[1] == 'e' {
                Some((escape(), 2))
            } else {
                None
            },
            Notation::Octal => if s.len() >= 4 && s[1] == '0' && s[2] == '3' && s[3] == '3' {
                Some((escape(), 4))
            } else if s.len() >= 3 && s[1] == '3' && s[2] == '3' {
                Some((escape(), 3))
            } else {
                None
            },
            Notation::Hex => if s.len() >= 4 && s[1] == 'x' && is_hex(s[2]) && is_hex(s[3]) {
                let byte = hex_value(s[2]) * 16 + hex_value(s[3]);
                Some(
                    (
                        if byte < 128 {
                            byte as char
                        } else {
                            '\u{fffd}'
                        },
                        4,
                    ),
                )
            } else {
                None
            },
        }
    }
}

/// `s` with every character that is written out in the notation
/// `notation` put in, going from left to right.
pub open spec fn put_in(s: Seq<char>, notation: Notation) -> Seq<char>
    decreases s.len(),
{
    if s.len() == 0 {
        Seq::empty()
    } else {
        match written_out(s, notation) {
            Some((c, taken)) => if 0 < taken <= s.len() {
                seq![c] + put_in(s.skip(taken), notation)
            } else {
                s
            },
            None => seq![s[0]] + put_in(s.skip(1), notation)
        }
    }
}

/// `s` with the escape sequences that logs write out put in: first the
/// Unicode notation, then `\e`, then the octal notation, then `\x`.
pub open spec fn unescaped(s: Seq<char>) -> Seq<char> {
    put_in(put_in(put_in(put_in(s, Notation::Unicode), Notation::Letter), Notation::Octal), Notation::Hex)
}

fn hex_digit(c: char) -> (r: Option<u8>)
    ensures
        match r {
            Some(v) => is_hex(c) && v == hex_value(c),
            None => !is_hex(c),
        },
{
    if '0' <= c && c <= '9' {
        Some((c as u32 - '0' as u32) as u8)
    } else if 'a' <= c && c <= 'f' {
        Some((c as u32 - 'a' as u32 + 10) as u8)
    } else if 'A' <= c && c <= 'F' {
        Some((c as u32 - 'A' as u32 + 10) as u8)
    } else {
        None
    }
}

fn zeros_from(s: &Vec<char>, from: usize) -> (n: usize)
    requires
        from <= s.len(),
    ensures
        n == zero_run(s@.skip(from as int)),
        from + n <= s.len(),
{
    let mut i: usize = from;
    while i < s.len() && s[i] == '0'
        invariant
            from <= i <= s.len(),
            zero_run(s@.skip(from as int)) == (i - from) + zero_run(s@.skip(i as int)),
        decreases s.len() - i,
    {
        proof {
            assert(s@.skip(i as int)[0] == s@[i as int]);
            assert(s@.skip(i as int).skip(1) =~= s@.skip(i + 1));
        }
        i += 1;
    }
    proof {
        if i < s.len() {
            assert(s@.skip(i as int)[0] == s@[i as int]);
        }
    }
    i - from
}

fn written_at(s: &Vec<char>, i: usize, notation: &Notation) -> (r: Option<(char, usize)>)
    requires
        i < s.len(),
    ensures
        match r {
            Some((c, taken)) => written_out(s@.skip(i as int), *notation) == Some((c, taken as int))
                && 0 < taken && i + taken <= s.len(),
            None => written_out(s@.skip(i as int), *notation) is None,
        },
{
    let ghost rest = s@.skip(i as int);
    let left: usize = s.len() - i;
    proof {
        assert(rest.len() == left);
        assert(forall|k: int| 0 <= k < left ==> rest[k] == s@[i + k]);
    }
    if left < 2 || s[i] != '\\' {
        return None;
    }
    match notation {
        Notation::Unicode => {
            if s[i + 1] != 'u' {
                return None;
            }
            let z = zeros_from(s, i + 2);
            proof {
                assert(rest.skip(2) =~= s@.skip(i + 2));
            }
            if z >= 1 && left - 2 - z >= 2 && s[i + 2 + z] == '1' && (s[i + 2 + z + 1] == 'b' || s[i
                + 2 + z + 1] == 'B') {
                Some(('\u{1b}', z + 4))
            } else {
                None
            }
        },
        Notation::Letter => {
            if s[i + 1] == 'e' {
                Some(('\u{1b}', 2))
            } else {
                None
            }
        },
        Notation::Octal => {
            if left >= 4 && s[i + 1] == '0' && s[i + 2] == '3' && s[i + 3] == '3' {
                Some(('\u{1b}', 4))
            } else if left >= 3 && s[i + 1] == '3' && s[i + 2] == '3' {
                Some(('\u{1b}', 3))
            } else {
                None
            }
        },
        Notation::Hex => {
            if left >= 4 && s[i + 1] == 'x' {
                match (hex_digit(s[i + 2]), hex_digit(s[i + 3])) {
                    (Some(high), Some(low)) => {
                        let byte: u8 = high * 16 + low;
                        if byte < 128 {
                            Some((byte as char, 4))
                        } else {
                            Some(('\u{fffd}', 4))
                        }
                    },
                    _ => None,
                }
            } else {
                None
            }
        },
    }
}

fn put_in_all(s: &Vec<char>, notation: &Notation) -> (out: Vec<char>)
    ensures
        out@ == put_in(s@, *notation),
{
    let mut out: Vec<char> = Vec::new();
    let mut i: usize = 0;
    proof {
        assert(s@.skip(0) =~= s@);
        assert(out@ + put_in(s@, *notation) =~= put_in(s@, *notation));
    }
    while i < s.len()
        invariant
            i <= s.len(),
            put_in(s@, *notation) == out@ + put_in(s@.skip(i as int), *notation),
        decreases s.len() - i,
    {
        let ghost rest = s@.skip(i as int);
        let ghost done = out@;
        match written_at(s, i, notation) {
            Some((c, taken)) => {
                out.push(c);
                proof {
                    assert(rest.skip(taken as int) =~= s@.skip(i + taken));
                    assert(done.push(c) + put_in(rest.skip(taken as int), *notation) =~= done + (
                    seq![c] + put_in(rest.skip(taken as int), *notation)));
                }
                i += taken;
            },
            None => {
                out.push(s[i]);
                proof {
                    assert(rest[0] == s@[i as int]);
                    assert(rest.skip(1) =~= s@.skip(i + 1));
                    assert(done.push(s@[i as int]) + put_in(rest.skip(1), *notation) =~= done + (
                    seq![rest[0]] + put_in(rest.skip(1), *notation)));
                }
                i += 1;
            },
        }
    }
    proof {
        assert(s@.skip(i as int) =~= Seq::<char>::empty());
        assert(out@ + Seq::<char>::empty() =~= out@);
    }
    out
}

impl CommandUtils {
    /// `s` with the escape sequences that logs write out, such as
    /// `\u001b`, `\e`, `\033` and `\x1b`, turned into the characters that
    /// they stand for, so that a terminal shows the colours.
    pub fn unescape_ansi(s: String) -> (out: String)
        ensures
            out@ == unescaped(s@),
    {
        let chars = crate::text::to_chars(s.as_str());
        let a = put_in_all(&chars, &Notation::Unicode);
        let b = put_in_all(&a, &Notation::Letter);
        let c = put_in_all(&b, &Notation::Octal);
        let d = put_in_all(&c, &Notation::Hex);
        crate::text::chars_to_string(&d)
    }

    /// The exit status of a command that ran on this machine: its exit
    /// code, or -1 when it was ended by a signal.
    pub fn exit_status(code: Option<i32>) -> (status: i32)
        ensures
            status == (match code {
                Some(c) => c,
                None => -1i32,
            }),
    {
        match code {
            Some(c) => c,
            None => -1,
        }
    }
}

} // verus!
