//! Hooks that the user declared.

use crate::hooks::iface::{Hook, HookType};
use crate::models::config::{pair_texts, HookConfig};
use crate::text::{
    chars_to_string, is_space, is_whitespace, same_text, signed_decimal, signed_decimal_string,
    slice_of, to_chars, trim_end,
};
use vstd::prelude::*;
use vstd::string::*;

verus! {

/// The script of a hook and the command that runs it.
#[derive(Clone, Debug, PartialEq, Eq)]
pub struct RunCmd {
    pub file_path: String,
    pub command: String,
}

/// How a hook is run.
#[derive(Clone, Copy, Debug, PartialEq, Eq, Structural)]
pub enum RunMode {
    /// On this machine; the run waits for the end.
    LocalSync,
    /// On this machine; the process is left running and tracked.
    LocalAsync,
    /// On the remote host; the run waits for the end.
    RemoteSync,
    /// On the remote host; the command is left running and tracked.
    RemoteAsync,
}

/// The settings of the environment variables `pairs`, as they stand before
/// a command: `NAME='value' ` for each, in order.
pub open spec fn env_prefix(pairs: Seq<(Seq<char>, Seq<char>)>) -> Seq<char>
    decreases pairs.len(),
{
    if pairs.len() == 0 {
        Seq::empty()
    } else {
        env_prefix(pairs.drop_last()) + pairs.last().0 + "='"@ + pairs.last().1 + "' "@
    }
}

/// Some pair of `pairs` sets the variable `name`.
pub open spec fn sets(pairs: Seq<(Seq<char>, Seq<char>)>, name: Seq<char>) -> bool {
    exists|i: int| 0 <= i < pairs.len() && (#[trigger] pairs[i]).0 == name
}

/// The variables that a hook declares; none when it declares no
/// environment.
pub open spec fn declared_env(config: HookConfig) -> Seq<(Seq<char>, Seq<char>)> {
    match config.env {
        Some(pairs) => pair_texts(pairs@),
        None => Seq::empty(),
    }
}

/// The command line of a hook whose script is the file `script`: the
/// declared variables, then the display unless the hook sets it, then the
/// script.
pub open spec fn hook_command(config: HookConfig, script: Seq<char>, display: Seq<char>) -> Seq<
    char,
> {
    let env = declared_env(config);
    if sets(env, "DISPLAY"@) {
        env_prefix(env) + script
    } else {
        env_prefix(env) + "DISPLAY='"@ + display + "' "@ + script
    }
}

/// Where the last word of `t` starts: behind its last white space.
pub open spec fn last_word_start(t: Seq<char>) -> int
    decreases t.len(),
{
    if t.len() == 0 || is_space(t.last()) {
        t.len() as int
    } else {
        last_word_start(t.drop_last())
    }
}

/// The last word of `command`; empty when the command holds no word.
pub open spec fn last_word(command: Seq<char>) -> Seq<char> {
    let t = trim_end(command);
    t.skip(last_word_start(t))
}

/// How an exit code is written in a message: `Some(<code>)`, or `None`
/// when the process was ended by a signal.
pub open spec fn exit_code_text(code: Option<i32>) -> Seq<char> {
    match code {
        Some(c) => "Some("@ + signed_decimal(c as int) + ")"@,
        None => "None"@,
    }
}

/// A command of the user's, bound to a phase.
#[derive(Clone, Debug, PartialEq, Eq)]
pub struct HookCustom {
    pub config: HookConfig,
}

impl HookCustom {
    pub fn new(config: HookConfig) -> (hook: Self)
        ensures
            hook.config == config,
            hook.phase() == config.hook_type,
            hook.tolerant() == config.continue_on_error,
    {
        HookCustom { config }
    }

    /// The command line that runs the hook's script `script_path`.
    /// `display` is the display of the environment, used unless the hook
    /// sets its own.
    pub fn build_cmd(&self, script_path: &str, display: &str) -> (cmd: RunCmd)
        ensures
            cmd.file_path@ == script_path@,
            cmd.command@ == hook_command(self.config, script_path@, display@),
    {
        let mut s = String::new();
        let mut has_display = false;
        match &self.config.env {
            Some(envs) => {
                let mut i: usize = 0;
                assert(pair_texts(envs@).take(0) =~= Seq::empty());
                while i < envs.len()
                    invariant
                        i <= envs.len(),
                        s@ == env_prefix(pair_texts(envs@).take(i as int)),
                        has_display == sets(pair_texts(envs@).take(i as int), "DISPLAY"@),
                    decreases envs.len() - i,
                {
                    let ghost before = pair_texts(envs@).take(i as int);
                    let ghost after = pair_texts(envs@).take(i + 1);
                    s.append(envs[i].0.as_str());
                    s.append("='");
                    s.append(envs[i].1.as_str());
                    s.append("' ");
                    let is_display = same_text(envs[i].0.as_str(), "DISPLAY");
                    proof {
                        assert(after.drop_last() =~= before);
                        assert(after.last() == pair_texts(envs@)[i as int]);
                        if has_display {
                            let w = choose|w: int|
                                0 <= w < before.len() && (#[trigger] before[w]).0 == "DISPLAY"@;
                            assert(after[w] == before[w]);
                        }
                        if is_display {
                            assert(after[i as int].0 == "DISPLAY"@);
                        }
                        if sets(after, "DISPLAY"@) {
                            let w = choose|w: int|
                                0 <= w < after.len() && (#[trigger] after[w]).0 == "DISPLAY"@;
                            if w < i {
                                assert(before[w] == after[w]);
                            }
                        }
                    }
                    if is_display {
                        has_display = true;
                    }
                    i += 1;
                }
                assert(pair_texts(envs@).take(envs@.len() as int) =~= pair_texts(envs@));
            },
            None => {},
        }
        if !has_display {
            s.append("DISPLAY='");
            s.append(display);
            s.append("' ");
        }
        s.append(script_path);
        RunCmd { file_path: String::from_str(script_path), command: s }
    }

    /// How the hook is run: on the remote host if the run is remote, and
    /// without waiting if the hook is declared so.
    pub fn run_mode(&self, remote: bool) -> (mode: RunMode)
        ensures
            mode == (if remote {
                if self.config.is_async {
                    RunMode::RemoteAsync
                } else {
                    RunMode::RemoteSync
                }
            } else if self.config.is_async {
                RunMode::LocalAsync
            } else {
                RunMode::LocalSync
            }),
    {
        if remote {
            if self.config.is_async {
                RunMode::RemoteAsync
            } else {
                RunMode::RemoteSync
            }
        } else if self.config.is_async {
            RunMode::LocalAsync
        } else {
            RunMode::LocalSync
        }
    }

    /// The name of the file that takes what the hook printed on `stream`
    /// (`stdout` or `stderr`).
    pub fn log_file(&self, stream: &str) -> (name: String)
        ensures
            name@ == self.config.name@ + "."@ + stream@ + ".log"@,
    {
        let mut name = self.config.name.clone();
        name.append(".");
        name.append(stream);
        name.append(".log");
        name
    }

    /// How a hook that ran on this machine ended, given its exit code: well
    /// if the code is zero.
    pub fn run_local_sync(&self, exit_code: Option<i32>) -> (r: Result<(), String>)
        ensures
            match r {
                Ok(_) => exit_code == Some(0i32),
                Err(e) => exit_code != Some(0i32) && e@ == "Custom hook '"@ + self.config.name@
                    + "' failed with exit code "@ + exit_code_text(exit_code),
            },
    {
        match exit_code {
            Some(code) => {
                if code == 0 {
                    return Ok(());
                }
                let mut e = String::from_str("Custom hook '");
                e.append(self.config.name.as_str());
                e.append("' failed with exit code ");
                e.append("Some(");
                e.append(signed_decimal_string(code as i64).as_str());
                e.append(")");
                proof {
                    let head = "Custom hook '"@ + self.config.name@ + "' failed with exit code "@;
                    assert(e@ =~= head + ("Some("@ + signed_decimal(code as int) + ")"@));
                }
                Err(e)
            },
            None => {
                let mut e = String::from_str("Custom hook '");
                e.append(self.config.name.as_str());
                e.append("' failed with exit code ");
                e.append("None");
                Err(e)
            },
        }
    }

    /// The error of a hook that could not be started on this machine.
    pub fn run_local_async(&self, spawn_error: &str) -> (e: String)
        ensures
            e@ == "Failed to spawn async custom hook '"@ + self.config.name@ + "': "@
                + spawn_error@,
    {
        let mut e = String::from_str("Failed to spawn async custom hook '");
        e.append(self.config.name.as_str());
        e.append("': ");
        e.append(spawn_error);
        e
    }

    /// How a hook that ran on the remote host ended, given the status of
    /// its command: well if the status is zero.
    pub fn run_remote_sync(&self, status: i32) -> (r: Result<(), String>)
        ensures
            match r {
                Ok(_) => status == 0,
                Err(e) => status != 0 && e@ == "Remote custom hook '"@ + self.config.name@
                    + "' failed with exit code "@ + signed_decimal(status as int),
            },
    {
        if status == 0 {
            return Ok(());
        }
        let mut e = String::from_str("Remote custom hook '");
        e.append(self.config.name.as_str());
        e.append("' failed with exit code ");
        e.append(signed_decimal_string(status as i64).as_str());
        Err(e)
    }

    /// The pattern under which a hook that is left running on the remote
    /// host is tracked: the last word of its command line, which is the
    /// path of its script.
    pub fn run_remote_async(&self, command: &str) -> (pattern: String)
        ensures
            pattern@ == last_word(command@),
    {
        let chars = to_chars(command);
        let n: usize = chars.len();
        let mut end: usize = n;
        proof {
            assert(chars@.take(n as int) =~= chars@);
        }
        while end > 0 && is_whitespace(chars[end - 1])
            invariant
                end <= n == chars.len(),
                trim_end(chars@) == trim_end(chars@.take(end as int)),
            decreases end,
        {
            proof {
                let t = chars@.take(end as int);
                assert(t.last() == chars@[end - 1]);
                assert(t.drop_last() =~= chars@.take(end - 1));
            }
            end -= 1;
        }
        proof {
            assert(chars@.take(n as int) =~= chars@);
            let t = chars@.take(end as int);
            if end > 0 {
                assert(t.last() == chars@[end - 1]);
            }
            assert(trim_end(t) == t);
        }
        let ghost t = chars@.take(end as int);
        let mut start: usize = end;
        proof {
            assert(t.take(end as int) =~= t);
        }
        while start > 0 && !is_whitespace(chars[start - 1])
            invariant
                start <= end <= chars.len(),
                t == chars@.take(end as int),
                last_word_start(t) == last_word_start(t.take(start as int)),
            decreases start,
        {
            proof {
                let u = t.take(start as int);
                assert(u.last() == chars@[start - 1]);
                assert(u.drop_last() =~= t.take(start - 1));
            }
            start -= 1;
        }
        proof {
            assert(t.take(end as int) =~= t);
            let u = t.take(start as int);
            if start > 0 {
                assert(u.last() == chars@[start - 1]);
            }
            assert(last_word_start(u) == start);
            assert(t.skip(start as int) =~= chars@.subrange(start as int, end as int));
        }
        let word = slice_of(&chars, start, end);
        chars_to_string(&word)
    }
}

impl Hook for HookCustom {
    open spec fn phase(&self) -> HookType {
        self.config.hook_type
    }

    open spec fn tolerant(&self) -> bool {
        self.config.continue_on_error
    }

    fn get_type(&self) -> (t: HookType) {
        self.config.hook_type
    }

    fn continue_on_error(&self) -> (b: bool) {
        self.config.continue_on_error
    }
}

} // verus!
