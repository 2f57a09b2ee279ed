//! The state that hooks and runners share during a run.

use vstd::prelude::*;
use vstd::string::*;

verus! {

/// What a command printed and how it ended.
#[derive(Clone, Debug, Default, PartialEq, Eq)]
pub struct CommandOutput {
    pub stdout: String,
    pub stderr: String,
    pub status: i32,
}

/// What is known of the operating system under test.
#[derive(Clone, Copy, Debug, Default, PartialEq, Eq)]
pub struct OsInfo {
    pub is_ostree: bool,
}

/// How to reach the remote host.
#[derive(Clone, Debug, PartialEq, Eq)]
pub struct RemoteInfo {
    pub user: String,
    pub host: String,
    pub port: u16,
    pub password: String,
}

/// The outcome of a run, handed to the hooks of the last phase.
#[derive(Clone, Debug, PartialEq, Eq)]
pub struct Results {
    pub passed: u64,
    pub failed: u64,
    pub total: u64,
    /// Seconds since the epoch.
    pub start_time: i64,
    /// Seconds since the epoch.
    pub end_time: i64,
    pub full_log: String,
    pub error: Vec<String>,
}

/// The texts of a list of strings, in order.
pub open spec fn texts(v: Seq<String>) -> Seq<Seq<char>> {
    Seq::new(v.len(), |i: int| v[i]@)
}

pub proof fn lemma_texts_push(v: Seq<String>, s: String)
    ensures
        texts(v.push(s)) == texts(v).push(s@),
{
    assert(texts(v.push(s)) =~= texts(v).push(s@));
}

impl Results {
    /// Results of a run in which nothing has happened yet.
    pub fn new() -> (r: Self)
        ensures
            r.passed == 0,
            r.failed == 0,
            r.total == 0,
            r.start_time == 0,
            r.end_time == 0,
            r.full_log@ == Seq::<char>::empty(),
            r.error@.len() == 0,
    {
        Results {
            passed: 0,
            failed: 0,
            total: 0,
            start_time: 0,
            end_time: 0,
            full_log: String::new(),
            error: Vec::new(),
        }
    }

    /// The run is a success: no test failed and no error was recorded.
    pub open spec fn clean(&self) -> bool {
        self.failed == 0 && self.error@.len() == 0
    }

    /// Whether no test failed and no error was recorded.
    pub fn is_clean(&self) -> (b: bool)
        ensures
            b == self.clean(),
    {
        self.failed == 0 && self.error.len() == 0
    }
}

/// Shared application state for hooks and runners.
#[derive(Clone, Debug, PartialEq, Eq)]
pub struct AppState {
    pub remote: Option<RemoteInfo>,
    pub os_info: OsInfo,
    pub sudo_password: String,
    pub root_dir: String,
    pub results: Results,
}

impl AppState {
    /// The state at the start of a run: local, nothing known, no results.
    pub fn new() -> (s: Self)
        ensures
            s.remote is None,
            !s.os_info.is_ostree,
            s.sudo_password@ == Seq::<char>::empty(),
            s.root_dir@ == Seq::<char>::empty(),
            s.results.passed == 0,
            s.results.failed == 0,
            s.results.total == 0,
            s.results.start_time == 0,
            s.results.end_time == 0,
            s.results.full_log@ == Seq::<char>::empty(),
            s.results.error@.len() == 0,
    {
        AppState {
            remote: None,
            os_info: OsInfo { is_ostree: false },
            sudo_password: String::new(),
            root_dir: String::new(),
            results: Results::new(),
        }
    }

    /// Stores how to reach the remote host. From then on the run is remote.
    pub fn initiate_remote(&mut self, remote: RemoteInfo)
        ensures
            *final(self) == (AppState { remote: Some(remote), ..*old(self) }),
    {
        self.remote = Some(remote);
    }

    /// Whether the run is remote.
    pub fn is_remote(&self) -> (b: bool)
        ensures
            b == self.remote is Some,
    {
        self.remote.is_some()
    }

    /// The remote host, if the run is remote.
    pub fn get_remote_info(&self) -> (r: Option<RemoteInfo>)
        ensures
            r is Some <==> self.remote is Some,
            r == self.remote,
    {
        match &self.remote {
            Some(remote) => {
                let copy = RemoteInfo {
                    user: remote.user.clone(),
                    host: remote.host.clone(),
                    port: remote.port,
                    password: remote.password.clone(),
                };
                Some(copy)
            },
            None => None,
        }
    }

    /// The working directory on the machine under test.
    pub fn get_root_dir(&self) -> (r: String)
        ensures
            r@ == self.root_dir@,
    {
        self.root_dir.clone()
    }

    /// Sets the working directory on the machine under test.
    pub fn set_root_dir(&mut self, root_dir: String)
        ensures
            *final(self) == (AppState { root_dir, ..*old(self) }),
    {
        self.root_dir = root_dir;
    }

    /// Notes what was found out about the system: once it is known to be an
    /// image-based system it stays so.
    pub fn note_ostree(&mut self, detected: bool)
        ensures
            final(self).os_info.is_ostree == (old(self).os_info.is_ostree || detected),
            final(self).remote == old(self).remote,
            final(self).sudo_password == old(self).sudo_password,
            final(self).root_dir == old(self).root_dir,
            final(self).results == old(self).results,
    {
        self.os_info.is_ostree = self.os_info.is_ostree || detected;
    }

    /// Appends an error to the results.
    pub fn add_results_error(&mut self, message: String)
        ensures
            final(self).results.error@ == old(self).results.error@.push(message),
            texts(final(self).results.error@) == texts(old(self).results.error@).push(message@),
            final(self).results.passed == old(self).results.passed,
            final(self).results.failed == old(self).results.failed,
            final(self).results.total == old(self).results.total,
            final(self).results.start_time == old(self).results.start_time,
            final(self).results.end_time == old(self).results.end_time,
            final(self).results.full_log == old(self).results.full_log,
            final(self).remote == old(self).remote,
            final(self).os_info == old(self).os_info,
            final(self).sudo_password == old(self).sudo_password,
            final(self).root_dir == old(self).root_dir,
    {
        proof {
            lemma_texts_push(self.results.error@, message);
        }
        self.results.error.push(message);
    }

    /// Sets the number of tests that have passed and failed so far.
    pub fn set_results_counts(&mut self, passed: u64, failed: u64)
        ensures
            final(self).results.passed == passed,
            final(self).results.failed == failed,
            final(self).results.total == old(self).results.total,
            final(self).results.start_time == old(self).results.start_time,
            final(self).results.end_time == old(self).results.end_time,
            final(self).results.full_log == old(self).results.full_log,
            final(self).results.error == old(self).results.error,
            final(self).remote == old(self).remote,
            final(self).os_info == old(self).os_info,
            final(self).sudo_password == old(self).sudo_password,
            final(self).root_dir == old(self).root_dir,
    {
        self.results.passed = passed;
        self.results.failed = failed;
    }

    /// Sets the number of tests that ran.
    pub fn set_results_total(&mut self, total: u64)
        ensures
            final(self).results.total == total,
            final(self).results.passed == old(self).results.passed,
            final(self).results.failed == old(self).results.failed,
            final(self).results.start_time == old(self).results.start_time,
            final(self).results.end_time == old(self).results.end_time,
            final(self).results.full_log == old(self).results.full_log,
            final(self).results.error == old(self).results.error,
            final(self).remote == old(self).remote,
            final(self).os_info == old(self).os_info,
            final(self).sudo_password == old(self).sudo_password,
            final(self).root_dir == old(self).root_dir,
    {
        self.results.total = total;
    }

    /// Sets when the tests started and ended.
    pub fn set_results_time(&mut self, start_time: i64, end_time: i64)
        ensures
            final(self).results.start_time == start_time,
            final(self).results.end_time == end_time,
            final(self).results.passed == old(self).results.passed,
            final(self).results.failed == old(self).results.failed,
            final(self).results.total == old(self).results.total,
            final(self).results.full_log == old(self).results.full_log,
            final(self).results.error == old(self).results.error,
            final(self).remote == old(self).remote,
            final(self).os_info == old(self).os_info,
            final(self).sudo_password == old(self).sudo_password,
            final(self).root_dir == old(self).root_dir,
    {
        self.results.start_time = start_time;
        self.results.end_time = end_time;
    }

    /// Stores everything that the test driver printed.
    pub fn set_results_full_log(&mut self, full_log: String)
        ensures
            final(self).results.full_log == full_log,
            final(self).results.passed == old(self).results.passed,
            final(self).results.failed == old(self).results.failed,
            final(self).results.total == old(self).results.total,
            final(self).results.start_time == old(self).results.start_time,
            final(self).results.end_time == old(self).results.end_time,
            final(self).results.error == old(self).results.error,
            final(self).remote == old(self).remote,
            final(self).os_info == old(self).os_info,
            final(self).sudo_password == old(self).sudo_password,
            final(self).root_dir == old(self).root_dir,
    {
        self.results.full_log = full_log;
    }
}

} // verus!
