//! The hook that reaches the machine under test.

use crate::hooks::iface::{Hook, HookType};
use crate::models::app_state::RemoteInfo;
use crate::models::args::{AppArgs, AppMode, Command};
use crate::text::{all_digits, decimal, decimal_string, digits_value, parse_digits, to_chars};
use crate::utils::patterns::{capture_group, regex_error, regex_group, text_of};
use vstd::prelude::*;
use vstd::string::*;

verus! {

/// The pattern of an address: `user@host`, with `:port` behind it or not.
pub const ADDRESS_PATTERN: &'static str = "^(?P<user>[^@]+)@(?P<host>[^:]+)(:(?P<port>\\d+))?$";

/// What the hook does first.
#[derive(Clone, Copy, Debug, PartialEq, Eq, Structural)]
pub enum ConnectStep {
    /// Nothing: the run is local.
    Skip,
    /// Ask whether to connect to a remote host.
    Ask,
    /// Connect to the remote host.
    Establish,
}

/// Why a connection could not be established.
#[derive(Clone, Debug, PartialEq, Eq)]
pub enum ConnectFailure {
    /// The host could not be reached.
    Unreachable { cause: String },
    /// No session could be set up on this side.
    Session { cause: String },
    /// The two sides could not agree on a session.
    Handshake { cause: String },
    /// The credentials were refused.
    Auth { cause: String },
    /// The session is not authenticated though no error was reported.
    Unauthenticated,
}

/// The port that stands in an address: the number that the digits write if
/// it fits a port, else 22; 22 also when the address names none.
pub open spec fn port_of(digits: Option<Seq<char>>) -> u16 {
    match digits {
        Some(d) => if d.len() > 0 && all_digits(d) && digits_value(d) <= u16::MAX {
            digits_value(d) as u16
        } else {
            22
        },
        None => 22,
    }
}

/// What an address says, given the groups that the pattern found in it.
pub open spec fn address_parts(
    whole: Option<Seq<char>>,
    user: Option<Seq<char>>,
    host: Option<Seq<char>>,
    port: Option<Seq<char>>,
) -> Result<(Seq<char>, Seq<char>, u16), Seq<char>> {
    if whole is None {
        Err("Invalid address format. Expected user@host:port"@)
    } else if user is None {
        Err("failure to parse remote address user: None Option"@)
    } else if host is None {
        Err("failure to parse remote address host: None Option"@)
    } else {
        Ok((user->0, host->0, port_of(port)))
    }
}

/// What the address `s` says.
pub open spec fn parsed_address(s: Seq<char>) -> Result<(Seq<char>, Seq<char>, u16), Seq<char>> {
    match regex_error(ADDRESS_PATTERN@) {
        Some(e) => Err(e),
        None => address_parts(
            regex_group(ADDRESS_PATTERN@, s, 0),
            regex_group(ADDRESS_PATTERN@, s, 1),
            regex_group(ADDRESS_PATTERN@, s, 2),
            regex_group(ADDRESS_PATTERN@, s, 4),
        ),
    }
}

pub open spec fn address_view(r: Result<(String, String, u16), String>) -> Result<
    (Seq<char>, Seq<char>, u16),
    Seq<char>,
> {
    match r {
        Ok((user, host, port)) => Ok((user@, host@, port)),
        Err(e) => Err(e@),
    }
}

/// The message of a failure to connect to `host` at `port`.
pub open spec fn failure_message(failure: ConnectFailure, host: Seq<char>, port: u16) -> Seq<char> {
    match failure {
        ConnectFailure::Unreachable { cause } => "unable to connect to "@ + host + ":"@ + decimal(
            port as nat,
        ) + " \u{2014} "@ + cause@,
        ConnectFailure::Session { cause } => "failed to create ssh session: "@ + cause@,
        ConnectFailure::Handshake { cause } => "SSH handshake failed: "@ + cause@,
        ConnectFailure::Auth { cause } => "SSH auth failed: "@ + cause@,
        ConnectFailure::Unauthenticated => "SSH authentication unsuccessful"@,
    }
}

/// Establishes the connection to the remote host, if one is wanted.
#[derive(Clone, Copy, Debug, PartialEq, Eq)]
pub struct HookConnect {}

impl HookConnect {
    pub fn new() -> (hook: Self)
        ensures
            hook.phase() == HookType::Connect,
            !hook.tolerant(),
    {
        HookConnect {  }
    }

    /// What the hook does first: nothing if the command line asks for a
    /// local run, the connection if it asks for a remote one, and a
    /// question if it says neither.
    pub fn first_step(&self, args: &AppArgs) -> (step: ConnectStep)
        ensures
            step == (match args.command {
                Command::Run { mode: Some(AppMode::Local), .. } => ConnectStep::Skip,
                Command::Run { mode: Some(AppMode::Remote), .. } => ConnectStep::Establish,
                _ => ConnectStep::Ask,
            }),
    {
        match &args.command {
            Command::Run { mode, .. } => match mode {
                Some(AppMode::Local) => ConnectStep::Skip,
                Some(AppMode::Remote) => ConnectStep::Establish,
                None => ConnectStep::Ask,
            },
            _ => ConnectStep::Ask,
        }
    }

    /// What follows the answer to the question: the connection if the
    /// answer was yes, else nothing.
    pub fn prompt_for_remote_conn(&self, yes: bool) -> (step: ConnectStep)
        ensures
            step == (if yes {
                ConnectStep::Establish
            } else {
                ConnectStep::Skip
            }),
    {
        if yes {
            ConnectStep::Establish
        } else {
            ConnectStep::Skip
        }
    }

    /// The address of the remote host that the command line gives; the
    /// address has to be asked for when it gives none. Only a run connects.
    pub fn remote_address(&self, args: &AppArgs) -> (r: Result<Option<String>, String>)
        ensures
            match args.command {
                Command::Run { remote_addr, .. } => r == Ok::<Option<String>, String>(remote_addr),
                _ => r matches Err(e) && e@
                    == "Invalid command context for establishing SSH connection"@,
            },
    {
        match &args.command {
            Command::Run { remote_addr, .. } => Ok(
                match remote_addr {
                    Some(a) => Some(a.clone()),
                    None => None,
                },
            ),
            _ => Err(String::from_str("Invalid command context for establishing SSH connection")),
        }
    }

    /// Puts the groups of an address together.
    pub fn address_from_groups(
        whole: Option<String>,
        user: Option<String>,
        host: Option<String>,
        port: Option<String>,
    ) -> (r: Result<(String, String, u16), String>)
        ensures
            address_view(r) == address_parts(
                text_of(whole),
                text_of(user),
                text_of(host),
                text_of(port),
            ),
    {
        if whole.is_none() {
            return Err(String::from_str("Invalid address format. Expected user@host:port"));
        }
        let user = match user {
            Some(u) => u,
            None => {
                return Err(String::from_str("failure to parse remote address user: None Option"));
            },
        };
        let host = match host {
            Some(h) => h,
            None => {
                return Err(String::from_str("failure to parse remote address host: None Option"));
            },
        };
        let port: u16 = match port {
            Some(p) => {
                let digits = to_chars(p.as_str());
                match parse_digits(&digits) {
                    Some(n) => if n <= 65535 {
                        n as u16
                    } else {
                        22
                    },
                    None => 22,
                }
            },
            None => 22,
        };
        Ok((user, host, port))
    }

    /// Reads an address of the form `user@host:port`. The port may be
    /// left out and is then 22.
    pub fn parse_addr(&self, s: &str) -> (r: Result<(String, String, u16), String>)
        ensures
            address_view(r) == parsed_address(s@),
    {
        let whole = match capture_group(ADDRESS_PATTERN, s, 0) {
            Ok(g) => g,
            Err(e) => {
                return Err(e);
            },
        };
        let user = match capture_group(ADDRESS_PATTERN, s, 1) {
            Ok(g) => g,
            Err(e) => {
                return Err(e);
            },
        };
        let host = match capture_group(ADDRESS_PATTERN, s, 2) {
            Ok(g) => g,
            Err(e) => {
                return Err(e);
            },
        };
        let port = match capture_group(ADDRESS_PATTERN, s, 4) {
            Ok(g) => g,
            Err(e) => {
                return Err(e);
            },
        };
        Self::address_from_groups(whole, user, host, port)
    }

    /// The error of an address that could not be read.
    pub fn address_error(&self, cause: &str) -> (e: String)
        ensures
            e@ == "address parse error: "@ + cause@,
    {
        let mut e = String::from_str("address parse error: ");
        e.append(cause);
        e
    }

    /// The error of a connection that could not be established: it says
    /// whether the host could not be reached, no session could be set up,
    /// the session could not be agreed on, or the credentials were refused.
    pub fn establish_ssh_connection(&self, failure: &ConnectFailure, host: &str, port: u16) -> (e:
        String)
        ensures
            e@ == failure_message(*failure, host@, port),
    {
        match failure {
            ConnectFailure::Unreachable { cause } => {
                let mut e = String::from_str("unable to connect to ");
                e.append(host);
                e.append(":");
                e.append(decimal_string(port as u64).as_str());
                e.append(" \u{2014} ");
                e.append(cause.as_str());
                e
            },
            ConnectFailure::Session { cause } => {
                let mut e = String::from_str("failed to create ssh session: ");
                e.append(cause.as_str());
                e
            },
            ConnectFailure::Handshake { cause } => {
                let mut e = String::from_str("SSH handshake failed: ");
                e.append(cause.as_str());
                e
            },
            ConnectFailure::Auth { cause } => {
                let mut e = String::from_str("SSH auth failed: ");
                e.append(cause.as_str());
                e
            },
            ConnectFailure::Unauthenticated => String::from_str("SSH authentication unsuccessful"),
        }
    }

    /// What is stored once the connection stands.
    pub fn connected(&self, user: String, host: String, port: u16, password: String) -> (remote:
        RemoteInfo)
        ensures
            remote == (RemoteInfo { user, host, port, password }),
    {
        RemoteInfo { user, host, port, password }
    }
}

impl Hook for HookConnect {
    open spec fn phase(&self) -> HookType {
        HookType::Connect
    }

    open spec fn tolerant(&self) -> bool {
        false
    }

    fn get_type(&self) -> (t: HookType) {
        HookType::Connect
    }

    fn continue_on_error(&self) -> (b: bool) {
        false
    }
}

} // verus!
