//! The out-of-band channel by which a waiting test is told to go on.
//!
//! A test that needs outside input prints a fixed sentence naming the input
//! it waits for; it is released by a bus call that carries the value.
//!
//! The grammar of that sentence is this library's own. The spec functions
//! below are its whole statement, and the reader is proved against them: no
//! pattern engine stands behind it.

use crate::text::{find_char, slice_of, to_chars};
use vstd::prelude::*;
use vstd::string::*;

verus! {

pub const DBUS_PATH: &'static str = "/one/playmaster/E2E";

pub const DBUS_INTERFACE: &'static str = "one.playmaster.E2E";

pub const DBUS_METHOD_CONTINUE: &'static str = "Continue";

/// The sentence that opens a continuation request. Each `.` in it stands for
/// any one character other than a line feed.
pub open spec fn continue_head() -> Seq<char> {
    "Waiting for DBus method call one.playmaster.E2E.Continue("@
}

/// The head of the sentence stands in `line` at index `i`.
pub open spec fn head_matches_at(line: Seq<char>, i: int) -> bool {
    &&& 0 <= i
    &&& i + continue_head().len() <= line.len()
    &&& forall|k: int|
        0 <= k < continue_head().len() ==> if continue_head()[k] == '.' {
            #[trigger] line[i + k] != '\n'
        } else {
            line[i + k] == continue_head()[k]
        }
}

/// The input named by a request that starts at index `i` of `line`: the head,
/// the name up to the first `)`, then `)`, a space and three more characters,
/// none of them a line feed.
pub open spec fn request_at(line: Seq<char>, i: int) -> Option<Seq<char>> {
    if !head_matches_at(line, i) {
        None
    } else {
        let rest = line.skip(i + continue_head().len());
        let close = first_close(rest);
        if close + 5 <= rest.len() && rest[close + 1] == ' ' && rest[close + 2] != '\n' && rest[close
            + 3] != '\n' && rest[close + 4] != '\n' {
            Some(rest.take(close))
        } else {
            None
        }
    }
}

pub open spec fn first_close(rest: Seq<char>) -> int {
    crate::text::first_index_of(rest, ')')
}

/// The first request found at or after index `i`.
pub open spec fn continue_request_from(line: Seq<char>, i: int) -> Option<Seq<char>>
    decreases line.len() + 1 - i,
{
    if i < 0 || i > line.len() {
        None
    } else if request_at(line, i) is Some {
        request_at(line, i)
    } else {
        continue_request_from(line, i + 1)
    }
}

/// The input that `line` asks for, if it holds a continuation request.
pub open spec fn continue_request(line: Seq<char>) -> Option<Seq<char>> {
    continue_request_from(line, 0)
}

/// The command that hands `input` to the waiting test.
pub open spec fn continue_cmd(input: Seq<char>) -> Seq<char> {
    "busctl --user call "@ + DBUS_INTERFACE@ + " "@ + DBUS_PATH@ + " "@ + DBUS_INTERFACE@ + " "@
        + DBUS_METHOD_CONTINUE@ + " s \""@ + input + "\""@
}

pub struct DbusUtils {}

impl DbusUtils {
    pub fn get_dbus_path() -> (r: &'static str)
        ensures
            r@ == DBUS_PATH@,
    {
        DBUS_PATH
    }

    pub fn get_dbus_interface() -> (r: &'static str)
        ensures
            r@ == DBUS_INTERFACE@,
    {
        DBUS_INTERFACE
    }

    pub fn get_dbus_method_continue() -> (r: &'static str)
        ensures
            r@ == DBUS_METHOD_CONTINUE@,
    {
        DBUS_METHOD_CONTINUE
    }

    /// The shell command that calls the continue method with `input`.
    pub fn dbus_method_continue_cmd(input: &str) -> (r: String)
        ensures
            r@ == continue_cmd(input@),
    {
        let mut s = String::from_str("busctl --user call ");
        s.append(Self::get_dbus_interface());
        s.append(" ");
        s.append(Self::get_dbus_path());
        s.append(" ");
        s.append(Self::get_dbus_interface());
        s.append(" ");
        s.append(Self::get_dbus_method_continue());
        s.append(" s \"");
        s.append(input);
        s.append("\"");
        s
    }

    fn head_at(line: &Vec<char>, head: &Vec<char>, i: usize) -> (b: bool)
        requires
            head@ == continue_head(),
        ensures
            b == head_matches_at(line@, i as int),
            b ==> i + head.len() <= line.len(),
    {
        if i > line.len() || head.len() > line.len() - i {
            return false;
        }
        let mut k: usize = 0;
        while k < head.len()
            invariant
                k <= head.len(),
                i + head.len() <= line.len(),
                head@ == continue_head(),
                forall|j: int|
                    0 <= j < k ==> if continue_head()[j] == '.' {
                        #[trigger] line@[i + j] != '\n'
                    } else {
                        line@[i + j] == continue_head()[j]
                    },
            decreases head.len() - k,
        {
            let h: char = head[k];
            let c: char = line[i + k];
            let ok: bool = if h == '.' {
                c != '\n'
            } else {
                c == h
            };
            if !ok {
                assert(line@[i + k as int] == c);
                return false;
            }
            k += 1;
        }
        true
    }

    fn request_starting_at(line: &Vec<char>, head: &Vec<char>, i: usize) -> (r: Option<Vec<char>>)
        requires
            head@ == continue_head(),
        ensures
            match r {
                Some(name) => request_at(line@, i as int) == Some(name@),
                None => request_at(line@, i as int) is None,
            },
    {
        if !Self::head_at(line, head, i) {
            return None;
        }
        let rest = slice_of(line, i + head.len(), line.len());
        assert(rest@ == line@.skip(i + continue_head().len()));
        let close: usize = find_char(&rest, ')');
        if rest.len() < 5 || close > rest.len() - 5 {
            return None;
        }
        if rest[close + 1] == ' ' && rest[close + 2] != '\n' && rest[close + 3] != '\n' && rest[close
            + 4] != '\n' {
            let name = slice_of(&rest, 0, close);
            assert(name@ == rest@.take(close as int));
            Some(name)
        } else {
            None
        }
    }

    /// The name of the input that `line` waits for, when `line` holds a
    /// continuation request; the leftmost request counts.
    pub fn identify_continue_request(line: &str) -> (r: Option<String>)
        ensures
            match r {
                Some(name) => continue_request(line@) == Some(name@),
                None => continue_request(line@) is None,
            },
    {
        let chars = to_chars(line);
        let head = to_chars("Waiting for DBus method call one.playmaster.E2E.Continue(");
        let mut i: usize = 0;
        while i < chars.len()
            invariant
                i <= chars.len(),
                chars@ == line@,
                head@ == continue_head(),
                continue_request(line@) == continue_request_from(line@, i as int),
            decreases chars.len() - i,
        {
            match Self::request_starting_at(&chars, &head, i) {
                Some(name) => {
                    return Some(crate::text::chars_to_string(&name));
                },
                None => {},
            }
            i += 1;
        }
        match Self::request_starting_at(&chars, &head, i) {
            Some(name) => Some(crate::text::chars_to_string(&name)),
            None => {
                assert(continue_request_from(line@, i + 1) is None);
                None
            },
        }
    }
}

} // verus!
