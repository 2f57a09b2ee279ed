//! The client that reads mail over IMAP.

use crate::models::config::copy_option;
use crate::text::{decimal, decimal_string, has_prefix, starts_with, to_chars};
use crate::utils::time::{format_utc, utc_formatted, IMAP_DATE_FORMAT};
use vstd::prelude::*;
use vstd::string::*;

verus! {

/// The server that is asked.
pub const IMAP_DOMAIN: &'static str = "imap.gmail.com";

/// The port of the server.
pub const IMAP_PORT: u16 = 993;

/// The number of mails that are looked at, the newest first.
pub const NEWEST_LIMIT: usize = 10;

/// The day after which mail is searched, as the server wants it; the day
/// `today` when the point in time is out of range.
pub open spec fn since_date(after_timestamp: i64, today: Seq<char>) -> Seq<char> {
    match utc_formatted(after_timestamp, IMAP_DATE_FORMAT@) {
        Some(d) => d,
        None => today,
    }
}

/// The search for mail from `from` whose subject holds
/// `subject_contains`, since the day of `after_timestamp` if that is
/// given.
pub open spec fn search_query(
    from: Seq<char>,
    subject_contains: Seq<char>,
    after_timestamp: Option<i64>,
    today: Seq<char>,
) -> Seq<char> {
    let base = "FROM \""@ + from + "\" SUBJECT \""@ + subject_contains + "\""@;
    match after_timestamp {
        Some(ts) => base + " SINCE "@ + since_date(ts, today),
        None => base,
    }
}

/// The index of the largest number among the first `n` of `ids`; the
/// first such index if the number stands more than once.
pub open spec fn largest_index(ids: Seq<u32>, n: int) -> int
    decreases n,
{
    if n <= 1 {
        0
    } else {
        let before = largest_index(ids, n - 1);
        if ids[n - 1] > ids[before] {
            n - 1
        } else {
            before
        }
    }
}

/// The `limit` largest numbers of `ids`, the largest first: the largest
/// is taken out, then the largest of what is left, and so on.
pub open spec fn newest(ids: Seq<u32>, limit: nat) -> Seq<u32>
    decreases limit,
{
    if limit == 0 || ids.len() == 0 {
        Seq::empty()
    } else {
        let i = largest_index(ids, ids.len() as int);
        seq![ids[i]] + newest(ids.remove(i), (limit - 1) as nat)
    }
}

/// A part of a mail, with the parts inside it.
#[derive(Debug)]
pub struct ParsedPart {
    /// The value of the part's `Content-Type` header.
    pub content_type: Option<String>,
    /// The part's body as text, if it can be read.
    pub body: Option<String>,
    pub subparts: Vec<ParsedPart>,
}

/// The text of the part `p`: its own body if it is plain text; else the
/// text of the first part inside it that has one; else its own body if it
/// has no parts inside.
pub open spec fn part_text(p: ParsedPart) -> Option<Seq<char>>
    decreases p, 0int,
{
    if is_plain_text(p) {
        crate::utils::patterns::text_of(p.body)
    } else {
        match first_part_text(p.subparts@, 0) {
            Some(t) => Some(t),
            None => if p.subparts@.len() == 0 {
                crate::utils::patterns::text_of(p.body)
            } else {
                None
            },
        }
    }
}

/// The text of the first part at or after `from` that has one.
pub open spec fn first_part_text(parts: Seq<ParsedPart>, from: int) -> Option<Seq<char>>
    decreases parts, parts.len() - from,
{
    if from < 0 || from >= parts.len() {
        None
    } else {
        match part_text(parts[from]) {
            Some(t) => Some(t),
            None => first_part_text(parts, from + 1),
        }
    }
}

/// The part says that it is plain text.
pub open spec fn is_plain_text(p: ParsedPart) -> bool {
    p.content_type matches Some(ct) && has_prefix(ct@, "text/plain"@)
}

/// The text of a mail whose outermost part is `mail`: the text of the
/// part, or its body, or nothing at all.
pub open spec fn mail_text(mail: ParsedPart) -> Seq<char> {
    match part_text(mail) {
        Some(t) => t,
        None => match mail.body {
            Some(b) => b@,
            None => Seq::empty(),
        },
    }
}

/// Reads mail with an application password.
#[derive(Clone, Debug, PartialEq, Eq)]
pub struct ImapGmailClient {
    pub email: String,
    pub app_password: String,
}

impl ImapGmailClient {
    pub fn new(email: String, app_password: String) -> (client: Self)
        ensures
            client.email == email,
            client.app_password == app_password,
    {
        ImapGmailClient { email, app_password }
    }

    /// The search that finds the mail. The server filters by day only;
    /// `today` is the day that is used when `after_timestamp` is out of
    /// range.
    pub fn build_search_query(
        &self,
        from: &str,
        subject_contains: &str,
        after_timestamp: Option<i64>,
        today: &str,
    ) -> (q: String)
        ensures
            q@ == search_query(from@, subject_contains@, after_timestamp, today@),
    {
        let mut q = String::from_str("FROM \"");
        q.append(from);
        q.append("\" SUBJECT \"");
        q.append(subject_contains);
        q.append("\"");
        match after_timestamp {
            Some(ts) => {
                q.append(" SINCE ");
                match format_utc(ts, IMAP_DATE_FORMAT) {
                    Some(d) => {
                        q.append(d.as_str());
                    },
                    None => {
                        q.append(today);
                    },
                }
            },
            None => {},
        }
        q
    }

    /// The numbers of the mails that are looked at: the `limit` largest of
    /// `ids`, the largest, which is the newest, first.
    pub fn newest_first(ids: &Vec<u32>, limit: usize) -> (out: Vec<u32>)
        ensures
            out@ == newest(ids@, limit as nat),
    {
        let mut rest: Vec<u32> = Vec::new();
        let mut k: usize = 0;
        while k < ids.len()
            invariant
                k <= ids.len(),
                rest@ == ids@.take(k as int),
            decreases ids.len() - k,
        {
            rest.push(ids[k]);
            assert(ids@.take(k + 1) =~= ids@.take(k as int).push(ids@[k as int]));
            k += 1;
        }
        assert(ids@.take(ids@.len() as int) =~= ids@);
        let mut out: Vec<u32> = Vec::new();
        let mut left: usize = limit;
        proof {
            assert(out@ + newest(rest@, left as nat) =~= newest(rest@, left as nat));
        }
        while left > 0 && rest.len() > 0
            invariant
                newest(ids@, limit as nat) == out@ + newest(rest@, left as nat),
            decreases left,
        {
            let mut best: usize = 0;
            let mut j: usize = 1;
            while j < rest.len()
                invariant
                    1 <= j <= rest.len(),
                    best < j,
                    best == largest_index(rest@, j as int),
                decreases rest.len() - j,
            {
                if rest[j] > rest[best] {
                    best = j;
                }
                j += 1;
            }
            let ghost before = rest@;
            let ghost done = out@;
            let taken = rest.remove(best);
            out.push(taken);
            proof {
                assert(rest@ =~= before.remove(best as int));
                assert(done.push(taken) + newest(rest@, (left - 1) as nat) =~= done + (seq![taken]
                    + newest(rest@, (left - 1) as nat)));
            }
            left -= 1;
        }
        proof {
            assert(out@ + Seq::<u32>::empty() =~= out@);
        }
        out
    }

    /// The text of the part `mail`, if the part or a part inside it has
    /// one.
    pub fn extract_text_part(mail: &ParsedPart) -> (r: Option<String>)
        ensures
            crate::utils::patterns::text_of(r) == part_text(*mail),
        decreases mail, 0int,
    {
        match &mail.content_type {
            Some(ct) => {
                let chars = to_chars(ct.as_str());
                let plain = to_chars("text/plain");
                if starts_with(&chars, &plain) {
                    return copy_option(&mail.body);
                }
            },
            None => {},
        }
        let mut i: usize = 0;
        while i < mail.subparts.len()
            invariant
                i <= mail.subparts.len(),
                first_part_text(mail.subparts@, 0) == first_part_text(mail.subparts@, i as int),
                !is_plain_text(*mail),
            decreases mail.subparts.len() - i,
        {
            let found = Self::extract_text_part(&mail.subparts[i]);
            if found.is_some() {
                return found;
            }
            i += 1;
        }
        if mail.subparts.len() == 0 {
            return copy_option(&mail.body);
        }
        None
    }

    /// The text of a mail whose outermost part is `mail`.
    pub fn extract_text_from_email(&self, mail: &ParsedPart) -> (text: String)
        ensures
            text@ == mail_text(*mail),
    {
        match Self::extract_text_part(mail) {
            Some(t) => t,
            None => match &mail.body {
                Some(b) => b.clone(),
                None => String::new(),
            },
        }
    }

    /// Whether a mail that the server dates `internal_date` is new enough:
    /// it is left out only if both times are known and the mail is older
    /// than `after_timestamp`.
    pub fn is_recent(after_timestamp: Option<i64>, internal_date: Option<i64>) -> (b: bool)
        ensures
            b == !(after_timestamp matches Some(after) && internal_date matches Some(date) && date
                < after),
    {
        match (after_timestamp, internal_date) {
            (Some(after), Some(date)) => date >= after,
            _ => true,
        }
    }

    /// How the search goes on when no mail was found: an error once
    /// `elapsed_secs` seconds have passed and the time is up, else another
    /// try.
    pub fn fetch_latest_email_matching_regex(elapsed_secs: u64, timeout_secs: u64) -> (r: Result<
        (),
        String,
    >)
        ensures
            match r {
                Ok(_) => elapsed_secs < timeout_secs,
                Err(e) => elapsed_secs >= timeout_secs && e@ == "Timed out after "@ + decimal(
                    timeout_secs as nat,
                ) + " seconds waiting for email"@,
            },
    {
        if elapsed_secs >= timeout_secs {
            let mut e = String::from_str("Timed out after ");
            e.append(decimal_string(timeout_secs).as_str());
            e.append(" seconds waiting for email");
            Err(e)
        } else {
            Ok(())
        }
    }
}

} // verus!
