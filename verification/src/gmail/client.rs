//! The client of the mail provider's API: what it asks for, and how it
//! reads what it gets.

use crate::text::{
    chars_to_string, contains, contains_seq, is_space, is_whitespace, signed_decimal,
    signed_decimal_string, string_from_utf8_lossy, to_chars, trim, trim_chars, utf8_lossy,
};
use crate::utils::patterns::{capture_group, regex_error, regex_group};
use vstd::prelude::*;
use vstd::string::*;
use vstd::utf8::{decode_utf8, valid_utf8};

verus! {

/// The error with which `std::str::from_utf8` refuses `bytes`, as text;
/// nothing when the bytes are valid UTF-8.
pub uninterp spec fn utf8_error(bytes: Seq<u8>) -> Option<Seq<char>>;

/// The bytes that `quoted_printable::decode` reads from `text` in its
/// robust mode, or its error as text.
pub uninterp spec fn quoted_printable_decoded(text: Seq<char>) -> Result<Seq<u8>, Seq<char>>;

/// The bytes that the URL-safe base64 engine without padding of the
/// `base64` crate reads from `text`, or its error as text.
pub uninterp spec fn base64url_decoded(text: Seq<char>) -> Result<Seq<u8>, Seq<char>>;

pub open spec fn bytes_view(r: Result<Vec<u8>, String>) -> Result<Seq<u8>, Seq<char>> {
    match r {
        Ok(b) => Ok(b@),
        Err(e) => Err(e@),
    }
}

pub open spec fn text_view(r: Result<String, String>) -> Result<Seq<char>, Seq<char>> {
    match r {
        Ok(s) => Ok(s@),
        Err(e) => Err(e@),
    }
}

/// Reads bytes as UTF-8 with `std::str::from_utf8`: the text that they
/// encode, or the error as text.
#[verifier::external_body]
fn read_utf8(bytes: &[u8]) -> (r: Result<String, String>)
    ensures
        match r {
            Ok(s) => valid_utf8(bytes@) && utf8_error(bytes@) is None && s@ == decode_utf8(bytes@),
            Err(e) => !valid_utf8(bytes@) && utf8_error(bytes@) == Some(e@),
        },
{
    match std::str::from_utf8(bytes) {
        Ok(s) => Ok(s.to_string()),
        Err(e) => Err(e.to_string()),
    }
}

/// Decodes quoted-printable text with `quoted_printable::decode` in its
/// robust mode.
#[verifier::external_body]
fn decode_quoted_printable(text: &str) -> (r: Result<Vec<u8>, String>)
    ensures
        bytes_view(r) == quoted_printable_decoded(text@),
{
    quoted_printable::decode(text, quoted_printable::ParseMode::Robust).map_err(|e| e.to_string())
}

/// Decodes base64 text with the URL-safe engine without padding of the
/// `base64` crate.
#[verifier::external_body]
fn decode_base64url(text: &str) -> (r: Result<Vec<u8>, String>)
    ensures
        bytes_view(r) == base64url_decoded(text@),
{
    base64::Engine::decode(&base64::engine::general_purpose::URL_SAFE_NO_PAD, text.as_bytes())
        .map_err(|e| e.to_string())
}

/// `s` without its white space.
pub open spec fn without_space(s: Seq<char>) -> Seq<char>
    decreases s.len(),
{
    if s.len() == 0 {
        Seq::empty()
    } else if is_space(s.last()) {
        without_space(s.drop_last())
    } else {
        without_space(s.drop_last()).push(s.last())
    }
}

/// The text looks like plain text or markup, not like an encoding.
pub open spec fn looks_plain(s: Seq<char>) -> bool {
    contains_seq(s, seq!['<']) || contains_seq(s, seq!['>']) || contains_seq(s, seq![':'])
}

/// The text has soft line breaks, as quoted-printable text has.
pub open spec fn looks_quoted_printable(s: Seq<char>) -> bool {
    contains_seq(s, "=\n"@) || contains_seq(s, "=\r\n"@)
}

/// The text of a mail body, given the text `s` that its data holds.
pub open spec fn decoded_body(s: Seq<char>) -> Result<Seq<char>, Seq<char>> {
    if looks_plain(s) {
        Ok(s)
    } else if looks_quoted_printable(s) {
        match quoted_printable_decoded(s) {
            Ok(bytes) => Ok(utf8_lossy(bytes)),
            Err(e) => Err(e),
        }
    } else {
        match base64url_decoded(without_space(s)) {
            Ok(bytes) => Ok(utf8_lossy(bytes)),
            Err(e) => Err(e),
        }
    }
}

/// The text of a mail body whose data are `data`.
pub open spec fn body_text(data: Seq<u8>) -> Result<Seq<char>, Seq<char>> {
    match utf8_error(data) {
        Some(e) => Err(e),
        None => decoded_body(trim(decode_utf8(data))),
    }
}

/// A part of a mail.
#[derive(Clone, Debug, PartialEq, Eq)]
pub struct MailPart {
    pub mime_type: Option<String>,
    pub data: Option<Vec<u8>>,
}

/// What a mail carries.
#[derive(Clone, Debug, PartialEq, Eq)]
pub struct MailPayload {
    pub data: Option<Vec<u8>>,
    pub parts: Option<Vec<MailPart>>,
}

/// A mail as the provider hands it out.
#[derive(Clone, Debug, PartialEq, Eq)]
pub struct MailMessage {
    pub payload: Option<MailPayload>,
}

/// The part holds text and has data.
pub open spec fn readable(part: MailPart) -> bool {
    &&& part.mime_type matches Some(t)
    &&& (t@ == "text/plain"@ || t@ == "text/html"@)
    &&& part.data is Some
}

/// The data of the first readable part at or after `from`.
pub open spec fn first_readable(parts: Seq<MailPart>, from: int) -> Option<Seq<u8>>
    decreases parts.len() - from,
{
    if from < 0 || from >= parts.len() {
        None
    } else if readable(parts[from]) {
        Some(parts[from].data->0@)
    } else {
        first_readable(parts, from + 1)
    }
}

/// The data that hold the text of a mail: those of the payload itself, or
/// of its first readable part.
pub open spec fn message_data(msg: MailMessage) -> Result<Seq<u8>, Seq<char>> {
    match msg.payload {
        None => Err("Missing email payload"@),
        Some(payload) => match payload.data {
            Some(d) => Ok(d@),
            None => match payload.parts {
                Some(parts) => match first_readable(parts@, 0) {
                    Some(d) => Ok(d),
                    None => Err("Could not extract email body"@),
                },
                None => Err("Could not extract email body"@),
            },
        },
    }
}

/// The query for the newest mail from `from` whose subject holds
/// `subject_contains`, sent after `after_timestamp` if that is given.
pub open spec fn mail_query(from: Seq<char>, subject_contains: Seq<char>, after_timestamp: Option<i64>) -> Seq<
    char,
> {
    let base = "from:"@ + from + " subject:"@ + subject_contains;
    match after_timestamp {
        Some(ts) => base + " after:"@ + signed_decimal(ts as int),
        None => base,
    }
}

/// Where the client keeps its token.
#[derive(Clone, Debug, PartialEq, Eq)]
pub struct GmailClient {
    pub s3_bucket: Option<String>,
    pub s3_key_prefix: Option<String>,
}

impl GmailClient {
    pub fn new(s3_bucket: Option<String>, s3_key_prefix: Option<String>) -> (client: Self)
        ensures
            client.s3_bucket == s3_bucket,
            client.s3_key_prefix == s3_key_prefix,
    {
        GmailClient { s3_bucket, s3_key_prefix }
    }

    /// The query that finds the mail.
    pub fn build_query(&self, from: &str, subject_contains: &str, after_timestamp: Option<i64>) -> (q:
        String)
        ensures
            q@ == mail_query(from@, subject_contains@, after_timestamp),
    {
        let mut q = String::from_str("from:");
        q.append(from);
        q.append(" subject:");
        q.append(subject_contains);
        match after_timestamp {
            Some(ts) => {
                q.append(" after:");
                q.append(signed_decimal_string(ts).as_str());
            },
            None => {},
        }
        q
    }

    /// Where the token is stored: the bucket, and `credentials.json` under
    /// the prefix, whose trailing slashes do not count. Nothing if the
    /// client has no bucket or no prefix.
    pub fn get_storage(&self) -> (place: Option<(String, String)>)
        ensures
            match place {
                Some((bucket, key)) => {
                    &&& self.s3_bucket matches Some(b)
                    &&& self.s3_key_prefix matches Some(p)
                    &&& bucket@ == b@
                    &&& key@ == crate::text::without_slashes(p@) + "/credentials.json"@
                },
                None => self.s3_bucket is None || self.s3_key_prefix is None,
            },
    {
        match (&self.s3_bucket, &self.s3_key_prefix) {
            (Some(bucket), Some(prefix)) => {
                let mut key = crate::text::strip_slashes(prefix.as_str());
                key.append("/credentials.json");
                Some((bucket.clone(), key))
            },
            _ => None,
        }
    }

    /// The value that a mail carries: what the first group of the pattern
    /// holds in `found`, the outcome of the search of the mail's text.
    pub fn code_from_match(&self, found: Result<Option<String>, String>) -> (r: Result<
        String,
        String,
    >)
        ensures
            text_view(r) == (match crate::utils::patterns::found_view(found) {
                Ok(Some(code)) => Ok(code),
                Ok(None) => Err("Regex did not match email body"@),
                Err(e) => Err("Error compiling user input regex: "@ + e),
            }),
    {
        match found {
            Ok(Some(code)) => Ok(code),
            Ok(None) => Err(String::from_str("Regex did not match email body")),
            Err(e) => {
                let mut message = String::from_str("Error compiling user input regex: ");
                message.append(e.as_str());
                Err(message)
            },
        }
    }

    /// The value that the mail text `body` carries: what the first group
    /// of `pattern` holds in its leftmost match. A pattern that does not
    /// compile and a text without a match are errors.
    pub fn extract_code_from_body(&self, body: &str, pattern: &str) -> (r: Result<String, String>)
        ensures
            text_view(r) == (match regex_error(pattern@) {
                Some(e) => Err("Error compiling user input regex: "@ + e),
                None => match regex_group(pattern@, body@, 1) {
                    Some(code) => Ok(code),
                    None => Err("Regex did not match email body"@),
                },
            }),
    {
        let found = capture_group(pattern, body, 1);
        self.code_from_match(found)
    }

    fn strip_space(s: &Vec<char>) -> (out: Vec<char>)
        ensures
            out@ == without_space(s@),
    {
        let mut out: Vec<char> = Vec::new();
        let mut i: usize = 0;
        assert(s@.take(0) =~= Seq::<char>::empty());
        while i < s.len()
            invariant
                i <= s.len(),
                out@ == without_space(s@.take(i as int)),
            decreases s.len() - i,
        {
            proof {
                let t = s@.take(i + 1);
                assert(t.last() == s@[i as int]);
                assert(t.drop_last() =~= s@.take(i as int));
            }
            if !is_whitespace(s[i]) {
                out.push(s[i]);
            }
            i += 1;
        }
        assert(s@.take(s@.len() as int) =~= s@);
        out
    }

    fn has(s: &Vec<char>, what: &str) -> (b: bool)
        ensures
            b == contains_seq(s@, what@),
    {
        let w = to_chars(what);
        contains(s, &w)
    }

    /// The text of a mail body that was read as `s`: markup and plain text
    /// as they are, quoted-printable and base64 text decoded.
    pub fn decode_text(&self, s: &str) -> (r: Result<String, String>)
        ensures
            text_view(r) == decoded_body(s@),
    {
        let chars = to_chars(s);
        proof {
            reveal_strlit("<");
            reveal_strlit(">");
            reveal_strlit(":");
            assert("<"@ =~= seq!['<']);
            assert(">"@ =~= seq!['>']);
            assert(":"@ =~= seq![':']);
        }
        if Self::has(&chars, "<") || Self::has(&chars, ">") || Self::has(&chars, ":") {
            return Ok(String::from_str(s));
        }
        if Self::has(&chars, "=\n") || Self::has(&chars, "=\r\n") {
            return match decode_quoted_printable(s) {
                Ok(bytes) => Ok(string_from_utf8_lossy(&bytes)),
                Err(e) => Err(e),
            };
        }
        let cleaned = Self::strip_space(&chars);
        let cleaned_text = chars_to_string(&cleaned);
        match decode_base64url(cleaned_text.as_str()) {
            Ok(bytes) => Ok(string_from_utf8_lossy(&bytes)),
            Err(e) => Err(e),
        }
    }

    /// The text of a mail body whose data are `data`.
    pub fn decode_gmail_body(&self, data: &[u8]) -> (r: Result<String, String>)
        ensures
            text_view(r) == body_text(data@),
    {
        match read_utf8(data) {
            Ok(text) => {
                let chars = to_chars(text.as_str());
                let trimmed = trim_chars(&chars);
                let s = chars_to_string(&trimmed);
                self.decode_text(s.as_str())
            },
            Err(e) => Err(e),
        }
    }

    /// The text of the mail `msg`: that of its payload, or of its first
    /// part that holds text.
    pub fn extract_body_from_message(&self, msg: &MailMessage) -> (r: Result<String, String>)
        ensures
            text_view(r) == (match message_data(*msg) {
                Ok(data) => body_text(data),
                Err(e) => Err(e),
            }),
    {
        let payload = match &msg.payload {
            Some(p) => p,
            None => {
                return Err(String::from_str("Missing email payload"));
            },
        };
        match &payload.data {
            Some(data) => {
                return self.decode_gmail_body(data.as_slice());
            },
            None => {},
        }
        match &payload.parts {
            Some(parts) => {
                let mut i: usize = 0;
                while i < parts.len()
                    invariant
                        i <= parts.len(),
                        msg.payload == Some(*payload),
                        payload.data is None,
                        payload.parts == Some(*parts),
                        first_readable(parts@, 0) == first_readable(parts@, i as int),
                    decreases parts.len() - i,
                {
                    let part = &parts[i];
                    match &part.mime_type {
                        Some(t) => {
                            let plain = crate::text::same_text(t.as_str(), "text/plain");
                            let html = crate::text::same_text(t.as_str(), "text/html");
                            if plain || html {
                                match &part.data {
                                    Some(data) => {
                                        return self.decode_gmail_body(data.as_slice());
                                    },
                                    None => {},
                                }
                            }
                        },
                        None => {},
                    }
                    i += 1;
                }
            },
            None => {},
        }
        Err(String::from_str("Could not extract email body"))
    }

    /// The error of a search that found no mail in time.
    pub fn search_latest_message(&self, timeout_secs: u64) -> (e: String)
        ensures
            e@ == "Timed out after "@ + crate::text::decimal(timeout_secs as nat) + " seconds"@,
    {
        let mut e = String::from_str("Timed out after ");
        e.append(crate::text::decimal_string(timeout_secs).as_str());
        e.append(" seconds");
        e
    }
}

} // verus!
