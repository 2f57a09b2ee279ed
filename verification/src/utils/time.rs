//! Points in time as text, as the `chrono` crate writes them.

use vstd::prelude::*;

verus! {

/// The pattern of a full date and time with its offset.
pub const ISO_FORMAT: &'static str = "%+";

/// The pattern of a date as mail servers want it: day, month's name, year.
pub const IMAP_DATE_FORMAT: &'static str = "%d-%b-%Y";

/// How `chrono` displays the point in time that lies `secs` seconds after
/// the epoch, in universal time; nothing when the point is out of range.
pub uninterp spec fn utc_display(secs: i64) -> Option<Seq<char>>;

/// How `chrono` writes that point in time with the pattern `format`.
pub uninterp spec fn utc_formatted(secs: i64, format: Seq<char>) -> Option<Seq<char>>;

/// Makes a point in time with `chrono::DateTime::from_timestamp` and
/// displays it.
#[verifier::external_body]
pub(crate) fn display_utc(secs: i64) -> (r: Option<String>)
    ensures
        crate::utils::patterns::text_of(r) == utc_display(secs),
{
    chrono::DateTime::from_timestamp(secs, 0).map(|t| t.to_string())
}

/// Makes a point in time with `chrono::DateTime::from_timestamp` and
/// writes it with `chrono::DateTime::format`. The pattern is one of the
/// two that this library uses.
#[verifier::external_body]
pub(crate) fn format_utc(secs: i64, format: &str) -> (r: Option<String>)
    requires
        format@ == ISO_FORMAT@ || format@ == IMAP_DATE_FORMAT@,
    ensures
        crate::utils::patterns::text_of(r) == utc_formatted(secs, format@),
{
    chrono::DateTime::from_timestamp(secs, 0).map(|t| t.format(format).to_string())
}

} // verus!
