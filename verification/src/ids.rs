//! Identifiers and clock readings that come from outside the library.

use vstd::prelude::*;
use crate::text::{is_blank_text, is_white};

verus! {

/// Whether a character is a lowercase hexadecimal digit.
pub open spec fn is_lower_hex(c: char) -> bool {
    ('0' <= c && c <= '9') || ('a' <= c && c <= 'f')
}

/// Whether `s` is the hyphenated text of a random (version 4) UUID: 36
/// characters in groups of 8, 4, 4, 4 and 12 lowercase hexadecimal digits
/// joined by `-`, with the version digit `4` and a variant digit among
/// `8`, `9`, `a` and `b`.
pub open spec fn is_uuid_v4_text(s: Seq<char>) -> bool {
    &&& s.len() == 36
    &&& forall|i: int| 0 <= i < 36 ==> (#[trigger] s[i] == '-' <==> (i == 8 || i == 13 || i == 18 || i == 23))
    &&& forall|i: int|
        0 <= i < 36 && i != 8 && i != 13 && i != 18 && i != 23 ==> is_lower_hex(#[trigger] s[i])
    &&& s[14] == '4'
    &&& (s[19] == '8' || s[19] == '9' || s[19] == 'a' || s[19] == 'b')
}

/// UUID text is not blank: its first character is a hexadecimal digit.
pub proof fn lemma_uuid_not_blank(s: Seq<char>)
    requires
        is_uuid_v4_text(s),
    ensures
        !is_blank_text(s),
{
    assert(is_lower_hex(s[0]));
    assert(!is_white(s[0]));
}

/// A fresh random identifier: calls `uuid::Uuid::new_v4()` and renders it
/// with `to_string`. uuid sets the version and variant bits of the random
/// value and formats it in its lowercase hyphenated form. Which value comes
/// out is random, so only its form is claimed.
#[verifier::external_body]
pub(crate) fn new_uuid_string() -> (r: String)
    ensures
        is_uuid_v4_text(r@),
{
    uuid::Uuid::new_v4().to_string()
}

/// The current time as microseconds since the Unix epoch: calls
/// `chrono::Utc::now()` and `timestamp_micros`. The value depends on the
/// clock, so nothing is claimed of it.
#[verifier::external_body]
pub(crate) fn now_micros() -> (r: i64) {
    chrono::Utc::now().timestamp_micros()
}

/// What chrono renders for an instant given in microseconds since the Unix
/// epoch: the RFC 3339 text of its date, or `None` when chrono has no date
/// for it.
pub uninterp spec fn rfc3339_rendering(micros: i64) -> Option<Seq<char>>;

/// The RFC 3339 text that chrono gives for an instant that it has a date for.
pub open spec fn rfc3339_text(micros: i64) -> Seq<char> {
    match rfc3339_rendering(micros) {
        Some(t) => t,
        None => Seq::empty(),
    }
}

/// Renders an instant given in microseconds since the Unix epoch as
/// RFC 3339 text: calls `chrono::DateTime::from_timestamp_micros` and
/// `to_rfc3339`. chrono gives no date for instants outside its range, and
/// the result is then `None`. Both steps depend on the instant alone, so
/// the outcome is the value named `rfc3339_rendering`; which instants are
/// in range is not stated.
#[verifier::external_body]
pub(crate) fn format_rfc3339(micros: i64) -> (r: Option<String>)
    ensures
        match r {
            Some(s) => rfc3339_rendering(micros) == Some(s@),
            None => rfc3339_rendering(micros) is None,
        },
{
    match chrono::DateTime::from_timestamp_micros(micros) {
        Some(t) => Some(t.to_rfc3339()),
        None => None,
    }
}

/// The instant that chrono reads from RFC 3339 text, in microseconds since
/// the Unix epoch; `None` when chrono does not accept the text.
pub uninterp spec fn rfc3339_instant(text: Seq<char>) -> Option<i64>;

/// Reads RFC 3339 text: calls `chrono::DateTime::parse_from_rfc3339` and
/// `timestamp_micros`. The text carries its own offset, so the instant
/// depends on the text alone; it is the value named `rfc3339_instant`.
#[verifier::external_body]
pub(crate) fn parse_rfc3339(text: &str) -> (r: Option<i64>)
    ensures
        r == rfc3339_instant(text@),
{
    match chrono::DateTime::parse_from_rfc3339(text) {
        Ok(dt) => Some(dt.timestamp_micros()),
        Err(_) => None,
    }
}

/// The current time as RFC 3339 text: calls `chrono::Utc::now()` and
/// `to_rfc3339`. Which instant is read depends on the clock, and nothing is
/// claimed of it; what is claimed is that the text is RFC 3339, which
/// chrono's own `parse_from_rfc3339` reads back.
#[verifier::external_body]
pub(crate) fn now_rfc3339() -> (r: String)
    ensures
        rfc3339_instant(r@) is Some,
{
    chrono::Utc::now().to_rfc3339()
}

} // verus!
