//! Instants as seconds since the Unix epoch, and their text.

use vstd::prelude::*;

verus! {

/// The first second that a date can stand for: the start of the year -9999.
pub const TIMESTAMP_MIN: i64 = -377705116800;

/// The last second that a date can stand for: the end of the year 9999.
pub const TIMESTAMP_MAX: i64 = 253402300799;

/// The first second of the year 0, before which a date has no RFC 3339 text.
pub const RFC3339_MIN: i64 = -62167219200;

/// `timestamp` can stand as a date.
pub open spec fn is_date(timestamp: int) -> bool {
    TIMESTAMP_MIN <= timestamp <= TIMESTAMP_MAX
}

/// `timestamp` can be written as RFC 3339 text.
pub open spec fn has_rfc3339(timestamp: int) -> bool {
    RFC3339_MIN <= timestamp <= TIMESTAMP_MAX
}

/// The RFC 3339 text of an instant, as `time` writes it for a date in UTC
/// with no fraction of a second.
pub uninterp spec fn rfc3339_text(timestamp: int) -> Seq<char>;

/// `time::Error`, of which nothing is known.
#[verifier::external_type_specification]
#[verifier::external_body]
pub struct ExTimeError(time::Error);

/// Calls `time::OffsetDateTime::from_unix_timestamp` and writes the date with
/// `OffsetDateTime::format` in the well-known format `Rfc3339`. The first
/// fails outside the years -9999 to 9999 (the crate is built without its
/// feature `large-dates`), the second before the year 0; the text depends on
/// the instant alone.
#[verifier::external_body]
fn format_rfc3339(timestamp: i64) -> (written: Result<String, time::Error>)
    ensures
        written is Ok <==> has_rfc3339(timestamp as int),
        written matches Ok(text) ==> text@ == rfc3339_text(timestamp as int),
{
    let when = time::OffsetDateTime::from_unix_timestamp(timestamp)?;
    Ok(when.format(&time::format_description::well_known::Rfc3339)?)
}

/// The RFC 3339 text of `timestamp`, or nothing where it has none.
pub fn rfc3339(timestamp: i64) -> (text: Option<String>)
    ensures
        text is Some <==> has_rfc3339(timestamp as int),
        text matches Some(t) ==> t@ == rfc3339_text(timestamp as int),
{
    match format_rfc3339(timestamp) {
        Ok(text) => Some(text),
        Err(_) => None,
    }
}

} // verus!
