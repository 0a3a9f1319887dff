//! Time as the service sees it: seconds since the Unix epoch, read by the
//! caller and handed in, and the text under which a moment is recorded.

use vstd::prelude::*;
use cookie::time::format_description::well_known::Rfc3339;
use cookie::time::OffsetDateTime;
use crate::text::opt_text;

verus! {

/// Lifetime of a session, in seconds: seven days.
pub const SESSION_TTL_SECS: u64 = 604800;

/// Whether the expiry of a session that is issued at `now` is a moment that
/// the store can hold.
pub open spec fn expiry_fits(now: u64) -> bool {
    now + SESSION_TTL_SECS <= u64::MAX
}

/// The text that the `time` crate gives for a moment in UTC, second by
/// second, in the form `2024-01-31T23:59:59Z`; `None` where it has no date
/// for the moment.
pub uninterp spec fn utc_stamp(secs: i64) -> Option<Seq<char>>;

/// Calls `OffsetDateTime::from_unix_timestamp` and formats the result with
/// `Rfc3339`. The text depends on `secs` alone; either step may refuse a
/// moment outside the years 0 to 9999, and then there is no text.
#[verifier::external_body]
fn format_utc(secs: i64) -> (text: Option<String>)
    ensures
        opt_text(text) == utc_stamp(secs),
{
    match OffsetDateTime::from_unix_timestamp(secs) {
        Ok(moment) => match moment.format(&Rfc3339) {
            Ok(text) => Some(text),
            Err(_) => None,
        },
        Err(_) => None,
    }
}

/// The text under which the moment `now` is recorded.
pub open spec fn stamp_of(now: u64) -> Option<Seq<char>> {
    if now <= i64::MAX {
        utc_stamp(now as i64)
    } else {
        None
    }
}

/// Renders the moment `now` for a record's timestamp columns.
pub fn timestamp_text(now: u64) -> (text: Option<String>)
    ensures
        opt_text(text) == stamp_of(now),
{
    if now <= i64::MAX as u64 {
        format_utc(now as i64)
    } else {
        None
    }
}

} // verus!
