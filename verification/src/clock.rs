//! Unix times as the operators read them.

use crate::heartbeat::{decimal, decimal_text};
use crate::text::text_view;
use vstd::prelude::*;

verus! {

/// The calendar's text for the Unix time `secs`, in UTC: the date, the time
/// of day and the zone. `None` for a time beyond the calendar's range.
pub uninterp spec fn utc_text(secs: i64) -> Option<Seq<char>>;

/// How a Unix time is written in a message: as the calendar writes it, and
/// in plain seconds where the calendar does not reach that far.
pub open spec fn time_text(secs: u64) -> Seq<char> {
    if secs <= i64::MAX {
        match utc_text(secs as i64) {
            Some(text) => text,
            None => decimal(secs as nat),
        }
    } else {
        decimal(secs as nat)
    }
}

/// Calls `chrono::DateTime::from_timestamp` with no nanoseconds and, where
/// it gives a time, that time's `to_string`. Both depend on `secs` alone, so
/// the result is the named text of `secs`; nothing else is claimed of it.
#[verifier::external_body]
fn format_utc(secs: i64) -> (text: Option<String>)
    ensures
        text_view(text) == utc_text(secs),
{
    match chrono::DateTime::from_timestamp(secs, 0) {
        Some(time) => Some(time.to_string()),
        None => None,
    }
}

/// Writes the Unix time `secs` for a message.
pub fn format_time(secs: u64) -> (text: String)
    ensures
        text@ == time_text(secs),
{
    if secs <= 0x7fff_ffff_ffff_ffff {
        time_or_seconds(format_utc(secs as i64), secs)
    } else {
        decimal_text(secs)
    }
}

/// Writes the calendar's text `calendar` of a Unix time for a message, and
/// `secs` in plain seconds where the calendar gave none.
pub fn time_or_seconds(calendar: Option<String>, secs: u64) -> (text: String)
    ensures
        text@ == match calendar {
            Some(t) => t@,
            None => decimal(secs as nat),
        },
{
    match calendar {
        Some(text) => text,
        None => decimal_text(secs),
    }
}

} // verus!
