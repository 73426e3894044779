//! Days and moments, as far as `chrono` reads and writes them.

use crate::text::text_of;
use vstd::prelude::*;

verus! {

/// The moment `millis` milliseconds after 1970-01-01 00:00 UTC, written in UTC after
/// the `strftime` pattern `pattern`. `None` where `chrono` has no such moment (it
/// knows some 262,000 years either way), or cannot write the pattern.
pub uninterp spec fn moment_text(millis: i64, pattern: Seq<char>) -> Option<Seq<char>>;

/// `DateTime::<Utc>::from_timestamp_millis` of `chrono`, then `format` with `pattern`,
/// written into a string by `DelayedFormat::write_to`. Trusted: the result is named,
/// nothing more is claimed of it.
#[verifier::external_body]
pub(crate) fn format_moment(millis: i64, pattern: &str) -> (r: Option<String>)
    ensures
        text_of(r) == moment_text(millis, pattern@),
{
    let moment = chrono::DateTime::<chrono::Utc>::from_timestamp_millis(millis)?;
    let mut text = String::new();
    moment.format(pattern).write_to(&mut text).ok()?;
    Some(text)
}

/// The day that `text` names when read after the `strftime` pattern `pattern`: the
/// second at which it begins, counted from 1970-01-01 00:00 UTC. `None` where `text`
/// does not fit the pattern or names no day of the calendar.
pub uninterp spec fn day_start(text: Seq<char>, pattern: Seq<char>) -> Option<i64>;

/// `NaiveDate::parse_from_str` of `chrono`; the day is handed back as the timestamp
/// of its midnight in UTC. Trusted: the result is named, nothing more is claimed of
/// it.
#[verifier::external_body]
pub(crate) fn parse_day(text: &str, pattern: &str) -> (r: Option<i64>)
    ensures
        r == day_start(text@, pattern@),
{
    let day = chrono::NaiveDate::parse_from_str(text, pattern).ok()?;
    Some(chrono::NaiveDateTime::from(day).and_utc().timestamp())
}

} // verus!
