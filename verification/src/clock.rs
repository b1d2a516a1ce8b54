//! Wall-clock readings and timestamp parsing, both done by chrono.

use vstd::prelude::*;

verus! {

/// The pattern in which sources write timestamps, in chrono's notation: a
/// date, a space, a time of day and an optional fraction of a second.
pub open spec fn timestamp_pattern() -> Seq<char> {
    "%Y-%m-%d %H:%M:%S%.f"@
}

/// What chrono reads out of `text` under `pattern`: milliseconds since the
/// Unix epoch of the date and time taken as UTC, or `None` where the text does
/// not match the pattern or names no valid date and time.
pub uninterp spec fn parsed_millis(text: Seq<char>, pattern: Seq<char>) -> Option<i64>;

/// `NaiveDateTime::parse_from_str` of chrono, followed by the conversion of
/// the parsed value to milliseconds since the epoch. Parsing depends on the two
/// texts alone, so the result has a name; nothing else is claimed of it.
#[verifier::external_body]
pub(crate) fn parse_millis(text: &str, pattern: &str) -> (at: Option<i64>)
    ensures
        at == parsed_millis(text@, pattern@),
{
    match chrono::NaiveDateTime::parse_from_str(text, pattern) {
        Ok(t) => Some(t.and_utc().timestamp_millis()),
        Err(_) => None,
    }
}

/// `Utc::now().timestamp_millis()` of chrono: the wall clock in milliseconds
/// since the epoch. Nothing is claimed of the reading. chrono gives up on a
/// system clock set before 1970.
#[verifier::external_body]
pub(crate) fn now_millis() -> i64 {
    chrono::Utc::now().timestamp_millis()
}

/// `Utc::now().date_naive()` of chrono, taken apart by `year`, `month` and
/// `day` of its `Datelike`: today's date in UTC as year, month and day. The
/// month is from 1 to 12 and the day from 1 to 31, as chrono documents them;
/// nothing is claimed of the year. chrono gives up on a system clock set
/// before 1970.
#[verifier::external_body]
pub(crate) fn today_utc() -> (today: (i32, u32, u32))
    ensures
        1 <= today.1 <= 12,
        1 <= today.2 <= 31,
{
    let today = chrono::Utc::now().date_naive();
    (chrono::Datelike::year(&today), chrono::Datelike::month(&today), chrono::Datelike::day(&today))
}

} // verus!
