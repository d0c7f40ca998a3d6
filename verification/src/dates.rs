//! Calendar text: the `YYYY-MM-DD` form of a day bucket, through the
//! calendar library, and the clock-time text of a timestamp, computed here.
use vstd::prelude::*;

use crate::num::digit_char;
use crate::text::string_from_chars;

verus! {

/// The `YYYY-MM-DD` text of a day bucket; a function of the day alone.
pub uninterp spec fn day_str(day: int) -> Seq<char>;

/// The midnight timestamp a `YYYY-MM-DD` text denotes, if any; a function of
/// the text alone.
pub uninterp spec fn date_seconds(s: Seq<char>) -> Option<i64>;

/// The day bucket a `YYYY-MM-DD` text denotes: its midnight timestamp's day,
/// for a date from the epoch through year 9999.
pub open spec fn date_parse(s: Seq<char>) -> Option<i64> {
    match date_seconds(s) {
        Some(t) => if 0 <= t && t < 2932897 * 86400 && t % 86400 == 0 {
            Some((t / 86400) as i64)
        } else {
            None
        },
        None => None,
    }
}

/// Relies on chrono's `DateTime::from_timestamp` and date formatting: the
/// text of a day is a pure function of the day, and parsing the same pattern
/// reads back the day's midnight. For the admitted range the timestamp is
/// far inside chrono's own, so the conversion cannot fail.
#[verifier::external_body]
pub fn format_day(day: i64) -> (r: String)
    requires
        0 <= day < 2932897,
    ensures
        r@ == day_str(day as int),
        date_seconds(r@) == Some((86400 * (day as int)) as i64),
{
    let dt = chrono::DateTime::<chrono::Utc>::from_timestamp(day * 86400, 0).unwrap();
    dt.format("%Y-%m-%d").to_string()
}

/// Relies on chrono's `NaiveDate::parse_from_str` with the same pattern: the
/// midnight timestamp of the parsed date depends on the text alone, and
/// every fallible step is handled.
#[verifier::external_body]
fn parse_date_seconds(s: &str) -> (r: Option<i64>)
    ensures
        r == date_seconds(s@),
{
    let d = chrono::NaiveDate::parse_from_str(s, "%Y-%m-%d").ok()?;
    Some(d.and_hms_opt(0, 0, 0)?.and_utc().timestamp())
}

/// Reads a `YYYY-MM-DD` text as a day bucket, admitting the days the archive
/// can format back: the epoch through year 9999.
pub fn parse_day(s: &str) -> (r: Option<i64>)
    ensures
        r == date_parse(s@),
        r matches Some(d) ==> 0 <= d < 2932897,
{
    match parse_date_seconds(s) {
        Some(t) => {
            if 0 <= t && t < 2932897 * 86400 && t % 86400 == 0 {
                Some(t / 86400)
            } else {
                None
            }
        },
        None => None,
    }
}

/// Formatting a day and reading the text back is the identity; it follows
/// from the midnight timestamp the formatted text denotes.
pub fn day_text_round_trip(day: i64) -> (r: Option<i64>)
    requires
        0 <= day < 2932897,
    ensures
        r == Some(day),
        date_parse(day_str(day as int)) == Some(day),
{
    let text = format_day(day);
    parse_day(text.as_str())
}

/// Two zero-padded digits.
pub open spec fn two_digits(n: int) -> Seq<char>
    recommends
        0 <= n < 100,
{
    seq![digit_char((n / 10) as nat), digit_char((n % 10) as nat)]
}

/// The `HH:MM:SS` text of the clock time within a timestamp's day.
pub open spec fn clock_str(t: int) -> Seq<char>
    recommends
        t >= 0,
{
    let s = t % 86400;
    two_digits(s / 3600) + seq![':'] + two_digits((s % 3600) / 60) + seq![':'] + two_digits(s % 60)
}

/// Renders the clock time of a timestamp.
pub fn format_clock(t: i64) -> (r: String)
    requires
        t >= 0,
    ensures
        r@ == clock_str(t as int),
{
    let s = t % 86400;
    let h = s / 3600;
    let m = (s % 3600) / 60;
    let sec = s % 60;
    let mut out: Vec<char> = Vec::new();
    push_two_digits(&mut out, h);
    out.push(':');
    push_two_digits(&mut out, m);
    out.push(':');
    push_two_digits(&mut out, sec);
    proof {
        assert(out@ =~= clock_str(t as int));
    }
    string_from_chars(&out)
}

/// Appends two zero-padded digits.
fn push_two_digits(out: &mut Vec<char>, n: i64)
    requires
        0 <= n < 100,
    ensures
        final(out)@ == old(out)@ + two_digits(n as int),
{
    let hi: u8 = (n / 10) as u8;
    let lo: u8 = (n % 10) as u8;
    out.push((48 + hi) as char);
    out.push((48 + lo) as char);
    proof {
        assert(out@ =~= old(out)@ + two_digits(n as int));
    }
}

} // verus!
