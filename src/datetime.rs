use vstd::prelude::*;
use vstd::string::*;

use chrono::{Offset, TimeZone};

use crate::text::{digit, digit_char};

verus! {

/// A wall-clock date and time without a zone, to the second.
#[derive(Debug, Clone, Copy, PartialEq, Eq, Structural)]
pub struct LocalDateTime {
    pub year: i32,
    pub month: u32,
    pub day: u32,
    pub hour: u32,
    pub minute: u32,
    pub second: u32,
}

impl LocalDateTime {
    /// The fields lie in their calendar ranges, with a four-digit year.
    pub open spec fn wf(&self) -> bool {
        &&& 0 <= self.year <= 9999
        &&& 1 <= self.month <= 12
        &&& 1 <= self.day <= 31
        &&& self.hour < 24
        &&& self.minute < 60
        &&& self.second < 60
    }
}

/// What `chrono_tz::Europe::Berlin` gives as the offset from UTC, in seconds, of
/// a wall-clock time there; `None` where that time does not exist or is ambiguous.
pub uninterp spec fn berlin_offset(year: int, month: int, day: int, hour: int, minute: int, second: int) -> Option<int>;

pub open spec fn berlin_offset_of(dt: LocalDateTime) -> Option<int> {
    berlin_offset(
        dt.year as int,
        dt.month as int,
        dt.day as int,
        dt.hour as int,
        dt.minute as int,
        dt.second as int,
    )
}

/// Relies on `chrono_tz::Europe::Berlin` through `TimeZone::from_local_datetime`
/// and `LocalResult::single`: the unique offset of that wall-clock time, which
/// chrono's `FixedOffset` keeps strictly within one day.
#[verifier::external_body]
fn berlin_offset_seconds(dt: &LocalDateTime) -> (r: Option<i32>)
    ensures
        match r {
            Some(o) => berlin_offset(
                dt.year as int,
                dt.month as int,
                dt.day as int,
                dt.hour as int,
                dt.minute as int,
                dt.second as int,
            ) == Some(o as int) && -86400 < o < 86400,
            None => berlin_offset(
                dt.year as int,
                dt.month as int,
                dt.day as int,
                dt.hour as int,
                dt.minute as int,
                dt.second as int,
            ) is None,
        },
{
    let date = chrono::NaiveDate::from_ymd_opt(dt.year, dt.month, dt.day)?;
    let naive = date.and_hms_opt(dt.hour, dt.minute, dt.second)?;
    let local = chrono_tz::Europe::Berlin.from_local_datetime(&naive).single()?;
    Some(local.offset().fix().local_minus_utc())
}

/// Two decimal digits of `n`.
pub open spec fn two_digits(n: int) -> Seq<char> {
    seq![digit_char((n / 10) as nat), digit_char((n % 10) as nat)]
}

/// An offset in seconds as `+HH:MM`, rounded to the nearest minute.
pub open spec fn offset_text(off: int) -> Seq<char> {
    let sign = if off < 0 { '-' } else { '+' };
    let a = if off < 0 { -off } else { off };
    let m = (a + 30) / 60;
    seq![sign] + two_digits(m / 60) + seq![':'] + two_digits(m % 60)
}

/// RFC 3339 text of a wall-clock time at offset `off`.
pub open spec fn rfc3339_of(dt: LocalDateTime, off: int) -> Seq<char> {
    two_digits(dt.year as int / 100) + two_digits(dt.year as int % 100) + seq!['-'] + two_digits(dt.month as int)
        + seq!['-'] + two_digits(dt.day as int) + seq!['T'] + two_digits(dt.hour as int) + seq![':']
        + two_digits(dt.minute as int) + seq![':'] + two_digits(dt.second as int) + offset_text(off)
}

fn push_two(s: String, n: u32) -> (r: String)
    requires
        n < 100,
    ensures
        r@ == s@ + two_digits(n as int),
{
    let r = s.concat(digit(n / 10)).concat(digit(n % 10));
    assert(r@ =~= s@ + two_digits(n as int));
    r
}

fn push_char(s: String, c: &str) -> (r: String)
    ensures
        r@ == s@ + c@,
{
    s.concat(c)
}

/// The RFC 3339 text of a wall-clock time at an offset of `offset` seconds from
/// UTC: `YYYY-MM-DDTHH:MM:SS+HH:MM`, the offset rounded to the nearest minute.
pub fn format_rfc3339(dt: &LocalDateTime, offset: i32) -> (r: String)
    requires
        dt.wf(),
        -86400 < offset < 86400,
    ensures
        r@ == rfc3339_of(*dt, offset as int),
{
    proof {
        reveal_strlit("-");
        reveal_strlit("T");
        reveal_strlit(":");
        reveal_strlit("+");
    }
    let y = dt.year as u32;
    let mut s = push_two(String::new(), y / 100);
    s = push_two(s, y % 100);
    s = push_char(s, "-");
    s = push_two(s, dt.month);
    s = push_char(s, "-");
    s = push_two(s, dt.day);
    s = push_char(s, "T");
    s = push_two(s, dt.hour);
    s = push_char(s, ":");
    s = push_two(s, dt.minute);
    s = push_char(s, ":");
    s = push_two(s, dt.second);
    let a: u32 = if offset < 0 { (0 - offset) as u32 } else { offset as u32 };
    s = push_char(s, if offset < 0 { "-" } else { "+" });
    let m = (a + 30) / 60;
    s = push_two(s, m / 60);
    s = push_char(s, ":");
    s = push_two(s, m % 60);
    assert(s@ =~= rfc3339_of(*dt, offset as int));
    s
}

/// The RFC 3339 text of a time stored as Berlin wall-clock time; `None` where that
/// time does not exist in Berlin or is ambiguous there.
pub fn format_datetime(dt: &LocalDateTime) -> (r: Option<String>)
    requires
        dt.wf(),
    ensures
        r.is_some() == berlin_offset_of(*dt).is_some(),
        r.is_some() ==> r.unwrap()@ == rfc3339_of(*dt, berlin_offset_of(*dt)->Some_0),
{
    match berlin_offset_seconds(dt) {
        Some(offset) => Some(format_rfc3339(dt, offset)),
        None => None,
    }
}

} // verus!
