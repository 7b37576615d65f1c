//! A UTC instant as calendar fields, with its two text forms: the RFC 3339
//! form kept in the journal file and the `YYYY-MM-DD HH:MM:SS` form shown to
//! the user.
use vstd::prelude::*;
use chrono::{Datelike, Timelike};
use crate::digits::{padded, push_padded};
use crate::text::string_of;

verus! {

/// A UTC instant. A leap second is written as second 60.
#[derive(Clone, Copy, Debug, PartialEq, Eq, Structural)]
pub struct Timestamp {
    pub year: u32,
    pub month: u32,
    pub day: u32,
    pub hour: u32,
    pub minute: u32,
    pub second: u32,
    pub nanosecond: u32,
}

impl Timestamp {
    /// Every field is in its range; the year has at most four digits.
    pub open spec fn wf(self) -> bool {
        &&& self.year <= 9999
        &&& 1 <= self.month <= 12
        &&& 1 <= self.day <= days_in_month(self.year, self.month)
        &&& self.hour < 24
        &&& self.minute < 60
        &&& self.second <= 60
        &&& self.nanosecond < 1_000_000_000
    }
}

/// A year of the Gregorian calendar with a February 29.
pub open spec fn is_leap_year(year: u32) -> bool {
    (year % 4 == 0 && year % 100 != 0) || year % 400 == 0
}

/// The number of days of month `month` (from 1) of year `year`.
pub open spec fn days_in_month(year: u32, month: u32) -> u32 {
    if month == 2 {
        if is_leap_year(year) {
            29
        } else {
            28
        }
    } else if month == 4 || month == 6 || month == 9 || month == 11 {
        30
    } else {
        31
    }
}

/// `YYYY-MM-DD`.
pub open spec fn date_form(t: Timestamp) -> Seq<char> {
    padded(t.year as nat, 4) + seq!['-'] + padded(t.month as nat, 2) + seq!['-'] + padded(
        t.day as nat,
        2,
    )
}

/// `HH:MM:SS`.
pub open spec fn clock_form(t: Timestamp) -> Seq<char> {
    padded(t.hour as nat, 2) + seq![':'] + padded(t.minute as nat, 2) + seq![':'] + padded(
        t.second as nat,
        2,
    )
}

/// How a timestamp is shown: `YYYY-MM-DD HH:MM:SS`.
pub open spec fn display_form(t: Timestamp) -> Seq<char> {
    date_form(t) + seq![' '] + clock_form(t)
}

/// The fraction of a second, with as few of three, six or nine digits as
/// hold it exactly, and nothing for a whole second.
pub open spec fn fraction_form(n: nat) -> Seq<char> {
    if n == 0 {
        Seq::empty()
    } else if n % 1_000_000 == 0 {
        seq!['.'] + padded(n / 1_000_000, 3)
    } else if n % 1_000 == 0 {
        seq!['.'] + padded(n / 1_000, 6)
    } else {
        seq!['.'] + padded(n, 9)
    }
}

/// How a timestamp is stored: `YYYY-MM-DDTHH:MM:SS[.fff[fff[fff]]]Z`.
pub open spec fn rfc3339_form(t: Timestamp) -> Seq<char> {
    date_form(t) + seq!['T'] + clock_form(t) + fraction_form(t.nanosecond as nat) + seq!['Z']
}

/// Appends `date_form(t)` to `out`.
fn push_date(out: &mut Vec<char>, t: &Timestamp)
    ensures
        final(out)@ == old(out)@ + date_form(*t),
{
    push_padded(out, t.year, 4);
    out.push('-');
    push_padded(out, t.month, 2);
    out.push('-');
    push_padded(out, t.day, 2);
    assert(final(out)@ =~= old(out)@ + date_form(*t));
}

/// Appends `clock_form(t)` to `out`.
fn push_clock(out: &mut Vec<char>, t: &Timestamp)
    ensures
        final(out)@ == old(out)@ + clock_form(*t),
{
    push_padded(out, t.hour, 2);
    out.push(':');
    push_padded(out, t.minute, 2);
    out.push(':');
    push_padded(out, t.second, 2);
    assert(final(out)@ =~= old(out)@ + clock_form(*t));
}

/// Appends `fraction_form(n)` to `out`.
fn push_fraction(out: &mut Vec<char>, n: u32)
    ensures
        final(out)@ == old(out)@ + fraction_form(n as nat),
{
    if n == 0 {
        assert(old(out)@ + Seq::<char>::empty() =~= old(out)@);
    } else if n % 1_000_000 == 0 {
        out.push('.');
        push_padded(out, n / 1_000_000, 3);
    } else if n % 1_000 == 0 {
        out.push('.');
        push_padded(out, n / 1_000, 6);
    } else {
        out.push('.');
        push_padded(out, n, 9);
    }
    assert(final(out)@ =~= old(out)@ + fraction_form(n as nat));
}

impl Timestamp {
    /// The timestamp as shown to the user: `YYYY-MM-DD HH:MM:SS`.
    pub fn display(&self) -> (r: String)
        ensures
            r@ == display_form(*self),
    {
        let mut out: Vec<char> = Vec::new();
        push_date(&mut out, self);
        out.push(' ');
        push_clock(&mut out, self);
        assert(out@ =~= display_form(*self));
        string_of(&out)
    }

    /// The characters of the stored form of the timestamp.
    pub fn rfc3339_chars(&self) -> (r: Vec<char>)
        ensures
            r@ == rfc3339_form(*self),
    {
        let mut out: Vec<char> = Vec::new();
        push_date(&mut out, self);
        out.push('T');
        push_clock(&mut out, self);
        push_fraction(&mut out, self.nanosecond);
        out.push('Z');
        assert(out@ =~= rfc3339_form(*self));
        out
    }

    /// The timestamp in its stored form, as in `2024-05-01T09:30:00.25Z`.
    pub fn to_rfc3339(&self) -> (r: String)
        ensures
            r@ == rfc3339_form(*self),
    {
        let cs = self.rfc3339_chars();
        string_of(&cs)
    }
}


/// Year, month, day, hour, minute, second and nanosecond of a UTC instant,
/// as chrono reads them through `Datelike` and `Timelike`.
pub type CalendarFields = (i32, u32, u32, u32, u32, u32, u32);

/// The fields are in the ranges that `Datelike` and `Timelike` document; the
/// nanosecond passes one billion only within a leap second.
pub open spec fn fields_in_range(f: CalendarFields) -> bool {
    &&& 1 <= f.1 <= 12
    &&& 1 <= f.2 <= 31
    &&& f.3 < 24
    &&& f.4 < 60
    &&& f.5 < 60
    &&& f.6 < 2_000_000_000
}

/// The timestamp of the given fields. A nanosecond count of one billion or
/// more marks a leap second, which is written as second 60. `None` where a
/// field is out of range after that, or the year is negative or has more
/// than four digits.
pub open spec fn timestamp_of_fields(f: CalendarFields) -> Option<Timestamp> {
    let leap = f.6 >= 1_000_000_000;
    let t = Timestamp {
        year: f.0 as u32,
        month: f.1,
        day: f.2,
        hour: f.3,
        minute: f.4,
        second: if leap {
            (f.5 + 1) as u32
        } else {
            f.5
        },
        nanosecond: if leap {
            (f.6 - 1_000_000_000) as u32
        } else {
            f.6
        },
    };
    if 0 <= f.0 && f.5 < 60 && t.wf() {
        Some(t)
    } else {
        None
    }
}

/// The UTC fields of the instant `secs` seconds and `nanos` nanoseconds after
/// the Unix epoch, where chrono can represent it.
pub uninterp spec fn utc_fields_at(secs: i64, nanos: u32) -> Option<CalendarFields>;

/// The UTC fields of the instant that an RFC 3339 text writes, where chrono
/// reads one.
pub uninterp spec fn rfc3339_utc_fields(s: Seq<char>) -> Option<CalendarFields>;

/// Relies on `SystemTime::now` and `duration_since(UNIX_EPOCH)`: the time
/// since the Unix epoch in whole seconds and the nanoseconds past them;
/// `None` where the clock reads before the epoch.
#[verifier::external_body]
fn unix_time_now() -> (r: Option<(u64, u32)>)
    ensures
        r matches Some(d) ==> d.1 < 1_000_000_000,
{
    std::time::SystemTime::now().duration_since(std::time::UNIX_EPOCH).ok().map(
        |d| (d.as_secs(), d.subsec_nanos()),
    )
}

/// Relies on chrono's `DateTime::from_timestamp`, read through `Datelike`
/// and `Timelike`: the UTC fields of a Unix time, where chrono represents it.
#[verifier::external_body]
fn utc_fields_of_unix(secs: i64, nanos: u32) -> (r: Option<CalendarFields>)
    ensures
        r == utc_fields_at(secs, nanos),
        r matches Some(f) ==> fields_in_range(f),
{
    chrono::DateTime::from_timestamp(secs, nanos).map(
        |t| (t.year(), t.month(), t.day(), t.hour(), t.minute(), t.second(), t.nanosecond()),
    )
}

/// Relies on chrono's `FromStr` for `DateTime<FixedOffset>` (its relaxed
/// RFC 3339 reader) and `with_timezone(&Utc)`: the UTC fields of the instant
/// that `s` writes, where it writes one.
#[verifier::external_body]
fn utc_fields_of_rfc3339(s: &str) -> (r: Option<CalendarFields>)
    ensures
        r == rfc3339_utc_fields(s@),
        r matches Some(f) ==> fields_in_range(f),
{
    s.parse::<chrono::DateTime<chrono::FixedOffset>>().ok().map(|d| d.with_timezone(&chrono::Utc)).map(
        |t| (t.year(), t.month(), t.day(), t.hour(), t.minute(), t.second(), t.nanosecond()),
    )
}

fn days_in_month_exec(year: u32, month: u32) -> (r: u32)
    ensures
        r == days_in_month(year, month),
{
    if month == 2 {
        if (year % 4 == 0 && year % 100 != 0) || year % 400 == 0 {
            29
        } else {
            28
        }
    } else if month == 4 || month == 6 || month == 9 || month == 11 {
        30
    } else {
        31
    }
}

impl Timestamp {
    /// The timestamp of the given calendar fields; see `timestamp_of_fields`.
    pub fn from_fields(
        year: i32,
        month: u32,
        day: u32,
        hour: u32,
        minute: u32,
        second: u32,
        nanosecond: u32,
    ) -> (r: Option<Timestamp>)
        ensures
            r == timestamp_of_fields((year, month, day, hour, minute, second, nanosecond)),
    {
        if year < 0 || second >= 60 {
            return None;
        }
        let (second, nanosecond) = if nanosecond >= 1_000_000_000 {
            (second + 1, nanosecond - 1_000_000_000)
        } else {
            (second, nanosecond)
        };
        let t = Timestamp { year: year as u32, month, day, hour, minute, second, nanosecond };
        if t.year <= 9999 && 1 <= t.month && t.month <= 12 && 1 <= t.day && t.day
            <= days_in_month_exec(t.year, t.month) && t.hour < 24 && t.minute < 60 && t.second <= 60
            && t.nanosecond < 1_000_000_000 {
            Some(t)
        } else {
            None
        }
    }

    /// The timestamp that the RFC 3339 text `s` writes, in UTC; `None` where
    /// chrono reads no instant from it or the instant has no timestamp here.
    pub fn from_rfc3339(s: &str) -> (r: Option<Timestamp>)
        ensures
            r == match rfc3339_utc_fields(s@) {
                Some(f) => timestamp_of_fields(f),
                None => None,
            },
    {
        match utc_fields_of_rfc3339(s) {
            Some(f) => Timestamp::from_fields(f.0, f.1, f.2, f.3, f.4, f.5, f.6),
            None => None,
        }
    }

    /// The current UTC time; `None` where the clock reads before the Unix
    /// epoch or its year does not have four digits.
    pub fn now() -> (r: Option<Timestamp>)
        ensures
            r matches Some(t) ==> t.wf(),
    {
        match unix_time_now() {
            Some((secs, nanos)) => {
                if secs > i64::MAX as u64 {
                    return None;
                }
                match utc_fields_of_unix(secs as i64, nanos) {
                    Some(f) => Timestamp::from_fields(f.0, f.1, f.2, f.3, f.4, f.5, f.6),
                    None => None,
                }
            },
            None => None,
        }
    }
}

} // verus!
