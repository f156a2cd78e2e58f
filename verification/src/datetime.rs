use vstd::prelude::*;

use chrono::Datelike;

use crate::error::EdcbError;
use crate::text::{decimal, digit_char, pow10};
use crate::wire::{get16, le16, Reader, Writer};

verus! {

/// UTC offset of Japan Standard Time, in seconds.
pub const JST_OFFSET_SECONDS: i32 = 32400;

/// A calendar date and time of day at a fixed UTC offset; the fields are local to that offset.
#[derive(Debug, Clone, Copy, PartialEq, Eq, Structural)]
pub struct DateTime {
    pub year: i32,
    pub month: u32,
    pub day: u32,
    pub hour: u32,
    pub minute: u32,
    pub second: u32,
    pub nanosecond: u32,
    pub offset_seconds: i32,
}

impl DeepView for DateTime {
    type V = DateTime;

    open spec fn deep_view(&self) -> DateTime {
        *self
    }
}

/// Whether `year` is a leap year of the proleptic Gregorian calendar.
pub open spec fn is_leap_year(year: int) -> bool {
    (year % 4 == 0 && year % 100 != 0) || year % 400 == 0
}

/// Number of days of a month of the proleptic Gregorian calendar.
pub open spec fn days_in_month(year: int, month: int) -> int {
    if month == 2 {
        if is_leap_year(year) { 29 } else { 28 }
    } else if month == 4 || month == 6 || month == 9 || month == 11 {
        30
    } else {
        31
    }
}

/// Whether year, month and day name a day of the proleptic Gregorian calendar.
pub open spec fn valid_date(year: int, month: int, day: int) -> bool {
    1 <= month <= 12 && 1 <= day <= days_in_month(year, month)
}

/// Whether hour, minute and second name a time of day (no leap second).
pub open spec fn valid_time(hour: int, minute: int, second: int) -> bool {
    0 <= hour < 24 && 0 <= minute < 60 && 0 <= second < 60
}

/// The days from 1970-01-01 to a date of the proleptic Gregorian calendar (negative before it).
pub open spec fn days_from_civil(year: int, month: int, day: int) -> int {
    let y = if month <= 2 { year - 1 } else { year };
    let era = y / 400;
    let yoe = y - era * 400;
    let mp = if month > 2 { month - 3 } else { month + 9 };
    let doy = (153 * mp + 2) / 5 + day - 1;
    let doe = yoe * 365 + yoe / 4 - yoe / 100 + doy;
    era * 146097 + doe - 719468
}

/// The day of the week of a date, counted from Sunday as 0 (1970-01-01 was a Thursday).
pub open spec fn weekday_from_sunday_of(year: i32, month: u32, day: u32) -> u32 {
    ((days_from_civil(year as int, month as int, day as int) + 4) % 7) as u32
}

/// Whether a date exists: a call of `chrono::NaiveDate::from_ymd_opt`, which gives a date exactly
/// for a valid month and day of the proleptic Gregorian calendar in its year range (which holds
/// the years admitted here).
#[verifier::external_body]
fn date_exists(year: i32, month: u32, day: u32) -> (b: bool)
    requires
        0 <= year <= 65535,
    ensures
        b == valid_date(year as int, month as int, day as int),
{
    chrono::NaiveDate::from_ymd_opt(year, month, day).is_some()
}

/// Whether a time of day exists: a call of `chrono::NaiveTime::from_hms_opt`, which rejects an
/// hour of 24 or more and a minute or second of 60 or more.
#[verifier::external_body]
fn time_exists(hour: u32, minute: u32, second: u32) -> (b: bool)
    ensures
        b == valid_time(hour as int, minute as int, second as int),
{
    chrono::NaiveTime::from_hms_opt(hour, minute, second).is_some()
}

/// The day of the week of a date, from Sunday as 0: chrono's `Weekday::num_days_from_sunday`
/// of the date built by `NaiveDate::from_ymd_opt`, which counts days of the proleptic Gregorian
/// calendar.
#[verifier::external_body]
fn weekday_from_sunday(year: i32, month: u32, day: u32) -> (w: u32)
    requires
        0 <= year <= 65535,
        valid_date(year as int, month as int, day as int),
    ensures
        w == weekday_from_sunday_of(year, month, day),
        w < 7,
{
    chrono::NaiveDate::from_ymd_opt(year, month, day).unwrap().weekday().num_days_from_sunday()
}

impl DateTime {
    /// A valid date and time whose wire form (a `SYSTEMTIME`) holds its year.
    pub open spec fn wf(&self) -> bool {
        &&& 0 <= self.year <= 65535
        &&& valid_date(self.year as int, self.month as int, self.day as int)
        &&& valid_time(self.hour as int, self.minute as int, self.second as int)
        &&& self.nanosecond < 1_000_000_000
        &&& -86400 < self.offset_seconds < 86400
    }

    /// A JST date and time with zero sub-second part.
    pub open spec fn jst(year: int, month: int, day: int, hour: int, minute: int, second: int) -> DateTime {
        DateTime {
            year: year as i32,
            month: month as u32,
            day: day as u32,
            hour: hour as u32,
            minute: minute as u32,
            second: second as u32,
            nanosecond: 0,
            offset_seconds: JST_OFFSET_SECONDS,
        }
    }

    /// The UNIX epoch, as JST (1970-01-01 09:00:00 +09:00).
    pub open spec fn spec_unix_epoch_jst() -> DateTime {
        DateTime::jst(1970, 1, 1, 9, 0, 0)
    }

    /// The UNIX epoch, as JST (1970-01-01 09:00:00 +09:00).
    pub fn unix_epoch_jst() -> (d: DateTime)
        ensures
            d == DateTime::spec_unix_epoch_jst(),
    {
        DateTime {
            year: 1970,
            month: 1,
            day: 1,
            hour: 9,
            minute: 0,
            second: 0,
            nanosecond: 0,
            offset_seconds: JST_OFFSET_SECONDS,
        }
    }

    /// Whether the date and time exist and the offset is less than a day.
    pub fn is_valid(&self) -> (b: bool)
        ensures
            b == self.wf(),
    {
        0 <= self.year && self.year <= 65535 && date_exists(self.year, self.month, self.day)
            && time_exists(self.hour, self.minute, self.second) && self.nanosecond < 1_000_000_000
            && -86400 < self.offset_seconds && self.offset_seconds < 86400
    }

    /// A JST date and time, if it exists.
    pub fn from_jst(year: u16, month: u16, day: u16, hour: u16, minute: u16, second: u16) -> (r: Option<DateTime>)
        ensures
            r is Some <==> valid_date(year as int, month as int, day as int) && valid_time(
                hour as int,
                minute as int,
                second as int,
            ),
            r matches Some(d) ==> d == DateTime::jst(year as int, month as int, day as int, hour as int, minute as int, second as int)
                && d.wf(),
    {
        if date_exists(year as i32, month as u32, day as u32) && time_exists(hour as u32, minute as u32, second as u32) {
            Some(DateTime {
                year: year as i32,
                month: month as u32,
                day: day as u32,
                hour: hour as u32,
                minute: minute as u32,
                second: second as u32,
                nanosecond: 0,
                offset_seconds: JST_OFFSET_SECONDS,
            })
        } else {
            None
        }
    }
}

/// Two decimal digits of a number below 100.
pub open spec fn two_digits(n: int) -> Seq<char> {
    seq![digit_char((n / 10) as nat), digit_char((n % 10) as nat)]
}

/// The `w` decimal digits of `n` (below 10^w), with leading zeros.
pub open spec fn padded_digits(n: nat, w: nat) -> Seq<char> {
    Seq::new(w, |i: int| digit_char((n / pow10((w - 1 - i) as nat)) % 10))
}

/// A year as chrono writes it in RFC 3339 text: four digits from 0 to 9999, else a sign and
/// at least four digits.
pub open spec fn year_text(y: int) -> Seq<char> {
    if 0 <= y <= 9999 {
        two_digits(y / 100) + two_digits(y % 100)
    } else if y > 9999 {
        seq!['+'] + decimal(y as nat)
    } else if -y <= 9999 {
        seq!['-'] + padded_digits((-y) as nat, 4)
    } else {
        seq!['-'] + decimal((-y) as nat)
    }
}

/// The fraction of a second: none for whole seconds, else a point and three, six or nine
/// digits, the fewest that hold the nanoseconds.
pub open spec fn fraction_text(nano: int) -> Seq<char> {
    if nano == 0 {
        Seq::empty()
    } else if nano % 1_000_000 == 0 {
        seq!['.'] + padded_digits((nano / 1_000_000) as nat, 3)
    } else if nano % 1_000 == 0 {
        seq!['.'] + padded_digits((nano / 1_000) as nat, 6)
    } else {
        seq!['.'] + padded_digits(nano as nat, 9)
    }
}

/// An offset from UTC as `+HH:MM` or `-HH:MM`, its seconds rounded to the nearest minute.
pub open spec fn offset_text(off: int) -> Seq<char> {
    let a = if off < 0 { -off } else { off };
    let minutes = (a + 30) / 60;
    seq![if off < 0 { '-' } else { '+' }] + two_digits(minutes / 60) + seq![':'] + two_digits(minutes % 60)
}

/// The RFC 3339 text of a date and time, as chrono's `DateTime::to_rfc3339` writes it: the
/// local date and time, the fraction of a second, and the offset.
#[verifier::opaque]
pub open spec fn rfc3339_text(t: DateTime) -> Seq<char> {
    year_text(t.year as int) + seq!['-'] + two_digits(t.month as int) + seq!['-'] + two_digits(t.day as int)
        + seq!['T'] + two_digits(t.hour as int) + seq![':'] + two_digits(t.minute as int) + seq![':']
        + two_digits(t.second as int) + fraction_text(t.nanosecond as int) + offset_text(
        t.offset_seconds as int,
    )
}

/// The RFC 3339 text of a date and time: a call of chrono's `DateTime::<FixedOffset>::to_rfc3339`
/// on the same date, time and offset, which writes the text `rfc3339_text` states.
#[verifier::external_body]
pub(crate) fn rfc3339(value: &DateTime) -> (s: String)
    requires
        value.wf(),
    ensures
        s@ == rfc3339_text(*value),
{
    let offset = chrono::FixedOffset::east_opt(value.offset_seconds).unwrap();
    let date = chrono::NaiveDate::from_ymd_opt(value.year, value.month, value.day).unwrap();
    let naive = date.and_hms_nano_opt(value.hour, value.minute, value.second, value.nanosecond).unwrap();
    naive.and_local_timezone(offset).single().unwrap().to_rfc3339()
}

/// Reads a `SYSTEMTIME` (eight `u16`: year, month, day of week, day, hour, minute, second,
/// milliseconds) as JST; the day of week and milliseconds are ignored, and a date or time that
/// does not exist reads as the UNIX epoch.
#[verifier::opaque]
pub open spec fn p_system_time(s: Seq<u8>) -> Option<(DateTime, Seq<u8>)> {
    if s.len() < 16 {
        None
    } else {
        let year = get16(s);
        let month = get16(s.skip(2));
        let day = get16(s.skip(6));
        let hour = get16(s.skip(8));
        let minute = get16(s.skip(10));
        let second = get16(s.skip(12));
        let value = if valid_date(year as int, month as int, day as int) && valid_time(
            hour as int,
            minute as int,
            second as int,
        ) {
            DateTime::jst(year as int, month as int, day as int, hour as int, minute as int, second as int)
        } else {
            DateTime::spec_unix_epoch_jst()
        };
        Some((value, s.skip(16)))
    }
}

/// The `SYSTEMTIME` wire form of a date and time.
#[verifier::opaque]
pub open spec fn s_system_time(v: DateTime) -> Seq<u8> {
    le16(v.year as u16) + le16(v.month as u16) + le16(
        weekday_from_sunday_of(v.year, v.month, v.day) as u16,
    ) + le16(v.day as u16) + le16(v.hour as u16) + le16(v.minute as u16) + le16(v.second as u16)
        + le16(0)
}

impl<'a> Reader<'a> {
    /// Reads a `SYSTEMTIME` as JST.
    pub fn read_system_time(&mut self) -> (res: Result<DateTime, EdcbError>)
        ensures
            p_system_time(old(self)@) matches Some((v, rest)) ==> res == Ok::<DateTime, EdcbError>(v)
                && final(self)@ == rest,
            p_system_time(old(self)@) is None ==> res matches Err(EdcbError::Decode(_)),
    {
        reveal(p_system_time);
        let ghost s = self@;
        let year = self.read_u16()?;
        let month = self.read_u16()?;
        self.read_u16()?;
        let day = self.read_u16()?;
        let hour = self.read_u16()?;
        let minute = self.read_u16()?;
        let second = self.read_u16()?;
        self.read_u16()?;
        proof {
            assert(s.skip(2).skip(2).skip(2).skip(2).skip(2).skip(2).skip(2).skip(2) =~= s.skip(16));
            assert(get16(s.skip(2)) == get16(s.skip(2)));
            assert(s.skip(2).skip(2).skip(2) =~= s.skip(6));
            assert(s.skip(2).skip(2).skip(2).skip(2) =~= s.skip(8));
            assert(s.skip(2).skip(2).skip(2).skip(2).skip(2) =~= s.skip(10));
            assert(s.skip(2).skip(2).skip(2).skip(2).skip(2).skip(2) =~= s.skip(12));
        }
        match DateTime::from_jst(year, month, day, hour, minute, second) {
            Some(v) => Ok(v),
            None => Ok(DateTime::unix_epoch_jst()),
        }
    }
}

impl Writer {
    /// Writes a date and time as a `SYSTEMTIME`; the day of week is computed from the date.
    pub fn write_system_time(&mut self, value: &DateTime)
        requires
            value.wf(),
        ensures
            final(self)@ == old(self)@ + s_system_time(*value),
    {
        reveal(s_system_time);
        let weekday = weekday_from_sunday(value.year, value.month, value.day);
        self.write_u16(value.year as u16);
        self.write_u16(value.month as u16);
        self.write_u16(weekday as u16);
        self.write_u16(value.day as u16);
        self.write_u16(value.hour as u16);
        self.write_u16(value.minute as u16);
        self.write_u16(value.second as u16);
        self.write_u16(0);
        assert(self@ =~= old(self)@ + s_system_time(*value));
    }
}

/// A JST date and time with zero sub-second part, as the wire carries it.
pub open spec fn jst_wire_value(v: DateTime) -> bool {
    v.wf() && v.nanosecond == 0 && v.offset_seconds == JST_OFFSET_SECONDS
}

/// A written `SYSTEMTIME` reads back as the same JST date and time.
pub proof fn lemma_system_time_roundtrip(v: DateTime, rest: Seq<u8>)
    requires
        jst_wire_value(v),
    ensures
        p_system_time(s_system_time(v) + rest) == Some((v, rest)),
{
    reveal(s_system_time);
    reveal(p_system_time);
    let all = s_system_time(v) + rest;
    assert(all.skip(16) =~= rest);
    assert(get16(all) == v.year as u16);
    assert(get16(all.skip(2)) == v.month as u16);
    assert(get16(all.skip(6)) == v.day as u16);
    assert(get16(all.skip(8)) == v.hour as u16);
    assert(get16(all.skip(10)) == v.minute as u16);
    assert(get16(all.skip(12)) == v.second as u16);
}

} // verus!
