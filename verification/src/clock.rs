//! Wall-clock times and the text that a recording without a name is called by.

use chrono::{Datelike, Timelike};
use vstd::prelude::*;

verus! {

/// The first year that a date can have.
pub const FIRST_YEAR: i32 = -262143;

/// The last year that a date can have.
pub const LAST_YEAR: i32 = 262142;

/// Whether `year` has a 29th of February.
pub open spec fn is_leap_year(year: int) -> bool {
    year % 4 == 0 && (year % 100 != 0 || year % 400 == 0)
}

/// The number of days of a month, counted from 1.
pub open spec fn days_in_month(year: int, month: int) -> int {
    if month == 2 {
        if is_leap_year(year) {
            29
        } else {
            28
        }
    } else if month == 4 || month == 6 || month == 9 || month == 11 {
        30
    } else {
        31
    }
}

/// Whether the calendar has this day and the day this time. From the second 59 on,
/// a nanosecond of one billion or more counts a leap second.
pub open spec fn exists_on_clock(
    year: int,
    month: int,
    day: int,
    hour: int,
    minute: int,
    second: int,
    nanosecond: int,
) -> bool {
    &&& FIRST_YEAR <= year <= LAST_YEAR
    &&& 1 <= month <= 12
    &&& 1 <= day <= days_in_month(year, month)
    &&& 0 <= hour < 24
    &&& 0 <= minute < 60
    &&& 0 <= second < 60
    &&& 0 <= nanosecond < 2_000_000_000
    &&& nanosecond >= 1_000_000_000 ==> second == 59
}

/// A local date and time.
#[derive(Clone, Copy, Debug)]
pub struct Timestamp {
    year: i32,
    month: u32,
    day: u32,
    hour: u32,
    minute: u32,
    second: u32,
    nanosecond: u32,
}

/// The decimal digit `d`.
pub open spec fn digit(d: int) -> char {
    seq!['0', '1', '2', '3', '4', '5', '6', '7', '8', '9'][d]
}

/// `n` in decimal, with zeros in front up to `width` digits.
pub open spec fn padded(n: nat, width: nat) -> Seq<char>
    decreases n, width,
{
    if n < 10 && width <= 1 {
        seq![digit(n as int)]
    } else {
        padded(n / 10, if width == 0 { 0 } else { (width - 1) as nat }).push(digit((n % 10) as int))
    }
}

/// A year in at least four digits, with a sign unless it is 0 to 9999.
pub open spec fn year_text(year: int) -> Seq<char> {
    if 0 <= year <= 9999 {
        padded(year as nat, 4)
    } else if year < 0 {
        seq!['-'] + padded((-year) as nat, 4)
    } else {
        seq!['+'] + padded(year as nat, 4)
    }
}

/// Year, month and day, a hyphen, then hour, minute and second, such as `20260710-090807`.
pub open spec fn stamp_text(
    year: int,
    month: int,
    day: int,
    hour: int,
    minute: int,
    second: int,
    nanosecond: int,
) -> Seq<char> {
    year_text(year) + padded(month as nat, 2) + padded(day as nat, 2) + seq!['-'] + padded(
        hour as nat,
        2,
    ) + padded(minute as nat, 2) + padded((second + nanosecond / 1_000_000_000) as nat, 2)
}

impl Timestamp {
    #[verifier::type_invariant]
    spec fn well_formed(self) -> bool {
        self.on_clock()
    }

    /// Whether the calendar and the clock have this time; every time that exists does.
    pub closed spec fn on_clock(self) -> bool {
        exists_on_clock(
            self.year as int,
            self.month as int,
            self.day as int,
            self.hour as int,
            self.minute as int,
            self.second as int,
            self.nanosecond as int,
        )
    }

    /// The time as the text of a generated name.
    pub closed spec fn stamp(self) -> Seq<char> {
        stamp_text(
            self.year as int,
            self.month as int,
            self.day as int,
            self.hour as int,
            self.minute as int,
            self.second as int,
            self.nanosecond as int,
        )
    }

    /// The time with these fields, if there is such a time.
    pub fn new(
        year: i32,
        month: u32,
        day: u32,
        hour: u32,
        minute: u32,
        second: u32,
        nanosecond: u32,
    ) -> (r: Option<Timestamp>)
        ensures
            r is Some <==> exists_on_clock(
                year as int,
                month as int,
                day as int,
                hour as int,
                minute as int,
                second as int,
                nanosecond as int,
            ),
            r matches Some(t) ==> t.on_clock() && t.stamp() == stamp_text(
                year as int,
                month as int,
                day as int,
                hour as int,
                minute as int,
                second as int,
                nanosecond as int,
            ),
    {
        if year < FIRST_YEAR || year > LAST_YEAR || month < 1 || month > 12 || day < 1 || hour >= 24
            || minute >= 60 || second >= 60 || nanosecond >= 2_000_000_000 || (nanosecond
            >= 1_000_000_000 && second != 59) {
            return None;
        }
        if day > last_day(year, month) {
            return None;
        }
        Some(Timestamp { year, month, day, hour, minute, second, nanosecond })
    }

    /// Whether this is what the local clock was read to have, field by field.
    pub closed spec fn is_reading(self) -> bool {
        clock_was_read(
            self.year,
            self.month,
            self.day,
            self.hour,
            self.minute,
            self.second,
            self.nanosecond,
        )
    }

    /// The local time.
    pub fn now() -> (r: Timestamp)
        ensures
            r.on_clock(),
            r.is_reading(),
    {
        let (year, month, day, hour, minute, second, nanosecond) = local_time();
        Timestamp { year, month, day, hour, minute, second, nanosecond }
    }

    /// The time as text, such as `20260710-090807`.
    pub fn to_stamp(&self) -> (r: String)
        ensures
            r@ == self.stamp(),
            self.on_clock(),
    {
        proof {
            use_type_invariant(self);
        }
        formatted(self, "%Y%m%d-%H%M%S")
    }
}

fn last_day(year: i32, month: u32) -> (r: u32)
    requires
        FIRST_YEAR <= year <= LAST_YEAR,
    ensures
        r == days_in_month(year as int, month as int),
{
    if month == 2 {
        // A multiple of 400 years moves the year to where `%` needs no sign.
        let shifted: u32 = (year + 262400) as u32;
        if shifted % 4 == 0 && (shifted % 100 != 0 || shifted % 400 == 0) {
            29
        } else {
            28
        }
    } else if month == 4 || month == 6 || month == 9 || month == 11 {
        30
    } else {
        31
    }
}

/// Whether the local clock was read, once, to have these year, month, day, hour, minute, second
/// and nanosecond.
pub closed spec fn clock_was_read(
    year: i32,
    month: u32,
    day: u32,
    hour: u32,
    minute: u32,
    second: u32,
    nanosecond: u32,
) -> bool {
    call_ensures(local_time, (), (year, month, day, hour, minute, second, nanosecond))
}

/// `chrono::Local::now`, as the year, month, day, hour, minute, second and nanosecond of its
/// local date and time, which `naive_local` gives. The claim is that these name a time that
/// exists; which one is the system clock's and the time zone's affair.
#[verifier::external_body]
fn local_time() -> (r: (i32, u32, u32, u32, u32, u32, u32))
    ensures
        exists_on_clock(
            r.0 as int,
            r.1 as int,
            r.2 as int,
            r.3 as int,
            r.4 as int,
            r.5 as int,
            r.6 as int,
        ),
        r.6 < 1_000_000_000,
{
    let t = chrono::Local::now().naive_local();
    (t.year(), t.month(), t.day(), t.hour(), t.minute(), t.second(), t.nanosecond())
}

/// `chrono::NaiveDateTime::format` with year, month, day, hour, minute and second. The claim
/// is what chrono documents of these six specifiers: two digits each, but for the year, which
/// has at least four and a sign outside 0 to 9999; a leap second counts as the second 60.
#[verifier::external_body]
fn formatted(time: &Timestamp, pattern: &str) -> (r: String)
    requires
        time.on_clock(),
        pattern@ == "%Y%m%d-%H%M%S"@,
    ensures
        r@ == time.stamp(),
{
    let day = chrono::NaiveDate::from_ymd_opt(time.year, time.month, time.day).unwrap();
    let time = day.and_hms_nano_opt(time.hour, time.minute, time.second, time.nanosecond).unwrap();
    time.format(pattern).to_string()
}

/// The fraction of a second, in as many groups of three digits as it needs.
pub open spec fn fraction_text(nanosecond: int) -> Seq<char> {
    if nanosecond == 0 {
        seq![]
    } else if nanosecond % 1_000_000 == 0 {
        seq!['.'] + padded((nanosecond / 1_000_000) as nat, 3)
    } else if nanosecond % 1_000 == 0 {
        seq!['.'] + padded((nanosecond / 1_000) as nat, 6)
    } else {
        seq!['.'] + padded(nanosecond as nat, 9)
    }
}

/// A time of UTC as RFC 3339 has it, such as `2026-07-10T09:08:07.500+00:00`.
pub open spec fn utc_text(
    year: int,
    month: int,
    day: int,
    hour: int,
    minute: int,
    second: int,
    nanosecond: int,
) -> Seq<char> {
    year_text(year) + seq!['-'] + padded(month as nat, 2) + seq!['-'] + padded(day as nat, 2)
        + seq!['T'] + padded(hour as nat, 2) + seq![':'] + padded(minute as nat, 2) + seq![':']
        + padded(second as nat, 2) + fraction_text(nanosecond) + "+00:00"@
}

/// Whether a text is a time of UTC that exists, without a leap second.
pub open spec fn is_utc_text(s: Seq<char>) -> bool {
    exists|
        year: int,
        month: int,
        day: int,
        hour: int,
        minute: int,
        second: int,
        nanosecond: int,
    |
        {
            &&& exists_on_clock(year, month, day, hour, minute, second, nanosecond)
            &&& nanosecond < 1_000_000_000
            &&& s == #[trigger] utc_text(year, month, day, hour, minute, second, nanosecond)
        }
}

/// `chrono::Utc::now` as `to_rfc3339` writes it. Which time it is is the system clock's
/// affair; the claim is that the text is that of a time that exists, in the form that chrono
/// gives it.
#[verifier::external_body]
pub(crate) fn utc_rfc3339() -> (r: String)
    ensures
        is_utc_text(r@),
{
    chrono::Utc::now().to_rfc3339()
}

/// Whether the clock was read, once, to have the time of UTC that a text tells.
pub closed spec fn utc_was_read(s: Seq<char>) -> bool {
    exists|read: String| call_ensures(utc_rfc3339, (), read) && #[trigger] read@ == s
}

/// The present time of UTC.
pub(crate) fn utc_now() -> (r: String)
    ensures
        is_utc_text(r@),
        utc_was_read(r@),
{
    utc_rfc3339()
}

/// Whether `s` holds nothing but digits and signs.
pub open spec fn only_digits_and_signs(s: Seq<char>) -> bool {
    forall|i: int| #![trigger s[i]] 0 <= i < s.len() ==> ('0' <= s[i] && s[i] <= '9') || s[i] == '-' || s[i] == '+'
}

proof fn padded_is_digits(n: nat, width: nat)
    ensures
        padded(n, width).len() > 0,
        only_digits_and_signs(padded(n, width)),
    decreases n, width,
{
    if n < 10 && width <= 1 {
    } else {
        padded_is_digits(n / 10, if width == 0 { 0 } else { (width - 1) as nat });
    }
}

impl Timestamp {
    /// A stamp is made of digits, a hyphen and at most one sign in front.
    pub proof fn stamp_is_plain(self)
        requires
            self.on_clock(),
        ensures
            self.stamp().len() > 0,
            only_digits_and_signs(self.stamp()),
    {
        let y = self.year as int;
        padded_is_digits(if y < 0 { (-y) as nat } else { y as nat }, 4);
        padded_is_digits(self.month as nat, 2);
        padded_is_digits(self.day as nat, 2);
        padded_is_digits(self.hour as nat, 2);
        padded_is_digits(self.minute as nat, 2);
        padded_is_digits((self.second + self.nanosecond as int / 1_000_000_000) as nat, 2);
    }
}

/// The number that a decimal digit stands for.
pub open spec fn digit_value(c: char) -> int {
    c as int - '0' as int
}

/// The number that decimal digits stand for.
pub open spec fn decimal(s: Seq<char>) -> int
    decreases s.len(),
{
    if s.len() == 0 {
        0
    } else {
        10 * decimal(s.drop_last()) + digit_value(s.last())
    }
}

/// Padded digits read as the number that was written, and are as many as were asked for where
/// that is enough.
pub proof fn padded_reads_back(n: nat, width: nat)
    ensures
        decimal(padded(n, width)) == n,
        padded(n, width).len() >= width,
        only_digits_and_signs(padded(n, width)),
        n < 100 ==> padded(n, 2).len() == 2,
        n < 10000 ==> padded(n, 4).len() == 4,
    decreases n, width,
{
    padded_is_digits(n, width);
    reveal_with_fuel(padded, 5);
    if n < 10 && width <= 1 {
        assert(padded(n, width).drop_last() =~= seq![]);
        reveal_with_fuel(decimal, 2);
        assert(digit_value(digit(n as int)) == n);
    } else {
        let shorter: nat = if width == 0 {
            0
        } else {
            (width - 1) as nat
        };
        padded_reads_back(n / 10, shorter);
        assert(padded(n, width).drop_last() =~= padded(n / 10, shorter));
        assert(digit_value(digit((n % 10) as int)) == n % 10);
    }
}

/// The months of a year have the days that the calendar gives them, and every fourth year is a
/// leap year but for three in four hundred.
pub proof fn calendar_is_gregorian(year: int, month: int)
    requires
        1 <= month <= 12,
    ensures
        days_in_month(year, month) == seq![
            31int,
            if year % 400 == 0 || (year % 4 == 0 && year % 100 != 0) {
                29int
            } else {
                28int
            },
            31int,
            30int,
            31int,
            30int,
            31int,
            31int,
            30int,
            31int,
            30int,
            31int,
        ][month - 1],
{
}

/// A stamp tells the time in full: four digits for the year, two each for the month, the day, the
/// hour, the minute and the second, with a hyphen before the hour.
pub proof fn stamp_tells_the_time(
    year: int,
    month: int,
    day: int,
    hour: int,
    minute: int,
    second: int,
    nanosecond: int,
)
    requires
        exists_on_clock(year, month, day, hour, minute, second, nanosecond),
        0 <= year <= 9999,
    ensures
        ({
            let s = stamp_text(year, month, day, hour, minute, second, nanosecond);
            &&& s.len() == 15
            &&& decimal(s.subrange(0, 4)) == year
            &&& decimal(s.subrange(4, 6)) == month
            &&& decimal(s.subrange(6, 8)) == day
            &&& s[8] == '-'
            &&& decimal(s.subrange(9, 11)) == hour
            &&& decimal(s.subrange(11, 13)) == minute
            &&& nanosecond < 1_000_000_000 ==> decimal(s.subrange(13, 15)) == second
            &&& nanosecond >= 1_000_000_000 ==> decimal(s.subrange(13, 15)) == 60
        }),
{
    let s = stamp_text(year, month, day, hour, minute, second, nanosecond);
    let shown = second + nanosecond / 1_000_000_000;
    padded_reads_back(year as nat, 4);
    padded_reads_back(month as nat, 2);
    padded_reads_back(day as nat, 2);
    padded_reads_back(hour as nat, 2);
    padded_reads_back(minute as nat, 2);
    padded_reads_back(shown as nat, 2);
    assert(s.subrange(0, 4) =~= padded(year as nat, 4));
    assert(s.subrange(4, 6) =~= padded(month as nat, 2));
    assert(s.subrange(6, 8) =~= padded(day as nat, 2));
    assert(s.subrange(9, 11) =~= padded(hour as nat, 2));
    assert(s.subrange(11, 13) =~= padded(minute as nat, 2));
    assert(s.subrange(13, 15) =~= padded(shown as nat, 2));
}

/// A stamp of a time that was read from the clock tells all that was read, down to the second.
pub proof fn present_stamp_tells_the_reading(now: Timestamp)
    requires
        now.is_reading(),
    ensures
        exists|
            year: i32,
            month: u32,
            day: u32,
            hour: u32,
            minute: u32,
            second: u32,
            nanosecond: u32,
        |
            {
                &&& #[trigger] clock_was_read(year, month, day, hour, minute, second, nanosecond)
                &&& now.stamp() == year_text(year as int) + padded(month as nat, 2) + padded(
                    day as nat,
                    2,
                ) + seq!['-'] + padded(hour as nat, 2) + padded(minute as nat, 2) + padded(
                    (second + nanosecond as int / 1_000_000_000) as nat,
                    2,
                )
            },
{
    assert(clock_was_read(
        now.year,
        now.month,
        now.day,
        now.hour,
        now.minute,
        now.second,
        now.nanosecond,
    ));
}

/// The present time is what one reading of the clock gave, and its stamp tells that reading.
pub proof fn present_time_is_one_reading(now: Timestamp)
    requires
        call_ensures(Timestamp::now, (), now),
    ensures
        exists|
            year: i32,
            month: u32,
            day: u32,
            hour: u32,
            minute: u32,
            second: u32,
            nanosecond: u32,
        |
            {
                &&& #[trigger] clock_was_read(year, month, day, hour, minute, second, nanosecond)
                &&& now.stamp() == stamp_text(
                    year as int,
                    month as int,
                    day as int,
                    hour as int,
                    minute as int,
                    second as int,
                    nanosecond as int,
                )
            },
{
    assert(clock_was_read(
        now.year,
        now.month,
        now.day,
        now.hour,
        now.minute,
        now.second,
        now.nanosecond,
    ));
}

/// Times that differ in the second or in anything above it have different stamps.
pub proof fn stamps_differ(
    year: int,
    month: int,
    day: int,
    hour: int,
    minute: int,
    second: int,
    nanosecond: int,
    other_year: int,
    other_month: int,
    other_day: int,
    other_hour: int,
    other_minute: int,
    other_second: int,
    other_nanosecond: int,
)
    requires
        exists_on_clock(year, month, day, hour, minute, second, nanosecond),
        exists_on_clock(
            other_year,
            other_month,
            other_day,
            other_hour,
            other_minute,
            other_second,
            other_nanosecond,
        ),
        0 <= year <= 9999,
        0 <= other_year <= 9999,
        nanosecond < 1_000_000_000,
        other_nanosecond < 1_000_000_000,
        stamp_text(year, month, day, hour, minute, second, nanosecond) == stamp_text(
            other_year,
            other_month,
            other_day,
            other_hour,
            other_minute,
            other_second,
            other_nanosecond,
        ),
    ensures
        year == other_year && month == other_month && day == other_day,
        hour == other_hour && minute == other_minute && second == other_second,
{
    stamp_tells_the_time(year, month, day, hour, minute, second, nanosecond);
    stamp_tells_the_time(
        other_year,
        other_month,
        other_day,
        other_hour,
        other_minute,
        other_second,
        other_nanosecond,
    );
}

} // verus!
