//! Days of the calendar and points in time, held as plain numbers.

use vstd::prelude::*;
use vstd::string::StringExecFns;
use crate::text::{padded, push_padded};

verus! {

/// Whether `year` is a leap year.
pub open spec fn is_leap(year: int) -> bool {
    year % 4 == 0 && (year % 100 != 0 || year % 400 == 0)
}

/// The number of days of a month.
pub open spec fn days_in_month(year: int, month: int) -> int {
    if month == 2 {
        if is_leap(year) {
            29
        } else {
            28
        }
    } else if month == 4 || month == 6 || month == 9 || month == 11 {
        30
    } else {
        31
    }
}

/// Whether the three numbers name a day: a year up to 9999, a month from 1 to 12,
/// a day that the month has.
pub open spec fn is_date(year: int, month: int, day: int) -> bool {
    0 <= year <= 9999 && 1 <= month <= 12 && 1 <= day <= days_in_month(year, month)
}

/// The days of `year` that lie before the first of `month`.
pub open spec fn days_before_month(year: int, month: int) -> int
    decreases month,
{
    if month <= 1 {
        0
    } else {
        days_before_month(year, month - 1) + days_in_month(year, month - 1)
    }
}

/// The days from the first of January of the year 0 to the first of January of `year`.
pub open spec fn days_before_year(year: int) -> int {
    365 * year + (year + 3) / 4 - (year + 99) / 100 + (year + 399) / 400
}

/// A day of the calendar.
#[derive(Clone, Copy, Debug, PartialEq, Eq, Structural)]
pub struct CivilDate {
    year: u16,
    month: u8,
    day: u8,
}

/// A point in time: a day, a time of day, and how many minutes the clock that
/// shows it is ahead of UTC.
#[derive(Clone, Copy, Debug)]
pub struct DateTime {
    date: CivilDate,
    hour: u8,
    minute: u8,
    second: u8,
    offset_minutes: i16,
}

impl CivilDate {
    #[verifier::type_invariant]
    spec fn named(self) -> bool {
        is_date(self.year as int, self.month as int, self.day as int)
    }

    /// The year.
    pub closed spec fn spec_year(self) -> int {
        self.year as int
    }

    /// The month, counted from 1.
    pub closed spec fn spec_month(self) -> int {
        self.month as int
    }

    /// The day of the month, counted from 1.
    pub closed spec fn spec_day(self) -> int {
        self.day as int
    }

    /// The number of the day, counted from the first of January of the year 0.
    pub open spec fn day_number(self) -> int {
        days_before_year(self.spec_year()) + days_before_month(self.spec_year(), self.spec_month())
            + self.spec_day() - 1
    }

    /// The day as text: year, month and day with hyphens between them, the year
    /// in four digits and the others in two.
    pub open spec fn text(self) -> Seq<char> {
        padded(self.spec_year() as nat, 4) + seq!['-'] + padded(self.spec_month() as nat, 2)
            + seq!['-'] + padded(self.spec_day() as nat, 2)
    }

    /// The day that the three numbers name, if they name one.
    pub fn from_ymd(year: u16, month: u8, day: u8) -> (out: Option<CivilDate>)
        ensures
            is_date(year as int, month as int, day as int) ==> (out matches Some(d)
                && d.spec_year() == year && d.spec_month() == month && d.spec_day() == day),
            !is_date(year as int, month as int, day as int) ==> out is None,
    {
        if year > 9999 || month < 1 || month > 12 || day < 1 {
            return None;
        }
        if day > month_length(year, month) {
            return None;
        }
        Some(CivilDate { year, month, day })
    }

    /// The year, which is at most 9999.
    pub fn year(&self) -> (out: u16)
        ensures
            out == self.spec_year(),
            out <= 9999,
    {
        proof {
            use_type_invariant(*self);
        }
        self.year
    }

    /// The month, from 1 to 12.
    pub fn month(&self) -> (out: u8)
        ensures
            out == self.spec_month(),
            1 <= out <= 12,
    {
        proof {
            use_type_invariant(*self);
        }
        self.month
    }

    /// The day of the month, from 1 to the length of the month.
    pub fn day(&self) -> (out: u8)
        ensures
            out == self.spec_day(),
            1 <= out <= days_in_month(self.spec_year(), self.spec_month()),
    {
        proof {
            use_type_invariant(*self);
        }
        self.day
    }

    /// The number of the day, counted from the first of January of the year 0.
    pub fn to_day_number(&self) -> (out: i64)
        ensures
            out == self.day_number(),
    {
        proof {
            use_type_invariant(*self);
        }
        let y: i64 = self.year as i64;
        let mut before: i64 = 0;
        let mut m: u8 = 1;
        while m < self.month
            invariant
                1 <= m <= self.month <= 12,
                y == self.year,
                0 <= before <= 31 * (m - 1),
                before == days_before_month(self.year as int, m as int),
            decreases self.month - m,
        {
            before = before + month_length(self.year, m) as i64;
            m = m + 1;
        }
        365 * y + (y + 3) / 4 - (y + 99) / 100 + (y + 399) / 400 + before + self.day as i64 - 1
    }

    /// Appends the day to `out` as text.
    pub fn write_to(&self, out: &mut String)
        ensures
            final(out)@ == old(out)@ + self.text(),
    {
        push_padded(self.year as u64, 4, out);
        out.push('-');
        push_padded(self.month as u64, 2, out);
        out.push('-');
        push_padded(self.day as u64, 2, out);
        assert(out@ =~= old(out)@ + self.text());
    }
}

fn month_length(year: u16, month: u8) -> (out: u8)
    ensures
        out == days_in_month(year as int, month as int),
{
    if month == 2 {
        if year % 4 == 0 && (year % 100 != 0 || year % 400 == 0) {
            29
        } else {
            28
        }
    } else if month == 4 || month == 6 || month == 9 || month == 11 {
        30
    } else {
        31
    }
}

/// The sign and the size of an offset from UTC, as hours and minutes in two
/// digits each.
pub open spec fn offset_text(offset_minutes: int) -> Seq<char> {
    let size = if offset_minutes < 0 { -offset_minutes } else { offset_minutes };
    seq![if offset_minutes < 0 { '-' } else { '+' }] + padded((size / 60) as nat, 2) + padded(
        (size % 60) as nat,
        2,
    )
}

impl DateTime {
    #[verifier::type_invariant]
    spec fn shown_by_a_clock(self) -> bool {
        self.hour < 24 && self.minute < 60 && self.second < 60 && -1440 < self.offset_minutes
            < 1440
    }

    /// The day that the clock shows.
    pub closed spec fn spec_date(self) -> CivilDate {
        self.date
    }

    /// The hour that the clock shows.
    pub closed spec fn spec_hour(self) -> int {
        self.hour as int
    }

    /// The minute that the clock shows.
    pub closed spec fn spec_minute(self) -> int {
        self.minute as int
    }

    /// The second that the clock shows.
    pub closed spec fn spec_second(self) -> int {
        self.second as int
    }

    /// How many minutes the clock is ahead of UTC.
    pub closed spec fn spec_offset(self) -> int {
        self.offset_minutes as int
    }

    /// The point in time as seconds of UTC, counted from the start of the year 0.
    pub open spec fn instant(self) -> int {
        self.spec_date().day_number() * 86400 + self.spec_hour() * 3600 + self.spec_minute() * 60
            + self.spec_second() - self.spec_offset() * 60
    }

    /// The point in time as text: the day, the time of day with colons, and the
    /// offset, with spaces between them.
    pub open spec fn text(self) -> Seq<char> {
        self.spec_date().text() + seq![' '] + padded(self.spec_hour() as nat, 2) + seq![':']
            + padded(self.spec_minute() as nat, 2) + seq![':'] + padded(
            self.spec_second() as nat,
            2,
        ) + seq![' '] + offset_text(self.spec_offset())
    }

    /// The point in time that a clock `offset_minutes` ahead of UTC shows as this
    /// day and time, if there is such a time of day and such a clock: hours below
    /// 24, minutes and seconds below 60, an offset of less than a day.
    pub fn new(date: CivilDate, hour: u8, minute: u8, second: u8, offset_minutes: i16) -> (out:
        Option<DateTime>)
        ensures
            (hour < 24 && minute < 60 && second < 60 && -1440 < offset_minutes < 1440) ==> (
            out matches Some(t) && t.spec_date() == date && t.spec_hour() == hour
                && t.spec_minute() == minute && t.spec_second() == second && t.spec_offset()
                == offset_minutes),
            !(hour < 24 && minute < 60 && second < 60 && -1440 < offset_minutes < 1440)
                ==> out is None,
    {
        if hour < 24 && minute < 60 && second < 60 && -1440 < offset_minutes && offset_minutes
            < 1440 {
            Some(DateTime { date, hour, minute, second, offset_minutes })
        } else {
            None
        }
    }

    /// The day that the clock shows.
    pub fn date(&self) -> (out: CivilDate)
        ensures
            out == self.spec_date(),
    {
        self.date
    }

    /// The point in time as seconds of UTC, counted from the start of the year 0.
    pub fn to_instant(&self) -> (out: i64)
        ensures
            out == self.instant(),
    {
        proof {
            use_type_invariant(*self);
            use_type_invariant(self.date);
        }
        let days = self.date.to_day_number();
        assert(0 <= days <= 366 * 10000) by {
            lemma_day_number_bound(self.date);
        }
        days * 86400 + self.hour as i64 * 3600 + self.minute as i64 * 60 + self.second as i64
            - self.offset_minutes as i64 * 60
    }

    /// Appends the point in time to `out` as text.
    pub fn write_to(&self, out: &mut String)
        ensures
            final(out)@ == old(out)@ + self.text(),
    {
        proof {
            use_type_invariant(*self);
        }
        self.date.write_to(out);
        out.push(' ');
        push_padded(self.hour as u64, 2, out);
        out.push(':');
        push_padded(self.minute as u64, 2, out);
        out.push(':');
        push_padded(self.second as u64, 2, out);
        out.push(' ');
        let ghost head = out@;
        let size: u64 = if self.offset_minutes < 0 {
            out.push('-');
            (-(self.offset_minutes as i64)) as u64
        } else {
            out.push('+');
            self.offset_minutes as u64
        };
        push_padded(size / 60, 2, out);
        push_padded(size % 60, 2, out);
        assert(out@ =~= head + offset_text(self.spec_offset()));
        assert(out@ =~= old(out)@ + self.text());
    }
}

impl PartialEq for DateTime {
    /// Two points in time are equal when they are the same instant.
    fn eq(&self, other: &Self) -> (out: bool) {
        self.to_instant() == other.to_instant()
    }
}

impl vstd::std_specs::cmp::PartialEqSpecImpl for DateTime {
    open spec fn obeys_eq_spec() -> bool {
        true
    }

    open spec fn eq_spec(&self, other: &Self) -> bool {
        self.instant() == other.instant()
    }
}

proof fn lemma_days_before_month_bound(year: int, month: int)
    requires
        1 <= month <= 12,
    ensures
        0 <= days_before_month(year, month) <= 31 * (month - 1),
    decreases month,
{
    if month > 1 {
        lemma_days_before_month_bound(year, month - 1);
    }
}

proof fn lemma_day_number_bound(d: CivilDate)
    requires
        is_date(d.spec_year(), d.spec_month(), d.spec_day()),
    ensures
        0 <= d.day_number() <= 366 * 10000,
{
    lemma_days_before_month_bound(d.spec_year(), d.spec_month());
}

} // verus!
