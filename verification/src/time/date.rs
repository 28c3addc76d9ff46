//! Calendar dates, held as serial day numbers.
//!
//! Day 1 is 31 December 1899, so that 1 January 1901 is day 367: the
//! spreadsheet convention, which counts a 29 February 1900. Dates run from
//! 1 January 1901 to 31 December 2199.
use vstd::prelude::*;

use crate::time::period::{Period, TimeUnit};

verus! {

/// The first serial number a date may hold (1 January 1901).
pub const MIN_SERIAL: i32 = 367;

/// The last serial number a date may hold (31 December 2199).
pub const MAX_SERIAL: i32 = 109574;

/// Month of the year.
#[derive(Clone, Copy, Debug, PartialEq, Eq, Structural, Hash)]
pub enum Month {
    January,
    February,
    March,
    April,
    May,
    June,
    July,
    August,
    September,
    October,
    November,
    December,
}

impl Month {
    /// The month's number, 1 for January to 12 for December.
    pub open spec fn number(self) -> int {
        match self {
            Month::January => 1,
            Month::February => 2,
            Month::March => 3,
            Month::April => 4,
            Month::May => 5,
            Month::June => 6,
            Month::July => 7,
            Month::August => 8,
            Month::September => 9,
            Month::October => 10,
            Month::November => 11,
            Month::December => 12,
        }
    }

    /// The month's number, 1 for January to 12 for December.
    pub fn ordinal(self) -> (r: i32)
        ensures
            r == self.number(),
            1 <= r <= 12,
    {
        match self {
            Month::January => 1,
            Month::February => 2,
            Month::March => 3,
            Month::April => 4,
            Month::May => 5,
            Month::June => 6,
            Month::July => 7,
            Month::August => 8,
            Month::September => 9,
            Month::October => 10,
            Month::November => 11,
            Month::December => 12,
        }
    }

    /// The month with the given number.
    pub fn from_ordinal(n: i32) -> (m: Month)
        requires
            1 <= n <= 12,
        ensures
            m.number() == n,
    {
        if n == 1 {
            Month::January
        } else if n == 2 {
            Month::February
        } else if n == 3 {
            Month::March
        } else if n == 4 {
            Month::April
        } else if n == 5 {
            Month::May
        } else if n == 6 {
            Month::June
        } else if n == 7 {
            Month::July
        } else if n == 8 {
            Month::August
        } else if n == 9 {
            Month::September
        } else if n == 10 {
            Month::October
        } else if n == 11 {
            Month::November
        } else {
            Month::December
        }
    }
}

/// Day of the week.
#[derive(Clone, Copy, Debug, PartialEq, Eq, Structural, Hash)]
pub enum Weekday {
    Sunday,
    Monday,
    Tuesday,
    Wednesday,
    Thursday,
    Friday,
    Saturday,
}

impl Weekday {
    /// The weekday's number, 1 for Sunday to 7 for Saturday.
    pub open spec fn number(self) -> int {
        match self {
            Weekday::Sunday => 1,
            Weekday::Monday => 2,
            Weekday::Tuesday => 3,
            Weekday::Wednesday => 4,
            Weekday::Thursday => 5,
            Weekday::Friday => 6,
            Weekday::Saturday => 7,
        }
    }
}

/// Whether `y` is a leap year of the Gregorian calendar.
pub open spec fn is_leap_year(y: int) -> bool {
    (y % 4 == 0 && y % 100 != 0) || y % 400 == 0
}

/// The number of days of month `m` in year `y`.
pub open spec fn days_in_month(m: int, y: int) -> int {
    if m == 2 {
        if is_leap_year(y) { 29 } else { 28 }
    } else if m == 4 || m == 6 || m == 9 || m == 11 {
        30
    } else {
        31
    }
}

/// The number of days of the year `y`.
pub open spec fn days_in_year(y: int) -> int {
    if is_leap_year(y) { 366 } else { 365 }
}

/// The days of year `y` before the first of month `m`.
pub open spec fn days_before_month(m: int, y: int) -> int {
    let base: int = if m <= 1 { 0 }
        else if m == 2 { 31 }
        else if m == 3 { 59 }
        else if m == 4 { 90 }
        else if m == 5 { 120 }
        else if m == 6 { 151 }
        else if m == 7 { 181 }
        else if m == 8 { 212 }
        else if m == 9 { 243 }
        else if m == 10 { 273 }
        else if m == 11 { 304 }
        else { 334 };
    if m > 2 && is_leap_year(y) { base + 1 } else { base }
}

/// The leap years from year 1 to year `y - 1`.
pub open spec fn leap_years_before(y: int) -> int {
    (y - 1) / 4 - (y - 1) / 100 + (y - 1) / 400
}

/// The serial number of 1 January of year `y`.
pub open spec fn year_start(y: int) -> int {
    367 + 365 * (y - 1901) + leap_years_before(y) - 460
}

/// Whether day `d` of month `m` of year `y` is a date the library holds.
pub open spec fn valid_ymd(d: int, m: int, y: int) -> bool {
    &&& 1901 <= y <= 2199
    &&& 1 <= m <= 12
    &&& 1 <= d <= days_in_month(m, y)
}

/// The serial number of day `d` of month `m` of year `y`.
pub open spec fn serial_of(d: int, m: int, y: int) -> int {
    year_start(y) + days_before_month(m, y) + d - 1
}

/// The serial numbers a date may hold.
pub open spec fn serial_in_range(s: int) -> bool {
    MIN_SERIAL <= s <= MAX_SERIAL
}

/// A year is one day longer than the one before it exactly when it is leap.
pub proof fn lemma_year_start_step(y: int)
    ensures
        year_start(y + 1) == year_start(y) + days_in_year(y),
{
    assert((y - 1) / 4 + (if y % 4 == 0 { 1int } else { 0 }) == y / 4) by (nonlinear_arith);
    assert((y - 1) / 100 + (if y % 100 == 0 { 1int } else { 0 }) == y / 100) by (nonlinear_arith);
    assert((y - 1) / 400 + (if y % 400 == 0 { 1int } else { 0 }) == y / 400) by (nonlinear_arith);
    assert(y % 100 == 0 ==> y % 4 == 0) by (nonlinear_arith);
    assert(y % 400 == 0 ==> y % 100 == 0) by (nonlinear_arith);
}

/// Each year between two year starts adds 365 or 366 days.
pub proof fn lemma_year_start_monotonic(y1: int, y2: int)
    requires
        y1 <= y2,
    ensures
        year_start(y1) + 365 * (y2 - y1) <= year_start(y2),
        year_start(y2) <= year_start(y1) + 366 * (y2 - y1),
    decreases y2 - y1,
{
    if y1 < y2 {
        lemma_year_start_step(y2 - 1);
        lemma_year_start_monotonic(y1, y2 - 1);
    }
}

/// The month offsets add up month by month, and to the year's length.
pub proof fn lemma_days_before_month_step(m: int, y: int)
    requires
        1 <= m <= 12,
    ensures
        m < 12 ==> days_before_month(m + 1, y) == days_before_month(m, y) + days_in_month(m, y),
        m == 12 ==> days_before_month(m, y) + days_in_month(m, y) == days_in_year(y),
        days_before_month(m, y) + days_in_month(m, y) <= days_in_year(y),
{
}

/// Months start in increasing order.
pub proof fn lemma_days_before_month_monotonic(m1: int, m2: int, y: int)
    requires
        1 <= m1 < m2 <= 12,
    ensures
        days_before_month(m1, y) + days_in_month(m1, y) <= days_before_month(m2, y),
{
}

/// A valid date's serial lies inside its year and inside its month.
pub proof fn lemma_serial_bounds(d: int, m: int, y: int)
    requires
        valid_ymd(d, m, y),
    ensures
        year_start(y) + days_before_month(m, y) <= serial_of(d, m, y),
        serial_of(d, m, y) < year_start(y) + days_before_month(m, y) + days_in_month(m, y),
        year_start(y) <= serial_of(d, m, y) < year_start(y + 1),
        serial_in_range(serial_of(d, m, y)),
{
    lemma_days_before_month_step(m, y);
    lemma_year_start_step(y);
    lemma_year_start_monotonic(1901, y + 1);
    if y < 2199 {
        lemma_year_start_monotonic(y + 1, 2200);
    }
    assert(year_start(1901) == 367);
    assert(year_start(2200) == 109575);
}

/// Distinct valid dates have distinct serials.
pub proof fn lemma_serial_injective(d1: int, m1: int, y1: int, d2: int, m2: int, y2: int)
    requires
        valid_ymd(d1, m1, y1),
        valid_ymd(d2, m2, y2),
        serial_of(d1, m1, y1) == serial_of(d2, m2, y2),
    ensures
        d1 == d2,
        m1 == m2,
        y1 == y2,
{
    lemma_serial_bounds(d1, m1, y1);
    lemma_serial_bounds(d2, m2, y2);
    if y1 < y2 {
        lemma_year_start_monotonic(y1 + 1, y2);
        assert(false);
    }
    if y2 < y1 {
        lemma_year_start_monotonic(y2 + 1, y1);
        assert(false);
    }
    if m1 < m2 {
        lemma_days_before_month_monotonic(m1, m2, y1);
        assert(false);
    }
    if m2 < m1 {
        lemma_days_before_month_monotonic(m2, m1, y1);
        assert(false);
    }
}

/// Serials compare as the dates they stand for: by year, then month, then day.
pub proof fn lemma_serial_order(d1: int, m1: int, y1: int, d2: int, m2: int, y2: int)
    requires
        valid_ymd(d1, m1, y1),
        valid_ymd(d2, m2, y2),
    ensures
        (serial_of(d1, m1, y1) < serial_of(d2, m2, y2)) <==> (y1 < y2 || (y1 == y2 && m1 < m2)
            || (y1 == y2 && m1 == m2 && d1 < d2)),
{
    lemma_serial_bounds(d1, m1, y1);
    lemma_serial_bounds(d2, m2, y2);
    if y1 < y2 {
        lemma_year_start_monotonic(y1 + 1, y2);
    } else if y2 < y1 {
        lemma_year_start_monotonic(y2 + 1, y1);
    } else if m1 < m2 {
        lemma_days_before_month_monotonic(m1, m2, y1);
    } else if m2 < m1 {
        lemma_days_before_month_monotonic(m2, m1, y1);
    }
}


/// The year holding serial `s`, searching upwards from year `y`.
pub open spec fn year_from(s: int, y: int) -> int
    decreases 2199 - y,
{
    if y >= 2199 || s < year_start(y + 1) {
        y
    } else {
        year_from(s, y + 1)
    }
}

/// The month of year `y` holding serial `s`, searching upwards from month `m`.
pub open spec fn month_from(s: int, y: int, m: int) -> int
    decreases 12 - m,
{
    if m >= 12 || s < year_start(y) + days_before_month(m + 1, y) {
        m
    } else {
        month_from(s, y, m + 1)
    }
}

/// The year of the date with serial `s`.
pub open spec fn year_of(s: int) -> int {
    year_from(s, 1901)
}

/// The month number of the date with serial `s`.
pub open spec fn month_of(s: int) -> int {
    month_from(s, year_of(s), 1)
}

/// The day of the month of the date with serial `s`.
pub open spec fn day_of(s: int) -> int {
    s - year_start(year_of(s)) - days_before_month(month_of(s), year_of(s)) + 1
}

proof fn lemma_year_from(s: int, y: int)
    requires
        serial_in_range(s),
        1901 <= y <= 2199,
        year_start(y) <= s,
    ensures
        y <= year_from(s, y) <= 2199,
        year_start(year_from(s, y)) <= s < year_start(year_from(s, y) + 1),
    decreases 2199 - y,
{
    if y >= 2199 {
        assert(year_start(2200) == 109575);
    } else if s >= year_start(y + 1) {
        lemma_year_from(s, y + 1);
    }
}

proof fn lemma_month_from(s: int, y: int, m: int)
    requires
        1 <= m <= 12,
        year_start(y) + days_before_month(m, y) <= s < year_start(y + 1),
    ensures
        m <= month_from(s, y, m) <= 12,
        year_start(y) + days_before_month(month_from(s, y, m), y) <= s,
        s < year_start(y) + days_before_month(month_from(s, y, m), y) + days_in_month(
            month_from(s, y, m),
            y,
        ),
    decreases 12 - m,
{
    lemma_year_start_step(y);
    lemma_days_before_month_step(m, y);
    if m < 12 && s >= year_start(y) + days_before_month(m + 1, y) {
        lemma_month_from(s, y, m + 1);
    }
}

/// Every serial in range is the serial of exactly the date that
/// [`year_of`], [`month_of`] and [`day_of`] read off it.
pub proof fn lemma_civil(s: int)
    requires
        serial_in_range(s),
    ensures
        valid_ymd(day_of(s), month_of(s), year_of(s)),
        serial_of(day_of(s), month_of(s), year_of(s)) == s,
{
    assert(year_start(1901) == 367);
    lemma_year_from(s, 1901);
    let y = year_of(s);
    assert(days_before_month(1, y) == 0);
    lemma_month_from(s, y, 1);
}

/// A valid date's components are read back from its serial.
pub proof fn lemma_civil_of_serial(d: int, m: int, y: int)
    requires
        valid_ymd(d, m, y),
    ensures
        year_of(serial_of(d, m, y)) == y,
        month_of(serial_of(d, m, y)) == m,
        day_of(serial_of(d, m, y)) == d,
{
    let s = serial_of(d, m, y);
    lemma_serial_bounds(d, m, y);
    lemma_civil(s);
    lemma_serial_injective(d, m, y, day_of(s), month_of(s), year_of(s));
}

fn is_leap_exec(y: i32) -> (r: bool)
    requires
        y >= 0,
    ensures
        r == is_leap_year(y as int),
{
    (y % 4 == 0 && y % 100 != 0) || y % 400 == 0
}

fn month_length_exec(m: i32, y: i32) -> (r: i32)
    requires
        1 <= m <= 12,
        y >= 0,
    ensures
        r == days_in_month(m as int, y as int),
{
    if m == 2 {
        if is_leap_exec(y) {
            29
        } else {
            28
        }
    } else if m == 4 || m == 6 || m == 9 || m == 11 {
        30
    } else {
        31
    }
}

fn days_before_month_exec(m: i32, y: i32) -> (r: i32)
    requires
        1 <= m <= 12,
        y >= 0,
    ensures
        r == days_before_month(m as int, y as int),
        0 <= r <= 335,
{
    let base: i32 = if m <= 1 {
        0
    } else if m == 2 {
        31
    } else if m == 3 {
        59
    } else if m == 4 {
        90
    } else if m == 5 {
        120
    } else if m == 6 {
        151
    } else if m == 7 {
        181
    } else if m == 8 {
        212
    } else if m == 9 {
        243
    } else if m == 10 {
        273
    } else if m == 11 {
        304
    } else {
        334
    };
    if m > 2 && is_leap_exec(y) {
        base + 1
    } else {
        base
    }
}

fn year_start_exec(y: i32) -> (r: i32)
    requires
        1901 <= y <= 2200,
    ensures
        r == year_start(y as int),
{
    367 + 365 * (y - 1901) + (y - 1) / 4 - (y - 1) / 100 + (y - 1) / 400 - 460
}

/// Whether `year` is a leap year.
pub fn is_leap(year: i32) -> (r: bool)
    requires
        year >= 0,
    ensures
        r == is_leap_year(year as int),
{
    is_leap_exec(year)
}

/// The number of days of `month` in `year`.
pub fn month_length(month: Month, year: i32) -> (r: i32)
    requires
        year >= 0,
    ensures
        r == days_in_month(month.number(), year as int),
        28 <= r <= 31,
{
    month_length_exec(month.ordinal(), year)
}

/// A calendar date.
#[derive(Clone, Copy, Debug, PartialEq, Eq, Structural, Hash, PartialOrd, Ord)]
pub struct Date {
    serial: i32,
}

impl View for Date {
    type V = int;

    /// The date's serial number.
    closed spec fn view(&self) -> int {
        self.serial as int
    }
}

/// Two dates with the same serial number are the same date.
pub proof fn lemma_date_view_injective(a: Date, b: Date)
    ensures
        (a@ == b@) == (a == b),
{
}

impl Date {
    /// Whether the date lies in the supported range.
    pub open spec fn wf(self) -> bool {
        serial_in_range(self@)
    }

    /// The year of the date.
    pub open spec fn year_spec(self) -> int {
        year_of(self@)
    }

    /// The month number of the date.
    pub open spec fn month_spec(self) -> int {
        month_of(self@)
    }

    /// The day of the month of the date.
    pub open spec fn day_spec(self) -> int {
        day_of(self@)
    }

    /// The date with the given serial number.
    pub fn from_serial(serial: i32) -> (r: Date)
        requires
            serial_in_range(serial as int),
        ensures
            r@ == serial,
            r.wf(),
    {
        Date { serial }
    }

    /// Day `day` of `month` in `year`.
    pub fn new(day: i32, month: Month, year: i32) -> (r: Date)
        requires
            valid_ymd(day as int, month.number(), year as int),
        ensures
            r@ == serial_of(day as int, month.number(), year as int),
            r.wf(),
            r.day_spec() == day,
            r.month_spec() == month.number(),
            r.year_spec() == year,
    {
        proof {
            lemma_serial_bounds(day as int, month.number(), year as int);
            lemma_civil_of_serial(day as int, month.number(), year as int);
        }
        let m = month.ordinal();
        Date { serial: year_start_exec(year) + days_before_month_exec(m, year) + day - 1 }
    }

    /// The date's serial number.
    pub fn serial_number(&self) -> (r: i32)
        ensures
            r == self@,
    {
        self.serial
    }

    /// Day, month number and year of the date.
    fn ymd(&self) -> (r: (i32, i32, i32))
        requires
            self.wf(),
        ensures
            r.0 == self.day_spec(),
            r.1 == self.month_spec(),
            r.2 == self.year_spec(),
            valid_ymd(r.0 as int, r.1 as int, r.2 as int),
            serial_of(r.0 as int, r.1 as int, r.2 as int) == self@,
    {
        let s = self.serial;
        let mut y: i32 = 1901 + (s - 367) / 366;
        proof {
            lemma_year_start_monotonic(1901, y as int);
        }
        while y < 2199 && year_start_exec(y + 1) <= s
            invariant
                1901 <= y <= 2199,
                year_start(y as int) <= s,
                s == self@,
                serial_in_range(s as int),
            decreases 2199 - y,
        {
            y = y + 1;
        }
        proof {
            assert(year_start(2200) == 109575);
        }
        let ys = year_start_exec(y);
        let mut m: i32 = 1;
        while m < 12 && ys + days_before_month_exec(m + 1, y) <= s
            invariant
                1 <= m <= 12,
                ys == year_start(y as int),
                ys + days_before_month(m as int, y as int) <= s,
                1901 <= y <= 2199,
                s < year_start(y as int + 1),
            decreases 12 - m,
        {
            m = m + 1;
        }
        proof {
            lemma_year_start_step(y as int);
            lemma_days_before_month_step(m as int, y as int);
        }
        let d = s - ys - days_before_month_exec(m, y) + 1;
        proof {
            lemma_civil_of_serial(d as int, m as int, y as int);
        }
        (d, m, y)
    }

    /// The day of the month.
    pub fn day_of_month(&self) -> (r: i32)
        requires
            self.wf(),
        ensures
            r == self.day_spec(),
            1 <= r <= days_in_month(self.month_spec(), self.year_spec()),
    {
        self.ymd().0
    }

    /// The month.
    pub fn month(&self) -> (r: Month)
        requires
            self.wf(),
        ensures
            r.number() == self.month_spec(),
    {
        Month::from_ordinal(self.ymd().1)
    }

    /// The year.
    pub fn year(&self) -> (r: i32)
        requires
            self.wf(),
        ensures
            r == self.year_spec(),
            1901 <= r <= 2199,
    {
        self.ymd().2
    }

    /// The day of the week.
    pub fn weekday(&self) -> (r: Weekday)
        requires
            self.wf(),
        ensures
            r.number() == (if self@ % 7 == 0 { 7 } else { self@ % 7 }),
    {
        let w = self.serial % 7;
        if w == 1 {
            Weekday::Sunday
        } else if w == 2 {
            Weekday::Monday
        } else if w == 3 {
            Weekday::Tuesday
        } else if w == 4 {
            Weekday::Wednesday
        } else if w == 5 {
            Weekday::Thursday
        } else if w == 6 {
            Weekday::Friday
        } else {
            Weekday::Saturday
        }
    }
}


/// The serial reached from serial `s` by `n` whole months, the day of the
/// month kept unless the target month is shorter, then its last day.
pub open spec fn serial_plus_months(s: int, n: int) -> int {
    let total = year_of(s) * 12 + (month_of(s) - 1) + n;
    let y = total / 12;
    let m = total % 12 + 1;
    let d = if day_of(s) <= days_in_month(m, y) { day_of(s) } else { days_in_month(m, y) };
    serial_of(d, m, y)
}

/// Whether `n` months from serial `s` stay inside the supported years.
pub open spec fn months_shift_ok(s: int, n: int) -> bool {
    let total = year_of(s) * 12 + (month_of(s) - 1) + n;
    1901 <= total / 12 <= 2199
}

/// The serial reached from serial `s` by `n` units of `units`.
pub open spec fn serial_advanced(s: int, n: int, units: TimeUnit) -> int {
    match units {
        TimeUnit::Days => s + n,
        TimeUnit::Weeks => s + 7 * n,
        TimeUnit::Months => serial_plus_months(s, n),
        TimeUnit::Years => serial_plus_months(s, 12 * n),
    }
}

/// Whether advancing serial `s` by `n` units of `units` stays in range.
pub open spec fn advance_ok(s: int, n: int, units: TimeUnit) -> bool {
    match units {
        TimeUnit::Days => serial_in_range(s + n),
        TimeUnit::Weeks => serial_in_range(s + 7 * n),
        TimeUnit::Months => months_shift_ok(s, n),
        TimeUnit::Years => months_shift_ok(s, 12 * n),
    }
}

/// Shifting by months lands on a valid date, in the supported range.
pub proof fn lemma_plus_months_valid(s: int, n: int)
    requires
        serial_in_range(s),
        months_shift_ok(s, n),
    ensures
        ({
            let total = year_of(s) * 12 + (month_of(s) - 1) + n;
            let y = total / 12;
            let m = total % 12 + 1;
            let d = if day_of(s) <= days_in_month(m, y) { day_of(s) } else { days_in_month(m, y) };
            &&& valid_ymd(d, m, y)
            &&& year_of(serial_plus_months(s, n)) == y
            &&& month_of(serial_plus_months(s, n)) == m
            &&& day_of(serial_plus_months(s, n)) == d
        }),
        serial_in_range(serial_plus_months(s, n)),
{
    lemma_civil(s);
    let total = year_of(s) * 12 + (month_of(s) - 1) + n;
    let y = total / 12;
    let m = total % 12 + 1;
    let d = if day_of(s) <= days_in_month(m, y) { day_of(s) } else { days_in_month(m, y) };
    assert(valid_ymd(d, m, y));
    lemma_civil_of_serial(d, m, y);
    lemma_serial_bounds(d, m, y);
}

/// Moving a date forward by a positive number of months lands after it.
pub proof fn lemma_plus_months_after(s: int, n: int)
    requires
        serial_in_range(s),
        months_shift_ok(s, n),
        n > 0,
    ensures
        s < serial_plus_months(s, n),
{
    lemma_civil(s);
    lemma_plus_months_valid(s, n);
    let y = year_of(s);
    let m = month_of(s);
    let total = y * 12 + (m - 1) + n;
    let y2 = total / 12;
    let m2 = total % 12 + 1;
    assert(y < y2 || (y == y2 && m < m2)) by (nonlinear_arith)
        requires
            1 <= m <= 12,
            n > 0,
            total == y * 12 + (m - 1) + n,
            y2 == total / 12,
            m2 == total % 12 + 1,
    ;
    let t = serial_plus_months(s, n);
    lemma_serial_order(day_of(s), m, y, day_of(t), month_of(t), year_of(t));
}

/// Moving a date back by a positive number of months lands before it.
pub proof fn lemma_minus_months_before(s: int, n: int)
    requires
        serial_in_range(s),
        months_shift_ok(s, n),
        n < 0,
    ensures
        serial_plus_months(s, n) < s,
{
    lemma_civil(s);
    lemma_plus_months_valid(s, n);
    let y = year_of(s);
    let m = month_of(s);
    let total = y * 12 + (m - 1) + n;
    let y2 = total / 12;
    let m2 = total % 12 + 1;
    assert(y2 < y || (y == y2 && m2 < m)) by (nonlinear_arith)
        requires
            1 <= m <= 12,
            n < 0,
            total == y * 12 + (m - 1) + n,
            y2 == total / 12,
            m2 == total % 12 + 1,
    ;
    let t = serial_plus_months(s, n);
    lemma_serial_order(day_of(t), month_of(t), year_of(t), day_of(s), m, y);
}

/// Moving a date back by a positive number of any unit lands before it.
pub proof fn lemma_advanced_before(s: int, n: int, units: TimeUnit)
    requires
        serial_in_range(s),
        advance_ok(s, n, units),
        n < 0,
    ensures
        serial_advanced(s, n, units) < s,
{
    match units {
        TimeUnit::Months => lemma_minus_months_before(s, n),
        TimeUnit::Years => lemma_minus_months_before(s, 12 * n),
        _ => {},
    }
}

/// Moving a date forward by a positive number of any unit lands after it.
pub proof fn lemma_advanced_after(s: int, n: int, units: TimeUnit)
    requires
        serial_in_range(s),
        advance_ok(s, n, units),
        n > 0,
    ensures
        s < serial_advanced(s, n, units),
{
    match units {
        TimeUnit::Months => lemma_plus_months_after(s, n),
        TimeUnit::Years => lemma_plus_months_after(s, 12 * n),
        _ => {},
    }
}

impl Date {
    /// The date `days` days later (earlier for a negative count).
    pub fn add_days(&self, days: i32) -> (r: Date)
        requires
            self.wf(),
            serial_in_range(self@ + days),
        ensures
            r@ == self@ + days,
            r.wf(),
    {
        Date { serial: self.serial + days }
    }

    /// The date `days` days earlier (later for a negative count).
    pub fn sub_days(&self, days: i32) -> (r: Date)
        requires
            self.wf(),
            serial_in_range(self@ - days),
        ensures
            r@ == self@ - days,
            r.wf(),
    {
        Date { serial: self.serial - days }
    }

    /// The number of days from `other` to this date.
    pub fn days_since(&self, other: &Date) -> (r: i32)
        requires
            self.wf(),
            other.wf(),
        ensures
            r == self@ - other@,
    {
        self.serial - other.serial
    }

    /// Whether this date falls strictly before `other`.
    pub fn is_before(&self, other: &Date) -> (r: bool)
        ensures
            r == (self@ < other@),
    {
        self.serial < other.serial
    }

    /// The date `n` whole months later, clamped to the end of a shorter month.
    fn plus_months(&self, n: i32) -> (r: Date)
        requires
            self.wf(),
            months_shift_ok(self@, n as int),
        ensures
            r@ == serial_plus_months(self@, n as int),
            r.wf(),
    {
        proof {
            lemma_plus_months_valid(self@, n as int);
        }
        let (d, m, y) = self.ymd();
        let total: i64 = y as i64 * 12 + (m as i64 - 1) + n as i64;
        let y2 = (total / 12) as i32;
        let m2 = (total % 12 + 1) as i32;
        let len = month_length_exec(m2, y2);
        let d2 = if d <= len { d } else { len };
        proof {
            lemma_serial_bounds(d2 as int, m2 as int, y2 as int);
        }
        Date { serial: year_start_exec(y2) + days_before_month_exec(m2, y2) + d2 - 1 }
    }

    /// The date `period` later (earlier for a negative length).
    ///
    /// Days and weeks move the serial number; months and years keep the day
    /// of the month, or take the last day of a shorter target month.
    pub fn add_period(&self, period: Period) -> (r: Date)
        requires
            self.wf(),
            advance_ok(self@, period.length_spec(), period.units_spec()),
        ensures
            r@ == serial_advanced(self@, period.length_spec(), period.units_spec()),
            r.wf(),
    {
        let n = period.length();
        match period.units() {
            TimeUnit::Days => Date { serial: self.serial + n },
            TimeUnit::Weeks => Date { serial: (self.serial as i64 + 7 * n as i64) as i32 },
            TimeUnit::Months => self.plus_months(n),
            TimeUnit::Years => {
                proof {
                    lemma_civil(self@);
                }
                let months = (12 * n as i64) as i32;
                self.plus_months(months)
            },
        }
    }

    /// The date `period` earlier (later for a negative length).
    pub fn sub_period(&self, period: Period) -> (r: Date)
        requires
            self.wf(),
            period.length_spec() > i32::MIN,
            advance_ok(self@, -period.length_spec(), period.units_spec()),
        ensures
            r@ == serial_advanced(self@, -period.length_spec(), period.units_spec()),
            r.wf(),
    {
        self.add_period(period.negated())
    }

    /// The last day of the date's month.
    pub fn end_of_month(date: Date) -> (r: Date)
        requires
            date.wf(),
        ensures
            r.wf(),
            r.year_spec() == date.year_spec(),
            r.month_spec() == date.month_spec(),
            r.day_spec() == days_in_month(date.month_spec(), date.year_spec()),
            r@ == serial_of(
                days_in_month(date.month_spec(), date.year_spec()),
                date.month_spec(),
                date.year_spec(),
            ),
            date@ <= r@,
    {
        let (d, m, y) = date.ymd();
        let len = month_length_exec(m, y);
        proof {
            lemma_civil_of_serial(len as int, m as int, y as int);
            lemma_serial_bounds(len as int, m as int, y as int);
        }
        Date { serial: year_start_exec(y) + days_before_month_exec(m, y) + len - 1 }
    }

    /// Whether the date is the last day of its month.
    pub fn is_end_of_month(date: Date) -> (r: bool)
        requires
            date.wf(),
        ensures
            r == (date.day_spec() == days_in_month(date.month_spec(), date.year_spec())),
    {
        let (d, m, y) = date.ymd();
        d == month_length_exec(m, y)
    }
}

} // verus!
