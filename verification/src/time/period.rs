//! Time units, periods and frequencies.
use vstd::prelude::*;

use crate::errors::QlError;

verus! {

/// The unit a [`Period`] is counted in.
#[derive(Clone, Copy, Debug, PartialEq, Eq, Structural, Hash)]
pub enum TimeUnit {
    Days,
    Weeks,
    Months,
    Years,
}

/// A length of time: a signed number of days, weeks, months or years.
#[derive(Clone, Copy, Debug, PartialEq, Eq, Structural, Hash)]
pub struct Period {
    length: i32,
    units: TimeUnit,
}

impl Period {
    /// The number of units.
    pub closed spec fn length_spec(self) -> int {
        self.length as int
    }

    /// The unit.
    pub closed spec fn units_spec(self) -> TimeUnit {
        self.units
    }

    /// `length` units of `units`.
    pub fn new(length: i32, units: TimeUnit) -> (r: Period)
        ensures
            r.length_spec() == length,
            r.units_spec() == units,
    {
        Period { length, units }
    }

    /// The number of units.
    pub fn length(&self) -> (r: i32)
        ensures
            r == self.length_spec(),
    {
        self.length
    }

    /// The unit.
    pub fn units(&self) -> (r: TimeUnit)
        ensures
            r == self.units_spec(),
    {
        self.units
    }

    /// The same period, counted backwards.
    pub fn negated(&self) -> (r: Period)
        requires
            self.length_spec() > i32::MIN,
        ensures
            r.length_spec() == -self.length_spec(),
            r.units_spec() == self.units_spec(),
    {
        Period { length: -self.length, units: self.units }
    }
}

impl Period {
    /// The unit letter of the short form of a period.
    pub open spec fn unit_letter(units: TimeUnit) -> Seq<char> {
        match units {
            TimeUnit::Days => seq!['D'],
            TimeUnit::Weeks => seq!['W'],
            TimeUnit::Months => seq!['M'],
            TimeUnit::Years => seq!['Y'],
        }
    }

    /// The short form of the period: its length then its unit letter, as in
    /// `6M` or `1Y`.
    pub fn to_short_string(&self) -> (r: String)
        ensures
            r@ == decimal_string(self.length_spec()) + Self::unit_letter(self.units_spec()),
    {
        let mut s = integer_to_string(self.length);
        proof {
            reveal_strlit("D");
            reveal_strlit("W");
            reveal_strlit("M");
            reveal_strlit("Y");
        }
        match self.units {
            TimeUnit::Days => s.append("D"),
            TimeUnit::Weeks => s.append("W"),
            TimeUnit::Months => s.append("M"),
            TimeUnit::Years => s.append("Y"),
        }
        s
    }
}

impl Period {
    /// The frequency a period of this length recurs at: `Once` for no years
    /// and no frequency for another null period; annual for one year;
    /// monthly, bimonthly, quarterly, every fourth month, semiannual or
    /// annual for one, two, three, four, six or twelve months; weekly,
    /// biweekly or every fourth week for one, two or four weeks; daily for
    /// one day; any other frequency otherwise. The sign is ignored.
    pub open spec fn frequency_spec(self) -> Frequency {
        let n = if self.length_spec() < 0 {
            -self.length_spec()
        } else {
            self.length_spec()
        };
        if n == 0 {
            if self.units_spec() is Years {
                Frequency::Once
            } else {
                Frequency::NoFrequency
            }
        } else {
            match self.units_spec() {
                TimeUnit::Years => if n == 1 {
                    Frequency::Annual
                } else {
                    Frequency::OtherFrequency
                },
                TimeUnit::Months => if n == 1 {
                    Frequency::Monthly
                } else if n == 2 {
                    Frequency::Bimonthly
                } else if n == 3 {
                    Frequency::Quarterly
                } else if n == 4 {
                    Frequency::EveryFourthMonth
                } else if n == 6 {
                    Frequency::Semiannual
                } else if n == 12 {
                    Frequency::Annual
                } else {
                    Frequency::OtherFrequency
                },
                TimeUnit::Weeks => if n == 1 {
                    Frequency::Weekly
                } else if n == 2 {
                    Frequency::Biweekly
                } else if n == 4 {
                    Frequency::EveryFourthWeek
                } else {
                    Frequency::OtherFrequency
                },
                TimeUnit::Days => if n == 1 {
                    Frequency::Daily
                } else {
                    Frequency::OtherFrequency
                },
            }
        }
    }

    /// The frequency a period of this length recurs at.
    pub fn frequency(&self) -> (r: Frequency)
        ensures
            r == self.frequency_spec(),
    {
        let n: i64 = if self.length < 0 {
            -(self.length as i64)
        } else {
            self.length as i64
        };
        if n == 0 {
            return match self.units {
                TimeUnit::Years => Frequency::Once,
                _ => Frequency::NoFrequency,
            };
        }
        match self.units {
            TimeUnit::Years => if n == 1 {
                Frequency::Annual
            } else {
                Frequency::OtherFrequency
            },
            TimeUnit::Months => if n == 1 {
                Frequency::Monthly
            } else if n == 2 {
                Frequency::Bimonthly
            } else if n == 3 {
                Frequency::Quarterly
            } else if n == 4 {
                Frequency::EveryFourthMonth
            } else if n == 6 {
                Frequency::Semiannual
            } else if n == 12 {
                Frequency::Annual
            } else {
                Frequency::OtherFrequency
            },
            TimeUnit::Weeks => if n == 1 {
                Frequency::Weekly
            } else if n == 2 {
                Frequency::Biweekly
            } else if n == 4 {
                Frequency::EveryFourthWeek
            } else {
                Frequency::OtherFrequency
            },
            TimeUnit::Days => if n == 1 {
                Frequency::Daily
            } else {
                Frequency::OtherFrequency
            },
        }
    }
}

/// Two periods with the same length and unit are the same period.
pub proof fn lemma_period_eq(a: Period, b: Period)
    ensures
        (a.length_spec() == b.length_spec() && a.units_spec() == b.units_spec()) == (a == b),
{
}

/// How often an event recurs within a year.
#[derive(Clone, Copy, Debug, PartialEq, Eq, Structural, Hash)]
pub enum Frequency {
    NoFrequency,
    Once,
    Annual,
    Semiannual,
    EveryFourthMonth,
    Quarterly,
    Bimonthly,
    Monthly,
    EveryFourthWeek,
    Biweekly,
    Weekly,
    Daily,
    OtherFrequency,
}

impl Frequency {
    /// The number of events per year (`-1` for no frequency, `0` for once,
    /// `999` for any other).
    pub open spec fn per_year(self) -> int {
        match self {
            Frequency::NoFrequency => -1,
            Frequency::Once => 0,
            Frequency::Annual => 1,
            Frequency::Semiannual => 2,
            Frequency::EveryFourthMonth => 3,
            Frequency::Quarterly => 4,
            Frequency::Bimonthly => 6,
            Frequency::Monthly => 12,
            Frequency::EveryFourthWeek => 13,
            Frequency::Biweekly => 26,
            Frequency::Weekly => 52,
            Frequency::Daily => 365,
            Frequency::OtherFrequency => 999,
        }
    }

    /// The number of events per year.
    pub fn value(self) -> (r: i32)
        ensures
            r == self.per_year(),
    {
        match self {
            Frequency::NoFrequency => -1,
            Frequency::Once => 0,
            Frequency::Annual => 1,
            Frequency::Semiannual => 2,
            Frequency::EveryFourthMonth => 3,
            Frequency::Quarterly => 4,
            Frequency::Bimonthly => 6,
            Frequency::Monthly => 12,
            Frequency::EveryFourthWeek => 13,
            Frequency::Biweekly => 26,
            Frequency::Weekly => 52,
            Frequency::Daily => 365,
            Frequency::OtherFrequency => 999,
        }
    }
}


/// The decimal digits of `n`, most significant first.
pub open spec fn decimal_digits(n: nat) -> Seq<char>
    decreases n,
{
    if n < 10 {
        seq![digit_char(n)]
    } else {
        decimal_digits(n / 10).push(digit_char(n % 10))
    }
}

/// The character of the decimal digit `d`.
pub open spec fn digit_char(d: nat) -> char {
    if d == 0 {
        '0'
    } else if d == 1 {
        '1'
    } else if d == 2 {
        '2'
    } else if d == 3 {
        '3'
    } else if d == 4 {
        '4'
    } else if d == 5 {
        '5'
    } else if d == 6 {
        '6'
    } else if d == 7 {
        '7'
    } else if d == 8 {
        '8'
    } else {
        '9'
    }
}

/// The decimal representation of `n`, with a leading minus sign when
/// negative.
pub open spec fn decimal_string(n: int) -> Seq<char> {
    if n < 0 {
        seq!['-'] + decimal_digits((-n) as nat)
    } else {
        decimal_digits(n as nat)
    }
}

fn digit_str(d: u32) -> (r: &'static str)
    requires
        d < 10,
    ensures
        r@ == seq![digit_char(d as nat)],
{
    proof {
        reveal_strlit("0");
        reveal_strlit("1");
        reveal_strlit("2");
        reveal_strlit("3");
        reveal_strlit("4");
        reveal_strlit("5");
        reveal_strlit("6");
        reveal_strlit("7");
        reveal_strlit("8");
        reveal_strlit("9");
    }
    if d == 0 {
        "0"
    } else if d == 1 {
        "1"
    } else if d == 2 {
        "2"
    } else if d == 3 {
        "3"
    } else if d == 4 {
        "4"
    } else if d == 5 {
        "5"
    } else if d == 6 {
        "6"
    } else if d == 7 {
        "7"
    } else if d == 8 {
        "8"
    } else {
        "9"
    }
}

fn append_digits(s: &mut String, n: u32)
    ensures
        final(s)@ == old(s)@ + decimal_digits(n as nat),
    decreases n,
{
    if n >= 10 {
        append_digits(s, n / 10);
    }
    s.append(digit_str(n % 10));
    assert(final(s)@ =~= old(s)@ + decimal_digits(n as nat)) by {
        if n >= 10 {
            assert(decimal_digits(n as nat) == decimal_digits((n / 10) as nat).push(
                digit_char((n % 10) as nat),
            ));
        }
    }
}

/// The decimal representation of `n`.
pub fn integer_to_string(n: i32) -> (r: String)
    ensures
        r@ == decimal_string(n as int),
{
    let mut s = String::new();
    if n < 0 {
        proof {
            reveal_strlit("-");
        }
        s.append("-");
        let m = (-(n as i64)) as u32;
        append_digits(&mut s, m);
    } else {
        append_digits(&mut s, n as u32);
    }
    assert(s@ =~= decimal_string(n as int));
    s
}

/// The period between two events recurring at `f`, as a length and a
/// unit; none for a frequency that recurs at no whole number of units.
pub open spec fn frequency_period(f: Frequency) -> Option<(int, TimeUnit)> {
    match f {
        Frequency::NoFrequency => Some((0, TimeUnit::Days)),
        Frequency::Once => Some((0, TimeUnit::Years)),
        Frequency::Annual => Some((1, TimeUnit::Years)),
        Frequency::Semiannual => Some((6, TimeUnit::Months)),
        Frequency::EveryFourthMonth => Some((4, TimeUnit::Months)),
        Frequency::Quarterly => Some((3, TimeUnit::Months)),
        Frequency::Bimonthly => Some((2, TimeUnit::Months)),
        Frequency::Monthly => Some((1, TimeUnit::Months)),
        Frequency::EveryFourthWeek => Some((4, TimeUnit::Weeks)),
        Frequency::Biweekly => Some((2, TimeUnit::Weeks)),
        Frequency::Weekly => Some((1, TimeUnit::Weeks)),
        Frequency::Daily => Some((1, TimeUnit::Days)),
        Frequency::OtherFrequency => None,
    }
}

/// The sum of two periods given as lengths and units: the second alone
/// when the first is empty; the lengths added in a common unit when the
/// units are the same, or years and months, or weeks and days; the first
/// when the second is empty; none otherwise.
pub open spec fn period_sum(a: (int, TimeUnit), b: (int, TimeUnit)) -> Option<(int, TimeUnit)> {
    if a.0 == 0 {
        Some(b)
    } else if a.1 == b.1 {
        Some((a.0 + b.0, a.1))
    } else {
        match (a.1, b.1) {
            (TimeUnit::Years, TimeUnit::Months) => Some((12 * a.0 + b.0, TimeUnit::Months)),
            (TimeUnit::Months, TimeUnit::Years) => Some((a.0 + 12 * b.0, TimeUnit::Months)),
            (TimeUnit::Weeks, TimeUnit::Days) => Some((7 * a.0 + b.0, TimeUnit::Days)),
            (TimeUnit::Days, TimeUnit::Weeks) => Some((a.0 + 7 * b.0, TimeUnit::Days)),
            _ => if b.0 == 0 {
                Some(a)
            } else {
                None
            },
        }
    }
}

/// The fewest and the most days a period can span.
pub open spec fn days_min_max(a: (int, TimeUnit)) -> (int, int) {
    match a.1 {
        TimeUnit::Days => (a.0, a.0),
        TimeUnit::Weeks => (7 * a.0, 7 * a.0),
        TimeUnit::Months => (28 * a.0, 31 * a.0),
        TimeUnit::Years => (365 * a.0, 366 * a.0),
    }
}

/// Whether period `a` is shorter than period `b`: exactly where the units
/// convert into each other or a length is zero, and otherwise by the days
/// they can span; none where those ranges overlap.
pub open spec fn period_less(a: (int, TimeUnit), b: (int, TimeUnit)) -> Option<bool> {
    if a.0 == 0 {
        Some(b.0 > 0)
    } else if b.0 == 0 {
        Some(a.0 < 0)
    } else if a.1 == b.1 {
        Some(a.0 < b.0)
    } else {
        match (a.1, b.1) {
            (TimeUnit::Months, TimeUnit::Years) => Some(a.0 < 12 * b.0),
            (TimeUnit::Years, TimeUnit::Months) => Some(12 * a.0 < b.0),
            (TimeUnit::Days, TimeUnit::Weeks) => Some(a.0 < 7 * b.0),
            (TimeUnit::Weeks, TimeUnit::Days) => Some(7 * a.0 < b.0),
            _ => {
                let (a_min, a_max) = days_min_max(a);
                let (b_min, b_max) = days_min_max(b);
                if a_max < b_min {
                    Some(true)
                } else if a_min > b_max {
                    Some(false)
                } else {
                    None
                }
            },
        }
    }
}

impl Period {
    /// The period as a length and a unit.
    pub open spec fn pair(self) -> (int, TimeUnit) {
        (self.length_spec(), self.units_spec())
    }

    /// The period between two events recurring at `frequency`; refused for
    /// a frequency that recurs at no whole number of units.
    pub fn from_frequency(frequency: Frequency) -> (r: Result<Period, QlError>)
        ensures
            match frequency_period(frequency) {
                Some(p) => r matches Ok(q) && q.pair() == p,
                None => r == Err::<Period, QlError>(QlError::UnknownFrequency),
            },
    {
        match frequency {
            Frequency::NoFrequency => Ok(Period::new(0, TimeUnit::Days)),
            Frequency::Once => Ok(Period::new(0, TimeUnit::Years)),
            Frequency::Annual => Ok(Period::new(1, TimeUnit::Years)),
            Frequency::Semiannual => Ok(Period::new(6, TimeUnit::Months)),
            Frequency::EveryFourthMonth => Ok(Period::new(4, TimeUnit::Months)),
            Frequency::Quarterly => Ok(Period::new(3, TimeUnit::Months)),
            Frequency::Bimonthly => Ok(Period::new(2, TimeUnit::Months)),
            Frequency::Monthly => Ok(Period::new(1, TimeUnit::Months)),
            Frequency::EveryFourthWeek => Ok(Period::new(4, TimeUnit::Weeks)),
            Frequency::Biweekly => Ok(Period::new(2, TimeUnit::Weeks)),
            Frequency::Weekly => Ok(Period::new(1, TimeUnit::Weeks)),
            Frequency::Daily => Ok(Period::new(1, TimeUnit::Days)),
            Frequency::OtherFrequency => Err(QlError::UnknownFrequency),
        }
    }

    /// The sum of the two periods; refused for units that do not convert
    /// into each other, unless one of the lengths is zero.
    pub fn plus(&self, other: &Period) -> (r: Result<Period, QlError>)
        requires
            period_sum(self.pair(), other.pair()) matches Some(p) ==> i32::MIN <= p.0 <= i32::MAX,
        ensures
            match period_sum(self.pair(), other.pair()) {
                Some(p) => r matches Ok(q) && q.pair() == p,
                None => r == Err::<Period, QlError>(QlError::ImpossiblePeriodAddition),
            },
    {
        let n = self.length as i64;
        let m = other.length as i64;
        if self.length == 0 {
            return Ok(*other);
        }
        if self.units == other.units {
            return Ok(Period::new((n + m) as i32, self.units));
        }
        match (self.units, other.units) {
            (TimeUnit::Years, TimeUnit::Months) => Ok(Period::new((12 * n + m) as i32, TimeUnit::Months)),
            (TimeUnit::Months, TimeUnit::Years) => Ok(Period::new((n + 12 * m) as i32, TimeUnit::Months)),
            (TimeUnit::Weeks, TimeUnit::Days) => Ok(Period::new((7 * n + m) as i32, TimeUnit::Days)),
            (TimeUnit::Days, TimeUnit::Weeks) => Ok(Period::new((n + 7 * m) as i32, TimeUnit::Days)),
            _ => if other.length == 0 {
                Ok(*self)
            } else {
                Err(QlError::ImpossiblePeriodAddition)
            },
        }
    }

    /// The difference of the two periods: this one plus the other counted
    /// backwards.
    pub fn minus(&self, other: &Period) -> (r: Result<Period, QlError>)
        requires
            other.length_spec() > i32::MIN,
            period_sum(self.pair(), (-other.length_spec(), other.units_spec())) matches Some(p) ==> i32::MIN
                <= p.0 <= i32::MAX,
        ensures
            match period_sum(self.pair(), (-other.length_spec(), other.units_spec())) {
                Some(p) => r matches Ok(q) && q.pair() == p,
                None => r == Err::<Period, QlError>(QlError::ImpossiblePeriodAddition),
            },
    {
        let negated = other.negated();
        self.plus(&negated)
    }

    /// Whether this period is shorter than `other`; refused where the days
    /// they can span overlap and their units do not convert into each other.
    pub fn is_less(&self, other: &Period) -> (r: Result<bool, QlError>)
        ensures
            match period_less(self.pair(), other.pair()) {
                Some(b) => r == Ok::<bool, QlError>(b),
                None => r == Err::<bool, QlError>(QlError::UndecidablePeriodComparison),
            },
    {
        let n = self.length as i64;
        let m = other.length as i64;
        if n == 0 {
            return Ok(m > 0);
        }
        if m == 0 {
            return Ok(n < 0);
        }
        if self.units == other.units {
            return Ok(n < m);
        }
        match (self.units, other.units) {
            (TimeUnit::Months, TimeUnit::Years) => Ok(n < 12 * m),
            (TimeUnit::Years, TimeUnit::Months) => Ok(12 * n < m),
            (TimeUnit::Days, TimeUnit::Weeks) => Ok(n < 7 * m),
            (TimeUnit::Weeks, TimeUnit::Days) => Ok(7 * n < m),
            _ => {
                let (a_min, a_max) = days_range(self.units, n);
                let (b_min, b_max) = days_range(other.units, m);
                if a_max < b_min {
                    Ok(true)
                } else if a_min > b_max {
                    Ok(false)
                } else {
                    Err(QlError::UndecidablePeriodComparison)
                }
            },
        }
    }
}

/// The fewest and the most days `n` units of `units` can span.
fn days_range(units: TimeUnit, n: i64) -> (r: (i64, i64))
    requires
        i32::MIN <= n <= i32::MAX,
    ensures
        (r.0 as int, r.1 as int) == days_min_max((n as int, units)),
{
    match units {
        TimeUnit::Days => (n, n),
        TimeUnit::Weeks => (7 * n, 7 * n),
        TimeUnit::Months => (28 * n, 31 * n),
        TimeUnit::Years => (365 * n, 366 * n),
    }
}

} // verus!
