//! Business-day calendars and the conventions that roll dates onto them.
use vstd::prelude::*;

use crate::time::date::{
    Date, MAX_SERIAL, MIN_SERIAL, Weekday, advance_ok, day_of, days_in_month, lemma_civil,
    lemma_civil_of_serial, lemma_serial_bounds, month_of, serial_advanced, serial_in_range,
    serial_of, year_of,
};
use crate::time::period::{Period, TimeUnit};

verus! {

/// How a date falling on a holiday is rolled onto a business day.
#[derive(Clone, Copy, Debug, PartialEq, Eq, Structural, Hash)]
pub enum BusinessDayConvention {
    /// The first business day after the date.
    Following,
    /// The first business day after the date, unless it falls in the next
    /// month: then the last business day before it.
    ModifiedFollowing,
    /// The last business day before the date.
    Preceding,
    /// The last business day before the date, unless it falls in the
    /// previous month: then the first business day after it.
    ModifiedPreceding,
    /// The date itself.
    Unadjusted,
    /// As `ModifiedFollowing`, and also rolling back when the roll forward
    /// crosses the middle of the month.
    HalfMonthModifiedFollowing,
    /// The nearest business day, the later one on a tie.
    Nearest,
}

/// The weekday number (1 for Sunday to 7 for Saturday) of serial `s`.
pub open spec fn weekday_number(s: int) -> int {
    if s % 7 == 0 {
        7
    } else {
        s % 7
    }
}

/// A calendar of business days: every day but its weekend days and its
/// listed holidays.
#[derive(Clone, Debug, PartialEq, Eq)]
pub struct Calendar {
    name: String,
    weekend: Vec<Weekday>,
    holidays: Vec<Date>,
}

/// What a calendar is: its name, its weekend days and its other holidays.
pub struct CalendarModel {
    /// The calendar's name.
    pub name: Seq<char>,
    /// The weekdays that are never business days.
    pub weekend: Seq<Weekday>,
    /// The other days that are not business days.
    pub holidays: Seq<Date>,
}

impl CalendarModel {
    /// Whether the day with serial `s` is a business day.
    pub open spec fn is_business(self, s: int) -> bool {
        &&& forall|i: int|
            0 <= i < self.weekend.len() ==> #[trigger] self.weekend[i].number() != weekday_number(s)
        &&& forall|i: int| 0 <= i < self.holidays.len() ==> #[trigger] self.holidays[i]@ != s
    }
}

impl View for Calendar {
    type V = CalendarModel;

    closed spec fn view(&self) -> CalendarModel {
        CalendarModel { name: self.name@, weekend: self.weekend@, holidays: self.holidays@ }
    }
}

/// The calendar where every day is a business day.
pub open spec fn null_calendar_spec() -> CalendarModel {
    CalendarModel { name: "Null"@, weekend: Seq::empty(), holidays: Seq::empty() }
}

impl Calendar {
    /// A calendar where every day is a business day.
    pub fn null() -> (r: Calendar)
        ensures
            r@ == null_calendar_spec(),
    {
        let r = Calendar { name: String::from_str("Null"), weekend: Vec::new(), holidays: Vec::new() };
        assert(r@.weekend =~= Seq::<Weekday>::empty());
        assert(r@.holidays =~= Seq::<Date>::empty());
        r
    }

    /// A calendar whose only holidays are Saturdays and Sundays.
    pub fn weekends_only() -> (r: Calendar)
        ensures
            r@.weekend == seq![Weekday::Saturday, Weekday::Sunday],
            r@.holidays.len() == 0,
            r@.name == "weekends only"@,
    {
        let weekend = vec![Weekday::Saturday, Weekday::Sunday];
        assert(weekend@ =~= seq![Weekday::Saturday, Weekday::Sunday]);
        Calendar { name: String::from_str("weekends only"), weekend, holidays: Vec::new() }
    }

    /// A calendar with the given name, no weekend days and no holidays, to
    /// which holidays and weekend days are then added.
    pub fn bespoke(name: &str) -> (r: Calendar)
        ensures
            r@.weekend.len() == 0,
            r@.holidays.len() == 0,
            r@.name == name@,
    {
        Calendar { name: name.to_owned(), weekend: Vec::new(), holidays: Vec::new() }
    }

    /// Marks `date` as a holiday.
    pub fn add_holiday(&mut self, date: Date)
        ensures
            final(self)@.holidays == old(self)@.holidays.push(date),
            final(self)@.weekend == old(self)@.weekend,
            final(self)@.name == old(self)@.name,
    {
        self.holidays.push(date);
    }

    /// Marks `weekday` as a weekend day.
    pub fn add_weekend(&mut self, weekday: Weekday)
        ensures
            final(self)@.weekend == old(self)@.weekend.push(weekday),
            final(self)@.holidays == old(self)@.holidays,
            final(self)@.name == old(self)@.name,
    {
        self.weekend.push(weekday);
    }

    /// The calendar's name.
    pub fn name(&self) -> (r: String)
        ensures
            r@ == self@.name,
    {
        self.name.clone()
    }

    /// A copy of the calendar, with the same name, weekend and holidays.
    pub fn copied(&self) -> (r: Calendar)
        ensures
            r@ == self@,
    {
        let weekend = self.weekend.clone();
        let holidays = self.holidays.clone();
        assert forall|i: int| 0 <= i < weekend@.len() implies weekend@[i] == self.weekend@[i] by {
            assert(cloned::<Weekday>(self.weekend[i], weekend[i]));
        }
        assert forall|i: int| 0 <= i < holidays@.len() implies holidays@[i] == self.holidays@[i] by {
            assert(cloned::<Date>(self.holidays[i], holidays[i]));
        }
        assert(weekend@ =~= self.weekend@);
        assert(holidays@ =~= self.holidays@);
        Calendar { name: self.name.clone(), weekend, holidays }
    }

    /// Whether `weekday` is a weekend day of the calendar.
    pub fn is_weekend(&self, weekday: Weekday) -> (r: bool)
        ensures
            r == exists|i: int|
                0 <= i < self@.weekend.len() && #[trigger] self@.weekend[i]
                    == weekday,
    {
        let mut i: usize = 0;
        while i < self.weekend.len()
            invariant
                i <= self.weekend@.len(),
                forall|j: int| 0 <= j < i ==> #[trigger] self.weekend@[j] != weekday,
            decreases self.weekend@.len() - i,
        {
            if self.weekend[i] == weekday {
                return true;
            }
            i = i + 1;
        }
        false
    }

    /// Whether `date` is a business day of the calendar.
    pub fn is_business_day(&self, date: Date) -> (r: bool)
        requires
            date.wf(),
        ensures
            r == self@.is_business(date@),
    {
        let w = date.weekday();
        let mut i: usize = 0;
        while i < self.weekend.len()
            invariant
                i <= self.weekend@.len(),
                w.number() == weekday_number(date@),
                forall|j: int| 0 <= j < i ==> #[trigger] self.weekend@[j].number() != weekday_number(
                    date@,
                ),
            decreases self.weekend@.len() - i,
        {
            if self.weekend[i] == w {
                assert(self@.weekend[i as int].number() == weekday_number(date@));
                return false;
            }
            i = i + 1;
        }
        let mut k: usize = 0;
        while k < self.holidays.len()
            invariant
                k <= self.holidays@.len(),
                forall|j: int| 0 <= j < k ==> #[trigger] self.holidays@[j]@ != date@,
            decreases self.holidays@.len() - k,
        {
            if self.holidays[k].serial_number() == date.serial_number() {
                assert(self@.holidays[k as int]@ == date@);
                return false;
            }
            k = k + 1;
        }
        true
    }

    /// Whether `date` is a holiday (or weekend day) of the calendar.
    pub fn is_holiday(&self, date: Date) -> (r: bool)
        requires
            date.wf(),
        ensures
            r == !self@.is_business(date@),
    {
        !self.is_business_day(date)
    }
}

/// The first business day of `cal` on or after serial `s`, if one lies in
/// the supported range.
pub open spec fn following_spec(cal: CalendarModel, s: int) -> Option<int>
    decreases MAX_SERIAL - s,
{
    if !serial_in_range(s) {
        None
    } else if cal.is_business(s) {
        Some(s)
    } else if s >= MAX_SERIAL {
        None
    } else {
        following_spec(cal, s + 1)
    }
}

/// The last business day of `cal` on or before serial `s`, if one lies in
/// the supported range.
pub open spec fn preceding_spec(cal: CalendarModel, s: int) -> Option<int>
    decreases s - MIN_SERIAL,
{
    if !serial_in_range(s) {
        None
    } else if cal.is_business(s) {
        Some(s)
    } else if s <= MIN_SERIAL {
        None
    } else {
        preceding_spec(cal, s - 1)
    }
}

/// The business day nearest to the pair `up`, `down` walked apart one day at
/// a time: `up` as soon as it is a business day, else `down`.
pub open spec fn nearest_spec(cal: CalendarModel, up: int, down: int) -> Option<int>
    decreases MAX_SERIAL - up,
{
    if !serial_in_range(up) || !serial_in_range(down) {
        None
    } else if cal.is_business(up) {
        Some(up)
    } else if cal.is_business(down) {
        Some(down)
    } else if up >= MAX_SERIAL || down <= MIN_SERIAL {
        None
    } else {
        nearest_spec(cal, up + 1, down - 1)
    }
}

/// Serial `s` rolled onto a business day of `cal` under convention `c`.
pub open spec fn adjust_spec(cal: CalendarModel, s: int, c: BusinessDayConvention) -> Option<int> {
    match c {
        BusinessDayConvention::Unadjusted => if serial_in_range(s) {
            Some(s)
        } else {
            None
        },
        BusinessDayConvention::Following => following_spec(cal, s),
        BusinessDayConvention::ModifiedFollowing => match following_spec(cal, s) {
            None => None,
            Some(f) => if month_of(f) != month_of(s) {
                preceding_spec(cal, s)
            } else {
                Some(f)
            },
        },
        BusinessDayConvention::HalfMonthModifiedFollowing => match following_spec(cal, s) {
            None => None,
            Some(f) => if month_of(f) != month_of(s) || (day_of(s) <= 15 && day_of(f) > 15) {
                preceding_spec(cal, s)
            } else {
                Some(f)
            },
        },
        BusinessDayConvention::Preceding => preceding_spec(cal, s),
        BusinessDayConvention::ModifiedPreceding => match preceding_spec(cal, s) {
            None => None,
            Some(p) => if month_of(p) != month_of(s) {
                following_spec(cal, s)
            } else {
                Some(p)
            },
        },
        BusinessDayConvention::Nearest => nearest_spec(cal, s, s),
    }
}

/// The business day `n` business days after serial `s`.
pub open spec fn forward_spec(cal: CalendarModel, s: int, n: nat) -> Option<int>
    decreases n,
{
    if n == 0 {
        Some(s)
    } else {
        match following_spec(cal, s + 1) {
            None => None,
            Some(t) => forward_spec(cal, t, (n - 1) as nat),
        }
    }
}

/// The business day `n` business days before serial `s`.
pub open spec fn backward_spec(cal: CalendarModel, s: int, n: nat) -> Option<int>
    decreases n,
{
    if n == 0 {
        Some(s)
    } else {
        match preceding_spec(cal, s - 1) {
            None => None,
            Some(t) => backward_spec(cal, t, (n - 1) as nat),
        }
    }
}

/// The last day of the month of serial `s`.
pub open spec fn month_end_serial(s: int) -> int {
    serial_of(days_in_month(month_of(s), year_of(s)), month_of(s), year_of(s))
}

/// Whether serial `s` is the last day of its month.
pub open spec fn is_month_end(s: int) -> bool {
    day_of(s) == days_in_month(month_of(s), year_of(s))
}

/// Whether serial `s` is the last business day of its month in `cal`: the
/// next business day after it falls in another month.
pub open spec fn business_month_end_spec(cal: CalendarModel, s: int) -> Option<bool> {
    match following_spec(cal, s + 1) {
        None => None,
        Some(t) => Some(month_of(t) != month_of(s)),
    }
}

/// The last business day of the month of serial `s` in `cal`.
pub open spec fn business_end_of_month_spec(cal: CalendarModel, s: int) -> Option<int> {
    preceding_spec(cal, month_end_serial(s))
}

/// Serial `s` advanced by `n` units of `unit` on `cal`, rolled under `c`,
/// and, for months and years with `end_of_month`, kept at the end of the
/// month when `s` is.
pub open spec fn advance_spec(
    cal: CalendarModel,
    s: int,
    n: int,
    unit: TimeUnit,
    c: BusinessDayConvention,
    end_of_month: bool,
) -> Option<int> {
    if n == 0 {
        adjust_spec(cal, s, c)
    } else {
        match unit {
            TimeUnit::Days => if n > 0 {
                forward_spec(cal, s, n as nat)
            } else {
                backward_spec(cal, s, (-n) as nat)
            },
            TimeUnit::Weeks => if serial_in_range(s + 7 * n) {
                adjust_spec(cal, s + 7 * n, c)
            } else {
                None
            },
            _ => if !advance_ok(s, n, unit) {
                None
            } else {
                let d1 = serial_advanced(s, n, unit);
                if end_of_month && c is Unadjusted && is_month_end(s) {
                    Some(month_end_serial(d1))
                } else if end_of_month && !(c is Unadjusted) {
                    match business_month_end_spec(cal, s) {
                        None => None,
                        Some(true) => business_end_of_month_spec(cal, d1),
                        Some(false) => adjust_spec(cal, d1, c),
                    }
                } else {
                    adjust_spec(cal, d1, c)
                }
            },
        }
    }
}


impl Calendar {
    /// The first business day on or after `date`.
    fn following(&self, date: Date) -> (r: Date)
        requires
            date.wf(),
            following_spec(self@, date@) is Some,
        ensures
            r@ == following_spec(self@, date@).unwrap(),
            r.wf(),
    {
        let mut d1 = date;
        while !self.is_business_day(d1)
            invariant
                d1.wf(),
                following_spec(self@, d1@) == following_spec(self@, date@),
                following_spec(self@, d1@) is Some,
            decreases MAX_SERIAL - d1@,
        {
            d1 = d1.add_days(1);
        }
        d1
    }

    /// The last business day on or before `date`.
    fn preceding(&self, date: Date) -> (r: Date)
        requires
            date.wf(),
            preceding_spec(self@, date@) is Some,
        ensures
            r@ == preceding_spec(self@, date@).unwrap(),
            r.wf(),
    {
        let mut d1 = date;
        while !self.is_business_day(d1)
            invariant
                d1.wf(),
                preceding_spec(self@, d1@) == preceding_spec(self@, date@),
                preceding_spec(self@, d1@) is Some,
            decreases d1@ - MIN_SERIAL,
        {
            d1 = d1.sub_days(1);
        }
        d1
    }

    /// The nearest business day to `date`, the later one on a tie.
    fn nearest(&self, date: Date) -> (r: Date)
        requires
            date.wf(),
            nearest_spec(self@, date@, date@) is Some,
        ensures
            r@ == nearest_spec(self@, date@, date@).unwrap(),
            r.wf(),
    {
        let mut up = date;
        let mut down = date;
        while !self.is_business_day(up) && !self.is_business_day(down)
            invariant
                up.wf(),
                down.wf(),
                nearest_spec(self@, up@, down@) == nearest_spec(self@, date@, date@),
                nearest_spec(self@, up@, down@) is Some,
            decreases MAX_SERIAL - up@,
        {
            up = up.add_days(1);
            down = down.sub_days(1);
        }
        if self.is_business_day(up) {
            up
        } else {
            down
        }
    }

    /// `date` rolled onto a business day under `convention`.
    pub fn adjust(&self, date: Date, convention: BusinessDayConvention) -> (r: Date)
        requires
            date.wf(),
            adjust_spec(self@, date@, convention) is Some,
        ensures
            r@ == adjust_spec(self@, date@, convention).unwrap(),
            r.wf(),
    {
        match convention {
            BusinessDayConvention::Unadjusted => date,
            BusinessDayConvention::Following => self.following(date),
            BusinessDayConvention::ModifiedFollowing => {
                let f = self.following(date);
                if f.month().ordinal() != date.month().ordinal() {
                    self.preceding(date)
                } else {
                    f
                }
            },
            BusinessDayConvention::HalfMonthModifiedFollowing => {
                let f = self.following(date);
                if f.month().ordinal() != date.month().ordinal() || (date.day_of_month() <= 15
                    && f.day_of_month() > 15) {
                    self.preceding(date)
                } else {
                    f
                }
            },
            BusinessDayConvention::Preceding => self.preceding(date),
            BusinessDayConvention::ModifiedPreceding => {
                let p = self.preceding(date);
                if p.month().ordinal() != date.month().ordinal() {
                    self.following(date)
                } else {
                    p
                }
            },
            BusinessDayConvention::Nearest => self.nearest(date),
        }
    }

    /// Whether `date` is the last business day of its month.
    pub fn is_end_of_month(&self, date: Date) -> (r: bool)
        requires
            date.wf(),
            business_month_end_spec(self@, date@) is Some,
        ensures
            r == business_month_end_spec(self@, date@).unwrap(),
    {
        let next = self.following(date.add_days(1));
        next.month().ordinal() != date.month().ordinal()
    }

    /// The last business day of the month of `date`.
    pub fn end_of_month(&self, date: Date) -> (r: Date)
        requires
            date.wf(),
            business_end_of_month_spec(self@, date@) is Some,
        ensures
            r@ == business_end_of_month_spec(self@, date@).unwrap(),
            r.wf(),
    {
        self.preceding(Date::end_of_month(date))
    }

    /// `date` advanced by `n` business days for a unit of days, and else by
    /// `n` weeks, months or years then rolled under `convention`; with
    /// `end_of_month`, a date at the end of its month stays at the end of
    /// the target month.
    pub fn advance(
        &self,
        date: Date,
        n: i32,
        unit: TimeUnit,
        convention: BusinessDayConvention,
        end_of_month: bool,
    ) -> (r: Date)
        requires
            date.wf(),
            advance_spec(self@, date@, n as int, unit, convention, end_of_month) is Some,
        ensures
            r@ == advance_spec(self@, date@, n as int, unit, convention, end_of_month).unwrap(),
            r.wf(),
    {
        if n == 0 {
            return self.adjust(date, convention);
        }
        match unit {
            TimeUnit::Days => {
                if n > 0 {
                    let mut d1 = date;
                    let mut k = n;
                    while k > 0
                        invariant
                            0 <= k,
                            d1.wf(),
                            forward_spec(self@, d1@, k as nat) == forward_spec(
                                self@,
                                date@,
                                n as nat,
                            ),
                            forward_spec(self@, d1@, k as nat) is Some,
                        decreases k,
                    {
                        d1 = self.following(d1.add_days(1));
                        k = k - 1;
                    }
                    d1
                } else {
                    let mut d1 = date;
                    let mut k = n;
                    while k < 0
                        invariant
                            k <= 0,
                            d1.wf(),
                            backward_spec(self@, d1@, (-k) as nat) == backward_spec(
                                self@,
                                date@,
                                (-n) as nat,
                            ),
                            backward_spec(self@, d1@, (-k) as nat) is Some,
                        decreases -k,
                    {
                        d1 = self.preceding(d1.sub_days(1));
                        k = k + 1;
                    }
                    d1
                }
            },
            TimeUnit::Weeks => {
                let d1 = date.add_period(Period::new(n, TimeUnit::Weeks));
                self.adjust(d1, convention)
            },
            _ => {
                let d1 = date.add_period(Period::new(n, unit));
                let is_unadjusted = match convention {
                    BusinessDayConvention::Unadjusted => true,
                    _ => false,
                };
                if end_of_month && is_unadjusted && Date::is_end_of_month(date) {
                    Date::end_of_month(d1)
                } else if end_of_month && !is_unadjusted {
                    if self.is_end_of_month(date) {
                        self.end_of_month(d1)
                    } else {
                        self.adjust(d1, convention)
                    }
                } else {
                    self.adjust(d1, convention)
                }
            },
        }
    }

    /// `date` advanced by `period` (see [`advance`](Self::advance)).
    pub fn advance_by_period(
        &self,
        date: Date,
        period: Period,
        convention: BusinessDayConvention,
        end_of_month: bool,
    ) -> (r: Date)
        requires
            date.wf(),
            advance_spec(
                self@,
                date@,
                period.length_spec(),
                period.units_spec(),
                convention,
                end_of_month,
            ) is Some,
        ensures
            r@ == advance_spec(
                self@,
                date@,
                period.length_spec(),
                period.units_spec(),
                convention,
                end_of_month,
            ).unwrap(),
            r.wf(),
    {
        self.advance(date, period.length(), period.units(), convention, end_of_month)
    }
}


/// The first business day on or after a date is a business day, no earlier
/// than the date, with no business day between the two.
pub proof fn lemma_following_is_first_business_day(cal: CalendarModel, s: int)
    requires
        following_spec(cal, s) is Some,
    ensures
        ({
            let f = following_spec(cal, s).unwrap();
            &&& s <= f
            &&& serial_in_range(f)
            &&& cal.is_business(f)
            &&& forall|t: int| s <= t < f ==> !cal.is_business(t)
        }),
    decreases MAX_SERIAL - s,
{
    if serial_in_range(s) && !cal.is_business(s) && s < MAX_SERIAL {
        lemma_following_is_first_business_day(cal, s + 1);
        let f = following_spec(cal, s).unwrap();
        assert forall|t: int| s <= t < f implies !cal.is_business(t) by {
            if t > s {
                assert(s + 1 <= t < f);
            }
        }
    }
}

/// The last business day on or before a date is a business day, no later
/// than the date, with no business day between the two.
pub proof fn lemma_preceding_is_last_business_day(cal: CalendarModel, s: int)
    requires
        preceding_spec(cal, s) is Some,
    ensures
        ({
            let p = preceding_spec(cal, s).unwrap();
            &&& p <= s
            &&& serial_in_range(p)
            &&& cal.is_business(p)
            &&& forall|t: int| p < t <= s ==> !cal.is_business(t)
        }),
    decreases s - MIN_SERIAL,
{
    if serial_in_range(s) && !cal.is_business(s) && s > MIN_SERIAL {
        lemma_preceding_is_last_business_day(cal, s - 1);
        let p = preceding_spec(cal, s).unwrap();
        assert forall|t: int| p < t <= s implies !cal.is_business(t) by {
            if t < s {
                assert(p < t <= s - 1);
            }
        }
    }
}

proof fn lemma_nearest_is_business_day(cal: CalendarModel, up: int, down: int)
    requires
        nearest_spec(cal, up, down) is Some,
    ensures
        cal.is_business(nearest_spec(cal, up, down).unwrap()),
        serial_in_range(nearest_spec(cal, up, down).unwrap()),
    decreases MAX_SERIAL - up,
{
    if serial_in_range(up) && serial_in_range(down) && !cal.is_business(up) && !cal.is_business(
        down,
    ) && up < MAX_SERIAL && down > MIN_SERIAL {
        lemma_nearest_is_business_day(cal, up + 1, down - 1);
    }
}

/// Every convention but `Unadjusted` rolls a date onto a business day.
pub proof fn lemma_adjust_is_business_day(cal: CalendarModel, s: int, c: BusinessDayConvention)
    requires
        adjust_spec(cal, s, c) is Some,
        !(c is Unadjusted),
    ensures
        cal.is_business(adjust_spec(cal, s, c).unwrap()),
        serial_in_range(adjust_spec(cal, s, c).unwrap()),
{
    if following_spec(cal, s) is Some {
        lemma_following_is_first_business_day(cal, s);
    }
    if preceding_spec(cal, s) is Some {
        lemma_preceding_is_last_business_day(cal, s);
    }
    if c is Nearest {
        lemma_nearest_is_business_day(cal, s, s);
    }
}

/// A business day is left where it is by every convention.
pub proof fn lemma_business_day_is_fixed(cal: CalendarModel, s: int, c: BusinessDayConvention)
    requires
        serial_in_range(s),
        cal.is_business(s),
    ensures
        adjust_spec(cal, s, c) == Some(s),
{
}

/// Adjusting twice under a convention is adjusting once.
pub proof fn lemma_adjust_idempotent(cal: CalendarModel, s: int, c: BusinessDayConvention)
    requires
        adjust_spec(cal, s, c) is Some,
    ensures
        adjust_spec(cal, adjust_spec(cal, s, c).unwrap(), c) == adjust_spec(cal, s, c),
{
    if !(c is Unadjusted) {
        lemma_adjust_is_business_day(cal, s, c);
        lemma_business_day_is_fixed(cal, adjust_spec(cal, s, c).unwrap(), c);
    }
}


/// The number of business days of `cal` after serial `a`, up to and
/// including serial `b`: none when `b` is not after `a`.
pub open spec fn business_days_after(cal: CalendarModel, a: int, b: int) -> nat
    decreases b - a,
{
    if b <= a {
        0
    } else {
        business_days_after(cal, a, b - 1) + if cal.is_business(b) {
            1nat
        } else {
            0nat
        }
    }
}

/// Counting business days after `a` up to `b` through `m` in between adds
/// the two counts.
pub proof fn lemma_business_days_split(cal: CalendarModel, a: int, m: int, b: int)
    requires
        a <= m <= b,
    ensures
        business_days_after(cal, a, b) == business_days_after(cal, a, m) + business_days_after(cal, m, b),
    decreases b - m,
{
    if b > m {
        lemma_business_days_split(cal, a, m, b - 1);
    }
}

/// Where no day after `a` up to `b` is a business day, none is counted.
proof fn lemma_no_business_days(cal: CalendarModel, a: int, b: int)
    requires
        forall|t: int| a < t <= b ==> !cal.is_business(t),
    ensures
        business_days_after(cal, a, b) == 0,
    decreases b - a,
{
    if b > a {
        lemma_no_business_days(cal, a, b - 1);
    }
}

/// Moving `n` business days forward from a date lands on a business day
/// after it, with exactly `n` business days after the date up to and
/// including the one landed on.
pub proof fn lemma_forward_counts_business_days(cal: CalendarModel, s: int, n: nat)
    requires
        n > 0,
        forward_spec(cal, s, n) is Some,
    ensures
        s < forward_spec(cal, s, n).unwrap(),
        cal.is_business(forward_spec(cal, s, n).unwrap()),
        serial_in_range(forward_spec(cal, s, n).unwrap()),
        business_days_after(cal, s, forward_spec(cal, s, n).unwrap()) == n,
    decreases n,
{
    let f = following_spec(cal, s + 1).unwrap();
    lemma_following_is_first_business_day(cal, s + 1);
    lemma_no_business_days(cal, s, f - 1);
    assert(business_days_after(cal, s, f) == 1);
    if n > 1 {
        lemma_forward_counts_business_days(cal, f, (n - 1) as nat);
        let t = forward_spec(cal, f, (n - 1) as nat).unwrap();
        lemma_business_days_split(cal, s, f, t);
    }
}

} // verus!
