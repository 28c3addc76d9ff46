use libitofin::time::calendar::{BusinessDayConvention, Calendar};
use libitofin::time::date::{Date, Month, Weekday};
use libitofin::time::period::{Period, TimeUnit};

const CONVENTIONS: [BusinessDayConvention; 5] = [
    BusinessDayConvention::Following,
    BusinessDayConvention::ModifiedFollowing,
    BusinessDayConvention::Preceding,
    BusinessDayConvention::ModifiedPreceding,
    BusinessDayConvention::Unadjusted,
];

/// A weekends-only calendar with Friday 1 May 2026 as a holiday.
fn may_day_calendar() -> Calendar {
    let mut calendar = Calendar::bespoke("may day");
    calendar.add_weekend(Weekday::Saturday);
    calendar.add_weekend(Weekday::Sunday);
    calendar.add_holiday(Date::new(1, Month::May, 2026));
    calendar
}

#[test]
fn adjusting_lands_on_a_business_day_and_adjusting_again_changes_nothing() {
    let calendar = may_day_calendar();
    let mut date = Date::new(25, Month::April, 2026);
    for _ in 0..14 {
        for convention in CONVENTIONS {
            let adjusted = calendar.adjust(date, convention);
            if convention != BusinessDayConvention::Unadjusted {
                assert!(calendar.is_business_day(adjusted));
            }
            assert_eq!(calendar.adjust(adjusted, convention), adjusted);
        }
        date = date.add_days(1);
    }
}

#[test]
fn a_business_day_is_left_where_it_is() {
    let calendar = may_day_calendar();
    let thursday = Date::new(30, Month::April, 2026);
    assert!(calendar.is_business_day(thursday));
    for convention in CONVENTIONS {
        assert_eq!(calendar.adjust(thursday, convention), thursday);
    }
}

#[test]
fn the_conventions_roll_around_a_holiday_weekend() {
    let calendar = may_day_calendar();
    let holiday = Date::new(1, Month::May, 2026);
    assert!(!calendar.is_business_day(holiday));
    assert_eq!(calendar.adjust(holiday, BusinessDayConvention::Following), Date::new(4, Month::May, 2026));
    assert_eq!(calendar.adjust(holiday, BusinessDayConvention::Preceding), Date::new(30, Month::April, 2026));
    assert_eq!(
        calendar.adjust(holiday, BusinessDayConvention::ModifiedPreceding),
        Date::new(4, Month::May, 2026)
    );
    assert_eq!(
        calendar.adjust(Date::new(31, Month::May, 2026), BusinessDayConvention::ModifiedFollowing),
        Date::new(29, Month::May, 2026)
    );
}

#[test]
fn periods_are_equal_exactly_when_length_and_unit_agree() {
    assert_eq!(Period::new(3, TimeUnit::Months), Period::new(3, TimeUnit::Months));
    assert_ne!(Period::new(12, TimeUnit::Months), Period::new(1, TimeUnit::Years));
    assert_ne!(Period::new(3, TimeUnit::Months), Period::new(3, TimeUnit::Weeks));
}

#[test]
fn serial_numbers_order_dates() {
    let a = Date::new(28, Month::February, 2024);
    let b = Date::new(29, Month::February, 2024);
    let c = Date::new(1, Month::March, 2024);
    assert!(a.is_before(&b) && b.is_before(&c));
    assert_eq!(b.serial_number() - a.serial_number(), 1);
    assert_eq!(c.days_since(&a), 2);
}
