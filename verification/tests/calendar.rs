use chrono::Datelike;
use chrono::NaiveDate;
use matchday::calendar::Date;
use matchday::calendar::Window;
use matchday::calendar::WindowMode;
use matchday::calendar::FIRST_DAY;
use matchday::calendar::LAST_DAY;

fn day(number: i32) -> Date {
    Date::from_day_number(number).expect("a day of the calendar")
}

#[test]
fn day_numbers_are_bounded_by_the_calendar() {
    assert!(Date::from_day_number(0).is_none());
    assert!(Date::from_day_number(-1).is_none());
    assert!(Date::from_day_number(i32::MIN).is_none());
    assert!(Date::from_day_number(FIRST_DAY).is_some());
    assert!(Date::from_day_number(LAST_DAY).is_some());
    assert!(Date::from_day_number(LAST_DAY + 1).is_none());
    assert!(Date::from_day_number(i32::MAX).is_none());
    assert_eq!(day(738_888).day_number(), 738_888);
}

#[test]
fn calendar_bounds_are_the_years_1_to_9999() {
    let first = NaiveDate::from_ymd_opt(1, 1, 1).unwrap();
    let last = NaiveDate::from_ymd_opt(9999, 12, 31).unwrap();
    assert_eq!(first.num_days_from_ce(), FIRST_DAY);
    assert_eq!(last.num_days_from_ce(), LAST_DAY);
}

#[test]
fn weekday_counts_from_monday() {
    // 1970-01-01 was a Thursday, 2024-01-03 a Wednesday.
    assert_eq!(day(719_163).weekday(), 3);
    assert_eq!(day(738_888).weekday(), 2);
    // 2024-01-01 was a Monday, 2024-01-07 a Sunday.
    assert_eq!(day(738_886).weekday(), 0);
    assert_eq!(day(738_892).weekday(), 6);
    assert_eq!(day(FIRST_DAY).weekday(), 0);
    assert_eq!(day(LAST_DAY).weekday(), 4);
}

#[test]
fn iso_text_is_year_month_day() {
    assert_eq!(day(719_163).iso(), "1970-01-01");
    assert_eq!(day(738_888).iso(), "2024-01-03");
    assert_eq!(day(FIRST_DAY).iso(), "0001-01-01");
    assert_eq!(day(LAST_DAY).iso(), "9999-12-31");
}

#[test]
fn day_numbers_agree_with_chrono() {
    let date = NaiveDate::from_ymd_opt(2024, 2, 29).unwrap();
    let ours = day(date.num_days_from_ce());
    assert_eq!(ours.iso(), "2024-02-29");
    assert_eq!(ours.weekday(), date.weekday().num_days_from_monday());
}

#[test]
fn extended_window_runs_from_monday_to_the_second_thursday() {
    let today = day(738_888);
    let window = Window::containing(today, WindowMode::Extended).unwrap();
    assert_eq!(window.reference(), today);
    assert_eq!(window.from().day_number(), 738_886);
    assert_eq!(window.to().day_number(), 738_896);
    assert_eq!(window.from().iso(), "2024-01-01");
    assert_eq!(window.to().iso(), "2024-01-11");
    assert_eq!(window.from().weekday(), 0);
    assert_eq!(window.to().weekday(), 3);
    assert_eq!(window.mode(), WindowMode::Extended);
}

#[test]
fn week_window_runs_from_monday_to_sunday() {
    let today = day(738_888);
    let window = Window::containing(today, WindowMode::Week).unwrap();
    assert_eq!(window.from().iso(), "2024-01-01");
    assert_eq!(window.to().iso(), "2024-01-07");
    assert_eq!(window.from().weekday(), 0);
    assert_eq!(window.to().weekday(), 6);
    assert_eq!(window.reference(), today);
}

#[test]
fn day_window_is_the_reference_day() {
    let today = day(738_888);
    let window = Window::containing(today, WindowMode::Day).unwrap();
    assert_eq!(window.from(), today);
    assert_eq!(window.to(), today);
    assert_eq!(window.reference(), today);
    assert_eq!(window.mode(), WindowMode::Day);
}

#[test]
fn window_on_a_monday_starts_that_day() {
    let monday = day(738_886);
    let window = Window::containing(monday, WindowMode::Week).unwrap();
    assert_eq!(window.from(), monday);
    assert_eq!(window.to().day_number(), 738_892);
}

#[test]
fn window_on_a_sunday_ends_that_day() {
    let sunday = day(738_892);
    let window = Window::containing(sunday, WindowMode::Week).unwrap();
    assert_eq!(window.from().day_number(), 738_886);
    assert_eq!(window.to(), sunday);
}

#[test]
fn window_contains_its_reference_day() {
    let mut number = 738_880;
    while number < 738_900 {
        let today = day(number);
        for mode in [WindowMode::Day, WindowMode::Week, WindowMode::Extended] {
            let window = Window::containing(today, mode).unwrap();
            assert!(window.from().day_number() <= number);
            assert!(number <= window.to().day_number());
        }
        number += 1;
    }
}

#[test]
fn around_takes_the_weekday_as_given() {
    let today = day(738_888);
    let window = Window::around(today, 5, WindowMode::Week).unwrap();
    assert_eq!(window.from().day_number(), 738_883);
    assert_eq!(window.to().day_number(), 738_889);
    let window = Window::around(today, 5, WindowMode::Day).unwrap();
    assert_eq!(window.from(), today);
    assert_eq!(window.to(), today);
}

#[test]
fn around_refuses_what_is_no_weekday() {
    let today = day(738_888);
    assert!(Window::around(today, 7, WindowMode::Week).is_none());
    assert!(Window::around(today, 7, WindowMode::Day).is_none());
    assert!(Window::around(today, u32::MAX, WindowMode::Extended).is_none());
    assert!(Window::around(today, 6, WindowMode::Extended).is_some());
}

#[test]
fn window_that_leaves_the_calendar_is_refused() {
    // The last day is a Friday: its week ends after the calendar does.
    let last = day(LAST_DAY);
    assert!(Window::containing(last, WindowMode::Week).is_none());
    assert!(Window::containing(last, WindowMode::Extended).is_none());
    assert!(Window::containing(last, WindowMode::Day).is_some());
    // The first day is a Monday: its week starts with it.
    let first = day(FIRST_DAY);
    assert!(Window::containing(first, WindowMode::Week).is_some());
    assert!(Window::around(first, 1, WindowMode::Week).is_none());
    // The last Sunday of the calendar still has its week.
    let sunday = day(LAST_DAY - 5);
    assert_eq!(sunday.weekday(), 6);
    let week = Window::containing(sunday, WindowMode::Week).unwrap();
    assert_eq!(week.to(), sunday);
    let extended = Window::containing(sunday, WindowMode::Extended).unwrap();
    assert_eq!(extended.to().day_number(), LAST_DAY - 1);
    assert!(Window::containing(day(LAST_DAY - 4), WindowMode::Extended).is_none());
    assert!(Window::containing(day(LAST_DAY - 4), WindowMode::Week).is_none());
}
