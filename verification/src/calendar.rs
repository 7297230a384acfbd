//! Calendar days and the date window that a refresh asks for.
//!
//! A day is held as its number in the proleptic Gregorian calendar, with
//! January 1 of year 1 as day 1. Moving by days is then integer arithmetic;
//! the weekday of a day and its ISO text come from `chrono`.

use chrono::Datelike;
use chrono::NaiveDate;
use vstd::prelude::*;

verus! {

/// The number of January 1, year 1.
pub const FIRST_DAY: i32 = 1;

/// The number of December 31, year 9999.
pub const LAST_DAY: i32 = 3_652_059;

/// The weekday of day number `day`, counted from Monday = 0, as `chrono`
/// computes it.
pub uninterp spec fn weekday_index(day: int) -> int;

/// The text that `chrono` prints for day number `day`.
pub uninterp spec fn iso_date_text(day: int) -> Seq<char>;

/// A calendar day between January 1, year 1 and December 31, year 9999.
#[derive(Clone, Copy, Debug, PartialEq, Eq, Structural)]
pub struct Date {
    day: i32,
}

impl View for Date {
    type V = int;

    closed spec fn view(&self) -> int {
        self.day as int
    }
}

impl Date {
    #[verifier::type_invariant]
    pub closed spec fn in_calendar(self) -> bool {
        FIRST_DAY <= self.day <= LAST_DAY
    }

    /// The day with the given number, if the calendar holds it.
    pub fn from_day_number(day: i32) -> (r: Option<Date>)
        ensures
            r is Some <==> FIRST_DAY <= day <= LAST_DAY,
            r matches Some(d) ==> d@ == day,
    {
        if FIRST_DAY <= day && day <= LAST_DAY {
            Some(Date { day })
        } else {
            None
        }
    }

    /// The day's number.
    pub fn day_number(&self) -> (day: i32)
        ensures
            day == self@,
            FIRST_DAY <= day <= LAST_DAY,
    {
        proof {
            use_type_invariant(self);
        }
        self.day
    }

    /// The weekday, counted from Monday = 0 to Sunday = 6.
    pub fn weekday(&self) -> (w: u32)
        ensures
            w == weekday_index(self@),
            w < 7,
    {
        weekday_from_monday(self.day_number())
    }

    /// The day as ISO 8601 text, year, month and day.
    pub fn iso(&self) -> (text: String)
        ensures
            text@ == iso_date_text(self@),
    {
        iso_date(self.day_number())
    }
}

/// Calls `NaiveDate::from_num_days_from_ce_opt`, then `Datelike::weekday` and
/// `Weekday::num_days_from_monday`. Trusted: every day number of years 1 to
/// 9999 is a date to `chrono`; the weekday depends on the day alone and is
/// named [`weekday_index`]; Monday is 0 and Sunday is 6.
#[verifier::external_body]
fn weekday_from_monday(day: i32) -> (w: u32)
    requires
        FIRST_DAY <= day <= LAST_DAY,
    ensures
        w == weekday_index(day as int),
        w < 7,
{
    NaiveDate::from_num_days_from_ce_opt(day).unwrap().weekday().num_days_from_monday()
}

/// Calls `NaiveDate::from_num_days_from_ce_opt`, then `to_string` on the
/// date. Trusted: every day number of years 1 to 9999 is a date to `chrono`,
/// and the text depends on the day alone; it is named [`iso_date_text`].
#[verifier::external_body]
fn iso_date(day: i32) -> (text: String)
    requires
        FIRST_DAY <= day <= LAST_DAY,
    ensures
        text@ == iso_date_text(day as int),
{
    NaiveDate::from_num_days_from_ce_opt(day).unwrap().to_string()
}

/// How far around the reference day a window reaches.
#[derive(Clone, Copy, Debug, PartialEq, Eq, Structural)]
pub enum WindowMode {
    /// The reference day alone.
    Day,
    /// Monday to Sunday of the reference day's week.
    Week,
    /// Monday of the reference day's week to Thursday of the next.
    Extended,
}

/// The days from the first day of a window to its last.
pub open spec fn span_of(mode: WindowMode) -> int {
    match mode {
        WindowMode::Day => 0,
        WindowMode::Week => 6,
        WindowMode::Extended => 10,
    }
}

/// The days from the first day of a window to its reference day, which falls
/// on weekday `weekday`.
pub open spec fn lead_of(mode: WindowMode, weekday: int) -> int {
    match mode {
        WindowMode::Day => 0,
        WindowMode::Week => weekday,
        WindowMode::Extended => weekday,
    }
}

/// A window as day numbers.
pub struct WindowView {
    pub reference: int,
    pub from: int,
    pub to: int,
    pub mode: WindowMode,
}

/// The window around `today`, a day that falls on weekday `weekday`, or
/// `None` where the weekday is no weekday or the window leaves the calendar.
pub open spec fn window_around(today: int, weekday: int, mode: WindowMode) -> Option<WindowView> {
    let from = today - lead_of(mode, weekday);
    let to = from + span_of(mode);
    if 0 <= weekday < 7 && FIRST_DAY <= from && to <= LAST_DAY {
        Some(WindowView { reference: today, from, to, mode })
    } else {
        None
    }
}

/// A window is made for the day it is asked for, and holds that day: its
/// first day is not after it and its last day is not before it.
pub proof fn lemma_window_holds_its_reference(today: int, weekday: int, mode: WindowMode)
    ensures
        window_around(today, weekday, mode) matches Some(w) ==> w.reference == today && w.from
            <= today <= w.to && w.mode == mode,
{
}

/// A window of the week mode starts on a day that is `weekday` days before
/// the reference day and reaches six days on; the extended mode reaches ten
/// days on; the day mode is the reference day alone.
pub proof fn lemma_window_reaches(today: int, weekday: int, mode: WindowMode)
    ensures
        window_around(today, weekday, mode) matches Some(w) ==> w.to - w.from == span_of(mode) && (
        mode == WindowMode::Day ==> w.from == today) && (mode != WindowMode::Day ==> today - w.from
            == weekday),
{
}

/// The dates that scope one fetch: a reference day and a range around it.
#[derive(Clone, Copy, Debug, PartialEq, Eq, Structural)]
pub struct Window {
    reference: Date,
    from: Date,
    to: Date,
    mode: WindowMode,
}

impl View for Window {
    type V = WindowView;

    closed spec fn view(&self) -> WindowView {
        WindowView {
            reference: self.reference@,
            from: self.from@,
            to: self.to@,
            mode: self.mode,
        }
    }
}

impl Window {
    #[verifier::type_invariant]
    pub closed spec fn ordered(self) -> bool {
        self.from@ <= self.reference@ <= self.to@
    }

    /// The window around `today`, given the weekday that `today` falls on.
    pub fn around(today: Date, weekday: u32, mode: WindowMode) -> (r: Option<Window>)
        ensures
            r is Some <==> window_around(today@, weekday as int, mode) is Some,
            r matches Some(w) ==> Some(w@) == window_around(today@, weekday as int, mode),
    {
        if weekday >= 7 {
            return None;
        }
        let reference: i32 = today.day_number();
        let (lead, span): (i32, i32) = match mode {
            WindowMode::Day => (0, 0),
            WindowMode::Week => (weekday as i32, 6),
            WindowMode::Extended => (weekday as i32, 10),
        };
        let first: i32 = reference - lead;
        let last: i32 = first + span;
        match (Date::from_day_number(first), Date::from_day_number(last)) {
            (Some(from), Some(to)) => Some(Window { reference: today, from, to, mode }),
            _ => None,
        }
    }

    /// The window around `today`.
    pub fn containing(today: Date, mode: WindowMode) -> (r: Option<Window>)
        ensures
            r is Some <==> window_around(today@, weekday_index(today@), mode) is Some,
            r matches Some(w) ==> Some(w@) == window_around(today@, weekday_index(today@), mode),
    {
        Window::around(today, today.weekday(), mode)
    }

    /// The day the window was made for.
    pub fn reference(&self) -> (d: Date)
        ensures
            d@ == self@.reference,
    {
        self.reference
    }

    /// The first day of the window.
    pub fn from(&self) -> (d: Date)
        ensures
            d@ == self@.from,
            d@ <= self@.reference,
    {
        proof {
            use_type_invariant(self);
        }
        self.from
    }

    /// The last day of the window.
    pub fn to(&self) -> (d: Date)
        ensures
            d@ == self@.to,
            self@.reference <= d@,
    {
        proof {
            use_type_invariant(self);
        }
        self.to
    }

    /// How far the window reaches.
    pub fn mode(&self) -> (m: WindowMode)
        ensures
            m == self@.mode,
    {
        self.mode
    }
}

} // verus!
