//! Calendar values as the driver exchanges them with its caller: a date of
//! the proleptic Gregorian calendar with its day of the week, and a time of
//! day. Dates are validated, and their weekday is found, by `chrono`.

use crate::weekday::Weekday;
use chrono::{Datelike, NaiveDate, NaiveTime};
use vstd::prelude::*;

verus! {

/// The first year for which `chrono` has dates.
pub const MIN_YEAR: i32 = -262143;

/// The last year for which `chrono` has dates.
pub const MAX_YEAR: i32 = 262142;

/// Whether a year has a 29th of February.
pub open spec fn is_leap_year(year: int) -> bool {
    year % 4 == 0 && (year % 100 != 0 || year % 400 == 0)
}

/// The number of days of a month, for months 1 to 12.
pub open spec fn days_in_month(year: int, month: int) -> int {
    if month == 2 {
        if is_leap_year(year) {
            29
        } else {
            28
        }
    } else if month == 4 || month == 6 || month == 9 || month == 11 {
        30
    } else {
        31
    }
}

/// Whether year, month and day name a day that exists.
pub open spec fn is_calendar_date(year: int, month: int, day: int) -> bool {
    &&& MIN_YEAR <= year <= MAX_YEAR
    &&& 1 <= month <= 12
    &&& 1 <= day <= days_in_month(year, month)
}

/// Whether hour, minute and second name a time of day.
pub open spec fn is_time_of_day(hour: int, minute: int, second: int) -> bool {
    0 <= hour < 24 && 0 <= minute < 60 && 0 <= second < 60
}

/// The day of the week on which a calendar date falls, as `chrono` finds it.
pub uninterp spec fn weekday_of_date(year: int, month: int, day: int) -> Weekday;

/// `chrono::NaiveDate::from_ymd_opt` followed by `chrono::Datelike::weekday`:
/// a date is made exactly of the year, month and day that name an existing
/// day within the years `chrono` covers, and its day of the week is a
/// function of the date alone.
#[verifier::external_body]
fn weekday_of(year: i32, month: u8, day: u8) -> (weekday: Option<Weekday>)
    ensures
        weekday == if is_calendar_date(year as int, month as int, day as int) {
            Some(weekday_of_date(year as int, month as int, day as int))
        } else {
            None
        },
{
    match NaiveDate::from_ymd_opt(year, month as u32, day as u32) {
        Some(date) => Some(
            match date.weekday() {
                chrono::Weekday::Mon => Weekday::Mon,
                chrono::Weekday::Tue => Weekday::Tue,
                chrono::Weekday::Wed => Weekday::Wed,
                chrono::Weekday::Thu => Weekday::Thu,
                chrono::Weekday::Fri => Weekday::Fri,
                chrono::Weekday::Sat => Weekday::Sat,
                chrono::Weekday::Sun => Weekday::Sun,
            },
        ),
        None => None,
    }
}

/// `chrono::NaiveTime::from_hms_opt`: a time is made exactly of an hour
/// below 24, a minute below 60 and a second below 60.
#[verifier::external_body]
fn time_exists(hour: u8, minute: u8, second: u8) -> (made: bool)
    ensures
        made == is_time_of_day(hour as int, minute as int, second as int),
{
    match NaiveTime::from_hms_opt(hour as u32, minute as u32, second as u32) {
        Some(_) => true,
        None => false,
    }
}

/// What a `DateTime` holds.
pub struct DateTimeView {
    pub year: int,
    pub month: int,
    pub day: int,
    pub weekday: Weekday,
    pub hour: int,
    pub minute: int,
    pub second: int,
}

impl DateTimeView {
    /// The date exists, the weekday is the date's own, and the time is a
    /// time of day.
    pub open spec fn is_valid(self) -> bool {
        &&& is_calendar_date(self.year, self.month, self.day)
        &&& self.weekday == weekday_of_date(self.year, self.month, self.day)
        &&& is_time_of_day(self.hour, self.minute, self.second)
    }
}

/// A date with its day of the week and a time of day, to the second.
#[derive(Clone, Copy, Debug, PartialEq, Eq, Structural)]
pub struct DateTime {
    year: i32,
    month: u8,
    day: u8,
    weekday: Weekday,
    hour: u8,
    minute: u8,
    second: u8,
}

impl View for DateTime {
    type V = DateTimeView;

    closed spec fn view(&self) -> DateTimeView {
        DateTimeView {
            year: self.year as int,
            month: self.month as int,
            day: self.day as int,
            weekday: self.weekday,
            hour: self.hour as int,
            minute: self.minute as int,
            second: self.second as int,
        }
    }
}

/// The calendar value that six decoded clock registers stand for. The year
/// register counts from 2000. A date that does not exist gives no value; a
/// time that does not exist is replaced by midnight.
pub open spec fn composed(year: u8, month: u8, day: u8, hour: u8, minute: u8, second: u8) -> Option<
    DateTimeView,
> {
    if is_calendar_date(2000 + year, month as int, day as int) {
        let timed = is_time_of_day(hour as int, minute as int, second as int);
        Some(
            DateTimeView {
                year: 2000 + year,
                month: month as int,
                day: day as int,
                weekday: weekday_of_date(2000 + year, month as int, day as int),
                hour: if timed {
                    hour as int
                } else {
                    0
                },
                minute: if timed {
                    minute as int
                } else {
                    0
                },
                second: if timed {
                    second as int
                } else {
                    0
                },
            },
        )
    } else {
        None
    }
}

/// Registers whose time does not exist are read as midnight of the date
/// that they hold; the date is read as it stands.
pub proof fn lemma_missing_time_is_midnight(
    year: u8,
    month: u8,
    day: u8,
    hour: u8,
    minute: u8,
    second: u8,
)
    requires
        is_calendar_date(2000 + year, month as int, day as int),
        !is_time_of_day(hour as int, minute as int, second as int),
    ensures
        composed(year, month, day, hour, minute, second) == Some(
            DateTimeView {
                year: 2000 + year,
                month: month as int,
                day: day as int,
                weekday: weekday_of_date(2000 + year, month as int, day as int),
                hour: 0,
                minute: 0,
                second: 0,
            },
        ),
{
}

/// The fields of a date and time of the years 2000 to 2099, the year
/// counted from 2000, stand for that date and time.
pub proof fn lemma_composed_of_fields(data: DateTimeView)
    requires
        data.is_valid(),
        2000 <= data.year <= 2099,
    ensures
        composed(
            (data.year % 100) as u8,
            data.month as u8,
            data.day as u8,
            data.hour as u8,
            data.minute as u8,
            data.second as u8,
        ) == Some(data),
{
}

/// The view of a calendar value that may be missing.
pub open spec fn view_of(value: Option<DateTime>) -> Option<DateTimeView> {
    match value {
        Some(datetime) => Some(datetime@),
        None => None,
    }
}

impl DateTime {
    #[verifier::type_invariant]
    spec fn well_formed(self) -> bool {
        self@.is_valid()
    }

    /// Makes a calendar value, if the date and the time both exist.
    pub fn new(year: i32, month: u8, day: u8, hour: u8, minute: u8, second: u8) -> (made: Option<
        DateTime,
    >)
        ensures
            made.is_some() == (is_calendar_date(year as int, month as int, day as int)
                && is_time_of_day(hour as int, minute as int, second as int)),
            made matches Some(datetime) ==> datetime@ == (DateTimeView {
                year: year as int,
                month: month as int,
                day: day as int,
                weekday: weekday_of_date(year as int, month as int, day as int),
                hour: hour as int,
                minute: minute as int,
                second: second as int,
            }),
    {
        if !time_exists(hour, minute, second) {
            return None;
        }
        match weekday_of(year, month, day) {
            Some(weekday) => Some(DateTime { year, month, day, weekday, hour, minute, second }),
            None => None,
        }
    }

    /// Makes the calendar value that six decoded clock registers stand for.
    pub fn compose(year: u8, month: u8, day: u8, hour: u8, minute: u8, second: u8) -> (made: Option<
        DateTime,
    >)
        ensures
            view_of(made) == composed(year, month, day, hour, minute, second),
    {
        let full_year: i32 = 2000 + year as i32;
        match weekday_of(full_year, month, day) {
            Some(weekday) => {
                if time_exists(hour, minute, second) {
                    Some(DateTime { year: full_year, month, day, weekday, hour, minute, second })
                } else {
                    Some(
                        DateTime {
                            year: full_year,
                            month,
                            day,
                            weekday,
                            hour: 0,
                            minute: 0,
                            second: 0,
                        },
                    )
                }
            },
            None => None,
        }
    }

    /// The year.
    pub fn year(&self) -> (year: i32)
        ensures
            year == self@.year,
            self@.is_valid(),
    {
        proof {
            use_type_invariant(self);
        }
        self.year
    }

    /// The month, 1 to 12.
    pub fn month(&self) -> (month: u8)
        ensures
            month == self@.month,
            self@.is_valid(),
    {
        proof {
            use_type_invariant(self);
        }
        self.month
    }

    /// The day of the month, 1 to 31.
    pub fn day(&self) -> (day: u8)
        ensures
            day == self@.day,
            self@.is_valid(),
    {
        proof {
            use_type_invariant(self);
        }
        self.day
    }

    /// The day of the week on which the date falls.
    pub fn weekday(&self) -> (weekday: Weekday)
        ensures
            weekday == self@.weekday,
            self@.is_valid(),
    {
        proof {
            use_type_invariant(self);
        }
        self.weekday
    }

    /// The hour, 0 to 23.
    pub fn hour(&self) -> (hour: u8)
        ensures
            hour == self@.hour,
            self@.is_valid(),
    {
        proof {
            use_type_invariant(self);
        }
        self.hour
    }

    /// The minute, 0 to 59.
    pub fn minute(&self) -> (minute: u8)
        ensures
            minute == self@.minute,
            self@.is_valid(),
    {
        proof {
            use_type_invariant(self);
        }
        self.minute
    }

    /// The second, 0 to 59.
    pub fn second(&self) -> (second: u8)
        ensures
            second == self@.second,
            self@.is_valid(),
    {
        proof {
            use_type_invariant(self);
        }
        self.second
    }

    /// The year within its century, 0 to 99.
    pub fn year_in_century(&self) -> (year: u8)
        ensures
            year == self@.year % 100,
    {
        proof {
            use_type_invariant(self);
        }
        let rest: i32 = self.year % 100;
        if rest < 0 {
            (rest + 100) as u8
        } else {
            rest as u8
        }
    }
}

} // verus!
