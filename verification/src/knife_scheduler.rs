//! When the statistics are reset: every day at midnight, and the monthly
//! scope on the last day of the month as well.

use chrono::Datelike;
use chrono::NaiveDate;
use vstd::prelude::*;
use crate::knife_score::{reset_daily_scores, reset_monthly_scores, PlayerView, ScoreLedger};

verus! {

/// The first year that a date of `chrono`, a `NaiveDate`, can lie in.
pub const MIN_YEAR: i32 = -262143;

/// The last year that a date of `chrono`, a `NaiveDate`, can lie in.
pub const MAX_YEAR: i32 = 262142;

/// Seconds between two looks at the clock.
pub const POLL_SECONDS: u64 = 30;

/// Seconds of rest after a reset, so that the minute of midnight has
/// passed before the clock is read again.
pub const DEBOUNCE_SECONDS: u64 = 61;

/// A day of the proleptic Gregorian calendar.
#[derive(Clone, Copy, Debug, PartialEq, Eq)]
pub struct CalendarDate {
    pub year: i32,
    pub month: u32,
    pub day: u32,
}

/// Whether `year` has a 29th of February.
pub open spec fn is_leap_year(year: int) -> bool {
    year % 4 == 0 && (year % 100 != 0 || year % 400 == 0)
}

/// The number of days of `month` in `year`, for a month from 1 to 12.
pub open spec fn days_in_month(year: int, month: int) -> int {
    if month == 2 {
        if is_leap_year(year) {
            29
        } else {
            28
        }
    } else if month == 4 || month == 6 || month == 9 || month == 11 {
        30
    } else {
        31
    }
}

/// Whether year, month and day name a day that exists and that a
/// [`CalendarDate`] can hold.
pub open spec fn is_date(year: int, month: int, day: int) -> bool {
    MIN_YEAR <= year <= MAX_YEAR && 1 <= month <= 12 && 1 <= day <= days_in_month(year, month)
}

impl CalendarDate {
    /// Whether the date exists.
    pub open spec fn valid(self) -> bool {
        is_date(self.year as int, self.month as int, self.day as int)
    }
}

/// The day before `date`, where there is one.
pub open spec fn day_before(date: CalendarDate) -> Option<CalendarDate> {
    if date.day > 1 {
        Some(CalendarDate { year: date.year, month: date.month, day: (date.day - 1) as u32 })
    } else if date.month > 1 {
        Some(
            CalendarDate {
                year: date.year,
                month: (date.month - 1) as u32,
                day: days_in_month(date.year as int, date.month - 1) as u32,
            },
        )
    } else if date.year > MIN_YEAR {
        Some(CalendarDate { year: (date.year - 1) as i32, month: 12, day: 31 })
    } else {
        None
    }
}

/// `date` moved to `month` of the same year, where that day exists.
pub open spec fn in_month(date: CalendarDate, month: u32) -> Option<CalendarDate> {
    if is_date(date.year as int, month as int, date.day as int) {
        Some(CalendarDate { year: date.year, month, day: date.day })
    } else {
        None
    }
}

/// `NaiveDate::from_ymd_opt`: the date of that year, month and day, or
/// nothing where no such day exists or the year is out of range.
#[verifier::external_body]
fn date_from_ymd(year: i32, month: u32, day: u32) -> (r: Option<CalendarDate>)
    ensures
        r == if is_date(year as int, month as int, day as int) {
            Some(CalendarDate { year, month, day })
        } else {
            None
        },
{
    match NaiveDate::from_ymd_opt(year, month, day) {
        Some(d) => Some(CalendarDate { year: d.year(), month: d.month(), day: d.day() }),
        None => None,
    }
}

/// `NaiveDate::with_month`: the same day of the given month in the same
/// year, or nothing where the month is not one of 1 to 12 or has no such
/// day.
#[verifier::external_body]
fn date_with_month(date: CalendarDate, month: u32) -> (r: Option<CalendarDate>)
    requires
        date.valid(),
    ensures
        r == in_month(date, month),
{
    match NaiveDate::from_ymd_opt(date.year, date.month, date.day) {
        Some(d) => match d.with_month(month) {
            Some(m) => Some(CalendarDate { year: m.year(), month: m.month(), day: m.day() }),
            None => None,
        },
        None => None,
    }
}

/// `NaiveDate::pred_opt`: the previous day, or nothing where the date is
/// the first that can be held.
#[verifier::external_body]
fn date_pred(date: CalendarDate) -> (r: Option<CalendarDate>)
    requires
        date.valid(),
    ensures
        r == day_before(date),
{
    match NaiveDate::from_ymd_opt(date.year, date.month, date.day) {
        Some(d) => match d.pred_opt() {
            Some(p) => Some(CalendarDate { year: p.year(), month: p.month(), day: p.day() }),
            None => None,
        },
        None => None,
    }
}

/// Whether the last day of `month` in `year` can be worked out: the month
/// exists, the year is in range, and the day before the first of January
/// of that year, which December is worked out from, is in range too.
pub open spec fn has_last_day(year: int, month: int) -> bool {
    MIN_YEAR <= year <= MAX_YEAR && 1 <= month <= 12 && !(month == 12 && year == MIN_YEAR)
}

/// The last day of `month` in `year`: the day before the first of the
/// month that follows, taken in the same year.
pub fn last_day_of_month(year: i32, month: u32) -> (r: Option<u32>)
    ensures
        r == if has_last_day(year as int, month as int) {
            Some(days_in_month(year as int, month as int) as u32)
        } else {
            None
        },
{
    let first = match date_from_ymd(year, month, 1) {
        Some(d) => d,
        None => {
            return None;
        },
    };
    let following = match date_with_month(first, month % 12 + 1) {
        Some(d) => d,
        None => {
            return None;
        },
    };
    match date_pred(following) {
        Some(last) => Some(last.day),
        None => None,
    }
}

/// What the clock shows: the local date, the hour and the minute.
#[derive(Clone, Copy, Debug, PartialEq, Eq)]
pub struct ClockReading {
    pub year: i32,
    pub month: u32,
    pub day: u32,
    pub hour: u32,
    pub minute: u32,
}

impl ClockReading {
    /// Whether the clock shows the first minute of a day.
    pub open spec fn is_midnight(self) -> bool {
        self.hour == 0 && self.minute == 0
    }

    /// Whether the clock shows the last day of a month.
    pub open spec fn is_month_end(self) -> bool {
        has_last_day(self.year as int, self.month as int) && self.day == days_in_month(
            self.year as int,
            self.month as int,
        )
    }
}

/// What one look at the clock calls for.
#[derive(Clone, Copy, Debug, PartialEq, Eq)]
pub struct TickPlan {
    /// Empty the scope of the day.
    pub reset_daily: bool,
    /// Empty the scope of the month, after that of the day.
    pub reset_monthly: bool,
    /// Seconds to rest before the clock is read again.
    pub pause_seconds: u64,
}

/// The plan that `now` calls for.
pub open spec fn plan_spec(now: ClockReading) -> TickPlan {
    if now.is_midnight() {
        TickPlan {
            reset_daily: true,
            reset_monthly: now.is_month_end(),
            pause_seconds: (DEBOUNCE_SECONDS + POLL_SECONDS) as u64,
        }
    } else {
        TickPlan { reset_daily: false, reset_monthly: false, pause_seconds: POLL_SECONDS }
    }
}

/// Decides what one look at the clock calls for. In the first minute of a
/// day the daily scope is reset, and the monthly scope too if the day is
/// the last of its month; the rest is then longer, so that the same minute
/// is not seen twice.
pub fn plan_tick(now: &ClockReading) -> (plan: TickPlan)
    ensures
        plan == plan_spec(*now),
{
    if now.hour == 0 && now.minute == 0 {
        let month_end = match last_day_of_month(now.year, now.month) {
            Some(last) => now.day == last,
            None => false,
        };
        TickPlan {
            reset_daily: true,
            reset_monthly: month_end,
            pause_seconds: DEBOUNCE_SECONDS + POLL_SECONDS,
        }
    } else {
        TickPlan { reset_daily: false, reset_monthly: false, pause_seconds: POLL_SECONDS }
    }
}

/// Looks at the clock once and resets in `ledger` what the plan calls
/// for. A scope that is not reset is left as it is.
pub fn scheduler_tick(ledger: &mut ScoreLedger, now: &ClockReading) -> (plan: TickPlan)
    ensures
        plan == plan_spec(*now),
        plan.reset_daily ==> final(ledger).daily_view() == Map::<Seq<char>, PlayerView>::empty(),
        !plan.reset_daily ==> final(ledger).daily == old(ledger).daily,
        plan.reset_monthly ==> final(ledger).monthly_view() == Map::<
            Seq<char>,
            PlayerView,
        >::empty(),
        !plan.reset_monthly ==> final(ledger).monthly == old(ledger).monthly,
{
    let plan = plan_tick(now);
    if plan.reset_daily {
        reset_daily_scores(ledger);
    }
    if plan.reset_monthly {
        reset_monthly_scores(ledger);
    }
    plan
}

} // verus!
