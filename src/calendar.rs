use vstd::prelude::*;
use chrono::Datelike;
use crate::reminder::{Frequency, Reminder, ReminderView};

verus! {

/// A local wall-clock time, to the minute. No time zone is stored.
#[derive(PartialEq, Eq, Structural, Debug, Clone, Copy)]
pub struct DateTime {
    pub year: u32,
    pub month: u8,
    pub day: u8,
    pub hour: u8,
    pub minute: u8,
}

/// The calendar day `n` days after `year-month-day`, as chrono's `NaiveDate`
/// computes it; `None` where the start is no calendar day or the result
/// leaves chrono's range.
pub uninterp spec fn days_later(year: u32, month: u8, day: u8, n: u32) -> Option<(u32, u8, u8)>;

/// Whether `year-month-day` is a day of the calendar that chrono's
/// `NaiveDate` accepts.
pub uninterp spec fn calendar_day_exists(year: u32, month: u8, day: u8) -> bool;

/// Relies on chrono's `NaiveDate::from_ymd_opt` and `NaiveDate::checked_add_days`:
/// the day `n` days after a calendar day, or `None` (no such start day, or
/// out of range).
#[verifier::external_body]
fn add_days(year: u32, month: u8, day: u8, n: u32) -> (r: Option<(u32, u8, u8)>)
    requires
        year <= i32::MAX,
    ensures
        r == days_later(year, month, day, n),
{
    let start = chrono::NaiveDate::from_ymd_opt(year as i32, month as u32, day as u32)?;
    let end = start.checked_add_days(chrono::Days::new(n as u64))?;
    Some((end.year() as u32, end.month() as u8, end.day() as u8))
}

/// Relies on chrono's `NaiveDate::from_ymd_opt`, which is `None` on an
/// invalid month or day, or on a day that the calendar does not have.
#[verifier::external_body]
fn day_exists(year: u32, month: u8, day: u8) -> (r: bool)
    requires
        year <= i32::MAX,
    ensures
        r == calendar_day_exists(year, month, day),
        !(1 <= month <= 12) ==> !r,
        day == 0 || day > 31 ==> !r,
{
    chrono::NaiveDate::from_ymd_opt(year as i32, month as u32, day as u32).is_some()
}

/// Whether a reminder scheduled at `s` is due at `now`: an earlier day, or
/// the same day and hour with a minute at or before the current one.
/// Detection is minute-precise and, on the current day, only within the
/// current hour.
pub open spec fn overdue(s: DateTime, now: DateTime) -> bool {
    ||| s.year < now.year
    ||| (s.year == now.year && s.month < now.month)
    ||| (s.year == now.year && s.month == now.month && s.day < now.day)
    ||| (s.year == now.year && s.month == now.month && s.day == now.day && s.hour == now.hour
        && s.minute <= now.minute)
}

/// Whether `a` comes strictly after `b` in (year, month, day, hour, minute) order.
pub open spec fn after(a: DateTime, b: DateTime) -> bool {
    ||| a.year > b.year
    ||| (a.year == b.year && a.month > b.month)
    ||| (a.year == b.year && a.month == b.month && a.day > b.day)
    ||| (a.year == b.year && a.month == b.month && a.day == b.day && a.hour > b.hour)
    ||| (a.year == b.year && a.month == b.month && a.day == b.day && a.hour == b.hour && a.minute
        > b.minute)
}

/// The time at which a reminder is scheduled.
pub open spec fn schedule_of(r: ReminderView) -> DateTime {
    DateTime { year: r.year, month: r.month, day: r.day, hour: r.hour, minute: r.minute }
}

/// A reminder moved to another time; everything else is kept.
pub open spec fn with_schedule(r: ReminderView, t: DateTime) -> ReminderView {
    ReminderView { year: t.year, month: t.month, day: t.day, hour: t.hour, minute: t.minute, ..r }
}

/// A reminder is due at the time it is scheduled for, and not before.
pub proof fn lemma_overdue_at_exactly_now(t: DateTime, later: DateTime)
    ensures
        overdue(t, t),
        after(later, t) ==> !overdue(later, t),
{
}

/// Decides whether a reminder scheduled at `s` is due at `now`.
pub fn is_overdue(s: DateTime, now: DateTime) -> (r: bool)
    ensures
        r == overdue(s, now),
{
    if s.year != now.year {
        return s.year < now.year;
    }
    if s.month != now.month {
        return s.month < now.month;
    }
    if s.day != now.day {
        return s.day < now.day;
    }
    s.hour == now.hour && s.minute <= now.minute
}

/// What the scheduler does with a reminder that has fired.
#[derive(PartialEq, Eq, Structural, Debug, Clone, Copy)]
pub enum NextStep {
    /// A one-off reminder is removed.
    Delete,
    /// A recurring reminder moves to this time.
    Reschedule(DateTime),
    /// The next time cannot be computed; the reminder is left as it is.
    Keep,
}

/// The number of days between occurrences; `None` for a one-off reminder
/// and for an interval reminder without its interval.
pub open spec fn interval_days(r: ReminderView) -> Option<u32> {
    match r.frequency {
        Frequency::DAILY => Some(1u32),
        Frequency::WEEKLY => Some(7u32),
        Frequency::NDAYS => r.n,
        Frequency::ONCE => None,
    }
}

/// The recurrence policy: a one-off reminder is deleted; a recurring one
/// moves to the day `interval` days after `now` (not after its previous
/// time, so missed occurrences do not pile up), at its own hour and minute.
pub open spec fn next_step(r: ReminderView, now: DateTime) -> NextStep {
    if r.frequency == Frequency::ONCE {
        NextStep::Delete
    } else {
        match interval_days(r) {
            None => NextStep::Keep,
            Some(k) => if now.year > i32::MAX {
                NextStep::Keep
            } else {
                match days_later(now.year, now.month, now.day, k) {
                    Some(d) => NextStep::Reschedule(
                        DateTime { year: d.0, month: d.1, day: d.2, hour: r.hour, minute: r.minute },
                    ),
                    None => NextStep::Keep,
                }
            },
        }
    }
}

/// The reminder as it stands after the scheduler has handled it at `now`.
pub open spec fn after_firing(r: ReminderView, now: DateTime) -> ReminderView {
    match next_step(r, now) {
        NextStep::Reschedule(t) => with_schedule(r, t),
        _ => r,
    }
}

/// The reminder after it has fired at each of `nows`, in order.
pub open spec fn after_firings(r: ReminderView, nows: Seq<DateTime>) -> ReminderView
    decreases nows.len(),
{
    if nows.len() == 0 {
        r
    } else {
        after_firing(after_firings(r, nows.drop_last()), nows.last())
    }
}

proof fn lemma_daily_stays_daily(r: ReminderView, nows: Seq<DateTime>)
    requires
        r.frequency == Frequency::DAILY,
    ensures
        after_firings(r, nows).frequency == Frequency::DAILY,
        after_firings(r, nows).hour == r.hour,
        after_firings(r, nows).minute == r.minute,
    decreases nows.len(),
{
    if nows.len() > 0 {
        lemma_daily_stays_daily(r, nows.drop_last());
    }
}

/// A daily reminder that fires again and again (for instance with `now`
/// one day later each time) is never deleted, and each time it moves it
/// moves to the day after that firing's `now`, at the hour and minute it
/// had at the start.
pub proof fn lemma_daily_recurrence(r: ReminderView, nows: Seq<DateTime>, k: int)
    requires
        r.frequency == Frequency::DAILY,
        0 <= k < nows.len(),
    ensures
        ({
            let before = after_firings(r, nows.take(k));
            &&& next_step(before, nows[k]) != NextStep::Delete
            &&& next_step(before, nows[k]) matches NextStep::Reschedule(t) ==> {
                &&& t.hour == r.hour
                &&& t.minute == r.minute
                &&& days_later(nows[k].year, nows[k].month, nows[k].day, 1) == Some(
                    (t.year, t.month, t.day),
                )
            }
        }),
{
    lemma_daily_stays_daily(r, nows.take(k));
}

/// A one-off reminder is deleted when it fires, never moved.
pub proof fn lemma_once_is_deleted(r: ReminderView, now: DateTime)
    requires
        r.frequency == Frequency::ONCE,
    ensures
        next_step(r, now) == NextStep::Delete,
        after_firing(r, now) == r,
{
}

impl Reminder {
    /// The time at which the reminder is scheduled.
    pub fn scheduled_at(&self) -> (r: DateTime)
        ensures
            r == schedule_of(self@),
    {
        DateTime {
            year: self.year,
            month: self.month,
            day: self.day,
            hour: self.hour,
            minute: self.minute,
        }
    }

    /// The scheduled time, if it names a real minute of the calendar.
    pub fn to_datetime(&self) -> (r: Option<DateTime>)
        ensures
            r is Some <==> (self.year <= i32::MAX && calendar_day_exists(
                self.year,
                self.month,
                self.day,
            ) && self.hour < 24 && self.minute < 60),
            r is Some ==> r->Some_0 == schedule_of(self@),
    {
        if self.year > i32::MAX as u32 {
            return None;
        }
        if !day_exists(self.year, self.month, self.day) || self.hour >= 24 || self.minute >= 60 {
            return None;
        }
        Some(self.scheduled_at())
    }

    /// Applies the recurrence policy at `now`.
    pub fn next_occurrence(&self, now: DateTime) -> (r: NextStep)
        ensures
            r == next_step(self@, now),
    {
        let interval: u32 = match self.frequency {
            Frequency::ONCE => {
                return NextStep::Delete;
            },
            Frequency::DAILY => 1,
            Frequency::WEEKLY => 7,
            Frequency::NDAYS => match self.n {
                Some(k) => k,
                None => {
                    return NextStep::Keep;
                },
            },
        };
        if now.year > i32::MAX as u32 {
            return NextStep::Keep;
        }
        match add_days(now.year, now.month, now.day, interval) {
            Some(d) => NextStep::Reschedule(
                DateTime { year: d.0, month: d.1, day: d.2, hour: self.hour, minute: self.minute },
            ),
            None => NextStep::Keep,
        }
    }
}

} // verus!
