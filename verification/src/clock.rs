//! The time source: a battery-backed clock peripheral that keeps calendar
//! time across restarts.
//!
//! The peripheral has a run control with two operations, and which of the two
//! sets the oscillator going has been seen to differ from what their names
//! say. The crate therefore takes no side: both operations are named in
//! [`ClockControl`], the one that starts this peripheral is configuration,
//! and it has to be found out on the hardware at hand.

use vstd::prelude::*;

verus! {

/// The two operations of the peripheral's run control.
#[derive(Clone, Copy, Debug, PartialEq, Eq, Structural)]
pub enum ClockControl {
    Halt,
    SetRunning,
}

/// A reading of the peripheral: a date and a time of day, without time zone.
#[derive(Clone, Copy, Debug, PartialEq, Eq, Structural)]
pub struct CalendarTime {
    pub year: i32,
    pub month: u32,
    pub day: u32,
    pub hour: u32,
    pub minute: u32,
    pub second: u32,
}

/// Why the time source could not be brought up.
#[derive(Clone, Copy, Debug, PartialEq, Eq, Structural)]
pub enum ClockError {
    /// The peripheral did not take the operation that starts it.
    StartFailed,
}

/// The time source: the operation that starts the peripheral, and whether it
/// has been started.
#[derive(Clone, Copy, Debug, PartialEq, Eq, Structural)]
pub struct TimeSource {
    pub start_with: ClockControl,
    pub running: bool,
}

/// Milliseconds from the Unix epoch to the given calendar time, read as UTC,
/// leap seconds not counted; nothing where the fields are no calendar time.
pub uninterp spec fn epoch_millis(
    year: i32,
    month: u32,
    day: u32,
    hour: u32,
    minute: u32,
    second: u32,
) -> Option<i64>;

/// What a time source answers for a reading whose place on the epoch scale is
/// `millis`: that place once the peripheral runs, nothing before.
pub open spec fn timestamp_of(running: bool, millis: Option<i64>) -> Option<i64> {
    if running {
        millis
    } else {
        None
    }
}

/// Places a calendar time on the epoch scale with chrono, through the names
/// that the clock driver crate re-exports: `NaiveDate::from_ymd_opt` makes the
/// date, `NaiveDate::and_hms_opt` adds the time of day, and
/// `NaiveDateTime::and_utc` with `DateTime::timestamp_millis` counts the
/// milliseconds. The first two give nothing for fields that are no calendar
/// time, and so does this function. The contract only names the result: it
/// depends on the six fields and on nothing else.
#[verifier::external_body]
fn calendar_millis(year: i32, month: u32, day: u32, hour: u32, minute: u32, second: u32) -> (millis:
    Option<i64>)
    ensures
        millis == epoch_millis(year, month, day, hour, minute, second),
{
    let date = ds1307::NaiveDate::from_ymd_opt(year, month, day)?;
    let time = date.and_hms_opt(hour, minute, second)?;
    Some(time.and_utc().timestamp_millis())
}

impl TimeSource {
    /// A time source whose peripheral has not been started.
    pub fn new(start_with: ClockControl) -> (source: TimeSource)
        ensures
            source.start_with == start_with,
            !source.running,
    {
        TimeSource { start_with, running: false }
    }

    /// The operation to issue to start the peripheral.
    pub fn start_command(&self) -> (command: ClockControl)
        ensures
            command == self.start_with,
    {
        self.start_with
    }

    /// Records how the peripheral took the start operation. Accepted, the
    /// source runs from now on; refused, it is as before and the bring-up has
    /// failed.
    pub fn initialize(&mut self, accepted: bool) -> (outcome: Result<(), ClockError>)
        ensures
            final(self).start_with == old(self).start_with,
            accepted ==> outcome is Ok && final(self).running,
            !accepted ==> outcome == Err::<(), ClockError>(ClockError::StartFailed),
            !accepted ==> final(self).running == old(self).running,
    {
        if accepted {
            self.running = true;
            Ok(())
        } else {
            Err(ClockError::StartFailed)
        }
    }

    /// Whether the peripheral has been started.
    pub fn is_running(&self) -> (running: bool)
        ensures
            running == self.running,
    {
        self.running
    }

    /// The timestamp for a place on the epoch scale: the place itself once the
    /// peripheral runs, nothing before that.
    pub fn stamp(&self, millis: Option<i64>) -> (timestamp: Option<i64>)
        ensures
            timestamp == timestamp_of(self.running, millis),
    {
        if self.running {
            millis
        } else {
            None
        }
    }

    /// The timestamp of a reading of the peripheral, in milliseconds since the
    /// Unix epoch. There is none before the peripheral was started, and none
    /// for a reading that is no calendar time.
    pub fn now(&self, calendar: &CalendarTime) -> (timestamp: Option<i64>)
        ensures
            timestamp == timestamp_of(
                self.running,
                epoch_millis(
                    calendar.year,
                    calendar.month,
                    calendar.day,
                    calendar.hour,
                    calendar.minute,
                    calendar.second,
                ),
            ),
    {
        let millis = calendar_millis(
            calendar.year,
            calendar.month,
            calendar.day,
            calendar.hour,
            calendar.minute,
            calendar.second,
        );
        self.stamp(millis)
    }
}

/// A source that was not started gives no timestamp; a started one hands the
/// place on the epoch scale through as it is.
pub proof fn lemma_no_timestamp_before_start(source: TimeSource, millis: Option<i64>)
    ensures
        !source.running ==> timestamp_of(source.running, millis) is None,
        source.running ==> timestamp_of(source.running, millis) == millis,
{
}

} // verus!
