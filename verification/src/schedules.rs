//! Scheduled payments: one-time and recurring schedules, and what a run's
//! result does to the schedule (complete, reschedule, or retry until three
//! failures mark it failed).
use crate::api::ApiError;
use crate::ids::{parse_uuid, uuid_parsed};
use crate::text::str_eq;
use vstd::prelude::*;

verus! {

/// The interval of a recurring schedule when the request names none (a day).
pub const DEFAULT_RECURRING_INTERVAL_SECS: i64 = 86_400;

/// How long after its creation a schedule first runs when no time is given.
pub const FIRST_RUN_DELAY_SECS: i64 = 10;

/// How long after a failed run the schedule runs again.
pub const RETRY_DELAY_SECS: i64 = 60;

/// Failed runs after which a schedule is given up.
pub const MAX_RETRIES: i32 = 3;

/// The kinds of schedule.
#[allow(non_camel_case_types)]
#[derive(PartialEq, Eq, Structural, Clone, Copy, Debug)]
pub enum ScheduleType {
    ONE_TIME,
    RECURRING,
}

impl ScheduleType {
    /// The kind as it is stored.
    pub fn as_str(&self) -> (r: &'static str)
        ensures
            r@ == (match self {
                ScheduleType::ONE_TIME => "ONE_TIME"@,
                ScheduleType::RECURRING => "RECURRING"@,
            }),
    {
        match self {
            ScheduleType::ONE_TIME => "ONE_TIME",
            ScheduleType::RECURRING => "RECURRING",
        }
    }
}

/// The schedule that a creation request asks for.
#[derive(PartialEq, Eq, Structural, Clone, Copy, Debug)]
pub enum SchedulePlan {
    /// Run once.
    OneTime,
    /// Run every `interval_seconds`.
    Recurring { interval_seconds: i64 },
}

/// The schedule a creation request asks for: `ONE_TIME` runs once, any other
/// type recurs at the given interval (a day when none is given).
pub fn plan_schedule(schedule_type: &str, interval_seconds: Option<i64>) -> (r: SchedulePlan)
    ensures
        schedule_type@ == "ONE_TIME"@ ==> r == SchedulePlan::OneTime,
        schedule_type@ != "ONE_TIME"@ ==> r == (SchedulePlan::Recurring {
            interval_seconds: match interval_seconds {
                Some(i) => i,
                None => DEFAULT_RECURRING_INTERVAL_SECS,
            },
        }),
{
    if str_eq(schedule_type, "ONE_TIME") {
        SchedulePlan::OneTime
    } else {
        SchedulePlan::Recurring {
            interval_seconds: match interval_seconds {
                Some(i) => i,
                None => DEFAULT_RECURRING_INTERVAL_SECS,
            },
        }
    }
}

/// What a run's result does to its schedule.
#[derive(PartialEq, Eq, Structural, Clone, Copy, Debug)]
pub enum RunUpdate {
    /// A one-time schedule ran: it is completed and its retries reset.
    Complete,
    /// A recurring schedule ran: it runs again after the delay, retries reset.
    Reschedule { delay_secs: i64 },
    /// A recurring schedule without an interval ran: nothing changes.
    Unchanged,
    /// The run failed: it runs again after the delay with one more retry,
    /// and is marked failed once the retries reach the limit.
    Retry { delay_secs: i64, retries: i32, failed: bool },
}

/// The update after a run of a schedule of the given type, interval and
/// retry count.
pub open spec fn run_update(schedule_type: Seq<char>, interval_seconds: Option<i64>, retries: i32, success: bool) -> RunUpdate {
    if success {
        if schedule_type == "ONE_TIME"@ {
            RunUpdate::Complete
        } else {
            match interval_seconds {
                Some(i) => RunUpdate::Reschedule { delay_secs: i },
                None => RunUpdate::Unchanged,
            }
        }
    } else {
        RunUpdate::Retry {
            delay_secs: RETRY_DELAY_SECS,
            retries: (retries + 1) as i32,
            failed: retries + 1 >= MAX_RETRIES,
        }
    }
}

/// What a run's result does to its schedule.
pub fn schedule_after_run(schedule_type: &str, interval_seconds: Option<i64>, retries: i32, success: bool) -> (r: RunUpdate)
    requires
        retries < i32::MAX,
    ensures
        r == run_update(schedule_type@, interval_seconds, retries, success),
{
    if success {
        if str_eq(schedule_type, "ONE_TIME") {
            RunUpdate::Complete
        } else {
            match interval_seconds {
                Some(i) => RunUpdate::Reschedule { delay_secs: i },
                None => RunUpdate::Unchanged,
            }
        }
    } else {
        let next = retries + 1;
        RunUpdate::Retry {
            delay_secs: RETRY_DELAY_SECS,
            retries: next,
            failed: next >= MAX_RETRIES,
        }
    }
}

/// The retry count of a schedule after its runs, oldest first: a success
/// that changes the schedule resets it, a failure adds one.
pub open spec fn retries_after(schedule_type: Seq<char>, interval_seconds: Option<i64>, start: int, runs: Seq<bool>) -> int
    decreases runs.len(),
{
    if runs.len() == 0 {
        start
    } else {
        let prev = retries_after(schedule_type, interval_seconds, start, runs.drop_last());
        if runs.last() {
            if schedule_type == "ONE_TIME"@ || interval_seconds is Some {
                0
            } else {
                prev
            }
        } else {
            prev + 1
        }
    }
}

/// `k` failed runs in a row.
pub open spec fn failures(k: nat) -> Seq<bool> {
    Seq::new(k, |i: int| false)
}

/// A fresh schedule that fails `k` times in a row has `k` retries, and the
/// failure that brings it to three marks it failed — never an earlier one.
pub proof fn lemma_failed_after_three_failures(schedule_type: Seq<char>, interval_seconds: Option<i64>, k: nat)
    requires
        k >= 1,
        k < i32::MAX,
    ensures
        retries_after(schedule_type, interval_seconds, 0, failures(k)) == k,
        run_update(schedule_type, interval_seconds, (k - 1) as i32, false) matches RunUpdate::Retry {
            failed,
            retries,
            ..
        } && retries == k && (failed <==> k >= MAX_RETRIES),
    decreases k,
{
    assert(!failures(k).last());
    assert(retries_after(schedule_type, interval_seconds, 0, failures(k)) == retries_after(
        schedule_type,
        interval_seconds,
        0,
        failures(k).drop_last(),
    ) + 1);
    if k > 1 {
        lemma_failed_after_three_failures(schedule_type, interval_seconds, (k - 1) as nat);
        assert(failures(k).drop_last() =~= failures((k - 1) as nat));
    } else {
        assert(failures(k).drop_last() =~= Seq::<bool>::empty());
        assert(retries_after(schedule_type, interval_seconds, 0, Seq::<bool>::empty()) == 0);
    }
}

/// Reads a schedule id: 400 "Invalid Schedule ID" when it is not a UUID.
pub fn schedule_id_of(text: &str) -> (r: Result<u128, ApiError>)
    ensures
        uuid_parsed(text@) matches Some(id) ==> r == Ok::<u128, ApiError>(id),
        uuid_parsed(text@) is None ==> (r matches Err(ApiError::Validation(m)) && m@
            == "Invalid Schedule ID"@),
{
    match parse_uuid(text) {
        Some(id) => Ok(id),
        None => Err(ApiError::Validation(String::from_str("Invalid Schedule ID"))),
    }
}

/// Modifying a schedule, given the rows changed: only an active schedule
/// can be modified.
pub fn modify_outcome(updated_rows: u64) -> (r: Result<(), ApiError>)
    ensures
        updated_rows > 0 ==> r is Ok,
        updated_rows == 0 ==> (r matches Err(ApiError::NotFound(m)) && m@
            == "Schedule not found or not active"@),
{
    if updated_rows == 0 {
        Err(ApiError::NotFound(String::from_str("Schedule not found or not active")))
    } else {
        Ok(())
    }
}

/// Cancelling a schedule, given the rows changed.
pub fn cancel_outcome(updated_rows: u64) -> (r: Result<(), ApiError>)
    ensures
        updated_rows > 0 ==> r is Ok,
        updated_rows == 0 ==> (r matches Err(ApiError::NotFound(m)) && m@ == "Schedule not found"@),
{
    if updated_rows == 0 {
        Err(ApiError::NotFound(String::from_str("Schedule not found")))
    } else {
        Ok(())
    }
}

} // verus!
