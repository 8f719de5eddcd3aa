use zaps::api::ApiError;
use zaps::schedules::{
    cancel_outcome, modify_outcome, plan_schedule, schedule_after_run, schedule_id_of, RunUpdate,
    SchedulePlan, ScheduleType,
};

#[test]
fn plans() {
    assert_eq!(plan_schedule("ONE_TIME", Some(5)), SchedulePlan::OneTime);
    assert_eq!(plan_schedule("RECURRING", None), SchedulePlan::Recurring { interval_seconds: 86_400 });
    assert_eq!(plan_schedule("weekly", Some(604_800)), SchedulePlan::Recurring { interval_seconds: 604_800 });
    assert_eq!(ScheduleType::ONE_TIME.as_str(), "ONE_TIME");
    assert_eq!(ScheduleType::RECURRING.as_str(), "RECURRING");
}

#[test]
fn run_results() {
    assert_eq!(schedule_after_run("ONE_TIME", None, 2, true), RunUpdate::Complete);
    assert_eq!(schedule_after_run("RECURRING", Some(3600), 2, true), RunUpdate::Reschedule { delay_secs: 3600 });
    assert_eq!(schedule_after_run("RECURRING", None, 2, true), RunUpdate::Unchanged);
    assert_eq!(
        schedule_after_run("RECURRING", Some(3600), 0, false),
        RunUpdate::Retry { delay_secs: 60, retries: 1, failed: false }
    );
    assert_eq!(
        schedule_after_run("ONE_TIME", None, 2, false),
        RunUpdate::Retry { delay_secs: 60, retries: 3, failed: true }
    );
}

#[test]
fn three_failures_fail_the_schedule() {
    let mut retries = 0;
    let mut failed = false;
    for _ in 0..3 {
        match schedule_after_run("RECURRING", Some(10), retries, false) {
            RunUpdate::Retry { retries: r, failed: f, .. } => {
                retries = r;
                failed = f;
            }
            _ => panic!(),
        }
        if retries < 3 {
            assert!(!failed);
        }
    }
    assert_eq!(retries, 3);
    assert!(failed);
}

#[test]
fn schedule_errors() {
    match schedule_id_of("nope") {
        Err(ApiError::Validation(m)) => assert_eq!(m, "Invalid Schedule ID"),
        _ => panic!(),
    }
    assert!(schedule_id_of("67e55044-10b1-426f-9247-bb680e5fe0c8").is_ok());
    match modify_outcome(0) {
        Err(ApiError::NotFound(m)) => assert_eq!(m, "Schedule not found or not active"),
        _ => panic!(),
    }
    match cancel_outcome(0) {
        Err(ApiError::NotFound(m)) => assert_eq!(m, "Schedule not found"),
        _ => panic!(),
    }
    assert!(cancel_outcome(1).is_ok());
}
