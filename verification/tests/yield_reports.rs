use chrono::{Datelike, NaiveDate, NaiveDateTime, Timelike};
use std::time::Duration;
use zaps::yield_reports::{
    plan_yield_reports, yield_report_for, NotificationSchedulerConfig, YieldReportCadence,
    YieldReportCandidate,
};
use zaps::yield_calc::UtcDateTime;

fn utc(t: NaiveDateTime) -> UtcDateTime {
    UtcDateTime {
        days_from_ce: t.date().num_days_from_ce(),
        secs_of_day: t.time().num_seconds_from_midnight(),
        nanos: t.time().nanosecond(),
    }
}

#[test]
fn report_text_and_threshold() {
    // 100_000_000 at 5% for a day earns 13_698.
    let r = yield_report_for(3, "alice", 100_000_000, 500, 86_400, 1_000, YieldReportCadence::Daily)
        .unwrap();
    assert_eq!(r.index, 3);
    assert_eq!(r.earned, 13_698);
    assert_eq!(r.title, "Your daily yield report");
    assert_eq!(r.body, "@alice, you earned 13698 micro-units in yield. Tap to view details.");
    // Below the threshold: no report.
    assert!(yield_report_for(0, "bob", 1_000, 500, 86_400, 1_000, YieldReportCadence::Weekly).is_none());
    // An empty period: no report even with a zero threshold.
    assert!(yield_report_for(0, "bob", 1_000, 500, 0, 0, YieldReportCadence::Weekly).is_none());
}

#[test]
fn cadence_texts() {
    assert_eq!(YieldReportCadence::Weekly.title(), "Your weekly yield report");
    assert_eq!(YieldReportCadence::Daily.label(), "daily");
    assert_eq!(YieldReportCadence::Weekly.label(), "weekly");
    assert_eq!(YieldReportCadence::Weekly.report_column(), "u.last_weekly_yield_report_at");
}

#[test]
fn plans_reports_from_last_report_or_sync() {
    let day1 = utc(NaiveDate::from_ymd_opt(2026, 6, 1).unwrap().and_hms_opt(0, 0, 0).unwrap());
    let day2 = utc(NaiveDate::from_ymd_opt(2026, 6, 2).unwrap().and_hms_opt(0, 0, 0).unwrap());
    let day8 = utc(NaiveDate::from_ymd_opt(2026, 6, 8).unwrap().and_hms_opt(0, 0, 0).unwrap());
    let candidates = vec![
        YieldReportCandidate {
            user_id: 1,
            username: "a".to_string(),
            earning_balance: 100_000_000,
            last_yield_sync_at: day1,
            last_report_at: Some(day2),
            push_tokens: vec!["t1".to_string()],
        },
        YieldReportCandidate {
            user_id: 2,
            username: "b".to_string(),
            earning_balance: 10,
            last_yield_sync_at: day1,
            last_report_at: None,
            push_tokens: vec!["t2".to_string()],
        },
        YieldReportCandidate {
            user_id: 3,
            username: "c".to_string(),
            earning_balance: 100_000_000,
            last_yield_sync_at: day8,
            last_report_at: None,
            push_tokens: vec![],
        },
    ];
    let plans = plan_yield_reports(&candidates, 500, 1_000, YieldReportCadence::Weekly, day8);
    assert_eq!(plans.len(), 1);
    assert_eq!(plans[0].index, 0);
    // Six days since the last report.
    assert_eq!(plans[0].earned, 100_000_000 * 500 * 6 * 86_400 / (10_000 * 31_536_000));
    assert_eq!(plans[0].title, "Your weekly yield report");
}

#[test]
fn clone_for_worker_copies_settings() {
    let c = NotificationSchedulerConfig {
        daily_interval: Duration::from_secs(86_400),
        weekly_interval: Duration::from_secs(604_800),
        yield_threshold: 1_000,
        expo_access_token: Some("tok".to_string()),
    };
    let d = c.clone_for_worker();
    assert_eq!(d.daily_interval, c.daily_interval);
    assert_eq!(d.weekly_interval, c.weekly_interval);
    assert_eq!(d.yield_threshold, 1_000);
    assert_eq!(d.expo_access_token.as_deref(), Some("tok"));
}
