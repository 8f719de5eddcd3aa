use chrono::{DateTime, Datelike, NaiveDate, NaiveDateTime, NaiveTime, Timelike, Utc};
use zaps::yield_calc::{
    estimate_accrued_yield, estimate_for_balance, estimate_from_elapsed, estimate_period_yield,
    saturating_add_i64, saturating_mul_i64, seconds_between, UserYieldBalance, UtcDateTime,
    YieldEstimate, SECONDS_PER_YEAR,
};

fn utc(t: NaiveDateTime) -> UtcDateTime {
    UtcDateTime {
        days_from_ce: t.date().num_days_from_ce(),
        secs_of_day: t.time().num_seconds_from_midnight(),
        nanos: t.time().nanosecond(),
    }
}

#[test]
fn period_yield_matches_linear_formula() {
    let earned = estimate_period_yield(2_000_000, 500, 86_400);
    let expected = 2_000_000 * 500 * 86_400 / (10_000 * SECONDS_PER_YEAR);
    assert_eq!(earned, expected);
}

#[test]
fn zero_balance_yields_no_interest() {
    let sync = NaiveDate::from_ymd_opt(2026, 1, 1)
        .unwrap()
        .and_hms_opt(0, 0, 0)
        .unwrap();
    let now = DateTime::parse_from_rfc3339("2026-06-01T00:00:00Z")
        .unwrap()
        .with_timezone(&Utc);

    let est = estimate_accrued_yield(0, 500, utc(sync), utc(now.naive_utc()));
    assert_eq!(est.accrued_interest, 0);
    assert_eq!(est.total_earning_balance, 0);
}

#[test]
fn linear_interest_scales_with_time_and_balance() {
    let sync = NaiveDate::from_ymd_opt(2026, 6, 1)
        .unwrap()
        .and_hms_opt(0, 0, 0)
        .unwrap();
    let now = DateTime::parse_from_rfc3339("2026-06-02T00:00:00Z")
        .unwrap()
        .with_timezone(&Utc);

    // 1_000_000 micro-units at 5% APY for 1 day
    let est = estimate_accrued_yield(1_000_000, 500, utc(sync), utc(now.naive_utc()));
    let expected = 1_000_000 * 500 * 86_400 / (10_000 * SECONDS_PER_YEAR);
    assert_eq!(est.accrued_interest, expected);
    assert_eq!(est.total_earning_balance, 1_000_000 + expected);
}

#[test]
fn negative_elapsed_is_clamped_to_zero() {
    let sync = NaiveDate::from_ymd_opt(2026, 6, 2)
        .unwrap()
        .and_hms_opt(0, 0, 0)
        .unwrap();
    let now = DateTime::parse_from_rfc3339("2026-06-01T00:00:00Z")
        .unwrap()
        .with_timezone(&Utc);

    let est = estimate_accrued_yield(500_000, 500, utc(sync), utc(now.naive_utc()));
    assert_eq!(est.accrued_interest, 0);
}

#[test]
fn estimate_from_elapsed_exact_values() {
    // One year at 5% on 10_000_000 is 500_000.
    let est = estimate_from_elapsed(10_000_000, 500, SECONDS_PER_YEAR);
    assert_eq!(est, YieldEstimate { accrued_interest: 500_000, total_earning_balance: 10_500_000 });
    // Negative balance or APY: nothing accrues and the total is clamped at zero.
    assert_eq!(
        estimate_from_elapsed(-5, 500, 100),
        YieldEstimate { accrued_interest: 0, total_earning_balance: 0 }
    );
    assert_eq!(
        estimate_from_elapsed(7, 0, 100),
        YieldEstimate { accrued_interest: 0, total_earning_balance: 7 }
    );
    // Negative elapsed time counts as none.
    assert_eq!(estimate_from_elapsed(1_000_000, 500, -10).accrued_interest, 0);
}

#[test]
fn saturation_at_i64_bounds() {
    assert_eq!(saturating_mul_i64(i64::MAX, 2), i64::MAX);
    assert_eq!(saturating_mul_i64(i64::MIN, 2), i64::MIN);
    assert_eq!(saturating_mul_i64(-3, 4), -12);
    assert_eq!(saturating_add_i64(i64::MAX, 1), i64::MAX);
    assert_eq!(saturating_add_i64(i64::MIN, -1), i64::MIN);
    // A huge balance saturates the product before the division.
    let est = estimate_from_elapsed(i64::MAX, 10_000, SECONDS_PER_YEAR);
    assert_eq!(est.accrued_interest, i64::MAX / (10_000 * SECONDS_PER_YEAR));
    assert_eq!(est.total_earning_balance, i64::MAX);
}

#[test]
fn period_yield_edge_cases() {
    assert_eq!(estimate_period_yield(0, 500, 86_400), 0);
    assert_eq!(estimate_period_yield(1_000, 500, 0), 0);
    // A negative APY gives a negative estimate, truncated toward zero.
    let v = estimate_period_yield(1_000_000, -500, SECONDS_PER_YEAR);
    assert_eq!(v, -50_000);
    assert_eq!(estimate_period_yield(1, -1, 1), 0);
}

#[test]
fn interest_grows_with_time() {
    let a = estimate_from_elapsed(3_000_000, 700, 86_400).accrued_interest;
    let b = estimate_from_elapsed(3_000_000, 700, 7 * 86_400).accrued_interest;
    assert!(a <= b);
    assert_eq!(b, 3_000_000 * 700 * 7 * 86_400 / (10_000 * SECONDS_PER_YEAR));
}

#[test]
fn estimate_for_balance_uses_default_apy() {
    let sync = NaiveDate::from_ymd_opt(2026, 6, 1).unwrap().and_hms_opt(0, 0, 0).unwrap();
    let now = NaiveDate::from_ymd_opt(2026, 6, 2).unwrap().and_hms_opt(0, 0, 0).unwrap();
    let balance = UserYieldBalance {
        user_id: 1,
        available_balance: 0,
        earning_balance: 1_000_000,
        last_yield_sync_at: utc(sync),
        updated_at: utc(sync),
    };
    let with_default = estimate_for_balance(&balance, None, utc(now));
    let explicit = estimate_for_balance(&balance, Some(500), utc(now));
    assert_eq!(with_default, explicit);
    assert_eq!(with_default.accrued_interest, 1_000_000 * 500 * 86_400 / (10_000 * SECONDS_PER_YEAR));
}

#[test]
fn whole_seconds_match_chrono() {
    let at = |y: i32, m: u32, d: u32, h: u32, mi: u32, s: u32, n: u32| {
        NaiveDate::from_ymd_opt(y, m, d)
            .unwrap()
            .and_time(NaiveTime::from_hms_nano_opt(h, mi, s, n).unwrap())
    };
    let times = [
        at(2026, 6, 1, 0, 0, 0, 0),
        at(2026, 6, 1, 0, 0, 0, 500_000_000),
        at(2026, 6, 2, 12, 30, 15, 999_999_999),
        at(2016, 12, 31, 23, 59, 59, 0),
        at(2016, 12, 31, 23, 59, 59, 1_500_000_000),
        at(2017, 1, 1, 0, 0, 0, 250_000_000),
        at(1969, 7, 20, 20, 17, 40, 1),
        at(-44, 3, 15, 11, 0, 0, 0),
    ];
    for a in times.iter() {
        for b in times.iter() {
            assert_eq!(seconds_between(&utc(*a), &utc(*b)), (*b - *a).num_seconds(), "{} -> {}", a, b);
        }
    }
    assert_eq!(seconds_between(&utc(times[0]), &utc(times[2])), 131_415);
    assert_eq!(seconds_between(&utc(times[1]), &utc(times[0])), 0);
}
