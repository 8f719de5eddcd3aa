//! Off-chain yield estimates: simple (linear) interest on an earning balance
//! at an APY given in basis points, over the time since the last sync.
//! Products saturate at the bounds of `i64` and the quotient is truncated
//! toward zero, as the backend computes it.
use vstd::prelude::*;

verus! {

/// Seconds in a (non-leap) year.
pub const SECONDS_PER_YEAR: i64 = 31_536_000;

/// The APY, in basis points, assumed when none has been recorded (5.00%).
pub const DEFAULT_APY_BPS: i32 = 500;

/// Basis points in one whole.
pub const BPS_PER_UNIT: i64 = 10_000;


/// `x` clamped to the range of `i64` (what saturating arithmetic gives).
pub open spec fn clamp_i64(x: int) -> int {
    if x < i64::MIN {
        i64::MIN as int
    } else if x > i64::MAX {
        i64::MAX as int
    } else {
        x
    }
}

/// Integer division truncated toward zero, for a positive divisor.
pub open spec fn trunc_div(a: int, d: int) -> int {
    if a >= 0 {
        a / d
    } else {
        -((-a) / d)
    }
}

/// Interest on `balance` at `apy_bps` for `secs` seconds:
/// `balance * apy_bps * secs / (10_000 * SECONDS_PER_YEAR)`, each product
/// saturating at the bounds of `i64`.
pub open spec fn linear_interest(balance: int, apy_bps: int, secs: int) -> int {
    trunc_div(
        clamp_i64(clamp_i64(balance * apy_bps) * secs),
        BPS_PER_UNIT * SECONDS_PER_YEAR,
    )
}

/// `a * b`, saturating at the bounds of `i64`.
pub fn saturating_mul_i64(a: i64, b: i64) -> (r: i64)
    ensures
        r == clamp_i64(a * b),
{
    match a.checked_mul(b) {
        Some(v) => v,
        None => {
            if (a < 0) == (b < 0) {
                assert(a * b >= 0) by (nonlinear_arith)
                    requires
                        (a < 0) == (b < 0),
                ;
                i64::MAX
            } else {
                assert(a * b <= 0) by (nonlinear_arith)
                    requires
                        (a < 0) != (b < 0),
                ;
                i64::MIN
            }
        },
    }
}

/// `a + b`, saturating at the bounds of `i64`.
pub fn saturating_add_i64(a: i64, b: i64) -> (r: i64)
    ensures
        r == clamp_i64(a + b),
{
    match a.checked_add(b) {
        Some(v) => v,
        None => if a > 0 {
            i64::MAX
        } else {
            i64::MIN
        },
    }
}

/// `balance * apy_bps * secs / (10_000 * SECONDS_PER_YEAR)` as the backend
/// computes it.
fn interest(balance: i64, apy_bps: i64, secs: i64) -> (r: i64)
    ensures
        r == linear_interest(balance as int, apy_bps as int, secs as int),
{
    let p = saturating_mul_i64(saturating_mul_i64(balance, apy_bps), secs);
    p / (BPS_PER_UNIT * SECONDS_PER_YEAR)
}

/// An estimate of the yield of an earning balance.
#[derive(PartialEq, Eq, Structural, Clone, Copy, Debug)]
pub struct YieldEstimate {
    /// Interest accrued since the last sync point (micro-units).
    pub accrued_interest: i64,
    /// Earning balance including accrued but not yet checkpointed interest.
    pub total_earning_balance: i64,
}

/// The estimate for a balance, an APY and the seconds elapsed since the last
/// sync (a negative elapsed time counts as none).
pub open spec fn yield_estimate(balance: i64, apy_bps: i32, elapsed_secs: i64) -> YieldEstimate {
    if balance <= 0 || apy_bps <= 0 {
        YieldEstimate {
            accrued_interest: 0,
            total_earning_balance: if balance < 0 {
                0
            } else {
                balance
            },
        }
    } else {
        let secs = if elapsed_secs < 0 {
            0
        } else {
            elapsed_secs as int
        };
        let accrued = linear_interest(balance as int, apy_bps as int, secs);
        YieldEstimate {
            accrued_interest: accrued as i64,
            total_earning_balance: clamp_i64(balance + accrued) as i64,
        }
    }
}

/// Linear yield estimate from an earning balance, an APY in basis points and
/// the seconds elapsed since the last sync.
pub fn estimate_from_elapsed(earning_balance: i64, apy_bps: i32, elapsed_secs: i64) -> (r:
    YieldEstimate)
    ensures
        r == yield_estimate(earning_balance, apy_bps, elapsed_secs),
{
    if earning_balance <= 0 || apy_bps <= 0 {
        return YieldEstimate {
            accrued_interest: 0,
            total_earning_balance: if earning_balance < 0 {
                0
            } else {
                earning_balance
            },
        };
    }
    let secs = if elapsed_secs < 0 {
        0
    } else {
        elapsed_secs
    };
    let accrued = interest(earning_balance, apy_bps as i64, secs);
    YieldEstimate {
        accrued_interest: accrued,
        total_earning_balance: saturating_add_i64(earning_balance, accrued),
    }
}

/// Nanoseconds in a second.
pub const NANOS_PER_SECOND: i64 = 1_000_000_000;

/// Seconds in a day.
pub const SECONDS_PER_DAY: i64 = 86_400;

/// A UTC date and time as chrono's `NaiveDateTime` holds it: the day
/// (`num_days_from_ce`, 1 January of year 1 being day 1), the second of that
/// day (`num_seconds_from_midnight`) and the nanosecond within it
/// (`nanosecond`, which reaches past 999 999 999 only inside a leap second).
#[derive(PartialEq, Eq, Structural, Clone, Copy, Debug)]
pub struct UtcDateTime {
    pub days_from_ce: i32,
    pub secs_of_day: u32,
    pub nanos: u32,
}

/// The whole seconds from `since` to `now` as chrono counts them,
/// `(now - since).num_seconds()`: the days and seconds apart, plus the
/// nanoseconds apart taken by floor division, where a leap second of the
/// earlier time still counts toward the difference; a negative difference is
/// truncated toward zero.
pub open spec fn whole_seconds_between(since: UtcDateTime, now: UtcDateTime) -> int {
    let leap: int = if now.secs_of_day > since.secs_of_day && since.nanos >= NANOS_PER_SECOND {
        1
    } else if now.secs_of_day < since.secs_of_day && now.nanos >= NANOS_PER_SECOND {
        -1
    } else {
        0
    };
    let frac = now.nanos - since.nanos;
    let secs = (now.days_from_ce - since.days_from_ce) * SECONDS_PER_DAY + (now.secs_of_day
        - since.secs_of_day) + leap + frac / (NANOS_PER_SECOND as int);
    if secs < 0 && frac % (NANOS_PER_SECOND as int) > 0 {
        secs + 1
    } else {
        secs
    }
}

/// The whole seconds from `since` to `now` (see `whole_seconds_between`).
pub fn seconds_between(since: &UtcDateTime, now: &UtcDateTime) -> (r: i64)
    ensures
        r == whole_seconds_between(*since, *now),
{
    let leap: i64 = if now.secs_of_day > since.secs_of_day && since.nanos as i64 >= NANOS_PER_SECOND {
        1
    } else if now.secs_of_day < since.secs_of_day && now.nanos as i64 >= NANOS_PER_SECOND {
        -1
    } else {
        0
    };
    let frac: i64 = now.nanos as i64 - since.nanos as i64;
    // Floor division and a non-negative remainder, for a positive divisor.
    let mut q: i64 = frac / NANOS_PER_SECOND;
    let mut m: i64 = frac % NANOS_PER_SECOND;
    if m < 0 {
        q = q - 1;
        m = m + NANOS_PER_SECOND;
    }
    assert(q == frac as int / (NANOS_PER_SECOND as int) && m == frac as int % (NANOS_PER_SECOND as int))
        by (nonlinear_arith)
        requires
            frac as int == q * NANOS_PER_SECOND + m,
            0 <= m < NANOS_PER_SECOND,
    ;
    let days: i64 = (now.days_from_ce as i64 - since.days_from_ce as i64) * SECONDS_PER_DAY;
    let secs: i64 = days + (now.secs_of_day as i64 - since.secs_of_day as i64) + leap + q;
    if secs < 0 && m > 0 {
        secs + 1
    } else {
        secs
    }
}

/// Linear off-chain yield estimate from the user's earning balance, APY, and
/// elapsed time since the last blockchain/indexer sync (`now` in UTC).
pub fn estimate_accrued_yield(
    earning_balance: i64,
    apy_bps: i32,
    last_sync_at: UtcDateTime,
    now: UtcDateTime,
) -> (r: YieldEstimate)
    ensures
        r == yield_estimate(earning_balance, apy_bps, whole_seconds_between(last_sync_at, now) as i64),
{
    let elapsed = seconds_between(&last_sync_at, &now);
    estimate_from_elapsed(earning_balance, apy_bps, elapsed)
}

/// A user's off-chain yield balances.
pub struct UserYieldBalance {
    pub user_id: u128,
    pub available_balance: i64,
    pub earning_balance: i64,
    pub last_yield_sync_at: UtcDateTime,
    pub updated_at: UtcDateTime,
}

/// The APY used when none is given.
pub open spec fn apy_or_default(apy_bps: Option<i32>) -> i32 {
    match apy_bps {
        Some(a) => a,
        None => DEFAULT_APY_BPS,
    }
}

/// The estimate for a stored balance, at the given APY or the default one.
pub fn estimate_for_balance(balance: &UserYieldBalance, apy_bps: Option<i32>, now: UtcDateTime) -> (r:
    YieldEstimate)
    ensures
        r == yield_estimate(
            balance.earning_balance,
            apy_or_default(apy_bps),
            whole_seconds_between(balance.last_yield_sync_at, now) as i64,
        ),
{
    let apy = match apy_bps {
        Some(a) => a,
        None => DEFAULT_APY_BPS,
    };
    estimate_accrued_yield(balance.earning_balance, apy, balance.last_yield_sync_at, now)
}

/// The yield earned by `earning_balance` at `apy_bps` over `period_secs`
/// seconds; nothing for an empty balance or an empty period.
pub fn estimate_period_yield(earning_balance: i64, apy_bps: i32, period_secs: i64) -> (r: i64)
    ensures
        r == (if earning_balance <= 0 || period_secs <= 0 {
            0
        } else {
            linear_interest(earning_balance as int, apy_bps as int, period_secs as int)
        }),
{
    if earning_balance <= 0 || period_secs <= 0 {
        return 0;
    }
    interest(earning_balance, apy_bps as i64, period_secs)
}

/// Interest is never negative for a non-negative balance, APY and time, and
/// none accrues in no time.
pub proof fn lemma_interest_nonnegative(balance: int, apy_bps: int, secs: int)
    requires
        balance >= 0,
        apy_bps >= 0,
        secs >= 0,
    ensures
        linear_interest(balance, apy_bps, secs) >= 0,
        secs == 0 ==> linear_interest(balance, apy_bps, secs) == 0,
{
    assert(balance * apy_bps >= 0) by (nonlinear_arith)
        requires
            balance >= 0,
            apy_bps >= 0,
    ;
    let p = clamp_i64(balance * apy_bps);
    assert(p * secs >= 0) by (nonlinear_arith)
        requires
            p >= 0,
            secs >= 0,
    ;
}

/// Interest grows with time: over a longer period at least as much accrues.
pub proof fn lemma_interest_monotonic_in_time(balance: int, apy_bps: int, s1: int, s2: int)
    requires
        balance >= 0,
        apy_bps >= 0,
        0 <= s1 <= s2,
    ensures
        linear_interest(balance, apy_bps, s1) <= linear_interest(balance, apy_bps, s2),
{
    assert(balance * apy_bps >= 0) by (nonlinear_arith)
        requires
            balance >= 0,
            apy_bps >= 0,
    ;
    let p = clamp_i64(balance * apy_bps);
    assert(0 <= p * s1 <= p * s2) by (nonlinear_arith)
        requires
            p >= 0,
            0 <= s1 <= s2,
    ;
    let d = BPS_PER_UNIT * SECONDS_PER_YEAR;
    let a = clamp_i64(p * s1);
    let b = clamp_i64(p * s2);
    assert(a / d <= b / d) by (nonlinear_arith)
        requires
            0 <= a <= b,
            d > 0,
    ;
}

/// Interest grows with the balance: a larger balance earns at least as much.
pub proof fn lemma_interest_monotonic_in_balance(b1: int, b2: int, apy_bps: int, secs: int)
    requires
        0 <= b1 <= b2,
        apy_bps >= 0,
        secs >= 0,
    ensures
        linear_interest(b1, apy_bps, secs) <= linear_interest(b2, apy_bps, secs),
{
    assert(0 <= b1 * apy_bps <= b2 * apy_bps) by (nonlinear_arith)
        requires
            0 <= b1 <= b2,
            apy_bps >= 0,
    ;
    let p1 = clamp_i64(b1 * apy_bps);
    let p2 = clamp_i64(b2 * apy_bps);
    assert(0 <= p1 * secs <= p2 * secs) by (nonlinear_arith)
        requires
            0 <= p1 <= p2,
            secs >= 0,
    ;
    let d = BPS_PER_UNIT * SECONDS_PER_YEAR;
    let a = clamp_i64(p1 * secs);
    let b = clamp_i64(p2 * secs);
    assert(a / d <= b / d) by (nonlinear_arith)
        requires
            0 <= a <= b,
            d > 0,
    ;
}

/// Where no product reaches the bounds of `i64`, the estimate is the exact
/// linear formula and the total is the balance plus the interest.
pub proof fn lemma_estimate_exact(balance: i64, apy_bps: i32, elapsed_secs: i64)
    requires
        balance > 0,
        apy_bps > 0,
        elapsed_secs >= 0,
        balance + balance * apy_bps * elapsed_secs <= i64::MAX,
    ensures
        yield_estimate(balance, apy_bps, elapsed_secs).accrued_interest == balance * apy_bps
            * elapsed_secs / (BPS_PER_UNIT * SECONDS_PER_YEAR),
        yield_estimate(balance, apy_bps, elapsed_secs).total_earning_balance == balance
            + yield_estimate(balance, apy_bps, elapsed_secs).accrued_interest,
        yield_estimate(balance, apy_bps, elapsed_secs).accrued_interest >= 0,
{
    let b = balance as int;
    let a = apy_bps as int;
    let s = elapsed_secs as int;
    let d = BPS_PER_UNIT * SECONDS_PER_YEAR;
    assert(b * a * s >= 0) by (nonlinear_arith)
        requires
            b > 0,
            a > 0,
            s >= 0,
    ;
    if s > 0 {
        assert(0 < b * a <= b * a * s) by (nonlinear_arith)
            requires
                b > 0,
                a > 0,
                s > 0,
        ;
        assert(clamp_i64(b * a) == b * a);
        assert((b * a) * s == b * a * s) by (nonlinear_arith);
    } else {
        assert(clamp_i64(b * a) * s == 0) by (nonlinear_arith)
            requires
                s == 0,
        ;
        assert(b * a * s == 0) by (nonlinear_arith)
            requires
                s == 0,
        ;
    }
    let q = b * a * s / d;
    assert(0 <= q <= b * a * s) by (nonlinear_arith)
        requires
            b * a * s >= 0,
            d > 0,
            q == b * a * s / d,
    ;
}

} // verus!
