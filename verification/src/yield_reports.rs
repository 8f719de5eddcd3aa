//! Daily and weekly yield report notifications: which users get a report,
//! what it says, and the scheduler's configuration.
use crate::text::{int_decimal, push_i64};
use crate::yield_calc::{
    estimate_period_yield, linear_interest, seconds_between, whole_seconds_between, UtcDateTime,
};
use std::time::Duration;
use vstd::prelude::*;

verus! {

/// The smallest yield (micro-units) worth a report, unless configured.
pub const DEFAULT_YIELD_REPORT_THRESHOLD: i64 = 1_000;

/// Seconds between daily reports, unless configured.
pub const DEFAULT_DAILY_INTERVAL_SECS: u64 = 86_400;

/// Seconds between weekly reports, unless configured.
pub const DEFAULT_WEEKLY_INTERVAL_SECS: u64 = 604_800;

/// The APY assumed when none has been recorded.
pub const DEFAULT_REPORT_APY_BPS: i32 = 500;

/// How often a report is sent.
#[derive(PartialEq, Eq, Structural, Clone, Copy, Debug)]
pub enum YieldReportCadence {
    Daily,
    Weekly,
}

impl YieldReportCadence {
    /// The title of the notification.
    pub open spec fn spec_title(self) -> Seq<char> {
        match self {
            YieldReportCadence::Daily => "Your daily yield report"@,
            YieldReportCadence::Weekly => "Your weekly yield report"@,
        }
    }

    /// The title of the notification.
    pub fn title(&self) -> (r: &'static str)
        ensures
            r@ == self.spec_title(),
    {
        match self {
            YieldReportCadence::Daily => "Your daily yield report",
            YieldReportCadence::Weekly => "Your weekly yield report",
        }
    }

    /// The cadence as the notification data names it.
    pub open spec fn spec_label(self) -> Seq<char> {
        match self {
            YieldReportCadence::Daily => "daily"@,
            YieldReportCadence::Weekly => "weekly"@,
        }
    }

    /// The cadence as the notification data names it.
    pub fn label(&self) -> (r: &'static str)
        ensures
            r@ == self.spec_label(),
    {
        match self {
            YieldReportCadence::Daily => "daily",
            YieldReportCadence::Weekly => "weekly",
        }
    }

    /// The user column that records when this report was last sent.
    pub open spec fn spec_report_column(self) -> Seq<char> {
        match self {
            YieldReportCadence::Daily => "u.last_daily_yield_report_at"@,
            YieldReportCadence::Weekly => "u.last_weekly_yield_report_at"@,
        }
    }

    /// The user column that records when this report was last sent.
    pub fn report_column(&self) -> (r: &'static str)
        ensures
            r@ == self.spec_report_column(),
    {
        match self {
            YieldReportCadence::Daily => "u.last_daily_yield_report_at",
            YieldReportCadence::Weekly => "u.last_weekly_yield_report_at",
        }
    }
}

/// The report scheduler's settings.
pub struct NotificationSchedulerConfig {
    pub daily_interval: Duration,
    pub weekly_interval: Duration,
    pub yield_threshold: i64,
    pub expo_access_token: Option<String>,
}

impl NotificationSchedulerConfig {
    /// A copy of the settings for a second worker.
    pub fn clone_for_worker(&self) -> (r: Self)
        ensures
            r.daily_interval == self.daily_interval,
            r.weekly_interval == self.weekly_interval,
            r.yield_threshold == self.yield_threshold,
            r.expo_access_token == self.expo_access_token,
    {
        Self {
            daily_interval: self.daily_interval,
            weekly_interval: self.weekly_interval,
            yield_threshold: self.yield_threshold,
            expo_access_token: match &self.expo_access_token {
                Some(t) => Some(t.clone()),
                None => None,
            },
        }
    }
}

/// A user who may get a report: the balance it is computed on, when the
/// period started, and where to push it.
pub struct YieldReportCandidate {
    pub user_id: u128,
    pub username: String,
    pub earning_balance: i64,
    pub last_yield_sync_at: UtcDateTime,
    pub last_report_at: Option<UtcDateTime>,
    pub push_tokens: Vec<String>,
}

/// A report to send: to the candidate at `index`.
pub struct PlannedYieldReport {
    pub index: usize,
    pub title: String,
    pub body: String,
    pub earned: i64,
}

/// What a planned report holds, as plain values.
pub struct ReportView {
    pub index: int,
    pub title: Seq<char>,
    pub body: Seq<char>,
    pub earned: int,
}

impl View for PlannedYieldReport {
    type V = ReportView;

    open spec fn view(&self) -> ReportView {
        ReportView {
            index: self.index as int,
            title: self.title@,
            body: self.body@,
            earned: self.earned as int,
        }
    }
}

/// The text of a report.
pub open spec fn report_body(username: Seq<char>, earned: int) -> Seq<char> {
    "@"@ + username + ", you earned "@ + int_decimal(earned)
        + " micro-units in yield. Tap to view details."@
}

/// The yield earned over a period, as the report computes it.
pub open spec fn period_earnings(balance: i64, apy_bps: i32, period_secs: i64) -> int {
    if balance <= 0 || period_secs <= 0 {
        0
    } else {
        linear_interest(balance as int, apy_bps as int, period_secs as int)
    }
}

/// Whether a candidate gets a report: the period is not empty and the yield
/// reaches the threshold.
pub open spec fn gets_report(balance: i64, apy_bps: i32, period_secs: i64, threshold: i64) -> bool {
    period_secs > 0 && period_earnings(balance, apy_bps, period_secs) >= threshold
}

/// The report for a candidate over a period of `period_secs` seconds, if it
/// gets one.
pub fn yield_report_for(
    index: usize,
    username: &str,
    earning_balance: i64,
    apy_bps: i32,
    period_secs: i64,
    threshold: i64,
    cadence: YieldReportCadence,
) -> (r: Option<PlannedYieldReport>)
    ensures
        r is Some <==> gets_report(earning_balance, apy_bps, period_secs, threshold),
        r matches Some(rep) ==> rep@ == (ReportView {
            index: index as int,
            title: cadence.spec_title(),
            body: report_body(username@, period_earnings(earning_balance, apy_bps, period_secs)),
            earned: period_earnings(earning_balance, apy_bps, period_secs),
        }),
{
    if period_secs <= 0 {
        return None;
    }
    let earned = estimate_period_yield(earning_balance, apy_bps, period_secs);
    if earned < threshold {
        return None;
    }
    proof {
        reveal_strlit("@");
        reveal_strlit(", you earned ");
        reveal_strlit(" micro-units in yield. Tap to view details.");
    }
    let mut body = String::new();
    body.append("@");
    body.append(username);
    body.append(", you earned ");
    push_i64(&mut body, earned);
    body.append(" micro-units in yield. Tap to view details.");
    assert(body@ =~= report_body(username@, earned as int));
    let title = String::from_str(cadence.title());
    Some(PlannedYieldReport { index, title, body, earned })
}

/// The reports of a cycle, in the order of the candidates, given the length
/// of each candidate's period.
pub open spec fn planned_reports(
    balances: Seq<i64>,
    usernames: Seq<Seq<char>>,
    periods: Seq<i64>,
    apy_bps: i32,
    threshold: i64,
    cadence: YieldReportCadence,
) -> Seq<ReportView>
    decreases balances.len(),
{
    if balances.len() == 0 {
        Seq::empty()
    } else {
        let k = balances.len() - 1;
        let prev = planned_reports(
            balances.drop_last(),
            usernames.drop_last(),
            periods.drop_last(),
            apy_bps,
            threshold,
            cadence,
        );
        if gets_report(balances[k], apy_bps, periods[k], threshold) {
            let earned = period_earnings(balances[k], apy_bps, periods[k]);
            prev.push(
                ReportView {
                    index: k,
                    title: cadence.spec_title(),
                    body: report_body(usernames[k], earned),
                    earned,
                },
            )
        } else {
            prev
        }
    }
}

/// The earning balances of the candidates.
pub open spec fn balances_of(c: Seq<YieldReportCandidate>) -> Seq<i64> {
    c.map_values(|x: YieldReportCandidate| x.earning_balance)
}

/// The usernames of the candidates.
pub open spec fn usernames_of(c: Seq<YieldReportCandidate>) -> Seq<Seq<char>> {
    c.map_values(|x: YieldReportCandidate| x.username@)
}

/// The length in seconds of a candidate's period at `now`: from its last
/// report, or if none from its last sync, and none when that lies ahead.
pub open spec fn report_period(c: YieldReportCandidate, now: UtcDateTime) -> i64 {
    let start = match c.last_report_at {
        Some(t) => t,
        None => c.last_yield_sync_at,
    };
    let elapsed = whole_seconds_between(start, now);
    if elapsed < 0 {
        0
    } else {
        elapsed as i64
    }
}

/// The periods of the candidates at `now`.
pub open spec fn periods_of(c: Seq<YieldReportCandidate>, now: UtcDateTime) -> Seq<i64> {
    c.map_values(|x: YieldReportCandidate| report_period(x, now))
}

/// Plans one cycle of reports at `now` (UTC): each candidate's period runs
/// from its last report (or, if none, its last sync) to `now`, and a
/// candidate gets a report when the yield over it reaches the threshold.
pub fn plan_yield_reports(
    candidates: &Vec<YieldReportCandidate>,
    apy_bps: i32,
    threshold: i64,
    cadence: YieldReportCadence,
    now: UtcDateTime,
) -> (r: Vec<PlannedYieldReport>)
    ensures
        r@.map_values(|p: PlannedYieldReport| p@) == planned_reports(
            balances_of(candidates@),
            usernames_of(candidates@),
            periods_of(candidates@, now),
            apy_bps,
            threshold,
            cadence,
        ),
{
    let mut out: Vec<PlannedYieldReport> = Vec::new();
    let mut i: usize = 0;
    while i < candidates.len()
        invariant
            i <= candidates@.len(),
            out@.map_values(|p: PlannedYieldReport| p@) == planned_reports(
                balances_of(candidates@).take(i as int),
                usernames_of(candidates@).take(i as int),
                periods_of(candidates@, now).take(i as int),
                apy_bps,
                threshold,
                cadence,
            ),
        decreases candidates@.len() - i,
    {
        let c = &candidates[i];
        let start = match &c.last_report_at {
            Some(t) => *t,
            None => c.last_yield_sync_at,
        };
        let elapsed = seconds_between(&start, &now);
        let period = if elapsed < 0 {
            0
        } else {
            elapsed
        };
        let rep = yield_report_for(
            i,
            c.username.as_str(),
            c.earning_balance,
            apy_bps,
            period,
            threshold,
            cadence,
        );
        let ghost before = out@;
        proof {
            let b = balances_of(candidates@);
            let u = usernames_of(candidates@);
            let ps = periods_of(candidates@, now);
            assert(b.take(i + 1).drop_last() =~= b.take(i as int));
            assert(u.take(i + 1).drop_last() =~= u.take(i as int));
            assert(ps.take(i + 1).drop_last() =~= ps.take(i as int));
            assert(b.take(i + 1)[i as int] == c.earning_balance);
            assert(u.take(i + 1)[i as int] == c.username@);
            assert(ps.take(i + 1)[i as int] == period);
        }
        match rep {
            Some(p) => {
                out.push(p);
                assert(out@.map_values(|p: PlannedYieldReport| p@) =~= before.map_values(
                    |p: PlannedYieldReport| p@,
                ).push(p@));
            },
            None => {},
        }
        i = i + 1;
    }
    proof {
        assert(balances_of(candidates@).take(i as int) =~= balances_of(candidates@));
        assert(usernames_of(candidates@).take(i as int) =~= usernames_of(candidates@));
        assert(periods_of(candidates@, now).take(i as int) =~= periods_of(candidates@, now));
    }
    out
}

/// A user who would get a report over some period also gets one over any
/// longer period (at a non-negative APY), and is reported at least as much.
pub proof fn lemma_longer_period_still_reported(
    balance: i64,
    apy_bps: i32,
    p1: i64,
    p2: i64,
    threshold: i64,
)
    requires
        apy_bps >= 0,
        p1 <= p2,
        gets_report(balance, apy_bps, p1, threshold),
    ensures
        gets_report(balance, apy_bps, p2, threshold),
        period_earnings(balance, apy_bps, p1) <= period_earnings(balance, apy_bps, p2),
{
    if balance > 0 {
        crate::yield_calc::lemma_interest_monotonic_in_time(
            balance as int,
            apy_bps as int,
            p1 as int,
            p2 as int,
        );
    }
}

} // verus!
