//! The auto-sweep worker: idle available balances of users with auto-earn
//! on are moved into the yield vault.
use std::time::Duration;
use vstd::prelude::*;

verus! {

/// Seconds between sweeps, unless configured.
pub const DEFAULT_SWEEP_INTERVAL_SECS: u64 = 300;

/// The smallest idle balance swept, unless configured.
pub const DEFAULT_MIN_IDLE_AMOUNT: i64 = 100_000;

/// Users swept per cycle at most.
pub const SWEEP_BATCH_SIZE: i64 = 50;

/// The sweep worker's settings.
pub struct SweepWorkerConfig {
    pub poll_interval: Duration,
    pub min_idle_amount: i64,
}

/// A user that the database lists for sweeping, with its idle balance.
#[derive(PartialEq, Eq, Structural, Clone, Copy, Debug)]
pub struct SweepCandidate {
    pub user_id: u128,
    pub available_balance: i64,
}

/// A sweep to make: the whole idle balance of a user.
#[derive(PartialEq, Eq, Structural, Clone, Copy, Debug)]
pub struct PlannedSweep {
    pub user_id: u128,
    pub amount: i64,
}

/// The sweeps of a cycle: every candidate whose idle balance reaches the
/// minimum, in order, for its whole balance.
pub open spec fn planned_sweeps(candidates: Seq<SweepCandidate>, min_idle_amount: i64) -> Seq<PlannedSweep>
    decreases candidates.len(),
{
    if candidates.len() == 0 {
        Seq::empty()
    } else {
        let prev = planned_sweeps(candidates.drop_last(), min_idle_amount);
        let c = candidates.last();
        if c.available_balance >= min_idle_amount {
            prev.push(PlannedSweep { user_id: c.user_id, amount: c.available_balance })
        } else {
            prev
        }
    }
}

/// Plans the sweeps of a cycle.
pub fn plan_sweeps(candidates: &Vec<SweepCandidate>, min_idle_amount: i64) -> (r: Vec<PlannedSweep>)
    ensures
        r@ == planned_sweeps(candidates@, min_idle_amount),
{
    let mut out: Vec<PlannedSweep> = Vec::new();
    let mut i: usize = 0;
    while i < candidates.len()
        invariant
            i <= candidates@.len(),
            out@ == planned_sweeps(candidates@.take(i as int), min_idle_amount),
        decreases candidates@.len() - i,
    {
        let c = candidates[i];
        assert(candidates@.take(i + 1).drop_last() =~= candidates@.take(i as int));
        if c.available_balance >= min_idle_amount {
            out.push(PlannedSweep { user_id: c.user_id, amount: c.available_balance });
        }
        i = i + 1;
    }
    assert(candidates@.take(candidates@.len() as int) =~= candidates@);
    out
}

/// Every planned sweep moves at least the minimum, and never more than the
/// user had available.
pub proof fn lemma_sweeps_respect_minimum(candidates: Seq<SweepCandidate>, min_idle_amount: i64)
    ensures
        forall|j: int|
            0 <= j < planned_sweeps(candidates, min_idle_amount).len() ==> #[trigger] planned_sweeps(
                candidates,
                min_idle_amount,
            )[j].amount >= min_idle_amount,
        planned_sweeps(candidates, min_idle_amount).len() <= candidates.len(),
    decreases candidates.len(),
{
    if candidates.len() > 0 {
        lemma_sweeps_respect_minimum(candidates.drop_last(), min_idle_amount);
    }
}

/// Whether a candidate's idle balance reaches the minimum.
pub open spec fn reaches_minimum(min_idle_amount: i64) -> spec_fn(SweepCandidate) -> bool {
    |c: SweepCandidate| c.available_balance >= min_idle_amount
}

/// The sweep of a candidate's whole idle balance.
pub open spec fn whole_balance_sweep(c: SweepCandidate) -> PlannedSweep {
    PlannedSweep { user_id: c.user_id, amount: c.available_balance }
}

/// No eligible candidate is dropped and no other is swept: the sweeps of a
/// cycle are the candidates whose idle balance reaches the minimum, in
/// their order, each for its whole balance; so there are as many sweeps as
/// eligible candidates, and each eligible candidate has its sweep.
pub proof fn lemma_every_eligible_candidate_swept(candidates: Seq<SweepCandidate>, min_idle_amount: i64)
    ensures
        planned_sweeps(candidates, min_idle_amount) == candidates.filter(
            reaches_minimum(min_idle_amount),
        ).map_values(|c: SweepCandidate| whole_balance_sweep(c)),
        planned_sweeps(candidates, min_idle_amount).len() == candidates.filter(
            reaches_minimum(min_idle_amount),
        ).len(),
        forall|i: int|
            0 <= i < candidates.len() && #[trigger] candidates[i].available_balance >= min_idle_amount
                ==> planned_sweeps(candidates, min_idle_amount).contains(
                whole_balance_sweep(candidates[i]),
            ),
    decreases candidates.len(),
{
    reveal(Seq::filter);
    let f = reaches_minimum(min_idle_amount);
    let planned = planned_sweeps(candidates, min_idle_amount);
    if candidates.len() > 0 {
        let rest = candidates.drop_last();
        lemma_every_eligible_candidate_swept(rest, min_idle_amount);
        let c = candidates.last();
        if f(c) {
            assert(candidates.filter(f) == rest.filter(f).push(c));
            assert(candidates.filter(f).map_values(|c: SweepCandidate| whole_balance_sweep(c))
                =~= rest.filter(f).map_values(|c: SweepCandidate| whole_balance_sweep(c)).push(
                whole_balance_sweep(c),
            ));
        } else {
            assert(candidates.filter(f) == rest.filter(f));
        }
        assert forall|i: int|
            0 <= i < candidates.len() && #[trigger] candidates[i].available_balance >= min_idle_amount
                implies planned.contains(whole_balance_sweep(candidates[i])) by {
            if i < candidates.len() - 1 {
                assert(rest[i] == candidates[i]);
                assert(rest[i].available_balance >= min_idle_amount);
                let prev = planned_sweeps(rest, min_idle_amount);
                let j = choose|j: int| 0 <= j < prev.len() && prev[j] == whole_balance_sweep(rest[i]);
                if f(c) {
                    assert(planned[j] == prev[j]);
                }
            } else {
                assert(planned.last() == whole_balance_sweep(c));
            }
        }
    } else {
        assert(candidates.filter(f) =~= Seq::<SweepCandidate>::empty());
    }
}

/// The reference of a sweep: `zaps-auto-sweep-` and a fresh identifier.
pub fn sweep_reference(unique_id: &str) -> (r: String)
    ensures
        r@ == "zaps-auto-sweep-"@ + unique_id@,
{
    let mut r = String::from_str("zaps-auto-sweep-");
    r.append(unique_id);
    r
}

} // verus!
