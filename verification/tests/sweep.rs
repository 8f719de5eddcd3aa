use zaps::sweep::{plan_sweeps, sweep_reference, PlannedSweep, SweepCandidate};

#[test]
fn sweeps_only_reach_the_minimum() {
    let c = vec![
        SweepCandidate { user_id: 1, available_balance: 150_000 },
        SweepCandidate { user_id: 2, available_balance: 99_999 },
        SweepCandidate { user_id: 3, available_balance: 100_000 },
    ];
    assert_eq!(
        plan_sweeps(&c, 100_000),
        vec![PlannedSweep { user_id: 1, amount: 150_000 }, PlannedSweep { user_id: 3, amount: 100_000 }]
    );
    assert!(plan_sweeps(&Vec::new(), 1).is_empty());
    assert_eq!(sweep_reference("u"), "zaps-auto-sweep-u");
}
