use zaps::host::{Abort, CallContext, Failure};
use zaps::merchant_vault::{Error, MerchantVault, VaultEvent};

const ADMIN: u64 = 1;
const ROUTER: u64 = 2;
const PAYOUT: u64 = 3;
const MERCHANT: u64 = 4;
const OUTSIDER: u64 = 99;

fn at(sequence: u32) -> CallContext {
    CallContext::all_authorized(sequence)
}

struct Setup {
    client: MerchantVault,
    signers: [u64; 3],
    created: u32,
}

impl Setup {
    fn new_2_of_3() -> Self {
        Self::new(2, 1_000)
    }

    fn new(threshold: u32, expiry_ledgers: u32) -> Self {
        let signers = [10, 11, 12];
        let mut client = MerchantVault::new();
        client
            .initialize(&at(0), ADMIN, ROUTER, PAYOUT, signers.to_vec(), threshold, expiry_ledgers)
            .unwrap();
        client.init_merchant(&at(0), MERCHANT).unwrap();
        client.credit(&at(0), MERCHANT, 10_000).unwrap();
        Setup { client, signers, created: 0 }
    }

    fn propose(&mut self, amount: i128, proposer: u64) -> u32 {
        self.client.propose_withdrawal(&at(self.created), MERCHANT, amount, proposer).unwrap()
    }

    fn approve(&mut self, pid: u32, approver: u64) -> bool {
        self.client.approve_withdrawal(&at(self.created), pid, approver).unwrap()
    }
}

fn blank_init(signers: Vec<u64>, threshold: u32) -> Result<(), Failure<Error>> {
    let mut client = MerchantVault::new();
    client.initialize(&at(0), ADMIN, ROUTER, PAYOUT, signers, threshold, 1_000)
}

#[test]
fn test_initialize_stores_threshold_and_signers() {
    let s = Setup::new_2_of_3();
    assert_eq!(s.client.get_threshold(), 2);
    assert_eq!(s.client.get_signers().len(), 3);
}

#[test]
fn test_initialize_rejects_empty_signers() {
    assert_eq!(blank_init(vec![], 1), Err(Failure::Contract(Error::EmptySigners)));
}

#[test]
fn test_initialize_rejects_threshold_zero() {
    assert_eq!(blank_init(vec![10], 0), Err(Failure::Contract(Error::InvalidThreshold)));
}

#[test]
fn test_initialize_rejects_threshold_exceeds_signers() {
    assert_eq!(blank_init(vec![10], 2), Err(Failure::Contract(Error::InvalidThreshold)));
}

#[test]
fn test_initialize_1_of_1() {
    let mut client = MerchantVault::new();
    client.initialize(&at(0), ADMIN, ROUTER, PAYOUT, vec![10], 1, 1_000).unwrap();
    assert_eq!(client.get_threshold(), 1);
}

#[test]
fn test_is_signer_returns_true_for_known_signer() {
    let s = Setup::new_2_of_3();
    assert!(s.client.is_signer(s.signers[0]));
    assert!(s.client.is_signer(s.signers[1]));
    assert!(s.client.is_signer(s.signers[2]));
}

#[test]
fn test_is_signer_returns_false_for_unknown_address() {
    let s = Setup::new_2_of_3();
    assert!(!s.client.is_signer(OUTSIDER));
}

#[test]
fn test_propose_withdrawal_creates_proposal() {
    let mut s = Setup::new_2_of_3();
    let pid = s.propose(500, s.signers[0]);
    assert_eq!(pid, 0);
    let p = s.client.get_proposal(pid).unwrap();
    assert_eq!(p.merchant_id, MERCHANT);
    assert_eq!(p.amount, 500);
    assert_eq!(p.proposer, s.signers[0]);
    assert!(!p.executed);
    assert!(!p.cancelled);
    assert_eq!(p.approvals.len(), 1);
}

#[test]
fn test_propose_increments_proposal_id() {
    let mut s = Setup::new_2_of_3();
    let pid0 = s.propose(100, s.signers[0]);
    let pid1 = s.propose(200, s.signers[1]);
    assert_eq!(pid0, 0);
    assert_eq!(pid1, 1);
}

#[test]
fn test_propose_by_non_signer_fails() {
    let mut s = Setup::new_2_of_3();
    let result = s.client.propose_withdrawal(&at(0), MERCHANT, 500, OUTSIDER);
    assert_eq!(result, Err(Failure::Contract(Error::NotASigner)));
}

#[test]
fn test_propose_zero_amount_fails() {
    let mut s = Setup::new_2_of_3();
    let result = s.client.propose_withdrawal(&at(0), MERCHANT, 0, s.signers[0]);
    assert_eq!(result, Err(Failure::Contract(Error::NegativeAmount)));
}

#[test]
fn test_propose_negative_amount_fails() {
    let mut s = Setup::new_2_of_3();
    let result = s.client.propose_withdrawal(&at(0), MERCHANT, -1, s.signers[0]);
    assert_eq!(result, Err(Failure::Contract(Error::NegativeAmount)));
}

#[test]
fn test_propose_for_uninitialised_merchant_fails() {
    let mut s = Setup::new_2_of_3();
    let result = s.client.propose_withdrawal(&at(0), 77, 100, s.signers[0]);
    assert_eq!(result, Err(Failure::Contract(Error::MerchantNotInitialized)));
}

#[test]
fn test_approve_records_approval_below_threshold() {
    let mut s = Setup::new_2_of_3();
    let pid = s.propose(500, s.signers[0]);
    let mut s3 = Setup::new(3, 1_000);
    let pid3 = s3.propose(500, s3.signers[0]);
    let executed = s3.approve(pid3, s3.signers[1]);
    assert!(!executed);
    let p = s3.client.get_proposal(pid3).unwrap();
    assert_eq!(p.approvals.len(), 2);
    assert!(!p.executed);
    assert_eq!(s3.client.balance_of(MERCHANT), Ok(10_000));
    let _ = pid;
}

#[test]
fn test_approve_by_non_signer_fails() {
    let mut s = Setup::new_2_of_3();
    let pid = s.propose(500, s.signers[0]);
    let result = s.client.approve_withdrawal(&at(0), pid, OUTSIDER);
    assert_eq!(result, Err(Failure::Contract(Error::NotASigner)));
}

#[test]
fn test_duplicate_approval_fails() {
    let mut s = Setup::new(3, 1_000);
    let pid = s.propose(500, s.signers[0]);
    let result = s.client.approve_withdrawal(&at(0), pid, s.signers[0]);
    assert_eq!(result, Err(Failure::Contract(Error::AlreadyApproved)));
}

#[test]
fn test_approve_nonexistent_proposal_fails() {
    let mut s = Setup::new_2_of_3();
    let result = s.client.approve_withdrawal(&at(0), 999, s.signers[0]);
    assert_eq!(result, Err(Failure::Contract(Error::ProposalNotFound)));
}

#[test]
fn test_2_of_3_executes_on_second_approval() {
    let mut s = Setup::new_2_of_3();
    let pid = s.propose(1_000, s.signers[0]);
    assert!(s.approve(pid, s.signers[1]));
    assert!(s.client.get_proposal(pid).unwrap().executed);
    assert_eq!(s.client.balance_of(MERCHANT), Ok(9_000));
}

#[test]
fn test_3_of_3_executes_on_third_approval() {
    let mut s = Setup::new(3, 1_000);
    let pid = s.propose(2_000, s.signers[0]);
    assert!(!s.approve(pid, s.signers[1]));
    assert!(s.approve(pid, s.signers[2]));
    assert_eq!(s.client.balance_of(MERCHANT), Ok(8_000));
}

#[test]
fn test_1_of_3_executes_immediately_on_propose() {
    let mut s = Setup::new(1, 1_000);
    let pid = s.propose(500, s.signers[0]);
    assert!(s.approve(pid, s.signers[1]));
    assert_eq!(s.client.balance_of(MERCHANT), Ok(9_500));
}

#[test]
fn test_execution_fails_if_insufficient_balance() {
    let mut s = Setup::new_2_of_3();
    let pid = s.propose(99_999, s.signers[0]);
    let result = s.client.approve_withdrawal(&at(0), pid, s.signers[1]);
    assert_eq!(result, Err(Failure::Contract(Error::InsufficientBalance)));
}

#[test]
fn test_approve_already_executed_proposal_fails() {
    let mut s = Setup::new_2_of_3();
    let pid = s.propose(100, s.signers[0]);
    s.approve(pid, s.signers[1]);
    let result = s.client.approve_withdrawal(&at(0), pid, s.signers[2]);
    assert_eq!(result, Err(Failure::Contract(Error::ProposalAlreadyExecuted)));
}

#[test]
fn test_approve_expired_proposal_fails() {
    let mut s = Setup::new(2, 100);
    let pid = s.propose(500, s.signers[0]);
    let result = s.client.approve_withdrawal(&at(s.created + 101), pid, s.signers[1]);
    assert_eq!(result, Err(Failure::Contract(Error::ProposalExpired)));
}

#[test]
fn test_approve_at_exact_expiry_boundary_fails() {
    let mut s = Setup::new(2, 100);
    let created = s.created;
    let pid = s.propose(500, s.signers[0]);
    let result = s.client.approve_withdrawal(&at(created + 101), pid, s.signers[1]);
    assert_eq!(result, Err(Failure::Contract(Error::ProposalExpired)));
}

#[test]
fn test_approve_just_before_expiry_succeeds() {
    let mut s = Setup::new(2, 100);
    let created = s.created;
    let pid = s.propose(500, s.signers[0]);
    let executed = s.client.approve_withdrawal(&at(created + 100), pid, s.signers[1]).unwrap();
    assert!(executed);
}

#[test]
fn test_proposer_can_cancel() {
    let mut s = Setup::new_2_of_3();
    let pid = s.propose(500, s.signers[0]);
    s.client.cancel_proposal(&at(0), pid, s.signers[0]).unwrap();
    let p = s.client.get_proposal(pid).unwrap();
    assert!(p.cancelled);
    assert!(!p.executed);
}

#[test]
fn test_admin_can_cancel() {
    let mut s = Setup::new_2_of_3();
    let pid = s.propose(500, s.signers[0]);
    s.client.cancel_proposal(&at(0), pid, ADMIN).unwrap();
    assert!(s.client.get_proposal(pid).unwrap().cancelled);
}

#[test]
fn test_non_proposer_non_admin_cannot_cancel() {
    let mut s = Setup::new_2_of_3();
    let pid = s.propose(500, s.signers[0]);
    let result = s.client.cancel_proposal(&at(0), pid, s.signers[1]);
    assert_eq!(result, Err(Failure::Contract(Error::UnauthorizedCaller)));
}

#[test]
fn test_cancel_already_executed_fails() {
    let mut s = Setup::new_2_of_3();
    let pid = s.propose(100, s.signers[0]);
    s.approve(pid, s.signers[1]);
    let result = s.client.cancel_proposal(&at(0), pid, s.signers[0]);
    assert_eq!(result, Err(Failure::Contract(Error::ProposalAlreadyExecuted)));
}

#[test]
fn test_cancel_already_cancelled_fails() {
    let mut s = Setup::new_2_of_3();
    let pid = s.propose(500, s.signers[0]);
    s.client.cancel_proposal(&at(0), pid, s.signers[0]).unwrap();
    let result = s.client.cancel_proposal(&at(0), pid, s.signers[0]);
    assert_eq!(result, Err(Failure::Contract(Error::ProposalAlreadyCancelled)));
}

#[test]
fn test_approve_cancelled_proposal_fails() {
    let mut s = Setup::new_2_of_3();
    let pid = s.propose(500, s.signers[0]);
    s.client.cancel_proposal(&at(0), pid, s.signers[0]).unwrap();
    let result = s.client.approve_withdrawal(&at(0), pid, s.signers[1]);
    assert_eq!(result, Err(Failure::Contract(Error::ProposalAlreadyCancelled)));
}

#[test]
fn test_cancel_does_not_affect_balance() {
    let mut s = Setup::new_2_of_3();
    let pid = s.propose(5_000, s.signers[0]);
    s.client.cancel_proposal(&at(0), pid, s.signers[0]).unwrap();
    assert_eq!(s.client.balance_of(MERCHANT), Ok(10_000));
}

#[test]
fn test_multiple_proposals_independent() {
    let mut s = Setup::new_2_of_3();
    let pid0 = s.propose(1_000, s.signers[0]);
    let pid1 = s.propose(2_000, s.signers[1]);
    s.approve(pid0, s.signers[1]);
    assert_eq!(s.client.balance_of(MERCHANT), Ok(9_000));
    assert!(!s.client.get_proposal(pid1).unwrap().executed);
    s.approve(pid1, s.signers[0]);
    assert_eq!(s.client.balance_of(MERCHANT), Ok(7_000));
}

#[test]
fn test_cancel_one_does_not_affect_other() {
    let mut s = Setup::new_2_of_3();
    let pid0 = s.propose(1_000, s.signers[0]);
    let pid1 = s.propose(2_000, s.signers[1]);
    s.client.cancel_proposal(&at(0), pid0, s.signers[0]).unwrap();
    s.approve(pid1, s.signers[0]);
    assert_eq!(s.client.balance_of(MERCHANT), Ok(8_000));
}

#[test]
fn test_propose_emits_proposed_event() {
    let mut s = Setup::new_2_of_3();
    s.propose(500, s.signers[0]);
    let found = s.client.events().iter().any(|e| matches!(e, VaultEvent::Proposed { .. }));
    assert!(found, "expected (multisig, proposed) event");
}

#[test]
fn test_execute_emits_executed_event() {
    let mut s = Setup::new_2_of_3();
    let pid = s.propose(500, s.signers[0]);
    s.approve(pid, s.signers[1]);
    let found = s.client.events().iter().any(|e| matches!(e, VaultEvent::Executed { .. }));
    assert!(found, "expected (multisig, executed) event");
}

#[test]
fn test_cancel_emits_cancelled_event() {
    let mut s = Setup::new_2_of_3();
    let pid = s.propose(500, s.signers[0]);
    s.client.cancel_proposal(&at(0), pid, s.signers[0]).unwrap();
    let found = s.client.events().iter().any(|e| matches!(e, VaultEvent::Cancelled { .. }));
    assert!(found, "expected (multisig, cancelled) event");
}

#[test]
fn vault_debit_by_payout_contract_and_credit_overflow() {
    let mut s = Setup::new_2_of_3();
    assert_eq!(s.client.debit(&at(0), MERCHANT, 4_000), Ok(6_000));
    assert_eq!(
        s.client.debit(&at(0), MERCHANT, 6_001),
        Err(Failure::Contract(Error::InsufficientBalance))
    );
    assert_eq!(s.client.credit(&at(0), MERCHANT, -5), Err(Failure::Contract(Error::NegativeAmount)));
    assert_eq!(
        s.client.credit(&at(0), MERCHANT, i128::MAX),
        Err(Failure::Aborted(Abort::Overflow))
    );
    assert_eq!(s.client.balance_of(MERCHANT), Ok(6_000));
}

#[test]
fn vault_credit_requires_router_signature() {
    let mut s = Setup::new_2_of_3();
    let only_payout = CallContext::signed_by(0, vec![PAYOUT]);
    assert_eq!(
        s.client.credit(&only_payout, MERCHANT, 5),
        Err(Failure::Aborted(Abort::MissingAuth(ROUTER)))
    );
    assert_eq!(s.client.debit(&only_payout, MERCHANT, 5), Ok(9_995));
}

#[test]
fn vault_admin_updates_router() {
    let mut s = Setup::new_2_of_3();
    s.client.update_payment_router(&at(0), 50).unwrap();
    s.client.update_payout_contract(&at(0), 51).unwrap();
    let new_router = CallContext::signed_by(0, vec![50]);
    assert_eq!(s.client.credit(&new_router, MERCHANT, 5), Ok(10_005));
    assert_eq!(Error::EmptySigners.code(), 14);
}
