use zaps::fee_distribution::{Error, FeeDistribution, FeeEvent, Recipient};
use zaps::host::{Abort, CallContext, Failure, TokenLedger};

const CONTRACT: u64 = 1;
const ADMIN: u64 = 2;
const TOKEN: u64 = 3;

fn recip(address: u64, share_bps: u32) -> Recipient {
    Recipient { address, share_bps, total_received: 0 }
}

fn all() -> CallContext {
    CallContext::all_authorized(0)
}

fn none() -> CallContext {
    CallContext::signed_by(0, vec![])
}

struct Setup {
    client: FeeDistribution,
    tokens: TokenLedger,
    next: u64,
    r: [u64; 3],
}

impl Setup {
    fn new() -> Self {
        let mut client = FeeDistribution::new(CONTRACT);
        let r = [100, 101, 102];
        let recipients = vec![recip(r[0], 5_000), recip(r[1], 3_000), recip(r[2], 2_000)];
        client.initialize(&all(), ADMIN, TOKEN, recipients).unwrap();
        Setup { client, tokens: TokenLedger::new(), next: 1_000, r }
    }

    fn fresh(&mut self) -> u64 {
        self.next += 1;
        self.next
    }

    fn deposit(&mut self, amount: i128) -> u64 {
        let depositor = self.fresh();
        self.tokens.mint(TOKEN, depositor, amount).unwrap();
        self.client.deposit(&all(), &mut self.tokens, depositor, amount).unwrap();
        depositor
    }

    fn distribute(&mut self) -> i128 {
        self.client.distribute(&mut self.tokens).unwrap()
    }

    fn balance(&self, who: u64) -> i128 {
        self.tokens.balance(TOKEN, who)
    }
}

fn fresh_contract() -> FeeDistribution {
    FeeDistribution::new(CONTRACT)
}

#[test]
fn test_initialize_stores_config() {
    let s = Setup::new();
    assert_eq!(s.client.get_admin(), Ok(ADMIN));
    assert_eq!(s.client.get_token(), Ok(TOKEN));
    assert_eq!(s.client.get_recipients().unwrap().len(), 3);
    assert_eq!(s.client.get_pending(), Ok(0));
}

#[test]
fn test_initialize_twice_fails() {
    let mut s = Setup::new();
    let result = s.client.initialize(&all(), ADMIN, TOKEN, vec![recip(500, 10_000)]);
    assert_eq!(result, Err(Failure::Contract(Error::AlreadyInitialized)));
}

#[test]
fn test_initialize_empty_recipients_fails() {
    let mut client = fresh_contract();
    let result = client.initialize(&all(), ADMIN, TOKEN, vec![]);
    assert_eq!(result, Err(Failure::Contract(Error::EmptyRecipients)));
}

#[test]
fn test_initialize_shares_not_summing_to_10000_fails() {
    let mut client = fresh_contract();
    let bad = vec![recip(10, 5_000), recip(11, 4_000)];
    let result = client.initialize(&all(), ADMIN, TOKEN, bad);
    assert_eq!(result, Err(Failure::Contract(Error::InvalidShares)));
}

#[test]
fn test_initialize_zero_share_fails() {
    let mut client = fresh_contract();
    let bad = vec![recip(10, 0), recip(11, 10_000)];
    let result = client.initialize(&all(), ADMIN, TOKEN, bad);
    assert_eq!(result, Err(Failure::Contract(Error::InvalidShareValue)));
}

#[test]
fn test_initialize_single_recipient_100_pct() {
    let mut client = fresh_contract();
    client.initialize(&all(), ADMIN, TOKEN, vec![recip(10, 10_000)]).unwrap();
    assert_eq!(client.get_recipients().unwrap().len(), 1);
}

#[test]
fn test_deposit_increases_pending() {
    let mut s = Setup::new();
    s.deposit(1_000);
    assert_eq!(s.client.get_pending(), Ok(1_000));
    s.deposit(500);
    assert_eq!(s.client.get_pending(), Ok(1_500));
}

#[test]
fn test_deposit_increases_total_in() {
    let mut s = Setup::new();
    s.deposit(1_000);
    s.deposit(2_000);
    assert_eq!(s.client.get_total_in(), Ok(3_000));
}

#[test]
fn test_deposit_zero_fails() {
    let mut s = Setup::new();
    let depositor = s.fresh();
    let result = s.client.deposit(&all(), &mut s.tokens, depositor, 0);
    assert_eq!(result, Err(Failure::Contract(Error::ZeroAmount)));
}

#[test]
fn test_deposit_negative_fails() {
    let mut s = Setup::new();
    let depositor = s.fresh();
    let result = s.client.deposit(&all(), &mut s.tokens, depositor, -1);
    assert_eq!(result, Err(Failure::Contract(Error::ZeroAmount)));
}

#[test]
fn test_deposit_emits_event() {
    let mut s = Setup::new();
    s.deposit(500);
    assert!(s.client.events().iter().any(|e| matches!(e, FeeEvent::Deposited { .. })));
}

#[test]
fn test_distribute_splits_50_30_20() {
    let mut s = Setup::new();
    s.deposit(10_000);
    s.distribute();
    assert_eq!(s.balance(s.r[0]), 5_000);
    assert_eq!(s.balance(s.r[1]), 3_000);
    assert_eq!(s.balance(s.r[2]), 2_000);
}

#[test]
fn test_distribute_resets_pending_to_zero() {
    let mut s = Setup::new();
    s.deposit(10_000);
    s.distribute();
    assert_eq!(s.client.get_pending(), Ok(0));
}

#[test]
fn test_distribute_increases_total_out() {
    let mut s = Setup::new();
    s.deposit(10_000);
    s.distribute();
    assert_eq!(s.client.get_total_out(), Ok(10_000));
}

#[test]
fn test_distribute_updates_recipient_total_received() {
    let mut s = Setup::new();
    s.deposit(10_000);
    s.distribute();
    let recips = s.client.get_recipients().unwrap();
    assert_eq!(recips[0].total_received, 5_000);
    assert_eq!(recips[1].total_received, 3_000);
    assert_eq!(recips[2].total_received, 2_000);
}

#[test]
fn test_distribute_accumulates_total_received_across_rounds() {
    let mut s = Setup::new();
    s.deposit(10_000);
    s.distribute();
    s.deposit(10_000);
    s.distribute();
    let recips = s.client.get_recipients().unwrap();
    assert_eq!(recips[0].total_received, 10_000);
    assert_eq!(recips[1].total_received, 6_000);
    assert_eq!(recips[2].total_received, 4_000);
}

#[test]
fn test_distribute_nothing_to_distribute_fails() {
    let mut s = Setup::new();
    let result = s.client.distribute(&mut s.tokens);
    assert_eq!(result, Err(Failure::Contract(Error::NothingToDistribute)));
}

#[test]
fn test_distribute_emits_event() {
    let mut s = Setup::new();
    s.deposit(1_000);
    s.distribute();
    assert!(s.client.events().iter().any(|e| matches!(e, FeeEvent::Distributed { .. })));
}

#[test]
fn test_rounding_remainder_goes_to_first_recipient() {
    let mut s = Setup::new();
    s.deposit(1);
    s.distribute();
    assert_eq!(s.balance(s.r[0]), 1);
    assert_eq!(s.balance(s.r[1]), 0);
    assert_eq!(s.balance(s.r[2]), 0);
}

#[test]
fn test_rounding_no_dust_lost() {
    let mut s = Setup::new();
    s.deposit(10_001);
    s.distribute();
    let r0 = s.balance(s.r[0]);
    let r1 = s.balance(s.r[1]);
    let r2 = s.balance(s.r[2]);
    assert_eq!(r0 + r1 + r2, 10_001, "no dust must be lost");
    assert_eq!(r0, 5_001);
    assert_eq!(r1, 3_000);
    assert_eq!(r2, 2_000);
}

#[test]
fn test_rounding_large_remainder() {
    let mut client = fresh_contract();
    let mut tokens = TokenLedger::new();
    let (r0, r1) = (10, 11);
    client.initialize(&all(), ADMIN, TOKEN, vec![recip(r0, 3_333), recip(r1, 6_667)]).unwrap();
    let depositor = 12;
    tokens.mint(TOKEN, depositor, 10).unwrap();
    client.deposit(&all(), &mut tokens, depositor, 10).unwrap();
    client.distribute(&mut tokens).unwrap();
    let b0 = tokens.balance(TOKEN, r0);
    let b1 = tokens.balance(TOKEN, r1);
    assert_eq!(b0 + b1, 10, "no dust lost");
    assert_eq!(b0, 4);
    assert_eq!(b1, 6);
}

#[test]
fn test_admin_distribute_works() {
    let mut s = Setup::new();
    s.deposit(1_000);
    let total = s.client.admin_distribute(&all(), &mut s.tokens).unwrap();
    assert_eq!(total, 1_000);
    assert_eq!(s.client.get_pending(), Ok(0));
}

#[test]
fn test_admin_distribute_nothing_fails() {
    let mut s = Setup::new();
    let result = s.client.admin_distribute(&all(), &mut s.tokens);
    assert_eq!(result, Err(Failure::Contract(Error::NothingToDistribute)));
}

#[test]
fn test_non_admin_cannot_call_admin_distribute() {
    let mut s = Setup::new();
    s.deposit(1_000);
    let result = s.client.admin_distribute(&none(), &mut s.tokens);
    assert!(result.is_err());
}

#[test]
fn test_set_recipients_replaces_list() {
    let mut s = Setup::new();
    let new_list = vec![recip(200, 6_000), recip(201, 4_000)];
    s.client.set_recipients(&all(), &mut s.tokens, new_list).unwrap();
    let stored = s.client.get_recipients().unwrap();
    assert_eq!(stored.len(), 2);
    assert_eq!(stored[0].share_bps, 6_000);
    assert_eq!(stored[1].share_bps, 4_000);
}

#[test]
fn test_set_recipients_flushes_pending_first() {
    let mut s = Setup::new();
    s.deposit(10_000);
    s.client.set_recipients(&all(), &mut s.tokens, vec![recip(200, 10_000)]).unwrap();
    assert_eq!(s.client.get_pending(), Ok(0));
    assert_eq!(s.balance(s.r[0]), 5_000);
}

#[test]
fn test_set_recipients_invalid_shares_fails() {
    let mut s = Setup::new();
    let bad = vec![recip(200, 5_000), recip(201, 3_000)];
    let result = s.client.set_recipients(&all(), &mut s.tokens, bad);
    assert_eq!(result, Err(Failure::Contract(Error::InvalidShares)));
}

#[test]
fn test_set_recipients_empty_fails() {
    let mut s = Setup::new();
    let result = s.client.set_recipients(&all(), &mut s.tokens, vec![]);
    assert_eq!(result, Err(Failure::Contract(Error::EmptyRecipients)));
}

#[test]
fn test_non_admin_cannot_set_recipients() {
    let mut s = Setup::new();
    let result = s.client.set_recipients(&none(), &mut s.tokens, vec![recip(200, 10_000)]);
    assert!(result.is_err());
}

#[test]
fn test_set_recipients_emits_event() {
    let mut s = Setup::new();
    s.client.set_recipients(&all(), &mut s.tokens, vec![recip(200, 10_000)]).unwrap();
    assert!(s.client.events().iter().any(|e| matches!(e, FeeEvent::RecipientsUpdated { .. })));
}

#[test]
fn test_transfer_admin_changes_admin() {
    let mut s = Setup::new();
    s.client.transfer_admin(&all(), 300).unwrap();
    assert_eq!(s.client.get_admin(), Ok(300));
}

#[test]
fn test_non_admin_cannot_transfer_admin() {
    let mut s = Setup::new();
    let result = s.client.transfer_admin(&none(), 300);
    assert!(result.is_err());
}

#[test]
fn test_transfer_admin_emits_event() {
    let mut s = Setup::new();
    s.client.transfer_admin(&all(), 300).unwrap();
    assert!(s.client.events().iter().any(|e| matches!(e, FeeEvent::AdminTransferred { .. })));
}

#[test]
fn test_multiple_rounds_accumulate_correctly() {
    let mut s = Setup::new();
    s.deposit(10_000);
    s.distribute();
    s.deposit(5_000);
    s.distribute();
    assert_eq!(s.client.get_total_in(), Ok(15_000));
    assert_eq!(s.client.get_total_out(), Ok(15_000));
    assert_eq!(s.client.get_pending(), Ok(0));
    assert_eq!(s.balance(s.r[0]), 7_500);
    assert_eq!(s.balance(s.r[1]), 4_500);
    assert_eq!(s.balance(s.r[2]), 3_000);
}

#[test]
fn test_deposit_then_distribute_then_deposit_then_distribute() {
    let mut s = Setup::new();
    s.deposit(1_000);
    s.distribute();
    assert_eq!(s.client.get_pending(), Ok(0));
    s.deposit(2_000);
    assert_eq!(s.client.get_pending(), Ok(2_000));
    s.distribute();
    assert_eq!(s.client.get_pending(), Ok(0));
    assert_eq!(s.client.get_total_out(), Ok(3_000));
}

#[test]
fn test_views_before_init_return_not_initialized() {
    let client = fresh_contract();
    assert_eq!(client.get_pending(), Err(Error::NotInitialized));
    assert_eq!(client.get_total_in(), Err(Error::NotInitialized));
    assert_eq!(client.get_total_out(), Err(Error::NotInitialized));
    assert_eq!(client.get_recipients(), Err(Error::NotInitialized));
}

#[test]
fn fee_deposit_without_balance_is_refused_and_rolled_back() {
    let mut s = Setup::new();
    let depositor = s.fresh();
    let result = s.client.deposit(&all(), &mut s.tokens, depositor, 5);
    assert_eq!(
        result,
        Err(Failure::Aborted(Abort::Token(zaps::host::TokenError::InsufficientBalance)))
    );
    assert_eq!(s.client.get_pending(), Ok(0));
    assert_eq!(s.client.events().len(), 0);
}

#[test]
fn fee_deposit_without_signature_aborts() {
    let mut s = Setup::new();
    let depositor = s.fresh();
    s.tokens.mint(TOKEN, depositor, 10).unwrap();
    let result = s.client.deposit(&none(), &mut s.tokens, depositor, 5);
    assert_eq!(result, Err(Failure::Aborted(Abort::MissingAuth(depositor))));
    assert_eq!(s.balance(depositor), 10);
}

#[test]
fn fee_error_codes_match_contract() {
    assert_eq!(Error::AlreadyInitialized.code(), 1);
    assert_eq!(Error::NothingToDistribute.code(), 7);
    assert_eq!(Error::InvalidShareValue.code(), 9);
}
