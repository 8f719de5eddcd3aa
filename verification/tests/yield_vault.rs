use zaps::host::{Abort, CallContext, TokenLedger};
use zaps::yield_vault::{YieldEvent, YieldVaultContract, PRECISION};

const APY_BPS: u32 = 500;
const LEDGERS_PER_YEAR: u32 = 6_307_200;
const YIELD_TEST_LEDGERS: u32 = 100_000;
const DEPOSIT_AMOUNT: i128 = 10_000_000;
const CONTRACT: u64 = 1;
const OWNER: u64 = 2;
const DEPOSITOR: u64 = 3;
const TOKEN: u64 = 4;

struct Env {
    client: YieldVaultContract,
    tokens: TokenLedger,
    sequence: u32,
}

impl Env {
    fn ctx(&self) -> CallContext {
        CallContext::all_authorized(self.sequence)
    }

    fn advance_ledgers(&mut self, ledgers: u32) {
        self.sequence = self.sequence.saturating_add(ledgers);
    }

    fn deposit(&mut self, who: u64, amount: i128) {
        let ctx = self.ctx();
        self.client.deposit(&ctx, &mut self.tokens, who, amount).unwrap();
    }

    fn withdraw(&mut self, who: u64, shares: i128) {
        let ctx = self.ctx();
        self.client.withdraw(&ctx, &mut self.tokens, who, shares).unwrap();
    }

    fn yield_index(&self) -> i128 {
        self.client.yield_index(&self.ctx())
    }
}

fn setup() -> Env {
    let mut tokens = TokenLedger::new();
    tokens.mint(TOKEN, DEPOSITOR, DEPOSIT_AMOUNT).unwrap();
    let mut client = YieldVaultContract::new(CONTRACT);
    client.initialize(&CallContext::all_authorized(0), OWNER, TOKEN, APY_BPS).unwrap();
    Env { client, tokens, sequence: 0 }
}

#[test]
fn test_initialize_sets_defaults() {
    let env = setup();
    assert_eq!(env.client.total_shares(), 0);
    assert_eq!(env.client.total_assets(), 0);
    assert_eq!(env.yield_index(), PRECISION);
}

#[test]
fn test_deposit_mints_shares_at_initial_index() {
    let mut env = setup();
    let amount = 1_000_000i128;
    env.deposit(DEPOSITOR, amount);
    let expected_shares = amount * PRECISION / PRECISION;
    assert_eq!(env.client.shares_of(DEPOSITOR), expected_shares);
    assert_eq!(env.client.total_shares(), expected_shares);
    assert_eq!(env.client.total_assets(), amount);
    assert_eq!(env.client.mock_protocol_supplied_balance(), amount);
    assert_eq!(env.tokens.balance(TOKEN, CONTRACT), amount);
}

#[test]
fn test_withdraw_returns_principal_at_initial_index() {
    let mut env = setup();
    let amount = 1_000_000i128;
    env.deposit(DEPOSITOR, amount);
    let shares = env.client.shares_of(DEPOSITOR);
    env.withdraw(DEPOSITOR, shares);
    assert_eq!(env.client.shares_of(DEPOSITOR), 0);
    assert_eq!(env.client.total_shares(), 0);
    assert_eq!(env.client.total_assets(), 0);
    assert_eq!(env.tokens.balance(TOKEN, DEPOSITOR), DEPOSIT_AMOUNT);
}

#[test]
fn test_yield_index_increases_after_ledger_advance() {
    let mut env = setup();
    let index_before = env.yield_index();
    env.advance_ledgers(YIELD_TEST_LEDGERS);
    let index_after = env.yield_index();
    assert!(index_after > index_before, "yield index should grow after ledger advance");
    let expected = PRECISION
        + PRECISION * APY_BPS as i128 * YIELD_TEST_LEDGERS as i128
            / (10_000 * LEDGERS_PER_YEAR as i128);
    assert_eq!(index_after, expected);
}

#[test]
fn test_exchange_rate_scales_after_ledger_advance() {
    let mut env = setup();
    let amount = 1_000_000i128;
    env.deposit(DEPOSITOR, amount);
    let first_shares = env.client.shares_of(DEPOSITOR);
    env.advance_ledgers(YIELD_TEST_LEDGERS);
    let second_depositor = 9;
    env.tokens.mint(TOKEN, second_depositor, amount).unwrap();
    env.deposit(second_depositor, amount);
    let second_shares = env.client.shares_of(second_depositor);
    assert!(
        second_shares < first_shares,
        "later depositor should receive fewer shares at a higher exchange rate"
    );
    let index = env.yield_index();
    let assets_out = first_shares * index / PRECISION;
    assert!(
        assets_out > amount,
        "first depositor should be able to withdraw more than deposited after yield accrual"
    );
}

#[test]
fn test_deposit_withdraw_boundary_full_balance() {
    let mut env = setup();
    env.deposit(DEPOSITOR, DEPOSIT_AMOUNT);
    let shares = env.client.shares_of(DEPOSITOR);
    env.withdraw(DEPOSITOR, shares);
    assert_eq!(env.client.shares_of(DEPOSITOR), 0);
    assert_eq!(env.client.total_shares(), 0);
}

#[test]
fn test_partial_withdraw_leaves_remaining_shares() {
    let mut env = setup();
    let amount = 2_000_000i128;
    env.deposit(DEPOSITOR, amount);
    let total_shares = env.client.shares_of(DEPOSITOR);
    let half = total_shares / 2;
    env.withdraw(DEPOSITOR, half);
    assert_eq!(env.client.shares_of(DEPOSITOR), total_shares - half);
    assert!(env.client.total_assets() > 0);
}

#[test]
fn test_mock_protocol_owner_supply() {
    let mut env = setup();
    let ctx = env.ctx();
    env.client.mock_protocol_supply(&ctx, OWNER, 500).unwrap();
    assert_eq!(env.client.mock_protocol_supplied_balance(), 500);
}

#[test]
fn test_mock_protocol_rewards_accrue_over_time() {
    let mut env = setup();
    env.deposit(DEPOSITOR, 1_000_000);
    env.advance_ledgers(LEDGERS_PER_YEAR / 10);
    let ctx = env.ctx();
    let pending = env.client.mock_protocol_pending_rewards(&ctx);
    assert!(pending > 0, "mock protocol should accrue rewards over time");
    let claimed = env.client.mock_protocol_claim_rewards(&ctx, OWNER).unwrap();
    assert_eq!(claimed, pending);
    assert_eq!(env.client.mock_protocol_pending_rewards(&ctx), 0);
}

#[test]
fn vault_rejects_zero_amounts_and_strangers() {
    let mut env = setup();
    let ctx = env.ctx();
    assert_eq!(env.client.deposit(&ctx, &mut env.tokens, DEPOSITOR, 0), Err(Abort::NonPositiveAmount));
    assert_eq!(env.client.withdraw(&ctx, &mut env.tokens, DEPOSITOR, 0), Err(Abort::NonPositiveAmount));
    env.deposit(DEPOSITOR, 1_000_000);
    assert_eq!(
        env.client.withdraw(&ctx, &mut env.tokens, DEPOSITOR, 999_999_999),
        Err(Abort::InsufficientShares)
    );
    assert_eq!(env.client.mock_protocol_supply(&ctx, 77, 100), Err(Abort::OnlyOwner));
    assert_eq!(env.client.mock_protocol_redeem(&ctx, 77, 100), Err(Abort::OnlyOwner));
    assert_eq!(env.client.mock_protocol_claim_rewards(&ctx, 77), Err(Abort::OnlyOwner));
    assert_eq!(
        env.client.initialize(&ctx, OWNER, TOKEN, APY_BPS),
        Err(Abort::AlreadyInitialized)
    );
}

#[test]
fn vault_withdraw_after_yield_pays_more_and_logs_events() {
    let mut env = setup();
    env.deposit(DEPOSITOR, 5_000_000);
    let shares = env.client.shares_of(DEPOSITOR);
    env.advance_ledgers(YIELD_TEST_LEDGERS);
    let index = env.yield_index();
    env.tokens.mint(TOKEN, CONTRACT, 1_000_000).unwrap();
    let half = shares / 2;
    env.withdraw(DEPOSITOR, half);
    let withdrawn = env.tokens.balance(TOKEN, DEPOSITOR) - (DEPOSIT_AMOUNT - 5_000_000);
    assert_eq!(withdrawn, half * index / PRECISION);
    assert!(env.client.events().iter().any(|e| matches!(e, YieldEvent::Withdrawn { .. })));
    let ctx = env.ctx();
    assert_eq!(env.client.mock_protocol_redeem(&ctx, OWNER, 10), Ok(10));
}

#[test]
fn test_initialize_twice_panics() {
    let mut env = setup();
    let ctx = env.ctx();
    let res = env.client.initialize(&ctx, OWNER, TOKEN, APY_BPS);
    assert!(res.is_err(), "double initialization must fail");
}

#[test]
fn test_deposit_rejects_zero_amount() {
    let mut env = setup();
    let ctx = env.ctx();
    let res = env.client.deposit(&ctx, &mut env.tokens, DEPOSITOR, 0);
    assert!(res.is_err());
}

#[test]
fn test_withdraw_rejects_zero_shares() {
    let mut env = setup();
    let ctx = env.ctx();
    let res = env.client.withdraw(&ctx, &mut env.tokens, DEPOSITOR, 0);
    assert!(res.is_err());
}

#[test]
fn test_withdraw_rejects_insufficient_shares() {
    let mut env = setup();
    env.deposit(DEPOSITOR, 1_000_000);
    let ctx = env.ctx();
    let res = env.client.withdraw(&ctx, &mut env.tokens, DEPOSITOR, 999_999_999);
    assert!(res.is_err());
}

#[test]
fn test_mock_protocol_access_control_rejects_non_owner() {
    let mut env = setup();
    let ctx = env.ctx();
    let stranger = 99;
    assert!(env.client.mock_protocol_supply(&ctx, stranger, 100).is_err());
    assert!(env.client.mock_protocol_redeem(&ctx, stranger, 100).is_err());
    assert!(env.client.mock_protocol_claim_rewards(&ctx, stranger).is_err());
}
