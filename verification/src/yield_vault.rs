//! Yield vault contract.
//!
//! Depositors receive shares at the current yield index; the index grows
//! linearly with the APY and the ledgers elapsed since the last checkpoint,
//! so a share is redeemed later for more tokens. Deposited liquidity is routed
//! to a (mock) lending protocol that accrues its own rewards.
use crate::host::{after_transfer, transfer_allowed, transfer_refusal, Abort, Address, CallContext, TokenLedger};
use vstd::hash_map::HashMapWithView;
use vstd::prelude::*;

verus! {

/// Fixed-point scale of the yield index (1.0 is `PRECISION`).
pub const PRECISION: i128 = 100_000_000;

/// Ledgers per year, at about five seconds per ledger.
pub const LEDGERS_PER_YEAR: i128 = 6_307_200;

/// Annual reward rate of the mock lending protocol, in basis points.
pub const MOCK_PROTOCOL_REWARD_BPS: i128 = 650;

/// The events that the vault publishes.
#[derive(PartialEq, Eq, Structural, Clone, Copy, Debug)]
pub enum YieldEvent {
    /// `("Deposited",)`: depositor, amount, shares minted.
    Deposited { depositor: Address, amount: i128, shares: i128 },
    /// `("Withdrawn",)`: user, shares burned, tokens paid out.
    Withdrawn { user: Address, shares: i128, assets: i128 },
    /// `("MockSupply",)`: amount supplied, new supplied balance.
    MockSupply { amount: i128, balance: i128 },
    /// `("MockRedeem",)`: amount requested, amount redeemed, new balance.
    MockRedeem { requested: i128, redeemed: i128, balance: i128 },
    /// `("MockClaim",)`: rewards claimed.
    MockClaim { rewards: i128 },
}

/// The index after `delta` ledgers at `apy_bps`, by linear accrual.
pub open spec fn accrued_index(index: int, apy_bps: int, delta: int) -> int {
    index + index * apy_bps * delta / (10_000 * LEDGERS_PER_YEAR)
}

/// Rewards of the mock protocol on `balance` over `delta` ledgers.
pub open spec fn protocol_accrual(balance: int, delta: int) -> int {
    balance * MOCK_PROTOCOL_REWARD_BPS * delta / (10_000 * LEDGERS_PER_YEAR)
}

/// Shares minted for `amount` at `index`.
pub open spec fn shares_for(amount: int, index: int) -> int {
    amount * (PRECISION as int) / index
}

/// Tokens paid for `shares` at `index`.
pub open spec fn assets_for(shares: int, index: int) -> int {
    shares * index / (PRECISION as int)
}

/// The state of the mock lending protocol.
pub struct ProtocolView {
    pub balance: int,
    pub rewards: int,
    pub ledger: Option<u32>,
}

impl ProtocolView {
    /// The ledger of the last checkpoint (`now` when there was none).
    pub open spec fn last(self, now: u32) -> int {
        match self.ledger {
            Some(l) => l as int,
            None => now as int,
        }
    }

    /// Whether a checkpoint at `now` completes without overflow.
    pub open spec fn checkpoint_ok(self, now: u32) -> bool {
        let delta = now - self.last(now);
        &&& delta >= 0
        &&& (delta > 0 && self.balance > 0 ==> self.balance * MOCK_PROTOCOL_REWARD_BPS * delta
            <= i128::MAX && self.rewards + protocol_accrual(self.balance, delta) <= i128::MAX)
    }

    /// The protocol after a checkpoint at `now`.
    pub open spec fn checkpointed(self, now: u32) -> ProtocolView {
        let delta = now - self.last(now);
        ProtocolView {
            rewards: if delta > 0 && self.balance > 0 {
                self.rewards + protocol_accrual(self.balance, delta)
            } else {
                self.rewards
            },
            ledger: Some(now),
            ..self
        }
    }

    /// The rewards claimable at `now`.
    pub open spec fn pending(self, now: u32) -> int {
        let delta = now - self.last(now);
        if delta <= 0 || self.balance <= 0 {
            self.rewards
        } else {
            self.rewards + protocol_accrual(self.balance, delta)
        }
    }
}

/// The mock lending protocol that the vault supplies its liquidity to.
pub struct MockProtocol {
    balance: i128,
    rewards: i128,
    ledger: Option<u32>,
}

impl View for MockProtocol {
    type V = ProtocolView;

    closed spec fn view(&self) -> ProtocolView {
        ProtocolView { balance: self.balance as int, rewards: self.rewards as int, ledger: self.ledger }
    }
}

impl MockProtocol {
    /// Balances are never negative.
    pub open spec fn wf(&self) -> bool {
        self@.balance >= 0 && self@.rewards >= 0
    }

    /// The rewards after a checkpoint at `now`, or why it aborts.
    fn checkpoint_value(&self, now: u32) -> (r: Result<i128, Abort>)
        requires
            self.wf(),
        ensures
            r is Ok <==> self@.checkpoint_ok(now),
            r is Err ==> r == Err::<i128, Abort>(Abort::Overflow),
            r matches Ok(v) ==> v == self@.checkpointed(now).rewards,
    {
        let last = match self.ledger {
            Some(l) => l,
            None => now,
        };
        if now < last {
            return Err(Abort::Overflow);
        }
        let delta = (now - last) as i128;
        if delta > 0 && self.balance > 0 {
            let a = match self.balance.checked_mul(MOCK_PROTOCOL_REWARD_BPS) {
                Some(a) => a,
                None => {
                    assert(self.balance * MOCK_PROTOCOL_REWARD_BPS * delta > i128::MAX) by (nonlinear_arith)
                        requires self.balance * MOCK_PROTOCOL_REWARD_BPS > i128::MAX, delta >= 1;
                    return Err(Abort::Overflow);
                },
            };
            let b = match a.checked_mul(delta) {
                Some(b) => b,
                None => return Err(Abort::Overflow),
            };
            let accrued = b / (10_000 * LEDGERS_PER_YEAR);
            assert(accrued >= 0) by (nonlinear_arith)
                requires b >= 0, accrued as int == b as int / (10_000 * LEDGERS_PER_YEAR);
            if accrued > 0 {
                match self.rewards.checked_add(accrued) {
                    Some(v) => return Ok(v),
                    None => return Err(Abort::Overflow),
                }
            }
        }
        Ok(self.rewards)
    }

    /// Accrues rewards up to `now`.
    fn checkpoint(&mut self, now: u32) -> (r: Result<(), Abort>)
        requires
            old(self).wf(),
        ensures
            final(self).wf(),
            r is Ok <==> old(self)@.checkpoint_ok(now),
            r is Ok ==> final(self)@ == old(self)@.checkpointed(now),
            r is Err ==> r == Err::<(), Abort>(Abort::Overflow) && final(self)@ == old(self)@,
    {
        let v = self.checkpoint_value(now)?;
        self.rewards = v;
        self.ledger = Some(now);
        Ok(())
    }

    /// Supplies `amount` to the protocol (nothing for a non-positive amount).
    pub fn supply(&mut self, now: u32, amount: i128, events: &mut Vec<YieldEvent>) -> (r: Result<
        (),
        Abort,
    >)
        requires
            old(self).wf(),
        ensures
            final(self).wf(),
            r is Err ==> r == Err::<(), Abort>(Abort::Overflow) && final(self)@ == old(self)@
                && final(events)@ == old(events)@,
            amount <= 0 ==> r is Ok && final(self)@ == old(self)@ && final(events)@ == old(events)@,
            amount > 0 ==> (r is Ok <==> (old(self)@.checkpoint_ok(now) && old(self)@.balance
                + amount <= i128::MAX)),
            amount > 0 && r is Ok ==> final(self)@ == (ProtocolView {
                balance: old(self)@.balance + amount,
                ..old(self)@.checkpointed(now)
            }) && final(events)@ == old(events)@.push(
                YieldEvent::MockSupply {
                    amount,
                    balance: (old(self)@.balance + amount) as i128,
                },
            ),
    {
        if amount <= 0 {
            return Ok(());
        }
        let rewards = self.checkpoint_value(now)?;
        let balance = match self.balance.checked_add(amount) {
            Some(b) => b,
            None => return Err(Abort::Overflow),
        };
        self.rewards = rewards;
        self.ledger = Some(now);
        self.balance = balance;
        events.push(YieldEvent::MockSupply { amount, balance });
        Ok(())
    }

    /// Redeems up to `amount` from the protocol; returns what was redeemed.
    pub fn redeem(&mut self, now: u32, amount: i128, events: &mut Vec<YieldEvent>) -> (r: Result<
        i128,
        Abort,
    >)
        requires
            old(self).wf(),
        ensures
            final(self).wf(),
            r is Err ==> r == Err::<i128, Abort>(Abort::Overflow) && final(self)@ == old(self)@
                && final(events)@ == old(events)@,
            amount <= 0 ==> r == Ok::<i128, Abort>(0) && final(self)@ == old(self)@ && final(events)@ == old(events)@,
            amount > 0 ==> (r is Ok <==> old(self)@.checkpoint_ok(now)),
            amount > 0 && r is Ok ==> ({
                let redeemed = if amount > old(self)@.balance {
                    old(self)@.balance
                } else {
                    amount as int
                };
                &&& r == Ok::<i128, Abort>(redeemed as i128)
                &&& final(self)@ == (ProtocolView {
                    balance: old(self)@.balance - redeemed,
                    ..old(self)@.checkpointed(now)
                })
                &&& final(events)@ == old(events)@.push(
                    YieldEvent::MockRedeem {
                        requested: amount,
                        redeemed: redeemed as i128,
                        balance: (old(self)@.balance - redeemed) as i128,
                    },
                )
            }),
    {
        if amount <= 0 {
            return Ok(0);
        }
        self.checkpoint(now)?;
        let current = self.balance;
        let redeemed = if amount > current {
            current
        } else {
            amount
        };
        self.balance = current - redeemed;
        events.push(
            YieldEvent::MockRedeem { requested: amount, redeemed, balance: current - redeemed },
        );
        Ok(redeemed)
    }

    /// The rewards claimable at `now`.
    pub fn pending_rewards(&self, now: u32) -> (r: i128)
        requires
            self.wf(),
            self@.checkpoint_ok(now),
        ensures
            r == self@.pending(now),
    {
        let last = match self.ledger {
            Some(l) => l,
            None => now,
        };
        let delta = (now - last) as i128;
        if delta <= 0 || self.balance <= 0 {
            return self.rewards;
        }
        assert(self.balance * MOCK_PROTOCOL_REWARD_BPS <= i128::MAX) by (nonlinear_arith)
            requires
                self.balance * MOCK_PROTOCOL_REWARD_BPS * delta <= i128::MAX,
                delta >= 1,
                self.balance >= 0,
        ;
        let a = self.balance * MOCK_PROTOCOL_REWARD_BPS;
        assert(a * delta <= i128::MAX) by (nonlinear_arith)
            requires a == self.balance * MOCK_PROTOCOL_REWARD_BPS, self.balance * MOCK_PROTOCOL_REWARD_BPS * delta <= i128::MAX;
        let incremental = a * delta / (10_000 * LEDGERS_PER_YEAR);
        self.rewards + incremental
    }

    /// Claims every reward accrued up to `now`; returns the amount claimed.
    pub fn claim_rewards(&mut self, now: u32, events: &mut Vec<YieldEvent>) -> (r: Result<
        i128,
        Abort,
    >)
        requires
            old(self).wf(),
        ensures
            final(self).wf(),
            r is Ok <==> old(self)@.checkpoint_ok(now),
            r is Err ==> r == Err::<i128, Abort>(Abort::Overflow) && final(self)@ == old(self)@
                && final(events)@ == old(events)@,
            r is Ok ==> r == Ok::<i128, Abort>(old(self)@.checkpointed(now).rewards as i128)
                && final(self)@ == (ProtocolView { rewards: 0, ..old(self)@.checkpointed(now) })
                && final(events)@ == old(events)@.push(
                YieldEvent::MockClaim { rewards: old(self)@.checkpointed(now).rewards as i128 },
            ),
    {
        self.checkpoint(now)?;
        let rewards = self.rewards;
        self.rewards = 0;
        events.push(YieldEvent::MockClaim { rewards });
        Ok(rewards)
    }

    /// The amount currently supplied.
    pub fn supplied_balance(&self) -> (r: i128)
        ensures
            r == self@.balance,
    {
        self.balance
    }
}

/// The vault state as mathematical values.
pub struct YieldVaultView {
    pub contract: Address,
    pub initialized: bool,
    pub owner: Address,
    pub token: Address,
    pub apy_bps: u32,
    pub index: int,
    pub index_ledger: u32,
    pub total_shares: int,
    pub total_assets: int,
    pub protocol: ProtocolView,
    pub shares: Map<Address, i128>,
    pub events: Seq<YieldEvent>,
}

impl YieldVaultView {
    /// The invariant: the index never falls below 1.0 and no amount is negative.
    pub open spec fn wf(self) -> bool {
        &&& self.index >= PRECISION
        &&& self.index <= i128::MAX
        &&& self.total_shares >= 0
        &&& self.total_assets >= 0
        &&& self.protocol.balance >= 0
        &&& self.protocol.rewards >= 0
        &&& forall|u: Address| #[trigger] self.shares.contains_key(u) ==> self.shares[u] >= 0
    }

    /// The shares held by `user`.
    pub open spec fn shares_of(self, user: Address) -> int {
        if self.shares.contains_key(user) {
            self.shares[user] as int
        } else {
            0
        }
    }

    /// Whether the index can be computed at `sequence`.
    pub open spec fn index_ok(self, sequence: u32) -> bool {
        let delta = sequence - self.index_ledger;
        &&& delta >= 0
        &&& (delta != 0 && self.apy_bps != 0 ==> self.index * self.apy_bps * delta <= i128::MAX
            && accrued_index(self.index, self.apy_bps as int, delta) <= i128::MAX)
    }

    /// The yield index at `sequence`.
    pub open spec fn index_at(self, sequence: u32) -> int {
        let delta = sequence - self.index_ledger;
        if delta == 0 || self.apy_bps == 0 {
            self.index
        } else {
            accrued_index(self.index, self.apy_bps as int, delta)
        }
    }

    /// The vault with its index checkpointed at `sequence`.
    pub open spec fn checkpointed(self, sequence: u32) -> YieldVaultView {
        YieldVaultView { index: self.index_at(sequence), index_ledger: sequence, ..self }
    }
}

/// Every step of the index keeps it at least where it was: yield never
/// decreases the value of a share.
pub proof fn lemma_index_never_decreases(v: YieldVaultView, sequence: u32)
    requires
        v.wf(),
        v.index_ok(sequence),
    ensures
        v.index_at(sequence) >= v.index,
        v.index_at(sequence) <= i128::MAX,
{
    let delta = sequence - v.index_ledger;
    if !(delta == 0 || v.apy_bps == 0) {
        assert(v.index * v.apy_bps * delta / (10_000 * LEDGERS_PER_YEAR) >= 0) by (nonlinear_arith)
            requires
                v.index >= 0,
                v.apy_bps >= 0,
                delta >= 0,
        ;
    }
}

/// Depositing and then withdrawing every minted share at the same index
/// never pays out more than was deposited, and at the initial index it pays
/// back exactly the deposit.
pub proof fn lemma_round_trip_never_profits(amount: int, index: int)
    requires
        amount > 0,
        index >= PRECISION,
    ensures
        assets_for(shares_for(amount, index), index) <= amount,
        index == PRECISION ==> shares_for(amount, index) == amount && assets_for(
            shares_for(amount, index),
            index,
        ) == amount,
{
    let s = shares_for(amount, index);
    assert(s * index <= amount * PRECISION) by (nonlinear_arith)
        requires
            s == amount * (PRECISION as int) / index,
            index > 0,
            amount > 0,
    ;
    assert(s * index / (PRECISION as int) <= amount) by (nonlinear_arith)
        requires
            s * index <= amount * PRECISION,
            PRECISION > 0,
    ;
    if index == PRECISION {
        assert(amount * (PRECISION as int) / (PRECISION as int) == amount) by (nonlinear_arith)
            requires
                PRECISION > 0,
        ;
    }
}

/// The yield vault contract.
pub struct YieldVaultContract {
    contract: Address,
    initialized: bool,
    owner: Address,
    token: Address,
    apy_bps: u32,
    index: i128,
    index_ledger: u32,
    total_shares: i128,
    total_assets: i128,
    protocol: MockProtocol,
    shares: HashMapWithView<u64, i128>,
    events: Vec<YieldEvent>,
}

impl View for YieldVaultContract {
    type V = YieldVaultView;

    closed spec fn view(&self) -> YieldVaultView {
        YieldVaultView {
            contract: self.contract,
            initialized: self.initialized,
            owner: self.owner,
            token: self.token,
            apy_bps: self.apy_bps,
            index: self.index as int,
            index_ledger: self.index_ledger,
            total_shares: self.total_shares as int,
            total_assets: self.total_assets as int,
            protocol: self.protocol@,
            shares: self.shares@,
            events: self.events@,
        }
    }
}

impl YieldVaultContract {
    /// The vault deployed at `contract`, not yet initialised.
    pub fn new(contract: Address) -> (c: YieldVaultContract)
        ensures
            c@.wf(),
            !c@.initialized,
            c@.contract == contract,
            c@.index == PRECISION,
            c@.index_ledger == 0,
            c@.apy_bps == 0,
            c@.total_shares == 0 && c@.total_assets == 0,
            c@.protocol == (ProtocolView { balance: 0, rewards: 0, ledger: None }),
            c@.shares == Map::<Address, i128>::empty(),
            c@.events.len() == 0,
    {
        broadcast use vstd::std_specs::hash::group_hash_axioms;

        YieldVaultContract {
            contract,
            initialized: false,
            owner: 0,
            token: 0,
            apy_bps: 0,
            index: PRECISION,
            index_ledger: 0,
            total_shares: 0,
            total_assets: 0,
            protocol: MockProtocol { balance: 0, rewards: 0, ledger: None },
            shares: HashMapWithView::new(),
            events: Vec::new(),
        }
    }

    /// One-time initialiser: owner, deposit token and APY in basis points.
    pub fn initialize(&mut self, ctx: &CallContext, owner: Address, token: Address, apy_bps: u32) -> (r:
        Result<(), Abort>)
        requires
            old(self)@.wf(),
        ensures
            final(self)@.wf(),
            old(self)@.initialized ==> r == Err::<(), Abort>(Abort::AlreadyInitialized)
                && final(self)@ == old(self)@,
            !old(self)@.initialized ==> r is Ok && final(self)@ == (YieldVaultView {
                initialized: true,
                owner,
                token,
                apy_bps,
                index: PRECISION as int,
                index_ledger: ctx.sequence,
                total_shares: 0,
                total_assets: 0,
                protocol: ProtocolView { balance: 0, rewards: 0, ledger: Some(ctx.sequence) },
                ..old(self)@
            }),
    {
        if self.initialized {
            return Err(Abort::AlreadyInitialized);
        }
        self.initialized = true;
        self.owner = owner;
        self.token = token;
        self.apy_bps = apy_bps;
        self.index = PRECISION;
        self.index_ledger = ctx.sequence;
        self.total_shares = 0;
        self.total_assets = 0;
        self.protocol = MockProtocol { balance: 0, rewards: 0, ledger: Some(ctx.sequence) };
        Ok(())
    }

    /// The yield index at `sequence`, or why computing it aborts.
    fn index_value(&self, sequence: u32) -> (r: Result<i128, Abort>)
        requires
            self@.wf(),
        ensures
            r is Ok <==> self@.index_ok(sequence),
            r is Err ==> r == Err::<i128, Abort>(Abort::Overflow),
            r matches Ok(i) ==> i == self@.index_at(sequence),
    {
        if sequence < self.index_ledger {
            return Err(Abort::Overflow);
        }
        let delta = (sequence - self.index_ledger) as i128;
        if delta == 0 || self.apy_bps == 0 {
            return Ok(self.index);
        }
        let a = match self.index.checked_mul(self.apy_bps as i128) {
            Some(a) => a,
            None => {
                assert(self.index * self.apy_bps * delta > i128::MAX) by (nonlinear_arith)
                    requires self.index * self.apy_bps > i128::MAX, delta >= 1;
                return Err(Abort::Overflow);
            },
        };
        let b = match a.checked_mul(delta) {
            Some(b) => b,
            None => return Err(Abort::Overflow),
        };
        let accrued = b / (10_000 * LEDGERS_PER_YEAR);
        assert(accrued >= 0) by (nonlinear_arith)
            requires b >= 0, accrued as int == b as int / (10_000 * LEDGERS_PER_YEAR);
        match self.index.checked_add(accrued) {
            Some(v) => Ok(v),
            None => Err(Abort::Overflow),
        }
    }

    /// The current yield index.
    pub fn yield_index(&self, ctx: &CallContext) -> (r: i128)
        requires
            self@.wf(),
            self@.index_ok(ctx.sequence),
        ensures
            r == self@.index_at(ctx.sequence),
    {
        match self.index_value(ctx.sequence) {
            Ok(i) => i,
            Err(_) => 0,
        }
    }

    /// The shares held by `user`.
    pub fn shares_of(&self, user: Address) -> (r: i128)
        ensures
            r == self@.shares_of(user),
    {
        match self.shares.get(&user) {
            Some(s) => *s,
            None => 0,
        }
    }

    /// All shares outstanding.
    pub fn total_shares(&self) -> (r: i128)
        ensures
            r == self@.total_shares,
    {
        self.total_shares
    }

    /// All tokens deposited and not withdrawn.
    pub fn total_assets(&self) -> (r: i128)
        ensures
            r == self@.total_assets,
    {
        self.total_assets
    }

    /// The events published so far, oldest first.
    pub fn events(&self) -> (r: &Vec<YieldEvent>)
        ensures
            r@ == self@.events,
    {
        &self.events
    }

    /// Deposits `amount` tokens from `depositor` and mints shares at the
    /// current index: `amount * PRECISION / index`.
    pub fn deposit(
        &mut self,
        ctx: &CallContext,
        tokens: &mut TokenLedger,
        depositor: Address,
        amount: i128,
    ) -> (r: Result<(), Abort>)
        requires
            old(self)@.wf(),
        ensures
            final(self)@.wf(),
            r is Err ==> final(self)@ == old(self)@ && final(tokens)@ == old(tokens)@,
            ({
                let v = old(self)@;
                let seq = ctx.sequence;
                let i = v.index_at(seq);
                let p = v.protocol.checkpointed(seq);
                let minted = shares_for(amount as int, i);
                let us = v.shares_of(depositor);
                &&& !ctx.authorizes(depositor) ==> r == Err::<(), Abort>(
                    Abort::MissingAuth(depositor),
                )
                &&& ctx.authorizes(depositor) && amount <= 0 ==> r == Err::<(), Abort>(
                    Abort::NonPositiveAmount,
                )
                &&& ctx.authorizes(depositor) && amount > 0 && !v.index_ok(seq) ==> r == Err::<
                    (),
                    Abort,
                >(Abort::Overflow)
                &&& ctx.authorizes(depositor) && amount > 0 && v.index_ok(seq) && !v.initialized
                    ==> r == Err::<(), Abort>(Abort::NotInitialized)
                &&& ctx.authorizes(depositor) && amount > 0 && v.index_ok(seq) && v.initialized
                    && !transfer_allowed(old(tokens)@, v.token, depositor, v.contract, amount as int)
                    ==> r == Err::<(), Abort>(
                    Abort::Token(transfer_refusal(old(tokens)@, v.token, depositor, amount as int)),
                )
                &&& ctx.authorizes(depositor) && amount > 0 && v.index_ok(seq) && v.initialized
                    && transfer_allowed(old(tokens)@, v.token, depositor, v.contract, amount as int)
                    && v.protocol.checkpoint_ok(seq) && v.protocol.balance + amount <= i128::MAX
                    && amount * PRECISION <= i128::MAX && minted <= 0 ==> r == Err::<(), Abort>(
                    Abort::DepositTooSmall,
                )
                &&& r is Ok <==> (ctx.authorizes(depositor) && amount > 0 && v.index_ok(seq)
                    && v.initialized && transfer_allowed(
                    old(tokens)@,
                    v.token,
                    depositor,
                    v.contract,
                    amount as int,
                ) && v.protocol.checkpoint_ok(seq) && v.protocol.balance + amount <= i128::MAX
                    && amount * PRECISION <= i128::MAX && minted > 0 && us + minted <= i128::MAX
                    && v.total_shares + minted <= i128::MAX && v.total_assets + amount
                    <= i128::MAX)
                &&& r is Ok ==> final(tokens)@ == after_transfer(
                    old(tokens)@,
                    v.token,
                    depositor,
                    v.contract,
                    amount as int,
                ) && final(self)@ == (YieldVaultView {
                    index: i,
                    index_ledger: seq,
                    protocol: ProtocolView { balance: v.protocol.balance + amount, ..p },
                    shares: v.shares.insert(depositor, (us + minted) as i128),
                    total_shares: v.total_shares + minted,
                    total_assets: v.total_assets + amount,
                    events: v.events.push(
                        YieldEvent::MockSupply {
                            amount,
                            balance: (v.protocol.balance + amount) as i128,
                        },
                    ).push(
                        YieldEvent::Deposited { depositor, amount, shares: minted as i128 },
                    ),
                    ..v
                })
            }),
    {
        if !ctx.require_auth(depositor) {
            return Err(Abort::MissingAuth(depositor));
        }
        if amount <= 0 {
            return Err(Abort::NonPositiveAmount);
        }
        let index = self.index_value(ctx.sequence)?;
        if !self.initialized {
            return Err(Abort::NotInitialized);
        }
        match tokens.can_transfer(self.token, depositor, self.contract, amount) {
            Ok(()) => {},
            Err(e) => return Err(Abort::Token(e)),
        }
        let rewards = self.protocol.checkpoint_value(ctx.sequence)?;
        let supplied = match self.protocol.balance.checked_add(amount) {
            Some(b) => b,
            None => return Err(Abort::Overflow),
        };
        proof {
            lemma_index_never_decreases(self@, ctx.sequence);
        }
        let scaled = match amount.checked_mul(PRECISION) {
            Some(s) => s,
            None => return Err(Abort::Overflow),
        };
        let minted = scaled / index;
        if minted <= 0 {
            return Err(Abort::DepositTooSmall);
        }
        let prev = self.shares_of(depositor);
        let user_total = match prev.checked_add(minted) {
            Some(v) => v,
            None => return Err(Abort::Overflow),
        };
        let total_shares = match self.total_shares.checked_add(minted) {
            Some(v) => v,
            None => return Err(Abort::Overflow),
        };
        let total_assets = match self.total_assets.checked_add(amount) {
            Some(v) => v,
            None => return Err(Abort::Overflow),
        };
        let moved = tokens.transfer(self.token, depositor, self.contract, amount);
        assert(moved is Ok);
        self.index = index;
        self.index_ledger = ctx.sequence;
        self.protocol = MockProtocol { balance: supplied, rewards, ledger: Some(ctx.sequence) };
        self.events.push(YieldEvent::MockSupply { amount, balance: supplied });
        self.shares.insert(depositor, user_total);
        self.total_shares = total_shares;
        self.total_assets = total_assets;
        self.events.push(YieldEvent::Deposited { depositor, amount, shares: minted });
        Ok(())
    }

    /// Burns `shares` of `user` and pays out `shares * index / PRECISION`
    /// tokens (principal and yield).
    pub fn withdraw(&mut self, ctx: &CallContext, tokens: &mut TokenLedger, user: Address, shares: i128) -> (r:
        Result<(), Abort>)
        requires
            old(self)@.wf(),
        ensures
            final(self)@.wf(),
            r is Err ==> final(self)@ == old(self)@ && final(tokens)@ == old(tokens)@,
            ({
                let v = old(self)@;
                let seq = ctx.sequence;
                let i = v.index_at(seq);
                let p = v.protocol.checkpointed(seq);
                let assets = assets_for(shares as int, i);
                let us = v.shares_of(user);
                let redeemed = if assets > v.protocol.balance {
                    v.protocol.balance
                } else {
                    assets
                };
                &&& !ctx.authorizes(user) ==> r == Err::<(), Abort>(Abort::MissingAuth(user))
                &&& ctx.authorizes(user) && shares <= 0 ==> r == Err::<(), Abort>(
                    Abort::NonPositiveAmount,
                )
                &&& ctx.authorizes(user) && shares > 0 && !v.index_ok(seq) ==> r == Err::<
                    (),
                    Abort,
                >(Abort::Overflow)
                &&& ctx.authorizes(user) && shares > 0 && v.index_ok(seq) && us < shares ==> r
                    == Err::<(), Abort>(Abort::InsufficientShares)
                &&& ctx.authorizes(user) && shares > 0 && v.index_ok(seq) && us >= shares && shares
                    * i <= i128::MAX && assets <= 0 ==> r == Err::<(), Abort>(
                    Abort::WithdrawalTooSmall,
                )
                &&& r is Ok <==> (ctx.authorizes(user) && shares > 0 && v.index_ok(seq) && us
                    >= shares && shares * i <= i128::MAX && assets > 0 && v.protocol.checkpoint_ok(
                    seq,
                ) && v.initialized && transfer_allowed(
                    old(tokens)@,
                    v.token,
                    v.contract,
                    user,
                    assets,
                ))
                &&& r is Ok ==> final(tokens)@ == after_transfer(
                    old(tokens)@,
                    v.token,
                    v.contract,
                    user,
                    assets,
                ) && final(self)@ == (YieldVaultView {
                    index: i,
                    index_ledger: seq,
                    protocol: ProtocolView { balance: v.protocol.balance - redeemed, ..p },
                    shares: v.shares.insert(user, (us - shares) as i128),
                    total_shares: if v.total_shares - shares > 0 {
                        v.total_shares - shares
                    } else {
                        0
                    },
                    total_assets: if v.total_assets - assets > 0 {
                        v.total_assets - assets
                    } else {
                        0
                    },
                    events: v.events.push(
                        YieldEvent::MockRedeem {
                            requested: assets as i128,
                            redeemed: redeemed as i128,
                            balance: (v.protocol.balance - redeemed) as i128,
                        },
                    ).push(YieldEvent::Withdrawn { user, shares, assets: assets as i128 }),
                    ..v
                })
            }),
    {
        if !ctx.require_auth(user) {
            return Err(Abort::MissingAuth(user));
        }
        if shares <= 0 {
            return Err(Abort::NonPositiveAmount);
        }
        let index = self.index_value(ctx.sequence)?;
        let held = self.shares_of(user);
        if held < shares {
            return Err(Abort::InsufficientShares);
        }
        proof {
            lemma_index_never_decreases(self@, ctx.sequence);
        }
        let scaled = match shares.checked_mul(index) {
            Some(s) => s,
            None => return Err(Abort::Overflow),
        };
        let assets = scaled / PRECISION;
        if assets <= 0 {
            return Err(Abort::WithdrawalTooSmall);
        }
        self.protocol.checkpoint_value(ctx.sequence)?;
        if !self.initialized {
            return Err(Abort::NotInitialized);
        }
        match tokens.can_transfer(self.token, self.contract, user, assets) {
            Ok(()) => {},
            Err(e) => return Err(Abort::Token(e)),
        }
        let mut protocol_events: Vec<YieldEvent> = Vec::new();
        let redeemed = self.protocol.redeem(ctx.sequence, assets, &mut protocol_events);
        assert(redeemed is Ok);
        let ts = self.total_shares - shares;
        let ta = self.total_assets - assets;
        let moved = tokens.transfer(self.token, self.contract, user, assets);
        assert(moved is Ok);
        self.index = index;
        self.index_ledger = ctx.sequence;
        self.events.append(&mut protocol_events);
        self.shares.insert(user, held - shares);
        self.total_shares = if ts > 0 {
            ts
        } else {
            0
        };
        self.total_assets = if ta > 0 {
            ta
        } else {
            0
        };
        self.events.push(YieldEvent::Withdrawn { user, shares, assets });
        proof {
            let v = old(self)@;
            let seq = ctx.sequence;
            let redeemed_v = if assets > v.protocol.balance { v.protocol.balance } else { assets as int };
            assert(self@.protocol == ProtocolView { balance: v.protocol.balance - redeemed_v, ..v.protocol.checkpointed(seq) });
            assert(self@.shares == v.shares.insert(user, (v.shares_of(user) - shares) as i128));
            assert(self@.events == v.events.push(
                        YieldEvent::MockRedeem {
                            requested: assets as i128,
                            redeemed: redeemed_v as i128,
                            balance: (v.protocol.balance - redeemed_v) as i128,
                        },
                    ).push(YieldEvent::Withdrawn { user, shares, assets: assets as i128 }));
        }
        Ok(())
    }

    /// Fails unless the vault is initialised and `caller` is its owner.
    fn require_owner(&self, caller: Address) -> (r: Result<(), Abort>)
        ensures
            !self@.initialized ==> r == Err::<(), Abort>(Abort::NotInitialized),
            self@.initialized && caller != self@.owner ==> r == Err::<(), Abort>(Abort::OnlyOwner),
            r is Ok <==> self@.initialized && caller == self@.owner,
    {
        if !self.initialized {
            return Err(Abort::NotInitialized);
        }
        if caller != self.owner {
            return Err(Abort::OnlyOwner);
        }
        Ok(())
    }

    /// Supplies `amount` to the mock protocol (owner only).
    pub fn mock_protocol_supply(&mut self, ctx: &CallContext, caller: Address, amount: i128) -> (r:
        Result<(), Abort>)
        requires
            old(self)@.wf(),
        ensures
            final(self)@.wf(),
            r is Err ==> final(self)@ == old(self)@,
            !ctx.authorizes(caller) ==> r == Err::<(), Abort>(Abort::MissingAuth(caller)),
            ctx.authorizes(caller) && !old(self)@.initialized ==> r == Err::<(), Abort>(
                Abort::NotInitialized,
            ),
            ctx.authorizes(caller) && old(self)@.initialized && caller != old(self)@.owner ==> r
                == Err::<(), Abort>(Abort::OnlyOwner),
            ctx.authorizes(caller) && old(self)@.initialized && caller == old(self)@.owner && amount
                <= 0 ==> r == Err::<(), Abort>(Abort::NonPositiveAmount),
            r is Ok <==> (ctx.authorizes(caller) && old(self)@.initialized && caller == old(self)@.owner && amount > 0 && old(self)@.protocol.checkpoint_ok(ctx.sequence) && old(self)@.protocol.balance + amount <= i128::MAX),
            r is Ok ==> final(self)@ == (YieldVaultView {
                protocol: ProtocolView {
                    balance: old(self)@.protocol.balance + amount,
                    ..old(self)@.protocol.checkpointed(ctx.sequence)
                },
                events: old(self)@.events.push(
                    YieldEvent::MockSupply {
                        amount,
                        balance: (old(self)@.protocol.balance + amount) as i128,
                    },
                ),
                ..old(self)@
            }),
    {
        if !ctx.require_auth(caller) {
            return Err(Abort::MissingAuth(caller));
        }
        self.require_owner(caller)?;
        if amount <= 0 {
            return Err(Abort::NonPositiveAmount);
        }
        self.protocol.supply(ctx.sequence, amount, &mut self.events)
    }

    /// Redeems up to `amount` from the mock protocol (owner only).
    pub fn mock_protocol_redeem(&mut self, ctx: &CallContext, caller: Address, amount: i128) -> (r:
        Result<i128, Abort>)
        requires
            old(self)@.wf(),
        ensures
            final(self)@.wf(),
            r is Err ==> final(self)@ == old(self)@,
            !ctx.authorizes(caller) ==> r == Err::<i128, Abort>(Abort::MissingAuth(caller)),
            ctx.authorizes(caller) && !old(self)@.initialized ==> r == Err::<i128, Abort>(
                Abort::NotInitialized,
            ),
            ctx.authorizes(caller) && old(self)@.initialized && caller != old(self)@.owner ==> r
                == Err::<i128, Abort>(Abort::OnlyOwner),
            ctx.authorizes(caller) && old(self)@.initialized && caller == old(self)@.owner && amount
                <= 0 ==> r == Err::<i128, Abort>(Abort::NonPositiveAmount),
            r is Ok <==> (ctx.authorizes(caller) && old(self)@.initialized && caller == old(self)@.owner && amount > 0 && old(self)@.protocol.checkpoint_ok(ctx.sequence)),
            r is Ok ==> ({
                let b = old(self)@.protocol.balance;
                let redeemed = if amount > b {
                    b
                } else {
                    amount as int
                };
                &&& r == Ok::<i128, Abort>(redeemed as i128)
                &&& final(self)@ == (YieldVaultView {
                    protocol: ProtocolView {
                        balance: b - redeemed,
                        ..old(self)@.protocol.checkpointed(ctx.sequence)
                    },
                    events: old(self)@.events.push(
                        YieldEvent::MockRedeem {
                            requested: amount,
                            redeemed: redeemed as i128,
                            balance: (b - redeemed) as i128,
                        },
                    ),
                    ..old(self)@
                })
            }),
    {
        if !ctx.require_auth(caller) {
            return Err(Abort::MissingAuth(caller));
        }
        self.require_owner(caller)?;
        if amount <= 0 {
            return Err(Abort::NonPositiveAmount);
        }
        self.protocol.redeem(ctx.sequence, amount, &mut self.events)
    }

    /// The rewards that the mock protocol has accrued and not yet paid.
    pub fn mock_protocol_pending_rewards(&self, ctx: &CallContext) -> (r: i128)
        requires
            self@.wf(),
            self@.protocol.checkpoint_ok(ctx.sequence),
        ensures
            r == self@.protocol.pending(ctx.sequence),
    {
        self.protocol.pending_rewards(ctx.sequence)
    }

    /// Claims the rewards of the mock protocol (owner only).
    pub fn mock_protocol_claim_rewards(&mut self, ctx: &CallContext, caller: Address) -> (r: Result<
        i128,
        Abort,
    >)
        requires
            old(self)@.wf(),
        ensures
            final(self)@.wf(),
            r is Err ==> final(self)@ == old(self)@,
            !ctx.authorizes(caller) ==> r == Err::<i128, Abort>(Abort::MissingAuth(caller)),
            ctx.authorizes(caller) && !old(self)@.initialized ==> r == Err::<i128, Abort>(
                Abort::NotInitialized,
            ),
            ctx.authorizes(caller) && old(self)@.initialized && caller != old(self)@.owner ==> r
                == Err::<i128, Abort>(Abort::OnlyOwner),
            r is Ok <==> (ctx.authorizes(caller) && old(self)@.initialized && caller == old(self)@.owner && old(self)@.protocol.checkpoint_ok(ctx.sequence)),
            r is Ok ==> ({
                let p = old(self)@.protocol.checkpointed(ctx.sequence);
                &&& r == Ok::<i128, Abort>(p.rewards as i128)
                &&& final(self)@ == (YieldVaultView {
                    protocol: ProtocolView { rewards: 0, ..p },
                    events: old(self)@.events.push(YieldEvent::MockClaim { rewards: p.rewards as i128 }),
                    ..old(self)@
                })
            }),
    {
        if !ctx.require_auth(caller) {
            return Err(Abort::MissingAuth(caller));
        }
        self.require_owner(caller)?;
        self.protocol.claim_rewards(ctx.sequence, &mut self.events)
    }

    /// The amount supplied to the mock protocol.
    pub fn mock_protocol_supplied_balance(&self) -> (r: i128)
        ensures
            r == self@.protocol.balance,
    {
        self.protocol.supplied_balance()
    }
}

} // verus!
