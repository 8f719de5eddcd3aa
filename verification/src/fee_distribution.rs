//! Fee distribution contract.
//!
//! Collects fees from depositors and distributes them among a configurable set
//! of recipients by basis-point weights that always sum to 10 000. Each
//! recipient receives the floor of its share of the pending pool; the rounding
//! remainder goes to the first recipient, so nothing is ever lost. Only the
//! admin may replace the recipient list (pending fees are first distributed
//! under the old list) or hand over the admin role.
//!
//! A distribution runs to its end before any other call: the host executes
//! calls one after another and token transfers call back into no contract, so
//! no call can re-enter a distribution. The contract therefore needs no lock,
//! and `Error::Reentrant`, which the lock would report, is never returned.
use crate::host::{
    after_transfer, pay_all, pay_refusal, transfer_allowed, transfer_refusal, Abort, Address, CallContext, Failure,
    TokenLedger,
};
use vstd::prelude::*;

verus! {

/// Total basis points representing 100 %.
pub const BPS_TOTAL: u32 = 10_000;

/// A single fee recipient with a basis-point share.
#[derive(PartialEq, Eq, Structural, Clone, Copy, Debug)]
pub struct Recipient {
    pub address: Address,
    /// Share in basis points (1 to 10 000).
    pub share_bps: u32,
    /// Cumulative amount distributed to this recipient.
    pub total_received: i128,
}

/// The errors that the contract declares.
#[derive(PartialEq, Eq, Structural, Clone, Copy, Debug)]
pub enum Error {
    AlreadyInitialized,
    NotInitialized,
    Unauthorized,
    InvalidShares,
    EmptyRecipients,
    ZeroAmount,
    NothingToDistribute,
    Reentrant,
    InvalidShareValue,
}

impl Error {
    /// The numeric code under which the contract reports the error.
    pub open spec fn spec_code(self) -> u32 {
        match self {
            Error::AlreadyInitialized => 1,
            Error::NotInitialized => 2,
            Error::Unauthorized => 3,
            Error::InvalidShares => 4,
            Error::EmptyRecipients => 5,
            Error::ZeroAmount => 6,
            Error::NothingToDistribute => 7,
            Error::Reentrant => 8,
            Error::InvalidShareValue => 9,
        }
    }

    /// The numeric code under which the contract reports the error.
    pub fn code(&self) -> (c: u32)
        ensures
            c == self.spec_code(),
    {
        match self {
            Error::AlreadyInitialized => 1,
            Error::NotInitialized => 2,
            Error::Unauthorized => 3,
            Error::InvalidShares => 4,
            Error::EmptyRecipients => 5,
            Error::ZeroAmount => 6,
            Error::NothingToDistribute => 7,
            Error::Reentrant => 8,
            Error::InvalidShareValue => 9,
        }
    }
}

/// The events that the contract publishes.
#[derive(PartialEq, Eq, Structural, Clone, Copy, Debug)]
pub enum FeeEvent {
    /// `("fee_dist", "deposited")`: depositor, amount, new pending pool.
    Deposited { from: Address, amount: i128, pending: i128 },
    /// `("fee_dist", "distrib")`: amount distributed, number of recipients.
    Distributed { total: i128, recipients: u32 },
    /// `("fee_dist", "recips_up")`: size of the new recipient list.
    RecipientsUpdated { count: u32 },
    /// `("fee_dist", "adm_xfer")`: the new admin.
    AdminTransferred { new_admin: Address },
}

/// The sum of the shares of the first `k` recipients.
pub open spec fn share_sum(rs: Seq<Recipient>, k: int) -> int
    decreases k,
{
    if k <= 0 {
        0
    } else {
        share_sum(rs, k - 1) + rs[k - 1].share_bps
    }
}

/// Whether every share is in `1..=10_000` and the shares sum to 10 000.
pub open spec fn valid_recipients(rs: Seq<Recipient>) -> bool {
    &&& rs.len() > 0
    &&& forall|i: int| 0 <= i < rs.len() ==> 1 <= #[trigger] rs[i].share_bps <= BPS_TOTAL
    &&& share_sum(rs, rs.len() as int) == BPS_TOTAL
}

/// The error with which a recipient list is rejected, if any.
pub open spec fn recipients_error(rs: Seq<Recipient>) -> Option<Error> {
    if rs.len() == 0 {
        Some(Error::EmptyRecipients)
    } else if exists|i: int|
        0 <= i < rs.len() && !(1 <= #[trigger] rs[i].share_bps <= BPS_TOTAL) {
        Some(Error::InvalidShareValue)
    } else if share_sum(rs, rs.len() as int) != BPS_TOTAL {
        Some(Error::InvalidShares)
    } else {
        None
    }
}

/// The floor of `share_bps` basis points of `pending`.
pub open spec fn floor_share(pending: int, share_bps: u32) -> int {
    pending * share_bps / (BPS_TOTAL as int)
}

/// The sum of the floored shares of the first `k` recipients.
pub open spec fn floor_sum(pending: int, rs: Seq<Recipient>, k: int) -> int
    decreases k,
{
    if k <= 0 {
        0
    } else {
        floor_sum(pending, rs, k - 1) + floor_share(pending, rs[k - 1].share_bps)
    }
}

/// What integer division leaves undistributed.
pub open spec fn remainder(pending: int, rs: Seq<Recipient>) -> int {
    pending - floor_sum(pending, rs, rs.len() as int)
}

/// The amount paid to recipient `i`: its floored share, plus the remainder
/// for the first recipient.
pub open spec fn payout(pending: int, rs: Seq<Recipient>, i: int) -> int {
    floor_share(pending, rs[i].share_bps) + if i == 0 {
        remainder(pending, rs)
    } else {
        0
    }
}

/// The sum of the payouts to the first `k` recipients.
pub open spec fn payout_sum(pending: int, rs: Seq<Recipient>, k: int) -> int
    decreases k,
{
    if k <= 0 {
        0
    } else {
        payout_sum(pending, rs, k - 1) + payout(pending, rs, k - 1)
    }
}

/// The transfers of a distribution, in recipient order.
pub open spec fn transfers(pending: int, rs: Seq<Recipient>) -> Seq<(Address, i128)> {
    Seq::new(rs.len(), |i: int| (rs[i].address, payout(pending, rs, i) as i128))
}

/// The recipients with their payouts added to what they received.
pub open spec fn credited(pending: int, rs: Seq<Recipient>) -> Seq<Recipient> {
    Seq::new(
        rs.len(),
        |i: int|
            Recipient {
                address: rs[i].address,
                share_bps: rs[i].share_bps,
                total_received: (rs[i].total_received + payout(pending, rs, i)) as i128,
            },
    )
}

/// Whether computing some share of `pending` overflows `i128`.
pub open spec fn share_overflows(pending: int, rs: Seq<Recipient>) -> bool {
    exists|i: int| 0 <= i < rs.len() && pending * #[trigger] rs[i].share_bps > i128::MAX
}

/// Whether adding a payout to what a recipient received overflows `i128`.
pub open spec fn credit_overflows(pending: int, rs: Seq<Recipient>) -> bool {
    exists|i: int|
        0 <= i < rs.len() && #[trigger] rs[i].total_received + payout(pending, rs, i) > i128::MAX
}

/// The shares of a prefix never exceed the shares of the whole list.
proof fn lemma_share_sum_monotone(rs: Seq<Recipient>, j: int, k: int)
    requires
        0 <= j <= k <= rs.len(),
    ensures
        share_sum(rs, j) <= share_sum(rs, k),
    decreases k - j,
{
    if j < k {
        lemma_share_sum_monotone(rs, j, k - 1);
    }
}

/// Flooring loses less than one unit per recipient.
proof fn lemma_floor_sum_bounds(pending: int, rs: Seq<Recipient>, k: int)
    requires
        pending >= 0,
        0 <= k <= rs.len(),
    ensures
        BPS_TOTAL * floor_sum(pending, rs, k) <= pending * share_sum(rs, k),
        pending * share_sum(rs, k) <= BPS_TOTAL * floor_sum(pending, rs, k) + 9_999 * k,
        floor_sum(pending, rs, k) >= 0,
    decreases k,
{
    if k > 0 {
        lemma_floor_sum_bounds(pending, rs, k - 1);
        let s = rs[k - 1].share_bps as int;
        let f = floor_share(pending, rs[k - 1].share_bps);
        assert(pending * (share_sum(rs, k - 1) + s) == pending * share_sum(rs, k - 1) + pending
            * s) by (nonlinear_arith);
        assert(10_000 * f <= pending * s <= 10_000 * f + 9_999 && f >= 0) by (nonlinear_arith)
            requires
                f == pending * s / 10_000,
                pending >= 0,
                s >= 0,
        ;
    }
}

/// The payouts of the first `k` recipients, without the remainder.
proof fn lemma_payout_sum(pending: int, rs: Seq<Recipient>, k: int)
    requires
        1 <= k <= rs.len(),
    ensures
        payout_sum(pending, rs, k) == floor_sum(pending, rs, k) + remainder(pending, rs),
    decreases k,
{
    if k > 1 {
        lemma_payout_sum(pending, rs, k - 1);
    } else {
        assert(payout_sum(pending, rs, 0) == 0);
        assert(floor_sum(pending, rs, 0) == 0);
    }
}

/// A distribution pays out exactly the pending amount: every recipient after
/// the first gets the floor of its share, the first also gets the rounding
/// remainder, and that remainder is smaller than the number of recipients.
pub proof fn lemma_distribution_exact(pending: int, rs: Seq<Recipient>)
    requires
        pending >= 0,
        valid_recipients(rs),
    ensures
        payout_sum(pending, rs, rs.len() as int) == pending,
        0 <= remainder(pending, rs) < rs.len(),
        forall|i: int| 0 <= i < rs.len() ==> #[trigger] payout(pending, rs, i) >= 0,
        forall|i: int|
            1 <= i < rs.len() ==> #[trigger] payout(pending, rs, i) == pending * rs[i].share_bps
                / 10_000,
        forall|i: int| 0 <= i < rs.len() ==> #[trigger] payout(pending, rs, i) <= pending,
{
    let n = rs.len() as int;
    lemma_floor_sum_bounds(pending, rs, n);
    lemma_payout_sum(pending, rs, n);
    assert(floor_sum(pending, rs, n) <= pending) by (nonlinear_arith)
        requires
            10_000 * floor_sum(pending, rs, n) <= pending * 10_000,
    ;
    assert(pending - floor_sum(pending, rs, n) < n) by (nonlinear_arith)
        requires
            pending * 10_000 <= 10_000 * floor_sum(pending, rs, n) + 9_999 * n,
            n >= 1,
    ;
    assert forall|i: int| 0 <= i < rs.len() implies #[trigger] payout(pending, rs, i) >= 0
        && payout(pending, rs, i) <= pending by {
        let s = rs[i].share_bps as int;
        assert(0 <= pending * s / 10_000 <= pending) by (nonlinear_arith)
            requires
                pending >= 0,
                0 <= s <= 10_000,
        ;
        lemma_floor_sum_prefix(pending, rs, i);
    }
}

/// A single floored share never exceeds the total of the floored shares.
proof fn lemma_floor_sum_prefix(pending: int, rs: Seq<Recipient>, i: int)
    requires
        pending >= 0,
        0 <= i < rs.len(),
    ensures
        floor_share(pending, rs[i].share_bps) <= floor_sum(pending, rs, rs.len() as int),
{
    lemma_floor_sum_upto(pending, rs, i + 1, rs.len() as int);
    lemma_floor_sum_bounds(pending, rs, i);
}

/// The floored sums grow with the prefix.
proof fn lemma_floor_sum_upto(pending: int, rs: Seq<Recipient>, j: int, k: int)
    requires
        pending >= 0,
        0 <= j <= k <= rs.len(),
    ensures
        floor_sum(pending, rs, j) <= floor_sum(pending, rs, k),
    decreases k - j,
{
    if j < k {
        lemma_floor_sum_upto(pending, rs, j, k - 1);
        let s = rs[k - 1].share_bps as int;
        assert(pending * s / 10_000 >= 0) by (nonlinear_arith)
            requires
                pending >= 0,
                s >= 0,
        ;
    }
}

/// What the contract state holds, as mathematical values.
pub struct FeeDistributionView {
    pub contract: Address,
    pub initialized: bool,
    pub admin: Address,
    pub token: Address,
    pub recipients: Seq<Recipient>,
    pub pending: int,
    pub total_in: int,
    pub total_out: int,
    pub events: Seq<FeeEvent>,
}

impl FeeDistributionView {
    /// The invariant of the contract: once initialised, the shares are valid,
    /// and every fee deposited has either been distributed or is pending.
    pub open spec fn wf(self) -> bool {
        &&& self.pending >= 0
        &&& self.total_out >= 0
        &&& self.total_in == self.total_out + self.pending
        &&& self.total_in <= i128::MAX
        &&& (self.initialized ==> valid_recipients(self.recipients))
        &&& (!self.initialized ==> self.total_in == 0)
    }

    /// The state after the pending pool has been distributed.
    pub open spec fn after_distribution(self) -> FeeDistributionView {
        FeeDistributionView {
            recipients: credited(self.pending, self.recipients),
            pending: 0,
            total_out: self.total_out + self.pending,
            events: self.events.push(
                FeeEvent::Distributed {
                    total: self.pending as i128,
                    recipients: self.recipients.len() as u32,
                },
            ),
            ..self
        }
    }

    /// Whether the distribution aborts on an overflow.
    pub open spec fn distribution_overflows(self) -> bool {
        share_overflows(self.pending, self.recipients) || credit_overflows(
            self.pending,
            self.recipients,
        )
    }

    /// The token transfers of a distribution.
    pub open spec fn distribution_transfers(self) -> Seq<(Address, i128)> {
        transfers(self.pending, self.recipients)
    }
}

/// The fee distribution contract.
pub struct FeeDistribution {
    contract: Address,
    initialized: bool,
    admin: Address,
    token: Address,
    recipients: Vec<Recipient>,
    pending: i128,
    total_in: i128,
    total_out: i128,
    events: Vec<FeeEvent>,
}

impl View for FeeDistribution {
    type V = FeeDistributionView;

    closed spec fn view(&self) -> FeeDistributionView {
        FeeDistributionView {
            contract: self.contract,
            initialized: self.initialized,
            admin: self.admin,
            token: self.token,
            recipients: self.recipients@,
            pending: self.pending as int,
            total_in: self.total_in as int,
            total_out: self.total_out as int,
            events: self.events@,
        }
    }
}

impl FeeDistribution {
    /// The contract deployed at `contract`, not yet initialised.
    pub fn new(contract: Address) -> (c: FeeDistribution)
        ensures
            c@.contract == contract,
            !c@.initialized,
            c@.pending == 0 && c@.total_in == 0 && c@.total_out == 0,
            c@.recipients.len() == 0,
            c@.events.len() == 0,
            c@.wf(),
    {
        FeeDistribution {
            contract,
            initialized: false,
            admin: 0,
            token: 0,
            recipients: Vec::new(),
            pending: 0,
            total_in: 0,
            total_out: 0,
            events: Vec::new(),
        }
    }

    /// Checks a recipient list: non-empty, every share in `1..=10_000`, and
    /// the shares summing to exactly 10 000.
    pub fn validate_recipients(recipients: &Vec<Recipient>) -> (r: Result<(), Error>)
        ensures
            r is Ok <==> valid_recipients(recipients@),
            r is Err ==> r == Err::<(), Error>(recipients_error(recipients@)->0),
            recipients_error(recipients@) is None <==> valid_recipients(recipients@),
    {
        let rs = Ghost(recipients@);
        if recipients.len() == 0 {
            return Err(Error::EmptyRecipients);
        }
        let mut total: u32 = 0;
        let mut i: usize = 0;
        while i < recipients.len()
            invariant
                i <= recipients.len(),
                rs@ == recipients@,
                forall|j: int| 0 <= j < i ==> 1 <= #[trigger] recipients@[j].share_bps <= BPS_TOTAL,
                (total == share_sum(recipients@, i as int)) || (total > BPS_TOTAL && share_sum(
                    recipients@,
                    i as int,
                ) > BPS_TOTAL),
            decreases recipients.len() - i,
        {
            let share = recipients[i].share_bps;
            if share == 0 || share > BPS_TOTAL {
                assert(!(1 <= recipients@[i as int].share_bps <= BPS_TOTAL));
                return Err(Error::InvalidShareValue);
            }
            let prev = Ghost(share_sum(recipients@, i as int));
            total = total.checked_add(share).unwrap_or(BPS_TOTAL + 1);
            assert(share_sum(recipients@, i + 1) == prev@ + share);
            i = i + 1;
        }
        if total != BPS_TOTAL {
            return Err(Error::InvalidShares);
        }
        Ok(())
    }

    /// The recipient payouts, with the checks that the contract makes before
    /// moving anything.
    fn plan_distribution(&self) -> (r: Result<(Vec<(Address, i128)>, Vec<Recipient>), Abort>)
        requires
            self@.wf(),
            self@.initialized,
            self@.pending > 0,
        ensures
            r is Ok <==> !self@.distribution_overflows(),
            r is Err ==> r == Err::<(Vec<(Address, i128)>, Vec<Recipient>), Abort>(
                Abort::Overflow,
            ),
            r matches Ok((t, c)) ==> t@ == self@.distribution_transfers() && c@ == credited(
                self@.pending,
                self@.recipients,
            ),
    {
        let pending = self.pending;
        let ghost rs = self@.recipients;
        let n = self.recipients.len();
        proof {
            lemma_distribution_exact(pending as int, rs);
            lemma_floor_sum_bounds(pending as int, rs, n as int);
        }
        let mut amounts: Vec<i128> = Vec::new();
        let mut distributed: i128 = 0;
        let mut i: usize = 0;
        while i < n
            invariant
                n == rs.len(),
                rs == self@.recipients,
                self@.wf(),
                self@.initialized,
                pending == self@.pending,
                pending > 0,
                i <= n,
                amounts@.len() == i,
                forall|j: int| 0 <= j < i ==> #[trigger] amounts@[j] == floor_share(pending as int, rs[j].share_bps),
                forall|j: int| 0 <= j < i ==> pending * #[trigger] rs[j].share_bps <= i128::MAX,
                distributed == floor_sum(pending as int, rs, i as int),
            decreases n - i,
        {
            let share = self.recipients[i].share_bps;
            let prod = match pending.checked_mul(share as i128) {
                Some(p) => p,
                None => {
                    assert(pending * rs[i as int].share_bps > i128::MAX);
                    return Err(Abort::Overflow);
                },
            };
            let amt = prod / 10_000;
            proof {
                lemma_floor_sum_upto(pending as int, rs, i + 1, n as int);
                lemma_floor_sum_bounds(pending as int, rs, n as int);
                assert(floor_sum(pending as int, rs, n as int) <= pending) by (nonlinear_arith)
                    requires
                        10_000 * floor_sum(pending as int, rs, n as int) <= pending * 10_000,
                ;
            }
            amounts.push(amt);
            distributed = distributed + amt;
            i = i + 1;
        }
        assert(!share_overflows(pending as int, rs));
        let rem = pending - distributed;
        let mut payouts: Vec<(Address, i128)> = Vec::new();
        let mut updated: Vec<Recipient> = Vec::new();
        let mut k: usize = 0;
        while k < n
            invariant
                n == rs.len(),
                rs == self@.recipients,
                pending == self@.pending,
                pending > 0,
                valid_recipients(rs),
                k <= n,
                amounts@.len() == n,
                forall|j: int| 0 <= j < n ==> #[trigger] amounts@[j] == floor_share(pending as int, rs[j].share_bps),
                rem == remainder(pending as int, rs),
                payouts@.len() == k,
                updated@.len() == k,
                forall|j: int| 0 <= j < k ==> #[trigger] payouts@[j] == transfers(pending as int, rs)[j],
                forall|j: int| 0 <= j < k ==> #[trigger] updated@[j] == credited(pending as int, rs)[j],
                forall|j: int| 0 <= j < k ==> #[trigger] rs[j].total_received + payout(pending as int, rs, j) <= i128::MAX,
            decreases n - k,
        {
            let extra: i128 = if k == 0 {
                rem
            } else {
                0
            };
            proof {
                lemma_distribution_exact(pending as int, rs);
                assert(payout(pending as int, rs, k as int) == amounts@[k as int] + extra);
            }
            let pay = amounts[k] + extra;
            let r = self.recipients[k];
            let received = match r.total_received.checked_add(pay) {
                Some(v) => v,
                None => {
                    assert(rs[k as int].total_received + payout(pending as int, rs, k as int) > i128::MAX);
                    return Err(Abort::Overflow);
                },
            };
            payouts.push((r.address, pay));
            updated.push(Recipient { address: r.address, share_bps: r.share_bps, total_received: received });
            k = k + 1;
        }
        assert(!credit_overflows(pending as int, rs));
        assert(payouts@ =~= transfers(pending as int, rs));
        assert(updated@ =~= credited(pending as int, rs));
        Ok((payouts, updated))
    }

    /// Distributes the whole pending pool; shared by every entry point that
    /// triggers a distribution.
    fn do_distribute(&mut self, tokens: &mut TokenLedger) -> (r: Result<i128, Failure<Error>>)
        requires
            old(self)@.wf(),
            old(self)@.initialized,
        ensures
            final(self)@.wf(),
            r is Err ==> final(self)@ == old(self)@ && final(tokens)@ == old(tokens)@,
            old(self)@.pending == 0 ==> r == Err::<i128, Failure<Error>>(
                Failure::Contract(Error::NothingToDistribute),
            ),
            old(self)@.pending > 0 && old(self)@.distribution_overflows() ==> r == Err::<
                i128,
                Failure<Error>,
            >(Failure::Aborted(Abort::Overflow)),
            old(self)@.pending > 0 && !old(self)@.distribution_overflows() ==> (r is Ok <==> pay_all(
                old(tokens)@,
                old(self)@.token,
                old(self)@.contract,
                old(self)@.distribution_transfers(),
            ) is Some),
            old(self)@.pending > 0 && !old(self)@.distribution_overflows() && r is Err ==> r == Err::<i128, Failure<Error>>(
                Failure::Aborted(
                    Abort::Token(
                        pay_refusal(
                            old(tokens)@,
                            old(self)@.token,
                            old(self)@.contract,
                            old(self)@.distribution_transfers(),
                        ),
                    ),
                ),
            ),
            r is Ok ==> r == Ok::<i128, Failure<Error>>(old(self)@.pending as i128) && final(self)@
                == old(self)@.after_distribution() && final(tokens)@ == pay_all(
                old(tokens)@,
                old(self)@.token,
                old(self)@.contract,
                old(self)@.distribution_transfers(),
            )->0,
    {
        if self.pending == 0 {
            return Err(Failure::Contract(Error::NothingToDistribute));
        }
        let (payouts, updated) = match self.plan_distribution() {
            Ok(p) => p,
            Err(a) => return Err(Failure::Aborted(a)),
        };
        match tokens.pay_out(self.token, self.contract, &payouts) {
            Ok(()) => {},
            Err(e) => return Err(Failure::Aborted(Abort::Token(e))),
        }
        let pending = self.pending;
        let n = self.recipients.len();
        proof {
            lemma_distribution_exact(pending as int, self@.recipients);
        }
        self.recipients = updated;
        self.total_out = self.total_out + pending;
        self.pending = 0;
        self.events.push(FeeEvent::Distributed { total: pending, recipients: n as u32 });
        proof {
            assert(forall|i: int| 0 <= i < self@.recipients.len() ==> #[trigger] self@.recipients[i].share_bps == old(self)@.recipients[i].share_bps);
            lemma_share_sum_same(old(self)@.recipients, self@.recipients, n as int);
        }
        Ok(pending)
    }

    /// Initialises the contract with its admin, token and recipient list.
    pub fn initialize(
        &mut self,
        ctx: &CallContext,
        admin: Address,
        token: Address,
        recipients: Vec<Recipient>,
    ) -> (r: Result<(), Failure<Error>>)
        requires
            old(self)@.wf(),
        ensures
            final(self)@.wf(),
            r is Err ==> final(self)@ == old(self)@,
            old(self)@.initialized ==> r == Err::<(), Failure<Error>>(
                Failure::Contract(Error::AlreadyInitialized),
            ),
            !old(self)@.initialized && !ctx.authorizes(admin) ==> r == Err::<(), Failure<Error>>(
                Failure::Aborted(Abort::MissingAuth(admin)),
            ),
            !old(self)@.initialized && ctx.authorizes(admin) && recipients_error(recipients@) is Some
                ==> r == Err::<(), Failure<Error>>(
                Failure::Contract(recipients_error(recipients@)->0),
            ),
            r is Ok <==> (!old(self)@.initialized && ctx.authorizes(admin) && valid_recipients(
                recipients@,
            )),
            r is Ok ==> final(self)@ == (FeeDistributionView {
                initialized: true,
                admin,
                token,
                recipients: recipients@,
                pending: 0,
                total_in: 0,
                total_out: 0,
                ..old(self)@
            }),
    {
        if self.initialized {
            return Err(Failure::Contract(Error::AlreadyInitialized));
        }
        if !ctx.require_auth(admin) {
            return Err(Failure::Aborted(Abort::MissingAuth(admin)));
        }
        match Self::validate_recipients(&recipients) {
            Ok(()) => {},
            Err(e) => return Err(Failure::Contract(e)),
        }
        self.admin = admin;
        self.token = token;
        self.recipients = recipients;
        self.pending = 0;
        self.total_in = 0;
        self.total_out = 0;
        self.initialized = true;
        Ok(())
    }

    /// Deposits `amount` tokens from `from` into the pending pool.
    pub fn deposit(
        &mut self,
        ctx: &CallContext,
        tokens: &mut TokenLedger,
        from: Address,
        amount: i128,
    ) -> (r: Result<(), Failure<Error>>)
        requires
            old(self)@.wf(),
        ensures
            final(self)@.wf(),
            r is Err ==> final(self)@ == old(self)@ && final(tokens)@ == old(tokens)@,
            !ctx.authorizes(from) ==> r == Err::<(), Failure<Error>>(
                Failure::Aborted(Abort::MissingAuth(from)),
            ),
            ctx.authorizes(from) && amount <= 0 ==> r == Err::<(), Failure<Error>>(
                Failure::Contract(Error::ZeroAmount),
            ),
            ctx.authorizes(from) && amount > 0 && !old(self)@.initialized ==> r == Err::<
                (),
                Failure<Error>,
            >(Failure::Contract(Error::NotInitialized)),
            ctx.authorizes(from) && amount > 0 && old(self)@.initialized && !transfer_allowed(
                old(tokens)@,
                old(self)@.token,
                from,
                old(self)@.contract,
                amount as int,
            ) ==> r == Err::<(), Failure<Error>>(
                Failure::Aborted(
                    Abort::Token(
                        transfer_refusal(old(tokens)@, old(self)@.token, from, amount as int),
                    ),
                ),
            ),
            ctx.authorizes(from) && amount > 0 && old(self)@.initialized && transfer_allowed(
                old(tokens)@,
                old(self)@.token,
                from,
                old(self)@.contract,
                amount as int,
            ) && old(self)@.total_in + amount > i128::MAX ==> r == Err::<(), Failure<Error>>(
                Failure::Aborted(Abort::Overflow),
            ),
            r is Ok <==> (ctx.authorizes(from) && amount > 0 && old(self)@.initialized
                && transfer_allowed(
                old(tokens)@,
                old(self)@.token,
                from,
                old(self)@.contract,
                amount as int,
            ) && old(self)@.total_in + amount <= i128::MAX),
            r is Ok ==> final(tokens)@ == after_transfer(
                old(tokens)@,
                old(self)@.token,
                from,
                old(self)@.contract,
                amount as int,
            ) && final(self)@ == (FeeDistributionView {
                pending: old(self)@.pending + amount,
                total_in: old(self)@.total_in + amount,
                events: old(self)@.events.push(
                    FeeEvent::Deposited {
                        from,
                        amount,
                        pending: (old(self)@.pending + amount) as i128,
                    },
                ),
                ..old(self)@
            }),
    {
        if !ctx.require_auth(from) {
            return Err(Failure::Aborted(Abort::MissingAuth(from)));
        }
        if amount <= 0 {
            return Err(Failure::Contract(Error::ZeroAmount));
        }
        if !self.initialized {
            return Err(Failure::Contract(Error::NotInitialized));
        }
        match tokens.can_transfer(self.token, from, self.contract, amount) {
            Ok(()) => {},
            Err(e) => return Err(Failure::Aborted(Abort::Token(e))),
        }
        let total_in = match self.total_in.checked_add(amount) {
            Some(v) => v,
            None => return Err(Failure::Aborted(Abort::Overflow)),
        };
        let moved = tokens.transfer(self.token, from, self.contract, amount);
        assert(moved is Ok);
        let pending = self.pending + amount;
        self.pending = pending;
        self.total_in = total_in;
        self.events.push(FeeEvent::Deposited { from, amount, pending });
        Ok(())
    }

    /// Distributes all pending fees; anyone may call it. Returns the amount
    /// distributed.
    pub fn distribute(&mut self, tokens: &mut TokenLedger) -> (r: Result<i128, Failure<Error>>)
        requires
            old(self)@.wf(),
        ensures
            final(self)@.wf(),
            r is Err ==> final(self)@ == old(self)@ && final(tokens)@ == old(tokens)@,
            !old(self)@.initialized ==> r == Err::<i128, Failure<Error>>(
                Failure::Contract(Error::NotInitialized),
            ),
            old(self)@.initialized && old(self)@.pending == 0 ==> r == Err::<i128, Failure<Error>>(
                Failure::Contract(Error::NothingToDistribute),
            ),
            old(self)@.initialized && old(self)@.pending > 0 && old(self)@.distribution_overflows()
                ==> r == Err::<i128, Failure<Error>>(Failure::Aborted(Abort::Overflow)),
            r is Ok <==> (old(self)@.initialized && old(self)@.pending > 0
                && !old(self)@.distribution_overflows() && pay_all(
                old(tokens)@,
                old(self)@.token,
                old(self)@.contract,
                old(self)@.distribution_transfers(),
            ) is Some),
            old(self)@.initialized && old(self)@.pending > 0 && !old(self)@.distribution_overflows() && r is Err ==> r == Err::<i128, Failure<Error>>(
                Failure::Aborted(
                    Abort::Token(
                        pay_refusal(
                            old(tokens)@,
                            old(self)@.token,
                            old(self)@.contract,
                            old(self)@.distribution_transfers(),
                        ),
                    ),
                ),
            ),
            r is Ok ==> r == Ok::<i128, Failure<Error>>(old(self)@.pending as i128) && final(self)@
                == old(self)@.after_distribution() && final(tokens)@ == pay_all(
                old(tokens)@,
                old(self)@.token,
                old(self)@.contract,
                old(self)@.distribution_transfers(),
            )->0,
    {
        if !self.initialized {
            return Err(Failure::Contract(Error::NotInitialized));
        }
        self.do_distribute(tokens)
    }

    /// Admin-gated distribution (same logic as `distribute`).
    pub fn admin_distribute(&mut self, ctx: &CallContext, tokens: &mut TokenLedger) -> (r: Result<
        i128,
        Failure<Error>,
    >)
        requires
            old(self)@.wf(),
        ensures
            final(self)@.wf(),
            r is Err ==> final(self)@ == old(self)@ && final(tokens)@ == old(tokens)@,
            !old(self)@.initialized ==> r == Err::<i128, Failure<Error>>(
                Failure::Contract(Error::NotInitialized),
            ),
            old(self)@.initialized && !ctx.authorizes(old(self)@.admin) ==> r == Err::<
                i128,
                Failure<Error>,
            >(Failure::Aborted(Abort::MissingAuth(old(self)@.admin))),
            old(self)@.initialized && ctx.authorizes(old(self)@.admin) && old(self)@.pending == 0
                ==> r == Err::<i128, Failure<Error>>(Failure::Contract(Error::NothingToDistribute)),
            old(self)@.initialized && ctx.authorizes(old(self)@.admin) && old(self)@.pending > 0
                && old(self)@.distribution_overflows() ==> r == Err::<i128, Failure<Error>>(
                Failure::Aborted(Abort::Overflow),
            ),
            r is Ok <==> (old(self)@.initialized && ctx.authorizes(old(self)@.admin)
                && old(self)@.pending > 0 && !old(self)@.distribution_overflows() && pay_all(
                old(tokens)@,
                old(self)@.token,
                old(self)@.contract,
                old(self)@.distribution_transfers(),
            ) is Some),
            old(self)@.initialized && ctx.authorizes(old(self)@.admin) && old(self)@.pending > 0
                && !old(self)@.distribution_overflows() && r is Err ==> r == Err::<
                i128,
                Failure<Error>,
            >(
                Failure::Aborted(
                    Abort::Token(
                        pay_refusal(
                            old(tokens)@,
                            old(self)@.token,
                            old(self)@.contract,
                            old(self)@.distribution_transfers(),
                        ),
                    ),
                ),
            ),
            r is Ok ==> r == Ok::<i128, Failure<Error>>(old(self)@.pending as i128) && final(self)@
                == old(self)@.after_distribution() && final(tokens)@ == pay_all(
                old(tokens)@,
                old(self)@.token,
                old(self)@.contract,
                old(self)@.distribution_transfers(),
            )->0,
    {
        if !self.initialized {
            return Err(Failure::Contract(Error::NotInitialized));
        }
        if !ctx.require_auth(self.admin) {
            return Err(Failure::Aborted(Abort::MissingAuth(self.admin)));
        }
        self.do_distribute(tokens)
    }

    /// Replaces the recipient list (admin only), first distributing any
    /// pending fees under the old list.
    pub fn set_recipients(
        &mut self,
        ctx: &CallContext,
        tokens: &mut TokenLedger,
        recipients: Vec<Recipient>,
    ) -> (r: Result<(), Failure<Error>>)
        requires
            old(self)@.wf(),
        ensures
            final(self)@.wf(),
            r is Err ==> final(self)@ == old(self)@ && final(tokens)@ == old(tokens)@,
            !old(self)@.initialized ==> r == Err::<(), Failure<Error>>(
                Failure::Contract(Error::NotInitialized),
            ),
            old(self)@.initialized && !ctx.authorizes(old(self)@.admin) ==> r == Err::<
                (),
                Failure<Error>,
            >(Failure::Aborted(Abort::MissingAuth(old(self)@.admin))),
            old(self)@.initialized && ctx.authorizes(old(self)@.admin) && recipients_error(
                recipients@,
            ) is Some ==> r == Err::<(), Failure<Error>>(
                Failure::Contract(recipients_error(recipients@)->0),
            ),
            old(self)@.initialized && ctx.authorizes(old(self)@.admin) && valid_recipients(
                recipients@,
            ) && old(self)@.pending == 0 ==> r is Ok && final(tokens)@ == old(tokens)@
                && final(self)@ == (FeeDistributionView {
                recipients: recipients@,
                events: old(self)@.events.push(
                    FeeEvent::RecipientsUpdated { count: recipients@.len() as u32 },
                ),
                ..old(self)@
            }),
            old(self)@.initialized && ctx.authorizes(old(self)@.admin) && valid_recipients(
                recipients@,
            ) && old(self)@.pending > 0 ==> (r is Ok <==> (!old(self)@.distribution_overflows()
                && pay_all(
                old(tokens)@,
                old(self)@.token,
                old(self)@.contract,
                old(self)@.distribution_transfers(),
            ) is Some)),
            old(self)@.initialized && old(self)@.pending > 0 && r is Ok ==> final(tokens)@
                == pay_all(
                old(tokens)@,
                old(self)@.token,
                old(self)@.contract,
                old(self)@.distribution_transfers(),
            )->0 && final(self)@ == (FeeDistributionView {
                recipients: recipients@,
                events: old(self)@.after_distribution().events.push(
                    FeeEvent::RecipientsUpdated { count: recipients@.len() as u32 },
                ),
                ..old(self)@.after_distribution()
            }),
    {
        if !self.initialized {
            return Err(Failure::Contract(Error::NotInitialized));
        }
        if !ctx.require_auth(self.admin) {
            return Err(Failure::Aborted(Abort::MissingAuth(self.admin)));
        }
        match Self::validate_recipients(&recipients) {
            Ok(()) => {},
            Err(e) => return Err(Failure::Contract(e)),
        }
        if self.pending > 0 {
            match self.do_distribute(tokens) {
                Ok(_) => {},
                Err(e) => return Err(e),
            }
        }
        proof {
            lemma_valid_len(recipients@);
        }
        let count = recipients.len() as u32;
        self.recipients = recipients;
        self.events.push(FeeEvent::RecipientsUpdated { count });
        Ok(())
    }

    /// Hands the admin role to `new_admin` (admin only).
    pub fn transfer_admin(&mut self, ctx: &CallContext, new_admin: Address) -> (r: Result<
        (),
        Failure<Error>,
    >)
        requires
            old(self)@.wf(),
        ensures
            final(self)@.wf(),
            r is Err ==> final(self)@ == old(self)@,
            !old(self)@.initialized ==> r == Err::<(), Failure<Error>>(
                Failure::Contract(Error::NotInitialized),
            ),
            old(self)@.initialized && !ctx.authorizes(old(self)@.admin) ==> r == Err::<
                (),
                Failure<Error>,
            >(Failure::Aborted(Abort::MissingAuth(old(self)@.admin))),
            r is Ok <==> old(self)@.initialized && ctx.authorizes(old(self)@.admin),
            r is Ok ==> final(self)@ == (FeeDistributionView {
                admin: new_admin,
                events: old(self)@.events.push(FeeEvent::AdminTransferred { new_admin }),
                ..old(self)@
            }),
    {
        if !self.initialized {
            return Err(Failure::Contract(Error::NotInitialized));
        }
        if !ctx.require_auth(self.admin) {
            return Err(Failure::Aborted(Abort::MissingAuth(self.admin)));
        }
        self.admin = new_admin;
        self.events.push(FeeEvent::AdminTransferred { new_admin });
        Ok(())
    }

    /// The admin.
    pub fn get_admin(&self) -> (r: Result<Address, Error>)
        ensures
            r == (if self@.initialized {
                Ok::<Address, Error>(self@.admin)
            } else {
                Err(Error::NotInitialized)
            }),
    {
        if !self.initialized {
            return Err(Error::NotInitialized);
        }
        Ok(self.admin)
    }

    /// The token whose fees are distributed.
    pub fn get_token(&self) -> (r: Result<Address, Error>)
        ensures
            r == (if self@.initialized {
                Ok::<Address, Error>(self@.token)
            } else {
                Err(Error::NotInitialized)
            }),
    {
        if !self.initialized {
            return Err(Error::NotInitialized);
        }
        Ok(self.token)
    }

    /// The recipient list.
    pub fn get_recipients(&self) -> (r: Result<Vec<Recipient>, Error>)
        ensures
            self@.initialized ==> (r matches Ok(v) && v@ == self@.recipients),
            !self@.initialized ==> r == Err::<Vec<Recipient>, Error>(Error::NotInitialized),
    {
        if !self.initialized {
            return Err(Error::NotInitialized);
        }
        let mut out: Vec<Recipient> = Vec::new();
        let mut i: usize = 0;
        while i < self.recipients.len()
            invariant
                i <= self.recipients.len(),
                out@ == self.recipients@.take(i as int),
            decreases self.recipients.len() - i,
        {
            out.push(self.recipients[i]);
            assert(self.recipients@.take(i + 1) == self.recipients@.take(i as int).push(
                self.recipients@[i as int],
            ));
            i = i + 1;
        }
        assert(self.recipients@.take(self.recipients@.len() as int) == self.recipients@);
        Ok(out)
    }

    /// The fees waiting to be distributed.
    pub fn get_pending(&self) -> (r: Result<i128, Error>)
        ensures
            r == (if self@.initialized {
                Ok::<i128, Error>(self@.pending as i128)
            } else {
                Err(Error::NotInitialized)
            }),
    {
        if !self.initialized {
            return Err(Error::NotInitialized);
        }
        Ok(self.pending)
    }

    /// Everything ever deposited.
    pub fn get_total_in(&self) -> (r: Result<i128, Error>)
        ensures
            r == (if self@.initialized {
                Ok::<i128, Error>(self@.total_in as i128)
            } else {
                Err(Error::NotInitialized)
            }),
    {
        if !self.initialized {
            return Err(Error::NotInitialized);
        }
        Ok(self.total_in)
    }

    /// Everything ever distributed.
    pub fn get_total_out(&self) -> (r: Result<i128, Error>)
        ensures
            r == (if self@.initialized {
                Ok::<i128, Error>(self@.total_out as i128)
            } else {
                Err(Error::NotInitialized)
            }),
    {
        if !self.initialized {
            return Err(Error::NotInitialized);
        }
        Ok(self.total_out)
    }

    /// The events published so far, oldest first.
    pub fn events(&self) -> (r: &Vec<FeeEvent>)
        ensures
            r@ == self@.events,
    {
        &self.events
    }
}

/// Lists with the same shares have the same share sums.
proof fn lemma_share_sum_same(a: Seq<Recipient>, b: Seq<Recipient>, k: int)
    requires
        0 <= k <= a.len(),
        a.len() == b.len(),
        forall|i: int| 0 <= i < a.len() ==> #[trigger] b[i].share_bps == a[i].share_bps,
    ensures
        share_sum(a, k) == share_sum(b, k),
    decreases k,
{
    if k > 0 {
        lemma_share_sum_same(a, b, k - 1);
    }
}

/// A valid list has at most 10 000 recipients.
proof fn lemma_valid_len(rs: Seq<Recipient>)
    requires
        valid_recipients(rs),
    ensures
        rs.len() <= BPS_TOTAL,
{
    lemma_share_sum_at_least_len(rs, rs.len() as int);
}

/// Every share is at least one basis point.
proof fn lemma_share_sum_at_least_len(rs: Seq<Recipient>, k: int)
    requires
        0 <= k <= rs.len(),
        forall|i: int| 0 <= i < rs.len() ==> 1 <= #[trigger] rs[i].share_bps,
    ensures
        share_sum(rs, k) >= k,
    decreases k,
{
    if k > 0 {
        lemma_share_sum_at_least_len(rs, k - 1);
    }
}

} // verus!
