//! Merchant vault contract.
//!
//! Keeps a balance per merchant. The payment router credits balances, the
//! payout contract debits them directly, and withdrawals can also go through a
//! multi-signature flow: a signer proposes a withdrawal (its approval counts at
//! once), other signers approve it, and it executes when the approvals reach
//! the threshold, unless it expired, was cancelled, or already executed.
use crate::host::{Abort, Address, CallContext, Failure};
use vstd::hash_map::HashMapWithView;
use vstd::prelude::*;

verus! {

/// How many ledgers a proposal stays open when no expiry was configured.
pub const DEFAULT_EXPIRY_LEDGERS: u32 = 17_280;

/// A merchant balance was credited.
#[derive(PartialEq, Eq, Structural, Clone, Copy, Debug)]
pub struct BalanceCreditedEvent {
    pub merchant_id: Address,
    pub amount: i128,
    pub resulting_balance: i128,
}

/// A merchant balance was debited.
#[derive(PartialEq, Eq, Structural, Clone, Copy, Debug)]
pub struct BalanceDebitedEvent {
    pub merchant_id: Address,
    pub amount: i128,
    pub resulting_balance: i128,
}

/// The events that the vault publishes.
#[derive(PartialEq, Eq, Structural, Clone, Copy, Debug)]
pub enum VaultEvent {
    /// `("balance_credited", merchant)`.
    Credited(BalanceCreditedEvent),
    /// `("balance_debited", merchant)`.
    Debited(BalanceDebitedEvent),
    /// `("multisig", "proposed")`.
    Proposed { proposal_id: u32, merchant_id: Address, amount: i128, proposer: Address },
    /// `("multisig", "approved")`.
    Approved { proposal_id: u32, approver: Address, approvals: u32, threshold: u32 },
    /// `("multisig", "executed")`.
    Executed { proposal_id: u32, merchant_id: Address, amount: i128, new_balance: i128 },
    /// `("multisig", "cancelled")`.
    Cancelled { proposal_id: u32, caller: Address },
}

/// The errors that the contract declares.
#[derive(PartialEq, Eq, Structural, Clone, Copy, Debug)]
pub enum Error {
    NegativeAmount,
    InsufficientBalance,
    UnauthorizedCaller,
    MerchantNotInitialized,
    AlreadyInitialized,
    NotInitialized,
    NotASigner,
    ProposalNotFound,
    ProposalExpired,
    ProposalAlreadyExecuted,
    ProposalAlreadyCancelled,
    AlreadyApproved,
    InvalidThreshold,
    EmptySigners,
}

impl Error {
    /// The numeric code under which the contract reports the error.
    pub open spec fn spec_code(self) -> u32 {
        match self {
            Error::NegativeAmount => 1,
            Error::InsufficientBalance => 2,
            Error::UnauthorizedCaller => 3,
            Error::MerchantNotInitialized => 4,
            Error::AlreadyInitialized => 5,
            Error::NotInitialized => 6,
            Error::NotASigner => 7,
            Error::ProposalNotFound => 8,
            Error::ProposalExpired => 9,
            Error::ProposalAlreadyExecuted => 10,
            Error::ProposalAlreadyCancelled => 11,
            Error::AlreadyApproved => 12,
            Error::InvalidThreshold => 13,
            Error::EmptySigners => 14,
        }
    }

    /// The numeric code under which the contract reports the error.
    pub fn code(&self) -> (c: u32)
        ensures
            c == self.spec_code(),
    {
        match self {
            Error::NegativeAmount => 1,
            Error::InsufficientBalance => 2,
            Error::UnauthorizedCaller => 3,
            Error::MerchantNotInitialized => 4,
            Error::AlreadyInitialized => 5,
            Error::NotInitialized => 6,
            Error::NotASigner => 7,
            Error::ProposalNotFound => 8,
            Error::ProposalExpired => 9,
            Error::ProposalAlreadyExecuted => 10,
            Error::ProposalAlreadyCancelled => 11,
            Error::AlreadyApproved => 12,
            Error::InvalidThreshold => 13,
            Error::EmptySigners => 14,
        }
    }
}

/// A withdrawal proposal.
#[derive(Debug)]
pub struct Proposal {
    pub merchant_id: Address,
    pub amount: i128,
    pub proposer: Address,
    /// The signers that approved, in order; the proposer comes first.
    pub approvals: Vec<Address>,
    /// The ledger sequence at which the proposal was created.
    pub created_ledger: u32,
    /// How many ledgers after creation the proposal may still be approved.
    pub expiry_ledgers: u32,
    pub executed: bool,
    pub cancelled: bool,
}

/// A proposal as mathematical values.
pub struct ProposalView {
    pub merchant_id: Address,
    pub amount: i128,
    pub proposer: Address,
    pub approvals: Seq<Address>,
    pub created_ledger: u32,
    pub expiry_ledgers: u32,
    pub executed: bool,
    pub cancelled: bool,
}

impl View for Proposal {
    type V = ProposalView;

    open spec fn view(&self) -> ProposalView {
        ProposalView {
            merchant_id: self.merchant_id,
            amount: self.amount,
            proposer: self.proposer,
            approvals: self.approvals@,
            created_ledger: self.created_ledger,
            expiry_ledgers: self.expiry_ledgers,
            executed: self.executed,
            cancelled: self.cancelled,
        }
    }
}

impl Proposal {
    /// An independent copy.
    pub fn duplicate(&self) -> (r: Proposal)
        ensures
            r@ == self@,
    {
        let approvals = self.approvals.clone();
        assert(approvals@ =~= self.approvals@);
        Proposal {
            merchant_id: self.merchant_id,
            amount: self.amount,
            proposer: self.proposer,
            approvals,
            created_ledger: self.created_ledger,
            expiry_ledgers: self.expiry_ledgers,
            executed: self.executed,
            cancelled: self.cancelled,
        }
    }
}

/// The vault state as mathematical values.
pub struct MerchantVaultView {
    pub initialized: bool,
    pub admin: Address,
    pub payment_router: Address,
    pub payout_contract: Address,
    pub signers: Seq<Address>,
    pub threshold: u32,
    pub expiry_ledgers: u32,
    pub balances: Map<Address, i128>,
    pub proposals: Seq<ProposalView>,
    pub events: Seq<VaultEvent>,
}

/// Whether no address occurs twice.
pub open spec fn distinct(s: Seq<Address>) -> bool {
    forall|i: int, j: int| 0 <= i < j < s.len() ==> s[i] != s[j]
}

impl MerchantVaultView {
    /// The invariant of the vault.
    pub open spec fn wf(self) -> bool {
        &&& forall|m: Address| #[trigger] self.balances.contains_key(m) ==> self.balances[m] >= 0
        &&& self.proposals.len() <= u32::MAX
        &&& (self.initialized ==> 1 <= self.threshold <= self.signers.len())
        &&& (!self.initialized ==> self.proposals.len() == 0 && self.signers.len() == 0
            && self.threshold == 0)
        &&& forall|i: int|
            0 <= i < self.proposals.len() ==> {
                let p = #[trigger] self.proposals[i];
                &&& distinct(p.approvals)
                &&& p.approvals.len() >= 1
                &&& p.approvals[0] == p.proposer
                &&& forall|k: int| 0 <= k < p.approvals.len() ==> self.signers.contains(
                    #[trigger] p.approvals[k],
                )
                &&& !(p.executed && p.cancelled)
                &&& p.amount > 0
            }
    }

    /// Whether `who` is a configured signer.
    pub open spec fn is_signer(self, who: Address) -> bool {
        self.signers.contains(who)
    }

    /// The check shared by the multi-signature entry points.
    pub open spec fn signer_error(self, who: Address) -> Option<Error> {
        if !self.initialized {
            Some(Error::NotInitialized)
        } else if !self.is_signer(who) {
            Some(Error::NotASigner)
        } else {
            None
        }
    }

    /// The balance of `merchant` (zero when it has none).
    pub open spec fn balance(self, merchant: Address) -> int {
        if self.balances.contains_key(merchant) {
            self.balances[merchant] as int
        } else {
            0
        }
    }

    /// Whether the proposal can no longer be approved at `sequence`.
    pub open spec fn expired(self, id: int, sequence: u32) -> bool {
        sequence > self.proposals[id].created_ledger + self.proposals[id].expiry_ledgers
    }
}

/// The merchant vault contract.
pub struct MerchantVault {
    initialized: bool,
    admin: Address,
    payment_router: Address,
    payout_contract: Address,
    signers: Vec<Address>,
    threshold: u32,
    expiry_ledgers: u32,
    balances: HashMapWithView<u64, i128>,
    proposals: Vec<Proposal>,
    events: Vec<VaultEvent>,
}

impl View for MerchantVault {
    type V = MerchantVaultView;

    closed spec fn view(&self) -> MerchantVaultView {
        MerchantVaultView {
            initialized: self.initialized,
            admin: self.admin,
            payment_router: self.payment_router,
            payout_contract: self.payout_contract,
            signers: self.signers@,
            threshold: self.threshold,
            expiry_ledgers: self.expiry_ledgers,
            balances: self.balances@,
            proposals: self.proposals@.map_values(|p: Proposal| p@),
            events: self.events@,
        }
    }
}

/// Whether `s` contains `who`.
fn contains_address(s: &Vec<Address>, who: Address) -> (r: bool)
    ensures
        r == s@.contains(who),
{
    let mut i: usize = 0;
    while i < s.len()
        invariant
            i <= s.len(),
            forall|j: int| 0 <= j < i ==> s@[j] != who,
        decreases s.len() - i,
    {
        if s[i] == who {
            assert(s@[i as int] == who);
            return true;
        }
        i = i + 1;
    }
    false
}

impl MerchantVault {
    /// The vault before initialisation.
    pub fn new() -> (v: MerchantVault)
        ensures
            !v@.initialized,
            v@.balances == Map::<Address, i128>::empty(),
            v@.proposals.len() == 0,
            v@.events.len() == 0,
            v@.wf(),
    {
        broadcast use vstd::std_specs::hash::group_hash_axioms;

        let v = MerchantVault {
            initialized: false,
            admin: 0,
            payment_router: 0,
            payout_contract: 0,
            signers: Vec::new(),
            threshold: 0,
            expiry_ledgers: 0,
            balances: HashMapWithView::new(),
            proposals: Vec::new(),
            events: Vec::new(),
        };
        assert(v@.proposals =~= Seq::<ProposalView>::empty());
        v
    }

    /// Initialises the vault with its roles, the signer set, the number of
    /// approvals required and the lifetime of a proposal.
    pub fn initialize(
        &mut self,
        ctx: &CallContext,
        admin: Address,
        payment_router: Address,
        payout_contract: Address,
        signers: Vec<Address>,
        threshold: u32,
        expiry_ledgers: u32,
    ) -> (r: Result<(), Failure<Error>>)
        requires
            old(self)@.wf(),
        ensures
            final(self)@.wf(),
            r is Err ==> final(self)@ == old(self)@,
            old(self)@.initialized ==> r == Err::<(), Failure<Error>>(
                Failure::Contract(Error::AlreadyInitialized),
            ),
            !old(self)@.initialized && !ctx.authorizes(admin) ==> r == Err::<(), Failure<Error>>(
                Failure::Aborted(Abort::MissingAuth(admin)),
            ),
            !old(self)@.initialized && ctx.authorizes(admin) && signers@.len() == 0 ==> r == Err::<
                (),
                Failure<Error>,
            >(Failure::Contract(Error::EmptySigners)),
            !old(self)@.initialized && ctx.authorizes(admin) && signers@.len() > 0 && (threshold
                == 0 || threshold > signers@.len()) ==> r == Err::<(), Failure<Error>>(
                Failure::Contract(Error::InvalidThreshold),
            ),
            r is Ok <==> (!old(self)@.initialized && ctx.authorizes(admin) && 1 <= threshold
                <= signers@.len()),
            r is Ok ==> final(self)@ == (MerchantVaultView {
                initialized: true,
                admin,
                payment_router,
                payout_contract,
                signers: signers@,
                threshold,
                expiry_ledgers,
                ..old(self)@
            }),
    {
        if self.initialized {
            return Err(Failure::Contract(Error::AlreadyInitialized));
        }
        if !ctx.require_auth(admin) {
            return Err(Failure::Aborted(Abort::MissingAuth(admin)));
        }
        if signers.len() == 0 {
            return Err(Failure::Contract(Error::EmptySigners));
        }
        if threshold == 0 || threshold as usize > signers.len() {
            return Err(Failure::Contract(Error::InvalidThreshold));
        }
        self.initialized = true;
        self.admin = admin;
        self.payment_router = payment_router;
        self.payout_contract = payout_contract;
        self.signers = signers;
        self.threshold = threshold;
        self.expiry_ledgers = expiry_ledgers;
        Ok(())
    }

    /// Opens a merchant account with a zero balance (admin only).
    pub fn init_merchant(&mut self, ctx: &CallContext, merchant_id: Address) -> (r: Result<
        (),
        Failure<Error>,
    >)
        requires
            old(self)@.wf(),
        ensures
            final(self)@.wf(),
            r is Err ==> final(self)@ == old(self)@,
            !old(self)@.initialized ==> r == Err::<(), Failure<Error>>(
                Failure::Contract(Error::NotInitialized),
            ),
            old(self)@.initialized && !ctx.authorizes(old(self)@.admin) ==> r == Err::<
                (),
                Failure<Error>,
            >(Failure::Aborted(Abort::MissingAuth(old(self)@.admin))),
            old(self)@.initialized && ctx.authorizes(old(self)@.admin)
                && old(self)@.balances.contains_key(merchant_id) ==> r == Err::<
                (),
                Failure<Error>,
            >(Failure::Contract(Error::AlreadyInitialized)),
            r is Ok <==> (old(self)@.initialized && ctx.authorizes(old(self)@.admin)
                && !old(self)@.balances.contains_key(merchant_id)),
            r is Ok ==> final(self)@ == (MerchantVaultView {
                balances: old(self)@.balances.insert(merchant_id, 0),
                ..old(self)@
            }),
    {
        if !self.initialized {
            return Err(Failure::Contract(Error::NotInitialized));
        }
        if !ctx.require_auth(self.admin) {
            return Err(Failure::Aborted(Abort::MissingAuth(self.admin)));
        }
        if self.balances.contains_key(&merchant_id) {
            return Err(Failure::Contract(Error::AlreadyInitialized));
        }
        self.balances.insert(merchant_id, 0);
        Ok(())
    }

    /// Credits a merchant balance (payment router only). Returns the new balance.
    pub fn credit(&mut self, ctx: &CallContext, merchant_id: Address, amount: i128) -> (r: Result<
        i128,
        Failure<Error>,
    >)
        requires
            old(self)@.wf(),
        ensures
            final(self)@.wf(),
            r is Err ==> final(self)@ == old(self)@,
            !old(self)@.initialized ==> r == Err::<i128, Failure<Error>>(
                Failure::Contract(Error::NotInitialized),
            ),
            old(self)@.initialized && !ctx.authorizes(old(self)@.payment_router) ==> r == Err::<
                i128,
                Failure<Error>,
            >(Failure::Aborted(Abort::MissingAuth(old(self)@.payment_router))),
            old(self)@.initialized && ctx.authorizes(old(self)@.payment_router) && amount < 0 ==> r
                == Err::<i128, Failure<Error>>(Failure::Contract(Error::NegativeAmount)),
            old(self)@.initialized && ctx.authorizes(old(self)@.payment_router) && amount >= 0
                && !old(self)@.balances.contains_key(merchant_id) ==> r == Err::<
                i128,
                Failure<Error>,
            >(Failure::Contract(Error::MerchantNotInitialized)),
            old(self)@.initialized && ctx.authorizes(old(self)@.payment_router) && amount >= 0
                && old(self)@.balances.contains_key(merchant_id) && old(self)@.balance(merchant_id)
                + amount > i128::MAX ==> r == Err::<i128, Failure<Error>>(
                Failure::Aborted(Abort::Overflow),
            ),
            r is Ok <==> (old(self)@.initialized && ctx.authorizes(old(self)@.payment_router)
                && amount >= 0 && old(self)@.balances.contains_key(merchant_id) && old(self)@.balance(merchant_id) + amount <= i128::MAX),
            r is Ok ==> ({
                let nb = (old(self)@.balance(merchant_id) + amount) as i128;
                &&& r == Ok::<i128, Failure<Error>>(nb)
                &&& final(self)@ == (MerchantVaultView {
                    balances: old(self)@.balances.insert(merchant_id, nb),
                    events: old(self)@.events.push(
                        VaultEvent::Credited(
                            BalanceCreditedEvent { merchant_id, amount, resulting_balance: nb },
                        ),
                    ),
                    ..old(self)@
                })
            }),
    {
        if !self.initialized {
            return Err(Failure::Contract(Error::NotInitialized));
        }
        if !ctx.require_auth(self.payment_router) {
            return Err(Failure::Aborted(Abort::MissingAuth(self.payment_router)));
        }
        if amount < 0 {
            return Err(Failure::Contract(Error::NegativeAmount));
        }
        let current = match self.balances.get(&merchant_id) {
            Some(b) => *b,
            None => return Err(Failure::Contract(Error::MerchantNotInitialized)),
        };
        let nb = match current.checked_add(amount) {
            Some(v) => v,
            None => return Err(Failure::Aborted(Abort::Overflow)),
        };
        self.balances.insert(merchant_id, nb);
        self.events.push(
            VaultEvent::Credited(BalanceCreditedEvent { merchant_id, amount, resulting_balance: nb }),
        );
        Ok(nb)
    }

    /// Debits a merchant balance (payout contract only). Returns the new balance.
    pub fn debit(&mut self, ctx: &CallContext, merchant_id: Address, amount: i128) -> (r: Result<
        i128,
        Failure<Error>,
    >)
        requires
            old(self)@.wf(),
        ensures
            final(self)@.wf(),
            r is Err ==> final(self)@ == old(self)@,
            !old(self)@.initialized ==> r == Err::<i128, Failure<Error>>(
                Failure::Contract(Error::NotInitialized),
            ),
            old(self)@.initialized && !ctx.authorizes(old(self)@.payout_contract) ==> r == Err::<
                i128,
                Failure<Error>,
            >(Failure::Aborted(Abort::MissingAuth(old(self)@.payout_contract))),
            old(self)@.initialized && ctx.authorizes(old(self)@.payout_contract) && amount < 0 ==> r
                == Err::<i128, Failure<Error>>(Failure::Contract(Error::NegativeAmount)),
            old(self)@.initialized && ctx.authorizes(old(self)@.payout_contract) && amount >= 0
                && !old(self)@.balances.contains_key(merchant_id) ==> r == Err::<
                i128,
                Failure<Error>,
            >(Failure::Contract(Error::MerchantNotInitialized)),
            old(self)@.initialized && ctx.authorizes(old(self)@.payout_contract) && amount >= 0
                && old(self)@.balances.contains_key(merchant_id) && old(self)@.balance(merchant_id)
                < amount ==> r == Err::<i128, Failure<Error>>(
                Failure::Contract(Error::InsufficientBalance),
            ),
            r is Ok <==> (old(self)@.initialized && ctx.authorizes(old(self)@.payout_contract)
                && amount >= 0 && old(self)@.balances.contains_key(merchant_id) && old(self)@.balance(merchant_id) >= amount),
            r is Ok ==> ({
                let nb = (old(self)@.balance(merchant_id) - amount) as i128;
                &&& r == Ok::<i128, Failure<Error>>(nb)
                &&& final(self)@ == (MerchantVaultView {
                    balances: old(self)@.balances.insert(merchant_id, nb),
                    events: old(self)@.events.push(
                        VaultEvent::Debited(
                            BalanceDebitedEvent { merchant_id, amount, resulting_balance: nb },
                        ),
                    ),
                    ..old(self)@
                })
            }),
    {
        if !self.initialized {
            return Err(Failure::Contract(Error::NotInitialized));
        }
        if !ctx.require_auth(self.payout_contract) {
            return Err(Failure::Aborted(Abort::MissingAuth(self.payout_contract)));
        }
        if amount < 0 {
            return Err(Failure::Contract(Error::NegativeAmount));
        }
        let current = match self.balances.get(&merchant_id) {
            Some(b) => *b,
            None => return Err(Failure::Contract(Error::MerchantNotInitialized)),
        };
        if current < amount {
            return Err(Failure::Contract(Error::InsufficientBalance));
        }
        let nb = current - amount;
        self.balances.insert(merchant_id, nb);
        self.events.push(
            VaultEvent::Debited(BalanceDebitedEvent { merchant_id, amount, resulting_balance: nb }),
        );
        Ok(nb)
    }

    /// Fails unless `who` is a configured signer.
    fn assert_signer(&self, who: Address) -> (r: Result<(), Error>)
        ensures
            r is Ok <==> self@.signer_error(who) is None,
            r is Err ==> r == Err::<(), Error>(self@.signer_error(who)->0),
    {
        if !self.initialized {
            return Err(Error::NotInitialized);
        }
        if !contains_address(&self.signers, who) {
            return Err(Error::NotASigner);
        }
        Ok(())
    }

    /// Proposes a withdrawal from a merchant balance; the proposer must be a
    /// signer, and its approval is recorded at once. Returns the proposal id.
    pub fn propose_withdrawal(
        &mut self,
        ctx: &CallContext,
        merchant_id: Address,
        amount: i128,
        proposer: Address,
    ) -> (r: Result<u32, Failure<Error>>)
        requires
            old(self)@.wf(),
        ensures
            final(self)@.wf(),
            r is Err ==> final(self)@ == old(self)@,
            !ctx.authorizes(proposer) ==> r == Err::<u32, Failure<Error>>(
                Failure::Aborted(Abort::MissingAuth(proposer)),
            ),
            ctx.authorizes(proposer) && old(self)@.signer_error(proposer) is Some ==> r == Err::<
                u32,
                Failure<Error>,
            >(Failure::Contract(old(self)@.signer_error(proposer)->0)),
            ctx.authorizes(proposer) && old(self)@.signer_error(proposer) is None && amount <= 0
                ==> r == Err::<u32, Failure<Error>>(Failure::Contract(Error::NegativeAmount)),
            ctx.authorizes(proposer) && old(self)@.signer_error(proposer) is None && amount > 0
                && !old(self)@.balances.contains_key(merchant_id) ==> r == Err::<
                u32,
                Failure<Error>,
            >(Failure::Contract(Error::MerchantNotInitialized)),
            ctx.authorizes(proposer) && old(self)@.signer_error(proposer) is None && amount > 0
                && old(self)@.balances.contains_key(merchant_id) && old(self)@.proposals.len()
                == u32::MAX ==> r == Err::<u32, Failure<Error>>(Failure::Aborted(Abort::Overflow)),
            r is Ok <==> (ctx.authorizes(proposer) && old(self)@.signer_error(proposer) is None
                && amount > 0 && old(self)@.balances.contains_key(merchant_id) && old(self)@.proposals.len() < u32::MAX),
            r is Ok ==> ({
                let id = old(self)@.proposals.len();
                &&& r == Ok::<u32, Failure<Error>>(id as u32)
                &&& final(self)@ == (MerchantVaultView {
                    proposals: old(self)@.proposals.push(
                        ProposalView {
                            merchant_id,
                            amount,
                            proposer,
                            approvals: seq![proposer],
                            created_ledger: ctx.sequence,
                            expiry_ledgers: old(self)@.expiry_ledgers,
                            executed: false,
                            cancelled: false,
                        },
                    ),
                    events: old(self)@.events.push(
                        VaultEvent::Proposed { proposal_id: id as u32, merchant_id, amount, proposer },
                    ),
                    ..old(self)@
                })
            }),
    {
        if !ctx.require_auth(proposer) {
            return Err(Failure::Aborted(Abort::MissingAuth(proposer)));
        }
        match self.assert_signer(proposer) {
            Ok(()) => {},
            Err(e) => return Err(Failure::Contract(e)),
        }
        if amount <= 0 {
            return Err(Failure::Contract(Error::NegativeAmount));
        }
        if !self.balances.contains_key(&merchant_id) {
            return Err(Failure::Contract(Error::MerchantNotInitialized));
        }
        let n = self.proposals.len();
        if n >= u32::MAX as usize {
            return Err(Failure::Aborted(Abort::Overflow));
        }
        let id = n as u32;
        let mut approvals: Vec<Address> = Vec::new();
        approvals.push(proposer);
        let p = Proposal {
            merchant_id,
            amount,
            proposer,
            approvals,
            created_ledger: ctx.sequence,
            expiry_ledgers: self.expiry_ledgers,
            executed: false,
            cancelled: false,
        };
        let ghost old_props = self.proposals@;
        self.proposals.push(p);
        self.events.push(VaultEvent::Proposed { proposal_id: id, merchant_id, amount, proposer });
        proof {
            assert(self.proposals@ == old_props.push(p));
            assert(self@.proposals =~= old(self)@.proposals.push(p@));
            assert(p@.approvals =~= seq![proposer]);
            assert(self@.signers.contains(proposer));
        }
        Ok(id)
    }

    /// Approves a pending proposal; once the approvals reach the threshold the
    /// withdrawal executes and the merchant balance is debited. Returns whether
    /// it executed.
    pub fn approve_withdrawal(&mut self, ctx: &CallContext, proposal_id: u32, approver: Address) -> (r:
        Result<bool, Failure<Error>>)
        requires
            old(self)@.wf(),
        ensures
            final(self)@.wf(),
            r is Err ==> final(self)@ == old(self)@,
            !ctx.authorizes(approver) ==> r == Err::<bool, Failure<Error>>(
                Failure::Aborted(Abort::MissingAuth(approver)),
            ),
            ctx.authorizes(approver) && old(self)@.signer_error(approver) is Some ==> r == Err::<
                bool,
                Failure<Error>,
            >(Failure::Contract(old(self)@.signer_error(approver)->0)),
            ctx.authorizes(approver) && old(self)@.signer_error(approver) is None && proposal_id
                >= old(self)@.proposals.len() ==> r == Err::<bool, Failure<Error>>(
                Failure::Contract(Error::ProposalNotFound),
            ),
            ctx.authorizes(approver) && old(self)@.signer_error(approver) is None && proposal_id
                < old(self)@.proposals.len() ==> ({
                let p = old(self)@.proposals[proposal_id as int];
                let id = proposal_id as int;
                let approvals = p.approvals.push(approver);
                let executes = approvals.len() >= old(self)@.threshold;
                let nb = old(self)@.balance(p.merchant_id) - p.amount;
                &&& p.cancelled ==> r == Err::<bool, Failure<Error>>(
                    Failure::Contract(Error::ProposalAlreadyCancelled),
                )
                &&& !p.cancelled && p.executed ==> r == Err::<bool, Failure<Error>>(
                    Failure::Contract(Error::ProposalAlreadyExecuted),
                )
                &&& !p.cancelled && !p.executed && p.created_ledger + p.expiry_ledgers > u32::MAX
                    ==> r == Err::<bool, Failure<Error>>(Failure::Aborted(Abort::Overflow))
                &&& !p.cancelled && !p.executed && p.created_ledger + p.expiry_ledgers <= u32::MAX
                    && old(self)@.expired(id, ctx.sequence) ==> r == Err::<bool, Failure<Error>>(
                    Failure::Contract(Error::ProposalExpired),
                )
                &&& !p.cancelled && !p.executed && p.created_ledger + p.expiry_ledgers <= u32::MAX
                    && !old(self)@.expired(id, ctx.sequence) && p.approvals.contains(approver)
                    ==> r == Err::<bool, Failure<Error>>(Failure::Contract(Error::AlreadyApproved))
                &&& !p.cancelled && !p.executed && p.created_ledger + p.expiry_ledgers <= u32::MAX
                    && !old(self)@.expired(id, ctx.sequence) && !p.approvals.contains(approver)
                    && executes && nb < 0 ==> r == Err::<bool, Failure<Error>>(
                    Failure::Contract(Error::InsufficientBalance),
                )
                &&& r is Ok <==> (!p.cancelled && !p.executed && p.created_ledger + p.expiry_ledgers
                    <= u32::MAX && !old(self)@.expired(id, ctx.sequence) && !p.approvals.contains(
                    approver,
                ) && (executes ==> nb >= 0))
                &&& r is Ok && executes ==> r == Ok::<bool, Failure<Error>>(true) && final(self)@
                    == (MerchantVaultView {
                    proposals: old(self)@.proposals.update(
                        id,
                        ProposalView { approvals, executed: true, ..p },
                    ),
                    balances: old(self)@.balances.insert(p.merchant_id, nb as i128),
                    events: old(self)@.events.push(
                        VaultEvent::Executed {
                            proposal_id,
                            merchant_id: p.merchant_id,
                            amount: p.amount,
                            new_balance: nb as i128,
                        },
                    ),
                    ..old(self)@
                })
                &&& r is Ok && !executes ==> r == Ok::<bool, Failure<Error>>(false) && final(self)@
                    == (MerchantVaultView {
                    proposals: old(self)@.proposals.update(id, ProposalView { approvals, ..p }),
                    events: old(self)@.events.push(
                        VaultEvent::Approved {
                            proposal_id,
                            approver,
                            approvals: approvals.len() as u32,
                            threshold: old(self)@.threshold,
                        },
                    ),
                    ..old(self)@
                })
            }),
    {
        if !ctx.require_auth(approver) {
            return Err(Failure::Aborted(Abort::MissingAuth(approver)));
        }
        match self.assert_signer(approver) {
            Ok(()) => {},
            Err(e) => return Err(Failure::Contract(e)),
        }
        let idx = proposal_id as usize;
        if idx >= self.proposals.len() {
            return Err(Failure::Contract(Error::ProposalNotFound));
        }
        let ghost id = idx as int;
        let ghost pv = self@.proposals[id];
        assert(self.proposals@[id]@ == pv);
        if self.proposals[idx].cancelled {
            return Err(Failure::Contract(Error::ProposalAlreadyCancelled));
        }
        if self.proposals[idx].executed {
            return Err(Failure::Contract(Error::ProposalAlreadyExecuted));
        }
        let deadline = match self.proposals[idx].created_ledger.checked_add(
            self.proposals[idx].expiry_ledgers,
        ) {
            Some(d) => d,
            None => return Err(Failure::Aborted(Abort::Overflow)),
        };
        if ctx.sequence > deadline {
            return Err(Failure::Contract(Error::ProposalExpired));
        }
        if contains_address(&self.proposals[idx].approvals, approver) {
            return Err(Failure::Contract(Error::AlreadyApproved));
        }
        let mut proposal = self.proposals[idx].duplicate();
        proposal.approvals.push(approver);
        let count = proposal.approvals.len();
        proof {
            assert(self@.signers.contains(approver));
            assert(distinct(proposal.approvals@));
            assert(count <= self@.signers.len()) by {
                lemma_distinct_subset_len(proposal.approvals@, self@.signers);
            }
        }
        let executed = count >= self.threshold as usize;
        let ghost old_props = self.proposals@;
        if executed {
            let current = match self.balances.get(&proposal.merchant_id) {
                Some(b) => *b,
                None => 0,
            };
            if current < proposal.amount {
                return Err(Failure::Contract(Error::InsufficientBalance));
            }
            let nb = current - proposal.amount;
            proposal.executed = true;
            let merchant = proposal.merchant_id;
            let amount = proposal.amount;
            self.proposals.set(idx, proposal);
            self.balances.insert(merchant, nb);
            self.events.push(
                VaultEvent::Executed { proposal_id, merchant_id: merchant, amount, new_balance: nb },
            );
            proof {
                assert(self@.proposals =~= old(self)@.proposals.update(
                    id,
                    ProposalView { approvals: pv.approvals.push(approver), executed: true, ..pv },
                ));
            }
        } else {
            let threshold = self.threshold;
            self.proposals.set(idx, proposal);
            self.events.push(
                VaultEvent::Approved {
                    proposal_id,
                    approver,
                    approvals: count as u32,
                    threshold,
                },
            );
            proof {
                assert(self@.proposals =~= old(self)@.proposals.update(
                    id,
                    ProposalView { approvals: pv.approvals.push(approver), ..pv },
                ));
            }
        }
        Ok(executed)
    }

    /// Cancels a pending proposal; only its proposer or the admin may.
    pub fn cancel_proposal(&mut self, ctx: &CallContext, proposal_id: u32, caller: Address) -> (r:
        Result<(), Failure<Error>>)
        requires
            old(self)@.wf(),
        ensures
            final(self)@.wf(),
            r is Err ==> final(self)@ == old(self)@,
            !ctx.authorizes(caller) ==> r == Err::<(), Failure<Error>>(
                Failure::Aborted(Abort::MissingAuth(caller)),
            ),
            ctx.authorizes(caller) && proposal_id >= old(self)@.proposals.len() ==> r == Err::<
                (),
                Failure<Error>,
            >(Failure::Contract(Error::ProposalNotFound)),
            ctx.authorizes(caller) && proposal_id < old(self)@.proposals.len() ==> ({
                let p = old(self)@.proposals[proposal_id as int];
                &&& p.executed ==> r == Err::<(), Failure<Error>>(
                    Failure::Contract(Error::ProposalAlreadyExecuted),
                )
                &&& !p.executed && p.cancelled ==> r == Err::<(), Failure<Error>>(
                    Failure::Contract(Error::ProposalAlreadyCancelled),
                )
                &&& !p.executed && !p.cancelled && caller != p.proposer && caller != old(self)@.admin ==> r == Err::<(), Failure<Error>>(
                    Failure::Contract(Error::UnauthorizedCaller),
                )
                &&& r is Ok <==> (!p.executed && !p.cancelled && (caller == p.proposer || caller
                    == old(self)@.admin))
                &&& r is Ok ==> final(self)@ == (MerchantVaultView {
                    proposals: old(self)@.proposals.update(
                        proposal_id as int,
                        ProposalView { cancelled: true, ..p },
                    ),
                    events: old(self)@.events.push(VaultEvent::Cancelled { proposal_id, caller }),
                    ..old(self)@
                })
            }),
    {
        if !ctx.require_auth(caller) {
            return Err(Failure::Aborted(Abort::MissingAuth(caller)));
        }
        let idx = proposal_id as usize;
        if idx >= self.proposals.len() {
            return Err(Failure::Contract(Error::ProposalNotFound));
        }
        let ghost id = idx as int;
        let ghost pv = self@.proposals[id];
        assert(self.proposals@[id]@ == pv);
        if self.proposals[idx].executed {
            return Err(Failure::Contract(Error::ProposalAlreadyExecuted));
        }
        if self.proposals[idx].cancelled {
            return Err(Failure::Contract(Error::ProposalAlreadyCancelled));
        }
        if caller != self.proposals[idx].proposer && caller != self.admin {
            return Err(Failure::Contract(Error::UnauthorizedCaller));
        }
        let mut proposal = self.proposals[idx].duplicate();
        proposal.cancelled = true;
        self.proposals.set(idx, proposal);
        self.events.push(VaultEvent::Cancelled { proposal_id, caller });
        proof {
            assert(self@.proposals =~= old(self)@.proposals.update(
                id,
                ProposalView { cancelled: true, ..pv },
            ));
        }
        Ok(())
    }

    /// The balance of a merchant account.
    pub fn balance_of(&self, merchant_id: Address) -> (r: Result<i128, Error>)
        ensures
            r == (if self@.balances.contains_key(merchant_id) {
                Ok::<i128, Error>(self@.balances[merchant_id])
            } else {
                Err(Error::MerchantNotInitialized)
            }),
    {
        match self.balances.get(&merchant_id) {
            Some(b) => Ok(*b),
            None => Err(Error::MerchantNotInitialized),
        }
    }

    /// A proposal, by id.
    pub fn get_proposal(&self, proposal_id: u32) -> (r: Result<Proposal, Error>)
        ensures
            proposal_id < self@.proposals.len() ==> (r matches Ok(p) && p@ == self@.proposals[
                proposal_id as int
            ]),
            proposal_id >= self@.proposals.len() ==> r == Err::<Proposal, Error>(
                Error::ProposalNotFound,
            ),
    {
        let idx = proposal_id as usize;
        if idx >= self.proposals.len() {
            return Err(Error::ProposalNotFound);
        }
        Ok(self.proposals[idx].duplicate())
    }

    /// The number of approvals required (zero before initialisation).
    pub fn get_threshold(&self) -> (r: u32)
        ensures
            r == self@.threshold,
    {
        self.threshold
    }

    /// The signer set (empty before initialisation).
    pub fn get_signers(&self) -> (r: Vec<Address>)
        ensures
            r@ == self@.signers,
    {
        let v = self.signers.clone();
        assert(v@ =~= self.signers@);
        v
    }

    /// Whether `address` is a signer.
    pub fn is_signer(&self, address: Address) -> (r: bool)
        ensures
            r == self@.is_signer(address),
    {
        contains_address(&self.signers, address)
    }

    /// Points the vault at a new payment router (admin only).
    pub fn update_payment_router(&mut self, ctx: &CallContext, new_router: Address) -> (r: Result<
        (),
        Failure<Error>,
    >)
        requires
            old(self)@.wf(),
        ensures
            final(self)@.wf(),
            r is Err ==> final(self)@ == old(self)@,
            !old(self)@.initialized ==> r == Err::<(), Failure<Error>>(
                Failure::Contract(Error::NotInitialized),
            ),
            old(self)@.initialized && !ctx.authorizes(old(self)@.admin) ==> r == Err::<
                (),
                Failure<Error>,
            >(Failure::Aborted(Abort::MissingAuth(old(self)@.admin))),
            r is Ok <==> (old(self)@.initialized && ctx.authorizes(old(self)@.admin)),
            r is Ok ==> final(self)@ == (MerchantVaultView {
                payment_router: new_router,
                ..old(self)@
            }),
    {
        if !self.initialized {
            return Err(Failure::Contract(Error::NotInitialized));
        }
        if !ctx.require_auth(self.admin) {
            return Err(Failure::Aborted(Abort::MissingAuth(self.admin)));
        }
        self.payment_router = new_router;
        Ok(())
    }

    /// Points the vault at a new payout contract (admin only).
    pub fn update_payout_contract(&mut self, ctx: &CallContext, new_payout: Address) -> (r: Result<
        (),
        Failure<Error>,
    >)
        requires
            old(self)@.wf(),
        ensures
            final(self)@.wf(),
            r is Err ==> final(self)@ == old(self)@,
            !old(self)@.initialized ==> r == Err::<(), Failure<Error>>(
                Failure::Contract(Error::NotInitialized),
            ),
            old(self)@.initialized && !ctx.authorizes(old(self)@.admin) ==> r == Err::<
                (),
                Failure<Error>,
            >(Failure::Aborted(Abort::MissingAuth(old(self)@.admin))),
            r is Ok <==> (old(self)@.initialized && ctx.authorizes(old(self)@.admin)),
            r is Ok ==> final(self)@ == (MerchantVaultView {
                payout_contract: new_payout,
                ..old(self)@
            }),
    {
        if !self.initialized {
            return Err(Failure::Contract(Error::NotInitialized));
        }
        if !ctx.require_auth(self.admin) {
            return Err(Failure::Aborted(Abort::MissingAuth(self.admin)));
        }
        self.payout_contract = new_payout;
        Ok(())
    }

    /// The events published so far, oldest first.
    pub fn events(&self) -> (r: &Vec<VaultEvent>)
        ensures
            r@ == self@.events,
    {
        &self.events
    }
}

/// A list without repeats drawn from `s` is no longer than `s`.
pub proof fn lemma_distinct_subset_len(a: Seq<Address>, s: Seq<Address>)
    requires
        distinct(a),
        forall|k: int| 0 <= k < a.len() ==> s.contains(#[trigger] a[k]),
    ensures
        a.len() <= s.len(),
{
    let sa = a.to_set();
    let ss = s.to_set();
    a.unique_seq_to_set();
    assert(sa.subset_of(ss)) by {
        assert forall|x: Address| sa.contains(x) implies ss.contains(x) by {
            let k = choose|k: int| 0 <= k < a.len() && a[k] == x;
            assert(s.contains(a[k]));
        }
    }
    vstd::set_lib::lemma_len_subset(sa, ss);
    s.lemma_cardinality_of_set();
}

} // verus!
