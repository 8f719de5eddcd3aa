//! The execution environment that the on-chain contracts of this crate run in:
//! addresses, the authorisation of a call, the ledger sequence, the reasons for
//! which a call aborts, and the token balances that contracts move.
use vstd::hash_map::HashMapWithView;
use vstd::prelude::*;

verus! {

/// An account or contract address.
pub type Address = u64;

/// Which addresses have authorised the current invocation.
pub enum Auth {
    /// Every `require_auth` succeeds (the usual setting of a test harness).
    All,
    /// Only the listed addresses have signed.
    Only(Vec<Address>),
}

/// What a contract invocation can observe of the ledger it runs on.
pub struct CallContext {
    /// The ledger sequence number at which the call executes.
    pub sequence: u32,
    /// The signatures attached to the call.
    pub auth: Auth,
}

/// Why an invocation was aborted by the host (every effect is rolled back).
#[derive(PartialEq, Eq, Structural, Clone, Copy, Debug)]
pub enum Abort {
    /// `require_auth` failed for this address.
    MissingAuth(Address),
    /// A token transfer or mint was refused by the token contract.
    Token(TokenError),
    /// Checked integer arithmetic overflowed.
    Overflow,
    /// The contract was already initialised.
    AlreadyInitialized,
    /// The contract has not been initialised.
    NotInitialized,
    /// An amount that must be positive was not.
    NonPositiveAmount,
    /// Only the owner may call this entry point.
    OnlyOwner,
    /// The caller holds fewer shares than requested.
    InsufficientShares,
    /// The deposit would mint no shares.
    DepositTooSmall,
    /// The withdrawal would pay out nothing.
    WithdrawalTooSmall,
    /// A user tried to befriend themself.
    SelfFriendship,
    /// The username is already registered.
    UsernameTaken,
    /// No address is registered under the username.
    UsernameNotFound,
    /// The address has no registered username.
    AddressNotRegistered,
    /// A comment is longer than the limit.
    CommentTooLong,
    /// No treasury has been configured.
    TreasuryNotInitialized,
}

/// The result of a failed contract invocation: either one of the contract's
/// declared errors, or an abort raised by the host.
#[derive(PartialEq, Eq, Structural, Debug)]
pub enum Failure<E> {
    Contract(E),
    Aborted(Abort),
}

/// Why the token contract refused a transfer or a mint.
#[derive(PartialEq, Eq, Structural, Clone, Copy, Debug)]
pub enum TokenError {
    /// The amount is negative.
    NegativeAmount,
    /// The sender's balance is below the amount.
    InsufficientBalance,
    /// The receiver's balance would exceed `i128::MAX`.
    BalanceOverflow,
}

impl CallContext {
    /// Whether `who` has authorised this call.
    pub open spec fn authorizes(&self, who: Address) -> bool {
        match self.auth {
            Auth::All => true,
            Auth::Only(v) => v@.contains(who),
        }
    }

    /// A call context in which every address has signed.
    pub fn all_authorized(sequence: u32) -> (ctx: CallContext)
        ensures
            ctx.sequence == sequence,
            forall|a: Address| ctx.authorizes(a),
    {
        CallContext { sequence, auth: Auth::All }
    }

    /// A call context in which only the given addresses have signed.
    pub fn signed_by(sequence: u32, signers: Vec<Address>) -> (ctx: CallContext)
        ensures
            ctx.sequence == sequence,
            forall|a: Address| ctx.authorizes(a) <==> signers@.contains(a),
    {
        CallContext { sequence, auth: Auth::Only(signers) }
    }

    /// Checks the authorisation of `who`.
    pub fn require_auth(&self, who: Address) -> (ok: bool)
        ensures
            ok == self.authorizes(who),
    {
        match &self.auth {
            Auth::All => true,
            Auth::Only(v) => {
                let mut i: usize = 0;
                while i < v.len()
                    invariant
                        i <= v.len(),
                        self.authorizes(who) == v@.contains(who),
                        forall|j: int| 0 <= j < i ==> v@[j] != who,
                    decreases v.len() - i,
                {
                    if v[i] == who {
                        assert(v@[i as int] == who);
                        assert(v@.contains(who));
                        return true;
                    }
                    i = i + 1;
                }
                false
            },
        }
    }
}

/// The number of distinct holder addresses.
pub open spec fn address_space() -> int {
    0x1_0000_0000_0000_0000int
}

/// The slot of the balance of `holder` in `token`.
pub open spec fn slot(token: Address, holder: Address) -> u128 {
    (token as int * address_space() + holder as int) as u128
}

/// Distinct pairs of token and holder have distinct slots.
pub proof fn lemma_slot_injective(t1: Address, h1: Address, t2: Address, h2: Address)
    ensures
        slot(t1, h1) == slot(t2, h2) <==> (t1 == t2 && h1 == h2),
{
    let b = address_space();
    assert(0 <= t1 as int * b + (h1 as int) < 0x1_0000_0000_0000_0000_0000_0000_0000_0000int)
        by (nonlinear_arith)
        requires
            b == 0x1_0000_0000_0000_0000int,
            0 <= t1 < b,
            0 <= h1 < b,
    ;
    assert(0 <= t2 as int * b + (h2 as int) < 0x1_0000_0000_0000_0000_0000_0000_0000_0000int)
        by (nonlinear_arith)
        requires
            b == 0x1_0000_0000_0000_0000int,
            0 <= t2 < b,
            0 <= h2 < b,
    ;
    if t1 as int * b + h1 as int == t2 as int * b + h2 as int {
        assert(t1 == t2) by (nonlinear_arith)
            requires
                b > 0,
                0 <= h1 < b,
                0 <= h2 < b,
                t1 as int * b + h1 as int == t2 as int * b + h2 as int,
        ;
    }
}

/// The balance held in a slot map (an absent slot holds zero).
pub open spec fn slot_balance(m: Map<u128, i128>, token: Address, holder: Address) -> int {
    if m.contains_key(slot(token, holder)) {
        m[slot(token, holder)] as int
    } else {
        0
    }
}

/// Every balance of a slot map, by token and holder.
pub open spec fn balances_of(m: Map<u128, i128>) -> Map<(Address, Address), int> {
    Map::new(|p: (Address, Address)| true, |p: (Address, Address)| slot_balance(m, p.0, p.1))
}

/// Every pair of token and holder has a balance, between zero and `i128::MAX`.
pub open spec fn valid_balances(b: Map<(Address, Address), int>) -> bool {
    forall|p: (Address, Address)| #[trigger] b.contains_key(p) && 0 <= b[p] <= i128::MAX
}

/// Whether the token contract accepts a transfer of `amount` from `from` to `to`.
pub open spec fn transfer_allowed(
    b: Map<(Address, Address), int>,
    token: Address,
    from: Address,
    to: Address,
    amount: int,
) -> bool {
    &&& amount >= 0
    &&& b[(token, from)] >= amount
    &&& (from == to || b[(token, to)] + amount <= i128::MAX)
}

/// The balances after a transfer that the token contract accepted.
pub open spec fn after_transfer(
    b: Map<(Address, Address), int>,
    token: Address,
    from: Address,
    to: Address,
    amount: int,
) -> Map<(Address, Address), int> {
    if from == to {
        b
    } else {
        b.insert((token, from), b[(token, from)] - amount).insert(
            (token, to),
            b[(token, to)] + amount,
        )
    }
}

/// The reason for which the token contract refuses a transfer.
pub open spec fn transfer_refusal(
    b: Map<(Address, Address), int>,
    token: Address,
    from: Address,
    amount: int,
) -> TokenError {
    if amount < 0 {
        TokenError::NegativeAmount
    } else if b[(token, from)] < amount {
        TokenError::InsufficientBalance
    } else {
        TokenError::BalanceOverflow
    }
}

/// Paying `payouts` out of `from` one after the other; `None` when one of the
/// transfers is refused. A zero payout moves nothing.
pub open spec fn pay_all(
    b: Map<(Address, Address), int>,
    token: Address,
    from: Address,
    payouts: Seq<(Address, i128)>,
) -> Option<Map<(Address, Address), int>>
    decreases payouts.len(),
{
    if payouts.len() == 0 {
        Some(b)
    } else {
        match pay_all(b, token, from, payouts.drop_last()) {
            None => None,
            Some(prev) => {
                let (to, amount) = payouts.last();
                if amount == 0 {
                    Some(prev)
                } else if transfer_allowed(prev, token, from, to, amount as int) {
                    Some(after_transfer(prev, token, from, to, amount as int))
                } else {
                    None
                }
            },
        }
    }
}

/// Why the token contract refuses `pay_all`: the refusal of the first payout
/// that it refuses.
pub open spec fn pay_refusal(
    b: Map<(Address, Address), int>,
    token: Address,
    from: Address,
    payouts: Seq<(Address, i128)>,
) -> TokenError
    decreases payouts.len(),
{
    if payouts.len() == 0 {
        TokenError::NegativeAmount
    } else {
        match pay_all(b, token, from, payouts.drop_last()) {
            None => pay_refusal(b, token, from, payouts.drop_last()),
            Some(prev) => transfer_refusal(prev, token, from, payouts.last().1 as int),
        }
    }
}

/// Once a payout is refused, the reason stays that of the first refusal
/// however many payouts follow.
pub proof fn lemma_pay_refusal_extends(
    b: Map<(Address, Address), int>,
    token: Address,
    from: Address,
    payouts: Seq<(Address, i128)>,
    k: int,
)
    requires
        0 <= k <= payouts.len(),
        pay_all(b, token, from, payouts.take(k)) is None,
    ensures
        pay_refusal(b, token, from, payouts) == pay_refusal(b, token, from, payouts.take(k)),
    decreases payouts.len() - k,
{
    if k < payouts.len() {
        assert(payouts.take(k + 1).drop_last() == payouts.take(k));
        lemma_pay_refusal_extends(b, token, from, payouts, k + 1);
    } else {
        assert(payouts.take(k) == payouts);
    }
}

/// Once a payout is refused, paying a longer list is refused too.
pub proof fn lemma_pay_all_none_extends(
    b: Map<(Address, Address), int>,
    token: Address,
    from: Address,
    payouts: Seq<(Address, i128)>,
    k: int,
)
    requires
        0 <= k <= payouts.len(),
        pay_all(b, token, from, payouts.take(k)) is None,
    ensures
        pay_all(b, token, from, payouts) is None,
    decreases payouts.len() - k,
{
    if k < payouts.len() {
        assert(payouts.take(k + 1).drop_last() == payouts.take(k));
        lemma_pay_all_none_extends(b, token, from, payouts, k + 1);
    } else {
        assert(payouts.take(k) == payouts);
    }
}

/// A transfer that was accepted can always be sent back, and doing so restores
/// every balance.
pub proof fn lemma_transfer_reversible(
    b: Map<(Address, Address), int>,
    token: Address,
    from: Address,
    to: Address,
    amount: int,
)
    requires
        transfer_allowed(b, token, from, to, amount),
        valid_balances(b),
    ensures
        transfer_allowed(after_transfer(b, token, from, to, amount), token, to, from, amount),
        after_transfer(after_transfer(b, token, from, to, amount), token, to, from, amount) == b,
{
    assert(b.contains_key((token, to)));
    assert(b.contains_key((token, from)));
    if from != to {
        let b1 = after_transfer(b, token, from, to, amount);
        let b2 = after_transfer(b1, token, to, from, amount);
        assert(b2 =~= b);
    }
}

/// The balances of every token, kept by the token contracts.
pub struct TokenLedger {
    slots: HashMapWithView<u128, i128>,
}

impl TokenLedger {
    /// No stored balance is negative.
    #[verifier::type_invariant]
    spec fn no_negative_slot(&self) -> bool {
        forall|k: u128| #[trigger] self.slots@.contains_key(k) ==> self.slots@[k] >= 0
    }
}

impl View for TokenLedger {
    type V = Map<(Address, Address), int>;

    closed spec fn view(&self) -> Map<(Address, Address), int> {
        balances_of(self.slots@)
    }
}

/// Writing one slot changes the balance of exactly one pair.
proof fn lemma_write_slot(m: Map<u128, i128>, token: Address, holder: Address, v: i128)
    ensures
        balances_of(m.insert(slot(token, holder), v)) == balances_of(m).insert(
            (token, holder),
            v as int,
        ),
{
    let m2 = m.insert(slot(token, holder), v);
    assert forall|p: (Address, Address)|
        #![trigger balances_of(m2)[p]]
        balances_of(m2)[p] == balances_of(m).insert((token, holder), v as int)[p] by {
        lemma_slot_injective(p.0, p.1, token, holder);
    }
    assert(balances_of(m2) =~= balances_of(m).insert((token, holder), v as int));
}

impl TokenLedger {
    /// A ledger in which every balance is zero.
    pub fn new() -> (l: TokenLedger)
        ensures
            forall|p: (Address, Address)| #[trigger] l@[p] == 0,
            valid_balances(l@),
    {
        broadcast use vstd::std_specs::hash::group_hash_axioms;

        TokenLedger { slots: HashMapWithView::new() }
    }

    fn slot_of(token: Address, holder: Address) -> (s: u128)
        ensures
            s == slot(token, holder),
    {
        let t = token as u128;
        let h = holder as u128;
        assert(t as int * 0x1_0000_0000_0000_0000int + (h as int)
            < 0x1_0000_0000_0000_0000_0000_0000_0000_0000int) by (nonlinear_arith)
            requires
                t < 0x1_0000_0000_0000_0000int,
                h < 0x1_0000_0000_0000_0000int,
        ;
        t * 0x1_0000_0000_0000_0000u128 + h
    }

    /// The balance of `holder` in `token`.
    pub fn balance(&self, token: Address, holder: Address) -> (r: i128)
        ensures
            r as int == self@[(token, holder)],
            r >= 0,
    {
        proof {
            use_type_invariant(self);
        }
        let s = Self::slot_of(token, holder);
        match self.slots.get(&s) {
            Some(v) => *v,
            None => 0,
        }
    }

    fn write(&mut self, token: Address, holder: Address, v: i128)
        requires
            v >= 0,
        ensures
            final(self)@ == old(self)@.insert((token, holder), v as int),
    {
        proof {
            use_type_invariant(&*self);
        }
        let s = Self::slot_of(token, holder);
        proof {
            lemma_write_slot(self.slots@, token, holder, v);
        }
        let mut m = HashMapWithView::new();
        std::mem::swap(&mut m, &mut self.slots);
        m.insert(s, v);
        self.slots = m;
    }

    /// Creates `amount` new units of `token` for `to`.
    pub fn mint(&mut self, token: Address, to: Address, amount: i128) -> (r: Result<(), TokenError>)
        ensures
            r is Ok <==> (amount >= 0 && old(self)@[(token, to)] + amount <= i128::MAX),
            r is Ok ==> final(self)@ == old(self)@.insert(
                (token, to),
                old(self)@[(token, to)] + amount,
            ),
            r is Err ==> final(self)@ == old(self)@,
            r == Err::<(), TokenError>(TokenError::NegativeAmount) <==> amount < 0,
    {
        if amount < 0 {
            return Err(TokenError::NegativeAmount);
        }
        let current = self.balance(token, to);
        match current.checked_add(amount) {
            None => Err(TokenError::BalanceOverflow),
            Some(v) => {
                self.write(token, to, v);
                Ok(())
            },
        }
    }

    /// Whether `transfer` would accept the same arguments.
    pub fn can_transfer(&self, token: Address, from: Address, to: Address, amount: i128) -> (r:
        Result<(), TokenError>)
        ensures
            r is Ok <==> transfer_allowed(self@, token, from, to, amount as int),
            r is Err ==> r == Err::<(), TokenError>(
                transfer_refusal(self@, token, from, amount as int),
            ),
    {
        if amount < 0 {
            return Err(TokenError::NegativeAmount);
        }
        let fb = self.balance(token, from);
        if fb < amount {
            return Err(TokenError::InsufficientBalance);
        }
        if from != to {
            let tb = self.balance(token, to);
            if tb.checked_add(amount).is_none() {
                return Err(TokenError::BalanceOverflow);
            }
        }
        Ok(())
    }

    /// Moves `amount` of `token` from `from` to `to`.
    pub fn transfer(&mut self, token: Address, from: Address, to: Address, amount: i128) -> (r:
        Result<(), TokenError>)
        ensures
            r is Ok <==> transfer_allowed(old(self)@, token, from, to, amount as int),
            r is Ok ==> final(self)@ == after_transfer(old(self)@, token, from, to, amount as int),
            r is Err ==> final(self)@ == old(self)@,
            r is Err ==> r == Err::<(), TokenError>(
                transfer_refusal(old(self)@, token, from, amount as int),
            ),
    {
        let check = self.can_transfer(token, from, to, amount);
        if check.is_err() {
            return check;
        }
        if from != to {
            let fb = self.balance(token, from);
            let tb = self.balance(token, to);
            self.write(token, from, fb - amount);
            self.write(token, to, tb + amount);
        }
        Ok(())
    }

    /// Pays every `(to, amount)` of `payouts` out of `from` in order, all or
    /// nothing: when one transfer is refused, every balance is left unchanged.
    pub fn pay_out(&mut self, token: Address, from: Address, payouts: &Vec<(Address, i128)>) -> (r:
        Result<(), TokenError>)
        ensures
            r is Ok <==> pay_all(old(self)@, token, from, payouts@) is Some,
            r is Ok ==> final(self)@ == pay_all(old(self)@, token, from, payouts@)->0,
            r is Err ==> final(self)@ == old(self)@,
            r is Err ==> r == Err::<(), TokenError>(
                pay_refusal(old(self)@, token, from, payouts@),
            ),
    {
        proof {
            use_type_invariant(&*self);
            lemma_slots_valid(self.slots@);
        }
        let ghost start = self@;
        let ghost mut states: Seq<Map<(Address, Address), int>> = seq![start];
        let mut i: usize = 0;
        while i < payouts.len()
            invariant
                i <= payouts.len(),
                states.len() == i + 1,
                states[0] == start,
                start == old(self)@,
                valid_balances(start),
                forall|k: int|
                    0 <= k <= i ==> pay_all(start, token, from, #[trigger] payouts@.take(k))
                        == Some(states[k]),
                self@ == states[i as int],
            decreases payouts.len() - i,
        {
            let (to, amount) = payouts[i];
            assert(payouts@.take(i + 1).drop_last() == payouts@.take(i as int));
            if amount != 0 {
                let r = self.transfer(token, from, to, amount);
                if r.is_err() {
                    assert(pay_all(start, token, from, payouts@.take(i + 1)) is None);
                    assert(pay_refusal(start, token, from, payouts@.take(i + 1)) == transfer_refusal(
                        states[i as int],
                        token,
                        from,
                        amount as int,
                    ));
                    self.undo(token, from, payouts, i, Ghost(states), Ghost(start));
                    proof {
                        lemma_pay_all_none_extends(start, token, from, payouts@, i + 1);
                        lemma_pay_refusal_extends(start, token, from, payouts@, i + 1);
                    }
                    return r;
                }
            }
            proof {
                states = states.push(self@);
            }
            i = i + 1;
        }
        assert(payouts@.take(payouts@.len() as int) == payouts@);
        Ok(())
    }

    /// Reverses the first `n` payouts, whose intermediate balances are `states`.
    fn undo(
        &mut self,
        token: Address,
        from: Address,
        payouts: &Vec<(Address, i128)>,
        n: usize,
        Ghost(states): Ghost<Seq<Map<(Address, Address), int>>>,
        Ghost(start): Ghost<Map<(Address, Address), int>>,
    )
        requires
            n < payouts.len(),
            valid_balances(start),
            states.len() == n + 1,
            old(self)@ == states[n as int],
            forall|k: int|
                0 <= k <= n ==> pay_all(start, token, from, #[trigger] payouts@.take(k)) == Some(
                    states[k],
                ),
        ensures
            final(self)@ == start,
    {
        let mut j: usize = n;
        while j > 0
            invariant
                j <= n,
                n < payouts.len(),
                valid_balances(start),
                states.len() == n + 1,
                self@ == states[j as int],
                forall|k: int|
                    0 <= k <= n ==> pay_all(start, token, from, #[trigger] payouts@.take(k))
                        == Some(states[k]),
            decreases j,
        {
            let (to, amount) = payouts[j - 1];
            proof {
                assert(payouts@.take(j as int).drop_last() == payouts@.take(j - 1));
                assert(pay_all(start, token, from, payouts@.take(j - 1)) == Some(states[j - 1]));
                assert(pay_all(start, token, from, payouts@.take(j as int)) == Some(
                    states[j as int],
                ));
                if amount != 0 {
                    lemma_pay_all_valid(start, token, from, payouts@.take(j - 1));
                    lemma_transfer_reversible(states[j - 1], token, from, to, amount as int);
                }
            }
            if amount != 0 {
                let r = self.transfer(token, to, from, amount);
                assert(r is Ok);
            }
            j = j - 1;
        }
        assert(payouts@.take(0) == Seq::<(Address, i128)>::empty());
    }
}

/// Slots that hold no negative value give valid balances.
proof fn lemma_slots_valid(m: Map<u128, i128>)
    requires
        forall|k: u128| #[trigger] m.contains_key(k) ==> m[k] >= 0,
    ensures
        valid_balances(balances_of(m)),
{
    assert forall|p: (Address, Address)| #[trigger] balances_of(m).contains_key(p) && 0
        <= balances_of(m)[p] <= i128::MAX by {
        assert(balances_of(m)[p] == slot_balance(m, p.0, p.1));
    }
}

/// An accepted transfer keeps every balance valid.
pub proof fn lemma_transfer_valid(
    b: Map<(Address, Address), int>,
    token: Address,
    from: Address,
    to: Address,
    amount: int,
)
    requires
        valid_balances(b),
        transfer_allowed(b, token, from, to, amount),
    ensures
        valid_balances(after_transfer(b, token, from, to, amount)),
{
    assert(b.contains_key((token, to)));
    assert(b.contains_key((token, from)));
    let r = after_transfer(b, token, from, to, amount);
    assert forall|p: (Address, Address)| #[trigger] r.contains_key(p) && 0 <= r[p]
        <= i128::MAX by {
        assert(b.contains_key(p));
    }
}

/// Paying out keeps every balance valid.
pub proof fn lemma_pay_all_valid(
    b: Map<(Address, Address), int>,
    token: Address,
    from: Address,
    payouts: Seq<(Address, i128)>,
)
    requires
        valid_balances(b),
    ensures
        pay_all(b, token, from, payouts) matches Some(r) ==> valid_balances(r),
    decreases payouts.len(),
{
    if payouts.len() > 0 {
        lemma_pay_all_valid(b, token, from, payouts.drop_last());
        if let Some(prev) = pay_all(b, token, from, payouts.drop_last()) {
            let (to, amount) = payouts.last();
            if amount != 0 && transfer_allowed(prev, token, from, to, amount as int) {
                lemma_transfer_valid(prev, token, from, to, amount as int);
            }
        }
    }
}

} // verus!
