//! Social payment contract: payments between users that carry a memo and a
//! visibility, likes and comments on payments. A public payment pays a
//! platform fee of 0.1% (rounded down) to the treasury; other payments pay
//! none.
use crate::host::{pay_all, pay_refusal, Abort, Address, CallContext, TokenLedger};
use vstd::prelude::*;

verus! {

/// The longest comment accepted, in bytes of its UTF-8 encoding.
pub const MAX_COMMENT_BYTES: usize = 120;

/// The platform fee is the amount divided by this, rounded down.
pub const FEE_DIVISOR: i128 = 1000;

/// Who may see a payment.
#[derive(PartialEq, Eq, Structural, Clone, Copy, Debug)]
pub enum Visibility {
    Public,
    Friends,
    Private,
}

impl Visibility {
    /// The number under which the contract stores the visibility.
    pub open spec fn spec_code(self) -> u32 {
        match self {
            Visibility::Public => 0,
            Visibility::Friends => 1,
            Visibility::Private => 2,
        }
    }

    /// The number under which the contract stores the visibility.
    pub fn code(&self) -> (c: u32)
        ensures
            c == self.spec_code(),
    {
        match self {
            Visibility::Public => 0,
            Visibility::Friends => 1,
            Visibility::Private => 2,
        }
    }
}

/// The event published for every payment.
#[derive(Clone, Debug)]
pub struct SocialPaymentEvent {
    pub sender: Address,
    pub receiver: Address,
    pub amount: i128,
    pub memo: String,
    pub visibility: Visibility,
}

/// The events that the contract publishes.
#[derive(Clone, Debug)]
pub enum SocialEvent {
    /// Topic `"SocialPaymentEvent"`.
    Payment(SocialPaymentEvent),
    /// Topic `"PaymentLiked"`, data `(tx_id, sender)`.
    Liked { tx_id: String, sender: Address },
    /// Topic `"PaymentCommented"`, data `(tx_id, comment)`.
    Commented { tx_id: String, comment: String },
}

/// The length in bytes of the UTF-8 encoding of `s`.
pub open spec fn byte_len(s: Seq<char>) -> nat {
    vstd::utf8::encode_utf8(s).len()
}

/// The platform fee on a payment.
pub open spec fn platform_fee(amount: int, visibility: Visibility) -> int {
    if visibility == Visibility::Public {
        amount / FEE_DIVISOR as int
    } else {
        0
    }
}

/// The transfers out of the sender that a payment makes, in order.
pub open spec fn payment_transfers(
    amount: i128,
    visibility: Visibility,
    receiver: Address,
    treasury: Address,
) -> Seq<(Address, i128)> {
    let fee = platform_fee(amount as int, visibility);
    if visibility == Visibility::Public {
        seq![(receiver, (amount - fee) as i128), (treasury, fee as i128)]
    } else {
        seq![(receiver, amount)]
    }
}

/// The fee is never negative and never more than 0.1% of a positive amount;
/// the receiver gets the rest.
pub proof fn lemma_fee_bounds(amount: i128, visibility: Visibility)
    requires
        amount > 0,
    ensures
        0 <= platform_fee(amount as int, visibility),
        platform_fee(amount as int, visibility) * 1000 <= amount,
        0 < amount - platform_fee(amount as int, visibility) <= amount,
        visibility != Visibility::Public ==> platform_fee(amount as int, visibility) == 0,
{
}

/// The fee of a public payment is exactly 0.1% of the amount rounded down:
/// the largest whole number of thousandths not above the amount. Other
/// payments pay none.
pub proof fn lemma_public_fee_is_floor_of_a_thousandth(amount: int, visibility: Visibility)
    requires
        amount >= 0,
    ensures
        visibility == Visibility::Public ==> platform_fee(amount, visibility) * 1000 <= amount < (
        platform_fee(amount, visibility) + 1) * 1000,
        visibility != Visibility::Public ==> platform_fee(amount, visibility) == 0,
{
    if visibility == Visibility::Public {
        let f = amount / 1000;
        assert(f * 1000 <= amount < (f + 1) * 1000) by (nonlinear_arith)
            requires
                amount >= 0,
                f == amount / 1000,
        ;
    }
}

/// A payment that goes through takes exactly `amount` from the sender, gives
/// the receiver the amount less the fee and the treasury the fee, and
/// touches no other balance.
pub proof fn lemma_payment_conserves(
    b: Map<(Address, Address), int>,
    token: Address,
    sender: Address,
    receiver: Address,
    treasury: Address,
    amount: i128,
    visibility: Visibility,
)
    requires
        amount > 0,
        sender != receiver,
        sender != treasury,
        visibility == Visibility::Public ==> receiver != treasury,
        pay_all(b, token, sender, payment_transfers(amount, visibility, receiver, treasury)) is Some,
    ensures
        ({
            let after = pay_all(
                b,
                token,
                sender,
                payment_transfers(amount, visibility, receiver, treasury),
            )->0;
            let fee = platform_fee(amount as int, visibility);
            &&& after[(token, sender)] == b[(token, sender)] - amount
            &&& after[(token, receiver)] == b[(token, receiver)] + amount - fee
            &&& visibility == Visibility::Public ==> after[(token, treasury)] == b[(token, treasury)]
                + fee
            &&& forall|p: (Address, Address)|
                p != (token, sender) && p != (token, receiver) && (visibility
                    == Visibility::Public ==> p != (token, treasury)) ==> #[trigger] after[p]
                    == b[p]
        }),
{
    let t = payment_transfers(amount, visibility, receiver, treasury);
    let fee = platform_fee(amount as int, visibility);
    reveal_with_fuel(pay_all, 3);
    if visibility == Visibility::Public {
        assert(t.drop_last() =~= seq![(receiver, (amount - fee) as i128)]);
        assert(t.drop_last().drop_last() =~= Seq::<(Address, i128)>::empty());
    } else {
        assert(t.drop_last() =~= Seq::<(Address, i128)>::empty());
    }
}

/// The contract's state.
pub struct SocialPaymentView {
    pub admin: Option<Address>,
    pub treasury: Option<Address>,
    pub events: Seq<SocialEvent>,
}

/// The social payment contract.
pub struct SocialPaymentContract {
    admin: Option<Address>,
    treasury: Option<Address>,
    events: Vec<SocialEvent>,
}

impl View for SocialPaymentContract {
    type V = SocialPaymentView;

    closed spec fn view(&self) -> SocialPaymentView {
        SocialPaymentView { admin: self.admin, treasury: self.treasury, events: self.events@ }
    }
}

impl SocialPaymentContract {
    /// A freshly deployed, uninitialised contract.
    pub fn new() -> (c: SocialPaymentContract)
        ensures
            c@.admin is None,
            c@.treasury is None,
            c@.events.len() == 0,
    {
        SocialPaymentContract { admin: None, treasury: None, events: Vec::new() }
    }

    /// The events published so far, oldest first.
    pub fn events(&self) -> (r: &Vec<SocialEvent>)
        ensures
            r@ == self@.events,
    {
        &self.events
    }

    /// The configured treasury, if any.
    pub fn treasury(&self) -> (r: Option<Address>)
        ensures
            r == self@.treasury,
    {
        self.treasury
    }

    /// Sets the admin and the treasury, once.
    pub fn initialize(&mut self, admin: Address, treasury: Address) -> (r: Result<(), Abort>)
        ensures
            r is Ok <==> old(self)@.admin is None,
            r is Err ==> r == Err::<(), Abort>(Abort::AlreadyInitialized) && final(self)@ == old(
                self,
            )@,
            r is Ok ==> final(self)@ == (SocialPaymentView {
                admin: Some(admin),
                treasury: Some(treasury),
                events: old(self)@.events,
            }),
    {
        if self.admin.is_some() {
            return Err(Abort::AlreadyInitialized);
        }
        self.admin = Some(admin);
        self.treasury = Some(treasury);
        Ok(())
    }

    /// Replaces the treasury; the admin must sign.
    pub fn set_treasury(&mut self, ctx: &CallContext, new_treasury: Address) -> (r: Result<
        (),
        Abort,
    >)
        ensures
            r is Ok <==> (old(self)@.admin matches Some(a) && ctx.authorizes(a)),
            old(self)@.admin is None ==> r == Err::<(), Abort>(Abort::NotInitialized),
            old(self)@.admin matches Some(a) ==> (!ctx.authorizes(a) ==> r == Err::<(), Abort>(
                Abort::MissingAuth(a),
            )),
            r is Err ==> final(self)@ == old(self)@,
            r is Ok ==> final(self)@ == (SocialPaymentView {
                treasury: Some(new_treasury),
                ..old(self)@
            }),
    {
        let admin = match self.admin {
            Some(a) => a,
            None => return Err(Abort::NotInitialized),
        };
        if !ctx.require_auth(admin) {
            return Err(Abort::MissingAuth(admin));
        }
        self.treasury = Some(new_treasury);
        Ok(())
    }

    /// Pays `amount` of `token` from `sender` to `receiver`, less the platform
    /// fee for a public payment, and publishes the payment.
    pub fn pay(
        &mut self,
        ctx: &CallContext,
        tokens: &mut TokenLedger,
        sender: Address,
        receiver: Address,
        token: Address,
        amount: i128,
        memo: String,
        visibility: Visibility,
    ) -> (r: Result<(), Abort>)
        ensures
            ({
                let transfers = payment_transfers(
                    amount,
                    visibility,
                    receiver,
                    old(self)@.treasury->0,
                );
                &&& r is Ok <==> (ctx.authorizes(sender) && amount > 0 && (visibility
                    == Visibility::Public ==> old(self)@.treasury is Some) && pay_all(
                    old(tokens)@,
                    token,
                    sender,
                    transfers,
                ) is Some)
                &&& !ctx.authorizes(sender) ==> r == Err::<(), Abort>(Abort::MissingAuth(sender))
                &&& ctx.authorizes(sender) && amount <= 0 ==> r == Err::<(), Abort>(
                    Abort::NonPositiveAmount,
                )
                &&& ctx.authorizes(sender) && amount > 0 && visibility == Visibility::Public
                    && old(self)@.treasury is None ==> r == Err::<(), Abort>(
                    Abort::TreasuryNotInitialized,
                )
                &&& ctx.authorizes(sender) && amount > 0 && (visibility == Visibility::Public
                    ==> old(self)@.treasury is Some) && r is Err ==> r == Err::<(), Abort>(
                    Abort::Token(pay_refusal(old(tokens)@, token, sender, transfers)),
                )
                &&& r is Err ==> final(self)@ == old(self)@ && final(tokens)@ == old(tokens)@
                &&& r is Ok ==> final(tokens)@ == pay_all(old(tokens)@, token, sender, transfers)->0
                    && final(self)@ == (SocialPaymentView {
                    events: old(self)@.events.push(
                        SocialEvent::Payment(
                            SocialPaymentEvent { sender, receiver, amount, memo, visibility },
                        ),
                    ),
                    ..old(self)@
                })
            }),
    {
        if !ctx.require_auth(sender) {
            return Err(Abort::MissingAuth(sender));
        }
        if amount <= 0 {
            return Err(Abort::NonPositiveAmount);
        }
        let mut transfers: Vec<(Address, i128)> = Vec::new();
        if visibility == Visibility::Public {
            let treasury = match self.treasury {
                Some(t) => t,
                None => return Err(Abort::TreasuryNotInitialized),
            };
            let fee = amount / FEE_DIVISOR;
            transfers.push((receiver, amount - fee));
            transfers.push((treasury, fee));
        } else {
            transfers.push((receiver, amount));
        }
        assert(transfers@ =~= payment_transfers(amount, visibility, receiver, self@.treasury->0));
        match tokens.pay_out(token, sender, &transfers) {
            Ok(()) => {},
            Err(e) => return Err(Abort::Token(e)),
        }
        self.events.push(
            SocialEvent::Payment(SocialPaymentEvent { sender, receiver, amount, memo, visibility }),
        );
        Ok(())
    }

    /// Publishes that `sender` liked the payment `tx_id`.
    pub fn like_payment(&mut self, ctx: &CallContext, sender: Address, tx_id: String) -> (r: Result<
        (),
        Abort,
    >)
        ensures
            r is Ok <==> ctx.authorizes(sender),
            r is Err ==> r == Err::<(), Abort>(Abort::MissingAuth(sender)) && final(self)@ == old(
                self,
            )@,
            r is Ok ==> final(self)@ == (SocialPaymentView {
                events: old(self)@.events.push(SocialEvent::Liked { tx_id, sender }),
                ..old(self)@
            }),
    {
        if !ctx.require_auth(sender) {
            return Err(Abort::MissingAuth(sender));
        }
        self.events.push(SocialEvent::Liked { tx_id, sender });
        Ok(())
    }

    /// Publishes a comment of `sender` on the payment `tx_id`; a comment of
    /// more than 120 bytes is refused.
    pub fn comment_payment(
        &mut self,
        ctx: &CallContext,
        sender: Address,
        tx_id: String,
        comment: String,
    ) -> (r: Result<(), Abort>)
        ensures
            r is Ok <==> (ctx.authorizes(sender) && byte_len(comment@) <= MAX_COMMENT_BYTES),
            !ctx.authorizes(sender) ==> r == Err::<(), Abort>(Abort::MissingAuth(sender)),
            ctx.authorizes(sender) && byte_len(comment@) > MAX_COMMENT_BYTES ==> r == Err::<
                (),
                Abort,
            >(Abort::CommentTooLong),
            r is Err ==> final(self)@ == old(self)@,
            r is Ok ==> final(self)@ == (SocialPaymentView {
                events: old(self)@.events.push(SocialEvent::Commented { tx_id, comment }),
                ..old(self)@
            }),
    {
        if !ctx.require_auth(sender) {
            return Err(Abort::MissingAuth(sender));
        }
        let len = comment.as_str().as_bytes().len();
        if len > MAX_COMMENT_BYTES {
            return Err(Abort::CommentTooLong);
        }
        self.events.push(SocialEvent::Commented { tx_id, comment });
        Ok(())
    }
}

} // verus!
