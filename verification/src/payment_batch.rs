//! Batch payment contract: one payer pays up to ten recipients in one call.
//! A payment with a non-positive amount, or whose transfer the token refuses,
//! is reported as failed without stopping the others.
use crate::host::{after_transfer, transfer_allowed, Abort, Address, CallContext, Failure, TokenLedger};
use vstd::prelude::*;

verus! {

/// The largest number of payments in one batch.
pub const MAX_BATCH_SIZE: u32 = 10;

/// The errors that the contract declares.
#[derive(PartialEq, Eq, Structural, Clone, Copy, Debug)]
pub enum BatchPaymentError {
    InvalidBatchSize,
    InvalidAmount,
    TokenTransferFailed,
}

impl BatchPaymentError {
    /// The numeric code under which the contract reports the error.
    pub open spec fn spec_code(self) -> u32 {
        match self {
            BatchPaymentError::InvalidBatchSize => 1,
            BatchPaymentError::InvalidAmount => 2,
            BatchPaymentError::TokenTransferFailed => 3,
        }
    }

    /// The numeric code under which the contract reports the error.
    pub fn code(&self) -> (c: u32)
        ensures
            c == self.spec_code(),
    {
        match self {
            BatchPaymentError::InvalidBatchSize => 1,
            BatchPaymentError::InvalidAmount => 2,
            BatchPaymentError::TokenTransferFailed => 3,
        }
    }
}

/// One payment of a batch.
#[derive(PartialEq, Eq, Structural, Clone, Copy, Debug)]
pub struct BatchPaymentRequest {
    pub recipient: Address,
    pub asset: Address,
    pub amount: i128,
}

/// The outcome of one payment of a batch.
#[derive(PartialEq, Eq, Structural, Clone, Copy, Debug)]
pub struct BatchPaymentResult {
    pub payer: Address,
    pub recipient: Address,
    pub asset: Address,
    pub amount: i128,
    pub success: bool,
    pub error_code: Option<u32>,
}

/// The event published for each payment: topic `("batchpay", "success")` or
/// `("batchpay", "failure")`.
#[derive(PartialEq, Eq, Structural, Clone, Copy, Debug)]
pub struct BatchPaymentEvent {
    pub payer: Address,
    pub recipient: Address,
    pub asset: Address,
    pub amount: i128,
    pub success: bool,
    pub error_code: Option<u32>,
}

/// Whether the payment goes through on the given balances.
pub open spec fn payment_succeeds(
    b: Map<(Address, Address), int>,
    payer: Address,
    req: BatchPaymentRequest,
) -> bool {
    req.amount > 0 && transfer_allowed(b, req.asset, payer, req.recipient, req.amount as int)
}

/// The result reported for one payment on the given balances.
pub open spec fn payment_result(
    b: Map<(Address, Address), int>,
    payer: Address,
    req: BatchPaymentRequest,
) -> BatchPaymentResult {
    let success = payment_succeeds(b, payer, req);
    BatchPaymentResult {
        payer,
        recipient: req.recipient,
        asset: req.asset,
        amount: req.amount,
        success,
        error_code: if req.amount <= 0 {
            Some(BatchPaymentError::InvalidAmount.spec_code())
        } else if success {
            None
        } else {
            Some(BatchPaymentError::TokenTransferFailed.spec_code())
        },
    }
}

/// The balances after one payment.
pub open spec fn after_payment(
    b: Map<(Address, Address), int>,
    payer: Address,
    req: BatchPaymentRequest,
) -> Map<(Address, Address), int> {
    if payment_succeeds(b, payer, req) {
        after_transfer(b, req.asset, payer, req.recipient, req.amount as int)
    } else {
        b
    }
}

/// The balances after the first `k` payments.
pub open spec fn balances_after(
    b: Map<(Address, Address), int>,
    payer: Address,
    reqs: Seq<BatchPaymentRequest>,
    k: int,
) -> Map<(Address, Address), int>
    decreases k,
{
    if k <= 0 {
        b
    } else {
        after_payment(balances_after(b, payer, reqs, k - 1), payer, reqs[k - 1])
    }
}

/// The results of the first `k` payments.
pub open spec fn results_after(
    b: Map<(Address, Address), int>,
    payer: Address,
    reqs: Seq<BatchPaymentRequest>,
    k: int,
) -> Seq<BatchPaymentResult>
    decreases k,
{
    if k <= 0 {
        Seq::empty()
    } else {
        results_after(b, payer, reqs, k - 1).push(
            payment_result(balances_after(b, payer, reqs, k - 1), payer, reqs[k - 1]),
        )
    }
}

/// The event that reports a payment result.
pub open spec fn event_of(r: BatchPaymentResult) -> BatchPaymentEvent {
    BatchPaymentEvent {
        payer: r.payer,
        recipient: r.recipient,
        asset: r.asset,
        amount: r.amount,
        success: r.success,
        error_code: r.error_code,
    }
}

/// The batch payment contract.
pub struct PaymentBatchContract {
    events: Vec<BatchPaymentEvent>,
}

impl PaymentBatchContract {
    /// The events published so far, oldest first.
    pub closed spec fn published(&self) -> Seq<BatchPaymentEvent> {
        self.events@
    }

    /// A freshly deployed contract.
    pub fn new() -> (c: PaymentBatchContract)
        ensures
            c.published().len() == 0,
    {
        PaymentBatchContract { events: Vec::new() }
    }

    /// The events published so far, oldest first.
    pub fn events(&self) -> (r: &Vec<BatchPaymentEvent>)
        ensures
            r@ == self.published(),
    {
        &self.events
    }

    /// Pays every request from `payer` in order and reports each outcome.
    pub fn batch_payments(
        &mut self,
        ctx: &CallContext,
        tokens: &mut TokenLedger,
        payer: Address,
        requests: &Vec<BatchPaymentRequest>,
    ) -> (r: Result<Vec<BatchPaymentResult>, Failure<BatchPaymentError>>)
        ensures
            r is Err ==> final(self).published() == old(self).published() && final(tokens)@ == old(tokens)@,
            !ctx.authorizes(payer) ==> r == Err::<Vec<BatchPaymentResult>, Failure<BatchPaymentError>>(
                Failure::Aborted(Abort::MissingAuth(payer)),
            ),
            ctx.authorizes(payer) && (requests@.len() == 0 || requests@.len() > MAX_BATCH_SIZE)
                ==> r == Err::<Vec<BatchPaymentResult>, Failure<BatchPaymentError>>(
                Failure::Contract(BatchPaymentError::InvalidBatchSize),
            ),
            r is Ok <==> (ctx.authorizes(payer) && 1 <= requests@.len() <= MAX_BATCH_SIZE),
            r matches Ok(results) ==> {
                &&& results@ == results_after(old(tokens)@, payer, requests@, requests@.len() as int)
                &&& final(tokens)@ == balances_after(
                    old(tokens)@,
                    payer,
                    requests@,
                    requests@.len() as int,
                )
                &&& final(self).published() == old(self).published() + results@.map_values(
                    |x: BatchPaymentResult| event_of(x),
                )
            },
    {
        if !ctx.require_auth(payer) {
            return Err(Failure::Aborted(Abort::MissingAuth(payer)));
        }
        let count = requests.len();
        if count == 0 || count > MAX_BATCH_SIZE as usize {
            return Err(Failure::Contract(BatchPaymentError::InvalidBatchSize));
        }
        let ghost start = tokens@;
        let ghost events0 = self.events@;
        let mut results: Vec<BatchPaymentResult> = Vec::new();
        let mut i: usize = 0;
        while i < count
            invariant
                count == requests@.len(),
                i <= count,
                start == old(tokens)@,
                events0 == old(self).published(),
                results@ == results_after(start, payer, requests@, i as int),
                tokens@ == balances_after(start, payer, requests@, i as int),
                self.events@ == events0 + results@.map_values(|x: BatchPaymentResult| event_of(x)),
            decreases count - i,
        {
            let request = requests[i];
            let result = process_payment(tokens, payer, &request);
            let ghost before = results@;
            self.events.push(emit_payment_event(payer, &request, result.success, result.error_code));
            results.push(result);
            proof {
                assert(results@.map_values(|x: BatchPaymentResult| event_of(x)) =~= before.map_values(
                    |x: BatchPaymentResult| event_of(x),
                ).push(event_of(result)));
            }
            i = i + 1;
        }
        Ok(results)
    }
}

/// Pays one request, reporting rather than propagating a refused transfer.
pub fn process_payment(tokens: &mut TokenLedger, payer: Address, request: &BatchPaymentRequest) -> (r:
    BatchPaymentResult)
    ensures
        r == payment_result(old(tokens)@, payer, *request),
        final(tokens)@ == after_payment(old(tokens)@, payer, *request),
{
    let success = request.amount > 0 && tokens.transfer(
        request.asset,
        payer,
        request.recipient,
        request.amount,
    ).is_ok();
    let error_code = if request.amount <= 0 {
        Some(BatchPaymentError::InvalidAmount.code())
    } else if success {
        None
    } else {
        Some(BatchPaymentError::TokenTransferFailed.code())
    };
    BatchPaymentResult {
        payer,
        recipient: request.recipient,
        asset: request.asset,
        amount: request.amount,
        success,
        error_code,
    }
}

/// The event that reports one payment.
pub fn emit_payment_event(
    payer: Address,
    request: &BatchPaymentRequest,
    success: bool,
    error_code: Option<u32>,
) -> (e: BatchPaymentEvent)
    ensures
        e == (BatchPaymentEvent {
            payer,
            recipient: request.recipient,
            asset: request.asset,
            amount: request.amount,
            success,
            error_code,
        }),
{
    BatchPaymentEvent {
        payer,
        recipient: request.recipient,
        asset: request.asset,
        amount: request.amount,
        success,
        error_code,
    }
}

} // verus!
