use zaps::host::{CallContext, Failure, TokenLedger};
use zaps::payment_batch::{
    BatchPaymentError, BatchPaymentRequest, PaymentBatchContract, MAX_BATCH_SIZE,
};

const TOKEN: u64 = 7;
const PAYER1: u64 = 1;
const PAYER2: u64 = 2;

fn setup_env() -> (CallContext, TokenLedger, PaymentBatchContract) {
    let mut tokens = TokenLedger::new();
    tokens.mint(TOKEN, PAYER1, 10_000).unwrap();
    tokens.mint(TOKEN, PAYER2, 1_000).unwrap();
    (CallContext::all_authorized(0), tokens, PaymentBatchContract::new())
}

#[test]
fn test_batch_payments_success_and_event_emission() {
    let (ctx, mut tokens, mut client) = setup_env();
    let requests = vec![
        BatchPaymentRequest { recipient: 20, asset: TOKEN, amount: 500 },
        BatchPaymentRequest { recipient: 21, asset: TOKEN, amount: 250 },
    ];
    let results = client.batch_payments(&ctx, &mut tokens, PAYER1, &requests).unwrap();
    assert_eq!(results.len(), 2);
    assert!(results[0].success);
    assert!(results[1].success);
    assert_eq!(client.events().len(), 2);
}

#[test]
fn test_batch_payment_partial_failure() {
    let (ctx, mut tokens, mut client) = setup_env();
    let requests = vec![
        BatchPaymentRequest { recipient: 20, asset: TOKEN, amount: 500 },
        BatchPaymentRequest { recipient: 21, asset: TOKEN, amount: 20_000 },
    ];
    let results = client.batch_payments(&ctx, &mut tokens, PAYER1, &requests).unwrap();
    assert_eq!(results.len(), 2);
    assert!(results[0].success);
    assert!(!results[1].success);
    assert_eq!(results[1].error_code, Some(BatchPaymentError::TokenTransferFailed.code()));
}

#[test]
#[should_panic]
fn test_batch_size_limit() {
    let (ctx, mut tokens, mut client) = setup_env();
    let requests: Vec<BatchPaymentRequest> = (0..(MAX_BATCH_SIZE + 1))
        .map(|_| BatchPaymentRequest { recipient: 20, asset: TOKEN, amount: 1 })
        .collect();
    let _ = client.batch_payments(&ctx, &mut tokens, PAYER1, &requests).unwrap();
}

#[test]
fn batch_moves_balances_and_reports_invalid_amounts() {
    let (ctx, mut tokens, mut client) = setup_env();
    let requests = vec![
        BatchPaymentRequest { recipient: 20, asset: TOKEN, amount: 0 },
        BatchPaymentRequest { recipient: 21, asset: TOKEN, amount: 600 },
        BatchPaymentRequest { recipient: 21, asset: TOKEN, amount: 600 },
    ];
    let results = client.batch_payments(&ctx, &mut tokens, PAYER2, &requests).unwrap();
    assert_eq!(results[0].error_code, Some(2));
    assert!(results[1].success);
    assert_eq!(results[2].error_code, Some(3));
    assert_eq!(tokens.balance(TOKEN, PAYER2), 400);
    assert_eq!(tokens.balance(TOKEN, 21), 600);
    assert!(!client.events()[0].success);
}

#[test]
fn batch_empty_is_rejected_and_needs_payer_signature() {
    let (ctx, mut tokens, mut client) = setup_env();
    assert_eq!(
        client.batch_payments(&ctx, &mut tokens, PAYER1, &vec![]),
        Err(Failure::Contract(BatchPaymentError::InvalidBatchSize))
    );
    let unsigned = CallContext::signed_by(0, vec![]);
    let one = vec![BatchPaymentRequest { recipient: 20, asset: TOKEN, amount: 1 }];
    assert!(client.batch_payments(&unsigned, &mut tokens, PAYER1, &one).is_err());
    assert_eq!(tokens.balance(TOKEN, PAYER1), 10_000);
}
