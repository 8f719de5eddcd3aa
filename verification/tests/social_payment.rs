use zaps::host::{Abort, CallContext, TokenError, TokenLedger};
use zaps::social_payment::{SocialEvent, SocialPaymentContract, Visibility};

const ADMIN: u64 = 1;
const TREASURY: u64 = 2;
const SENDER: u64 = 3;
const RECEIVER: u64 = 4;
const TOKEN: u64 = 50;

fn funded() -> (SocialPaymentContract, TokenLedger) {
    let mut client = SocialPaymentContract::new();
    client.initialize(ADMIN, TREASURY).unwrap();
    let mut tokens = TokenLedger::new();
    tokens.mint(TOKEN, SENDER, 10000).unwrap();
    (client, tokens)
}

#[test]
fn comment_payment_accepts_valid_comment() {
    let mut client = SocialPaymentContract::new();
    let ctx = CallContext::all_authorized(1);
    let tx_id = String::from("payment-123");
    let comment = String::from("This is a valid comment.");
    client.comment_payment(&ctx, SENDER, tx_id, comment).unwrap();
}

#[test]
fn comment_payment_rejects_overlong_comment() {
    let mut client = SocialPaymentContract::new();
    let ctx = CallContext::all_authorized(1);
    let tx_id = String::from("payment-456");
    let long_text = "x".repeat(121);
    assert_eq!(
        client.comment_payment(&ctx, SENDER, tx_id, long_text),
        Err(Abort::CommentTooLong)
    );
    assert!(client.events().is_empty());
}

#[test]
fn comment_of_exactly_120_bytes_is_accepted() {
    let mut client = SocialPaymentContract::new();
    let ctx = CallContext::all_authorized(1);
    let text = "y".repeat(120);
    client.comment_payment(&ctx, SENDER, String::from("t"), text.clone()).unwrap();
    match &client.events()[0] {
        SocialEvent::Commented { tx_id, comment } => {
            assert_eq!(tx_id, "t");
            assert_eq!(comment, &text);
        }
        _ => panic!("expected a comment event"),
    }
    // Multi-byte characters count by their encoding: 61 two-byte characters are 122 bytes.
    let wide = "é".repeat(61);
    assert_eq!(
        client.comment_payment(&ctx, SENDER, String::from("t"), wide),
        Err(Abort::CommentTooLong)
    );
}

#[test]
fn test_social_payment_public_visibility_deducts_fee() {
    let (mut client, mut tokens) = funded();
    let ctx = CallContext::all_authorized(1);
    let amount = 1000i128;
    let memo = String::from("Public payment");

    client
        .pay(&ctx, &mut tokens, SENDER, RECEIVER, TOKEN, amount, memo.clone(), Visibility::Public)
        .unwrap();

    // Platform fee = 0.1% of 1000 = 1
    assert_eq!(tokens.balance(TOKEN, RECEIVER), 999);
    assert_eq!(tokens.balance(TOKEN, TREASURY), 1);
    assert_eq!(tokens.balance(TOKEN, SENDER), 9000);

    let events = client.events();
    assert!(events.len() > 0);
    let mut found = false;
    for item in events.iter() {
        if let SocialEvent::Payment(event) = item {
            assert_eq!(event.sender, SENDER);
            assert_eq!(event.receiver, RECEIVER);
            assert_eq!(event.amount, amount);
            assert_eq!(event.memo, memo);
            assert_eq!(event.visibility, Visibility::Public);
            found = true;
            break;
        }
    }
    assert!(found, "SocialPaymentEvent was not emitted");
}

#[test]
fn test_social_payment_private_visibility_no_fee() {
    let (mut client, mut tokens) = funded();
    let ctx = CallContext::all_authorized(1);
    let amount = 1000i128;
    let memo = String::from("Private payment");

    client
        .pay(&ctx, &mut tokens, SENDER, RECEIVER, TOKEN, amount, memo, Visibility::Private)
        .unwrap();

    assert_eq!(tokens.balance(TOKEN, RECEIVER), 1000);
    assert_eq!(tokens.balance(TOKEN, TREASURY), 0);
    assert_eq!(tokens.balance(TOKEN, SENDER), 9000);
}

#[test]
fn test_like_payment_emits_event() {
    let mut client = SocialPaymentContract::new();
    let ctx = CallContext::all_authorized(1);
    let tx_id = String::from("tx-hash-456");

    client.like_payment(&ctx, SENDER, tx_id.clone()).unwrap();

    let events = client.events();
    assert!(events.len() > 0);
    let mut found = false;
    for item in events.iter() {
        if let SocialEvent::Liked { tx_id: event_tx_id, sender: event_sender } = item {
            assert_eq!(event_tx_id, &tx_id);
            assert_eq!(*event_sender, SENDER);
            found = true;
            break;
        }
    }
    assert!(found, "PaymentLiked event was not emitted");
}

#[test]
fn small_public_payment_pays_no_fee() {
    let (mut client, mut tokens) = funded();
    let ctx = CallContext::all_authorized(1);
    client
        .pay(&ctx, &mut tokens, SENDER, RECEIVER, TOKEN, 999, String::new(), Visibility::Public)
        .unwrap();
    assert_eq!(tokens.balance(TOKEN, RECEIVER), 999);
    assert_eq!(tokens.balance(TOKEN, TREASURY), 0);
    client
        .pay(&ctx, &mut tokens, SENDER, RECEIVER, TOKEN, 5500, String::new(), Visibility::Friends)
        .unwrap();
    assert_eq!(tokens.balance(TOKEN, TREASURY), 0);
    client
        .pay(&ctx, &mut tokens, SENDER, RECEIVER, TOKEN, 2500, String::new(), Visibility::Public)
        .unwrap();
    assert_eq!(tokens.balance(TOKEN, TREASURY), 2);
    assert_eq!(tokens.balance(TOKEN, RECEIVER), 999 + 5500 + 2498);
    assert_eq!(tokens.balance(TOKEN, SENDER), 1001);
}

#[test]
fn payment_errors() {
    let (mut client, mut tokens) = funded();
    let ctx = CallContext::signed_by(1, vec![RECEIVER]);
    assert_eq!(
        client.pay(&ctx, &mut tokens, SENDER, RECEIVER, TOKEN, 10, String::new(), Visibility::Public),
        Err(Abort::MissingAuth(SENDER))
    );
    let ctx = CallContext::all_authorized(1);
    assert_eq!(
        client.pay(&ctx, &mut tokens, SENDER, RECEIVER, TOKEN, 0, String::new(), Visibility::Public),
        Err(Abort::NonPositiveAmount)
    );
    assert_eq!(
        client.pay(&ctx, &mut tokens, SENDER, RECEIVER, TOKEN, 20000, String::new(), Visibility::Private),
        Err(Abort::Token(TokenError::InsufficientBalance))
    );
    assert_eq!(tokens.balance(TOKEN, SENDER), 10000);
    assert!(client.events().is_empty());

    let mut fresh = SocialPaymentContract::new();
    assert_eq!(
        fresh.pay(&ctx, &mut tokens, SENDER, RECEIVER, TOKEN, 10, String::new(), Visibility::Public),
        Err(Abort::TreasuryNotInitialized)
    );
    // A private payment needs no treasury.
    assert!(fresh
        .pay(&ctx, &mut tokens, SENDER, RECEIVER, TOKEN, 10, String::new(), Visibility::Private)
        .is_ok());
}

#[test]
fn initialize_once_and_admin_sets_treasury() {
    let mut client = SocialPaymentContract::new();
    let ctx = CallContext::signed_by(1, vec![ADMIN]);
    assert_eq!(client.set_treasury(&ctx, 9), Err(Abort::NotInitialized));
    client.initialize(ADMIN, TREASURY).unwrap();
    assert_eq!(client.initialize(ADMIN, 7), Err(Abort::AlreadyInitialized));
    assert_eq!(client.treasury(), Some(TREASURY));
    let stranger = CallContext::signed_by(1, vec![SENDER]);
    assert_eq!(client.set_treasury(&stranger, 9), Err(Abort::MissingAuth(ADMIN)));
    client.set_treasury(&ctx, 9).unwrap();
    assert_eq!(client.treasury(), Some(9));
    assert_eq!(Visibility::Public.code(), 0);
    assert_eq!(Visibility::Friends.code(), 1);
    assert_eq!(Visibility::Private.code(), 2);
}
