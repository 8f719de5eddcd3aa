use base64::Engine;
use zaps::yield_api::{
    balance_apy_bps, balances_after, build_stellar_envelope_xdr, check_move, check_move_amount, deposit_response,
    withdraw_response, HistoryQuery, ToggleAutoEarnResponse, YieldMove, YieldMoveError,
};

fn decode(b64: &str) -> serde_json::Value {
    let raw = base64::engine::general_purpose::STANDARD.decode(b64).expect("base64");
    serde_json::from_slice(&raw).expect("json")
}

#[test]
fn history_window_clamps() {
    assert_eq!(HistoryQuery { limit: None, offset: None }.window(), (20, 0));
    assert_eq!(HistoryQuery { limit: Some(0), offset: Some(-3) }.window(), (1, 0));
    assert_eq!(HistoryQuery { limit: Some(500), offset: Some(40) }.window(), (100, 40));
    assert_eq!(HistoryQuery { limit: Some(37), offset: Some(0) }.window(), (37, 0));
}

#[test]
fn move_checks() {
    assert_eq!(check_move_amount(0), Err(YieldMoveError::AmountNotPositive));
    assert_eq!(check_move_amount(5), Ok(()));
    assert_eq!(check_move(YieldMove::Deposit, 10, 9, 100), Err(YieldMoveError::InsufficientAvailable(9)));
    assert_eq!(check_move(YieldMove::Deposit, 10, 10, 0), Ok(()));
    assert_eq!(check_move(YieldMove::Withdraw, 10, 100, 3), Err(YieldMoveError::InsufficientEarning(3)));
    assert_eq!(check_move(YieldMove::Withdraw, -1, 100, 3), Err(YieldMoveError::AmountNotPositive));
    assert_eq!(YieldMoveError::InsufficientAvailable(9).message(), "Insufficient available balance");
    assert_eq!(YieldMoveError::AmountNotPositive.message(), "Amount must be greater than zero");
}

#[test]
fn move_names_and_references() {
    assert_eq!(YieldMove::Deposit.reference("abc"), "zaps-yield-deposit-abc");
    assert_eq!(YieldMove::Withdraw.reference("abc"), "zaps-yield-withdraw-abc");
    assert_eq!(YieldMove::Deposit.operation(), "yield_deposit");
    assert_eq!(YieldMove::Withdraw.tx_type(), "WITHDRAW");
}

#[test]
fn envelope_is_base64_json_with_sorted_keys() {
    let xdr = build_stellar_envelope_xdr("GABC", "yield_deposit", 1500, "ref-1");
    let raw = base64::engine::general_purpose::STANDARD.decode(&xdr).unwrap();
    assert_eq!(
        String::from_utf8(raw).unwrap(),
        r#"{"amount":1500,"memo":"Zaps Yield: ref-1","network":"Stellar Mainnet","operation":"yield_deposit","reference":"ref-1","source_account":"GABC"}"#
    );
    let v = decode(&build_stellar_envelope_xdr("G\"q", "op", -3, "r"));
    assert_eq!(v["source_account"], "G\"q");
    assert_eq!(v["amount"], -3);
}

#[test]
fn responses_carry_balances_and_envelope() {
    let d = deposit_response("GUSER", 100, "zaps-yield-deposit-x", 900, 1100);
    assert_eq!((d.available_balance, d.earning_balance), (900, 1100));
    assert_eq!(decode(&d.envelope_xdr)["operation"], "yield_deposit");
    let w = withdraw_response("GUSER", 100, "zaps-yield-withdraw-x", 1000, 1000);
    assert_eq!(decode(&w.envelope_xdr)["operation"], "yield_withdraw");
    assert_eq!(decode(&w.envelope_xdr)["memo"], "Zaps Yield: zaps-yield-withdraw-x");
}

#[test]
fn toggle_and_apy_defaults() {
    let on = ToggleAutoEarnResponse::for_setting(true);
    assert!(on.auto_earn_enabled);
    assert_eq!(on.message, "Auto-earn enabled. Idle stablecoins will be swept into the yield vault.");
    assert_eq!(ToggleAutoEarnResponse::for_setting(false).message, "Auto-earn disabled.");
    assert_eq!(balance_apy_bps(None), 500);
    assert_eq!(balance_apy_bps(Some(725)), 725);
}

#[test]
fn moves_shift_balances_and_round_trip() {
    assert_eq!(balances_after(YieldMove::Deposit, 10, 25, 5), Some((15, 15)));
    assert_eq!(balances_after(YieldMove::Withdraw, 10, 15, 15), Some((25, 5)));
    assert_eq!(balances_after(YieldMove::Deposit, 10, 10, i64::MAX - 9), None);
    assert_eq!(balances_after(YieldMove::Withdraw, 10, i64::MAX - 9, 10), None);
}
