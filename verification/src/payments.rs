//! The payment endpoints' decisions: compliance screening, the payloads of
//! QR and NFC payments, and their answers.
use crate::api::ApiError;
use crate::ids::{parse_uuid, uuid_parsed};
use crate::soroban::{
    asset_problem, asset_problem_message, build_payment_xdr, memo_text, payment_payload, validate_asset,
};
use crate::text::base64_standard;
use vstd::utf8::encode_utf8;
use vstd::prelude::*;

verus! {

/// The sender named in the payload of an API payment (the wallet replaces it).
pub const API_SENDER_PLACEHOLDER: &'static str = "GEXAMPLE_ADDRESS";

/// The sender named in a QR payment payload (the wallet replaces it).
pub const QR_SENDER_PLACEHOLDER: &'static str = "GQRCODE_PLACEHOLDER";

/// The sender named in an NFC payment payload (the wallet replaces it).
pub const NFC_SENDER_PLACEHOLDER: &'static str = "GNFC_PLACEHOLDER";

/// The outcome of a compliance screening.
#[derive(PartialEq, Eq, Structural, Clone, Copy, Debug)]
pub enum RiskLevel {
    Low,
    Medium,
    High,
    Blocked,
}

/// A payment may proceed unless screening blocked it.
pub fn check_risk(level: RiskLevel) -> (r: Result<(), ApiError>)
    ensures
        level != RiskLevel::Blocked ==> r is Ok,
        level == RiskLevel::Blocked ==> (r matches Err(ApiError::Compliance(m)) && m@
            == "Payment blocked by sanctions screening"@),
{
    if level == RiskLevel::Blocked {
        Err(ApiError::Compliance(String::from_str("Payment blocked by sanctions screening")))
    } else {
        Ok(())
    }
}

/// The payload of an API payment to the merchant's vault, for the server to
/// simulate and sponsor: refused when the asset is malformed, then when
/// screening blocked the payment; the sender is the placeholder that the
/// wallet replaces.
pub fn payment_to_sponsor(
    vault_address: &str,
    asset: &str,
    amount: i64,
    memo: Option<&str>,
    risk: RiskLevel,
) -> (r: Result<String, ApiError>)
    ensures
        asset_problem(asset@) is Some ==> (r matches Err(ApiError::Validation(m)) && m@
            == asset_problem_message(asset_problem(asset@)->0)),
        asset_problem(asset@) is None && risk == RiskLevel::Blocked ==> (r matches Err(
            ApiError::Compliance(m),
        ) && m@ == "Payment blocked by sanctions screening"@),
        asset_problem(asset@) is None && risk != RiskLevel::Blocked ==> (r matches Ok(x) && x@
            == base64_standard(
            encode_utf8(
                payment_payload(
                    API_SENDER_PLACEHOLDER@,
                    vault_address@,
                    asset@,
                    amount as int,
                    memo_text(memo),
                ),
            ),
        )),
{
    match validate_asset(asset) {
        Ok(()) => {},
        Err(e) => return Err(e),
    }
    match check_risk(risk) {
        Ok(()) => {},
        Err(e) => return Err(e),
    }
    build_payment_xdr(API_SENDER_PLACEHOLDER, vault_address, asset, amount, memo)
}

/// Reads a payment id: 400 "Invalid Payment ID" when it is not a UUID.
pub fn payment_id_of(text: &str) -> (r: Result<u128, ApiError>)
    ensures
        uuid_parsed(text@) matches Some(id) ==> r == Ok::<u128, ApiError>(id),
        uuid_parsed(text@) is None ==> (r matches Err(ApiError::Validation(m)) && m@
            == "Invalid Payment ID"@),
{
    match parse_uuid(text) {
        Some(id) => Ok(id),
        None => Err(ApiError::Validation(String::from_str("Invalid Payment ID"))),
    }
}

/// A request for a QR payment code.
pub struct QrPaymentRequest {
    pub merchant_id: String,
    pub amount: i64,
    pub asset: String,
    pub memo: Option<String>,
    pub expiry: i64,
}

/// A QR payment code and its payload.
pub struct QrPaymentResponse {
    pub qr_data: String,
    pub merchant_id: String,
    pub amount: i64,
    pub asset: String,
    /// The payload for the QR code, sponsored when a fee payer is available.
    pub xdr_payload: Option<String>,
}

impl QrPaymentResponse {
    /// The answer to a QR request.
    pub fn for_request(request: QrPaymentRequest, qr_data: String, xdr_payload: Option<String>) -> (r:
        QrPaymentResponse)
        ensures
            r.qr_data == qr_data,
            r.merchant_id == request.merchant_id,
            r.amount == request.amount,
            r.asset == request.asset,
            r.xdr_payload == xdr_payload,
    {
        QrPaymentResponse {
            qr_data,
            merchant_id: request.merchant_id,
            amount: request.amount,
            asset: request.asset,
            xdr_payload,
        }
    }
}

/// An NFC payment to validate.
pub struct NfcPaymentRequest {
    pub merchant_id: String,
    pub amount: i64,
    pub asset: String,
    pub memo: Option<String>,
    pub timestamp: i64,
}

/// Whether an NFC payment is valid, and its payload.
pub struct NfcValidationResponse {
    pub valid: bool,
    pub merchant_id: String,
    pub amount: i64,
    /// The payload for the NFC exchange, sponsored when a fee payer is
    /// available.
    pub xdr_payload: Option<String>,
}

impl NfcValidationResponse {
    /// The answer to an NFC validation.
    pub fn for_request(request: NfcPaymentRequest, valid: bool, xdr_payload: Option<String>) -> (r:
        NfcValidationResponse)
        ensures
            r.valid == valid,
            r.merchant_id == request.merchant_id,
            r.amount == request.amount,
            r.xdr_payload == xdr_payload,
    {
        NfcValidationResponse {
            valid,
            merchant_id: request.merchant_id,
            amount: request.amount,
            xdr_payload,
        }
    }
}

/// A sponsored payload for a QR or NFC payment: `None` when signing failed
/// (a missing fee payer is not an error there).
pub fn optional_payload(signed: Result<String, ApiError>) -> (r: Option<String>)
    ensures
        signed matches Ok(x) ==> r == Some(x),
        signed is Err ==> r is None,
{
    match signed {
        Ok(x) => Some(x),
        Err(_) => None,
    }
}

} // verus!
