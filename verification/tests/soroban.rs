use base64::{engine::general_purpose, Engine as _};
use serde_json::Value;
use zaps::api::ApiError;
use zaps::soroban::{
    build_contract_call, check_rpc_reply, contract_read_outcome, rpc_request_body,
    simulation_params, single_string_params, submitted_hash, RpcReply, status_of_reply,
    simulation_estimate_of_reply, contract_read_of_reply,
    after_status_poll, build_payment_xdr, check_simulation_input, normalize_error,
    read_status_field, sign_transaction_as_fee_payer, simulation_estimate, validate_asset,
    CustodialSigner, PollDecision, Signer, TransactionStatus,
    TxStatusField,
};

#[test]
fn test_custodial_signer_ed25519_hex_seed() {
    // 32-byte hex seed (0x01 repeated)
    let seed = "01".repeat(32);
    let signer = CustodialSigner::new(seed.clone());

    let payload = "testpayload";
    let payload_b64 = general_purpose::STANDARD.encode(payload.as_bytes());

    let res = signer.sign_transaction(&payload_b64);
    assert!(res.is_ok(), "signing should succeed");

    let out_b64 = res.unwrap();
    let out_raw = general_purpose::STANDARD
        .decode(&out_b64)
        .expect("output should be base64");

    let v: Value = serde_json::from_slice(&out_raw).expect("valid json");
    assert_eq!(v.get("signature_type").and_then(|s| s.as_str()), Some("ed25519"));
    assert!(v.get("signature").is_some());
    assert!(v.get("pubkey").is_some());
}

#[test]
fn test_custodial_signer_hmac_fallback() {
    // Non-hex secret should use HMAC fallback
    let secret = "not_hex_secret".to_string();
    let signer = CustodialSigner::new(secret);

    let payload = "anotherpayload";
    let payload_b64 = general_purpose::STANDARD.encode(payload.as_bytes());

    let res = signer.sign_transaction(&payload_b64);
    assert!(res.is_ok(), "signing should succeed");

    let out_b64 = res.unwrap();
    let out_raw = general_purpose::STANDARD
        .decode(&out_b64)
        .expect("output should be base64");

    let v: Value = serde_json::from_slice(&out_raw).expect("valid json");
    assert_eq!(v.get("signature_type").and_then(|s| s.as_str()), Some("hmac-sha256"));
    assert!(v.get("signature").is_some());
}

#[test]
fn signer_envelope_details() {
    let signer = CustodialSigner::new("key".to_string());
    let out = signer.sign_transaction("not base64!").unwrap();
    let v: Value = serde_json::from_slice(&general_purpose::STANDARD.decode(out).unwrap()).unwrap();
    // The text that is not base64 is signed as it is.
    assert_eq!(v["envelope"], general_purpose::STANDARD.encode("not base64!"));
    assert_eq!(v["sponsored_by"], "fee_payer_custodial");
    assert_eq!(v["type"], "sponsored_transaction");
    assert!(v.get("pubkey").is_none());
    // A 31-byte hex seed is not an Ed25519 seed.
    let short = CustodialSigner::new("01".repeat(31));
    let out = short.sign_transaction("AAAA").unwrap();
    let v: Value = serde_json::from_slice(&general_purpose::STANDARD.decode(out).unwrap()).unwrap();
    assert_eq!(v["signature_type"], "hmac-sha256");
    // Signing is deterministic.
    let a = CustodialSigner::new("01".repeat(32)).sign_transaction("dGVzdA==").unwrap();
    let b = CustodialSigner::new("01".repeat(32)).sign_transaction("dGVzdA==").unwrap();
    assert_eq!(a, b);
}

#[test]
fn fee_payer_must_be_configured() {
    match sign_transaction_as_fee_payer(None, "x") {
        Err(ApiError::Validation(m)) => assert_eq!(m, "Fee payer not configured on server"),
        _ => panic!(),
    }
    let s = CustodialSigner::new("k".to_string());
    assert!(sign_transaction_as_fee_payer(Some(&s), "x").is_ok());
}

#[test]
fn asset_validation() {
    let issuer = format!("G{}", "A".repeat(55));
    assert!(validate_asset("XLM").is_ok());
    assert!(validate_asset(&format!("USDC:{}", issuer)).is_ok());
    match validate_asset("USDC") {
        Err(ApiError::Validation(m)) => assert_eq!(m, "Invalid asset format. Use XLM or CODE:ISSUER"),
        _ => panic!(),
    }
    assert!(validate_asset(&format!("A:B:{}", issuer)).is_err());
    match validate_asset(&format!(":{}", issuer)) {
        Err(ApiError::Validation(m)) => assert_eq!(
            m,
            "Invalid issued asset, issuer must be a Stellar G... address and code non-empty"
        ),
        _ => panic!(),
    }
    assert!(validate_asset(&format!("USDC:X{}", "A".repeat(55))).is_err());
    assert!(validate_asset(&format!("USDC:G{}", "A".repeat(54))).is_err());
    assert!(validate_asset("xlm").is_err());
}

#[test]
fn payment_payload() {
    let issuer = format!("G{}", "B".repeat(55));
    let asset = format!("USDC:{}", issuer);
    let xdr = build_payment_xdr("GFROM", "GTO", &asset, 250, Some("rent")).unwrap();
    let raw = String::from_utf8(general_purpose::STANDARD.decode(xdr).unwrap()).unwrap();
    assert_eq!(
        raw,
        format!(r#"{{"amount":250,"asset":"{}","from":"GFROM","memo":"rent","to":"GTO","type":"payment"}}"#, asset)
    );
    let xdr = build_payment_xdr("GFROM", "GTO", "XLM", 1, None).unwrap();
    let v: Value = serde_json::from_slice(&general_purpose::STANDARD.decode(xdr).unwrap()).unwrap();
    assert_eq!(v["memo"], "");
    assert!(build_payment_xdr("GFROM", "GTO", "BAD", 1, None).is_err());
}

#[test]
fn simulation_estimates() {
    assert_eq!(simulation_estimate(Some("2500")), (2500, 1));
    assert_eq!(simulation_estimate(Some("0")), (100, 1));
    assert_eq!(simulation_estimate(Some("lots")), (100, 1));
    assert_eq!(simulation_estimate(Some("4294967296")), (100, 1));
    assert_eq!(simulation_estimate(None), (100, 1));
    assert!(check_simulation_input("").is_err());
    assert!(check_simulation_input("AAAA").is_ok());
}

#[test]
fn status_polling() {
    assert_eq!(read_status_field(&TxStatusField::Text("success".to_string())), Some(TransactionStatus::CONFIRMED));
    assert_eq!(read_status_field(&TxStatusField::Text("CONFIRMED".to_string())), Some(TransactionStatus::CONFIRMED));
    assert_eq!(read_status_field(&TxStatusField::Text("failed".to_string())), Some(TransactionStatus::FAILED));
    assert_eq!(read_status_field(&TxStatusField::Text("NOT_FOUND".to_string())), None);
    assert_eq!(read_status_field(&TxStatusField::Text("Success".to_string())), None);
    assert_eq!(read_status_field(&TxStatusField::Other("{\"code\":\"TX_FAILED\"}".to_string())), Some(TransactionStatus::FAILED));
    assert_eq!(read_status_field(&TxStatusField::Other("17".to_string())), None);
    assert_eq!(read_status_field(&TxStatusField::Missing), None);
    assert_eq!(after_status_poll(1, Some(TransactionStatus::FAILED)), PollDecision::Finish(TransactionStatus::FAILED));
    assert_eq!(after_status_poll(30, None), PollDecision::Wait);
    assert_eq!(after_status_poll(31, None), PollDecision::Finish(TransactionStatus::PENDING));
}

#[test]
fn rpc_error_classification() {
    match normalize_error(r#"{"error":{"code":-32602,"message":"Invalid XDR"}}"#.to_string()) {
        ApiError::Validation(m) => assert_eq!(m, "Invalid XDR"),
        _ => panic!(),
    }
    match normalize_error(r#"{"error":{"code":-1}}"#.to_string()) {
        ApiError::Stellar(m) => assert_eq!(m, r#"{"code":-1}"#),
        _ => panic!(),
    }
    // A message that is not a string: the whole error member is the message.
    match normalize_error(r#"{"error":{"message":7}}"#.to_string()) {
        ApiError::Stellar(m) => assert_eq!(m, r#"{"message":7}"#),
        _ => panic!(),
    }
    match normalize_error(r#"{"result":{"error":"Bad Request here"}}"#.to_string()) {
        ApiError::Validation(m) => assert_eq!(m, "Bad Request here"),
        _ => panic!(),
    }
    match normalize_error(r#"{"result":{"error":{"kind":"trap"}}}"#.to_string()) {
        ApiError::Stellar(m) => assert_eq!(m, r#"{"kind":"trap"}"#),
        _ => panic!(),
    }
    match normalize_error("rpc request failed: timeout".to_string()) {
        ApiError::Stellar(m) => assert_eq!(m, "rpc request failed: timeout"),
        _ => panic!(),
    }
    assert!(matches!(normalize_error("VALIDATION broke".to_string()), ApiError::Validation(_)));
    assert!(matches!(normalize_error("something else".to_string()), ApiError::InternalServerError));
    // JSON without an error member falls back to the raw text.
    assert!(matches!(normalize_error(r#"{"result":{}}"#.to_string()), ApiError::InternalServerError));
}

#[test]
fn status_replies() {
    assert_eq!(status_of_reply(r#"{"result":{"status":"SUCCESS"}}"#), Some(TransactionStatus::CONFIRMED));
    assert_eq!(status_of_reply(r#"{"result":{"status":"failed"}}"#), Some(TransactionStatus::FAILED));
    assert_eq!(status_of_reply(r#"{"result":{"status":"NOT_FOUND"}}"#), None);
    assert_eq!(status_of_reply(r#"{"result":{"status":{"code":"TX_FAILED"}}}"#), Some(TransactionStatus::FAILED));
    assert_eq!(status_of_reply(r#"{"result":{"status":17}}"#), None);
    assert_eq!(status_of_reply(r#"{"result":{}}"#), None);
    assert_eq!(status_of_reply("not json"), None);
}

#[test]
fn simulation_and_read_replies() {
    assert_eq!(simulation_estimate_of_reply(r#"{"result":{"minResourceFee":"2500"}}"#), (2500, 1));
    assert_eq!(simulation_estimate_of_reply(r#"{"result":{"minResourceFee":2500}}"#), (100, 1));
    assert_eq!(simulation_estimate_of_reply(r#"{"result":{}}"#), (100, 1));
    match contract_read_of_reply(r#"{"result":{"error":"boom","retval":1}}"#) {
        Err(ApiError::Stellar(m)) => assert_eq!(m, "simulation error: \"boom\""),
        _ => panic!(),
    }
    assert_eq!(contract_read_of_reply(r#"{"result":{"retval":{"u32":7}}}"#).unwrap(), Some(r#"{"u32":7}"#.to_string()));
    assert_eq!(contract_read_of_reply(r#"{"result":{}}"#).unwrap(), None);
    assert_eq!(contract_read_of_reply(r#"{"id":"1"}"#).unwrap(), None);
}

#[test]
fn rpc_bodies_and_replies() {
    let body = rpc_request_body("send_transaction", &single_string_params("AAA\"B"));
    let v: Value = serde_json::from_str(&body).unwrap();
    assert_eq!(v["jsonrpc"], "2.0");
    assert_eq!(v["id"], "1");
    assert_eq!(v["params"][0], "AAA\"B");
    assert_eq!(
        rpc_request_body("simulate_transaction", &simulation_params("E")),
        r#"{"id":"1","jsonrpc":"2.0","method":"simulate_transaction","params":["E",{"latestLedger":"true"}]}"#
    );
    let reply = |ok: bool, body: &str| RpcReply {
        success: ok,
        status_line: "500 Internal Server Error".to_string(),
        body: body.to_string(),
    };
    assert_eq!(submitted_hash(&reply(true, r#"{"result":{"hash":"h1"}}"#)), Ok("h1".to_string()));
    assert_eq!(submitted_hash(&reply(true, r#"{"result":"s2"}"#)), Ok("s2".to_string()));
    assert_eq!(
        submitted_hash(&reply(true, r#"{"result":{"hash":5}}"#)),
        Err(r#"unexpected rpc response: {"result":{"hash":5}}"#.to_string())
    );
    assert_eq!(
        submitted_hash(&reply(false, r#"{"result":{"hash":"h"}}"#)),
        Err(r#"rpc returned 500 Internal Server Error: {"result":{"hash":"h"}}"#.to_string())
    );
    let bad = serde_json::from_str::<Value>("B").unwrap_err().to_string();
    assert_eq!(check_rpc_reply(&reply(true, "B")), Err(format!("invalid json from rpc: {} -- B", bad)));
    assert_eq!(
        check_rpc_reply(&reply(true, r#"{"error": {"code": 1}}"#)),
        Err("rpc error: {\"code\":1}".to_string())
    );
    assert_eq!(check_rpc_reply(&reply(true, r#"{"result":{}}"#)), Ok(()));
    let call = build_contract_call("C1", "balance", "[1,\"x\"]");
    let v: Value = serde_json::from_slice(&general_purpose::STANDARD.decode(call).unwrap()).unwrap();
    assert_eq!(v["type"], "contract_invoke");
    assert_eq!(v["args"][1], "x");
    match contract_read_outcome(Some("\"boom\"".to_string()), None) {
        Err(ApiError::Stellar(m)) => assert_eq!(m, "simulation error: \"boom\""),
        _ => panic!(),
    }
    assert_eq!(contract_read_outcome(None, Some("7".to_string())).unwrap(), Some("7".to_string()));
}

#[test]
fn signer_decodes_and_signs_the_payload_bytes() {
    let seeded = CustodialSigner::new("01".repeat(32));
    let payload_b64 = general_purpose::STANDARD.encode("testpayload");
    let out = seeded.sign_transaction(&payload_b64).unwrap();
    let v: Value = serde_json::from_slice(&general_purpose::STANDARD.decode(out).unwrap()).unwrap();
    // The envelope holds the decoded payload, encoded once.
    assert_eq!(v["envelope"], payload_b64);
    let sig = general_purpose::STANDARD.decode(v["signature"].as_str().unwrap()).unwrap();
    let key = general_purpose::STANDARD.decode(v["pubkey"].as_str().unwrap()).unwrap();
    assert_eq!(sig.len(), 64);
    assert_eq!(key.len(), 32);

    let hmac = CustodialSigner::new("secret".to_string());
    let out = hmac.sign_transaction(&payload_b64).unwrap();
    let v: Value = serde_json::from_slice(&general_purpose::STANDARD.decode(out).unwrap()).unwrap();
    let tag = general_purpose::STANDARD.decode(v["signature"].as_str().unwrap()).unwrap();
    assert_eq!(tag.len(), 32);

    // Bytes that are not UTF-8 are read lossily before signing.
    let raw = general_purpose::STANDARD.encode([0xffu8, 0x41]);
    let out = hmac.sign_transaction(&raw).unwrap();
    let v: Value = serde_json::from_slice(&general_purpose::STANDARD.decode(out).unwrap()).unwrap();
    assert_eq!(v["envelope"], general_purpose::STANDARD.encode("\u{FFFD}A"));
}
