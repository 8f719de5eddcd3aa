//! The Soroban service's own logic: validating asset names, the payment
//! payload handed to wallets, sponsoring a transaction as the fee payer
//! (the custodial signer), reading simulation and status replies, and
//! classifying RPC errors.
use crate::api::ApiError;
use crate::text::{
    base64_decode, base64_encode, base64_standard, base64_standard_decoded, int_decimal,
    json_member, json_member_of, json_object, json_parse_error_of, json_string_literal,
    json_string_of, parse_u64, parsed_u64, read_json_member, read_json_parse_error,
    read_json_string, str_eq, utf8_bytes, JsonObjectWriter,
};
use ed25519_dalek::{Keypair, PublicKey, SecretKey, Signer as DalekSigner};
use hmac::{Hmac, Mac};
use sha2::Sha256;
use vstd::prelude::*;
use vstd::utf8::{decode_utf8, encode_utf8, valid_utf8};

verus! {

// ---- assets ----------------------------------------------------------------

/// Whether `s` has exactly one `:`, at position `p`.
pub open spec fn single_colon_at(s: Seq<char>, p: int) -> bool {
    &&& 0 <= p < s.len()
    &&& s[p] == ':'
    &&& forall|j: int| 0 <= j < s.len() && j != p ==> s[j] != ':'
}

/// Whether `CODE:ISSUER`, split at `p`, has a code and an issuer that looks
/// like a Stellar account (56 bytes, starting with `G`).
pub open spec fn issued_asset_ok(s: Seq<char>, p: int) -> bool {
    &&& p > 0
    &&& p + 1 < s.len()
    &&& s[p + 1] == 'G'
    &&& encode_utf8(s.subrange(p + 1, s.len() as int)).len() == 56
}

/// Why an asset name is refused.
#[derive(PartialEq, Eq, Structural, Clone, Copy, Debug)]
pub enum AssetProblem {
    /// Neither `XLM` nor of the form `CODE:ISSUER`.
    Format,
    /// The code is empty or the issuer is not a Stellar `G...` address.
    Issuer,
}

/// Whether an asset name is accepted: `XLM`, or `CODE:ISSUER` with a
/// non-empty code and an issuer of 56 bytes starting with `G`.
pub open spec fn asset_problem(s: Seq<char>) -> Option<AssetProblem> {
    if s == "XLM"@ {
        None
    } else if !(exists|p: int| single_colon_at(s, p)) {
        Some(AssetProblem::Format)
    } else if issued_asset_ok(s, choose|p: int| single_colon_at(s, p)) {
        None
    } else {
        Some(AssetProblem::Issuer)
    }
}

/// The message of a refused asset.
pub open spec fn asset_problem_message(p: AssetProblem) -> Seq<char> {
    match p {
        AssetProblem::Format => "Invalid asset format. Use XLM or CODE:ISSUER"@,
        AssetProblem::Issuer =>
            "Invalid issued asset, issuer must be a Stellar G... address and code non-empty"@,
    }
}

/// Validates an asset name: `XLM` for the native asset, or `CODE:ISSUER`
/// where the issuer is a Stellar address.
pub fn validate_asset(asset: &str) -> (r: Result<(), ApiError>)
    ensures
        r is Ok <==> asset_problem(asset@) is None,
        asset_problem(asset@) matches Some(p) ==> (r matches Err(ApiError::Validation(m)) && m@
            == asset_problem_message(p)),
{
    if str_eq(asset, "XLM") {
        return Ok(());
    }
    let ghost s = asset@;
    let n = asset.unicode_len();
    let mut p: usize = 0;
    while p < n && asset.get_char(p) != ':'
        invariant
            n == s.len(),
            s == asset@,
            p <= n,
            forall|j: int| 0 <= j < p ==> s[j] != ':',
        decreases n - p,
    {
        p = p + 1;
    }
    if p == n {
        assert(!(exists|q: int| single_colon_at(s, q)));
        return Err(ApiError::Validation(String::from_str("Invalid asset format. Use XLM or CODE:ISSUER")));
    }
    let mut j: usize = p + 1;
    while j < n
        invariant
            n == s.len(),
            s == asset@,
            s != "XLM"@,
            p < j <= n,
            s[p as int] == ':',
            forall|k: int| 0 <= k < p ==> s[k] != ':',
            forall|k: int| p < k < j ==> s[k] != ':',
        decreases n - j,
    {
        if asset.get_char(j) == ':' {
            assert forall|q: int| !single_colon_at(s, q) by {
                if single_colon_at(s, q) {
                    if q != p as int {
                        assert(s[p as int] != ':');
                    } else {
                        assert(s[j as int] != ':');
                    }
                }
            }
            return Err(ApiError::Validation(String::from_str("Invalid asset format. Use XLM or CODE:ISSUER")));
        }
        j = j + 1;
    }
    assert(single_colon_at(s, p as int));
    proof {
        let q = choose|q: int| single_colon_at(s, q);
        if q != p as int {
            assert(s[p as int] != ':');
        }
    }
    if p == 0 || p + 1 >= n {
        return Err(ApiError::Validation(String::from_str(
                "Invalid issued asset, issuer must be a Stellar G... address and code non-empty",
            )));
    }
    let issuer = asset.substring_char(p + 1, n);
    let issuer_len = issuer.as_bytes().len();
    if issuer_len != 56 || issuer.get_char(0) != 'G' {
        return Err(ApiError::Validation(String::from_str(
                "Invalid issued asset, issuer must be a Stellar G... address and code non-empty",
            )));
    }
    Ok(())
}

// ---- payment payload -------------------------------------------------------

/// The JSON of a payment payload.
pub open spec fn payment_payload(
    from: Seq<char>,
    to: Seq<char>,
    asset: Seq<char>,
    amount: int,
    memo: Seq<char>,
) -> Seq<char> {
    json_object(
        seq![
            json_member("amount"@, int_decimal(amount)),
            json_member("asset"@, json_string_literal(asset)),
            json_member("from"@, json_string_literal(from)),
            json_member("memo"@, json_string_literal(memo)),
            json_member("to"@, json_string_literal(to)),
            json_member("type"@, json_string_literal("payment"@)),
        ],
    )
}

/// The memo of a payment (empty when none).
pub open spec fn memo_text(memo: Option<&str>) -> Seq<char> {
    match memo {
        Some(m) => m@,
        None => Seq::empty(),
    }
}

/// Builds the base64 payload of a payment for the client to sign, after
/// validating the asset.
pub fn build_payment_xdr(from: &str, to: &str, asset: &str, amount: i64, memo: Option<&str>) -> (r:
    Result<String, ApiError>)
    ensures
        asset_problem(asset@) is Some ==> (r matches Err(ApiError::Validation(m)) && m@
            == asset_problem_message(asset_problem(asset@)->0)),
        asset_problem(asset@) is None ==> (r matches Ok(x) && x@ == base64_standard(
            encode_utf8(payment_payload(from@, to@, asset@, amount as int, memo_text(memo))),
        )),
{
    match validate_asset(asset) {
        Ok(()) => {},
        Err(e) => return Err(e),
    }
    let m: &str = match memo {
        Some(m) => m,
        None => "",
    };
    proof {
        reveal_strlit("");
        assert(""@ =~= Seq::<char>::empty());
    }
    assert(m@ == memo_text(memo));
    let mut w = JsonObjectWriter::new();
    w.integer("amount", amount);
    w.string("asset", asset);
    w.string("from", from);
    w.string("memo", m);
    w.string("to", to);
    w.string("type", "payment");
    let ghost members = w.members();
    let payload = w.finish();
    assert(members =~= seq![
        json_member("amount"@, int_decimal(amount as int)),
        json_member("asset"@, json_string_literal(asset@)),
        json_member("from"@, json_string_literal(from@)),
        json_member("memo"@, json_string_literal(memo_text(memo))),
        json_member("to"@, json_string_literal(to@)),
        json_member("type"@, json_string_literal("payment"@)),
    ]);
    let bytes = utf8_bytes(payload.as_str());
    Ok(base64_encode(bytes.as_slice()))
}

// ---- the custodial signer --------------------------------------------------

/// The value of an ASCII hexadecimal digit (either case).
pub open spec fn hex_digit_value(b: u8) -> Option<u8> {
    if 0x30 <= b <= 0x39 {
        Some((b - 0x30) as u8)
    } else if 0x61 <= b <= 0x66 {
        Some((b - 0x61 + 10) as u8)
    } else if 0x41 <= b <= 0x46 {
        Some((b - 0x41 + 10) as u8)
    } else {
        None
    }
}

/// The bytes that `hex::decode` reads from `text`: pairs of hex digits,
/// `None` for an odd length or another character.
pub open spec fn hex_decoded(text: Seq<u8>) -> Option<Seq<u8>>
    decreases text.len(),
{
    if text.len() % 2 != 0 {
        None
    } else if text.len() == 0 {
        Some(Seq::empty())
    } else {
        match (
            hex_digit_value(text[0]),
            hex_digit_value(text[1]),
            hex_decoded(text.subrange(2, text.len() as int)),
        ) {
            (Some(h), Some(l), Some(rest)) => Some(seq![(h * 16 + l) as u8] + rest),
            _ => None,
        }
    }
}

/// `hex::decode` of the bytes of `text`: the contract says that the result is
/// `hex_decoded` of them (`None` on any error).
#[verifier::external_body]
fn hex_decode(text: &str) -> (r: Option<Vec<u8>>)
    ensures
        match r {
            Some(v) => hex_decoded(encode_utf8(text@)) == Some(v@),
            None => hex_decoded(encode_utf8(text@)) is None,
        },
{
    hex::decode(text).ok()
}

/// The Ed25519 public key of a 32-byte secret seed.
pub uninterp spec fn ed25519_public_key(seed: Seq<u8>) -> Seq<u8>;

/// The (deterministic) Ed25519 signature of `message` under a 32-byte seed.
pub uninterp spec fn ed25519_signature(seed: Seq<u8>, message: Seq<u8>) -> Seq<u8>;

/// HMAC-SHA256 of `message` under `key`.
pub uninterp spec fn hmac_sha256(key: Seq<u8>, message: Seq<u8>) -> Seq<u8>;

/// What `String::from_utf8_lossy` reads from `bytes`.
pub uninterp spec fn utf8_lossy(bytes: Seq<u8>) -> Seq<char>;

/// `ed25519_dalek` signing with the key pair of a 32-byte seed
/// (`SecretKey::from_bytes`, `PublicKey::from`, `Keypair::sign`), as bytes:
/// the contract says that the result is the public key named
/// `ed25519_public_key` and the signature named `ed25519_signature`
/// (`from_bytes` accepts every 32-byte seed).
#[verifier::external_body]
fn ed25519_sign(seed: &[u8], message: &[u8]) -> (r: (Vec<u8>, Vec<u8>))
    requires
        seed@.len() == 32,
    ensures
        r.0@ == ed25519_public_key(seed@),
        r.1@ == ed25519_signature(seed@, message@),
{
    match SecretKey::from_bytes(seed) {
        Ok(secret) => {
            let public = PublicKey::from(&secret);
            let public_bytes = public.as_bytes().to_vec();
            let signature = Keypair { secret, public }.sign(message).to_bytes().to_vec();
            (public_bytes, signature)
        },
        Err(_) => (Vec::new(), Vec::new()),
    }
}

/// `Hmac::<Sha256>::new_from_slice(key)`, `update(message)`, `finalize()`:
/// the contract says that the result is the tag named `hmac_sha256` (HMAC
/// accepts keys of every length, so `new_from_slice` does not fail).
#[verifier::external_body]
fn hmac_sha256_tag(key: &[u8], message: &[u8]) -> (r: Vec<u8>)
    ensures
        r@ == hmac_sha256(key@, message@),
{
    match <Hmac<Sha256> as Mac>::new_from_slice(key) {
        Ok(mut mac) => {
            mac.update(message);
            mac.finalize().into_bytes().to_vec()
        },
        Err(_) => Vec::new(),
    }
}

/// `String::from_utf8_lossy(bytes).to_string()`: the contract says that the
/// result is the text named `utf8_lossy`, which for valid UTF-8 is the text
/// that the bytes encode.
#[verifier::external_body]
fn lossy_utf8(bytes: &[u8]) -> (r: String)
    ensures
        r@ == utf8_lossy(bytes@),
        valid_utf8(bytes@) ==> r@ == decode_utf8(bytes@),
{
    String::from_utf8_lossy(bytes).to_string()
}

/// The bytes that the signer signs: the base64-decoded payload read as
/// (lossy) UTF-8, or the text itself when it is not base64.
pub open spec fn signed_message(tx_xdr: Seq<char>) -> Seq<u8> {
    match base64_standard_decoded(tx_xdr) {
        Some(b) => encode_utf8(utf8_lossy(b)),
        None => encode_utf8(tx_xdr),
    }
}

/// The 32-byte Ed25519 seed that a secret gives in hex, if it does.
pub open spec fn ed25519_seed(secret: Seq<char>) -> Option<Seq<u8>> {
    match hex_decoded(encode_utf8(secret)) {
        Some(seed) => if seed.len() == 32 {
            Some(seed)
        } else {
            None
        },
        None => None,
    }
}

/// The sponsored envelope (JSON) that the custodial signer produces.
pub open spec fn sponsored_envelope(secret: Seq<char>, tx_xdr: Seq<char>) -> Seq<char> {
    let msg = signed_message(tx_xdr);
    let common_tail = seq![
        json_member("sponsored_by"@, json_string_literal("fee_payer_custodial"@)),
        json_member("type"@, json_string_literal("sponsored_transaction"@)),
    ];
    match ed25519_seed(secret) {
        Some(seed) => json_object(
            seq![
                json_member("envelope"@, json_string_literal(base64_standard(msg))),
                json_member(
                    "pubkey"@,
                    json_string_literal(base64_standard(ed25519_public_key(seed))),
                ),
                json_member(
                    "signature"@,
                    json_string_literal(base64_standard(ed25519_signature(seed, msg))),
                ),
                json_member("signature_type"@, json_string_literal("ed25519"@)),
            ] + common_tail,
        ),
        None => json_object(
            seq![
                json_member("envelope"@, json_string_literal(base64_standard(msg))),
                json_member(
                    "signature"@,
                    json_string_literal(
                        base64_standard(hmac_sha256(encode_utf8(secret), msg)),
                    ),
                ),
                json_member("signature_type"@, json_string_literal("hmac-sha256"@)),
            ] + common_tail,
        ),
    }
}

/// A server-side signer that sponsors transactions as the fee payer.
pub struct CustodialSigner {
    pub secret_key: String,
}

/// Signs a transaction payload; what the signer returns on success.
pub trait Signer {
    /// Signs `tx_xdr`, returning the signed payload.
    fn sign_transaction(&self, tx_xdr: &str) -> Result<String, ApiError>;
}

/// Builds the base64 payload of a contract call.
pub trait TransactionBuilder {
    /// The base64 payload of a call of `method` on `contract_id` with the
    /// arguments given as JSON text.
    fn build_transaction(&self, contract_id: &str, method: &str, args_json: &str) -> Result<
        String,
        ApiError,
    >;
}

impl CustodialSigner {
    /// A signer holding `secret_key` (a 32-byte hex seed for Ed25519, or any
    /// other text used as an HMAC key).
    pub fn new(secret_key: String) -> (r: Self)
        ensures
            r.secret_key == secret_key,
    {
        Self { secret_key }
    }

    /// Wraps the payload in a sponsored envelope: decodes it from base64
    /// (else takes it as it is), signs it with Ed25519 when the secret is a
    /// 32-byte hex seed and with HMAC-SHA256 otherwise, and returns the
    /// envelope's JSON in base64.
    pub fn sponsor(&self, tx_xdr: &str) -> (r: String)
        ensures
            r@ == base64_standard(encode_utf8(sponsored_envelope(self.secret_key@, tx_xdr@))),
            base64_standard_decoded(r@) == Some(
                encode_utf8(sponsored_envelope(self.secret_key@, tx_xdr@)),
            ),
    {
        let decoded_bytes = match base64_decode(tx_xdr) {
            Some(bytes) => {
                let text = lossy_utf8(bytes.as_slice());
                utf8_bytes(text.as_str())
            },
            None => utf8_bytes(tx_xdr),
        };
        assert(decoded_bytes@ == signed_message(tx_xdr@));
        let envelope_b64 = base64_encode(decoded_bytes.as_slice());
        let mut w = JsonObjectWriter::new();
        w.string("envelope", envelope_b64.as_str());
        let mut ed_seed: Option<Vec<u8>> = None;
        match hex_decode(self.secret_key.as_str()) {
            Some(seed) => {
                if seed.len() == 32 {
                    ed_seed = Some(seed);
                }
            },
            None => {},
        }
        assert(match ed_seed {
            Some(s) => ed25519_seed(self.secret_key@) == Some(s@),
            None => ed25519_seed(self.secret_key@) is None,
        });
        match ed_seed {
            Some(seed) => {
                let (public, sig) = ed25519_sign(seed.as_slice(), decoded_bytes.as_slice());
                let pub_b64 = base64_encode(public.as_slice());
                let sig_b64 = base64_encode(sig.as_slice());
                w.string("pubkey", pub_b64.as_str());
                w.string("signature", sig_b64.as_str());
                w.string("signature_type", "ed25519");
            },
            None => {
                let key = utf8_bytes(self.secret_key.as_str());
                let tag = hmac_sha256_tag(key.as_slice(), decoded_bytes.as_slice());
                let sig_b64 = base64_encode(tag.as_slice());
                w.string("signature", sig_b64.as_str());
                w.string("signature_type", "hmac-sha256");
            },
        }
        w.string("sponsored_by", "fee_payer_custodial");
        w.string("type", "sponsored_transaction");
        let ghost members = w.members();
        let raw = w.finish();
        let ghost tail = seq![
            json_member("sponsored_by"@, json_string_literal("fee_payer_custodial"@)),
            json_member("type"@, json_string_literal("sponsored_transaction"@)),
        ];
        let ghost msg = decoded_bytes@;
        assert(members =~= match ed25519_seed(self.secret_key@) {
            Some(seed) => seq![
                json_member("envelope"@, json_string_literal(base64_standard(msg))),
                json_member(
                    "pubkey"@,
                    json_string_literal(base64_standard(ed25519_public_key(seed))),
                ),
                json_member(
                    "signature"@,
                    json_string_literal(base64_standard(ed25519_signature(seed, msg))),
                ),
                json_member("signature_type"@, json_string_literal("ed25519"@)),
            ] + tail,
            None => seq![
                json_member("envelope"@, json_string_literal(base64_standard(msg))),
                json_member(
                    "signature"@,
                    json_string_literal(
                        base64_standard(hmac_sha256(encode_utf8(self.secret_key@), msg)),
                    ),
                ),
                json_member("signature_type"@, json_string_literal("hmac-sha256"@)),
            ] + tail,
        });
        assert(raw@ =~= sponsored_envelope(self.secret_key@, tx_xdr@));
        let out_bytes = utf8_bytes(raw.as_str());
        base64_encode(out_bytes.as_slice())
    }
}

impl Signer for CustodialSigner {
    /// Signs `tx_xdr` as the fee payer (see `sponsor`); signing always
    /// succeeds.
    fn sign_transaction(&self, tx_xdr: &str) -> (r: Result<String, ApiError>)
        ensures
            r matches Ok(x) && x@ == base64_standard(
                encode_utf8(sponsored_envelope(self.secret_key@, tx_xdr@)),
            ),
    {
        Ok(self.sponsor(tx_xdr))
    }
}

/// Signs a payload as the fee payer: refused when the server has no fee
/// payer configured.
pub fn sign_transaction_as_fee_payer(signer: Option<&CustodialSigner>, tx_xdr: &str) -> (r: Result<
    String,
    ApiError,
>)
    ensures
        signer is None ==> (r matches Err(ApiError::Validation(m)) && m@
            == "Fee payer not configured on server"@),
        signer matches Some(s) ==> (r matches Ok(x) && x@ == base64_standard(
            encode_utf8(sponsored_envelope(s.secret_key@, tx_xdr@)),
        )),
{
    match signer {
        None => Err(ApiError::Validation(String::from_str("Fee payer not configured on server"))),
        Some(s) => Ok(s.sponsor(tx_xdr)),
    }
}

// ---- simulation ------------------------------------------------------------

/// The fee used when a simulation reports none (or zero).
pub const DEFAULT_SIMULATED_FEE: u32 = 100;

/// The fee and footprint estimate from a simulation reply: the reported
/// `minResourceFee` when it is a positive `u32`, else 100; the footprint is
/// always 1.
pub open spec fn simulated_estimate(min_resource_fee: Option<Seq<char>>) -> (u32, u32) {
    let fee: u32 = match min_resource_fee {
        Some(t) => match parsed_u64(t) {
            Some(v) => if v <= u32::MAX {
                v as u32
            } else {
                0
            },
            None => 0,
        },
        None => 0,
    };
    (if fee == 0 {
        DEFAULT_SIMULATED_FEE
    } else {
        fee
    }, 1)
}

/// Reads the fee and footprint from a simulation reply's `minResourceFee`.
pub fn simulation_estimate(min_resource_fee: Option<&str>) -> (r: (u32, u32))
    ensures
        r == simulated_estimate(
            match min_resource_fee {
                Some(t) => Some(t@),
                None => None,
            },
        ),
{
    let fee: u32 = match min_resource_fee {
        Some(t) => match parse_u64(t) {
            Some(v) => if v <= u32::MAX as u64 {
                v as u32
            } else {
                0
            },
            None => 0,
        },
        None => 0,
    };
    (if fee == 0 {
        DEFAULT_SIMULATED_FEE
    } else {
        fee
    }, 1)
}

/// A simulation needs a payload.
pub fn check_simulation_input(tx_xdr: &str) -> (r: Result<(), ApiError>)
    ensures
        r is Ok <==> tx_xdr@.len() > 0,
        r is Err ==> (r matches Err(ApiError::Validation(m)) && m@ == "Empty transaction XDR"@),
{
    if tx_xdr.unicode_len() == 0 {
        Err(ApiError::Validation(String::from_str("Empty transaction XDR")))
    } else {
        Ok(())
    }
}

// ---- submission status -----------------------------------------------------

/// The final status of a submitted transaction.
#[allow(non_camel_case_types)]
#[derive(PartialEq, Eq, Structural, Clone, Copy, Debug)]
pub enum TransactionStatus {
    CONFIRMED,
    FAILED,
    PENDING,
}

/// The answer to a submission.
pub struct SignedTransactionResponse {
    pub tx_hash: String,
    pub status: TransactionStatus,
}

/// The `result.status` of a transaction status reply.
pub enum TxStatusField {
    /// No status (or no reply).
    Missing,
    /// A string status.
    Text(String),
    /// Another JSON value, given as its JSON text.
    Other(String),
}

/// Unicode lower case, as `str::to_lowercase` computes it.
pub uninterp spec fn unicode_lowercase(s: Seq<char>) -> Seq<char>;

/// `str::to_lowercase`: the contract says that the result is the text named
/// `unicode_lowercase`.
#[verifier::external_body]
fn to_lowercase(s: &str) -> (r: String)
    ensures
        r@ == unicode_lowercase(s@),
{
    s.to_lowercase()
}

/// Whether `needle` occurs in `s`.
pub open spec fn contains_text(s: Seq<char>, needle: Seq<char>) -> bool {
    exists|i: int| 0 <= i <= s.len() - needle.len() && #[trigger] s.subrange(i, i + needle.len()) == needle
}

/// Whether `needle` occurs in `s` (`str::contains`).
pub fn contains(s: &str, needle: &str) -> (r: bool)
    ensures
        r == contains_text(s@, needle@),
{
    let n = s.unicode_len();
    let m = needle.unicode_len();
    if m > n {
        return false;
    }
    let mut i: usize = 0;
    while i <= n - m
        invariant
            n == s@.len(),
            m == needle@.len(),
            m <= n,
            i <= n - m + 1,
            forall|k: int| 0 <= k < i ==> #[trigger] s@.subrange(k, k + m) != needle@,
        decreases n - m + 1 - i,
    {
        let mut j: usize = 0;
        let mut same = true;
        while j < m
            invariant
                n == s@.len(),
                m == needle@.len(),
                i + m <= n,
                j <= m,
                same == forall|k: int| 0 <= k < j ==> s@[i + k] == needle@[k],
            decreases m - j,
        {
            if s.get_char(i + j) != needle.get_char(j) {
                same = false;
            }
            j = j + 1;
        }
        if same {
            assert(s@.subrange(i as int, i + m) =~= needle@);
            return true;
        }
        assert(s@.subrange(i as int, i + m)[0] == s@[i as int]);
        assert(s@.subrange(i as int, i + m) != needle@) by {
            let k = choose|k: int| 0 <= k < m && s@[i + k] != needle@[k];
            assert(s@.subrange(i as int, i + m)[k] == s@[i + k]);
        }
        i = i + 1;
    }
    false
}

/// What a string status says of a submitted transaction.
pub open spec fn text_status_verdict(s: Seq<char>) -> Option<TransactionStatus> {
    if s == "SUCCESS"@ || s == "success"@ || s == "CONFIRMED"@ || s == "confirmed"@ {
        Some(TransactionStatus::CONFIRMED)
    } else if s == "FAILED"@ || s == "failed"@ {
        Some(TransactionStatus::FAILED)
    } else {
        None
    }
}

/// What a status of another JSON kind, given as its JSON text, says.
pub open spec fn other_status_verdict(json_text: Seq<char>) -> Option<TransactionStatus> {
    if contains_text(unicode_lowercase(json_text), "failed"@) {
        Some(TransactionStatus::FAILED)
    } else {
        None
    }
}

/// What a status field says of a submitted transaction: `None` to keep
/// polling.
pub open spec fn status_verdict(field: TxStatusField) -> Option<TransactionStatus> {
    match field {
        TxStatusField::Missing => None,
        TxStatusField::Text(s) => text_status_verdict(s@),
        TxStatusField::Other(t) => other_status_verdict(t@),
    }
}

/// Reads the status field of a status reply.
pub fn read_status_field(field: &TxStatusField) -> (r: Option<TransactionStatus>)
    ensures
        r == status_verdict(*field),
{
    match field {
        TxStatusField::Missing => None,
        TxStatusField::Text(s) => {
            let t = s.as_str();
            if str_eq(t, "SUCCESS") || str_eq(t, "success") || str_eq(t, "CONFIRMED") || str_eq(
                t,
                "confirmed",
            ) {
                Some(TransactionStatus::CONFIRMED)
            } else if str_eq(t, "FAILED") || str_eq(t, "failed") {
                Some(TransactionStatus::FAILED)
            } else {
                None
            }
        },
        TxStatusField::Other(t) => {
            let lower = to_lowercase(t.as_str());
            if contains(lower.as_str(), "failed") {
                Some(TransactionStatus::FAILED)
            } else {
                None
            }
        },
    }
}

/// The status words of the RPC decide a submission: `SUCCESS` or
/// `CONFIRMED` (upper or lower case) confirm it, `FAILED` (upper or lower
/// case) fails it, and every other string status keeps the poll going; a
/// status is never read as pending.
pub proof fn lemma_status_words_decide(field: TxStatusField)
    requires
        field is Text,
    ensures
        ({
            let w = field->Text_0@;
            &&& status_verdict(field) == Some(TransactionStatus::CONFIRMED) <==> (w == "SUCCESS"@ || w
                == "success"@ || w == "CONFIRMED"@ || w == "confirmed"@)
            &&& status_verdict(field) == Some(TransactionStatus::FAILED) <==> (w == "FAILED"@ || w
                == "failed"@)
            &&& status_verdict(field) is None <==> !(w == "SUCCESS"@ || w == "success"@ || w
                == "CONFIRMED"@ || w == "confirmed"@ || w == "FAILED"@ || w == "failed"@)
        }),
{
    reveal_strlit("SUCCESS");
    reveal_strlit("success");
    reveal_strlit("CONFIRMED");
    reveal_strlit("confirmed");
    reveal_strlit("FAILED");
    reveal_strlit("failed");
    assert("FAILED"@.len() == 6 && "failed"@.len() == 6);
    assert("SUCCESS"@.len() == 7 && "success"@.len() == 7);
    assert("CONFIRMED"@.len() == 9 && "confirmed"@.len() == 9);
}

/// The JSON text of `result.<key>` in a reply body.
pub open spec fn result_member(body: Seq<char>, key: Seq<char>) -> Option<Seq<char>> {
    match json_member_of(body, "result"@) {
        Some(r) => json_member_of(r, key),
        None => None,
    }
}

/// What the `result.status` of a status reply's body says: a string status
/// by its text, another JSON value by its JSON text; none without one.
pub open spec fn reply_status_verdict(body: Seq<char>) -> Option<TransactionStatus> {
    match result_member(body, "status"@) {
        Some(st) => match json_string_of(st) {
            Some(t) => text_status_verdict(t),
            None => other_status_verdict(st),
        },
        None => None,
    }
}

/// Reads the JSON text of `result.<key>` from the body of a reply.
fn read_result_member(body: &str, key: &str) -> (r: Option<String>)
    ensures
        match r {
            Some(m) => result_member(body@, key@) == Some(m@),
            None => result_member(body@, key@) is None,
        },
{
    match read_json_member(body, "result") {
        Some(res) => read_json_member(res.as_str(), key),
        None => None,
    }
}

/// What the body of a transaction status reply says of the transaction.
pub fn status_of_reply(body: &str) -> (r: Option<TransactionStatus>)
    ensures
        r == reply_status_verdict(body@),
{
    let field = match read_result_member(body, "status") {
        None => TxStatusField::Missing,
        Some(st) => match read_json_string(st.as_str()) {
            Some(t) => TxStatusField::Text(t),
            None => TxStatusField::Other(st),
        },
    };
    read_status_field(&field)
}

/// Status polls after which a submission is reported as pending.
pub const MAX_STATUS_POLLS: u32 = 30;

/// What the submission loop does after a poll.
#[derive(PartialEq, Eq, Structural, Clone, Copy, Debug)]
pub enum PollDecision {
    /// Answer with this status.
    Finish(TransactionStatus),
    /// Wait a second and poll again.
    Wait,
}

/// The decision after the `attempts`-th poll gave `verdict`: a verdict ends
/// the loop; without one, more than 30 polls end it as pending.
pub fn after_status_poll(attempts: u32, verdict: Option<TransactionStatus>) -> (r: PollDecision)
    ensures
        verdict matches Some(v) ==> r == PollDecision::Finish(v),
        verdict is None && attempts > MAX_STATUS_POLLS ==> r == PollDecision::Finish(
            TransactionStatus::PENDING,
        ),
        verdict is None && attempts <= MAX_STATUS_POLLS ==> r == PollDecision::Wait,
{
    match verdict {
        Some(v) => PollDecision::Finish(v),
        None => if attempts > MAX_STATUS_POLLS {
            PollDecision::Finish(TransactionStatus::PENDING)
        } else {
            PollDecision::Wait
        },
    }
}

// ---- RPC errors ------------------------------------------------------------

/// The message of the error member of an RPC failure's text, when the text
/// is JSON and has one: a top-level `error` gives its `message` when that is
/// a string, else its JSON text; a `result.error` gives its string, else its
/// JSON text.
pub open spec fn error_member_message(raw: Seq<char>) -> Option<Seq<char>> {
    match json_member_of(raw, "error"@) {
        Some(e) => Some(
            match json_member_of(e, "message"@) {
                Some(m) => match json_string_of(m) {
                    Some(t) => t,
                    None => e,
                },
                None => e,
            },
        ),
        None => match result_member(raw, "error"@) {
            Some(e) => Some(
                match json_string_of(e) {
                    Some(t) => t,
                    None => e,
                },
            ),
            None => None,
        },
    }
}

/// Whether a (lower-case) message reads as a validation failure.
pub open spec fn reads_as_validation(lower: Seq<char>) -> bool {
    contains_text(lower, "validation"@) || contains_text(lower, "invalid"@) || contains_text(
        lower,
        "bad request"@,
    )
}

/// Whether a (lower-case) message reads as a Stellar failure.
pub open spec fn reads_as_stellar(lower: Seq<char>) -> bool {
    contains_text(lower, "stellar"@) || contains_text(lower, "soroban"@) || contains_text(
        lower,
        "rpc"@,
    ) || contains_text(lower, "tx failed"@)
}

/// The kind of service error an RPC failure becomes.
#[derive(PartialEq, Eq, Structural, Clone, Copy, Debug)]
pub enum ErrorKind {
    Validation,
    Stellar,
    Internal,
}

/// The kind and message of the service error for an RPC failure's text: a
/// JSON error member is a validation error when its message reads so, else a
/// Stellar error; without one, the raw text decides (validation, Stellar, or
/// an internal error).
pub open spec fn rpc_error_class(raw: Seq<char>) -> (ErrorKind, Seq<char>) {
    match error_member_message(raw) {
        Some(msg) => if reads_as_validation(unicode_lowercase(msg)) {
            (ErrorKind::Validation, msg)
        } else {
            (ErrorKind::Stellar, msg)
        },
        None => {
            let lower = unicode_lowercase(raw);
            if reads_as_validation(lower) {
                (ErrorKind::Validation, raw)
            } else if reads_as_stellar(lower) {
                (ErrorKind::Stellar, raw)
            } else {
                (ErrorKind::Internal, raw)
            }
        },
    }
}

/// Whether a service error is of this kind with this message.
pub open spec fn error_is(e: ApiError, kind: ErrorKind, msg: Seq<char>) -> bool {
    match kind {
        ErrorKind::Validation => e matches ApiError::Validation(m) && m@ == msg,
        ErrorKind::Stellar => e matches ApiError::Stellar(m) && m@ == msg,
        ErrorKind::Internal => e is InternalServerError,
    }
}

/// Classifies a lower-cased message.
fn classify(msg: String, check_stellar: bool) -> (r: ApiError)
    ensures
        reads_as_validation(unicode_lowercase(msg@)) ==> error_is(r, ErrorKind::Validation, msg@),
        !reads_as_validation(unicode_lowercase(msg@)) && (!check_stellar || reads_as_stellar(
            unicode_lowercase(msg@),
        )) ==> error_is(r, ErrorKind::Stellar, msg@),
        !reads_as_validation(unicode_lowercase(msg@)) && check_stellar && !reads_as_stellar(
            unicode_lowercase(msg@),
        ) ==> error_is(r, ErrorKind::Internal, msg@),
{
    let lower = to_lowercase(msg.as_str());
    let l = lower.as_str();
    if contains(l, "validation") || contains(l, "invalid") || contains(l, "bad request") {
        return ApiError::Validation(msg);
    }
    if !check_stellar || contains(l, "stellar") || contains(l, "soroban") || contains(l, "rpc")
        || contains(l, "tx failed") {
        return ApiError::Stellar(msg);
    }
    ApiError::InternalServerError
}

/// Reads the message of the error member of an RPC failure's text.
fn read_error_member_message(raw: &str) -> (r: Option<String>)
    ensures
        match r {
            Some(m) => error_member_message(raw@) == Some(m@),
            None => error_member_message(raw@) is None,
        },
{
    match read_json_member(raw, "error") {
        Some(e) => match read_json_member(e.as_str(), "message") {
            Some(m) => match read_json_string(m.as_str()) {
                Some(t) => Some(t),
                None => Some(e),
            },
            None => Some(e),
        },
        None => match read_result_member(raw, "error") {
            Some(e) => match read_json_string(e.as_str()) {
                Some(t) => Some(t),
                None => Some(e),
            },
            None => None,
        },
    }
}

/// Turns a failed RPC call's text into a service error.
pub fn normalize_error(raw: String) -> (r: ApiError)
    ensures
        error_is(r, rpc_error_class(raw@).0, rpc_error_class(raw@).1),
{
    match read_error_member_message(raw.as_str()) {
        Some(msg) => classify(msg, false),
        None => classify(raw, true),
    }
}

// ---- JSON-RPC --------------------------------------------------------------

/// The body of a JSON-RPC 2.0 call (id `"1"`); the parameters are given as
/// JSON text.
pub open spec fn rpc_body(method: Seq<char>, params: Seq<char>) -> Seq<char> {
    json_object(
        seq![
            json_member("id"@, json_string_literal("1"@)),
            json_member("jsonrpc"@, json_string_literal("2.0"@)),
            json_member("method"@, json_string_literal(method)),
            json_member("params"@, params),
        ],
    )
}

/// The body of a JSON-RPC call of `method` whose parameters are the JSON
/// text `params`.
pub fn rpc_request_body(method: &str, params: &str) -> (r: String)
    ensures
        r@ == rpc_body(method@, params@),
{
    let mut w = JsonObjectWriter::new();
    w.string("id", "1");
    w.string("jsonrpc", "2.0");
    w.string("method", method);
    w.raw("params", params);
    let ghost members = w.members();
    let r = w.finish();
    assert(members =~= seq![
        json_member("id"@, json_string_literal("1"@)),
        json_member("jsonrpc"@, json_string_literal("2.0"@)),
        json_member("method"@, json_string_literal(method@)),
        json_member("params"@, params@),
    ]);
    r
}

/// The JSON array holding one string.
pub fn single_string_params(value: &str) -> (r: String)
    ensures
        r@ == "["@ + json_string_literal(value@) + "]"@,
{
    let q = crate::text::json_quote(value);
    let mut r = String::from_str("[");
    r.append(q.as_str());
    r.append("]");
    r
}

/// The parameters of a simulation: the envelope, and the request for the
/// latest ledger.
pub fn simulation_params(tx_envelope: &str) -> (r: String)
    ensures
        r@ == "["@ + json_string_literal(tx_envelope@) + ",{\"latestLedger\":\"true\"}]"@,
{
    let q = crate::text::json_quote(tx_envelope);
    let mut r = String::from_str("[");
    r.append(q.as_str());
    r.append(",{\"latestLedger\":\"true\"}]");
    r
}

/// A JSON-RPC reply as received: whether the HTTP status was a success, the
/// status line, and the body.
pub struct RpcReply {
    pub success: bool,
    pub status_line: String,
    pub body: String,
}

/// Why a reply is refused, before its result is looked at: a failure
/// status, a body that is not JSON, or an `error` member.
pub open spec fn reply_refusal(reply: RpcReply) -> Option<Seq<char>> {
    if !reply.success {
        Some("rpc returned "@ + reply.status_line@ + ": "@ + reply.body@)
    } else {
        match json_parse_error_of(reply.body@) {
            Some(e) => Some("invalid json from rpc: "@ + e + " -- "@ + reply.body@),
            None => match json_member_of(reply.body@, "error"@) {
                Some(e) => Some("rpc error: "@ + e),
                None => None,
            },
        }
    }
}

/// Checks a reply: a failure status, a body that is not JSON, and an `error`
/// member are refused with their messages.
pub fn check_rpc_reply(reply: &RpcReply) -> (r: Result<(), String>)
    ensures
        r is Ok <==> reply_refusal(*reply) is None,
        r matches Err(m) ==> reply_refusal(*reply) == Some(m@),
{
    if !reply.success {
        let mut m = String::from_str("rpc returned ");
        m.append(reply.status_line.as_str());
        m.append(": ");
        m.append(reply.body.as_str());
        return Err(m);
    }
    match read_json_parse_error(reply.body.as_str()) {
        Some(e) => {
            let mut m = String::from_str("invalid json from rpc: ");
            m.append(e.as_str());
            m.append(" -- ");
            m.append(reply.body.as_str());
            Err(m)
        },
        None => match read_json_member(reply.body.as_str(), "error") {
            Some(e) => {
                let mut m = String::from_str("rpc error: ");
                m.append(e.as_str());
                Err(m)
            },
            None => Ok(()),
        },
    }
}

/// The hash that a submission reply's body reports: `result.hash` when it
/// is a string, else `result` when it is a string.
pub open spec fn reply_hash(body: Seq<char>) -> Option<Seq<char>> {
    let hash = match result_member(body, "hash"@) {
        Some(h) => json_string_of(h),
        None => None,
    };
    match hash {
        Some(h) => Some(h),
        None => match json_member_of(body, "result"@) {
            Some(res) => json_string_of(res),
            None => None,
        },
    }
}

/// The hash a submission reply reports; a reply without one is unexpected.
pub fn submitted_hash(reply: &RpcReply) -> (r: Result<String, String>)
    ensures
        reply_refusal(*reply) matches Some(m) ==> (r matches Err(x) && x@ == m),
        reply_refusal(*reply) is None ==> match reply_hash(reply.body@) {
            Some(h) => r matches Ok(x) && x@ == h,
            None => r matches Err(x) && x@ == "unexpected rpc response: "@ + reply.body@,
        },
{
    match check_rpc_reply(reply) {
        Err(m) => return Err(m),
        Ok(()) => {},
    }
    let body = reply.body.as_str();
    let hash = match read_result_member(body, "hash") {
        Some(h) => read_json_string(h.as_str()),
        None => None,
    };
    match hash {
        Some(h) => return Ok(h),
        None => {},
    }
    let direct = match read_json_member(body, "result") {
        Some(res) => read_json_string(res.as_str()),
        None => None,
    };
    match direct {
        Some(s) => Ok(s),
        None => {
            let mut m = String::from_str("unexpected rpc response: ");
            m.append(body);
            Err(m)
        },
    }
}

/// The `result.minResourceFee` of a simulation reply's body, when it is a
/// string.
pub open spec fn reply_min_resource_fee(body: Seq<char>) -> Option<Seq<char>> {
    match result_member(body, "minResourceFee"@) {
        Some(f) => json_string_of(f),
        None => None,
    }
}

/// The fee and footprint estimate from the body of a simulation reply.
pub fn simulation_estimate_of_reply(body: &str) -> (r: (u32, u32))
    ensures
        r == simulated_estimate(reply_min_resource_fee(body@)),
{
    let fee = match read_result_member(body, "minResourceFee") {
        Some(f) => read_json_string(f.as_str()),
        None => None,
    };
    match fee {
        Some(f) => simulation_estimate(Some(f.as_str())),
        None => simulation_estimate(None),
    }
}

/// The JSON payload of a contract call.
pub open spec fn contract_call_payload(contract_id: Seq<char>, method: Seq<char>, args: Seq<char>) -> Seq<char> {
    json_object(
        seq![
            json_member("args"@, args),
            json_member("contract_id"@, json_string_literal(contract_id)),
            json_member("method"@, json_string_literal(method)),
            json_member("type"@, json_string_literal("contract_invoke"@)),
        ],
    )
}

/// The base64 payload of a call of `method` on `contract_id` with the
/// arguments given as JSON text.
pub fn build_contract_call(contract_id: &str, method: &str, args_json: &str) -> (r: String)
    ensures
        r@ == base64_standard(encode_utf8(contract_call_payload(contract_id@, method@, args_json@))),
{
    let mut w = JsonObjectWriter::new();
    w.raw("args", args_json);
    w.string("contract_id", contract_id);
    w.string("method", method);
    w.string("type", "contract_invoke");
    let ghost members = w.members();
    let payload = w.finish();
    assert(members =~= seq![
        json_member("args"@, args_json@),
        json_member("contract_id"@, json_string_literal(contract_id@)),
        json_member("method"@, json_string_literal(method@)),
        json_member("type"@, json_string_literal("contract_invoke"@)),
    ]);
    let bytes = utf8_bytes(payload.as_str());
    base64_encode(bytes.as_slice())
}

/// The outcome of a read-only contract simulation, given the JSON texts of
/// `result.error` and `result.retval`: an error is a Stellar error, else the
/// return value (if any).
pub fn contract_read_outcome(error_json: Option<String>, retval_json: Option<String>) -> (r: Result<
    Option<String>,
    ApiError,
>)
    ensures
        error_json matches Some(e) ==> (r matches Err(ApiError::Stellar(m)) && m@
            == "simulation error: "@ + e@),
        error_json is None ==> r == Ok::<Option<String>, ApiError>(retval_json),
{
    match error_json {
        Some(e) => {
            let mut m = String::from_str("simulation error: ");
            m.append(e.as_str());
            Err(ApiError::Stellar(m))
        },
        None => Ok(retval_json),
    }
}

/// The outcome of a read-only contract simulation, from its reply's body: a
/// `result.error` is a Stellar error naming its JSON text; else the JSON text
/// of `result.retval`, if any.
pub fn contract_read_of_reply(body: &str) -> (r: Result<Option<String>, ApiError>)
    ensures
        result_member(body@, "error"@) matches Some(e) ==> (r matches Err(ApiError::Stellar(m))
            && m@ == "simulation error: "@ + e),
        result_member(body@, "error"@) is None ==> (r matches Ok(v) && match v {
            Some(t) => result_member(body@, "retval"@) == Some(t@),
            None => result_member(body@, "retval"@) is None,
        }),
{
    let error = read_result_member(body, "error");
    let retval = read_result_member(body, "retval");
    contract_read_outcome(error, retval)
}

} // verus!
