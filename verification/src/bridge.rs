//! Cross-chain bridging through Allbridge: the quote and status requests,
//! how an Allbridge status reply is read, and how the tracked status of a
//! bridged deposit is refreshed.
use crate::text::{
    ascii_lowercase, is_blank, is_blank_text, lowercase_equals, parse_u64, parsed_u64, str_eq,
    trim_end_char, trim_end_matches_char,
};
use vstd::prelude::*;

verus! {

/// A quote request as Allbridge takes it.
pub struct AllbridgeQuoteRequest {
    pub source_chain: String,
    pub source_token: String,
    pub amount: String,
    pub destination_chain: String,
    pub destination_token: String,
    pub destination_address: String,
}

/// A quote as the backend hands it on.
pub struct AllbridgeQuoteResponse {
    pub fee: String,
    pub receive_amount: String,
    pub bridge_tx_data: String,
}

/// A quote as Allbridge returns it: every field may be missing.
pub struct AllbridgeQuoteApiResponse {
    pub fee: Option<String>,
    pub receive_amount: Option<String>,
    pub bridge_tx_data: Option<String>,
}

/// A failure to obtain a quote from Allbridge.
pub struct AllbridgeProxyError {
    pub message: String,
}

impl AllbridgeProxyError {
    /// The text shown for the error.
    pub fn message(&self) -> (r: &str)
        ensures
            r@ == self.message@,
    {
        self.message.as_str()
    }
}

/// The text of `s`, or `default` when it is missing.
pub open spec fn text_or(s: Option<String>, default: Seq<char>) -> Seq<char> {
    match s {
        Some(t) => t@,
        None => default,
    }
}

/// `s`, or a copy of `default` when it is missing.
fn string_or(s: Option<String>, default: &str) -> (r: String)
    ensures
        r@ == text_or(s, default@),
{
    match s {
        Some(t) => t,
        None => String::from_str(default),
    }
}

impl AllbridgeQuoteApiResponse {
    /// The quote, a missing fee or amount read as `"0"` and missing
    /// transaction data as empty.
    pub fn into_quote(self) -> (r: AllbridgeQuoteResponse)
        ensures
            r.fee@ == text_or(self.fee, "0"@),
            r.receive_amount@ == text_or(self.receive_amount, "0"@),
            r.bridge_tx_data@ == text_or(self.bridge_tx_data, ""@),
    {
        AllbridgeQuoteResponse {
            fee: string_or(self.fee, "0"),
            receive_amount: string_or(self.receive_amount, "0"),
            bridge_tx_data: string_or(self.bridge_tx_data, ""),
        }
    }
}

/// The Allbridge endpoint that quotes a transfer.
pub open spec fn quote_url_of(api_url: Seq<char>) -> Seq<char> {
    trim_end_char(api_url, '/') + "/quote"@
}

/// The Allbridge endpoint that reports the status of a transfer.
pub open spec fn status_url_of(api_url: Seq<char>, source_chain: Seq<char>, tx_hash: Seq<char>) -> Seq<
    char,
> {
    trim_end_char(api_url, '/') + "/chain/"@ + source_chain + "/"@ + tx_hash
}

/// The Allbridge endpoint that quotes a transfer.
pub fn quote_url(api_url: &str) -> (r: String)
    ensures
        r@ == quote_url_of(api_url@),
{
    let base = trim_end_matches_char(api_url, '/');
    let mut url = String::from_str(base);
    proof {
        reveal_strlit("/quote");
    }
    url.append("/quote");
    url
}

/// The Allbridge endpoint that reports the status of a transfer.
pub fn status_url(api_url: &str, source_chain: &str, tx_hash: &str) -> (r: String)
    ensures
        r@ == status_url_of(api_url@, source_chain@, tx_hash@),
{
    let base = trim_end_matches_char(api_url, '/');
    let mut url = String::from_str(base);
    proof {
        reveal_strlit("/chain/");
        reveal_strlit("/");
    }
    url.append("/chain/");
    url.append(source_chain);
    url.append("/");
    url.append(tx_hash);
    assert(url@ =~= status_url_of(api_url@, source_chain@, tx_hash@));
    url
}

/// Normalised lifecycle status of a cross-chain transfer.
#[derive(PartialEq, Eq, Structural, Clone, Copy, Debug)]
pub enum BridgeStatusKind {
    Pending,
    Success,
    Failed,
}

impl BridgeStatusKind {
    /// The status as it is stored and reported.
    pub open spec fn spec_as_str(self) -> Seq<char> {
        match self {
            BridgeStatusKind::Pending => "PENDING"@,
            BridgeStatusKind::Success => "SUCCESS"@,
            BridgeStatusKind::Failed => "FAILED"@,
        }
    }

    /// The status as it is stored and reported.
    pub fn as_str(&self) -> (r: &'static str)
        ensures
            r@ == self.spec_as_str(),
    {
        match self {
            BridgeStatusKind::Pending => "PENDING",
            BridgeStatusKind::Success => "SUCCESS",
            BridgeStatusKind::Failed => "FAILED",
        }
    }

    /// Terminal states no longer need to be polled.
    pub fn is_terminal(&self) -> (r: bool)
        ensures
            r == (*self == BridgeStatusKind::Success || *self == BridgeStatusKind::Failed),
    {
        match self {
            BridgeStatusKind::Pending => false,
            _ => true,
        }
    }
}

/// Result of polling Allbridge for a single transfer.
#[derive(PartialEq, Eq, Structural, Clone, Copy, Debug)]
pub struct BridgeTransferStatus {
    pub status: BridgeStatusKind,
    pub confirmations: i32,
}

/// One leg (send or receive) of an Allbridge status reply.
pub struct AllbridgeLeg {
    pub confirmations: Option<i64>,
    pub status: Option<String>,
}

/// The statuses, in lower case, by which Allbridge reports a failed leg.
pub open spec fn is_failure_word(s: Seq<char>) -> bool {
    s == "failed"@ || s == "error"@ || s == "refunded"@ || s == "reverted"@
}

/// Whether a leg reports a failure (whatever the case of its status).
pub open spec fn leg_failed(leg: Option<AllbridgeLeg>) -> bool {
    match leg {
        Some(l) => match l.status {
            Some(s) => is_failure_word(ascii_lowercase(s@)),
            None => false,
        },
        None => false,
    }
}

/// The confirmations a leg reports (none when missing).
pub open spec fn leg_confirmations(leg: Option<AllbridgeLeg>) -> int {
    match leg {
        Some(l) => match l.confirmations {
            Some(c) => c as int,
            None => 0,
        },
        None => 0,
    }
}

impl AllbridgeLeg {
    /// Whether the leg reports a failure.
    pub fn is_failed(&self) -> (r: bool)
        ensures
            r == leg_failed(Some(*self)),
    {
        match &self.status {
            Some(s) => lowercase_equals(s.as_str(), "failed") || lowercase_equals(s.as_str(), "error")
                || lowercase_equals(s.as_str(), "refunded") || lowercase_equals(
                s.as_str(),
                "reverted",
            ),
            None => false,
        }
    }
}

/// The status of a transfer as an Allbridge reply reports it: failed when a
/// leg reports a failure, successful once the receive leg exists, pending
/// otherwise; the confirmations are the larger of the two legs' (at least
/// zero), converted to `i32` by truncation.
pub open spec fn transfer_status_of(send: Option<AllbridgeLeg>, receive: Option<AllbridgeLeg>) -> BridgeTransferStatus {
    let s = leg_confirmations(send);
    let r = leg_confirmations(receive);
    let m = if s >= r { s } else { r };
    let m0 = if m >= 0 { m } else { 0 };
    BridgeTransferStatus {
        status: if leg_failed(send) || leg_failed(receive) {
            BridgeStatusKind::Failed
        } else if receive is Some {
            BridgeStatusKind::Success
        } else {
            BridgeStatusKind::Pending
        },
        confirmations: m0 as i32,
    }
}

/// A failure reported by either leg fails the transfer. A transfer succeeds
/// only once the receive leg exists and neither leg reports a failure, and
/// is pending exactly when there is no receive leg yet and the send leg has
/// not failed. The confirmations are the larger of the two legs' counts
/// (none counts as zero) where they fit in an `i32`.
pub proof fn lemma_transfer_status_from_legs(send: Option<AllbridgeLeg>, receive: Option<AllbridgeLeg>)
    ensures
        leg_failed(send) ==> transfer_status_of(send, receive).status == BridgeStatusKind::Failed,
        leg_failed(receive) ==> transfer_status_of(send, receive).status == BridgeStatusKind::Failed,
        transfer_status_of(send, receive).status == BridgeStatusKind::Success <==> (receive is Some
            && !leg_failed(send) && !leg_failed(receive)),
        transfer_status_of(send, receive).status == BridgeStatusKind::Pending <==> (receive is None
            && !leg_failed(send)),
        leg_confirmations(send) <= i32::MAX && leg_confirmations(receive) <= i32::MAX ==> ({
            let c = transfer_status_of(send, receive).confirmations;
            &&& c >= 0
            &&& c >= leg_confirmations(send)
            &&& c >= leg_confirmations(receive)
            &&& (c == leg_confirmations(send) || c == leg_confirmations(receive) || c == 0)
        }),
{
}

/// A leg whose status is one of Allbridge's failure words, in any case of
/// its letters, has failed; so, for instance, a refunded receive leg fails
/// the whole transfer.
pub proof fn lemma_failure_words_fail_a_leg(l: AllbridgeLeg, word: Seq<char>)
    requires
        l.status matches Some(s) && ascii_lowercase(s@) == word,
        word == "failed"@ || word == "error"@ || word == "refunded"@ || word == "reverted"@,
    ensures
        leg_failed(Some(l)),
        transfer_status_of(Some(l), None).status == BridgeStatusKind::Failed,
{
}

/// An Allbridge status reply: the source ("send") leg and, once the funds
/// were delivered, the destination ("receive") leg.
pub struct AllbridgeStatusResponse {
    pub send: Option<AllbridgeLeg>,
    pub receive: Option<AllbridgeLeg>,
}

impl AllbridgeStatusResponse {
    /// The normalised status that the reply reports.
    pub fn into_transfer_status(self) -> (r: BridgeTransferStatus)
        ensures
            r == transfer_status_of(self.send, self.receive),
    {
        let send_conf: i64 = match &self.send {
            Some(leg) => match leg.confirmations {
                Some(c) => c,
                None => 0,
            },
            None => 0,
        };
        let receive_conf: i64 = match &self.receive {
            Some(leg) => match leg.confirmations {
                Some(c) => c,
                None => 0,
            },
            None => 0,
        };
        let m = if send_conf >= receive_conf {
            send_conf
        } else {
            receive_conf
        };
        let m0 = if m >= 0 {
            m
        } else {
            0
        };
        let confirmations = m0 as i32;
        let failed = match &self.send {
            Some(leg) => leg.is_failed(),
            None => false,
        } || match &self.receive {
            Some(leg) => leg.is_failed(),
            None => false,
        };
        let status = if failed {
            BridgeStatusKind::Failed
        } else if self.receive.is_some() {
            BridgeStatusKind::Success
        } else {
            BridgeStatusKind::Pending
        };
        BridgeTransferStatus { status, confirmations }
    }
}

/// Why a status poll of Allbridge failed.
#[derive(PartialEq, Eq, Structural, Clone, Copy, Debug)]
pub enum BridgePollError {
    /// Allbridge answered with this HTTP status (not a success, not 404).
    UpstreamStatus(u16),
    /// The reply could not be read as a status.
    InvalidBody,
}

/// Reads the reply to a status poll: a transfer that Allbridge has not
/// indexed yet (404) is still pending; another failure status is an error;
/// otherwise the parsed body decides.
pub fn read_status_reply(http_status: u16, body: Option<AllbridgeStatusResponse>) -> (r: Result<
    BridgeTransferStatus,
    BridgePollError,
>)
    ensures
        http_status == 404 ==> r == Ok::<BridgeTransferStatus, BridgePollError>(
            BridgeTransferStatus { status: BridgeStatusKind::Pending, confirmations: 0 },
        ),
        http_status != 404 && !(200 <= http_status < 300) ==> r == Err::<
            BridgeTransferStatus,
            BridgePollError,
        >(BridgePollError::UpstreamStatus(http_status)),
        http_status != 404 && 200 <= http_status < 300 ==> match body {
            Some(b) => r == Ok::<BridgeTransferStatus, BridgePollError>(
                transfer_status_of(b.send, b.receive),
            ),
            None => r == Err::<BridgeTransferStatus, BridgePollError>(
                BridgePollError::InvalidBody,
            ),
        },
{
    if http_status == 404 {
        return Ok(BridgeTransferStatus { status: BridgeStatusKind::Pending, confirmations: 0 });
    }
    if http_status < 200 || http_status >= 300 {
        return Err(BridgePollError::UpstreamStatus(http_status));
    }
    match body {
        Some(b) => Ok(b.into_transfer_status()),
        None => Err(BridgePollError::InvalidBody),
    }
}

/// A quote request as the API receives it.
pub struct BridgeQuoteRequest {
    pub source_chain: String,
    pub source_token: String,
    pub amount: String,
    pub destination_chain: String,
    pub destination_token: String,
    pub destination_address: String,
}

/// A quote as the API returns it.
pub struct BridgeQuoteResponse {
    pub fee: String,
    pub receive_amount: String,
    /// Payload details to construct the user-side wallet signature.
    pub bridge_tx_data: String,
}

impl BridgeQuoteResponse {
    /// The API's answer for a quote from Allbridge.
    pub fn from_quote(quote: AllbridgeQuoteResponse) -> (r: BridgeQuoteResponse)
        ensures
            r.fee == quote.fee,
            r.receive_amount == quote.receive_amount,
            r.bridge_tx_data == quote.bridge_tx_data,
    {
        BridgeQuoteResponse {
            fee: quote.fee,
            receive_amount: quote.receive_amount,
            bridge_tx_data: quote.bridge_tx_data,
        }
    }
}

/// A submitted cross-chain deposit to track.
pub struct SubmitBridgeTxRequest {
    pub source_tx_hash: String,
    /// Allbridge chain symbol of the deposit (defaults to Stellar).
    pub source_chain: String,
    pub destination_chain: Option<String>,
    pub destination_address: Option<String>,
    pub amount: Option<String>,
}

/// The tracked status of a bridged deposit.
pub struct BridgeStatusResponse {
    pub source_tx_hash: String,
    pub source_chain: String,
    pub destination_chain: Option<String>,
    /// `PENDING`, `SUCCESS` or `FAILED`.
    pub status: String,
    pub confirmations: i32,
    pub updated_at: String,
}

/// The chain a deposit comes from when the request names none (Stellar).
pub fn default_source_chain() -> (r: String)
    ensures
        r@ == "STLR"@,
{
    String::from_str("STLR")
}

/// Whether a stored status is final.
pub open spec fn is_terminal_status(status: Seq<char>) -> bool {
    status == "SUCCESS"@ || status == "FAILED"@
}

/// Whether a stored status is final (no further polling).
pub fn is_terminal(status: &str) -> (r: bool)
    ensures
        r == is_terminal_status(status@),
{
    str_eq(status, "SUCCESS") || str_eq(status, "FAILED")
}

/// Why a bridge request is refused.
#[derive(PartialEq, Eq, Structural, Clone, Copy, Debug)]
pub enum BridgeRequestError {
    /// A required field of a quote request is blank.
    MissingQuoteFields,
    /// The amount of a quote request is not a positive integer.
    InvalidAmount,
    /// A submission has a blank source transaction hash.
    MissingSourceTxHash,
}

impl BridgeRequestError {
    /// The message returned with the refusal.
    pub open spec fn spec_message(self) -> Seq<char> {
        match self {
            BridgeRequestError::MissingQuoteFields =>
                "source_chain, destination_chain, amount, source_token and destination_token are required"@,
            BridgeRequestError::InvalidAmount => "amount must be a positive integer"@,
            BridgeRequestError::MissingSourceTxHash => "source_tx_hash is required"@,
        }
    }

    /// The message returned with the refusal.
    pub fn message(&self) -> (r: &'static str)
        ensures
            r@ == self.spec_message(),
    {
        match self {
            BridgeRequestError::MissingQuoteFields =>
                "source_chain, destination_chain, amount, source_token and destination_token are required",
            BridgeRequestError::InvalidAmount => "amount must be a positive integer",
            BridgeRequestError::MissingSourceTxHash => "source_tx_hash is required",
        }
    }
}

/// Whether a quote request lacks one of its required fields.
pub open spec fn quote_fields_missing(r: BridgeQuoteRequest) -> bool {
    is_blank_text(r.source_chain@) || is_blank_text(r.destination_chain@) || is_blank_text(
        r.amount@,
    ) || is_blank_text(r.source_token@) || is_blank_text(r.destination_token@)
}

/// Whether the amount of a quote request is a positive integer.
pub open spec fn quote_amount_valid(r: BridgeQuoteRequest) -> bool {
    match parsed_u64(r.amount@) {
        Some(v) => v > 0,
        None => false,
    }
}

/// Checks a quote request and turns it into the request sent to Allbridge.
pub fn validate_quote_request(request: BridgeQuoteRequest) -> (r: Result<
    AllbridgeQuoteRequest,
    BridgeRequestError,
>)
    ensures
        quote_fields_missing(request) ==> r == Err::<AllbridgeQuoteRequest, BridgeRequestError>(
            BridgeRequestError::MissingQuoteFields,
        ),
        !quote_fields_missing(request) && !quote_amount_valid(request) ==> r == Err::<
            AllbridgeQuoteRequest,
            BridgeRequestError,
        >(BridgeRequestError::InvalidAmount),
        r is Ok <==> !quote_fields_missing(request) && quote_amount_valid(request),
        r matches Ok(q) ==> q.source_chain == request.source_chain && q.source_token
            == request.source_token && q.amount == request.amount && q.destination_chain
            == request.destination_chain && q.destination_token == request.destination_token
            && q.destination_address == request.destination_address,
{
    if is_blank(request.source_chain.as_str()) || is_blank(request.destination_chain.as_str())
        || is_blank(request.amount.as_str()) || is_blank(request.source_token.as_str()) || is_blank(
        request.destination_token.as_str(),
    ) {
        return Err(BridgeRequestError::MissingQuoteFields);
    }
    match parse_u64(request.amount.as_str()) {
        Some(v) => {
            if v == 0 {
                return Err(BridgeRequestError::InvalidAmount);
            }
        },
        None => return Err(BridgeRequestError::InvalidAmount),
    }
    Ok(
        AllbridgeQuoteRequest {
            source_chain: request.source_chain,
            source_token: request.source_token,
            amount: request.amount,
            destination_chain: request.destination_chain,
            destination_token: request.destination_token,
            destination_address: request.destination_address,
        },
    )
}

/// Checks a submission before it is recorded.
pub fn validate_submission(request: &SubmitBridgeTxRequest) -> (r: Result<(), BridgeRequestError>)
    ensures
        r is Ok <==> !is_blank_text(request.source_tx_hash@),
        r is Err ==> r == Err::<(), BridgeRequestError>(BridgeRequestError::MissingSourceTxHash),
{
    if is_blank(request.source_tx_hash.as_str()) {
        Err(BridgeRequestError::MissingSourceTxHash)
    } else {
        Ok(())
    }
}

/// The tracked status after a status request: what to report, and whether
/// it must be written back.
pub struct StatusRefresh {
    pub status: String,
    pub confirmations: i32,
    pub persist: bool,
}

/// The status to report for a tracked deposit whose stored status and
/// confirmations are given, and the result of polling Allbridge (`None` when
/// the poll failed or was not made). A final stored status is never
/// replaced; otherwise a poll result replaces the status and the
/// confirmations never decrease.
pub fn refresh_status(stored_status: &str, stored_confirmations: i32, poll: Option<BridgeTransferStatus>) -> (r:
    StatusRefresh)
    ensures
        is_terminal_status(stored_status@) || poll is None ==> r.status@ == stored_status@
            && r.confirmations == stored_confirmations && !r.persist,
        !is_terminal_status(stored_status@) ==> match poll {
            Some(p) => r.status@ == p.status.spec_as_str() && r.confirmations == (if p.confirmations
                >= stored_confirmations {
                p.confirmations
            } else {
                stored_confirmations
            }) && r.persist,
            None => true,
        },
        r.confirmations >= stored_confirmations,
{
    if !is_terminal(stored_status) {
        if let Some(p) = poll {
            let conf = if p.confirmations >= stored_confirmations {
                p.confirmations
            } else {
                stored_confirmations
            };
            return StatusRefresh {
                status: String::from_str(p.status.as_str()),
                confirmations: conf,
                persist: true,
            };
        }
    }
    StatusRefresh {
        status: String::from_str(stored_status),
        confirmations: stored_confirmations,
        persist: false,
    }
}

/// What the background poller writes for a pending deposit: nothing when
/// the transfer is still pending and no confirmation was added, else the
/// new status and the larger confirmation count.
pub fn poller_update(known_confirmations: i32, polled: BridgeTransferStatus) -> (r: Option<
    (BridgeStatusKind, i32),
>)
    ensures
        ({
            let c = if polled.confirmations >= known_confirmations {
                polled.confirmations
            } else {
                known_confirmations
            };
            &&& r is Some <==> (polled.status != BridgeStatusKind::Pending || c
                != known_confirmations)
            &&& r matches Some(u) ==> u == (polled.status, c)
        }),
{
    let c = if polled.confirmations >= known_confirmations {
        polled.confirmations
    } else {
        known_confirmations
    };
    if polled.status != BridgeStatusKind::Pending || c != known_confirmations {
        Some((polled.status, c))
    } else {
        None
    }
}

} // verus!
