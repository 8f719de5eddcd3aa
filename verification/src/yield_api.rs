//! The yield endpoints' decisions: the history window, moves between the
//! available and the earning balance (deposit and withdraw), the auto-earn
//! toggle, and the Stellar envelope handed to the user's wallet.
use crate::text::{
    base64_of_text, base64_standard, base64_standard_decoded, int_decimal, json_member,
    json_object, json_string_literal, JsonObjectWriter,
};
use vstd::prelude::*;

verus! {

/// Items per page when the request names no limit.
pub const DEFAULT_HISTORY_LIMIT: i64 = 20;

/// The largest page of history.
pub const MAX_HISTORY_LIMIT: i64 = 100;

/// The APY, in basis points, reported when none has been recorded.
pub const DEFAULT_BALANCE_APY_BPS: i32 = 500;

/// Paging of the yield history.
pub struct HistoryQuery {
    pub limit: Option<i64>,
    pub offset: Option<i64>,
}

/// The page that a history query asks for: the limit (default 20) clamped
/// to `1..=100` and the offset (default 0) at least 0.
pub open spec fn history_window_of(limit: Option<i64>, offset: Option<i64>) -> (i64, i64) {
    let l = match limit {
        Some(v) => v,
        None => DEFAULT_HISTORY_LIMIT,
    };
    let o = match offset {
        Some(v) => v,
        None => 0,
    };
    (
        if l < 1 {
            1
        } else if l > MAX_HISTORY_LIMIT {
            MAX_HISTORY_LIMIT
        } else {
            l
        },
        if o < 0 {
            0
        } else {
            o
        },
    )
}

impl HistoryQuery {
    /// The limit and offset of the page to return.
    pub fn window(&self) -> (r: (i64, i64))
        ensures
            r == history_window_of(self.limit, self.offset),
            1 <= r.0 <= MAX_HISTORY_LIMIT,
            r.1 >= 0,
    {
        let l = match self.limit {
            Some(v) => v,
            None => DEFAULT_HISTORY_LIMIT,
        };
        let o = match self.offset {
            Some(v) => v,
            None => 0,
        };
        let limit = if l < 1 {
            1
        } else if l > MAX_HISTORY_LIMIT {
            MAX_HISTORY_LIMIT
        } else {
            l
        };
        let offset = if o < 0 {
            0
        } else {
            o
        };
        (limit, offset)
    }
}

/// One entry of the yield history.
pub struct YieldHistoryItem {
    pub id: String,
    pub tx_hash: String,
    pub tx_type: String,
    pub amount: i64,
    pub created_at: String,
}

/// A page of the yield history.
pub struct YieldHistoryResponse {
    pub items: Vec<YieldHistoryItem>,
    pub limit: i64,
    pub offset: i64,
    pub total: i64,
}

/// The APY reported with a balance: the recorded one, or 5.00%.
pub fn balance_apy_bps(recorded: Option<i32>) -> (r: i32)
    ensures
        r == (match recorded {
            Some(a) => a,
            None => DEFAULT_BALANCE_APY_BPS,
        }),
{
    match recorded {
        Some(a) => a,
        None => DEFAULT_BALANCE_APY_BPS,
    }
}

/// A request to switch auto-earn on or off.
pub struct ToggleAutoEarnRequest {
    pub enabled: bool,
}

/// The auto-earn setting after a toggle.
pub struct ToggleAutoEarnResponse {
    pub auto_earn_enabled: bool,
    pub message: String,
}

/// The message for an auto-earn setting.
pub open spec fn toggle_message(enabled: bool) -> Seq<char> {
    if enabled {
        "Auto-earn enabled. Idle stablecoins will be swept into the yield vault."@
    } else {
        "Auto-earn disabled."@
    }
}

impl ToggleAutoEarnResponse {
    /// The answer for the setting that was stored.
    pub fn for_setting(enabled: bool) -> (r: ToggleAutoEarnResponse)
        ensures
            r.auto_earn_enabled == enabled,
            r.message@ == toggle_message(enabled),
    {
        let message = if enabled {
            String::from_str(
                "Auto-earn enabled. Idle stablecoins will be swept into the yield vault.",
            )
        } else {
            String::from_str("Auto-earn disabled.")
        };
        ToggleAutoEarnResponse { auto_earn_enabled: enabled, message }
    }
}

/// A move from the available to the earning balance.
pub struct DepositRequest {
    /// Amount to move (micro-units).
    pub amount: i64,
}

/// The balances after a deposit, and the envelope for the wallet to sign.
pub struct DepositResponse {
    pub available_balance: i64,
    pub earning_balance: i64,
    /// Base64 transaction envelope for the user to sign.
    pub envelope_xdr: String,
}

/// A move from the earning to the available balance.
pub struct WithdrawRequest {
    /// Amount to move (micro-units); the full earning balance withdraws
    /// everything.
    pub amount: i64,
}

/// The balances after a withdrawal, and the envelope for the wallet to sign.
pub struct WithdrawResponse {
    pub available_balance: i64,
    pub earning_balance: i64,
    /// Base64 transaction envelope for the user to sign.
    pub envelope_xdr: String,
}

/// The two ways money moves between the balances.
#[derive(PartialEq, Eq, Structural, Clone, Copy, Debug)]
pub enum YieldMove {
    /// Available to earning.
    Deposit,
    /// Earning to available.
    Withdraw,
}

impl YieldMove {
    /// The operation named in the envelope.
    pub open spec fn spec_operation(self) -> Seq<char> {
        match self {
            YieldMove::Deposit => "yield_deposit"@,
            YieldMove::Withdraw => "yield_withdraw"@,
        }
    }

    /// The operation named in the envelope.
    pub fn operation(&self) -> (r: &'static str)
        ensures
            r@ == self.spec_operation(),
    {
        match self {
            YieldMove::Deposit => "yield_deposit",
            YieldMove::Withdraw => "yield_withdraw",
        }
    }

    /// The type recorded in the yield history.
    pub open spec fn spec_tx_type(self) -> Seq<char> {
        match self {
            YieldMove::Deposit => "DEPOSIT"@,
            YieldMove::Withdraw => "WITHDRAW"@,
        }
    }

    /// The type recorded in the yield history.
    pub fn tx_type(&self) -> (r: &'static str)
        ensures
            r@ == self.spec_tx_type(),
    {
        match self {
            YieldMove::Deposit => "DEPOSIT",
            YieldMove::Withdraw => "WITHDRAW",
        }
    }

    /// The prefix of the move's reference.
    pub open spec fn spec_reference_prefix(self) -> Seq<char> {
        match self {
            YieldMove::Deposit => "zaps-yield-deposit-"@,
            YieldMove::Withdraw => "zaps-yield-withdraw-"@,
        }
    }

    /// The unique reference of a move (also its idempotency key): the prefix
    /// and a fresh identifier.
    pub fn reference(&self, unique_id: &str) -> (r: String)
        ensures
            r@ == self.spec_reference_prefix() + unique_id@,
    {
        let mut r = match self {
            YieldMove::Deposit => String::from_str("zaps-yield-deposit-"),
            YieldMove::Withdraw => String::from_str("zaps-yield-withdraw-"),
        };
        r.append(unique_id);
        r
    }
}

/// Why a move is refused (the answer is a 400 Bad Request).
#[derive(PartialEq, Eq, Structural, Clone, Copy, Debug)]
pub enum YieldMoveError {
    /// The amount is not positive.
    AmountNotPositive,
    /// A deposit exceeds the available balance, which is given.
    InsufficientAvailable(i64),
    /// A withdrawal exceeds the earning balance, which is given.
    InsufficientEarning(i64),
}

impl YieldMoveError {
    /// The message returned with the refusal.
    pub open spec fn spec_message(self) -> Seq<char> {
        match self {
            YieldMoveError::AmountNotPositive => "Amount must be greater than zero"@,
            YieldMoveError::InsufficientAvailable(_) => "Insufficient available balance"@,
            YieldMoveError::InsufficientEarning(_) => "Insufficient earning balance"@,
        }
    }

    /// The message returned with the refusal.
    pub fn message(&self) -> (r: &'static str)
        ensures
            r@ == self.spec_message(),
    {
        match self {
            YieldMoveError::AmountNotPositive => "Amount must be greater than zero",
            YieldMoveError::InsufficientAvailable(_) => "Insufficient available balance",
            YieldMoveError::InsufficientEarning(_) => "Insufficient earning balance",
        }
    }
}

/// Whether a move of `amount` is accepted on the given balances, and why not.
pub open spec fn move_check(kind: YieldMove, amount: i64, available: i64, earning: i64) -> Result<
    (),
    YieldMoveError,
> {
    if amount <= 0 {
        Err(YieldMoveError::AmountNotPositive)
    } else if kind == YieldMove::Deposit && available < amount {
        Err(YieldMoveError::InsufficientAvailable(available))
    } else if kind == YieldMove::Withdraw && earning < amount {
        Err(YieldMoveError::InsufficientEarning(earning))
    } else {
        Ok(())
    }
}

/// Checks the amount of a move before the balances are read.
pub fn check_move_amount(amount: i64) -> (r: Result<(), YieldMoveError>)
    ensures
        r is Ok <==> amount > 0,
        r is Err ==> r == Err::<(), YieldMoveError>(YieldMoveError::AmountNotPositive),
{
    if amount <= 0 {
        Err(YieldMoveError::AmountNotPositive)
    } else {
        Ok(())
    }
}

/// Checks a move against the balances read: a deposit needs that much
/// available, a withdrawal that much earning.
pub fn check_move(kind: YieldMove, amount: i64, available: i64, earning: i64) -> (r: Result<
    (),
    YieldMoveError,
>)
    ensures
        r == move_check(kind, amount, available, earning),
{
    if amount <= 0 {
        return Err(YieldMoveError::AmountNotPositive);
    }
    match kind {
        YieldMove::Deposit => {
            if available < amount {
                return Err(YieldMoveError::InsufficientAvailable(available));
            }
        },
        YieldMove::Withdraw => {
            if earning < amount {
                return Err(YieldMoveError::InsufficientEarning(earning));
            }
        },
    }
    Ok(())
}

/// The balances after a move the check accepted.
pub open spec fn balances_after_move(kind: YieldMove, available: int, earning: int, amount: int) -> (
    int,
    int,
) {
    match kind {
        YieldMove::Deposit => (available - amount, earning + amount),
        YieldMove::Withdraw => (available + amount, earning - amount),
    }
}

/// The balances after a move the check accepted, or `None` when one of them
/// would leave the range of a 64-bit integer (the database refuses such an
/// update, and the move fails as a server error).
pub fn balances_after(kind: YieldMove, amount: i64, available: i64, earning: i64) -> (r: Option<
    (i64, i64),
>)
    requires
        move_check(kind, amount, available, earning) is Ok,
    ensures
        ({
            let (a, e) = balances_after_move(kind, available as int, earning as int, amount as int);
            &&& r is Some <==> (i64::MIN <= a <= i64::MAX && i64::MIN <= e <= i64::MAX)
            &&& r matches Some(b) ==> b.0 == a && b.1 == e
        }),
{
    match kind {
        YieldMove::Deposit => {
            if earning > i64::MAX - amount {
                None
            } else {
                Some((available - amount, earning + amount))
            }
        },
        YieldMove::Withdraw => {
            if available > i64::MAX - amount {
                None
            } else {
                Some((available + amount, earning - amount))
            }
        },
    }
}

/// A move the check accepts keeps the sum of the two balances, leaves
/// neither below zero when both started at zero or above, and a withdrawal
/// of what was deposited gives back the balances as they were.
pub proof fn lemma_move_conserves(kind: YieldMove, amount: i64, available: i64, earning: i64)
    requires
        move_check(kind, amount, available, earning) is Ok,
        available >= 0,
        earning >= 0,
    ensures
        ({
            let (a, e) = balances_after_move(kind, available as int, earning as int, amount as int);
            &&& a + e == available + earning
            &&& a >= 0 && e >= 0
            &&& kind == YieldMove::Deposit ==> balances_after_move(YieldMove::Withdraw, a, e, amount as int)
                == (available as int, earning as int)
        }),
{
}

/// The JSON payload of the envelope for a move.
pub open spec fn envelope_payload(
    source_account: Seq<char>,
    operation: Seq<char>,
    amount: int,
    reference: Seq<char>,
) -> Seq<char> {
    json_object(
        seq![
            json_member("amount"@, int_decimal(amount)),
            json_member("memo"@, json_string_literal("Zaps Yield: "@ + reference)),
            json_member("network"@, json_string_literal("Stellar Mainnet"@)),
            json_member("operation"@, json_string_literal(operation)),
            json_member("reference"@, json_string_literal(reference)),
            json_member("source_account"@, json_string_literal(source_account)),
        ],
    )
}

/// The base64 envelope describing a move, for the user's wallet to sign:
/// the JSON payload naming the account, the operation, the amount and the
/// reference, on Stellar Mainnet.
pub fn build_stellar_envelope_xdr(
    source_account: &str,
    operation: &str,
    amount: i64,
    reference: &str,
) -> (r: String)
    ensures
        r@ == base64_standard(
            vstd::utf8::encode_utf8(
                envelope_payload(source_account@, operation@, amount as int, reference@),
            ),
        ),
        base64_standard_decoded(r@) == Some(
            vstd::utf8::encode_utf8(
                envelope_payload(source_account@, operation@, amount as int, reference@),
            ),
        ),
{
    let mut memo = String::from_str("Zaps Yield: ");
    memo.append(reference);
    let mut w = JsonObjectWriter::new();
    w.integer("amount", amount);
    w.string("memo", memo.as_str());
    w.string("network", "Stellar Mainnet");
    w.string("operation", operation);
    w.string("reference", reference);
    w.string("source_account", source_account);
    let ghost members = w.members();
    let payload = w.finish();
    assert(members =~= seq![
        json_member("amount"@, int_decimal(amount as int)),
        json_member("memo"@, json_string_literal("Zaps Yield: "@ + reference@)),
        json_member("network"@, json_string_literal("Stellar Mainnet"@)),
        json_member("operation"@, json_string_literal(operation@)),
        json_member("reference"@, json_string_literal(reference@)),
        json_member("source_account"@, json_string_literal(source_account@)),
    ]);
    base64_of_text(payload.as_str())
}

/// The answer to a deposit: the refreshed balances and the envelope.
pub fn deposit_response(
    source_account: &str,
    amount: i64,
    reference: &str,
    available_balance: i64,
    earning_balance: i64,
) -> (r: DepositResponse)
    ensures
        r.available_balance == available_balance,
        r.earning_balance == earning_balance,
        r.envelope_xdr@ == base64_standard(
            vstd::utf8::encode_utf8(
                envelope_payload(source_account@, "yield_deposit"@, amount as int, reference@),
            ),
        ),
{
    let envelope_xdr = build_stellar_envelope_xdr(
        source_account,
        YieldMove::Deposit.operation(),
        amount,
        reference,
    );
    DepositResponse { available_balance, earning_balance, envelope_xdr }
}

/// The answer to a withdrawal: the refreshed balances and the envelope.
pub fn withdraw_response(
    source_account: &str,
    amount: i64,
    reference: &str,
    available_balance: i64,
    earning_balance: i64,
) -> (r: WithdrawResponse)
    ensures
        r.available_balance == available_balance,
        r.earning_balance == earning_balance,
        r.envelope_xdr@ == base64_standard(
            vstd::utf8::encode_utf8(
                envelope_payload(source_account@, "yield_withdraw"@, amount as int, reference@),
            ),
        ),
{
    let envelope_xdr = build_stellar_envelope_xdr(
        source_account,
        YieldMove::Withdraw.operation(),
        amount,
        reference,
    );
    WithdrawResponse { available_balance, earning_balance, envelope_xdr }
}

} // verus!
