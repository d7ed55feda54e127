//! The decisions of the HTTP handlers.
//!
//! A handler checks the request, asks the wallet store, decides on the
//! store's answer, publishes an event and answers the client.  The store, the
//! event bus and HTTP are driven by the service around this library; each
//! function here takes what came back from one of them and says what happens
//! next.

use vstd::prelude::*;
use crate::errors::{contains_text, has_substring, ApiError, StoreError, StoreErrorKind};
use crate::events::WalletEvent;
use crate::identity::{
    draw_id, drawn_at_random, is_clock_reading, is_random_v4, read_clock, read_from_clock, Timestamp,
};
use crate::money::{fits, lemma_sum_exact, scaled, sum_is_exact, sum_result, Money};
use crate::wallet::{Wallet, WalletResponse};

verus! {

/// The body of a request that funds a wallet.
#[derive(Clone, Debug)]
pub struct FundWalletRequest {
    pub amount: Money,
}

/// The body of a request that transfers an amount to another wallet.
#[derive(Clone, Debug)]
pub struct TransferRequest {
    pub to_wallet_id: u128,
    pub amount: Money,
}

/// A guarded balance update: set the balance of wallet `id` to `new_balance`
/// and advance its version, provided its version is still `expected_version`.
#[derive(Clone, Copy, Debug)]
pub struct BalanceUpdate {
    pub id: u128,
    pub new_balance: Money,
    pub expected_version: i64,
}

/// What a funding request does after the wallet was looked up.
#[derive(Debug)]
pub enum FundPlan {
    /// Write this update.
    Update(BalanceUpdate),
    /// Answer with this refusal.
    Refused(ApiError),
    /// The new balance does not fit in a decimal (where `Decimal`'s `+`
    /// panics with "Addition overflowed").
    Overflowed,
}

/// The text of a refusal.
pub open spec fn refusal_text(e: ApiError) -> Seq<char> {
    match e {
        ApiError::BadRequest(s) => s@,
        ApiError::NotFound(s) => s@,
        ApiError::Conflict(s) => s@,
        ApiError::Internal(s) => s@,
    }
}

/// Whether `e` is a 400 answer with text `text`.
pub open spec fn is_bad_request(e: ApiError, text: Seq<char>) -> bool {
    e matches ApiError::BadRequest(s) && s@ == text
}

/// The answer to a store failure while looking a wallet up: 404 "Wallet not
/// found" where there is no such row, else 500 with the failure's text.
pub open spec fn lookup_refusal(e: StoreError) -> (ApiError, Seq<char>) {
    match e.kind {
        StoreErrorKind::RowNotFound => (ApiError::NotFound(arbitrary()), "Wallet not found"@),
        _ => (ApiError::Internal(arbitrary()), e.message@),
    }
}

/// Whether `r` is the refusal of kind `kind` with text `text` (the string
/// inside is compared by its characters).
pub open spec fn same_refusal(r: ApiError, expected: (ApiError, Seq<char>)) -> bool {
    &&& refusal_text(r) == expected.1
    &&& match (r, expected.0) {
        (ApiError::BadRequest(_), ApiError::BadRequest(_)) => true,
        (ApiError::NotFound(_), ApiError::NotFound(_)) => true,
        (ApiError::Conflict(_), ApiError::Conflict(_)) => true,
        (ApiError::Internal(_), ApiError::Internal(_)) => true,
        _ => false,
    }
}

/// The answer to a store failure while writing a funded balance: 409 where
/// the guarded update found no row at the version read (another update came
/// first), else 500 with the failure's text.
pub open spec fn update_refusal(e: StoreError) -> (ApiError, Seq<char>) {
    match e.kind {
        StoreErrorKind::RowNotFound => (
            ApiError::Conflict(arbitrary()),
            "Concurrent modification detected, please retry"@,
        ),
        _ => (ApiError::Internal(arbitrary()), e.message@),
    }
}

/// The answer to a failed transfer: 404 where a wallet is missing, 400
/// "Insufficient balance" where the store refused for that reason, else 500
/// with the failure's text.
pub open spec fn transfer_refusal(e: StoreError) -> (ApiError, Seq<char>) {
    match e.kind {
        StoreErrorKind::RowNotFound => (ApiError::NotFound(arbitrary()), "Wallet not found"@),
        StoreErrorKind::Protocol(reason) => if has_substring(reason@, "Insufficient balance"@) {
            (ApiError::BadRequest(arbitrary()), "Insufficient balance"@)
        } else {
            (ApiError::Internal(arbitrary()), e.message@)
        },
        StoreErrorKind::Other => (ApiError::Internal(arbitrary()), e.message@),
    }
}

/// The event that records the creation of `wallet`.
pub open spec fn created_event(wallet: Wallet, transaction_id: u128, at: Timestamp) -> WalletEvent {
    WalletEvent::WalletCreated {
        wallet_id: wallet.id,
        user_id: wallet.user_id,
        transaction_id,
        initial_balance: wallet.balance,
        timestamp: at,
    }
}

/// The event that records that `amount` was added to `wallet`, whose updated
/// row is given.
pub open spec fn funded_event(wallet: Wallet, amount: Money, transaction_id: u128, at: Timestamp) -> WalletEvent {
    WalletEvent::WalletFunded {
        wallet_id: wallet.id,
        user_id: wallet.user_id,
        transaction_id,
        amount,
        new_balance: wallet.balance,
        timestamp: at,
    }
}

/// The event that records a transfer of `amount` between the two updated rows.
pub open spec fn transfer_event(
    from: Wallet,
    to: Wallet,
    amount: Money,
    from_transaction_id: u128,
    to_transaction_id: u128,
    at: Timestamp,
) -> WalletEvent {
    WalletEvent::TransferCompleted {
        from_wallet_id: from.id,
        to_wallet_id: to.id,
        from_user_id: from.user_id,
        to_user_id: to.user_id,
        amount,
        from_transaction_id,
        to_transaction_id,
        timestamp: at,
    }
}

fn text(s: &str) -> (r: String)
    ensures
        r@ == s@,
{
    String::from_str(s)
}

/// Refuses an amount that is not greater than zero.
pub fn check_amount(amount: &Money) -> (r: Result<(), ApiError>)
    ensures
        r is Ok <==> amount.mantissa() > 0,
        r matches Err(e) ==> is_bad_request(e, "Amount must be greater than zero"@),
{
    if !amount.is_positive() {
        return Err(ApiError::BadRequest(text("Amount must be greater than zero")));
    }
    Ok(())
}

/// The answer to a lookup of one wallet.
pub fn wallet_found(found: Result<Wallet, StoreError>) -> (r: Result<WalletResponse, ApiError>)
    ensures
        found matches Ok(w) ==> r == Ok::<WalletResponse, ApiError>(WalletResponse::of(w)),
        found matches Ok(w) ==> (r matches Ok(resp) && resp.id == w.id && resp.user_id == w.user_id
            && resp.balance == w.balance && resp.version == w.version),
        found matches Err(e) ==> r matches Err(a) && same_refusal(a, lookup_refusal(e)),
{
    match found {
        Ok(w) => Ok(WalletResponse::from(w)),
        Err(e) => Err(lookup_error(e)),
    }
}

fn lookup_error(e: StoreError) -> (r: ApiError)
    ensures
        same_refusal(r, lookup_refusal(e)),
{
    match e.kind {
        StoreErrorKind::RowNotFound => ApiError::NotFound(text("Wallet not found")),
        _ => ApiError::Internal(e.message),
    }
}

/// The answer to a listing of wallets: each wallet as a response, in the
/// order the store gave them, or 500 with the failure's text.
pub fn wallets_listed(found: Result<Vec<Wallet>, StoreError>) -> (r: Result<Vec<WalletResponse>, ApiError>)
    ensures
        found matches Ok(ws) ==> r matches Ok(rs) && rs@.len() == ws@.len() && forall|i: int|
            0 <= i < ws@.len() ==> #[trigger] rs@[i] == WalletResponse::of(ws@[i]),
        found matches Ok(ws) ==> (r matches Ok(rs) && forall|i: int|
            0 <= i < ws@.len() ==> (#[trigger] rs@[i]).id == ws@[i].id && rs@[i].user_id == ws@[i].user_id
                && rs@[i].balance == ws@[i].balance && rs@[i].version == ws@[i].version),
        found matches Err(e) ==> r matches Err(a) && a matches ApiError::Internal(s) && s@ == e.message@,
{
    match found {
        Ok(ws) => {
            let mut responses: Vec<WalletResponse> = Vec::new();
            let mut i: usize = 0;
            while i < ws.len()
                invariant
                    i <= ws@.len(),
                    responses@.len() == i,
                    forall|k: int| 0 <= k < i ==> #[trigger] responses@[k] == WalletResponse::of(ws@[k]),
                decreases ws@.len() - i,
            {
                let w = &ws[i];
                responses.push(
                    WalletResponse {
                        id: w.id,
                        user_id: w.user_id.clone(),
                        balance: w.balance,
                        version: w.version,
                    },
                );
                i = i + 1;
            }
            Ok(responses)
        },
        Err(e) => Err(ApiError::Internal(e.message)),
    }
}

/// The record of the creation of `wallet`, with the given transaction and time.
pub fn wallet_created_event(wallet: &Wallet, transaction_id: u128, at: Timestamp) -> (r: WalletEvent)
    ensures
        r == created_event(*wallet, transaction_id, at),
{
    WalletEvent::WalletCreated {
        wallet_id: wallet.id,
        user_id: wallet.user_id.clone(),
        transaction_id,
        initial_balance: wallet.balance,
        timestamp: at,
    }
}

/// The answer to the creation of a wallet: the event to publish, with a new
/// transaction identifier and the current time, and the response (201); or
/// 500 with the failure's text.
pub fn wallet_created(created: Result<Wallet, StoreError>) -> (r: Result<(WalletEvent, WalletResponse), ApiError>)
    ensures
        created matches Ok(w) ==> (r matches Ok((ev, resp)) && resp.id == w.id && resp.user_id == w.user_id
            && resp.balance == w.balance && resp.version == w.version),
        created matches Ok(w) ==> r matches Ok((ev, resp)) && resp == WalletResponse::of(w) && exists|
            txn: u128,
            at: Timestamp,
        | is_random_v4(txn) && is_clock_reading(at) && drawn_at_random(txn) && read_from_clock(at) && ev == created_event(w, txn, at),
        created matches Err(e) ==> r matches Err(a) && a matches ApiError::Internal(s) && s@ == e.message@,
{
    match created {
        Ok(w) => {
            let transaction_id = draw_id();
            let at = read_clock();
            let event = wallet_created_event(&w, transaction_id, at);
            Ok((event, WalletResponse::from(w)))
        },
        Err(e) => Err(ApiError::Internal(e.message)),
    }
}

/// What a funding of `amount` does with the looked-up wallet: write its
/// balance plus `amount`, guarded by the version read; or refuse as a lookup
/// refuses.
pub fn fund_plan(amount: &Money, found: Result<Wallet, StoreError>) -> (r: FundPlan)
    ensures
        found matches Ok(w) ==> match sum_result(w.balance, *amount) {
            Some(p) => r matches FundPlan::Update(u) && u.id == w.id && u.new_balance.parts() == p
                && u.expected_version == w.version,
            None => r is Overflowed,
        },
        found matches Err(e) ==> r matches FundPlan::Refused(a) && same_refusal(a, lookup_refusal(e)),
{
    match found {
        Ok(w) => match w.balance.checked_add(amount) {
            Some(b) => FundPlan::Update(BalanceUpdate { id: w.id, new_balance: b, expected_version: w.version }),
            None => FundPlan::Overflowed,
        },
        Err(e) => FundPlan::Refused(lookup_error(e)),
    }
}

/// The record of the funding of `wallet` (the updated row) by `amount`.
pub fn wallet_funded_event(wallet: &Wallet, amount: Money, transaction_id: u128, at: Timestamp) -> (r: WalletEvent)
    ensures
        r == funded_event(*wallet, amount, transaction_id, at),
{
    WalletEvent::WalletFunded {
        wallet_id: wallet.id,
        user_id: wallet.user_id.clone(),
        transaction_id,
        amount,
        new_balance: wallet.balance,
        timestamp: at,
    }
}

/// The answer to the guarded update of a funding of `amount`: the event to
/// publish, with a new transaction identifier and the current time, and the
/// updated wallet (200); or 409 where another update came first, else 500.
pub fn wallet_funded(amount: Money, updated: Result<Wallet, StoreError>) -> (r: Result<(WalletEvent, WalletResponse), ApiError>)
    ensures
        updated matches Ok(w) ==> (r matches Ok((ev, resp)) && resp.id == w.id && resp.user_id == w.user_id
            && resp.balance == w.balance && resp.version == w.version),
        updated matches Ok(w) ==> r matches Ok((ev, resp)) && resp == WalletResponse::of(w) && exists|
            txn: u128,
            at: Timestamp,
        | is_random_v4(txn) && is_clock_reading(at) && drawn_at_random(txn) && read_from_clock(at) && ev == funded_event(w, amount, txn, at),
        updated matches Err(e) ==> r matches Err(a) && same_refusal(a, update_refusal(e)),
{
    match updated {
        Ok(w) => {
            let transaction_id = draw_id();
            let at = read_clock();
            let event = wallet_funded_event(&w, amount, transaction_id, at);
            Ok((event, WalletResponse::from(w)))
        },
        Err(e) => match e.kind {
            StoreErrorKind::RowNotFound => Err(
                ApiError::Conflict(text("Concurrent modification detected, please retry")),
            ),
            _ => Err(ApiError::Internal(e.message)),
        },
    }
}

/// Refuses a transfer of a non-positive amount, then one to the source
/// wallet itself.
pub fn check_transfer(from_id: u128, request: &TransferRequest) -> (r: Result<(), ApiError>)
    ensures
        r is Ok <==> (request.amount.mantissa() > 0 && from_id != request.to_wallet_id),
        request.amount.mantissa() <= 0 ==> (r matches Err(e) && is_bad_request(
            e,
            "Amount must be greater than zero"@,
        )),
        request.amount.mantissa() > 0 && from_id == request.to_wallet_id ==> (r matches Err(e)
            && is_bad_request(e, "Cannot transfer to the same wallet"@)),
{
    check_amount(&request.amount)?;
    if from_id == request.to_wallet_id {
        return Err(ApiError::BadRequest(text("Cannot transfer to the same wallet")));
    }
    Ok(())
}

/// The record of a transfer of `amount` between the two updated rows.
pub fn transfer_completed_event(
    from: &Wallet,
    to: &Wallet,
    amount: Money,
    from_transaction_id: u128,
    to_transaction_id: u128,
    at: Timestamp,
) -> (r: WalletEvent)
    ensures
        r == transfer_event(*from, *to, amount, from_transaction_id, to_transaction_id, at),
{
    WalletEvent::TransferCompleted {
        from_wallet_id: from.id,
        to_wallet_id: to.id,
        from_user_id: from.user_id.clone(),
        to_user_id: to.user_id.clone(),
        amount,
        from_transaction_id,
        to_transaction_id,
        timestamp: at,
    }
}

/// The answer to a transfer of `amount`: the event to publish, with two new
/// transaction identifiers and the current time, and the updated destination
/// wallet (200); or the refusal that [`transfer_refusal`] gives.
pub fn transfer_done(amount: Money, result: Result<(Wallet, Wallet), StoreError>) -> (r: Result<(WalletEvent, WalletResponse), ApiError>)
    ensures
        result matches Ok((from, to)) ==> (r matches Ok((ev, resp)) && resp.id == to.id && resp.user_id
            == to.user_id && resp.balance == to.balance && resp.version == to.version),
        result matches Ok((from, to)) ==> r matches Ok((ev, resp)) && resp == WalletResponse::of(to)
            && exists|t1: u128, t2: u128, at: Timestamp|
            is_random_v4(t1) && is_random_v4(t2) && is_clock_reading(at) && drawn_at_random(t1)
                && drawn_at_random(t2) && read_from_clock(at) && ev == transfer_event(
                from,
                to,
                amount,
                t1,
                t2,
                at,
            ),
        result matches Err(e) ==> r matches Err(a) && same_refusal(a, transfer_refusal(e)),
{
    match result {
        Ok((from, to)) => {
            let from_transaction_id = draw_id();
            let to_transaction_id = draw_id();
            let at = read_clock();
            let event = transfer_completed_event(&from, &to, amount, from_transaction_id, to_transaction_id, at);
            Ok((event, WalletResponse::from(to)))
        },
        Err(e) => match e.kind {
            StoreErrorKind::RowNotFound => Err(ApiError::NotFound(text("Wallet not found"))),
            StoreErrorKind::Protocol(reason) => {
                if contains_text(reason.as_str(), "Insufficient balance") {
                    Err(ApiError::BadRequest(text("Insufficient balance")))
                } else {
                    Err(ApiError::Internal(e.message))
                }
            },
            StoreErrorKind::Other => Err(ApiError::Internal(e.message)),
        },
    }
}

/// A transfer that the store refuses for an insufficient balance (with the
/// reason [`TransferOutcome::insufficient_balance_reason`]) is answered with
/// 400 "Insufficient balance", whatever the failure's text.
pub proof fn law_insufficient_balance_answered(reason: String, message: String)
    requires
        reason@ == "Insufficient balance"@,
    ensures
        transfer_refusal(StoreError { kind: StoreErrorKind::Protocol(reason), message }).1
            == "Insufficient balance"@,
        transfer_refusal(StoreError { kind: StoreErrorKind::Protocol(reason), message }).0 is BadRequest,
{
    let s = reason@;
    assert(s.subrange(0, 0 + s.len() as int) =~= s);
    assert(has_substring(s, "Insufficient balance"@));
}

/// Funding adds the amount: where the wallet is empty the new balance is the
/// amount, at its scale; where the balance and the amount share a scale and
/// the sum fits in 96 bits, the mantissas add; and wherever the sum is exact
/// (see [`sum_is_exact`]), the new balance's value is the old value plus the
/// amount, at any scales.
pub proof fn law_funding_adds_amount(balance: Money, amount: Money)
    requires
        balance.valid(),
        amount.valid(),
    ensures
        balance.mantissa() == 0 ==> sum_result(balance, amount) == Some(amount.parts()),
        balance.scale() == amount.scale() && fits(balance.mantissa() + amount.mantissa())
            ==> sum_result(balance, amount) == Some(
            ((balance.mantissa() + amount.mantissa()) as i128, amount.scale()),
        ),
        sum_is_exact(balance, amount) ==> (sum_result(balance, amount) matches Some(p) && scaled(
            Money::from_parts(p),
        ) == scaled(balance) + scaled(amount)),
{
    if sum_is_exact(balance, amount) {
        lemma_sum_exact(balance, amount);
    }
}

/// All events of one wallet are keyed alike: its creation, each funding of
/// it and each transfer out of it name the wallet as their primary wallet, so
/// `wallet_key` gives them one partition key.
pub proof fn law_events_of_a_wallet_share_a_key(
    wallet: Wallet,
    funded: Wallet,
    destination: Wallet,
    amount: Money,
    created_txn: u128,
    funded_txn: u128,
    from_txn: u128,
    to_txn: u128,
    created_at: Timestamp,
    funded_at: Timestamp,
    transferred_at: Timestamp,
)
    requires
        funded.id == wallet.id,
    ensures
        created_event(wallet, created_txn, created_at).primary_wallet() == wallet.id,
        funded_event(funded, amount, funded_txn, funded_at).primary_wallet() == wallet.id,
        transfer_event(wallet, destination, amount, from_txn, to_txn, transferred_at).primary_wallet()
            == wallet.id,
{
}

} // verus!
