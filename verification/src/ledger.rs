//! The ledger engine: request validation, deterministic lock ordering,
//! settlement arithmetic, and the atomic execution of a movement against
//! the store.
//!
//! Execution order follows the engine's rules: a request is validated before
//! anything else; the accounts it names are then taken in a fixed total
//! order (the deadlock-avoidance rule); existence, currency, and balance
//! checks use the state as taken; balances change and the movement record is
//! appended only when every check has passed, so a failure leaves no partial
//! effect.

use vstd::prelude::*;

use crate::text::{str_eq, trim, trimmed};
use crate::transaction::{CreateTransactionRequest, TransactionType};

verus! {

/// Why the engine refused or could not execute a movement.
#[derive(Clone, Copy, Debug, PartialEq, Eq)]
pub enum TransactionError {
    /// The request itself violates a precondition; never retried.
    BadRequest(&'static str),
    /// A named account does not exist or belongs to another business.
    NotFound,
    /// The source balance cannot cover the amount; a business outcome, not a fault.
    InsufficientFunds,
    /// Arithmetic overflow or a storage fault; opaque to the caller.
    Internal,
}

impl TransactionError {
    /// The HTTP status this failure is reported with.
    pub fn status_code(&self) -> (r: u16)
        ensures
            *self is BadRequest ==> r == 400,
            *self is NotFound ==> r == 404,
            *self is InsufficientFunds ==> r == 400,
            *self is Internal ==> r == 500,
    {
        match self {
            TransactionError::BadRequest(_) => 400,
            TransactionError::NotFound => 404,
            TransactionError::InsufficientFunds => 400,
            TransactionError::Internal => 500,
        }
    }

    /// The message shown to the caller.
    pub fn message(&self) -> (r: String)
        ensures
            *self matches TransactionError::BadRequest(m) ==> r@ == m@,
            *self is NotFound ==> r@ == "Data Not found"@,
            *self is InsufficientFunds ==> r@ == "insufficient funds"@,
            *self is Internal ==> r@ == "Internal Server error"@,
    {
        match self {
            TransactionError::BadRequest(m) => String::from_str(m),
            TransactionError::NotFound => String::from_str("Data Not found"),
            TransactionError::InsufficientFunds => String::from_str("insufficient funds"),
            TransactionError::Internal => String::from_str("Internal Server error"),
        }
    }
}

/// Whether a request names its legs as its kind demands: a credit has only a
/// destination, a debit only a source, a transfer two distinct accounts.
pub open spec fn spec_legs_ok(req: CreateTransactionRequest) -> bool {
    match req.tx_type {
        TransactionType::Credit => req.dest_account_id is Some && req.source_account_id is None,
        TransactionType::Debit => req.source_account_id is Some && req.dest_account_id is None,
        TransactionType::Transfer => req.source_account_id is Some && req.dest_account_id is Some
            && req.source_account_id != req.dest_account_id,
    }
}

/// Whether a request passes validation: a positive amount and well-formed legs.
pub open spec fn spec_valid_request(req: CreateTransactionRequest) -> bool {
    req.amount > 0 && spec_legs_ok(req)
}

/// The reason reported for an invalid request; meaningful only when
/// `spec_valid_request` fails.
pub open spec fn spec_validation_message(req: CreateTransactionRequest) -> Seq<char> {
    if req.amount <= 0 {
        "amount must be > 0"@
    } else {
        match req.tx_type {
            TransactionType::Credit => "credit requires dest_account_id and no source_account_id"@,
            TransactionType::Debit => "debit requires source_account_id and no dest_account_id"@,
            TransactionType::Transfer => if req.source_account_id is None || req.dest_account_id
                is None {
                "transfer requires source_account_id and dest_account_id"@
            } else {
                "transfer requires distinct source and destination accounts"@
            },
        }
    }
}

/// The source leg a valid request touches.
pub open spec fn spec_source_leg(req: CreateTransactionRequest) -> Option<u128> {
    match req.tx_type {
        TransactionType::Credit => None,
        TransactionType::Debit => req.source_account_id,
        TransactionType::Transfer => req.source_account_id,
    }
}

/// The destination leg a valid request touches.
pub open spec fn spec_dest_leg(req: CreateTransactionRequest) -> Option<u128> {
    match req.tx_type {
        TransactionType::Credit => req.dest_account_id,
        TransactionType::Debit => None,
        TransactionType::Transfer => req.dest_account_id,
    }
}

/// Checks a request before anything is locked or read: the amount must be
/// positive and the legs must fit the movement kind. Returns the legs to
/// touch, or the reason the request is refused.
pub fn validate_request(req: &CreateTransactionRequest) -> (r: Result<
    (Option<u128>, Option<u128>),
    TransactionError,
>)
    ensures
        r is Ok <==> spec_valid_request(*req),
        r matches Ok(legs) ==> legs.0 == spec_source_leg(*req) && legs.1 == spec_dest_leg(*req),
        r matches Err(e) ==> (e matches TransactionError::BadRequest(m) && m@
            == spec_validation_message(*req)),
{
    if req.amount <= 0 {
        return Err(TransactionError::BadRequest("amount must be > 0"));
    }
    match req.tx_type {
        TransactionType::Credit => {
            if req.dest_account_id.is_none() || req.source_account_id.is_some() {
                return Err(
                    TransactionError::BadRequest(
                        "credit requires dest_account_id and no source_account_id",
                    ),
                );
            }
            Ok((None, req.dest_account_id))
        },
        TransactionType::Debit => {
            if req.source_account_id.is_none() || req.dest_account_id.is_some() {
                return Err(
                    TransactionError::BadRequest(
                        "debit requires source_account_id and no dest_account_id",
                    ),
                );
            }
            Ok((req.source_account_id, None))
        },
        TransactionType::Transfer => {
            if req.source_account_id.is_none() || req.dest_account_id.is_none() {
                return Err(
                    TransactionError::BadRequest(
                        "transfer requires source_account_id and dest_account_id",
                    ),
                );
            }
            let s = req.source_account_id.unwrap();
            let d = req.dest_account_id.unwrap();
            if s == d {
                return Err(
                    TransactionError::BadRequest(
                        "transfer requires distinct source and destination accounts",
                    ),
                );
            }
            Ok((Some(s), Some(d)))
        },
    }
}

/// The two identifiers in the fixed total order in which their rows are taken.
pub open spec fn spec_ordered_pair(a: u128, b: u128) -> (u128, u128) {
    if a <= b {
        (a, b)
    } else {
        (b, a)
    }
}

/// Sorts two account identifiers into the fixed total order used for lock
/// acquisition, independent of which is source and which is destination.
pub fn order_ids(a: u128, b: u128) -> (r: (u128, u128))
    ensures
        r == spec_ordered_pair(a, b),
        r.0 <= r.1,
{
    if a <= b {
        (a, b)
    } else {
        (b, a)
    }
}

/// Any two movements over the same pair of accounts request their rows in the
/// same order, whichever account each calls source: with a single global
/// acquisition order no cycle of waiters can form, so two opposite transfers
/// cannot deadlock.
pub proof fn lemma_lock_order_symmetric(a: u128, b: u128)
    ensures
        spec_ordered_pair(a, b) == spec_ordered_pair(b, a),
{
}

/// New balance of an account receiving `amount`, or the fault when it cannot
/// be represented.
pub fn settle_credit(balance: i64, amount: i64) -> (r: Result<i64, TransactionError>)
    requires
        amount > 0,
    ensures
        balance + amount <= i64::MAX ==> (r matches Ok(b) && b == balance + amount),
        balance + amount > i64::MAX ==> r matches Err(TransactionError::Internal),
{
    match balance.checked_add(amount) {
        Some(b) => Ok(b),
        None => Err(TransactionError::Internal),
    }
}

/// New balance of an account paying out `amount`, refused when the balance
/// cannot cover it.
pub fn settle_debit(balance: i64, amount: i64) -> (r: Result<i64, TransactionError>)
    requires
        amount > 0,
    ensures
        balance < amount ==> r matches Err(TransactionError::InsufficientFunds),
        balance >= amount ==> (r matches Ok(b) && b == balance - amount),
{
    if balance < amount {
        return Err(TransactionError::InsufficientFunds);
    }
    match balance.checked_sub(amount) {
        Some(b) => Ok(b),
        None => Err(TransactionError::Internal),
    }
}

/// Both new balances of a transfer, checked in the engine's order: the two
/// currencies must agree once surrounding whitespace is ignored, the source
/// must cover the amount, and the destination's new balance must be
/// representable.
pub fn settle_transfer(
    source_currency: &str,
    source_balance: i64,
    dest_currency: &str,
    dest_balance: i64,
    amount: i64,
) -> (r: Result<(i64, i64), TransactionError>)
    requires
        amount > 0,
    ensures
        trimmed(source_currency@) != trimmed(dest_currency@) ==> (r matches Err(e) && e matches
            TransactionError::BadRequest(m) && m@
            == "transfer requires source and destination accounts to have same currency"@),
        trimmed(source_currency@) == trimmed(dest_currency@) && source_balance < amount
            ==> r matches Err(TransactionError::InsufficientFunds),
        trimmed(source_currency@) == trimmed(dest_currency@) && source_balance >= amount
            && dest_balance + amount > i64::MAX ==> r matches Err(TransactionError::Internal),
        trimmed(source_currency@) == trimmed(dest_currency@) && source_balance >= amount
            && dest_balance + amount <= i64::MAX ==> (r matches Ok(p) && p.0 == source_balance
            - amount && p.1 == dest_balance + amount),
{
    if !str_eq(trim(source_currency), trim(dest_currency)) {
        return Err(
            TransactionError::BadRequest(
                "transfer requires source and destination accounts to have same currency",
            ),
        );
    }
    if source_balance < amount {
        return Err(TransactionError::InsufficientFunds);
    }
    let new_source = match source_balance.checked_sub(amount) {
        Some(b) => b,
        None => {
            return Err(TransactionError::Internal);
        },
    };
    match dest_balance.checked_add(amount) {
        Some(b) => Ok((new_source, b)),
        None => Err(TransactionError::Internal),
    }
}

} // verus!
