//! Money movements: their kind, the immutable record of an executed movement,
//! and the request shape a caller submits.
//!
//! Account and business identifiers are 128-bit values; timestamps are Unix
//! seconds. Amounts are signed minor units, as the store holds them.

use vstd::prelude::*;

use crate::text::str_eq;

verus! {

/// The three kinds of movement the ledger records.
#[derive(Clone, Copy, Debug, PartialEq, Eq, Structural)]
pub enum TransactionType {
    Credit,
    Debit,
    Transfer,
}

/// The tag the store uses for each movement kind.
pub open spec fn spec_db_str(t: TransactionType) -> Seq<char> {
    match t {
        TransactionType::Credit => "credit"@,
        TransactionType::Debit => "debit"@,
        TransactionType::Transfer => "transfer"@,
    }
}

/// The movement kind a store tag names, if any.
pub open spec fn spec_from_db_str(s: Seq<char>) -> Option<TransactionType> {
    if s == "credit"@ {
        Some(TransactionType::Credit)
    } else if s == "debit"@ {
        Some(TransactionType::Debit)
    } else if s == "transfer"@ {
        Some(TransactionType::Transfer)
    } else {
        None
    }
}

impl TransactionType {
    /// The store's tag for this kind.
    pub fn as_db_str(self) -> (r: &'static str)
        ensures
            r@ == spec_db_str(self),
    {
        match self {
            TransactionType::Credit => "credit",
            TransactionType::Debit => "debit",
            TransactionType::Transfer => "transfer",
        }
    }

    /// The movement kind a store tag names; an unknown tag names none.
    pub fn from_db_str(s: &str) -> (r: Option<TransactionType>)
        ensures
            r == spec_from_db_str(s@),
    {
        if str_eq(s, "credit") {
            Some(TransactionType::Credit)
        } else if str_eq(s, "debit") {
            Some(TransactionType::Debit)
        } else if str_eq(s, "transfer") {
            Some(TransactionType::Transfer)
        } else {
            None
        }
    }
}

/// The store's tags are read back as the kinds that wrote them: parsing
/// inverts printing for every movement kind.
pub proof fn lemma_db_str_round_trip(t: TransactionType)
    ensures
        spec_from_db_str(spec_db_str(t)) == Some(t),
{
    reveal_strlit("credit");
    reveal_strlit("debit");
    reveal_strlit("transfer");
    assert("credit"@.len() == 6);
    assert("debit"@.len() == 5);
    assert("transfer"@.len() == 8);
    match t {
        TransactionType::Credit => {
            assert(spec_from_db_str("credit"@) == Some(TransactionType::Credit));
        },
        TransactionType::Debit => {
            assert("debit"@ != "credit"@);
            assert(spec_from_db_str("debit"@) == Some(TransactionType::Debit));
        },
        TransactionType::Transfer => {
            assert("transfer"@ != "credit"@);
            assert("transfer"@ != "debit"@);
            assert(spec_from_db_str("transfer"@) == Some(TransactionType::Transfer));
        },
    }
}

/// An executed movement. Immutable once created: the ledger only ever
/// appends these records.
#[derive(Clone, Copy, Debug)]
pub struct Transaction {
    pub id: u128,
    pub business_id: u128,
    pub tx_type: TransactionType,
    pub source_account_id: Option<u128>,
    pub dest_account_id: Option<u128>,
    pub amount: i64,
    pub created_at: i64,
}

/// A movement as it is shown to callers: the business scoping is implicit in
/// who may ask.
#[derive(Clone, Copy, Debug)]
pub struct TransactionResponse {
    pub id: u128,
    pub tx_type: TransactionType,
    pub source_account_id: Option<u128>,
    pub dest_account_id: Option<u128>,
    pub amount: i64,
    pub created_at: i64,
}

impl Transaction {
    /// This movement as shown to callers.
    pub fn to_response(self) -> (r: TransactionResponse)
        ensures
            r.id == self.id,
            r.tx_type == self.tx_type,
            r.source_account_id == self.source_account_id,
            r.dest_account_id == self.dest_account_id,
            r.amount == self.amount,
            r.created_at == self.created_at,
    {
        TransactionResponse {
            id: self.id,
            tx_type: self.tx_type,
            source_account_id: self.source_account_id,
            dest_account_id: self.dest_account_id,
            amount: self.amount,
            created_at: self.created_at,
        }
    }
}

/// A movement as a caller submits it.
#[derive(Clone, Copy, Debug)]
pub struct CreateTransactionRequest {
    pub tx_type: TransactionType,
    pub amount: i64,
    pub source_account_id: Option<u128>,
    pub dest_account_id: Option<u128>,
}

} // verus!
