//! Verified core of a multi-tenant ledger: movement validation and settlement,
//! deterministic lock ordering, the webhook outbox, and the delivery worker's
//! retry state machine, together with the text normalization and API-key
//! hashing that the service's edge needs.

pub mod account;
pub mod auth;
pub mod config;
pub mod error;
pub mod ledger;
pub mod outbox;
pub mod store;
pub mod text;
pub mod transaction;
pub mod webhook;
pub mod worker;

pub use transaction::Transaction;
pub use transaction::TransactionType;
