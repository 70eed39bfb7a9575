//! A ledger of fuel-sale transactions: the record, its validation, and the
//! stores that keep it.
//!
//! The library decides; it does no I/O. The in-memory store answers at
//! once. The persistent store hands out the statement to run and reads the
//! engine's reply. `laws` states what holds of every ledger.

pub mod clock;
pub mod dto;
pub mod errors;
pub mod ident;
pub mod laws;
pub mod mock;
pub mod models;
pub mod money;
pub mod postgr;
pub mod repository;
pub mod store;
pub mod validate;

pub use clock::Timestamp;
pub use dto::{BodyRejection, HeaderLookup, TxId, UserId};
pub use errors::AppError;
pub use mock::MockStore;
pub use models::{ApiTransaction, Transaction};
pub use money::Money;
pub use postgr::{PostgresStore, SqlValue, Statement};
pub use repository::{Repository, Step, StoreKind};
pub use validate::{AmountInput, Fault, Field, TransactionDraft};
