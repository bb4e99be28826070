//! Double-entry bookkeeping: accounts with running balances, transactions
//! whose debits equal their credits, balances rebuilt from history as of any
//! date, financial reports derived from them, and GST arithmetic.
//!
//! Every executable function carries a contract proved by Verus. The laws
//! of the ledger (running balances agree with the stored history, reversal
//! undoes posting, the trial balance always balances) are proof functions in
//! [`laws`] and [`balance_law`].

// Values: amounts, dates, sums.
pub mod calendar;
pub mod decimal;
pub mod exact;
pub mod sums;

// The data model and its rules.
pub mod traits;
pub mod types;
pub mod validation;

// Storage, posting and replay.
pub mod recorder;
pub mod replay;
pub mod storage;

// The registry, the recorder over a store, and the ledger.
pub mod account;
pub mod chart;
pub mod ledger;
pub mod patterns;
pub mod transaction;

// Reports.
pub mod reports;

// Laws.
pub mod balance_law;
pub mod laws;

// Tax and reconciliation.
pub mod gst;
pub mod reconciliation;

pub use calendar::Date;
pub use decimal::Decimal;
pub use ledger::Ledger;
pub use storage::MemoryStorage;
pub use transaction::TransactionBuilder;
pub use types::{Account, AccountType, Entry, EntryType, LedgerError, LedgerResult, Transaction};
