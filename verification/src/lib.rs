//! A personal bookkeeping engine: accounts, two-leg transfers, asset
//! depreciation schedules and balance reconciliation. The posting engine
//! is the only writer of account balances; it guarantees that liability
//! accounts never show a positive balance, that a two-leg posting moves
//! money without creating any, and that every multi-step operation is
//! all-or-nothing.
pub mod calendar;
pub mod depreciation;
pub mod errors;
pub mod ledger;
pub mod models;
pub mod purchase;
pub mod reconcile;
pub mod reports;
pub mod scheduler;
pub mod text;

pub use errors::AppError;
