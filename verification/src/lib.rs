//! Contracts of an invoice-financing protocol: a marketplace on which sellers list invoices and
//! investors fund them, and a registry of the businesses, debtors and verifiers behind them.
//!
//! Every call of a contract is a function from the contract's storage, the call's context
//! ([`env::Env`]) and its arguments to a verdict, the new storage and the effects that the host
//! carries out. The storage and the context are plain values; nothing here talks to a host.
pub mod audit;
pub mod env;
pub mod errors;
pub mod marketplace;
pub mod risk_registry;
pub mod sums;
pub mod table;
pub mod types;
pub mod validation;
