//! The registry of verifiers, of the businesses that they register, and of debtors' risk scores.
pub mod calls;
pub mod contract;
pub mod history;
pub mod laws;
pub mod model;
pub mod stakes;
