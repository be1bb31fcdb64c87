//! The marketplace on which sellers list invoices and investors fund them.
pub mod calls;
pub mod contract;
pub mod funding;
pub mod history;
pub mod laws;
pub mod model;
pub mod pool;
