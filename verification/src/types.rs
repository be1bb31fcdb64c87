use vstd::prelude::*;

use crate::table::Key;

verus! {

/// What an address names: an account, by its public key, or a contract, by its hash.
#[derive(Clone, Copy, Debug, PartialEq, Eq, Structural)]
pub enum AddressKind {
    Account,
    Contract,
}

/// An address: its kind and its thirty-two bytes, as two big-endian halves.
#[derive(Clone, Copy, Debug, PartialEq, Eq, Structural)]
pub struct Address {
    pub kind: AddressKind,
    pub high: u128,
    pub low: u128,
}

impl Key for Address {
    fn same(&self, other: &Self) -> (r: bool) {
        *self == *other
    }
}

impl Key for (u64, Address) {
    fn same(&self, other: &Self) -> (r: bool) {
        self.0 == other.0 && self.1 == other.1
    }
}

impl Key for (Address, [u8; 32]) {
    fn same(&self, other: &Self) -> (r: bool) {
        self.0 == other.0 && self.1.same(&other.1)
    }
}

/// Risk classes of an invoice, from the lowest risk to the highest.
#[derive(Clone, Copy, Debug, PartialEq, Eq, Structural)]
pub enum RiskTier {
    AAA,
    AA,
    A,
    B,
    C,
}

impl RiskTier {
    /// The number under which the fee of a class is stored.
    pub open spec fn ordinal(self) -> u32 {
        match self {
            RiskTier::AAA => 0,
            RiskTier::AA => 1,
            RiskTier::A => 2,
            RiskTier::B => 3,
            RiskTier::C => 4,
        }
    }
}

/// An invoice on offer.
#[derive(Clone, Copy, Debug, PartialEq, Eq, Structural)]
pub struct Listing {
    pub invoice_id: u64,
    pub seller: Address,
    /// What the seller asks for the invoice.
    pub asking_price: i128,
    /// What the invoice is worth when it falls due.
    pub face_value: i128,
    /// The token in which the listing is funded.
    pub token: Address,
    /// What investors have paid in, fees included.
    pub funded_amount: i128,
    /// The last second at which the listing can be funded.
    pub funding_deadline: u64,
    pub is_active: bool,
}

/// What the registry knows of a business.
#[derive(Clone, Copy, Debug, PartialEq, Eq, Structural)]
pub struct SmeProfile {
    pub address: Address,
    pub verified: bool,
    /// The verifier that registered the business.
    pub verifier: Address,
    pub risk_score: u32,
    pub total_invoices: u32,
    pub defaults: u32,
    pub registered_at: u64,
    pub compliance_attested: bool,
    /// The limit on its outstanding credit; zero for no limit.
    pub credit_limit: i128,
}

/// Code that an admin has proposed to run in place of the contract's.
#[derive(Clone, Copy, Debug, PartialEq, Eq)]
pub struct UpgradeProposal {
    pub wasm_hash: [u8; 32],
    pub proposed_at: u64,
}

} // verus!
