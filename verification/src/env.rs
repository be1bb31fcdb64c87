use vstd::prelude::*;

use crate::errors::KoraError;
use crate::types::Address;

verus! {

/// What the host answers about a call.
pub struct Context {
    /// The time of the ledger, in seconds.
    pub timestamp: u64,
    /// The address of the contract that is called.
    pub contract: Address,
    /// An address that the host has drawn for this call.
    pub fresh_address: Address,
    /// What the protocol's reentrancy guard answered when it was taken for this call.
    pub guard: Result<(), KoraError>,
    /// The seconds that must pass between the proposal of an upgrade and its execution.
    pub upgrade_timelock: u64,
}

/// The context of one call of a contract: what the host answers about the call, and the effects
/// that the call asks of the host, in order.
///
/// The host writes the contract's new storage back before it carries the effects out, and takes
/// everything back if one of them fails.
pub struct Env<E> {
    /// The time of the ledger, in seconds.
    pub timestamp: u64,
    /// The address of the contract that is called.
    pub contract: Address,
    /// The addresses that have authorized the call.
    pub auths: Vec<Address>,
    /// An address that the host has drawn for this call.
    pub fresh_address: Address,
    /// What the protocol's reentrancy guard answered when it was taken for this call.
    pub guard: Result<(), KoraError>,
    /// The seconds that must pass between the proposal of an upgrade and its execution.
    pub upgrade_timelock: u64,
    /// What the host is to do.
    pub effects: Vec<E>,
}

impl<E> Env<E> {
    /// Whether an address has authorized the call.
    pub open spec fn authorizes(self, address: Address) -> bool {
        self.auths@.contains(address)
    }

    /// What the host answers about the call.
    pub open spec fn context(self) -> Context {
        Context {
            timestamp: self.timestamp,
            contract: self.contract,
            fresh_address: self.fresh_address,
            guard: self.guard,
            upgrade_timelock: self.upgrade_timelock,
        }
    }

    /// Whether this context is another one with further effects asked of the host.
    pub open spec fn extends(self, before: Self, effects: Seq<E>) -> bool {
        &&& self.timestamp == before.timestamp
        &&& self.contract == before.contract
        &&& self.auths == before.auths
        &&& self.fresh_address == before.fresh_address
        &&& self.guard == before.guard
        &&& self.upgrade_timelock == before.upgrade_timelock
        &&& self.effects@ =~= before.effects@ + effects
    }

    /// Asks one more effect of the host.
    pub fn emit(&mut self, effect: E)
        ensures
            final(self).extends(*old(self), seq![effect]),
    {
        self.effects.push(effect);
    }
}

/// A context that extends another answers as it does, and asks of the host what the other asks and
/// then the further effects: no more, no fewer, and none in between.
pub proof fn extension_is_exact<E>(before: Env<E>, effects: Seq<E>, after: Env<E>)
    ensures
        after.extends(before, effects) <==> {
            &&& after.effects@ == before.effects@ + effects
            &&& after.auths == before.auths
            &&& after.context() == before.context()
        },
        before.context() == (Context {
            timestamp: before.timestamp,
            contract: before.contract,
            fresh_address: before.fresh_address,
            guard: before.guard,
            upgrade_timelock: before.upgrade_timelock,
        }),
{
}

} // verus!
