//! What verifiers have staked with the registry, and what the registry holds for it.
use vstd::prelude::*;

use crate::env::Context;
use crate::risk_registry::history::Call;
use crate::risk_registry::model::{Effect, RegistryState};
use crate::types::Address;
use crate::validation::BPS_DENOMINATOR;

verus! {

impl Call {
    /// Whether a call that sets the registry up does so on terms that leave stakes sound: a least
    /// stake that is not negative, and a loss with a default that is at most the whole stake.
    pub open spec fn terms_are_sound(self) -> bool {
        self matches Call::Initialize { minimum_stake, slash_percentage_bps, .. } ==> minimum_stake
            >= 0 && slash_percentage_bps <= BPS_DENOMINATOR
    }
}

impl RegistryState {
    /// All stakes together.
    pub open spec fn staked(self) -> int {
        crate::sums::sum_under(self.stakes.dom(), self.stakes)
    }

    /// There are finitely many stakes, none is negative, and the terms of staking keep it so.
    pub open spec fn stakes_are_sound(self) -> bool {
        &&& self.stakes.dom().finite()
        &&& forall|verifier: Address| #[trigger]
            self.stakes.contains_key(verifier) ==> self.stakes[verifier] >= 0
        &&& self.minimum_stake matches Some(minimum_stake) ==> minimum_stake >= 0
        &&& self.slash_percentage matches Some(bps) ==> bps <= BPS_DENOMINATOR
    }

    /// What a call moves into the registry's account; what it moves out counts against it.
    pub open spec fn stake_flow(self, context: Context, call: Call) -> int {
        if self.verdict(context, call) is Err {
            0
        } else {
            match call {
                Call::AddVerifier { stake_amount, .. } => stake_amount as int,
                Call::RemoveVerifier { verifier, .. } => if self.stake(verifier) > 0 {
                    -self.stake(verifier)
                } else {
                    0
                },
                _ => 0,
            }
        }
    }

    /// What a history of calls moves into the registry's account.
    pub open spec fn stake_flow_of_all(self, calls: Seq<(Context, Call)>) -> int
        decreases calls.len(),
    {
        if calls.len() == 0 {
            0
        } else {
            self.stake_flow_of_all(calls.drop_last()) + self.after_all(
                calls.drop_last(),
            ).stake_flow(calls.last().0, calls.last().1)
        }
    }
}

/// What a call is said to move is what its effects have the token move.
pub proof fn stake_flow_is_asked_for(
    state: RegistryState,
    context: Context,
    admin: Address,
    verifier: Address,
    stake_amount: i128,
)
    ensures
        ({
            let call = Call::AddVerifier { admin, verifier, stake_amount };
            state.verdict(context, call) is Ok ==> state.add_verifier_effects(
                context.timestamp,
                context.contract,
                admin,
                verifier,
                stake_amount,
            )[0] == Effect::Transfer {
                token: state.staking_token->0,
                from: verifier,
                to: context.contract,
                amount: state.stake_flow(context, call) as i128,
            }
        }),
        ({
            let call = Call::RemoveVerifier { admin, verifier };
            state.verdict(context, call) is Ok && state.stake_flow(context, call) != 0
                ==> state.remove_verifier_effects(
                context.timestamp,
                context.contract,
                admin,
                verifier,
            )[0] == Effect::Transfer {
                token: state.staking_token->0,
                from: context.contract,
                to: verifier,
                amount: (-state.stake_flow(context, call)) as i128,
            }
        }),
{
}

/// No call lets stakes grow by more than it moves into the registry's account: whatever the
/// registry held, if it covered all stakes before the call it covers them after it.
pub proof fn call_keeps_stakes_covered(
    state: RegistryState,
    context: Context,
    call: Call,
    holdings: int,
)
    requires
        state.stakes_are_sound(),
        call.terms_are_sound(),
        state.staked() <= holdings,
    ensures
        state.after(context, call).stakes_are_sound(),
        state.after(context, call).staked() <= holdings + state.stake_flow(context, call),
{
    let after = state.after(context, call);
    if state.verdict(context, call) is Ok {
        match call {
            Call::AddVerifier { verifier, stake_amount, .. } => {
                crate::sums::lemma_sum_of_update(
                    state.stakes.dom(),
                    state.stakes,
                    verifier,
                    stake_amount,
                );
                assert(after.stakes.dom() =~= state.stakes.dom().insert(verifier));
            },
            Call::RemoveVerifier { verifier, .. } => {
                let rest = state.stakes.dom().remove(verifier);
                assert(after.stakes.dom() =~= rest);
                if state.stakes.contains_key(verifier) {
                    crate::sums::lemma_sum_remove(state.stakes.dom(), state.stakes, verifier);
                } else {
                    assert(rest =~= state.stakes.dom());
                }
                crate::sums::lemma_sum_agrees(rest, state.stakes, after.stakes);
            },
            Call::RecordDefault { sme, .. } => {
                let verifier = state.profiles[sme].verifier;
                let stake = state.stake(verifier);
                if stake > 0 {
                    crate::validation::lemma_share_within_amount(
                        stake as int,
                        state.slash_percentage->0 as int,
                    );
                    crate::sums::lemma_sum_of_update(
                        state.stakes.dom(),
                        state.stakes,
                        verifier,
                        after.stakes[verifier],
                    );
                    assert(after.stakes.dom() =~= state.stakes.dom().insert(verifier));
                }
            },
            _ => {},
        }
    }
}

/// A new registry always holds enough to return every stake that is left, after every history.
pub proof fn stakes_are_always_covered(calls: Seq<(Context, Call)>, verifier: Address)
    requires
        forall|i: int| 0 <= i < calls.len() ==> #[trigger] calls[i].1.terms_are_sound(),
    ensures
        ({
            let state = RegistryState::empty().after_all(calls);
            &&& state.stakes_are_sound()
            &&& 0 <= state.stake(verifier) <= state.staked()
            &&& state.staked() <= RegistryState::empty().stake_flow_of_all(calls)
        }),
    decreases calls.len(),
{
    let new = RegistryState::empty();
    let state = new.after_all(calls);
    if calls.len() > 0 {
        let earlier = calls.drop_last();
        assert forall|i: int| 0 <= i < earlier.len() implies #[trigger]
            earlier[i].1.terms_are_sound() by {
            assert(calls[i].1.terms_are_sound());
        }
        stakes_are_always_covered(earlier, verifier);
        assert(calls[calls.len() - 1].1.terms_are_sound());
        call_keeps_stakes_covered(
            new.after_all(earlier),
            calls.last().0,
            calls.last().1,
            new.stake_flow_of_all(earlier),
        );
    }
    let one = if state.stakes.contains_key(verifier) {
        set![verifier]
    } else {
        Set::empty()
    };
    assert forall|v: Address| #[trigger]
        state.stakes.dom().contains(v) implies state.stakes[v] >= 0 by {
        assert(state.stakes.contains_key(v));
    }
    crate::sums::lemma_sum_of_fewer(one, state.stakes.dom(), state.stakes);
    if state.stakes.contains_key(verifier) {
        crate::sums::lemma_sum_remove(one, state.stakes, verifier);
        assert(one.remove(verifier) =~= Set::empty());
    }
}

} // verus!
