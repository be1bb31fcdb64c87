//! What the calls of the registry promise together.
use vstd::prelude::*;

use crate::audit::AdminActionType;
use crate::errors::KoraError;
use crate::risk_registry::model::{
    Effect, RegistryState, INITIAL_REPUTATION, MIN_SCORE_UPDATE_INTERVAL, REPUTATION_PENALTY,
};
use crate::types::{Address, SmeProfile};
use crate::validation::{BPS_DENOMINATOR, HASH_LENGTH, MAX_RISK_SCORE};

verus! {

/// A registry that is set up is not set up again, by whomever.
pub proof fn initialize_succeeds_once(
    state: RegistryState,
    admin: Address,
    invoice_nft: Address,
    staking_token: Address,
    minimum_stake: i128,
    slash_percentage_bps: u32,
    contract: Address,
    other: Address,
)
    ensures
        state.initialized(
            admin,
            invoice_nft,
            staking_token,
            minimum_stake,
            slash_percentage_bps,
        ).initialize_verdict(contract, other) == Err::<(), KoraError>(
            KoraError::AlreadyInitialized,
        ),
{
}

/// The admin's role is handed over whole: from then on the new admin may act, and nobody else.
pub proof fn admin_role_is_handed_over(
    state: RegistryState,
    timestamp: u64,
    admin: Address,
    new_admin: Address,
    caller: Address,
)
    requires
        state.admin_verdict(admin) is Ok,
    ensures
        state.admin_transferred(timestamp, admin, new_admin).admin_verdict(caller)
            == KoraError::NotAdmin.unless(caller == new_admin),
{
}

/// Who was added is a verifier, with its stake and full reputation; other verifiers are as before.
pub proof fn added_verifier_can_act(
    state: RegistryState,
    timestamp: u64,
    admin: Address,
    verifier: Address,
    stake_amount: i128,
    other: Address,
)
    requires
        other != verifier,
    ensures
        ({
            let after = state.verifier_added(timestamp, admin, verifier, stake_amount);
            &&& after.verifier_verdict(verifier) is Ok
            &&& after.stake(verifier) == stake_amount
            &&& after.reputations[verifier] == INITIAL_REPUTATION
            &&& after.is_verifier(other) == state.is_verifier(other)
            &&& after.stake(other) == state.stake(other)
        }),
{
}

/// Who was removed may not act any more and has nothing staked. Profiles and scores that it gave
/// stay, and other verifiers are as before.
pub proof fn removed_verifier_cannot_act(
    state: RegistryState,
    timestamp: u64,
    admin: Address,
    verifier: Address,
    other: Address,
)
    requires
        other != verifier,
    ensures
        ({
            let after = state.verifier_removed(timestamp, admin, verifier);
            &&& after.verifier_verdict(verifier) == Err::<(), KoraError>(KoraError::NotVerifier)
            &&& after.stake(verifier) == 0
            &&& after.profiles == state.profiles
            &&& after.debtor_scores == state.debtor_scores
            &&& after.is_verifier(other) == state.is_verifier(other)
            &&& after.stake(other) == state.stake(other)
        }),
{
}

/// A verifier that is added and then removed gets back exactly what it has staked, in the token in
/// which it has staked it.
pub proof fn removal_returns_stake(
    state: RegistryState,
    timestamp: u64,
    contract: Address,
    admin: Address,
    verifier: Address,
    stake_amount: i128,
)
    requires
        state.add_verifier_verdict(contract, admin, verifier, stake_amount) is Ok,
        stake_amount > 0,
    ensures
        ({
            let token = state.staking_token->0;
            let added = state.verifier_added(timestamp, admin, verifier, stake_amount);
            &&& state.add_verifier_effects(timestamp, contract, admin, verifier, stake_amount)[0]
                == Effect::Transfer {
                token,
                from: verifier,
                to: contract,
                amount: stake_amount,
            }
            &&& added.remove_verifier_verdict(admin, verifier) is Ok
            &&& added.remove_verifier_effects(timestamp, contract, admin, verifier)[0]
                == Effect::Transfer {
                token,
                from: contract,
                to: verifier,
                amount: stake_amount,
            }
        }),
{
}

/// A business is registered for good: a second registration, by whomever and with whatever score,
/// is refused.
pub proof fn registration_is_for_good(
    state: RegistryState,
    verifier: Address,
    sme: Address,
    risk_score: u32,
)
    requires
        state.profiles.contains_key(sme),
    ensures
        state.register_sme_verdict(verifier, sme, risk_score) is Err,
        state.is_verifier(verifier) && risk_score <= MAX_RISK_SCORE ==> state.register_sme_verdict(
            verifier,
            sme,
            risk_score,
        ) == Err::<(), KoraError>(KoraError::AlreadyInitialized),
{
}

/// A registered business reads back as it was registered, with a clean history and no credit
/// limit; other businesses are as before.
pub proof fn registration_reads_back(
    state: RegistryState,
    timestamp: u64,
    verifier: Address,
    sme: Address,
    risk_score: u32,
    compliance_attested: bool,
    other: Address,
)
    requires
        other != sme,
    ensures
        ({
            let after = state.sme_registered(
                timestamp,
                verifier,
                sme,
                risk_score,
                compliance_attested,
            );
            let profile = after.sme_profile(sme)->Ok_0;
            &&& after.sme_profile(sme) is Ok
            &&& profile.address == sme
            &&& profile.verified
            &&& profile.verifier == verifier
            &&& profile.risk_score == risk_score
            &&& profile.registered_at == timestamp
            &&& profile.compliance_attested == compliance_attested
            &&& profile.total_invoices == 0
            &&& profile.defaults == 0
            &&& profile.credit_limit == 0
            &&& after.sme_profile(other) == state.sme_profile(other)
        }),
{
}

/// The score and the credit limit that were set are the ones that are read; nothing else of the
/// profile changes, and no other profile.
pub proof fn assessment_reads_back(
    state: RegistryState,
    sme: Address,
    new_score: u32,
    credit_limit: i128,
    other: Address,
)
    requires
        state.profiles.contains_key(sme),
        other != sme,
    ensures
        state.sme_score_updated(sme, new_score).sme_profile(sme) == Ok::<SmeProfile, KoraError>(
            SmeProfile { risk_score: new_score, ..state.profiles[sme] },
        ),
        state.sme_score_updated(sme, new_score).sme_profile(other) == state.sme_profile(other),
        state.credit_limit_set(sme, credit_limit).sme_profile(sme) == Ok::<SmeProfile, KoraError>(
            SmeProfile { credit_limit, ..state.profiles[sme] },
        ),
        state.credit_limit_set(sme, credit_limit).sme_profile(other) == state.sme_profile(other),
{
}

/// Each default of a business is counted. Nothing else of its profile changes, and no other
/// profile.
pub proof fn defaults_are_counted(
    state: RegistryState,
    timestamp: u64,
    guard: Result<(), KoraError>,
    admin: Address,
    sme: Address,
    other: Address,
)
    requires
        state.record_default_verdict(guard, admin, sme) is Ok,
        other != sme,
    ensures
        ({
            let after = state.default_recorded(timestamp, admin, sme);
            &&& after.profiles[sme] == SmeProfile {
                defaults: (state.profiles[sme].defaults + 1) as u32,
                ..state.profiles[sme]
            }
            &&& after.profiles[sme].defaults == state.profiles[sme].defaults + 1
            &&& after.sme_profile(other) == state.sme_profile(other)
        }),
{
}

/// With a default the verifier of the business loses the set share of its stake, rounded down:
/// never more than it has while that share is at most the whole. Its reputation falls by the
/// penalty, down to none. Other verifiers lose nothing.
pub proof fn default_costs_the_verifier(
    state: RegistryState,
    timestamp: u64,
    guard: Result<(), KoraError>,
    admin: Address,
    sme: Address,
    other: Address,
)
    requires
        state.record_default_verdict(guard, admin, sme) is Ok,
        state.slash_percentage->0 <= BPS_DENOMINATOR,
        other != state.profiles[sme].verifier,
    ensures
        ({
            let verifier = state.profiles[sme].verifier;
            let after = state.default_recorded(timestamp, admin, sme);
            &&& state.stake(verifier) > 0 ==> after.stake(verifier) == state.stake(verifier)
                - state.stake(verifier) * state.slash_percentage->0 / 10_000
            &&& state.stake(verifier) > 0 ==> 0 <= after.stake(verifier) <= state.stake(verifier)
            &&& state.stake(verifier) <= 0 ==> after.stake(verifier) == state.stake(verifier)
            &&& state.reputations.contains_key(verifier) ==> after.reputations[verifier] == (
            if state.reputations[verifier] >= REPUTATION_PENALTY {
                state.reputations[verifier] - REPUTATION_PENALTY
            } else {
                0
            })
            &&& after.stake(other) == state.stake(other)
            &&& after.reputations.contains_key(other) == state.reputations.contains_key(other)
            &&& after.reputations[other] == state.reputations[other]
        }),
{
    let stake = state.stake(state.profiles[sme].verifier);
    if stake > 0 {
        crate::validation::lemma_share_within_amount(
            stake as int,
            state.slash_percentage->0 as int,
        );
    }
}

/// The score that was set for a debtor is the one that is read, by its hash; the scores of other
/// debtors are as before.
pub proof fn debtor_score_reads_back(
    state: RegistryState,
    timestamp: u64,
    verifier: Address,
    debtor_hash: Seq<u8>,
    score: u32,
    other_hash: Seq<u8>,
)
    requires
        state.set_debtor_score_verdict(timestamp, verifier, debtor_hash, score) is Ok,
        other_hash != debtor_hash,
    ensures
        ({
            let hash = crate::validation::hash_from(debtor_hash);
            let after = state.debtor_score_set(timestamp, verifier, hash, score);
            &&& after.debtor_score(debtor_hash) == Ok::<u32, KoraError>(score)
            &&& after.debtor_score(other_hash) == state.debtor_score(other_hash)
        }),
{
    crate::validation::lemma_hash_from(debtor_hash);
    if other_hash.len() == HASH_LENGTH {
        crate::validation::lemma_hash_from(other_hash);
    }
}

/// Once a verifier has scored a debtor it must wait before it scores that debtor again: it is
/// refused before the interval has passed and admitted from then on. Other verifiers, and the same
/// verifier for other debtors, need not wait on that account.
pub proof fn cooldown_is_per_verifier_and_debtor(
    state: RegistryState,
    timestamp: u64,
    verifier: Address,
    hash: [u8; 32],
    score: u32,
    later: u64,
    other_verifier: Address,
    other_hash: [u8; 32],
)
    requires
        timestamp + MIN_SCORE_UPDATE_INTERVAL <= u64::MAX,
        other_verifier != verifier || other_hash != hash,
    ensures
        ({
            let after = state.debtor_score_set(timestamp, verifier, hash, score);
            &&& after.cooldown_verdict(later, verifier, hash)
                == KoraError::ScoreUpdateCooldownNotElapsed.unless(
                later >= timestamp + MIN_SCORE_UPDATE_INTERVAL,
            )
            &&& after.cooldown_verdict(later, other_verifier, other_hash)
                == state.cooldown_verdict(later, other_verifier, other_hash)
        }),
{
}

/// A verifier's first score of a debtor is never held back.
pub proof fn first_score_is_not_held_back(
    state: RegistryState,
    timestamp: u64,
    verifier: Address,
    debtor_hash: Seq<u8>,
    score: u32,
)
    requires
        state.is_verifier(verifier),
        debtor_hash.len() == HASH_LENGTH,
        score <= MAX_RISK_SCORE,
        !state.score_updates.contains_key((verifier, crate::validation::hash_from(debtor_hash))),
    ensures
        state.set_debtor_score_verdict(timestamp, verifier, debtor_hash, score) is Ok,
{
}

/// A proposed upgrade waits for its timelock: before it has run out the execution is refused, from
/// then on the admin can execute it, and only once.
pub proof fn upgrade_waits_for_timelock(
    state: RegistryState,
    admin: Address,
    wasm_hash: [u8; 32],
    proposed_at: u64,
    timelock: u64,
    timestamp: u64,
)
    requires
        state.admin_verdict(admin) is Ok,
    ensures
        ({
            let proposed = state.upgrade_proposed(proposed_at, admin, wasm_hash);
            &&& proposed.execute_upgrade_verdict(timestamp, timelock, admin)
                == KoraError::UpgradeTimelockNotElapsed.unless(timestamp >= proposed_at + timelock)
            &&& proposed.upgrade_executed(timestamp, admin).execute_upgrade_verdict(
                timestamp,
                timelock,
                admin,
            ) == Err::<(), KoraError>(KoraError::NoUpgradeProposed)
        }),
{
}

/// The action that was audited last stands first on the first page of the log, whatever the size
/// of the page.
pub proof fn last_action_is_read_first(
    state: RegistryState,
    timestamp: u64,
    actor: Address,
    action: AdminActionType,
    page_size: u32,
)
    requires
        state.wf(),
        state.audit_log.total < u64::MAX,
    ensures
        ({
            let page = state.audited(timestamp, actor, action).audit_log.page(0, page_size);
            page.len() > 0 && page[0] == state.audit_entry(timestamp, actor, action)
        }),
{
    let entry = state.audit_entry(timestamp, actor, action);
    let log = state.audited(timestamp, actor, action).audit_log;
    crate::audit::append_is_newest(state.audit_log, entry);
    crate::audit::page_is_stretch(log, 0, page_size);
}

} // verus!
