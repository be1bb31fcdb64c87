//! What each call of the registry promises by itself: when it is accepted, and for what reason
//! refused; which entries of the storage it changes, and no others; what it asks of the host, and
//! nothing else.
use vstd::prelude::*;

use crate::audit::{AdminActionType, AdminAuditEntry, AuditLogView, AuditSource};
use crate::env::Context;
use crate::errors::KoraError;
use crate::risk_registry::history::Call;
use crate::risk_registry::model::{DataKey, Effect, Event, RegistryState};
use crate::types::{Address, SmeProfile, UpgradeProposal};

verus! {

/// Whether an address is the admin.
pub open spec fn is_admin(state: RegistryState, address: Address) -> bool {
    state.admin == Some(address)
}

/// Whether an address is a verifier.
pub open spec fn verifies(state: RegistryState, address: Address) -> bool {
    state.verifiers.contains_key(address) && state.verifiers[address]
}

/// What a verifier has staked: what stands under it, or nothing.
pub open spec fn staked_by(state: RegistryState, verifier: Address) -> int {
    if state.stakes.contains_key(verifier) {
        state.stakes[verifier] as int
    } else {
        0
    }
}

/// The extension of the life of an entry to thirty days of ledgers.
pub open spec fn kept_alive(key: DataKey) -> Effect {
    Effect::ExtendTtl { key, threshold: 518_400, extend_to: 518_400 }
}

/// The entry that an action makes in the audit log.
pub open spec fn entry_for(
    state: RegistryState,
    context: Context,
    actor: Address,
    action: AdminActionType,
) -> AdminAuditEntry {
    AdminAuditEntry {
        sequence: state.audit_log.total,
        timestamp: context.timestamp,
        actor,
        action,
        source: AuditSource::RiskRegistry,
    }
}

/// Whether a log is another one with an entry at its head, which has moved on by one position of
/// five hundred.
pub open spec fn has_recorded(
    before: AuditLogView,
    entry: AdminAuditEntry,
    after: AuditLogView,
) -> bool {
    &&& after.entries == before.entries.insert(before.head, entry)
    &&& before.head < 499 ==> after.head == before.head + 1
    &&& before.head == 499 ==> after.head == 0
    &&& before.total < u64::MAX ==> after.total == before.total + 1
}

/// What the record of an action asks of the host.
pub open spec fn record_of(state: RegistryState, entry: AdminAuditEntry) -> Seq<Effect> {
    seq![
        kept_alive(DataKey::AuditEntry(state.audit_log.head)),
        Effect::Publish(Event::AdminActionAudited(entry)),
    ]
}

/// The registry is set up if it was not, by an admin other than itself. Then it has the given
/// parties and terms, the admin's entry is kept alive, it is announced, and nothing else happens.
pub proof fn set_up_takes_effect(
    state: RegistryState,
    context: Context,
    admin: Address,
    invoice_nft: Address,
    staking_token: Address,
    minimum_stake: i128,
    slash_percentage_bps: u32,
)
    ensures
        ({
            let call = Call::Initialize {
                admin,
                invoice_nft,
                staking_token,
                minimum_stake,
                slash_percentage_bps,
            };
            let verdict = state.verdict(context, call);
            let after = state.after(context, call);
            let effects = state.effects_of(context, call);
            &&& verdict is Ok <==> state.admin is None && admin != context.contract
            &&& verdict == Err::<(), KoraError>(KoraError::AlreadyInitialized)
                <==> state.admin is Some
            &&& verdict == Err::<(), KoraError>(KoraError::InvalidAddress) <==> state.admin is None
                && admin == context.contract
            &&& verdict is Err ==> after == state && effects == Seq::<Effect>::empty()
            &&& verdict is Ok ==> {
                &&& after == RegistryState {
                    admin: Some(admin),
                    invoice_nft: Some(invoice_nft),
                    staking_token: Some(staking_token),
                    minimum_stake: Some(minimum_stake),
                    slash_percentage: Some(slash_percentage_bps),
                    ..state
                }
                &&& effects == seq![
                    kept_alive(DataKey::Admin),
                    Effect::Publish(Event::RegistryInitialized { admin, invoice_nft }),
                ]
            }
        }),
{
}

/// The admin, and nobody else, can hand its role to anyone. The role is then the other's, the
/// admin's entry is kept alive, it is announced and recorded, and nothing else happens.
pub proof fn admin_transfer_takes_effect(
    state: RegistryState,
    context: Context,
    admin: Address,
    new_admin: Address,
)
    ensures
        ({
            let call = Call::TransferAdmin { admin, new_admin };
            let verdict = state.verdict(context, call);
            let after = state.after(context, call);
            let effects = state.effects_of(context, call);
            let entry = entry_for(
                state,
                context,
                admin,
                AdminActionType::RegistryTransferAdmin,
            );
            &&& verdict is Ok <==> is_admin(state, admin)
            &&& verdict == Err::<(), KoraError>(KoraError::NotInitialized) <==> state.admin is None
            &&& verdict == Err::<(), KoraError>(KoraError::NotAdmin) <==> state.admin is Some
                && !is_admin(state, admin)
            &&& verdict is Err ==> after == state && effects == Seq::<Effect>::empty()
            &&& verdict is Ok ==> {
                &&& after == RegistryState {
                    admin: Some(new_admin),
                    audit_log: after.audit_log,
                    ..state
                }
                &&& has_recorded(state.audit_log, entry, after.audit_log)
                &&& effects == seq![
                    kept_alive(DataKey::Admin),
                    Effect::Publish(Event::AdminTransferred { admin, new_admin }),
                ] + record_of(state, entry)
            }
        }),
{
}

/// The admin, and nobody else, can add anyone but the contract itself as a verifier, against any
/// stake from the minimum on; a refusal says why, the first obstacle first.
pub proof fn adding_is_accepted_exactly_when(
    state: RegistryState,
    context: Context,
    admin: Address,
    verifier: Address,
    stake_amount: i128,
)
    ensures
        ({
            let verdict = state.verdict(
                context,
                (Call::AddVerifier { admin, verifier, stake_amount }),
            );
            let other = is_admin(state, admin) && verifier != context.contract;
            let termed = other && state.minimum_stake is Some;
            let enough = termed && stake_amount >= state.minimum_stake->0;
            &&& verdict is Ok <==> enough && state.staking_token is Some
            &&& verdict == Err::<(), KoraError>(KoraError::NotAdmin) <==> state.admin is Some
                && !is_admin(state, admin)
            &&& verdict == Err::<(), KoraError>(KoraError::InvalidAddress) <==> is_admin(
                state,
                admin,
            ) && verifier == context.contract
            &&& verdict == Err::<(), KoraError>(KoraError::InsufficientFunds) <==> termed && !enough
            &&& verdict == Err::<(), KoraError>(KoraError::NotInitialized) <==> state.admin is None
                || (other && state.minimum_stake is None) || (enough && state.staking_token is None)
        }),
{
}

/// An added verifier is a verifier, with the stake as given and a reputation of one hundred. The
/// stake moves from it to the contract; its entries are kept alive; it is announced and recorded;
/// and nothing else happens.
pub proof fn adding_takes_effect(
    state: RegistryState,
    context: Context,
    admin: Address,
    verifier: Address,
    stake_amount: i128,
)
    ensures
        ({
            let call = Call::AddVerifier { admin, verifier, stake_amount };
            let verdict = state.verdict(context, call);
            let after = state.after(context, call);
            let effects = state.effects_of(context, call);
            let entry = entry_for(state, context, admin, AdminActionType::AddVerifier);
            &&& verdict is Err ==> after == state && effects == Seq::<Effect>::empty()
            &&& verdict is Ok ==> {
                &&& after == RegistryState {
                    verifiers: state.verifiers.insert(verifier, true),
                    stakes: state.stakes.insert(verifier, stake_amount),
                    reputations: state.reputations.insert(verifier, 100),
                    audit_log: after.audit_log,
                    ..state
                }
                &&& has_recorded(state.audit_log, entry, after.audit_log)
                &&& effects == seq![
                    Effect::Transfer {
                        token: state.staking_token->0,
                        from: verifier,
                        to: context.contract,
                        amount: stake_amount,
                    },
                    kept_alive(DataKey::Verifier(verifier)),
                    kept_alive(DataKey::VerifierStake(verifier)),
                    kept_alive(DataKey::VerifierReputation(verifier)),
                    Effect::Publish(Event::VerifierAdded { admin, verifier }),
                ] + record_of(state, entry)
            }
        }),
{
}

/// The admin, and nobody else, can remove every verifier, whatever is left of its stake; where
/// there is a stake, only the lack of a staking token can stand in the way.
pub proof fn removal_is_accepted_exactly_when(
    state: RegistryState,
    context: Context,
    admin: Address,
    verifier: Address,
)
    ensures
        ({
            let verdict = state.verdict(context, (Call::RemoveVerifier { admin, verifier }));
            let stuck = staked_by(state, verifier) > 0 && state.staking_token is None;
            &&& verdict is Ok <==> is_admin(state, admin) && verifies(state, verifier) && !stuck
            &&& verdict == Err::<(), KoraError>(KoraError::NotAdmin) <==> state.admin is Some
                && !is_admin(state, admin)
            &&& verdict == Err::<(), KoraError>(KoraError::NotVerifier) <==> is_admin(state, admin)
                && !verifies(state, verifier)
            &&& verdict == Err::<(), KoraError>(KoraError::NotInitialized) <==> state.admin is None
                || (is_admin(state, admin) && verifies(state, verifier) && stuck)
        }),
{
}

/// A removed verifier is none any more, and nothing stands under it. What is left of its stake
/// moves from the contract to it, if anything is; it is announced and recorded; and nothing else
/// happens.
pub proof fn removal_takes_effect(
    state: RegistryState,
    context: Context,
    admin: Address,
    verifier: Address,
)
    ensures
        ({
            let call = Call::RemoveVerifier { admin, verifier };
            let verdict = state.verdict(context, call);
            let after = state.after(context, call);
            let effects = state.effects_of(context, call);
            let entry = entry_for(state, context, admin, AdminActionType::RemoveVerifier);
            let announced = Effect::Publish(Event::VerifierRemoved { admin, verifier });
            &&& verdict is Err ==> after == state && effects == Seq::<Effect>::empty()
            &&& verdict is Ok ==> {
                &&& after == RegistryState {
                    verifiers: state.verifiers.remove(verifier),
                    stakes: state.stakes.remove(verifier),
                    reputations: state.reputations.remove(verifier),
                    audit_log: after.audit_log,
                    ..state
                }
                &&& has_recorded(state.audit_log, entry, after.audit_log)
                &&& staked_by(state, verifier) > 0 ==> effects == seq![
                    Effect::Transfer {
                        token: state.staking_token->0,
                        from: context.contract,
                        to: verifier,
                        amount: state.stakes[verifier],
                    },
                    announced,
                ] + record_of(state, entry)
                &&& staked_by(state, verifier) <= 0 ==> effects == seq![announced] + record_of(
                    state,
                    entry,
                )
            }
        }),
{
}

/// Whatever is called after a verifier was added, and however many defaults are recorded, the
/// admin of the day can remove it, as long as nobody has.
pub proof fn verifier_can_always_be_removed(
    state: RegistryState,
    added: Context,
    admin: Address,
    verifier: Address,
    stake_amount: i128,
    calls: Seq<(Context, Call)>,
    removed: Context,
    later_admin: Address,
)
    requires
        state.verdict(added, (Call::AddVerifier { admin, verifier, stake_amount })) is Ok,
        forall|i: int|
            0 <= i < calls.len() ==> !((#[trigger] calls[i]).1 matches Call::RemoveVerifier {
                verifier: other,
                ..
            } && other == verifier),
        is_admin(
            state.after(added, (Call::AddVerifier { admin, verifier, stake_amount })).after_all(
                calls,
            ),
            later_admin,
        ),
    ensures
        state.after(added, (Call::AddVerifier { admin, verifier, stake_amount })).after_all(
            calls,
        ).verdict(removed, (Call::RemoveVerifier { admin: later_admin, verifier })) is Ok,
{
    let first = state.after(added, Call::AddVerifier { admin, verifier, stake_amount });
    lemma_stays_verifier(first, verifier, calls);
}

/// A verifier stays one, and the staking token stays, until the verifier is removed.
proof fn lemma_stays_verifier(
    state: RegistryState,
    verifier: Address,
    calls: Seq<(Context, Call)>,
)
    requires
        verifies(state, verifier),
        state.admin is Some,
        state.staking_token is Some,
        forall|i: int|
            0 <= i < calls.len() ==> !((#[trigger] calls[i]).1 matches Call::RemoveVerifier {
                verifier: other,
                ..
            } && other == verifier),
    ensures
        verifies(state.after_all(calls), verifier),
        state.after_all(calls).admin is Some,
        state.after_all(calls).staking_token is Some,
    decreases calls.len(),
{
    if calls.len() > 0 {
        let earlier = calls.drop_last();
        assert forall|i: int| 0 <= i < earlier.len() implies !((
        #[trigger] earlier[i]).1 matches Call::RemoveVerifier { verifier: other, .. } && other
            == verifier) by {
            assert(earlier[i] == calls[i]);
        }
        lemma_stays_verifier(state, verifier, earlier);
        assert(calls.last() == calls[calls.len() - 1]);
    }
}

/// A verifier, and nobody else, can register every business that is not registered, with any score
/// up to one hundred and attested or not. The profile then is as given, with a clean history; its
/// entry is kept alive; it is announced; and nothing else happens.
pub proof fn registration_takes_effect(
    state: RegistryState,
    context: Context,
    verifier: Address,
    sme: Address,
    risk_score: u32,
    compliance_attested: bool,
)
    ensures
        ({
            let call = Call::RegisterSme { verifier, sme, risk_score, compliance_attested };
            let verdict = state.verdict(context, call);
            let after = state.after(context, call);
            let effects = state.effects_of(context, call);
            let scored = verifies(state, verifier) && risk_score <= 100;
            &&& verdict is Ok <==> scored && !state.profiles.contains_key(sme)
            &&& verdict == Err::<(), KoraError>(KoraError::NotVerifier) <==> !verifies(
                state,
                verifier,
            )
            &&& verdict == Err::<(), KoraError>(KoraError::InvalidRiskScore) <==> verifies(
                state,
                verifier,
            ) && risk_score > 100
            &&& verdict == Err::<(), KoraError>(KoraError::AlreadyInitialized) <==> scored
                && state.profiles.contains_key(sme)
            &&& verdict is Err ==> after == state && effects == Seq::<Effect>::empty()
            &&& verdict is Ok ==> {
                &&& after == RegistryState {
                    profiles: state.profiles.insert(
                        sme,
                        SmeProfile {
                            address: sme,
                            verified: true,
                            verifier,
                            risk_score,
                            total_invoices: 0,
                            defaults: 0,
                            registered_at: context.timestamp,
                            compliance_attested,
                            credit_limit: 0,
                        },
                    ),
                    ..state
                }
                &&& effects == seq![
                    kept_alive(DataKey::SmeProfile(sme)),
                    Effect::Publish(Event::SmeRegistered { verifier, sme, risk_score }),
                ]
            }
        }),
{
}

/// A verifier, and nobody else, can give every registered business any score up to one hundred
/// while the guard is free. Only the score changes; the entry is kept alive; it is announced.
pub proof fn score_update_takes_effect(
    state: RegistryState,
    context: Context,
    verifier: Address,
    sme: Address,
    new_score: u32,
)
    ensures
        ({
            let call = Call::UpdateSmeScore { verifier, sme, new_score };
            let verdict = state.verdict(context, call);
            let after = state.after(context, call);
            let effects = state.effects_of(context, call);
            let scored = verifies(state, verifier) && new_score <= 100;
            let free = scored && context.guard is Ok;
            &&& verdict is Ok <==> free && state.profiles.contains_key(sme)
            &&& !verifies(state, verifier) ==> verdict == Err::<(), KoraError>(
                KoraError::NotVerifier,
            )
            &&& verifies(state, verifier) && new_score > 100 ==> verdict == Err::<(), KoraError>(
                KoraError::InvalidRiskScore,
            )
            &&& scored ==> (context.guard matches Err(error) ==> verdict == Err::<(), KoraError>(
                error,
            ))
            &&& free && !state.profiles.contains_key(sme) ==> verdict == Err::<(), KoraError>(
                KoraError::SMENotRegistered,
            )
            &&& verdict is Err ==> after == state && effects == Seq::<Effect>::empty()
            &&& verdict is Ok ==> {
                &&& after == RegistryState {
                    profiles: state.profiles.insert(
                        sme,
                        SmeProfile { risk_score: new_score, ..state.profiles[sme] },
                    ),
                    ..state
                }
                &&& effects == seq![
                    kept_alive(DataKey::SmeProfile(sme)),
                    Effect::Publish(Event::SmeScoreUpdated { verifier, sme, new_score }),
                ]
            }
        }),
{
}

/// A verifier, and nobody else, can set the credit limit of every registered business to any
/// amount that is not negative. Only the limit changes; the entry is kept alive; it is announced.
pub proof fn credit_limit_takes_effect(
    state: RegistryState,
    context: Context,
    verifier: Address,
    sme: Address,
    credit_limit: i128,
)
    ensures
        ({
            let call = Call::SetCreditLimit { verifier, sme, credit_limit };
            let verdict = state.verdict(context, call);
            let after = state.after(context, call);
            let effects = state.effects_of(context, call);
            let valid = verifies(state, verifier) && credit_limit >= 0;
            &&& verdict is Ok <==> valid && state.profiles.contains_key(sme)
            &&& verdict == Err::<(), KoraError>(KoraError::NotVerifier) <==> !verifies(
                state,
                verifier,
            )
            &&& verdict == Err::<(), KoraError>(KoraError::InvalidAmount) <==> verifies(
                state,
                verifier,
            ) && credit_limit < 0
            &&& verdict == Err::<(), KoraError>(KoraError::SMENotRegistered) <==> valid
                && !state.profiles.contains_key(sme)
            &&& verdict is Err ==> after == state && effects == Seq::<Effect>::empty()
            &&& verdict is Ok ==> {
                &&& after == RegistryState {
                    profiles: state.profiles.insert(
                        sme,
                        SmeProfile { credit_limit, ..state.profiles[sme] },
                    ),
                    ..state
                }
                &&& effects == seq![
                    kept_alive(DataKey::SmeProfile(sme)),
                    Effect::Publish(Event::SmeCreditLimitSet { verifier, sme, credit_limit }),
                ]
            }
        }),
{
}

/// The invoice contract, and nobody else, can count an invoice of every registered business. The
/// count grows by one; the entry is kept alive; the new count is announced.
pub proof fn invoice_count_takes_effect(
    state: RegistryState,
    context: Context,
    caller: Address,
    sme: Address,
)
    ensures
        ({
            let call = Call::IncrementInvoiceCount { caller, sme };
            let verdict = state.verdict(context, call);
            let after = state.after(context, call);
            let effects = state.effects_of(context, call);
            let admitted = state.invoice_nft == Some(caller);
            let known = admitted && state.profiles.contains_key(sme);
            let before = state.profiles[sme];
            let profile = after.profiles[sme];
            &&& verdict is Ok <==> known && before.total_invoices < 0xffff_ffff
            &&& verdict == Err::<(), KoraError>(KoraError::NotInitialized)
                <==> state.invoice_nft is None
            &&& verdict == Err::<(), KoraError>(KoraError::Unauthorized)
                <==> state.invoice_nft is Some && !admitted
            &&& verdict == Err::<(), KoraError>(KoraError::SMENotRegistered) <==> admitted && !known
            &&& verdict == Err::<(), KoraError>(KoraError::ArithmeticOverflow) <==> known
                && before.total_invoices == 0xffff_ffff
            &&& verdict is Err ==> after == state && effects == Seq::<Effect>::empty()
            &&& verdict is Ok ==> {
                &&& after == RegistryState { profiles: after.profiles, ..state }
                &&& after.profiles == state.profiles.insert(sme, profile)
                &&& profile.total_invoices == before.total_invoices + 1
                &&& profile == SmeProfile { total_invoices: profile.total_invoices, ..before }
                &&& effects == seq![
                    kept_alive(DataKey::SmeProfile(sme)),
                    Effect::Publish(
                        Event::SmeInvoiceCountIncremented {
                            sme,
                            total_invoices: profile.total_invoices,
                        },
                    ),
                ]
            }
        }),
{
}

/// The admin, and nobody else, can record a default of every registered business while the guard
/// is free; a refusal says why, the first obstacle first.
pub proof fn default_is_accepted_exactly_when(
    state: RegistryState,
    context: Context,
    admin: Address,
    sme: Address,
)
    ensures
        ({
            let verdict = state.verdict(context, (Call::RecordDefault { admin, sme }));
            let free = is_admin(state, admin) && context.guard is Ok;
            let known = free && state.profiles.contains_key(sme);
            let countable = known && state.profiles[sme].defaults < 0xffff_ffff;
            &&& verdict is Ok <==> countable && state.slash_percentage is Some
            &&& state.admin is None ==> verdict == Err::<(), KoraError>(KoraError::NotInitialized)
            &&& state.admin is Some && !is_admin(state, admin) ==> verdict == Err::<(), KoraError>(
                KoraError::NotAdmin,
            )
            &&& is_admin(state, admin) ==> (context.guard matches Err(error) ==> verdict == Err::<
                (),
                KoraError,
            >(error))
            &&& free && !known ==> verdict == Err::<(), KoraError>(KoraError::SMENotRegistered)
            &&& known && !countable ==> verdict == Err::<(), KoraError>(
                KoraError::ArithmeticOverflow,
            )
            &&& countable && state.slash_percentage is None ==> verdict == Err::<(), KoraError>(
                KoraError::NotInitialized,
            )
        }),
{
}

/// A recorded default adds one to the defaults of the business. Its verifier loses the set share of
/// its stake, rounded down, if it has a stake, and ten points of reputation, down to none, counted
/// from one hundred where it has none. The entries are kept alive, it is announced and recorded,
/// no tokens move, and nothing else happens.
pub proof fn default_takes_effect(
    state: RegistryState,
    context: Context,
    admin: Address,
    sme: Address,
)
    requires
        staked_by(state, state.profiles[sme].verifier) > 0 ==> staked_by(
            state,
            state.profiles[sme].verifier,
        ) * state.slash_percentage->0 <= u128::MAX,
    ensures
        ({
            let call = Call::RecordDefault { admin, sme };
            let verdict = state.verdict(context, call);
            let after = state.after(context, call);
            let effects = state.effects_of(context, call);
            let entry = entry_for(state, context, admin, AdminActionType::RecordDefault);
            let before = state.profiles[sme];
            let profile = after.profiles[sme];
            let verifier = before.verifier;
            let stake = staked_by(state, verifier);
            let reputation = if state.reputations.contains_key(verifier) {
                state.reputations[verifier] as int
            } else {
                100
            };
            let asked = seq![
                kept_alive(DataKey::VerifierReputation(verifier)),
                kept_alive(DataKey::SmeProfile(sme)),
                Effect::Publish(
                    Event::SmeDefaultRecorded { admin, sme, defaults: profile.defaults },
                ),
            ] + record_of(state, entry);
            &&& verdict is Err ==> after == state && effects == Seq::<Effect>::empty()
            &&& verdict is Ok ==> {
                &&& after == RegistryState {
                    profiles: after.profiles,
                    stakes: after.stakes,
                    reputations: after.reputations,
                    audit_log: after.audit_log,
                    ..state
                }
                &&& after.profiles == state.profiles.insert(sme, profile)
                &&& profile.defaults == before.defaults + 1
                &&& profile == SmeProfile { defaults: profile.defaults, ..before }
                &&& stake <= 0 ==> after.stakes == state.stakes
                &&& stake > 0 ==> {
                    let lost = stake - after.stakes[verifier];
                    &&& after.stakes == state.stakes.insert(verifier, after.stakes[verifier])
                    &&& lost * 10_000 <= stake * state.slash_percentage->0 < (lost + 1) * 10_000
                }
                &&& after.reputations == state.reputations.insert(
                    verifier,
                    after.reputations[verifier],
                )
                &&& after.reputations[verifier] == (if reputation > 10 {
                    reputation - 10
                } else {
                    0
                })
                &&& has_recorded(state.audit_log, entry, after.audit_log)
                &&& effects == (if stake > 0 {
                    seq![kept_alive(DataKey::VerifierStake(verifier))] + asked
                } else {
                    asked
                })
            }
        }),
{
    let verifier = state.profiles[sme].verifier;
    let stake = staked_by(state, verifier);
    let percentage = state.slash_percentage->0 as int;
    crate::validation::share_is_rounded_down(stake, percentage);
    if stake > 0 {
        let share = crate::validation::bps_share(stake, percentage);
        assert(0 <= stake * percentage) by (nonlinear_arith)
            requires
                stake > 0,
                percentage >= 0,
        ;
        assert(0 <= share <= i128::MAX);
    }
    let effects = state.effects_of(context, Call::RecordDefault { admin, sme });
    let after = state.after(context, Call::RecordDefault { admin, sme });
    let entry = entry_for(state, context, admin, AdminActionType::RecordDefault);
    let asked = seq![
        kept_alive(DataKey::VerifierReputation(verifier)),
        kept_alive(DataKey::SmeProfile(sme)),
        Effect::Publish(
            Event::SmeDefaultRecorded { admin, sme, defaults: after.profiles[sme].defaults },
        ),
    ] + record_of(state, entry);
    if state.verdict(context, Call::RecordDefault { admin, sme }) is Ok {
        if stake > 0 {
            assert(effects =~= seq![kept_alive(DataKey::VerifierStake(verifier))] + asked);
        } else {
            assert(effects =~= asked);
        }
    }
}

/// A verifier, and nobody else, can give every debtor, known by a hash of thirty-two bytes, any
/// score up to one hundred, once in an hour. A refusal says why, the first obstacle first.
pub proof fn debtor_score_is_accepted_exactly_when(
    state: RegistryState,
    context: Context,
    verifier: Address,
    hash: [u8; 32],
    debtor_hash: Seq<u8>,
    score: u32,
)
    requires
        debtor_hash.len() == 32 ==> hash@ == debtor_hash,
    ensures
        ({
            let verdict = state.verdict(
                context,
                (Call::SetDebtorScore { verifier, debtor_hash, score }),
            );
            let sized = verifies(state, verifier) && debtor_hash.len() == 32;
            let scored = sized && score <= 100;
            let last = state.score_updates[(verifier, hash)];
            let before = state.score_updates.contains_key((verifier, hash));
            let endless = before && last + 3_600 > u64::MAX;
            let waiting = before && !endless && context.timestamp < last + 3_600;
            &&& verdict is Ok <==> scored && !endless && !waiting
            &&& verdict == Err::<(), KoraError>(KoraError::NotVerifier) <==> !verifies(
                state,
                verifier,
            )
            &&& verdict == Err::<(), KoraError>(KoraError::InvalidLength) <==> verifies(
                state,
                verifier,
            ) && debtor_hash.len() != 32
            &&& verdict == Err::<(), KoraError>(KoraError::InvalidRiskScore) <==> sized && score
                > 100
            &&& verdict == Err::<(), KoraError>(KoraError::ArithmeticOverflow) <==> scored
                && endless
            &&& verdict == Err::<(), KoraError>(KoraError::ScoreUpdateCooldownNotElapsed)
                <==> scored && waiting
        }),
{
    if debtor_hash.len() == 32 {
        crate::validation::lemma_hash_from(debtor_hash);
        assert(crate::validation::hash_from(debtor_hash) =~= hash);
    }
}

/// A debtor's score that is accepted stands under its hash, with the time under the verifier and
/// the hash; the entries are kept alive, it is announced, and nothing else happens.
pub proof fn debtor_score_takes_effect(
    state: RegistryState,
    context: Context,
    verifier: Address,
    hash: [u8; 32],
    score: u32,
)
    ensures
        ({
            let call = Call::SetDebtorScore { verifier, debtor_hash: hash@, score };
            let verdict = state.verdict(context, call);
            let after = state.after(context, call);
            let effects = state.effects_of(context, call);
            &&& verdict is Err ==> after == state && effects == Seq::<Effect>::empty()
            &&& verdict is Ok ==> {
                &&& after == RegistryState {
                    debtor_scores: state.debtor_scores.insert(hash, score),
                    score_updates: state.score_updates.insert((verifier, hash), context.timestamp),
                    ..state
                }
                &&& effects == seq![
                    kept_alive(DataKey::DebtorScore(hash)),
                    kept_alive(DataKey::DebtorScoreLastUpdate(verifier, hash)),
                    Effect::Publish(Event::DebtorScoreSet { verifier, debtor_hash: hash, score }),
                ]
            }
        }),
{
    crate::validation::lemma_hash_from(hash@);
    assert(crate::validation::hash_from(hash@) =~= hash);
}

/// The admin, and nobody else, can propose any code at any time. The proposal replaces an earlier
/// one, starts its timelock now, is announced and recorded, and nothing else happens.
pub proof fn proposal_takes_effect(
    state: RegistryState,
    context: Context,
    admin: Address,
    wasm_hash: [u8; 32],
)
    ensures
        ({
            let call = Call::ProposeUpgrade { admin, wasm_hash };
            let verdict = state.verdict(context, call);
            let after = state.after(context, call);
            let effects = state.effects_of(context, call);
            let entry = entry_for(
                state,
                context,
                admin,
                AdminActionType::RegistryProposeUpgrade,
            );
            &&& verdict is Ok <==> is_admin(state, admin)
            &&& verdict == Err::<(), KoraError>(KoraError::NotInitialized) <==> state.admin is None
            &&& verdict == Err::<(), KoraError>(KoraError::NotAdmin) <==> state.admin is Some
                && !is_admin(state, admin)
            &&& verdict is Err ==> after == state && effects == Seq::<Effect>::empty()
            &&& verdict is Ok ==> {
                &&& after == RegistryState {
                    upgrade_proposal: Some(
                        UpgradeProposal { wasm_hash, proposed_at: context.timestamp },
                    ),
                    audit_log: after.audit_log,
                    ..state
                }
                &&& has_recorded(state.audit_log, entry, after.audit_log)
                &&& effects == seq![
                    Effect::Publish(Event::UpgradeProposed { admin, wasm_hash }),
                ] + record_of(state, entry)
            }
        }),
{
}

/// The admin, and nobody else, can execute a proposed upgrade from the end of its timelock on. It
/// is announced and recorded, the proposed code runs, the proposal is gone, and nothing else
/// happens.
pub proof fn execution_takes_effect(state: RegistryState, context: Context, admin: Address)
    ensures
        ({
            let call = Call::ExecuteUpgrade { admin };
            let verdict = state.verdict(context, call);
            let after = state.after(context, call);
            let effects = state.effects_of(context, call);
            let entry = entry_for(
                state,
                context,
                admin,
                AdminActionType::RegistryExecuteUpgrade,
            );
            let proposal = state.upgrade_proposal->0;
            let ripe = context.timestamp - proposal.proposed_at >= context.upgrade_timelock;
            let wasm_hash = proposal.wasm_hash;
            let proposed = is_admin(state, admin) && state.upgrade_proposal is Some;
            &&& verdict is Ok <==> proposed && ripe
            &&& verdict == Err::<(), KoraError>(KoraError::NotInitialized) <==> state.admin is None
            &&& verdict == Err::<(), KoraError>(KoraError::NotAdmin) <==> state.admin is Some
                && !is_admin(state, admin)
            &&& verdict == Err::<(), KoraError>(KoraError::NoUpgradeProposed) <==> is_admin(
                state,
                admin,
            ) && !proposed
            &&& verdict == Err::<(), KoraError>(KoraError::UpgradeTimelockNotElapsed) <==> proposed
                && !ripe
            &&& verdict is Err ==> after == state && effects == Seq::<Effect>::empty()
            &&& verdict is Ok ==> {
                &&& after == RegistryState {
                    upgrade_proposal: None,
                    audit_log: after.audit_log,
                    ..state
                }
                &&& has_recorded(state.audit_log, entry, after.audit_log)
                &&& effects == seq![
                    Effect::Publish(Event::UpgradeExecuted { admin, wasm_hash }),
                ] + record_of(state, entry) + seq![Effect::UpdateWasm(wasm_hash)]
            }
        }),
{
}

/// What is read of a business, a debtor or a verifier is what stands under it, and nothing for a
/// stranger.
pub proof fn entries_are_read_as_they_stand(
    state: RegistryState,
    address: Address,
    hash: [u8; 32],
    bytes: Seq<u8>,
)
    ensures
        state.is_verifier(address) == verifies(state, address),
        state.stake(address) == staked_by(state, address),
        state.profiles.contains_key(address) ==> state.sme_profile(address) == Ok::<
            SmeProfile,
            KoraError,
        >(state.profiles[address]),
        !state.profiles.contains_key(address) ==> state.sme_profile(address) == Err::<
            SmeProfile,
            KoraError,
        >(KoraError::SMENotRegistered),
        state.debtor_scores.contains_key(hash) ==> state.debtor_score(hash@) == Ok::<
            u32,
            KoraError,
        >(state.debtor_scores[hash]),
        !state.debtor_scores.contains_key(hash) ==> state.debtor_score(hash@) == Err::<
            u32,
            KoraError,
        >(KoraError::DebtorNotRegistered),
        bytes.len() != 32 ==> state.debtor_score(bytes) == Err::<u32, KoraError>(
            KoraError::DebtorNotRegistered,
        ),
{
    crate::validation::lemma_hash_from(hash@);
    assert(crate::validation::hash_from(hash@) =~= hash);
}

/// A business counts as verified, and its compliance as attested, where its profile says so, and
/// not otherwise; a verifier's reputation is what stands under it. Reading a profile or a score
/// that is there keeps its entry alive and asks for nothing else.
pub proof fn standing_is_read_as_it_stands(state: RegistryState, address: Address, hash: [u8; 32])
    ensures
        state.profiles.contains_key(address) ==> {
            &&& state.is_verified(address) == state.profiles[address].verified
            &&& state.is_attested(address) == state.profiles[address].compliance_attested
            &&& state.read_profile_effects(address) == seq![
                kept_alive(DataKey::SmeProfile(address)),
            ]
        },
        !state.profiles.contains_key(address) ==> {
            &&& !state.is_verified(address)
            &&& !state.is_attested(address)
            &&& state.read_profile_effects(address) == Seq::<Effect>::empty()
        },
        state.reputations.contains_key(address) ==> state.reputation(address)
            == state.reputations[address],
        !state.reputations.contains_key(address) ==> state.reputation(address) == 0,
        state.read_score_effects(hash@) == (if state.debtor_scores.contains_key(hash) {
            seq![kept_alive(DataKey::DebtorScore(hash))]
        } else {
            Seq::empty()
        }),
{
    crate::validation::lemma_hash_from(hash@);
    assert(crate::validation::hash_from(hash@) =~= hash);
}

/// What a business was registered with stays: whatever is called afterwards, it is verified, and
/// its compliance is attested exactly if it was attested at its registration.
pub proof fn attestation_is_for_good(
    state: RegistryState,
    registered: Context,
    verifier: Address,
    sme: Address,
    risk_score: u32,
    compliance_attested: bool,
    calls: Seq<(Context, Call)>,
)
    requires
        state.verdict(
            registered,
            (Call::RegisterSme { verifier, sme, risk_score, compliance_attested }),
        ) is Ok,
    ensures
        ({
            let later = state.after(
                registered,
                (Call::RegisterSme { verifier, sme, risk_score, compliance_attested }),
            ).after_all(calls);
            &&& later.is_verified(sme)
            &&& later.is_attested(sme) == compliance_attested
            &&& later.profiles[sme].verifier == verifier
            &&& later.profiles[sme].registered_at == registered.timestamp
        }),
{
    let first = state.after(
        registered,
        Call::RegisterSme { verifier, sme, risk_score, compliance_attested },
    );
    lemma_profile_stays(first, sme, calls);
}

/// A profile stays, with what it was registered with.
proof fn lemma_profile_stays(state: RegistryState, sme: Address, calls: Seq<(Context, Call)>)
    requires
        state.profiles.contains_key(sme),
    ensures
        state.after_all(calls).profiles.contains_key(sme),
        crate::risk_registry::history::profile_follows(
            state.profiles[sme],
            state.after_all(calls).profiles[sme],
        ),
    decreases calls.len(),
{
    if calls.len() > 0 {
        lemma_profile_stays(state, sme, calls.drop_last());
        crate::risk_registry::history::call_keeps_entries(
            state.after_all(calls.drop_last()),
            calls.last().0,
            calls.last().1,
        );
    }
}

/// A new registry has nothing in its storage: it is not set up, nobody is registered, scored or
/// staked, nothing is proposed, and the audit log is at its start.
pub proof fn storage_starts_empty()
    ensures
        ({
            let state = RegistryState::empty();
            &&& state.admin is None
            &&& state.invoice_nft is None
            &&& state.staking_token is None
            &&& state.minimum_stake is None
            &&& state.slash_percentage is None
            &&& state.verifiers == Map::<Address, bool>::empty()
            &&& state.stakes == Map::<Address, i128>::empty()
            &&& state.reputations == Map::<Address, u32>::empty()
            &&& state.profiles == Map::<Address, SmeProfile>::empty()
            &&& state.debtor_scores == Map::<[u8; 32], u32>::empty()
            &&& state.score_updates == Map::<(Address, [u8; 32]), u64>::empty()
            &&& state.upgrade_proposal is None
            &&& state.audit_log.head == 0
            &&& state.audit_log.total == 0
            &&& state.audit_log.entries == Map::<u64, AdminAuditEntry>::empty()
        }),
{
}

} // verus!
