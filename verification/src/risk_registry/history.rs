//! Histories of the registry: the calls that change its storage, one after the other, and what
//! they keep.
use vstd::prelude::*;

use crate::audit::AdminActionType;
use crate::env::Context;
use crate::errors::KoraError;
use crate::risk_registry::model::{Effect, RegistryState};
use crate::types::{Address, SmeProfile};

verus! {

/// A call that may change the storage.
pub enum Call {
    Initialize {
        admin: Address,
        invoice_nft: Address,
        staking_token: Address,
        minimum_stake: i128,
        slash_percentage_bps: u32,
    },
    TransferAdmin { admin: Address, new_admin: Address },
    AddVerifier { admin: Address, verifier: Address, stake_amount: i128 },
    RemoveVerifier { admin: Address, verifier: Address },
    RegisterSme { verifier: Address, sme: Address, risk_score: u32, compliance_attested: bool },
    UpdateSmeScore { verifier: Address, sme: Address, new_score: u32 },
    SetCreditLimit { verifier: Address, sme: Address, credit_limit: i128 },
    IncrementInvoiceCount { caller: Address, sme: Address },
    RecordDefault { admin: Address, sme: Address },
    SetDebtorScore { verifier: Address, debtor_hash: Seq<u8>, score: u32 },
    ProposeUpgrade { admin: Address, wasm_hash: [u8; 32] },
    ExecuteUpgrade { admin: Address },
}

impl Call {
    /// The party that makes the call and has authorized it, where one must.
    pub open spec fn caller(self) -> Option<Address> {
        match self {
            Call::Initialize { .. } => None,
            Call::TransferAdmin { admin, .. } => Some(admin),
            Call::AddVerifier { admin, .. } => Some(admin),
            Call::RemoveVerifier { admin, .. } => Some(admin),
            Call::RegisterSme { verifier, .. } => Some(verifier),
            Call::UpdateSmeScore { verifier, .. } => Some(verifier),
            Call::SetCreditLimit { verifier, .. } => Some(verifier),
            Call::IncrementInvoiceCount { caller, .. } => Some(caller),
            Call::RecordDefault { admin, .. } => Some(admin),
            Call::SetDebtorScore { verifier, .. } => Some(verifier),
            Call::ProposeUpgrade { admin, .. } => Some(admin),
            Call::ExecuteUpgrade { admin } => Some(admin),
        }
    }

    /// The kind of admin action that the call is, if it is one.
    pub open spec fn action(self) -> Option<AdminActionType> {
        match self {
            Call::TransferAdmin { .. } => Some(AdminActionType::RegistryTransferAdmin),
            Call::AddVerifier { .. } => Some(AdminActionType::AddVerifier),
            Call::RemoveVerifier { .. } => Some(AdminActionType::RemoveVerifier),
            Call::RecordDefault { .. } => Some(AdminActionType::RecordDefault),
            Call::ProposeUpgrade { .. } => Some(AdminActionType::RegistryProposeUpgrade),
            Call::ExecuteUpgrade { .. } => Some(AdminActionType::RegistryExecuteUpgrade),
            _ => None,
        }
    }
}

impl RegistryState {
    /// Whether a call is accepted, and for what reason it is refused.
    pub open spec fn verdict(self, context: Context, call: Call) -> Result<(), KoraError> {
        match call {
            Call::Initialize { admin, .. } => self.initialize_verdict(context.contract, admin),
            Call::TransferAdmin { admin, .. } => self.admin_verdict(admin),
            Call::AddVerifier { admin, verifier, stake_amount } => self.add_verifier_verdict(
                context.contract,
                admin,
                verifier,
                stake_amount,
            ),
            Call::RemoveVerifier { admin, verifier } => self.remove_verifier_verdict(
                admin,
                verifier,
            ),
            Call::RegisterSme { verifier, sme, risk_score, .. } => self.register_sme_verdict(
                verifier,
                sme,
                risk_score,
            ),
            Call::UpdateSmeScore { verifier, sme, new_score } => self.update_sme_score_verdict(
                context.guard,
                verifier,
                sme,
                new_score,
            ),
            Call::SetCreditLimit { verifier, sme, credit_limit } => self.set_credit_limit_verdict(
                verifier,
                sme,
                credit_limit,
            ),
            Call::IncrementInvoiceCount { caller, sme } => self.increment_invoice_count_verdict(
                caller,
                sme,
            ),
            Call::RecordDefault { admin, sme } => self.record_default_verdict(
                context.guard,
                admin,
                sme,
            ),
            Call::SetDebtorScore { verifier, debtor_hash, score } => self.set_debtor_score_verdict(
                context.timestamp,
                verifier,
                debtor_hash,
                score,
            ),
            Call::ProposeUpgrade { admin, .. } => self.admin_verdict(admin),
            Call::ExecuteUpgrade { admin } => self.execute_upgrade_verdict(
                context.timestamp,
                context.upgrade_timelock,
                admin,
            ),
        }
    }

    /// The storage after a call that is accepted.
    pub open spec fn next(self, context: Context, call: Call) -> Self {
        match call {
            Call::Initialize {
                admin,
                invoice_nft,
                staking_token,
                minimum_stake,
                slash_percentage_bps,
            } => self.initialized(
                admin,
                invoice_nft,
                staking_token,
                minimum_stake,
                slash_percentage_bps,
            ),
            Call::TransferAdmin { admin, new_admin } => self.admin_transferred(
                context.timestamp,
                admin,
                new_admin,
            ),
            Call::AddVerifier { admin, verifier, stake_amount } => self.verifier_added(
                context.timestamp,
                admin,
                verifier,
                stake_amount,
            ),
            Call::RemoveVerifier { admin, verifier } => self.verifier_removed(
                context.timestamp,
                admin,
                verifier,
            ),
            Call::RegisterSme {
                verifier,
                sme,
                risk_score,
                compliance_attested,
            } => self.sme_registered(
                context.timestamp,
                verifier,
                sme,
                risk_score,
                compliance_attested,
            ),
            Call::UpdateSmeScore { sme, new_score, .. } => self.sme_score_updated(sme, new_score),
            Call::SetCreditLimit { sme, credit_limit, .. } => self.credit_limit_set(
                sme,
                credit_limit,
            ),
            Call::IncrementInvoiceCount { sme, .. } => self.invoice_counted(sme),
            Call::RecordDefault { admin, sme } => self.default_recorded(
                context.timestamp,
                admin,
                sme,
            ),
            Call::SetDebtorScore { verifier, debtor_hash, score } => self.debtor_score_set(
                context.timestamp,
                verifier,
                crate::validation::hash_from(debtor_hash),
                score,
            ),
            Call::ProposeUpgrade { admin, wasm_hash } => self.upgrade_proposed(
                context.timestamp,
                admin,
                wasm_hash,
            ),
            Call::ExecuteUpgrade { admin } => self.upgrade_executed(context.timestamp, admin),
        }
    }

    /// The storage after a call: as it was where the call is refused.
    pub open spec fn after(self, context: Context, call: Call) -> Self {
        if self.verdict(context, call) is Ok {
            self.next(context, call)
        } else {
            self
        }
    }

    /// What a call that is accepted asks of the host.
    pub open spec fn next_effects(self, context: Context, call: Call) -> Seq<Effect> {
        match call {
            Call::Initialize { admin, invoice_nft, .. } => self.initialize_effects(
                admin,
                invoice_nft,
            ),
            Call::TransferAdmin { admin, new_admin } => self.transfer_admin_effects(
                context.timestamp,
                admin,
                new_admin,
            ),
            Call::AddVerifier { admin, verifier, stake_amount } => self.add_verifier_effects(
                context.timestamp,
                context.contract,
                admin,
                verifier,
                stake_amount,
            ),
            Call::RemoveVerifier { admin, verifier } => self.remove_verifier_effects(
                context.timestamp,
                context.contract,
                admin,
                verifier,
            ),
            Call::RegisterSme { verifier, sme, risk_score, .. } => self.register_sme_effects(
                verifier,
                sme,
                risk_score,
            ),
            Call::UpdateSmeScore { verifier, sme, new_score } => self.update_sme_score_effects(
                verifier,
                sme,
                new_score,
            ),
            Call::SetCreditLimit { verifier, sme, credit_limit } => self.set_credit_limit_effects(
                verifier,
                sme,
                credit_limit,
            ),
            Call::IncrementInvoiceCount { sme, .. } => self.increment_invoice_count_effects(sme),
            Call::RecordDefault { admin, sme } => self.record_default_effects(
                context.timestamp,
                admin,
                sme,
            ),
            Call::SetDebtorScore { verifier, debtor_hash, score } => self.set_debtor_score_effects(
                verifier,
                crate::validation::hash_from(debtor_hash),
                score,
            ),
            Call::ProposeUpgrade { admin, wasm_hash } => self.propose_upgrade_effects(
                context.timestamp,
                admin,
                wasm_hash,
            ),
            Call::ExecuteUpgrade { admin } => self.execute_upgrade_effects(
                context.timestamp,
                admin,
            ),
        }
    }

    /// What a call asks of the host: nothing where it is refused.
    pub open spec fn effects_of(self, context: Context, call: Call) -> Seq<Effect> {
        if self.verdict(context, call) is Ok {
            self.next_effects(context, call)
        } else {
            Seq::empty()
        }
    }

    /// The storage after a history of calls.
    pub open spec fn after_all(self, calls: Seq<(Context, Call)>) -> Self
        decreases calls.len(),
    {
        if calls.len() == 0 {
            self
        } else {
            self.after_all(calls.drop_last()).after(calls.last().0, calls.last().1)
        }
    }
}

/// Whether one profile can become another in time: who was registered, by whom and when stays,
/// and neither invoices nor defaults are forgotten.
pub open spec fn profile_follows(before: SmeProfile, after: SmeProfile) -> bool {
    &&& after.address == before.address
    &&& after.verified == before.verified
    &&& after.verifier == before.verifier
    &&& after.registered_at == before.registered_at
    &&& after.compliance_attested == before.compliance_attested
    &&& after.total_invoices >= before.total_invoices
    &&& after.defaults >= before.defaults
}

/// Whether one storage can become another in time: what was set up stays, and nothing that was
/// entered about businesses and debtors is lost.
pub open spec fn storage_follows(before: RegistryState, after: RegistryState) -> bool {
    &&& before.admin is Some ==> {
        &&& after.admin is Some
        &&& after.invoice_nft == before.invoice_nft
        &&& after.staking_token == before.staking_token
        &&& after.minimum_stake == before.minimum_stake
        &&& after.slash_percentage == before.slash_percentage
    }
    &&& forall|sme: Address| #[trigger]
        before.profiles.contains_key(sme) ==> after.profiles.contains_key(sme) && profile_follows(
            before.profiles[sme],
            after.profiles[sme],
        )
    &&& forall|hash: [u8; 32]| #[trigger]
        before.debtor_scores.contains_key(hash) ==> after.debtor_scores.contains_key(hash)
    &&& forall|key: (Address, [u8; 32])| #[trigger]
        before.score_updates.contains_key(key) ==> after.score_updates.contains_key(key)
}

/// No call breaks what holds of the storage at every time.
pub proof fn call_keeps_wf(state: RegistryState, context: Context, call: Call)
    requires
        state.wf(),
        state.audit_log.total < u64::MAX,
    ensures
        state.after(context, call).wf(),
{
    if let Some(action) = call.action() {
        let entry = state.audit_entry(context.timestamp, call.caller()->0, action);
        crate::audit::append_is_newest(state.audit_log, entry);
    }
}

/// No call loses what was entered: businesses stay registered, with their history, and debtors
/// stay scored.
pub proof fn call_keeps_entries(state: RegistryState, context: Context, call: Call)
    ensures
        storage_follows(state, state.after(context, call)),
{
}

/// A call that is an accepted admin action adds exactly one entry to the audit log: with its
/// kind, its actor, its time, and the number of actions before it. No other call touches the log.
pub proof fn admin_actions_are_audited(state: RegistryState, context: Context, call: Call)
    ensures
        match call.action() {
            Some(action) => state.verdict(context, call) is Ok ==> state.after(
                context,
                call,
            ).audit_log == state.audit_log.append(
                state.audit_log.next_entry(
                    context.timestamp,
                    call.caller()->0,
                    action,
                    crate::audit::AuditSource::RiskRegistry,
                ),
            ),
            None => state.after(context, call).audit_log == state.audit_log,
        },
        state.verdict(context, call) is Err ==> state.after(context, call) == state,
{
}

/// What holds of the storage at every time holds after every history, no history loses what was
/// entered before it, and the audit log counts at most one action for each call.
pub proof fn history_keeps_entries(state: RegistryState, calls: Seq<(Context, Call)>)
    requires
        state.wf(),
        state.audit_log.total + calls.len() <= u64::MAX,
    ensures
        state.after_all(calls).wf(),
        storage_follows(state, state.after_all(calls)),
        state.audit_log.total <= state.after_all(calls).audit_log.total <= state.audit_log.total
            + calls.len(),
    decreases calls.len(),
{
    if calls.len() > 0 {
        let earlier = calls.drop_last();
        history_keeps_entries(state, earlier);
        let (context, call) = calls.last();
        call_keeps_wf(state.after_all(earlier), context, call);
        call_keeps_entries(state.after_all(earlier), context, call);
        admin_actions_are_audited(state.after_all(earlier), context, call);
    }
}

/// Every storage that a new registry can come to is as storage should be.
pub proof fn reachable_storage_is_wf(calls: Seq<(Context, Call)>)
    requires
        calls.len() <= u64::MAX,
    ensures
        RegistryState::empty().after_all(calls).wf(),
{
    history_keeps_entries(RegistryState::empty(), calls);
}

/// Only a call that the admin has authorized changes the admin, the verifiers with their stakes
/// and reputations, the proposed upgrade and the audit log, or counts a default.
pub proof fn only_admin_governs(state: RegistryState, context: Context, call: Call)
    requires
        state.admin is Some,
        call.caller() != state.admin,
    ensures
        ({
            let after = state.after(context, call);
            &&& after.admin == state.admin
            &&& after.verifiers == state.verifiers
            &&& after.stakes == state.stakes
            &&& after.reputations == state.reputations
            &&& after.upgrade_proposal == state.upgrade_proposal
            &&& after.audit_log == state.audit_log
            &&& forall|sme: Address| #[trigger]
                state.profiles.contains_key(sme) ==> after.profiles[sme].defaults
                    == state.profiles[sme].defaults
        }),
{
}

/// Only a call that a verifier has authorized registers a business, scores one or sets its credit
/// limit, or scores a debtor.
pub proof fn only_verifiers_assess(state: RegistryState, context: Context, call: Call)
    requires
        call.caller() matches Some(caller) ==> !state.is_verifier(caller),
    ensures
        ({
            let after = state.after(context, call);
            &&& after.profiles.dom() == state.profiles.dom()
            &&& forall|sme: Address| #[trigger]
                state.profiles.contains_key(sme) ==> {
                    &&& after.profiles[sme].risk_score == state.profiles[sme].risk_score
                    &&& after.profiles[sme].credit_limit == state.profiles[sme].credit_limit
                }
            &&& after.debtor_scores == state.debtor_scores
            &&& after.score_updates == state.score_updates
        }),
{
}

/// Only a call that the invoice contract has authorized counts an invoice.
pub proof fn only_invoice_contract_counts(
    state: RegistryState,
    context: Context,
    call: Call,
    sme: Address,
)
    requires
        state.invoice_nft is Some,
        call.caller() != state.invoice_nft,
        state.profiles.contains_key(sme),
    ensures
        state.after(context, call).profiles[sme].total_invoices
            == state.profiles[sme].total_invoices,
{
}

/// Between two scores that one verifier gives one debtor lie at least
/// [`crate::risk_registry::model::MIN_SCORE_UPDATE_INTERVAL`] seconds, whatever is called in
/// between.
pub proof fn scores_are_spaced(
    state: RegistryState,
    first: Context,
    between: Seq<(Context, Call)>,
    second: Context,
    verifier: Address,
    debtor_hash: Seq<u8>,
    first_score: u32,
    second_score: u32,
)
    requires
        state.verdict(
            first,
            (Call::SetDebtorScore { verifier, debtor_hash, score: first_score }),
        ) is Ok,
        state.after(
            first,
            (Call::SetDebtorScore { verifier, debtor_hash, score: first_score }),
        ).after_all(between).verdict(
            second,
            (Call::SetDebtorScore { verifier, debtor_hash, score: second_score }),
        ) is Ok,
    ensures
        second.timestamp >= first.timestamp
            + crate::risk_registry::model::MIN_SCORE_UPDATE_INTERVAL,
{
    let hash = crate::validation::hash_from(debtor_hash);
    let scored = state.after(
        first,
        Call::SetDebtorScore { verifier, debtor_hash, score: first_score },
    );
    lemma_last_update_advances(scored, between, verifier, hash);
}

/// The time at which a verifier last scored a debtor is not lost and does not go back.
proof fn lemma_last_update_advances(
    state: RegistryState,
    calls: Seq<(Context, Call)>,
    verifier: Address,
    hash: [u8; 32],
)
    requires
        state.score_updates.contains_key((verifier, hash)),
    ensures
        state.after_all(calls).score_updates.contains_key((verifier, hash)),
        state.after_all(calls).score_updates[(verifier, hash)] >= state.score_updates[(
            verifier,
            hash,
        )],
    decreases calls.len(),
{
    if calls.len() > 0 {
        lemma_last_update_advances(state, calls.drop_last(), verifier, hash);
    }
}

} // verus!
