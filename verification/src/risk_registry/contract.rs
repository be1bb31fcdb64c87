use vstd::prelude::*;

use crate::audit::{AdminActionType, AdminAuditEntry, AuditLog, AuditSource};
use crate::env::Env;
use crate::errors::KoraError;
use crate::risk_registry::model::{
    DataKey, Effect, Event, RegistryState, INITIAL_REPUTATION, MIN_SCORE_UPDATE_INTERVAL,
    PERSISTENT_TTL_BUMP, PERSISTENT_TTL_THRESHOLD, REPUTATION_PENALTY,
};
use crate::table::Table;
use crate::types::{Address, SmeProfile, UpgradeProposal};
use crate::validation::{
    read_hash, require_exact_length, require_not_self, require_valid_risk_score, BPS_DENOMINATOR,
    HASH_LENGTH,
};

verus! {

/// The registry, as its storage.
pub struct RiskRegistryContract {
    pub admin: Option<Address>,
    /// The contract that may count invoices.
    pub invoice_nft: Option<Address>,
    /// The token in which verifiers stake.
    pub staking_token: Option<Address>,
    /// The least stake of a verifier.
    pub minimum_stake: Option<i128>,
    /// The share of its stake that a verifier loses with a default, in basis points.
    pub slash_percentage: Option<u32>,
    pub verifiers: Table<Address, bool>,
    pub stakes: Table<Address, i128>,
    pub reputations: Table<Address, u32>,
    pub profiles: Table<Address, SmeProfile>,
    /// The score of a debtor, by the hash of its identity.
    pub debtor_scores: Table<[u8; 32], u32>,
    /// When a verifier last set the score of a debtor.
    pub score_updates: Table<(Address, [u8; 32]), u64>,
    pub upgrade_proposal: Option<UpgradeProposal>,
    pub audit_log: AuditLog,
}

impl View for RiskRegistryContract {
    type V = RegistryState;

    open spec fn view(&self) -> RegistryState {
        RegistryState {
            admin: self.admin,
            invoice_nft: self.invoice_nft,
            staking_token: self.staking_token,
            minimum_stake: self.minimum_stake,
            slash_percentage: self.slash_percentage,
            verifiers: self.verifiers@,
            stakes: self.stakes@,
            reputations: self.reputations@,
            profiles: self.profiles@,
            debtor_scores: self.debtor_scores@,
            score_updates: self.score_updates@,
            upgrade_proposal: self.upgrade_proposal,
            audit_log: self.audit_log@,
        }
    }
}

impl RiskRegistryContract {
    /// A registry with empty storage.
    pub fn new() -> (r: Self)
        ensures
            r@ == RegistryState::empty(),
            r@.wf(),
    {
        RiskRegistryContract {
            admin: None,
            invoice_nft: None,
            staking_token: None,
            minimum_stake: None,
            slash_percentage: None,
            verifiers: Table::new(),
            stakes: Table::new(),
            reputations: Table::new(),
            profiles: Table::new(),
            debtor_scores: Table::new(),
            score_updates: Table::new(),
            upgrade_proposal: None,
            audit_log: AuditLog::new(),
        }
    }

    /// Sets the registry up, once: its admin, the contract that may count invoices, and the terms
    /// of staking.
    pub fn initialize(
        &mut self,
        env: &mut Env<Effect>,
        admin: Address,
        invoice_nft: Address,
        staking_token: Address,
        minimum_stake: i128,
        slash_percentage_bps: u32,
    ) -> (r: Result<(), KoraError>)
        ensures
            r == old(self)@.initialize_verdict(old(env).contract, admin),
            r is Err ==> *final(self) == *old(self) && *final(env) == *old(env),
            r is Ok ==> {
                &&& final(self)@ == old(self)@.initialized(
                    admin,
                    invoice_nft,
                    staking_token,
                    minimum_stake,
                    slash_percentage_bps,
                )
                &&& final(env).extends(
                    *old(env),
                    seq![
                        DataKey::Admin.bump(),
                        Effect::Publish(Event::RegistryInitialized { admin, invoice_nft }),
                    ],
                )
            },
            r == old(self)@.verdict(
                old(env).context(),
                (crate::risk_registry::history::Call::Initialize {
                    admin,
                    invoice_nft,
                    staking_token,
                    minimum_stake,
                    slash_percentage_bps,
                }),
            ),
            final(self)@ == old(self)@.after(
                old(env).context(),
                (crate::risk_registry::history::Call::Initialize {
                    admin,
                    invoice_nft,
                    staking_token,
                    minimum_stake,
                    slash_percentage_bps,
                }),
            ),
            final(env).extends(
                *old(env),
                old(self)@.effects_of(
                    old(env).context(),
                    (crate::risk_registry::history::Call::Initialize {
                        admin,
                        invoice_nft,
                        staking_token,
                        minimum_stake,
                        slash_percentage_bps,
                    }),
                ),
            ),
            old(self)@.wf() ==> final(self)@.wf(),
    {
        if self.admin.is_some() {
            return Err(KoraError::AlreadyInitialized);
        }
        require_not_self(env.contract, admin)?;
        self.admin = Some(admin);
        self.invoice_nft = Some(invoice_nft);
        self.staking_token = Some(staking_token);
        self.minimum_stake = Some(minimum_stake);
        self.slash_percentage = Some(slash_percentage_bps);
        Self::bump_persistent(env, DataKey::Admin);
        env.emit(Effect::Publish(Event::RegistryInitialized { admin, invoice_nft }));
        Ok(())
    }

    /// Hands the admin's role to another address.
    pub fn transfer_admin(
        &mut self,
        env: &mut Env<Effect>,
        admin: Address,
        new_admin: Address,
    ) -> (r: Result<(), KoraError>)
        requires
            old(env).authorizes(admin),
            old(self)@.admin_verdict(admin) is Ok ==> old(self)@.audit_room(),
        ensures
            r == old(self)@.admin_verdict(admin),
            r is Err ==> *final(self) == *old(self) && *final(env) == *old(env),
            r is Ok ==> {
                &&& final(self)@ == old(self)@.admin_transferred(
                    old(env).timestamp,
                    admin,
                    new_admin,
                )
                &&& final(env).extends(
                    *old(env),
                    seq![
                        DataKey::Admin.bump(),
                        Effect::Publish(Event::AdminTransferred { admin, new_admin }),
                    ] + old(self)@.audit_effects(
                        old(env).timestamp,
                        admin,
                        AdminActionType::RegistryTransferAdmin,
                    ),
                )
            },
            r == old(self)@.verdict(
                old(env).context(),
                (crate::risk_registry::history::Call::TransferAdmin { admin, new_admin }),
            ),
            final(self)@ == old(self)@.after(
                old(env).context(),
                (crate::risk_registry::history::Call::TransferAdmin { admin, new_admin }),
            ),
            final(env).extends(
                *old(env),
                old(self)@.effects_of(
                    old(env).context(),
                    (crate::risk_registry::history::Call::TransferAdmin { admin, new_admin }),
                ),
            ),
            old(self)@.wf() ==> final(self)@.wf(),
    {
        self.require_admin(admin)?;
        self.admin = Some(new_admin);
        Self::bump_persistent(env, DataKey::Admin);
        env.emit(Effect::Publish(Event::AdminTransferred { admin, new_admin }));
        self.append_audit_entry(env, admin, AdminActionType::RegistryTransferAdmin);
        Ok(())
    }

    /// Adds a verifier, which stakes at least the minimum.
    pub fn add_verifier(
        &mut self,
        env: &mut Env<Effect>,
        admin: Address,
        verifier: Address,
        stake_amount: i128,
    ) -> (r: Result<(), KoraError>)
        requires
            old(env).authorizes(admin),
            old(self)@.add_verifier_verdict(old(env).contract, admin, verifier, stake_amount)
                is Ok ==> old(self)@.audit_room(),
        ensures
            r == old(self)@.add_verifier_verdict(
                old(env).contract,
                admin,
                verifier,
                stake_amount,
            ),
            r is Err ==> *final(self) == *old(self) && *final(env) == *old(env),
            r is Ok ==> {
                &&& final(self)@ == old(self)@.verifier_added(
                    old(env).timestamp,
                    admin,
                    verifier,
                    stake_amount,
                )
                &&& final(env).extends(
                    *old(env),
                    old(self)@.add_verifier_effects(
                        old(env).timestamp,
                        old(env).contract,
                        admin,
                        verifier,
                        stake_amount,
                    ),
                )
            },
            r == old(self)@.verdict(
                old(env).context(),
                (crate::risk_registry::history::Call::AddVerifier {
                    admin,
                    verifier,
                    stake_amount,
                }),
            ),
            final(self)@ == old(self)@.after(
                old(env).context(),
                (crate::risk_registry::history::Call::AddVerifier {
                    admin,
                    verifier,
                    stake_amount,
                }),
            ),
            final(env).extends(
                *old(env),
                old(self)@.effects_of(
                    old(env).context(),
                    (crate::risk_registry::history::Call::AddVerifier {
                        admin,
                        verifier,
                        stake_amount,
                    }),
                ),
            ),
            old(self)@.wf() ==> final(self)@.wf(),
    {
        self.require_admin(admin)?;
        require_not_self(env.contract, verifier)?;
        let minimum_stake: i128 = match self.minimum_stake {
            Some(minimum_stake) => minimum_stake,
            None => return Err(KoraError::NotInitialized),
        };
        if stake_amount < minimum_stake {
            return Err(KoraError::InsufficientFunds);
        }
        let token = match self.staking_token {
            Some(token) => token,
            None => return Err(KoraError::NotInitialized),
        };
        let contract = env.contract;
        env.emit(Effect::Transfer { token, from: verifier, to: contract, amount: stake_amount });
        self.verifiers.set(verifier, true);
        self.stakes.set(verifier, stake_amount);
        self.reputations.set(verifier, INITIAL_REPUTATION);
        Self::bump_persistent(env, DataKey::Verifier(verifier));
        Self::bump_persistent(env, DataKey::VerifierStake(verifier));
        Self::bump_persistent(env, DataKey::VerifierReputation(verifier));
        env.emit(Effect::Publish(Event::VerifierAdded { admin, verifier }));
        self.append_audit_entry(env, admin, AdminActionType::AddVerifier);
        Ok(())
    }

    /// Removes a verifier and returns what is left of its stake.
    pub fn remove_verifier(
        &mut self,
        env: &mut Env<Effect>,
        admin: Address,
        verifier: Address,
    ) -> (r: Result<(), KoraError>)
        requires
            old(env).authorizes(admin),
            old(self)@.remove_verifier_verdict(admin, verifier) is Ok ==> old(self)@.audit_room(),
        ensures
            r == old(self)@.remove_verifier_verdict(admin, verifier),
            r is Err ==> *final(self) == *old(self) && *final(env) == *old(env),
            r is Ok ==> {
                &&& final(self)@ == old(self)@.verifier_removed(
                    old(env).timestamp,
                    admin,
                    verifier,
                )
                &&& final(env).extends(
                    *old(env),
                    old(self)@.remove_verifier_effects(
                        old(env).timestamp,
                        old(env).contract,
                        admin,
                        verifier,
                    ),
                )
            },
            r == old(self)@.verdict(
                old(env).context(),
                (crate::risk_registry::history::Call::RemoveVerifier { admin, verifier }),
            ),
            final(self)@ == old(self)@.after(
                old(env).context(),
                (crate::risk_registry::history::Call::RemoveVerifier { admin, verifier }),
            ),
            final(env).extends(
                *old(env),
                old(self)@.effects_of(
                    old(env).context(),
                    (crate::risk_registry::history::Call::RemoveVerifier { admin, verifier }),
                ),
            ),
            old(self)@.wf() ==> final(self)@.wf(),
    {
        self.require_admin(admin)?;
        self.require_verifier(verifier)?;
        let stake: i128 = self.get_verifier_stake(verifier);
        if stake > 0 {
            let token = match self.staking_token {
                Some(token) => token,
                None => return Err(KoraError::NotInitialized),
            };
            let contract = env.contract;
            env.emit(Effect::Transfer { token, from: contract, to: verifier, amount: stake });
        }
        self.verifiers.remove(&verifier);
        self.stakes.remove(&verifier);
        self.reputations.remove(&verifier);
        env.emit(Effect::Publish(Event::VerifierRemoved { admin, verifier }));
        self.append_audit_entry(env, admin, AdminActionType::RemoveVerifier);
        Ok(())
    }

    /// Registers a business with its risk score. A business that is registered stays as it is.
    pub fn register_sme(
        &mut self,
        env: &mut Env<Effect>,
        verifier: Address,
        sme: Address,
        risk_score: u32,
        compliance_attested: bool,
    ) -> (r: Result<(), KoraError>)
        requires
            old(env).authorizes(verifier),
        ensures
            r == old(self)@.register_sme_verdict(verifier, sme, risk_score),
            r is Err ==> *final(self) == *old(self) && *final(env) == *old(env),
            r is Ok ==> {
                &&& final(self)@ == old(self)@.sme_registered(
                    old(env).timestamp,
                    verifier,
                    sme,
                    risk_score,
                    compliance_attested,
                )
                &&& final(env).extends(
                    *old(env),
                    seq![
                        DataKey::SmeProfile(sme).bump(),
                        Effect::Publish(Event::SmeRegistered { verifier, sme, risk_score }),
                    ],
                )
            },
            r == old(self)@.verdict(
                old(env).context(),
                (crate::risk_registry::history::Call::RegisterSme {
                    verifier,
                    sme,
                    risk_score,
                    compliance_attested,
                }),
            ),
            final(self)@ == old(self)@.after(
                old(env).context(),
                (crate::risk_registry::history::Call::RegisterSme {
                    verifier,
                    sme,
                    risk_score,
                    compliance_attested,
                }),
            ),
            final(env).extends(
                *old(env),
                old(self)@.effects_of(
                    old(env).context(),
                    (crate::risk_registry::history::Call::RegisterSme {
                        verifier,
                        sme,
                        risk_score,
                        compliance_attested,
                    }),
                ),
            ),
            old(self)@.wf() ==> final(self)@.wf(),
    {
        self.require_verifier(verifier)?;
        require_valid_risk_score(risk_score)?;
        if self.profiles.has(&sme) {
            return Err(KoraError::AlreadyInitialized);
        }
        let profile = SmeProfile {
            address: sme,
            verified: true,
            verifier,
            risk_score,
            total_invoices: 0,
            defaults: 0,
            registered_at: env.timestamp,
            compliance_attested,
            credit_limit: 0,
        };
        self.profiles.set(sme, profile);
        Self::bump_persistent(env, DataKey::SmeProfile(sme));
        env.emit(Effect::Publish(Event::SmeRegistered { verifier, sme, risk_score }));
        Ok(())
    }

    /// Gives a business another risk score.
    pub fn update_sme_score(
        &mut self,
        env: &mut Env<Effect>,
        verifier: Address,
        sme: Address,
        new_score: u32,
    ) -> (r: Result<(), KoraError>)
        requires
            old(env).authorizes(verifier),
        ensures
            r == old(self)@.update_sme_score_verdict(old(env).guard, verifier, sme, new_score),
            r is Err ==> *final(self) == *old(self) && *final(env) == *old(env),
            r is Ok ==> {
                &&& final(self)@ == old(self)@.sme_score_updated(sme, new_score)
                &&& final(env).extends(
                    *old(env),
                    seq![
                        DataKey::SmeProfile(sme).bump(),
                        Effect::Publish(Event::SmeScoreUpdated { verifier, sme, new_score }),
                    ],
                )
            },
            r == old(self)@.verdict(
                old(env).context(),
                (crate::risk_registry::history::Call::UpdateSmeScore { verifier, sme, new_score }),
            ),
            final(self)@ == old(self)@.after(
                old(env).context(),
                (crate::risk_registry::history::Call::UpdateSmeScore { verifier, sme, new_score }),
            ),
            final(env).extends(
                *old(env),
                old(self)@.effects_of(
                    old(env).context(),
                    (crate::risk_registry::history::Call::UpdateSmeScore {
                        verifier,
                        sme,
                        new_score,
                    }),
                ),
            ),
            old(self)@.wf() ==> final(self)@.wf(),
    {
        self.require_verifier(verifier)?;
        require_valid_risk_score(new_score)?;
        env.guard?;
        let mut profile = match self.profiles.get(&sme) {
            Some(profile) => profile,
            None => return Err(KoraError::SMENotRegistered),
        };
        profile.risk_score = new_score;
        self.profiles.set(sme, profile);
        Self::bump_persistent(env, DataKey::SmeProfile(sme));
        env.emit(Effect::Publish(Event::SmeScoreUpdated { verifier, sme, new_score }));
        Ok(())
    }

    /// Sets the limit on the outstanding credit of a business; zero for no limit.
    pub fn set_credit_limit(
        &mut self,
        env: &mut Env<Effect>,
        verifier: Address,
        sme: Address,
        credit_limit: i128,
    ) -> (r: Result<(), KoraError>)
        requires
            old(env).authorizes(verifier),
        ensures
            r == old(self)@.set_credit_limit_verdict(verifier, sme, credit_limit),
            r is Err ==> *final(self) == *old(self) && *final(env) == *old(env),
            r is Ok ==> {
                &&& final(self)@ == old(self)@.credit_limit_set(sme, credit_limit)
                &&& final(env).extends(
                    *old(env),
                    seq![
                        DataKey::SmeProfile(sme).bump(),
                        Effect::Publish(Event::SmeCreditLimitSet { verifier, sme, credit_limit }),
                    ],
                )
            },
            r == old(self)@.verdict(
                old(env).context(),
                (crate::risk_registry::history::Call::SetCreditLimit {
                    verifier,
                    sme,
                    credit_limit,
                }),
            ),
            final(self)@ == old(self)@.after(
                old(env).context(),
                (crate::risk_registry::history::Call::SetCreditLimit {
                    verifier,
                    sme,
                    credit_limit,
                }),
            ),
            final(env).extends(
                *old(env),
                old(self)@.effects_of(
                    old(env).context(),
                    (crate::risk_registry::history::Call::SetCreditLimit {
                        verifier,
                        sme,
                        credit_limit,
                    }),
                ),
            ),
            old(self)@.wf() ==> final(self)@.wf(),
    {
        self.require_verifier(verifier)?;
        if credit_limit < 0 {
            return Err(KoraError::InvalidAmount);
        }
        let mut profile = match self.profiles.get(&sme) {
            Some(profile) => profile,
            None => return Err(KoraError::SMENotRegistered),
        };
        profile.credit_limit = credit_limit;
        self.profiles.set(sme, profile);
        Self::bump_persistent(env, DataKey::SmeProfile(sme));
        env.emit(Effect::Publish(Event::SmeCreditLimitSet { verifier, sme, credit_limit }));
        Ok(())
    }

    /// Counts one more invoice of a business. Only the invoice contract may do so.
    pub fn increment_invoice_count(
        &mut self,
        env: &mut Env<Effect>,
        caller: Address,
        sme: Address,
    ) -> (r: Result<(), KoraError>)
        requires
            old(env).authorizes(caller),
        ensures
            r == old(self)@.increment_invoice_count_verdict(caller, sme),
            r is Err ==> *final(self) == *old(self) && *final(env) == *old(env),
            r is Ok ==> {
                &&& final(self)@ == old(self)@.invoice_counted(sme)
                &&& final(env).extends(
                    *old(env),
                    seq![
                        DataKey::SmeProfile(sme).bump(),
                        Effect::Publish(
                            Event::SmeInvoiceCountIncremented {
                                sme,
                                total_invoices: final(self)@.profiles[sme].total_invoices,
                            },
                        ),
                    ],
                )
            },
            r == old(self)@.verdict(
                old(env).context(),
                (crate::risk_registry::history::Call::IncrementInvoiceCount { caller, sme }),
            ),
            final(self)@ == old(self)@.after(
                old(env).context(),
                (crate::risk_registry::history::Call::IncrementInvoiceCount { caller, sme }),
            ),
            final(env).extends(
                *old(env),
                old(self)@.effects_of(
                    old(env).context(),
                    (crate::risk_registry::history::Call::IncrementInvoiceCount { caller, sme }),
                ),
            ),
            old(self)@.wf() ==> final(self)@.wf(),
    {
        self.require_invoice_nft(caller)?;
        let mut profile = match self.profiles.get(&sme) {
            Some(profile) => profile,
            None => return Err(KoraError::SMENotRegistered),
        };
        let total_invoices: u32 = match profile.total_invoices.checked_add(1) {
            Some(total_invoices) => total_invoices,
            None => return Err(KoraError::ArithmeticOverflow),
        };
        profile.total_invoices = total_invoices;
        self.profiles.set(sme, profile);
        Self::bump_persistent(env, DataKey::SmeProfile(sme));
        env.emit(Effect::Publish(Event::SmeInvoiceCountIncremented { sme, total_invoices }));
        Ok(())
    }

    /// Records a default of a business, and takes stake and reputation from the verifier that
    /// registered it.
    pub fn record_default(
        &mut self,
        env: &mut Env<Effect>,
        admin: Address,
        sme: Address,
    ) -> (r: Result<(), KoraError>)
        requires
            old(env).authorizes(admin),
            old(self)@.record_default_verdict(old(env).guard, admin, sme) is Ok ==> {
                &&& old(self)@.slash_fits(old(self)@.profiles[sme].verifier)
                &&& old(self)@.audit_room()
            },
        ensures
            r == old(self)@.record_default_verdict(old(env).guard, admin, sme),
            r is Err ==> *final(self) == *old(self) && *final(env) == *old(env),
            r is Ok ==> {
                &&& final(self)@ == old(self)@.default_recorded(old(env).timestamp, admin, sme)
                &&& final(env).extends(
                    *old(env),
                    old(self)@.record_default_effects(old(env).timestamp, admin, sme),
                )
            },
            r == old(self)@.verdict(
                old(env).context(),
                (crate::risk_registry::history::Call::RecordDefault { admin, sme }),
            ),
            final(self)@ == old(self)@.after(
                old(env).context(),
                (crate::risk_registry::history::Call::RecordDefault { admin, sme }),
            ),
            final(env).extends(
                *old(env),
                old(self)@.effects_of(
                    old(env).context(),
                    (crate::risk_registry::history::Call::RecordDefault { admin, sme }),
                ),
            ),
            old(self)@.wf() ==> final(self)@.wf(),
    {
        self.require_admin(admin)?;
        env.guard?;
        let mut profile = match self.profiles.get(&sme) {
            Some(profile) => profile,
            None => return Err(KoraError::SMENotRegistered),
        };
        let defaults: u32 = match profile.defaults.checked_add(1) {
            Some(defaults) => defaults,
            None => return Err(KoraError::ArithmeticOverflow),
        };
        profile.defaults = defaults;
        let verifier = profile.verifier;
        let slash_percentage: u32 = match self.slash_percentage {
            Some(slash_percentage) => slash_percentage,
            None => return Err(KoraError::NotInitialized),
        };
        let current_stake: i128 = self.get_verifier_stake(verifier);
        if current_stake > 0 {
            let slash_amount: i128 = slash_of(current_stake, slash_percentage);
            let remaining_stake: i128 = current_stake - slash_amount;
            self.stakes.set(verifier, remaining_stake);
            Self::bump_persistent(env, DataKey::VerifierStake(verifier));
        }
        let current_reputation: u32 = match self.reputations.get(&verifier) {
            Some(reputation) => reputation,
            None => INITIAL_REPUTATION,
        };
        let new_reputation: u32 = current_reputation.saturating_sub(REPUTATION_PENALTY);
        self.reputations.set(verifier, new_reputation);
        Self::bump_persistent(env, DataKey::VerifierReputation(verifier));
        self.profiles.set(sme, profile);
        Self::bump_persistent(env, DataKey::SmeProfile(sme));
        env.emit(Effect::Publish(Event::SmeDefaultRecorded { admin, sme, defaults }));
        self.append_audit_entry(env, admin, AdminActionType::RecordDefault);
        Ok(())
    }

    /// Sets the risk score of a debtor, who is known by the hash of its identity. One verifier
    /// may do so once in [`MIN_SCORE_UPDATE_INTERVAL`] seconds for one debtor.
    pub fn set_debtor_score(
        &mut self,
        env: &mut Env<Effect>,
        verifier: Address,
        debtor_hash: &[u8],
        score: u32,
    ) -> (r: Result<(), KoraError>)
        requires
            old(env).authorizes(verifier),
        ensures
            r == old(self)@.set_debtor_score_verdict(
                old(env).timestamp,
                verifier,
                debtor_hash@,
                score,
            ),
            r is Err ==> *final(self) == *old(self) && *final(env) == *old(env),
            r is Ok ==> {
                let hash = crate::validation::hash_from(debtor_hash@);
                &&& hash@ == debtor_hash@
                &&& final(self)@ == old(self)@.debtor_score_set(
                    old(env).timestamp,
                    verifier,
                    hash,
                    score,
                )
                &&& final(env).extends(
                    *old(env),
                    seq![
                        DataKey::DebtorScore(hash).bump(),
                        DataKey::DebtorScoreLastUpdate(verifier, hash).bump(),
                        Effect::Publish(
                            Event::DebtorScoreSet { verifier, debtor_hash: hash, score },
                        ),
                    ],
                )
            },
            r == old(self)@.verdict(
                old(env).context(),
                (crate::risk_registry::history::Call::SetDebtorScore {
                    verifier,
                    debtor_hash: debtor_hash@,
                    score,
                }),
            ),
            final(self)@ == old(self)@.after(
                old(env).context(),
                (crate::risk_registry::history::Call::SetDebtorScore {
                    verifier,
                    debtor_hash: debtor_hash@,
                    score,
                }),
            ),
            final(env).extends(
                *old(env),
                old(self)@.effects_of(
                    old(env).context(),
                    (crate::risk_registry::history::Call::SetDebtorScore {
                        verifier,
                        debtor_hash: debtor_hash@,
                        score,
                    }),
                ),
            ),
            old(self)@.wf() ==> final(self)@.wf(),
    {
        self.require_verifier(verifier)?;
        require_exact_length(debtor_hash, HASH_LENGTH)?;
        require_valid_risk_score(score)?;
        let hash: [u8; 32] = read_hash(debtor_hash);
        match self.score_updates.get(&(verifier, hash)) {
            Some(last_update) => {
                match last_update.checked_add(MIN_SCORE_UPDATE_INTERVAL) {
                    Some(next_allowed) => {
                        if env.timestamp < next_allowed {
                            return Err(KoraError::ScoreUpdateCooldownNotElapsed);
                        }
                    },
                    None => return Err(KoraError::ArithmeticOverflow),
                }
            },
            None => {},
        }
        self.debtor_scores.set(hash, score);
        Self::bump_persistent(env, DataKey::DebtorScore(hash));
        self.score_updates.set((verifier, hash), env.timestamp);
        Self::bump_persistent(env, DataKey::DebtorScoreLastUpdate(verifier, hash));
        env.emit(Effect::Publish(Event::DebtorScoreSet { verifier, debtor_hash: hash, score }));
        Ok(())
    }

    /// The profile of a business.
    pub fn get_sme_profile(&self, env: &mut Env<Effect>, sme: Address) -> (r: Result<
        SmeProfile,
        KoraError,
    >)
        ensures
            r == self@.sme_profile(sme),
            r is Err ==> *final(env) == *old(env),
            r is Ok ==> final(env).extends(*old(env), seq![DataKey::SmeProfile(sme).bump()]),
            final(env).extends(*old(env), self@.read_profile_effects(sme)),
    {
        match self.profiles.get(&sme) {
            Some(profile) => {
                Self::bump_persistent(env, DataKey::SmeProfile(sme));
                Ok(profile)
            },
            None => Err(KoraError::SMENotRegistered),
        }
    }

    /// Whether a business is registered and verified.
    pub fn is_verified_sme(&self, sme: Address) -> (r: bool)
        ensures
            r == (self@.profiles.contains_key(sme) && self@.profiles[sme].verified),
            self@.wf() ==> r == self@.profiles.contains_key(sme),
            r == self@.is_verified(sme),
    {
        match self.profiles.get(&sme) {
            Some(profile) => profile.verified,
            None => false,
        }
    }

    /// Whether the compliance of a business has been attested.
    pub fn is_compliance_attested(&self, sme: Address) -> (r: bool)
        ensures
            r == (self@.profiles.contains_key(sme) && self@.profiles[sme].compliance_attested),
            r == self@.is_attested(sme),
    {
        match self.profiles.get(&sme) {
            Some(profile) => profile.compliance_attested,
            None => false,
        }
    }

    /// What a verifier has staked; zero for a stranger.
    pub fn get_verifier_stake(&self, verifier: Address) -> (r: i128)
        ensures
            r == self@.stake(verifier),
    {
        match self.stakes.get(&verifier) {
            Some(stake) => stake,
            None => 0,
        }
    }

    /// The reputation of a verifier; zero for a stranger.
    pub fn get_verifier_reputation(&self, verifier: Address) -> (r: u32)
        ensures
            r == (if self@.reputations.contains_key(verifier) {
                self@.reputations[verifier]
            } else {
                0
            }),
            r == self@.reputation(verifier),
    {
        match self.reputations.get(&verifier) {
            Some(reputation) => reputation,
            None => 0,
        }
    }

    /// Whether an address is a verifier.
    pub fn is_verifier(&self, verifier: Address) -> (r: bool)
        ensures
            r == self@.is_verifier(verifier),
    {
        match self.verifiers.get(&verifier) {
            Some(verified) => verified,
            None => false,
        }
    }

    /// The risk score of a debtor.
    pub fn get_debtor_score(&self, env: &mut Env<Effect>, debtor_hash: &[u8]) -> (r: Result<
        u32,
        KoraError,
    >)
        ensures
            r == self@.debtor_score(debtor_hash@),
            r is Err ==> *final(env) == *old(env),
            r is Ok ==> {
                let hash = crate::validation::hash_from(debtor_hash@);
                &&& hash@ == debtor_hash@
                &&& final(env).extends(*old(env), seq![DataKey::DebtorScore(hash).bump()])
            },
            final(env).extends(*old(env), self@.read_score_effects(debtor_hash@)),
    {
        if debtor_hash.len() != HASH_LENGTH {
            return Err(KoraError::DebtorNotRegistered);
        }
        let hash: [u8; 32] = read_hash(debtor_hash);
        match self.debtor_scores.get(&hash) {
            Some(score) => {
                Self::bump_persistent(env, DataKey::DebtorScore(hash));
                Ok(score)
            },
            None => Err(KoraError::DebtorNotRegistered),
        }
    }

    /// The admin.
    pub fn get_admin(&self) -> (r: Result<Address, KoraError>)
        ensures
            r == (match self@.admin {
                Some(admin) => Ok(admin),
                None => Err(KoraError::NotInitialized),
            }),
    {
        match self.admin {
            Some(admin) => Ok(admin),
            None => Err(KoraError::NotInitialized),
        }
    }

    /// Proposes other code for the contract; the timelock starts to run.
    pub fn propose_upgrade(
        &mut self,
        env: &mut Env<Effect>,
        admin: Address,
        new_wasm_hash: [u8; 32],
    ) -> (r: Result<(), KoraError>)
        requires
            old(env).authorizes(admin),
            old(self)@.admin_verdict(admin) is Ok ==> old(self)@.audit_room(),
        ensures
            r == old(self)@.admin_verdict(admin),
            r is Err ==> *final(self) == *old(self) && *final(env) == *old(env),
            r is Ok ==> {
                &&& final(self)@ == old(self)@.upgrade_proposed(
                    old(env).timestamp,
                    admin,
                    new_wasm_hash,
                )
                &&& final(env).extends(
                    *old(env),
                    seq![
                        Effect::Publish(
                            Event::UpgradeProposed { admin, wasm_hash: new_wasm_hash },
                        ),
                    ] + old(self)@.audit_effects(
                        old(env).timestamp,
                        admin,
                        AdminActionType::RegistryProposeUpgrade,
                    ),
                )
            },
            r == old(self)@.verdict(
                old(env).context(),
                (crate::risk_registry::history::Call::ProposeUpgrade {
                    admin,
                    wasm_hash: new_wasm_hash,
                }),
            ),
            final(self)@ == old(self)@.after(
                old(env).context(),
                (crate::risk_registry::history::Call::ProposeUpgrade {
                    admin,
                    wasm_hash: new_wasm_hash,
                }),
            ),
            final(env).extends(
                *old(env),
                old(self)@.effects_of(
                    old(env).context(),
                    (crate::risk_registry::history::Call::ProposeUpgrade {
                        admin,
                        wasm_hash: new_wasm_hash,
                    }),
                ),
            ),
            old(self)@.wf() ==> final(self)@.wf(),
    {
        self.require_admin(admin)?;
        self.upgrade_proposal =
        Some(UpgradeProposal { wasm_hash: new_wasm_hash, proposed_at: env.timestamp });
        env.emit(Effect::Publish(Event::UpgradeProposed { admin, wasm_hash: new_wasm_hash }));
        self.append_audit_entry(env, admin, AdminActionType::RegistryProposeUpgrade);
        Ok(())
    }

    /// Runs the proposed code in place of the contract's, once the timelock has run out.
    pub fn execute_upgrade(&mut self, env: &mut Env<Effect>, admin: Address) -> (r: Result<
        (),
        KoraError,
    >)
        requires
            old(env).authorizes(admin),
            old(self)@.admin_verdict(admin) is Ok && old(self)@.upgrade_proposal is Some ==> old(
                self,
            )@.upgrade_proposal->0.proposed_at + old(env).upgrade_timelock <= u64::MAX,
            old(self)@.execute_upgrade_verdict(
                old(env).timestamp,
                old(env).upgrade_timelock,
                admin,
            ) is Ok ==> old(self)@.audit_room(),
        ensures
            r == old(self)@.execute_upgrade_verdict(
                old(env).timestamp,
                old(env).upgrade_timelock,
                admin,
            ),
            r is Err ==> *final(self) == *old(self) && *final(env) == *old(env),
            r is Ok ==> {
                &&& final(self)@ == old(self)@.upgrade_executed(old(env).timestamp, admin)
                &&& final(env).extends(
                    *old(env),
                    old(self)@.execute_upgrade_effects(old(env).timestamp, admin),
                )
            },
            r == old(self)@.verdict(
                old(env).context(),
                (crate::risk_registry::history::Call::ExecuteUpgrade { admin }),
            ),
            final(self)@ == old(self)@.after(
                old(env).context(),
                (crate::risk_registry::history::Call::ExecuteUpgrade { admin }),
            ),
            final(env).extends(
                *old(env),
                old(self)@.effects_of(
                    old(env).context(),
                    (crate::risk_registry::history::Call::ExecuteUpgrade { admin }),
                ),
            ),
            old(self)@.wf() ==> final(self)@.wf(),
    {
        self.require_admin(admin)?;
        let proposal = match self.upgrade_proposal {
            Some(proposal) => proposal,
            None => return Err(KoraError::NoUpgradeProposed),
        };
        if env.timestamp < proposal.proposed_at + env.upgrade_timelock {
            return Err(KoraError::UpgradeTimelockNotElapsed);
        }
        self.upgrade_proposal = None;
        let wasm_hash: [u8; 32] = proposal.wasm_hash;
        env.emit(Effect::Publish(Event::UpgradeExecuted { admin, wasm_hash }));
        self.append_audit_entry(env, admin, AdminActionType::RegistryExecuteUpgrade);
        env.emit(Effect::UpdateWasm(wasm_hash));
        Ok(())
    }

    /// A page of the audit log, newest entries first. Pages are counted from zero; their size is
    /// brought between one and fifty.
    pub fn get_audit_log(&self, page: u32, page_size: u32) -> (r: Vec<AdminAuditEntry>)
        requires
            self@.audit_log.wf(),
        ensures
            r@ == self@.audit_log.page(page, page_size),
    {
        self.audit_log.read_page(page, page_size)
    }

    fn require_admin(&self, caller: Address) -> (r: Result<(), KoraError>)
        ensures
            r == self@.admin_verdict(caller),
    {
        match self.admin {
            None => Err(KoraError::NotInitialized),
            Some(admin) => if admin != caller {
                Err(KoraError::NotAdmin)
            } else {
                Ok(())
            },
        }
    }

    fn require_verifier(&self, caller: Address) -> (r: Result<(), KoraError>)
        ensures
            r == self@.verifier_verdict(caller),
    {
        if !self.is_verifier(caller) {
            return Err(KoraError::NotVerifier);
        }
        Ok(())
    }

    fn require_invoice_nft(&self, caller: Address) -> (r: Result<(), KoraError>)
        ensures
            r == self@.invoice_nft_verdict(caller),
    {
        match self.invoice_nft {
            None => Err(KoraError::NotInitialized),
            Some(invoice_nft) => if invoice_nft != caller {
                Err(KoraError::Unauthorized)
            } else {
                Ok(())
            },
        }
    }

    /// Asks the host to extend the life of an entry.
    fn bump_persistent(env: &mut Env<Effect>, key: DataKey)
        ensures
            final(env).extends(*old(env), seq![key.bump()]),
    {
        env.emit(
            Effect::ExtendTtl {
                key,
                threshold: PERSISTENT_TTL_THRESHOLD,
                extend_to: PERSISTENT_TTL_BUMP,
            },
        );
    }

    /// Records an admin action in the audit log.
    fn append_audit_entry(
        &mut self,
        env: &mut Env<Effect>,
        actor: Address,
        action: AdminActionType,
    )
        requires
            old(self)@.audit_room(),
        ensures
            final(self)@ == old(self)@.audited(old(env).timestamp, actor, action),
            final(env).extends(
                *old(env),
                old(self)@.audit_effects(old(env).timestamp, actor, action),
            ),
            old(self)@.audit_log.complete() ==> final(self)@.audit_log.complete(),
    {
        let head: u64 = self.audit_log.head;
        let entry = self.audit_log.append(
            env.timestamp,
            actor,
            action,
            AuditSource::RiskRegistry,
        );
        Self::bump_persistent(env, DataKey::AuditEntry(head));
        env.emit(Effect::Publish(Event::AdminActionAudited(entry)));
    }
}

/// The share of a stake that is lost with a default.
fn slash_of(stake: i128, slash_percentage: u32) -> (r: i128)
    requires
        stake > 0,
        stake * slash_percentage <= u128::MAX,
    ensures
        r == crate::validation::bps_share(stake as int, slash_percentage as int),
        r >= 0,
{
    assert(0 <= stake * slash_percentage) by (nonlinear_arith)
        requires
            stake > 0,
    ;
    let product: u128 = stake as u128 * slash_percentage as u128;
    let share: u128 = product / BPS_DENOMINATOR as u128;
    assert(share == product / 10_000);
    assert(share <= i128::MAX);
    share as i128
}

} // verus!
