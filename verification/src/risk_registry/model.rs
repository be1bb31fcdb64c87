use vstd::prelude::*;

use crate::audit::{AdminActionType, AdminAuditEntry, AuditLogView, AuditSource};
use crate::errors::KoraError;
use crate::types::{Address, SmeProfile, UpgradeProposal};
use crate::validation::{HASH_LENGTH, MAX_RISK_SCORE};

verus! {

/// An entry whose remaining life is below this many ledgers, about thirty days, is extended.
pub const PERSISTENT_TTL_THRESHOLD: u32 = 518_400;

/// The ledgers to which the life of an entry is extended.
pub const PERSISTENT_TTL_BUMP: u32 = 518_400;

/// The seconds that must pass between two updates of a debtor's score by one verifier, so that a
/// score cannot be changed rapidly right before a decision that rests on it.
pub const MIN_SCORE_UPDATE_INTERVAL: u64 = 3_600;

/// The reputation of a new verifier.
pub const INITIAL_REPUTATION: u32 = 100;

/// What a verifier's reputation loses with a default of a business that it registered.
pub const REPUTATION_PENALTY: u32 = 10;

/// The keys of the registry's storage.
#[derive(Clone, Copy, Debug, PartialEq, Eq)]
pub enum DataKey {
    Admin,
    /// The contract that may count invoices.
    InvoiceNft,
    /// The token in which verifiers stake.
    StakingToken,
    /// The least stake of a verifier.
    MinimumStake,
    /// The share of its stake that a verifier loses with a default, in basis points.
    SlashPercentage,
    Verifier(Address),
    VerifierStake(Address),
    VerifierReputation(Address),
    SmeProfile(Address),
    /// The score of a debtor, by the hash of its identity.
    DebtorScore([u8; 32]),
    /// When a verifier last set the score of a debtor.
    DebtorScoreLastUpdate(Address, [u8; 32]),
    UpgradeProposal,
    /// The position that the next audit entry takes.
    AuditLogHead,
    /// The admin actions ever recorded.
    AuditLogTotal,
    /// The audit entry at a position.
    AuditEntry(u64),
}

/// What the registry announces.
#[derive(Clone, Copy, Debug, PartialEq, Eq)]
pub enum Event {
    RegistryInitialized { admin: Address, invoice_nft: Address },
    AdminTransferred { admin: Address, new_admin: Address },
    VerifierAdded { admin: Address, verifier: Address },
    VerifierRemoved { admin: Address, verifier: Address },
    SmeRegistered { verifier: Address, sme: Address, risk_score: u32 },
    SmeScoreUpdated { verifier: Address, sme: Address, new_score: u32 },
    SmeCreditLimitSet { verifier: Address, sme: Address, credit_limit: i128 },
    SmeInvoiceCountIncremented { sme: Address, total_invoices: u32 },
    SmeDefaultRecorded { admin: Address, sme: Address, defaults: u32 },
    DebtorScoreSet { verifier: Address, debtor_hash: [u8; 32], score: u32 },
    UpgradeProposed { admin: Address, wasm_hash: [u8; 32] },
    UpgradeExecuted { admin: Address, wasm_hash: [u8; 32] },
    AdminActionAudited(AdminAuditEntry),
}

/// What the registry asks of the host.
#[derive(Clone, Copy, Debug, PartialEq, Eq)]
pub enum Effect {
    /// Extend the life of a storage entry to `extend_to` ledgers if it is below `threshold`.
    ExtendTtl { key: DataKey, threshold: u32, extend_to: u32 },
    /// Move tokens.
    Transfer { token: Address, from: Address, to: Address, amount: i128 },
    /// Announce an event.
    Publish(Event),
    /// Run other code in place of the contract's.
    UpdateWasm([u8; 32]),
}

impl DataKey {
    /// The extension of the life of an entry.
    pub open spec fn bump(self) -> Effect {
        Effect::ExtendTtl {
            key: self,
            threshold: PERSISTENT_TTL_THRESHOLD,
            extend_to: PERSISTENT_TTL_BUMP,
        }
    }
}

/// What the registry's storage holds.
#[verifier::ext_equal]
pub struct RegistryState {
    pub admin: Option<Address>,
    pub invoice_nft: Option<Address>,
    pub staking_token: Option<Address>,
    pub minimum_stake: Option<i128>,
    pub slash_percentage: Option<u32>,
    pub verifiers: Map<Address, bool>,
    pub stakes: Map<Address, i128>,
    pub reputations: Map<Address, u32>,
    pub profiles: Map<Address, SmeProfile>,
    pub debtor_scores: Map<[u8; 32], u32>,
    pub score_updates: Map<(Address, [u8; 32]), u64>,
    pub upgrade_proposal: Option<UpgradeProposal>,
    pub audit_log: AuditLogView,
}

impl RegistryState {
    /// Empty storage.
    pub open spec fn empty() -> Self {
        RegistryState {
            admin: None,
            invoice_nft: None,
            staking_token: None,
            minimum_stake: None,
            slash_percentage: None,
            verifiers: Map::empty(),
            stakes: Map::empty(),
            reputations: Map::empty(),
            profiles: Map::empty(),
            debtor_scores: Map::empty(),
            score_updates: Map::empty(),
            upgrade_proposal: None,
            audit_log: AuditLogView::empty(),
        }
    }

    /// What holds of the registry's storage at every time.
    pub open spec fn wf(self) -> bool {
        &&& self.admin is Some ==> self.invoice_nft is Some && self.staking_token is Some
            && self.minimum_stake is Some && self.slash_percentage is Some
        &&& forall|sme: Address| #[trigger]
            self.profiles.contains_key(sme) ==> {
                &&& self.profiles[sme].address == sme
                &&& self.profiles[sme].verified
                &&& self.profiles[sme].risk_score <= MAX_RISK_SCORE
                &&& self.profiles[sme].credit_limit >= 0
            }
        &&& forall|hash: [u8; 32]| #[trigger]
            self.debtor_scores.contains_key(hash) ==> self.debtor_scores[hash] <= MAX_RISK_SCORE
        &&& forall|verifier: Address| #[trigger]
            self.verifiers.contains_key(verifier) ==> {
                &&& self.verifiers[verifier]
                &&& self.stakes.contains_key(verifier)
                &&& self.reputations.contains_key(verifier)
            }
        &&& forall|verifier: Address| #[trigger]
            self.reputations.contains_key(verifier) ==> self.reputations[verifier]
                <= INITIAL_REPUTATION
        &&& self.audit_log.complete()
    }

    /// Whether an address is a verifier.
    pub open spec fn is_verifier(self, address: Address) -> bool {
        self.verifiers.contains_key(address) && self.verifiers[address]
    }

    /// What a verifier has staked.
    pub open spec fn stake(self, verifier: Address) -> i128 {
        if self.stakes.contains_key(verifier) {
            self.stakes[verifier]
        } else {
            0
        }
    }

    /// Whether there is room to count one more admin action.
    pub open spec fn audit_room(self) -> bool {
        self.audit_log.wf() && self.audit_log.total < u64::MAX
    }

    /// Only the admin may act.
    pub open spec fn admin_verdict(self, caller: Address) -> Result<(), KoraError> {
        match self.admin {
            None => Err(KoraError::NotInitialized),
            Some(admin) => KoraError::NotAdmin.unless(admin == caller),
        }
    }

    /// Only a verifier may act.
    pub open spec fn verifier_verdict(self, caller: Address) -> Result<(), KoraError> {
        KoraError::NotVerifier.unless(self.is_verifier(caller))
    }

    /// Only the invoice contract may act.
    pub open spec fn invoice_nft_verdict(self, caller: Address) -> Result<(), KoraError> {
        match self.invoice_nft {
            None => Err(KoraError::NotInitialized),
            Some(invoice_nft) => KoraError::Unauthorized.unless(invoice_nft == caller),
        }
    }

    /// The audit entry for an admin action.
    pub open spec fn audit_entry(
        self,
        timestamp: u64,
        actor: Address,
        action: AdminActionType,
    ) -> AdminAuditEntry {
        self.audit_log.next_entry(timestamp, actor, action, AuditSource::RiskRegistry)
    }

    /// The storage with an admin action recorded.
    pub open spec fn audited(
        self,
        timestamp: u64,
        actor: Address,
        action: AdminActionType,
    ) -> Self {
        RegistryState {
            audit_log: self.audit_log.append(self.audit_entry(timestamp, actor, action)),
            ..self
        }
    }

    /// What the record of an admin action asks of the host.
    pub open spec fn audit_effects(
        self,
        timestamp: u64,
        actor: Address,
        action: AdminActionType,
    ) -> Seq<Effect> {
        seq![
            DataKey::AuditEntry(self.audit_log.head).bump(),
            Effect::Publish(
                Event::AdminActionAudited(self.audit_entry(timestamp, actor, action)),
            ),
        ]
    }

    /// The contract is set up once, by an admin other than itself.
    pub open spec fn initialize_verdict(self, contract: Address, admin: Address) -> Result<
        (),
        KoraError,
    > {
        if self.admin is Some {
            Err(KoraError::AlreadyInitialized)
        } else {
            KoraError::InvalidAddress.unless(admin != contract)
        }
    }

    pub open spec fn initialized(
        self,
        admin: Address,
        invoice_nft: Address,
        staking_token: Address,
        minimum_stake: i128,
        slash_percentage_bps: u32,
    ) -> Self {
        RegistryState {
            admin: Some(admin),
            invoice_nft: Some(invoice_nft),
            staking_token: Some(staking_token),
            minimum_stake: Some(minimum_stake),
            slash_percentage: Some(slash_percentage_bps),
            ..self
        }
    }

    pub open spec fn initialize_effects(self, admin: Address, invoice_nft: Address) -> Seq<Effect> {
        seq![
            DataKey::Admin.bump(),
            Effect::Publish(Event::RegistryInitialized { admin, invoice_nft }),
        ]
    }

    pub open spec fn admin_transferred(
        self,
        timestamp: u64,
        admin: Address,
        new_admin: Address,
    ) -> Self {
        RegistryState { admin: Some(new_admin), ..self }.audited(
            timestamp,
            admin,
            AdminActionType::RegistryTransferAdmin,
        )
    }

    pub open spec fn transfer_admin_effects(
        self,
        timestamp: u64,
        admin: Address,
        new_admin: Address,
    ) -> Seq<Effect> {
        seq![
            DataKey::Admin.bump(),
            Effect::Publish(Event::AdminTransferred { admin, new_admin }),
        ] + self.audit_effects(timestamp, admin, AdminActionType::RegistryTransferAdmin)
    }

    /// A verifier other than the contract is added against at least the minimum stake.
    pub open spec fn add_verifier_verdict(
        self,
        contract: Address,
        admin: Address,
        verifier: Address,
        stake_amount: i128,
    ) -> Result<(), KoraError> {
        if self.admin_verdict(admin) is Err {
            self.admin_verdict(admin)
        } else if verifier == contract {
            Err(KoraError::InvalidAddress)
        } else if self.minimum_stake is None {
            Err(KoraError::NotInitialized)
        } else if stake_amount < self.minimum_stake->0 {
            Err(KoraError::InsufficientFunds)
        } else {
            KoraError::NotInitialized.unless(self.staking_token is Some)
        }
    }

    pub open spec fn verifier_added(
        self,
        timestamp: u64,
        admin: Address,
        verifier: Address,
        stake_amount: i128,
    ) -> Self {
        RegistryState {
            verifiers: self.verifiers.insert(verifier, true),
            stakes: self.stakes.insert(verifier, stake_amount),
            reputations: self.reputations.insert(verifier, INITIAL_REPUTATION),
            ..self
        }.audited(timestamp, admin, AdminActionType::AddVerifier)
    }

    pub open spec fn add_verifier_effects(
        self,
        timestamp: u64,
        contract: Address,
        admin: Address,
        verifier: Address,
        stake_amount: i128,
    ) -> Seq<Effect> {
        seq![
            Effect::Transfer {
                token: self.staking_token->0,
                from: verifier,
                to: contract,
                amount: stake_amount,
            },
            DataKey::Verifier(verifier).bump(),
            DataKey::VerifierStake(verifier).bump(),
            DataKey::VerifierReputation(verifier).bump(),
            Effect::Publish(Event::VerifierAdded { admin, verifier }),
        ] + self.audit_effects(timestamp, admin, AdminActionType::AddVerifier)
    }

    /// Only a verifier can be removed.
    pub open spec fn remove_verifier_verdict(self, admin: Address, verifier: Address) -> Result<
        (),
        KoraError,
    > {
        if self.admin_verdict(admin) is Err {
            self.admin_verdict(admin)
        } else if !self.is_verifier(verifier) {
            Err(KoraError::NotVerifier)
        } else {
            KoraError::NotInitialized.unless(
                self.stake(verifier) <= 0 || self.staking_token is Some,
            )
        }
    }

    pub open spec fn verifier_removed(
        self,
        timestamp: u64,
        admin: Address,
        verifier: Address,
    ) -> Self {
        RegistryState {
            verifiers: self.verifiers.remove(verifier),
            stakes: self.stakes.remove(verifier),
            reputations: self.reputations.remove(verifier),
            ..self
        }.audited(timestamp, admin, AdminActionType::RemoveVerifier)
    }

    /// The stake that is left goes back to the verifier.
    pub open spec fn stake_return(self, contract: Address, verifier: Address) -> Seq<Effect> {
        if self.stake(verifier) > 0 {
            seq![
                Effect::Transfer {
                    token: self.staking_token->0,
                    from: contract,
                    to: verifier,
                    amount: self.stake(verifier),
                },
            ]
        } else {
            Seq::empty()
        }
    }

    pub open spec fn remove_verifier_effects(
        self,
        timestamp: u64,
        contract: Address,
        admin: Address,
        verifier: Address,
    ) -> Seq<Effect> {
        self.stake_return(contract, verifier) + seq![
            Effect::Publish(Event::VerifierRemoved { admin, verifier }),
        ] + self.audit_effects(timestamp, admin, AdminActionType::RemoveVerifier)
    }

    /// A business is registered once, by a verifier, with a valid score.
    pub open spec fn register_sme_verdict(
        self,
        verifier: Address,
        sme: Address,
        risk_score: u32,
    ) -> Result<(), KoraError> {
        if self.verifier_verdict(verifier) is Err {
            self.verifier_verdict(verifier)
        } else if risk_score > MAX_RISK_SCORE {
            Err(KoraError::InvalidRiskScore)
        } else {
            KoraError::AlreadyInitialized.unless(!self.profiles.contains_key(sme))
        }
    }

    pub open spec fn sme_registered(
        self,
        timestamp: u64,
        verifier: Address,
        sme: Address,
        risk_score: u32,
        compliance_attested: bool,
    ) -> Self {
        self.with_profile(
            sme,
            SmeProfile {
                address: sme,
                verified: true,
                verifier,
                risk_score,
                total_invoices: 0,
                defaults: 0,
                registered_at: timestamp,
                compliance_attested,
                credit_limit: 0,
            },
        )
    }

    pub open spec fn register_sme_effects(
        self,
        verifier: Address,
        sme: Address,
        risk_score: u32,
    ) -> Seq<Effect> {
        seq![
            DataKey::SmeProfile(sme).bump(),
            Effect::Publish(Event::SmeRegistered { verifier, sme, risk_score }),
        ]
    }

    /// The storage with one profile in place.
    pub open spec fn with_profile(self, sme: Address, profile: SmeProfile) -> Self {
        RegistryState { profiles: self.profiles.insert(sme, profile), ..self }
    }

    pub open spec fn update_sme_score_verdict(
        self,
        guard: Result<(), KoraError>,
        verifier: Address,
        sme: Address,
        new_score: u32,
    ) -> Result<(), KoraError> {
        if self.verifier_verdict(verifier) is Err {
            self.verifier_verdict(verifier)
        } else if new_score > MAX_RISK_SCORE {
            Err(KoraError::InvalidRiskScore)
        } else if guard is Err {
            guard
        } else {
            KoraError::SMENotRegistered.unless(self.profiles.contains_key(sme))
        }
    }

    pub open spec fn sme_score_updated(self, sme: Address, new_score: u32) -> Self {
        self.with_profile(sme, SmeProfile { risk_score: new_score, ..self.profiles[sme] })
    }

    pub open spec fn update_sme_score_effects(
        self,
        verifier: Address,
        sme: Address,
        new_score: u32,
    ) -> Seq<Effect> {
        seq![
            DataKey::SmeProfile(sme).bump(),
            Effect::Publish(Event::SmeScoreUpdated { verifier, sme, new_score }),
        ]
    }

    pub open spec fn set_credit_limit_verdict(
        self,
        verifier: Address,
        sme: Address,
        credit_limit: i128,
    ) -> Result<(), KoraError> {
        if self.verifier_verdict(verifier) is Err {
            self.verifier_verdict(verifier)
        } else if credit_limit < 0 {
            Err(KoraError::InvalidAmount)
        } else {
            KoraError::SMENotRegistered.unless(self.profiles.contains_key(sme))
        }
    }

    pub open spec fn credit_limit_set(self, sme: Address, credit_limit: i128) -> Self {
        self.with_profile(sme, SmeProfile { credit_limit, ..self.profiles[sme] })
    }

    pub open spec fn set_credit_limit_effects(
        self,
        verifier: Address,
        sme: Address,
        credit_limit: i128,
    ) -> Seq<Effect> {
        seq![
            DataKey::SmeProfile(sme).bump(),
            Effect::Publish(Event::SmeCreditLimitSet { verifier, sme, credit_limit }),
        ]
    }

    pub open spec fn increment_invoice_count_verdict(self, caller: Address, sme: Address) -> Result<
        (),
        KoraError,
    > {
        if self.invoice_nft_verdict(caller) is Err {
            self.invoice_nft_verdict(caller)
        } else if !self.profiles.contains_key(sme) {
            Err(KoraError::SMENotRegistered)
        } else {
            KoraError::ArithmeticOverflow.unless(self.profiles[sme].total_invoices < u32::MAX)
        }
    }

    pub open spec fn invoice_counted(self, sme: Address) -> Self {
        self.with_profile(
            sme,
            SmeProfile {
                total_invoices: (self.profiles[sme].total_invoices + 1) as u32,
                ..self.profiles[sme]
            },
        )
    }

    pub open spec fn increment_invoice_count_effects(self, sme: Address) -> Seq<Effect> {
        seq![
            DataKey::SmeProfile(sme).bump(),
            Effect::Publish(
                Event::SmeInvoiceCountIncremented {
                    sme,
                    total_invoices: (self.profiles[sme].total_invoices + 1) as u32,
                },
            ),
        ]
    }

    pub open spec fn record_default_verdict(
        self,
        guard: Result<(), KoraError>,
        admin: Address,
        sme: Address,
    ) -> Result<(), KoraError> {
        if self.admin_verdict(admin) is Err {
            self.admin_verdict(admin)
        } else if guard is Err {
            guard
        } else if !self.profiles.contains_key(sme) {
            Err(KoraError::SMENotRegistered)
        } else if self.profiles[sme].defaults == u32::MAX {
            Err(KoraError::ArithmeticOverflow)
        } else {
            KoraError::NotInitialized.unless(self.slash_percentage is Some)
        }
    }

    /// What a verifier loses of its stake with a default.
    pub open spec fn slash(self, verifier: Address) -> int {
        if self.stake(verifier) > 0 {
            crate::validation::bps_share(
                self.stake(verifier) as int,
                self.slash_percentage->0 as int,
            )
        } else {
            0
        }
    }

    /// Whether the product from which the loss is taken can be represented.
    pub open spec fn slash_fits(self, verifier: Address) -> bool {
        self.stake(verifier) > 0 ==> self.stake(verifier) * self.slash_percentage->0 <= u128::MAX
    }

    /// The reputation of a verifier after one more default.
    pub open spec fn reputation_after_default(self, verifier: Address) -> u32 {
        let reputation = if self.reputations.contains_key(verifier) {
            self.reputations[verifier]
        } else {
            INITIAL_REPUTATION
        };
        if reputation < REPUTATION_PENALTY {
            0
        } else {
            (reputation - REPUTATION_PENALTY) as u32
        }
    }

    /// A default is counted against the business, and costs its verifier stake and reputation.
    pub open spec fn default_recorded(self, timestamp: u64, admin: Address, sme: Address) -> Self {
        let profile = self.profiles[sme];
        let verifier = profile.verifier;
        RegistryState {
            profiles: self.profiles.insert(
                sme,
                SmeProfile { defaults: (profile.defaults + 1) as u32, ..profile },
            ),
            stakes: if self.stake(verifier) > 0 {
                self.stakes.insert(verifier, (self.stake(verifier) - self.slash(verifier)) as i128)
            } else {
                self.stakes
            },
            reputations: self.reputations.insert(
                verifier,
                self.reputation_after_default(verifier),
            ),
            ..self
        }.audited(timestamp, admin, AdminActionType::RecordDefault)
    }

    pub open spec fn record_default_effects(
        self,
        timestamp: u64,
        admin: Address,
        sme: Address,
    ) -> Seq<Effect> {
        let profile = self.profiles[sme];
        let verifier = profile.verifier;
        (if self.stake(verifier) > 0 {
            seq![DataKey::VerifierStake(verifier).bump()]
        } else {
            Seq::empty()
        }) + seq![
            DataKey::VerifierReputation(verifier).bump(),
            DataKey::SmeProfile(sme).bump(),
            Effect::Publish(
                Event::SmeDefaultRecorded { admin, sme, defaults: (profile.defaults + 1) as u32 },
            ),
        ] + self.audit_effects(timestamp, admin, AdminActionType::RecordDefault)
    }

    /// Whether a verifier may set the score of a debtor at a time.
    pub open spec fn cooldown_verdict(
        self,
        timestamp: u64,
        verifier: Address,
        hash: [u8; 32],
    ) -> Result<(), KoraError> {
        if !self.score_updates.contains_key((verifier, hash)) {
            Ok(())
        } else {
            let next = self.score_updates[(verifier, hash)] + MIN_SCORE_UPDATE_INTERVAL;
            if next > u64::MAX {
                Err(KoraError::ArithmeticOverflow)
            } else {
                KoraError::ScoreUpdateCooldownNotElapsed.unless(timestamp >= next)
            }
        }
    }

    pub open spec fn set_debtor_score_verdict(
        self,
        timestamp: u64,
        verifier: Address,
        debtor_hash: Seq<u8>,
        score: u32,
    ) -> Result<(), KoraError> {
        if self.verifier_verdict(verifier) is Err {
            self.verifier_verdict(verifier)
        } else if debtor_hash.len() != HASH_LENGTH {
            Err(KoraError::InvalidLength)
        } else if score > MAX_RISK_SCORE {
            Err(KoraError::InvalidRiskScore)
        } else {
            self.cooldown_verdict(timestamp, verifier, crate::validation::hash_from(debtor_hash))
        }
    }

    pub open spec fn debtor_score_set(
        self,
        timestamp: u64,
        verifier: Address,
        hash: [u8; 32],
        score: u32,
    ) -> Self {
        RegistryState {
            debtor_scores: self.debtor_scores.insert(hash, score),
            score_updates: self.score_updates.insert((verifier, hash), timestamp),
            ..self
        }
    }

    pub open spec fn set_debtor_score_effects(
        self,
        verifier: Address,
        hash: [u8; 32],
        score: u32,
    ) -> Seq<Effect> {
        seq![
            DataKey::DebtorScore(hash).bump(),
            DataKey::DebtorScoreLastUpdate(verifier, hash).bump(),
            Effect::Publish(Event::DebtorScoreSet { verifier, debtor_hash: hash, score }),
        ]
    }

    /// The score of a debtor, if one was set.
    pub open spec fn debtor_score(self, debtor_hash: Seq<u8>) -> Result<u32, KoraError> {
        if debtor_hash.len() == HASH_LENGTH && self.debtor_scores.contains_key(
            crate::validation::hash_from(debtor_hash),
        ) {
            Ok(self.debtor_scores[crate::validation::hash_from(debtor_hash)])
        } else {
            Err(KoraError::DebtorNotRegistered)
        }
    }

    /// The profile of a business, if it is registered.
    pub open spec fn sme_profile(self, sme: Address) -> Result<SmeProfile, KoraError> {
        if self.profiles.contains_key(sme) {
            Ok(self.profiles[sme])
        } else {
            Err(KoraError::SMENotRegistered)
        }
    }

    /// What the reading of a profile asks of the host.
    pub open spec fn read_profile_effects(self, sme: Address) -> Seq<Effect> {
        if self.profiles.contains_key(sme) {
            seq![DataKey::SmeProfile(sme).bump()]
        } else {
            Seq::empty()
        }
    }

    /// What the reading of a debtor's score asks of the host.
    pub open spec fn read_score_effects(self, debtor_hash: Seq<u8>) -> Seq<Effect> {
        if self.debtor_score(debtor_hash) is Ok {
            seq![DataKey::DebtorScore(crate::validation::hash_from(debtor_hash)).bump()]
        } else {
            Seq::empty()
        }
    }

    /// Whether a business is registered and verified.
    pub open spec fn is_verified(self, sme: Address) -> bool {
        self.profiles.contains_key(sme) && self.profiles[sme].verified
    }

    /// Whether the compliance of a business has been attested.
    pub open spec fn is_attested(self, sme: Address) -> bool {
        self.profiles.contains_key(sme) && self.profiles[sme].compliance_attested
    }

    /// The reputation of a verifier.
    pub open spec fn reputation(self, verifier: Address) -> u32 {
        if self.reputations.contains_key(verifier) {
            self.reputations[verifier]
        } else {
            0
        }
    }

    pub open spec fn upgrade_proposed(
        self,
        timestamp: u64,
        admin: Address,
        wasm_hash: [u8; 32],
    ) -> Self {
        RegistryState {
            upgrade_proposal: Some(UpgradeProposal { wasm_hash, proposed_at: timestamp }),
            ..self
        }.audited(timestamp, admin, AdminActionType::RegistryProposeUpgrade)
    }

    pub open spec fn propose_upgrade_effects(
        self,
        timestamp: u64,
        admin: Address,
        wasm_hash: [u8; 32],
    ) -> Seq<Effect> {
        seq![Effect::Publish(Event::UpgradeProposed { admin, wasm_hash })] + self.audit_effects(
            timestamp,
            admin,
            AdminActionType::RegistryProposeUpgrade,
        )
    }

    /// A proposed upgrade can be executed once its timelock has run out.
    pub open spec fn execute_upgrade_verdict(
        self,
        timestamp: u64,
        timelock: u64,
        admin: Address,
    ) -> Result<(), KoraError> {
        if self.admin_verdict(admin) is Err {
            self.admin_verdict(admin)
        } else if self.upgrade_proposal is None {
            Err(KoraError::NoUpgradeProposed)
        } else {
            KoraError::UpgradeTimelockNotElapsed.unless(
                timestamp >= self.upgrade_proposal->0.proposed_at + timelock,
            )
        }
    }

    pub open spec fn upgrade_executed(self, timestamp: u64, admin: Address) -> Self {
        RegistryState { upgrade_proposal: None, ..self }.audited(
            timestamp,
            admin,
            AdminActionType::RegistryExecuteUpgrade,
        )
    }

    pub open spec fn execute_upgrade_effects(self, timestamp: u64, admin: Address) -> Seq<Effect> {
        let wasm_hash = self.upgrade_proposal->0.wasm_hash;
        seq![Effect::Publish(Event::UpgradeExecuted { admin, wasm_hash })] + self.audit_effects(
            timestamp,
            admin,
            AdminActionType::RegistryExecuteUpgrade,
        ) + seq![Effect::UpdateWasm(wasm_hash)]
    }
}

} // verus!
