use kora::audit::{AdminActionType, AdminAuditEntry, AuditLog, AuditSource, MAX_AUDIT_LOG_SIZE};
use kora::env::Env;
use kora::errors::KoraError;
use kora::risk_registry::contract::RiskRegistryContract;
use kora::risk_registry::model::{
    DataKey, Effect, Event, MIN_SCORE_UPDATE_INTERVAL, PERSISTENT_TTL_BUMP,
    PERSISTENT_TTL_THRESHOLD,
};
use kora::types::{Address, AddressKind, SmeProfile, UpgradeProposal};

/// The seconds between the proposal of an upgrade and its execution.
const TIMELOCK: u64 = 172_800;

fn address(low: u128) -> Address {
    Address { kind: AddressKind::Account, high: 0, low }
}

fn bump(key: DataKey) -> Effect {
    Effect::ExtendTtl {
        key,
        threshold: PERSISTENT_TTL_THRESHOLD,
        extend_to: PERSISTENT_TTL_BUMP,
    }
}

/// The ledger around a registry, and its client.
struct TestEnv {
    timestamp: u64,
    last_address: u128,
    contract: Address,
    guard: Result<(), KoraError>,
    registry: RiskRegistryContract,
    /// Everything that was asked of the host.
    effects: Vec<Effect>,
}

impl TestEnv {
    fn new() -> TestEnv {
        TestEnv {
            timestamp: 0,
            last_address: 100,
            contract: Address { kind: AddressKind::Contract, high: 0, low: 1 },
            guard: Ok(()),
            registry: RiskRegistryContract::new(),
            effects: Vec::new(),
        }
    }

    fn generate(&mut self) -> Address {
        self.last_address += 1;
        address(self.last_address)
    }

    fn env(&self, auth: Address) -> Env<Effect> {
        Env {
            timestamp: self.timestamp,
            contract: self.contract,
            auths: vec![auth],
            fresh_address: address(999_999),
            guard: self.guard,
            upgrade_timelock: TIMELOCK,
            effects: Vec::new(),
        }
    }

    /// The events that were announced so far.
    fn events(&self) -> usize {
        self.effects.iter().filter(|e| matches!(e, Effect::Publish(_))).count()
    }

    fn initialize(
        &mut self,
        admin: Address,
        invoice_nft: Address,
        staking_token: Address,
        minimum_stake: i128,
        slash_percentage_bps: u32,
    ) -> Result<(), KoraError> {
        let mut env = self.env(admin);
        let result = self.registry.initialize(
            &mut env,
            admin,
            invoice_nft,
            staking_token,
            minimum_stake,
            slash_percentage_bps,
        );
        self.effects.append(&mut env.effects);
        result
    }

    fn transfer_admin(&mut self, admin: Address, new_admin: Address) -> Result<(), KoraError> {
        let mut env = self.env(admin);
        let result = self.registry.transfer_admin(&mut env, admin, new_admin);
        self.effects.append(&mut env.effects);
        result
    }

    fn add_verifier(
        &mut self,
        admin: Address,
        verifier: Address,
        stake: i128,
    ) -> Result<(), KoraError> {
        let mut env = self.env(admin);
        let result = self.registry.add_verifier(&mut env, admin, verifier, stake);
        self.effects.append(&mut env.effects);
        result
    }

    fn remove_verifier(&mut self, admin: Address, verifier: Address) -> Result<(), KoraError> {
        let mut env = self.env(admin);
        let result = self.registry.remove_verifier(&mut env, admin, verifier);
        self.effects.append(&mut env.effects);
        result
    }

    fn register_sme(
        &mut self,
        verifier: Address,
        sme: Address,
        risk_score: u32,
        attested: bool,
    ) -> Result<(), KoraError> {
        let mut env = self.env(verifier);
        let result =
            self.registry.register_sme(&mut env, verifier, sme, risk_score, attested);
        self.effects.append(&mut env.effects);
        result
    }

    fn update_sme_score(
        &mut self,
        verifier: Address,
        sme: Address,
        new_score: u32,
    ) -> Result<(), KoraError> {
        let mut env = self.env(verifier);
        let result = self.registry.update_sme_score(&mut env, verifier, sme, new_score);
        self.effects.append(&mut env.effects);
        result
    }

    fn set_credit_limit(
        &mut self,
        verifier: Address,
        sme: Address,
        credit_limit: i128,
    ) -> Result<(), KoraError> {
        let mut env = self.env(verifier);
        let result = self.registry.set_credit_limit(&mut env, verifier, sme, credit_limit);
        self.effects.append(&mut env.effects);
        result
    }

    fn increment_invoice_count(&mut self, caller: Address, sme: Address) -> Result<(), KoraError> {
        let mut env = self.env(caller);
        let result = self.registry.increment_invoice_count(&mut env, caller, sme);
        self.effects.append(&mut env.effects);
        result
    }

    fn record_default(&mut self, admin: Address, sme: Address) -> Result<(), KoraError> {
        let mut env = self.env(admin);
        let result = self.registry.record_default(&mut env, admin, sme);
        self.effects.append(&mut env.effects);
        result
    }

    fn set_debtor_score(
        &mut self,
        verifier: Address,
        debtor_hash: &[u8],
        score: u32,
    ) -> Result<(), KoraError> {
        let mut env = self.env(verifier);
        let result = self.registry.set_debtor_score(&mut env, verifier, debtor_hash, score);
        self.effects.append(&mut env.effects);
        result
    }

    fn get_sme_profile(&mut self, sme: Address) -> Result<SmeProfile, KoraError> {
        let mut env = self.env(sme);
        self.registry.get_sme_profile(&mut env, sme)
    }

    fn get_debtor_score(&mut self, debtor_hash: &[u8]) -> Result<u32, KoraError> {
        let mut env = self.env(address(1));
        self.registry.get_debtor_score(&mut env, debtor_hash)
    }
}

/// A registry that is set up, with its admin, its invoice contract and its staking token.
fn setup() -> (TestEnv, Address, Address, Address) {
    let mut t = TestEnv::new();
    let admin = t.generate();
    let invoice_nft = t.generate();
    let staking_token = t.generate();
    t.initialize(admin, invoice_nft, staking_token, 1_000_000i128, 5_000u32).unwrap();
    (t, admin, invoice_nft, staking_token)
}

// Setting up

#[test]
fn test_initialize_success() {
    let mut t = TestEnv::new();
    let admin = t.generate();
    let invoice_nft = t.generate();
    let staking_token = t.generate();
    assert!(t.initialize(admin, invoice_nft, staking_token, 1_000_000i128, 5_000u32).is_ok());
}

#[test]
fn test_initialize_already_initialized() {
    let (mut t, admin, invoice_nft, staking_token) = setup();
    assert!(t.initialize(admin, invoice_nft, staking_token, 1_000_000i128, 5_000u32).is_err());
}

#[test]
fn test_transfer_admin_success() {
    let (mut t, admin, _, _) = setup();
    let new_admin = t.generate();
    t.transfer_admin(admin, new_admin).unwrap();
    assert_eq!(t.registry.get_admin().unwrap(), new_admin);
}

#[test]
fn test_transfer_admin_requires_admin() {
    let (mut t, _, _, _) = setup();
    let stranger = t.generate();
    let new_admin = t.generate();
    assert!(t.transfer_admin(stranger, new_admin).is_err());
}

// Verifiers

#[test]
fn test_add_verifier_success() {
    let (mut t, admin, _, _) = setup();
    let verifier = t.generate();
    assert!(t.add_verifier(admin, verifier, 1_000_000i128).is_ok());
    assert!(t.registry.is_verifier(verifier));
}

#[test]
fn test_add_verifier_not_admin() {
    let (mut t, _, _, _) = setup();
    let stranger = t.generate();
    let verifier = t.generate();
    assert!(t.add_verifier(stranger, verifier, 1_000_000i128).is_err());
}

#[test]
fn test_remove_verifier_success() {
    let (mut t, admin, _, _) = setup();
    let verifier = t.generate();
    t.add_verifier(admin, verifier, 1_000_000i128).unwrap();
    assert!(t.registry.is_verifier(verifier));
    assert!(t.remove_verifier(admin, verifier).is_ok());
    assert!(!t.registry.is_verifier(verifier));
}

#[test]
fn test_remove_verifier_not_admin() {
    let (mut t, admin, _, _) = setup();
    let verifier = t.generate();
    let stranger = t.generate();
    t.add_verifier(admin, verifier, 1_000_000i128).unwrap();
    assert!(t.remove_verifier(stranger, verifier).is_err());
}

#[test]
fn test_remove_verifier_not_registered() {
    let (mut t, admin, _, _) = setup();
    let verifier = t.generate();
    assert!(t.remove_verifier(admin, verifier).is_err());
}

#[test]
fn test_multiple_verifiers() {
    let (mut t, admin, _, _) = setup();
    let v1 = t.generate();
    let v2 = t.generate();
    let sme1 = t.generate();
    let sme2 = t.generate();
    t.add_verifier(admin, v1, 1_000_000i128).unwrap();
    t.add_verifier(admin, v2, 1_000_000i128).unwrap();
    t.register_sme(v1, sme1, 30u32, true).unwrap();
    t.register_sme(v2, sme2, 60u32, true).unwrap();
    assert_eq!(t.get_sme_profile(sme1).unwrap().risk_score, 30);
    assert_eq!(t.get_sme_profile(sme2).unwrap().risk_score, 60);
    assert_eq!(t.get_sme_profile(sme1).unwrap().verifier, v1);
    assert_eq!(t.get_sme_profile(sme2).unwrap().verifier, v2);
}

// Registration

#[test]
fn test_register_sme_flow() {
    let (mut t, admin, _, _) = setup();
    let verifier = t.generate();
    let sme = t.generate();
    t.add_verifier(admin, verifier, 1_000_000i128).unwrap();
    t.register_sme(verifier, sme, 35u32, true).unwrap();
    assert!(t.registry.is_verified_sme(sme));
    let profile = t.get_sme_profile(sme).unwrap();
    assert_eq!(profile.risk_score, 35);
    assert_eq!(profile.defaults, 0);
    assert_eq!(profile.total_invoices, 0);
    assert!(profile.verified);
    assert_eq!(profile.verifier, verifier);
    assert!(profile.compliance_attested);
}

#[test]
fn test_register_sme_duplicate_rejected() {
    let (mut t, admin, _, _) = setup();
    let verifier = t.generate();
    let sme = t.generate();
    t.add_verifier(admin, verifier, 1_000_000i128).unwrap();
    t.register_sme(verifier, sme, 35u32, true).unwrap();
    assert!(t.register_sme(verifier, sme, 50u32, true).is_err());
}

#[test]
fn test_register_sme_unverified_verifier() {
    let (mut t, _, _, _) = setup();
    let stranger = t.generate();
    let sme = t.generate();
    assert!(t.register_sme(stranger, sme, 10u32, true).is_err());
}

#[test]
fn test_register_sme_invalid_risk_score() {
    let (mut t, admin, _, _) = setup();
    let verifier = t.generate();
    let sme = t.generate();
    t.add_verifier(admin, verifier, 1_000_000i128).unwrap();
    assert!(t.register_sme(verifier, sme, 101u32, true).is_err());
}

#[test]
fn test_register_sme_preserves_history_on_re_registration_attempt() {
    let (mut t, admin, _, _) = setup();
    let verifier = t.generate();
    let sme = t.generate();
    t.add_verifier(admin, verifier, 1_000_000i128).unwrap();
    t.register_sme(verifier, sme, 35u32, true).unwrap();
    let _ = t.register_sme(verifier, sme, 99u32, true);
    let profile = t.get_sme_profile(sme).unwrap();
    assert_eq!(profile.risk_score, 35);
}

#[test]
fn test_register_sme_compliance_attested_true() {
    let (mut t, admin, _, _) = setup();
    let verifier = t.generate();
    let sme = t.generate();
    t.add_verifier(admin, verifier, 1_000_000i128).unwrap();
    t.register_sme(verifier, sme, 50u32, true).unwrap();
    let profile = t.get_sme_profile(sme).unwrap();
    assert!(profile.compliance_attested);
    assert!(t.registry.is_compliance_attested(sme));
}

#[test]
fn test_register_sme_compliance_attested_false() {
    let (mut t, admin, _, _) = setup();
    let verifier = t.generate();
    let sme = t.generate();
    t.add_verifier(admin, verifier, 1_000_000i128).unwrap();
    t.register_sme(verifier, sme, 50u32, false).unwrap();
    let profile = t.get_sme_profile(sme).unwrap();
    assert!(!profile.compliance_attested);
    assert!(!t.registry.is_compliance_attested(sme));
}

// Scores of businesses

#[test]
fn test_update_sme_score_success() {
    let (mut t, admin, _, _) = setup();
    let verifier = t.generate();
    let sme = t.generate();
    t.add_verifier(admin, verifier, 1_000_000i128).unwrap();
    t.register_sme(verifier, sme, 35u32, true).unwrap();
    t.update_sme_score(verifier, sme, 50u32).unwrap();
    assert_eq!(t.get_sme_profile(sme).unwrap().risk_score, 50);
}

#[test]
fn test_update_sme_score_not_registered() {
    let (mut t, admin, _, _) = setup();
    let verifier = t.generate();
    let sme = t.generate();
    t.add_verifier(admin, verifier, 1_000_000i128).unwrap();
    assert!(t.update_sme_score(verifier, sme, 50u32).is_err());
}

#[test]
fn test_update_sme_score_invalid() {
    let (mut t, admin, _, _) = setup();
    let verifier = t.generate();
    let sme = t.generate();
    t.add_verifier(admin, verifier, 1_000_000i128).unwrap();
    t.register_sme(verifier, sme, 35u32, true).unwrap();
    assert!(t.update_sme_score(verifier, sme, 101u32).is_err());
}

#[test]
fn test_update_sme_score_boundary_values() {
    let (mut t, admin, _, _) = setup();
    let verifier = t.generate();
    let sme = t.generate();
    t.add_verifier(admin, verifier, 1_000_000i128).unwrap();
    t.register_sme(verifier, sme, 50u32, true).unwrap();
    t.update_sme_score(verifier, sme, 0u32).unwrap();
    assert_eq!(t.get_sme_profile(sme).unwrap().risk_score, 0);
    t.update_sme_score(verifier, sme, 100u32).unwrap();
    assert_eq!(t.get_sme_profile(sme).unwrap().risk_score, 100);
}

// Invoices

#[test]
fn test_increment_invoice_count() {
    let (mut t, admin, invoice_nft, _) = setup();
    let verifier = t.generate();
    let sme = t.generate();
    t.add_verifier(admin, verifier, 1_000_000i128).unwrap();
    t.register_sme(verifier, sme, 35u32, true).unwrap();
    assert_eq!(t.get_sme_profile(sme).unwrap().total_invoices, 0);
    t.increment_invoice_count(invoice_nft, sme).unwrap();
    assert_eq!(t.get_sme_profile(sme).unwrap().total_invoices, 1);
}

#[test]
fn test_increment_invoice_count_multiple() {
    let (mut t, admin, invoice_nft, _) = setup();
    let verifier = t.generate();
    let sme = t.generate();
    t.add_verifier(admin, verifier, 1_000_000i128).unwrap();
    t.register_sme(verifier, sme, 35u32, true).unwrap();
    for i in 1u32..=5 {
        t.increment_invoice_count(invoice_nft, sme).unwrap();
        assert_eq!(t.get_sme_profile(sme).unwrap().total_invoices, i);
    }
}

#[test]
fn test_increment_invoice_count_unauthorized_caller() {
    let (mut t, admin, _, _) = setup();
    let verifier = t.generate();
    let sme = t.generate();
    let stranger = t.generate();
    t.add_verifier(admin, verifier, 1_000_000i128).unwrap();
    t.register_sme(verifier, sme, 35u32, true).unwrap();
    assert!(t.increment_invoice_count(stranger, sme).is_err());
}

#[test]
fn test_increment_invoice_count_sme_not_registered() {
    let (mut t, _, invoice_nft, _) = setup();
    let sme = t.generate();
    assert!(t.increment_invoice_count(invoice_nft, sme).is_err());
}

// Defaults

#[test]
fn test_record_default() {
    let (mut t, admin, _, _) = setup();
    let verifier = t.generate();
    let sme = t.generate();
    t.add_verifier(admin, verifier, 1_000_000i128).unwrap();
    t.register_sme(verifier, sme, 35u32, true).unwrap();
    assert_eq!(t.get_sme_profile(sme).unwrap().defaults, 0);
    t.record_default(admin, sme).unwrap();
    assert_eq!(t.get_sme_profile(sme).unwrap().defaults, 1);
}

#[test]
fn test_record_default_not_admin() {
    let (mut t, admin, _, _) = setup();
    let verifier = t.generate();
    let sme = t.generate();
    let stranger = t.generate();
    t.add_verifier(admin, verifier, 1_000_000i128).unwrap();
    t.register_sme(verifier, sme, 35u32, true).unwrap();
    assert!(t.record_default(stranger, sme).is_err());
}

#[test]
fn test_record_default_sme_not_registered() {
    let (mut t, admin, _, _) = setup();
    let sme = t.generate();
    assert!(t.record_default(admin, sme).is_err());
}

#[test]
fn test_record_multiple_defaults() {
    let (mut t, admin, _, _) = setup();
    let verifier = t.generate();
    let sme = t.generate();
    t.add_verifier(admin, verifier, 1_000_000i128).unwrap();
    t.register_sme(verifier, sme, 35u32, true).unwrap();
    t.record_default(admin, sme).unwrap();
    t.record_default(admin, sme).unwrap();
    t.record_default(admin, sme).unwrap();
    assert_eq!(t.get_sme_profile(sme).unwrap().defaults, 3);
}

// Scores of debtors

#[test]
fn test_set_debtor_score() {
    let (mut t, admin, _, _) = setup();
    let verifier = t.generate();
    let debtor_hash = [0xABu8; 32];
    t.add_verifier(admin, verifier, 1_000_000i128).unwrap();
    t.set_debtor_score(verifier, &debtor_hash, 45u32).unwrap();
    assert_eq!(t.get_debtor_score(&debtor_hash).unwrap(), 45u32);
}

#[test]
fn test_set_debtor_score_invalid_score() {
    let (mut t, admin, _, _) = setup();
    let verifier = t.generate();
    let debtor_hash = [0xABu8; 32];
    t.add_verifier(admin, verifier, 1_000_000i128).unwrap();
    assert!(t.set_debtor_score(verifier, &debtor_hash, 101u32).is_err());
}

#[test]
fn test_set_debtor_score_empty_hash() {
    let (mut t, admin, _, _) = setup();
    let verifier = t.generate();
    let empty_hash: [u8; 0] = [];
    t.add_verifier(admin, verifier, 1_000_000i128).unwrap();
    assert!(t.set_debtor_score(verifier, &empty_hash, 50u32).is_err());
}

#[test]
fn test_set_debtor_score_exact_32_bytes_accepted() {
    let (mut t, admin, _, _) = setup();
    let verifier = t.generate();
    let hash = [0xABu8; 32];
    t.add_verifier(admin, verifier, 1_000_000i128).unwrap();
    assert!(t.set_debtor_score(verifier, &hash, 50u32).is_ok());
}

#[test]
fn test_set_debtor_score_31_bytes_rejected() {
    let (mut t, admin, _, _) = setup();
    let verifier = t.generate();
    let hash = [0xABu8; 31];
    t.add_verifier(admin, verifier, 1_000_000i128).unwrap();
    let result = t.set_debtor_score(verifier, &hash, 50u32);
    assert_eq!(result.unwrap_err(), KoraError::InvalidLength);
}

#[test]
fn test_set_debtor_score_33_bytes_rejected() {
    let (mut t, admin, _, _) = setup();
    let verifier = t.generate();
    let hash = [0xABu8; 33];
    t.add_verifier(admin, verifier, 1_000_000i128).unwrap();
    let result = t.set_debtor_score(verifier, &hash, 50u32);
    assert_eq!(result.unwrap_err(), KoraError::InvalidLength);
}

#[test]
fn test_set_debtor_score_not_verifier() {
    let (mut t, _, _, _) = setup();
    let stranger = t.generate();
    let debtor_hash = [0xABu8; 32];
    assert!(t.set_debtor_score(stranger, &debtor_hash, 50u32).is_err());
}

#[test]
fn test_get_debtor_score_not_found() {
    let (mut t, _, _, _) = setup();
    let debtor_hash = [0xCDu8; 32];
    assert!(t.get_debtor_score(&debtor_hash).is_err());
}

#[test]
fn test_debtor_score_boundary_values() {
    let (mut t, admin, _, _) = setup();
    let verifier = t.generate();
    t.add_verifier(admin, verifier, 1_000_000i128).unwrap();
    let hash0 = [0x01u8; 32];
    t.set_debtor_score(verifier, &hash0, 0u32).unwrap();
    assert_eq!(t.get_debtor_score(&hash0).unwrap(), 0u32);
    let hash100 = [0x02u8; 32];
    t.set_debtor_score(verifier, &hash100, 100u32).unwrap();
    assert_eq!(t.get_debtor_score(&hash100).unwrap(), 100u32);
    let hash_invalid = [0x03u8; 32];
    assert!(t.set_debtor_score(verifier, &hash_invalid, 101u32).is_err());
}

// Reading

#[test]
fn test_get_sme_profile_not_found() {
    let (mut t, _, _, _) = setup();
    let sme = t.generate();
    assert!(t.get_sme_profile(sme).is_err());
}

#[test]
fn test_is_verified_sme_false_for_unregistered() {
    let (mut t, _, _, _) = setup();
    let sme = t.generate();
    assert!(!t.registry.is_verified_sme(sme));
}

#[test]
fn test_risk_score_boundary_values() {
    let (mut t, admin, _, _) = setup();
    let verifier = t.generate();
    t.add_verifier(admin, verifier, 1_000_000i128).unwrap();
    let sme0 = t.generate();
    t.register_sme(verifier, sme0, 0u32, true).unwrap();
    assert_eq!(t.get_sme_profile(sme0).unwrap().risk_score, 0);
    let sme100 = t.generate();
    t.register_sme(verifier, sme100, 100u32, true).unwrap();
    assert_eq!(t.get_sme_profile(sme100).unwrap().risk_score, 100);
    let sme_invalid = t.generate();
    assert!(t.register_sme(verifier, sme_invalid, 101u32, true).is_err());
}

// Events

#[test]
fn test_add_verifier_emits_event() {
    let (mut t, admin, _, _) = setup();
    let verifier = t.generate();
    t.add_verifier(admin, verifier, 1_000_000i128).unwrap();
    assert!(t.events() != 0);
    assert!(t.effects.contains(&Effect::Publish(Event::VerifierAdded { admin, verifier })));
}

#[test]
fn test_remove_verifier_emits_event() {
    let (mut t, admin, _, _) = setup();
    let verifier = t.generate();
    t.add_verifier(admin, verifier, 1_000_000i128).unwrap();
    let events_before = t.events();
    t.remove_verifier(admin, verifier).unwrap();
    assert!(t.events() > events_before);
}

#[test]
fn test_register_sme_emits_event() {
    let (mut t, admin, _, _) = setup();
    let verifier = t.generate();
    let sme = t.generate();
    t.add_verifier(admin, verifier, 1_000_000i128).unwrap();
    let events_before = t.events();
    t.register_sme(verifier, sme, 42u32, true).unwrap();
    assert!(t.events() > events_before);
}

#[test]
fn test_increment_invoice_count_emits_event() {
    let (mut t, admin, invoice_nft, _) = setup();
    let verifier = t.generate();
    let sme = t.generate();
    t.add_verifier(admin, verifier, 1_000_000i128).unwrap();
    t.register_sme(verifier, sme, 35u32, true).unwrap();
    let events_before = t.events();
    t.increment_invoice_count(invoice_nft, sme).unwrap();
    assert!(t.events() > events_before);
    assert_eq!(t.get_sme_profile(sme).unwrap().total_invoices, 1);
}

#[test]
fn test_failed_operations_do_not_emit_events() {
    let (mut t, _, _, _) = setup();
    let stranger = t.generate();
    let verifier = t.generate();
    let events_before = t.events();
    let _ = t.add_verifier(stranger, verifier, 1_000_000i128);
    let _ = t.register_sme(stranger, verifier, 50u32, true);
    let _ = t.record_default(stranger, verifier);
    assert_eq!(t.events(), events_before);
}

#[test]
fn test_sme_default_event_carries_cumulative_count() {
    let (mut t, admin, _, _) = setup();
    let verifier = t.generate();
    let sme = t.generate();
    t.add_verifier(admin, verifier, 1_000_000i128).unwrap();
    t.register_sme(verifier, sme, 80u32, true).unwrap();
    t.record_default(admin, sme).unwrap();
    assert_eq!(t.get_sme_profile(sme).unwrap().defaults, 1);
    t.record_default(admin, sme).unwrap();
    assert_eq!(t.get_sme_profile(sme).unwrap().defaults, 2);
    t.record_default(admin, sme).unwrap();
    assert_eq!(t.get_sme_profile(sme).unwrap().defaults, 3);
    for defaults in 1..=3 {
        assert!(t
            .effects
            .contains(&Effect::Publish(Event::SmeDefaultRecorded { admin, sme, defaults })));
    }
}

#[test]
fn test_initialize_self_as_admin_rejected() {
    let mut t = TestEnv::new();
    let contract_id = t.contract;
    let invoice_nft = t.generate();
    let staking_token = t.generate();
    let result = t.initialize(contract_id, invoice_nft, staking_token, 1_000_000i128, 5_000u32);
    assert!(result.is_err());
}

#[test]
fn test_add_verifier_self_as_verifier_rejected() {
    let (mut t, admin, _, _) = setup();
    let contract_id = t.contract;
    let result = t.add_verifier(admin, contract_id, 1_000_000i128);
    assert!(result.is_err());
}

#[test]
fn test_transfer_admin_to_same_address_allowed() {
    let (mut t, admin, _, _) = setup();
    assert!(t.transfer_admin(admin, admin).is_ok());
    assert_eq!(t.registry.get_admin().unwrap(), admin);
}

#[test]
fn test_update_sme_score_to_zero() {
    let (mut t, admin, _, _) = setup();
    let verifier = t.generate();
    let sme = t.generate();
    t.add_verifier(admin, verifier, 1_000_000i128).unwrap();
    t.register_sme(verifier, sme, 50u32, true).unwrap();
    t.update_sme_score(verifier, sme, 0u32).unwrap();
    assert_eq!(t.get_sme_profile(sme).unwrap().risk_score, 0);
}

#[test]
fn test_set_debtor_score_update_existing() {
    let (mut t, admin, _, _) = setup();
    let verifier = t.generate();
    let debtor_hash = [0xAAu8; 32];
    t.add_verifier(admin, verifier, 1_000_000i128).unwrap();
    t.set_debtor_score(verifier, &debtor_hash, 30u32).unwrap();
    assert_eq!(t.get_debtor_score(&debtor_hash).unwrap(), 30);
    t.timestamp = MIN_SCORE_UPDATE_INTERVAL;
    t.set_debtor_score(verifier, &debtor_hash, 75u32).unwrap();
    assert_eq!(t.get_debtor_score(&debtor_hash).unwrap(), 75);
}

#[test]
fn test_verifier_cannot_register_itself_as_sme() {
    // Nothing keeps a verifier from registering itself.
    let (mut t, admin, _, _) = setup();
    let verifier = t.generate();
    t.add_verifier(admin, verifier, 1_000_000i128).unwrap();
    assert!(t.register_sme(verifier, verifier, 40u32, true).is_ok());
    assert_eq!(t.get_sme_profile(verifier).unwrap().verifier, verifier);
}

#[test]
fn test_remove_verifier_does_not_affect_sme_profile() {
    let (mut t, admin, _, _) = setup();
    let verifier = t.generate();
    let sme = t.generate();
    t.add_verifier(admin, verifier, 1_000_000i128).unwrap();
    t.register_sme(verifier, sme, 40u32, true).unwrap();
    t.remove_verifier(admin, verifier).unwrap();
    assert_eq!(t.get_sme_profile(sme).unwrap().risk_score, 40);
    assert!(t.update_sme_score(verifier, sme, 60u32).is_err());
}

#[test]
fn test_register_sme_score_zero() {
    let (mut t, admin, _, _) = setup();
    let verifier = t.generate();
    let sme = t.generate();
    t.add_verifier(admin, verifier, 1_000_000i128).unwrap();
    assert!(t.register_sme(verifier, sme, 0u32, true).is_ok());
    assert_eq!(t.get_sme_profile(sme).unwrap().risk_score, 0);
}

#[test]
fn test_get_admin_before_initialization_fails() {
    let t = TestEnv::new();
    assert!(t.registry.get_admin().is_err());
}

#[test]
fn test_set_debtor_score_first_call_always_succeeds() {
    let (mut t, admin, _, _) = setup();
    let verifier = t.generate();
    let debtor_hash = [0xBBu8; 32];
    t.add_verifier(admin, verifier, 1_000_000i128).unwrap();
    assert!(t.set_debtor_score(verifier, &debtor_hash, 40u32).is_ok());
}

#[test]
fn test_set_debtor_score_cooldown_blocks_immediate_second_update() {
    let (mut t, admin, _, _) = setup();
    let verifier = t.generate();
    let debtor_hash = [0xCCu8; 32];
    t.add_verifier(admin, verifier, 1_000_000i128).unwrap();
    t.set_debtor_score(verifier, &debtor_hash, 40u32).unwrap();
    t.timestamp = MIN_SCORE_UPDATE_INTERVAL - 1;
    let err = t.set_debtor_score(verifier, &debtor_hash, 60u32).unwrap_err();
    assert_eq!(err, KoraError::ScoreUpdateCooldownNotElapsed);
}

#[test]
fn test_set_debtor_score_cooldown_allows_update_at_exact_boundary() {
    let (mut t, admin, _, _) = setup();
    let verifier = t.generate();
    let debtor_hash = [0xDDu8; 32];
    t.add_verifier(admin, verifier, 1_000_000i128).unwrap();
    t.set_debtor_score(verifier, &debtor_hash, 40u32).unwrap();
    t.timestamp = MIN_SCORE_UPDATE_INTERVAL;
    assert!(t.set_debtor_score(verifier, &debtor_hash, 55u32).is_ok());
    assert_eq!(t.get_debtor_score(&debtor_hash).unwrap(), 55);
}

#[test]
fn test_set_debtor_score_cooldown_is_per_verifier() {
    let (mut t, admin, _, _) = setup();
    let verifier_a = t.generate();
    let verifier_b = t.generate();
    let debtor_hash = [0xEEu8; 32];
    t.add_verifier(admin, verifier_a, 1_000_000i128).unwrap();
    t.add_verifier(admin, verifier_b, 1_000_000i128).unwrap();
    t.set_debtor_score(verifier_a, &debtor_hash, 40u32).unwrap();
    assert!(t.set_debtor_score(verifier_b, &debtor_hash, 55u32).is_ok());
}

// Refusals, each with its reason

#[test]
fn nothing_can_be_done_before_the_registry_is_set_up() {
    let mut t = TestEnv::new();
    let (admin, other) = (t.generate(), t.generate());
    assert_eq!(t.registry.get_admin(), Err(KoraError::NotInitialized));
    assert_eq!(t.transfer_admin(admin, other), Err(KoraError::NotInitialized));
    assert_eq!(t.add_verifier(admin, other, 1), Err(KoraError::NotInitialized));
    assert_eq!(t.remove_verifier(admin, other), Err(KoraError::NotInitialized));
    assert_eq!(t.record_default(admin, other), Err(KoraError::NotInitialized));
    assert_eq!(t.increment_invoice_count(admin, other), Err(KoraError::NotInitialized));
    assert_eq!(t.register_sme(admin, other, 1, true), Err(KoraError::NotVerifier));
    assert!(t.effects.is_empty());
}

#[test]
fn setting_up_is_refused_with_a_reason() {
    let (mut t, admin, invoice_nft, token) = setup();
    assert_eq!(
        t.effects,
        vec![
            bump(DataKey::Admin),
            Effect::Publish(Event::RegistryInitialized { admin, invoice_nft }),
        ]
    );
    assert_eq!(
        t.initialize(admin, invoice_nft, token, 0, 0),
        Err(KoraError::AlreadyInitialized)
    );
    let mut fresh = TestEnv::new();
    let contract = fresh.contract;
    assert_eq!(
        fresh.initialize(contract, invoice_nft, token, 0, 0),
        Err(KoraError::InvalidAddress)
    );
    assert_eq!(fresh.registry.admin, None);
}

#[test]
fn verifiers_are_refused_with_a_reason() {
    let (mut t, admin, _, _) = setup();
    let (stranger, verifier) = (t.generate(), t.generate());
    let contract = t.contract;
    assert_eq!(t.add_verifier(stranger, verifier, 1_000_000), Err(KoraError::NotAdmin));
    assert_eq!(t.add_verifier(admin, contract, 1_000_000), Err(KoraError::InvalidAddress));
    assert_eq!(t.add_verifier(admin, verifier, 999_999), Err(KoraError::InsufficientFunds));
    assert_eq!(t.remove_verifier(stranger, verifier), Err(KoraError::NotAdmin));
    assert_eq!(t.remove_verifier(admin, verifier), Err(KoraError::NotVerifier));
    assert!(!t.registry.is_verifier(verifier));
    assert_eq!(t.registry.get_verifier_stake(verifier), 0);
    assert_eq!(t.registry.get_verifier_reputation(verifier), 0);

    t.registry.minimum_stake = None;
    assert_eq!(t.add_verifier(admin, verifier, 1_000_000), Err(KoraError::NotInitialized));
    t.registry.minimum_stake = Some(1);
    t.registry.staking_token = None;
    assert_eq!(t.add_verifier(admin, verifier, 1_000_000), Err(KoraError::NotInitialized));
}

#[test]
fn assessments_are_refused_with_a_reason() {
    let (mut t, admin, invoice_nft, _) = setup();
    let (stranger, verifier, sme) = (t.generate(), t.generate(), t.generate());
    t.add_verifier(admin, verifier, 1_000_000).unwrap();
    assert_eq!(t.register_sme(stranger, sme, 1, true), Err(KoraError::NotVerifier));
    assert_eq!(t.register_sme(verifier, sme, 101, true), Err(KoraError::InvalidRiskScore));
    assert_eq!(t.update_sme_score(verifier, sme, 1), Err(KoraError::SMENotRegistered));
    assert_eq!(t.set_credit_limit(verifier, sme, 1), Err(KoraError::SMENotRegistered));
    assert_eq!(t.get_sme_profile(sme), Err(KoraError::SMENotRegistered));
    assert_eq!(t.record_default(admin, sme), Err(KoraError::SMENotRegistered));
    assert_eq!(t.increment_invoice_count(invoice_nft, sme), Err(KoraError::SMENotRegistered));
    t.register_sme(verifier, sme, 1, true).unwrap();
    assert_eq!(t.register_sme(verifier, sme, 2, true), Err(KoraError::AlreadyInitialized));
    assert_eq!(t.update_sme_score(stranger, sme, 1), Err(KoraError::NotVerifier));
    assert_eq!(t.update_sme_score(verifier, sme, 101), Err(KoraError::InvalidRiskScore));
    assert_eq!(t.set_credit_limit(stranger, sme, 1), Err(KoraError::NotVerifier));
    assert_eq!(t.set_credit_limit(verifier, sme, -1), Err(KoraError::InvalidAmount));
    assert_eq!(t.increment_invoice_count(stranger, sme), Err(KoraError::Unauthorized));
    assert_eq!(t.record_default(stranger, sme), Err(KoraError::NotAdmin));
    assert_eq!(t.transfer_admin(stranger, stranger), Err(KoraError::NotAdmin));
    let hash = [7u8; 32];
    assert_eq!(t.set_debtor_score(stranger, &hash, 1), Err(KoraError::NotVerifier));
    assert_eq!(t.set_debtor_score(verifier, &hash, 101), Err(KoraError::InvalidRiskScore));
    assert_eq!(t.set_debtor_score(verifier, &[], 101), Err(KoraError::InvalidLength));
    assert_eq!(t.get_debtor_score(&hash), Err(KoraError::DebtorNotRegistered));
    assert_eq!(t.get_debtor_score(&[7u8; 31]), Err(KoraError::DebtorNotRegistered));
    assert_eq!(t.get_sme_profile(sme).unwrap().risk_score, 1);
}

#[test]
fn a_taken_guard_stops_score_updates_and_defaults() {
    let (mut t, admin, _, _) = setup();
    let (verifier, sme) = (t.generate(), t.generate());
    t.add_verifier(admin, verifier, 1_000_000).unwrap();
    t.register_sme(verifier, sme, 1, true).unwrap();
    t.guard = Err(KoraError::Protocol(12));
    assert_eq!(t.update_sme_score(verifier, sme, 2), Err(KoraError::Protocol(12)));
    assert_eq!(t.record_default(admin, sme), Err(KoraError::Protocol(12)));
    let profile = t.get_sme_profile(sme).unwrap();
    assert_eq!((profile.risk_score, profile.defaults), (1, 0));
}

#[test]
fn counts_do_not_overflow() {
    let (mut t, admin, invoice_nft, _) = setup();
    let (verifier, sme) = (t.generate(), t.generate());
    t.add_verifier(admin, verifier, 1_000_000).unwrap();
    t.register_sme(verifier, sme, 1, true).unwrap();
    let mut profile = t.registry.profiles.get(&sme).unwrap();
    profile.total_invoices = u32::MAX;
    profile.defaults = u32::MAX;
    t.registry.profiles.set(sme, profile);
    assert_eq!(t.increment_invoice_count(invoice_nft, sme), Err(KoraError::ArithmeticOverflow));
    assert_eq!(t.record_default(admin, sme), Err(KoraError::ArithmeticOverflow));
    assert_eq!(t.get_sme_profile(sme), Ok(profile));

    let hash = [3u8; 32];
    t.registry.score_updates.set((verifier, hash), u64::MAX);
    assert_eq!(t.set_debtor_score(verifier, &hash, 1), Err(KoraError::ArithmeticOverflow));
}

#[test]
fn a_default_needs_a_set_loss() {
    let (mut t, admin, _, _) = setup();
    let (verifier, sme) = (t.generate(), t.generate());
    t.add_verifier(admin, verifier, 1_000_000).unwrap();
    t.register_sme(verifier, sme, 1, true).unwrap();
    t.registry.slash_percentage = None;
    assert_eq!(t.record_default(admin, sme), Err(KoraError::NotInitialized));
}

// What calls do and ask for

#[test]
fn a_verifier_stakes_and_gets_its_stake_back() {
    let (mut t, admin, _, token) = setup();
    let verifier = t.generate();
    let contract = t.contract;
    t.timestamp = 42;
    t.effects.clear();
    t.add_verifier(admin, verifier, 1_500_000).unwrap();
    let added = AdminAuditEntry {
        sequence: 0,
        timestamp: 42,
        actor: admin,
        action: AdminActionType::AddVerifier,
        source: AuditSource::RiskRegistry,
    };
    assert_eq!(
        t.effects,
        vec![
            Effect::Transfer { token, from: verifier, to: contract, amount: 1_500_000 },
            bump(DataKey::Verifier(verifier)),
            bump(DataKey::VerifierStake(verifier)),
            bump(DataKey::VerifierReputation(verifier)),
            Effect::Publish(Event::VerifierAdded { admin, verifier }),
            bump(DataKey::AuditEntry(0)),
            Effect::Publish(Event::AdminActionAudited(added)),
        ]
    );
    assert_eq!(t.registry.get_verifier_stake(verifier), 1_500_000);
    assert_eq!(t.registry.get_verifier_reputation(verifier), 100);

    t.effects.clear();
    t.remove_verifier(admin, verifier).unwrap();
    let removed =
        AdminAuditEntry { sequence: 1, action: AdminActionType::RemoveVerifier, ..added };
    assert_eq!(
        t.effects,
        vec![
            Effect::Transfer { token, from: contract, to: verifier, amount: 1_500_000 },
            Effect::Publish(Event::VerifierRemoved { admin, verifier }),
            bump(DataKey::AuditEntry(1)),
            Effect::Publish(Event::AdminActionAudited(removed)),
        ]
    );
    assert_eq!(t.registry.get_verifier_stake(verifier), 0);
    assert_eq!(t.registry.get_verifier_reputation(verifier), 0);
    assert_eq!(t.registry.get_audit_log(0, 50), vec![removed, added]);
}

#[test]
fn a_verifier_without_stake_is_removed_without_a_payment() {
    let (mut t, admin, _, _) = setup();
    let verifier = t.generate();
    t.add_verifier(admin, verifier, 1_000_000).unwrap();
    t.registry.stakes.set(verifier, 0);
    t.registry.staking_token = None;
    t.effects.clear();
    t.remove_verifier(admin, verifier).unwrap();
    assert!(!t.effects.iter().any(|e| matches!(e, Effect::Transfer { .. })));

    t.registry.verifiers.set(verifier, true);
    t.registry.stakes.set(verifier, 1);
    assert_eq!(t.remove_verifier(admin, verifier), Err(KoraError::NotInitialized));
    assert!(t.registry.is_verifier(verifier));
}

#[test]
fn a_default_costs_stake_and_reputation() {
    let (mut t, admin, _, _) = setup();
    let (verifier, other, sme) = (t.generate(), t.generate(), t.generate());
    t.add_verifier(admin, verifier, 1_000_001).unwrap();
    t.add_verifier(admin, other, 1_000_000).unwrap();
    t.register_sme(verifier, sme, 35, true).unwrap();
    t.effects.clear();
    t.record_default(admin, sme).unwrap();
    // Half of the stake, rounded down, is lost.
    assert_eq!(t.registry.get_verifier_stake(verifier), 500_001);
    assert_eq!(t.registry.get_verifier_reputation(verifier), 90);
    assert_eq!(t.registry.get_verifier_stake(other), 1_000_000);
    assert_eq!(t.registry.get_verifier_reputation(other), 100);
    assert_eq!(
        t.effects[..4],
        [
            bump(DataKey::VerifierStake(verifier)),
            bump(DataKey::VerifierReputation(verifier)),
            bump(DataKey::SmeProfile(sme)),
            Effect::Publish(Event::SmeDefaultRecorded { admin, sme, defaults: 1 }),
        ]
    );
    for _ in 0..10 {
        t.record_default(admin, sme).unwrap();
    }
    assert_eq!(t.registry.get_verifier_reputation(verifier), 0);
    assert_eq!(t.get_sme_profile(sme).unwrap().defaults, 11);
    assert_eq!(t.registry.get_verifier_stake(verifier), 489);
}

#[test]
fn a_default_counts_after_the_verifier_has_gone() {
    let (mut t, admin, _, _) = setup();
    let (verifier, sme) = (t.generate(), t.generate());
    t.add_verifier(admin, verifier, 1_000_000).unwrap();
    t.register_sme(verifier, sme, 35, true).unwrap();
    t.remove_verifier(admin, verifier).unwrap();
    t.effects.clear();
    t.record_default(admin, sme).unwrap();
    assert_eq!(t.registry.get_verifier_stake(verifier), 0);
    assert_eq!(t.registry.get_verifier_reputation(verifier), 90);
    assert_eq!(t.effects[0], bump(DataKey::VerifierReputation(verifier)));
    assert!(!t.registry.is_verifier(verifier));
}

#[test]
fn a_profile_reads_back_whole() {
    let (mut t, admin, invoice_nft, _) = setup();
    let (verifier, sme) = (t.generate(), t.generate());
    t.add_verifier(admin, verifier, 1_000_000).unwrap();
    t.timestamp = 77;
    t.effects.clear();
    t.register_sme(verifier, sme, 35, false).unwrap();
    t.update_sme_score(verifier, sme, 36).unwrap();
    t.set_credit_limit(verifier, sme, 5_000).unwrap();
    t.increment_invoice_count(invoice_nft, sme).unwrap();
    assert_eq!(
        t.effects,
        vec![
            bump(DataKey::SmeProfile(sme)),
            Effect::Publish(Event::SmeRegistered { verifier, sme, risk_score: 35 }),
            bump(DataKey::SmeProfile(sme)),
            Effect::Publish(Event::SmeScoreUpdated { verifier, sme, new_score: 36 }),
            bump(DataKey::SmeProfile(sme)),
            Effect::Publish(Event::SmeCreditLimitSet { verifier, sme, credit_limit: 5_000 }),
            bump(DataKey::SmeProfile(sme)),
            Effect::Publish(Event::SmeInvoiceCountIncremented { sme, total_invoices: 1 }),
        ]
    );
    let mut env = t.env(sme);
    assert_eq!(
        t.registry.get_sme_profile(&mut env, sme),
        Ok(SmeProfile {
            address: sme,
            verified: true,
            verifier,
            risk_score: 36,
            total_invoices: 1,
            defaults: 0,
            registered_at: 77,
            compliance_attested: false,
            credit_limit: 5_000,
        })
    );
    assert_eq!(env.effects, vec![bump(DataKey::SmeProfile(sme))]);
    t.set_credit_limit(verifier, sme, 0).unwrap();
    assert_eq!(t.get_sme_profile(sme).unwrap().credit_limit, 0);
}

#[test]
fn debtors_are_told_apart_by_every_byte() {
    let (mut t, admin, _, _) = setup();
    let verifier = t.generate();
    t.add_verifier(admin, verifier, 1_000_000).unwrap();
    let first = [1u8; 32];
    let mut second = first;
    second[31] = 2;
    t.effects.clear();
    t.timestamp = 10;
    t.set_debtor_score(verifier, &first, 10).unwrap();
    assert_eq!(
        t.effects,
        vec![
            bump(DataKey::DebtorScore(first)),
            bump(DataKey::DebtorScoreLastUpdate(verifier, first)),
            Effect::Publish(Event::DebtorScoreSet { verifier, debtor_hash: first, score: 10 }),
        ]
    );
    assert_eq!(t.get_debtor_score(&second), Err(KoraError::DebtorNotRegistered));
    // The wait is for one debtor only.
    t.set_debtor_score(verifier, &second, 20).unwrap();
    assert_eq!(
        t.set_debtor_score(verifier, &first, 30),
        Err(KoraError::ScoreUpdateCooldownNotElapsed)
    );
    assert_eq!(t.get_debtor_score(&first), Ok(10));
    assert_eq!(t.get_debtor_score(&second), Ok(20));
    let mut env = t.env(verifier);
    assert_eq!(t.registry.get_debtor_score(&mut env, &first), Ok(10));
    assert_eq!(env.effects, vec![bump(DataKey::DebtorScore(first))]);
}

#[test]
fn the_admin_role_is_handed_over_whole() {
    let (mut t, admin, _, _) = setup();
    let (new_admin, verifier) = (t.generate(), t.generate());
    t.effects.clear();
    t.transfer_admin(admin, new_admin).unwrap();
    assert_eq!(
        t.effects[..2],
        [
            bump(DataKey::Admin),
            Effect::Publish(Event::AdminTransferred { admin, new_admin }),
        ]
    );
    assert_eq!(t.add_verifier(admin, verifier, 1_000_000), Err(KoraError::NotAdmin));
    assert_eq!(t.add_verifier(new_admin, verifier, 1_000_000), Ok(()));
}

#[test]
fn registry_upgrades_wait_for_their_timelock() {
    let (mut t, admin, _, _) = setup();
    let hash = [4u8; 32];
    let stranger = t.generate();
    let mut env = t.env(stranger);
    assert_eq!(t.registry.propose_upgrade(&mut env, stranger, hash), Err(KoraError::NotAdmin));
    assert_eq!(t.registry.execute_upgrade(&mut env, stranger), Err(KoraError::NotAdmin));
    let mut env = t.env(admin);
    assert_eq!(t.registry.execute_upgrade(&mut env, admin), Err(KoraError::NoUpgradeProposed));
    t.registry.propose_upgrade(&mut env, admin, hash).unwrap();
    let proposed = AdminAuditEntry {
        sequence: 0,
        timestamp: 0,
        actor: admin,
        action: AdminActionType::RegistryProposeUpgrade,
        source: AuditSource::RiskRegistry,
    };
    assert_eq!(
        env.effects,
        vec![
            Effect::Publish(Event::UpgradeProposed { admin, wasm_hash: hash }),
            bump(DataKey::AuditEntry(0)),
            Effect::Publish(Event::AdminActionAudited(proposed)),
        ]
    );
    assert_eq!(
        t.registry.upgrade_proposal,
        Some(UpgradeProposal { wasm_hash: hash, proposed_at: 0 })
    );
    t.timestamp = TIMELOCK - 1;
    let mut env = t.env(admin);
    assert_eq!(
        t.registry.execute_upgrade(&mut env, admin),
        Err(KoraError::UpgradeTimelockNotElapsed)
    );
    t.timestamp = TIMELOCK;
    let mut env = t.env(admin);
    assert_eq!(t.registry.execute_upgrade(&mut env, admin), Ok(()));
    let executed = AdminAuditEntry {
        sequence: 1,
        timestamp: TIMELOCK,
        action: AdminActionType::RegistryExecuteUpgrade,
        ..proposed
    };
    assert_eq!(
        env.effects,
        vec![
            Effect::Publish(Event::UpgradeExecuted { admin, wasm_hash: hash }),
            bump(DataKey::AuditEntry(1)),
            Effect::Publish(Event::AdminActionAudited(executed)),
            Effect::UpdateWasm(hash),
        ]
    );
    assert_eq!(t.registry.execute_upgrade(&mut env, admin), Err(KoraError::NoUpgradeProposed));
}

// The audit log

#[test]
fn only_admin_actions_are_audited() {
    let (mut t, admin, invoice_nft, _) = setup();
    let (verifier, sme) = (t.generate(), t.generate());
    assert!(t.registry.get_audit_log(0, 50).is_empty());
    t.add_verifier(admin, verifier, 1_000_000).unwrap();
    t.register_sme(verifier, sme, 1, true).unwrap();
    t.update_sme_score(verifier, sme, 2).unwrap();
    t.increment_invoice_count(invoice_nft, sme).unwrap();
    t.set_debtor_score(verifier, &[0u8; 32], 1).unwrap();
    assert_eq!(t.record_default(sme, sme), Err(KoraError::NotAdmin));
    t.record_default(admin, sme).unwrap();
    t.transfer_admin(admin, admin).unwrap();
    let log = t.registry.get_audit_log(0, 50);
    let actions: Vec<AdminActionType> = log.iter().map(|e| e.action).collect();
    assert_eq!(
        actions,
        vec![
            AdminActionType::RegistryTransferAdmin,
            AdminActionType::RecordDefault,
            AdminActionType::AddVerifier,
        ]
    );
    let numbers: Vec<u64> = log.iter().map(|e| e.sequence).collect();
    assert_eq!(numbers, vec![2, 1, 0]);
}

#[test]
fn the_log_keeps_the_newest_actions() {
    let (mut t, admin, _, _) = setup();
    for i in 0..507u64 {
        t.timestamp = i;
        t.transfer_admin(admin, admin).unwrap();
    }
    assert_eq!(t.registry.audit_log.total, 507);
    assert_eq!(t.registry.audit_log.head, 7);
    let mut numbers: Vec<u64> = Vec::new();
    for page in 0..20 {
        let entries = t.registry.get_audit_log(page, 30);
        assert_eq!(entries.len(), if page < 16 { 30 } else if page == 16 { 20 } else { 0 });
        numbers.extend(entries.iter().map(|e| e.sequence));
    }
    let expected: Vec<u64> = (7..507).rev().collect();
    assert_eq!(numbers, expected);
    assert_eq!(numbers.len() as u64, MAX_AUDIT_LOG_SIZE);
    assert_eq!(t.registry.get_audit_log(0, 1)[0].timestamp, 506);
}

#[test]
fn page_sizes_are_brought_into_range() {
    let (mut t, admin, _, _) = setup();
    for _ in 0..60 {
        t.transfer_admin(admin, admin).unwrap();
    }
    assert_eq!(t.registry.get_audit_log(0, 0).len(), 1);
    assert_eq!(t.registry.get_audit_log(3, 0)[0].sequence, 56);
    assert_eq!(t.registry.get_audit_log(0, 51).len(), 50);
    assert_eq!(t.registry.get_audit_log(1, u32::MAX).len(), 10);
    assert!(t.registry.get_audit_log(u32::MAX, u32::MAX).is_empty());
}

#[test]
fn positions_without_an_entry_are_passed_over() {
    let mut log = AuditLog::new();
    for i in 0..3 {
        log.append(i, address(1), AdminActionType::Pause, AuditSource::AccessControl);
    }
    log.entries.remove(&1);
    let numbers: Vec<u64> = log.read_page(0, 10).iter().map(|e| e.sequence).collect();
    assert_eq!(numbers, vec![2, 0]);
    assert_eq!(log.read_page(0, 10)[0].source, AuditSource::AccessControl);
}
