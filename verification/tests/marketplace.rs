use kora::env::Env;
use kora::errors::KoraError;
use kora::marketplace::contract::MarketplaceContract;
use kora::marketplace::model::{
    DataKey, Effect, Event, FundReplies, FundStep, LegacyConfig, ListReplies, ListStep,
    MarketplaceConfig, PERSISTENT_TTL_BUMP, PERSISTENT_TTL_THRESHOLD,
};
use kora::risk_registry::contract::RiskRegistryContract;
use kora::risk_registry::model::Effect as RegistryEffect;
use kora::types::{Address, AddressKind, Listing, RiskTier, UpgradeProposal};

/// The seconds between the proposal of an upgrade and its execution.
const TIMELOCK: u64 = 172_800;

const START: u64 = 1_700_000_000;

/// An invoice, as the invoice contract knows it.
#[derive(Clone, Copy)]
struct Invoice {
    id: u64,
    amount: i128,
    risk_tier: RiskTier,
    frozen: bool,
}

/// A marketplace with the contracts around it.
struct TestEnv {
    timestamp: u64,
    last_address: u128,
    admin: Address,
    token: Address,
    seller: Address,
    treasury: Address,
    pool: Address,
    nft: Address,
    registry_address: Address,
    registry: RiskRegistryContract,
    mp_address: Address,
    mp: MarketplaceContract,
    invoices: Vec<Invoice>,
    paused: bool,
    bound: Result<(), KoraError>,
    guard: Result<(), KoraError>,
    /// What the last call of the marketplace asked of the host.
    effects: Vec<Effect>,
}

fn address(low: u128) -> Address {
    Address { kind: AddressKind::Account, high: 0, low }
}

fn call_env<E>(timestamp: u64, contract: Address, auth: Address) -> Env<E> {
    Env {
        timestamp,
        contract,
        auths: vec![auth],
        fresh_address: address(999_999),
        guard: Ok(()),
        upgrade_timelock: TIMELOCK,
        effects: Vec::new(),
    }
}

fn no_list_replies() -> ListReplies {
    ListReplies {
        paused: None,
        asking_price_bound: None,
        face_value_bound: None,
        attested: None,
        invoice_amount: None,
    }
}

fn no_fund_replies() -> FundReplies {
    FundReplies {
        paused: None,
        amount_bound: None,
        frozen: None,
        decimals: None,
        risk_tier: None,
        fee: None,
    }
}

fn bump(key: DataKey) -> Effect {
    Effect::ExtendTtl {
        key,
        threshold: PERSISTENT_TTL_THRESHOLD,
        extend_to: PERSISTENT_TTL_BUMP,
    }
}

impl TestEnv {
    fn generate(&mut self) -> Address {
        self.last_address += 1;
        address(self.last_address)
    }

    fn env(&self, auth: Address) -> Env<Effect> {
        let mut env = call_env(self.timestamp, self.mp_address, auth);
        env.guard = self.guard;
        env
    }

    fn registry_env(&self, auth: Address) -> Env<RegistryEffect> {
        call_env(self.timestamp, self.registry_address, auth)
    }

    fn try_list_invoice(
        &mut self,
        seller: Address,
        invoice_id: u64,
        asking_price: i128,
        face_value: i128,
        token: Address,
        funding_deadline: u64,
        referrer: Option<Address>,
    ) -> Result<(), KoraError> {
        let mut replies = no_list_replies();
        loop {
            let mut env = self.env(seller);
            let step = self.mp.list_invoice(
                &mut env,
                seller,
                invoice_id,
                asking_price,
                face_value,
                token,
                funding_deadline,
                referrer,
                &replies,
            )?;
            match step {
                ListStep::AskPaused { .. } => replies.paused = Some(self.paused),
                ListStep::AskAskingPriceBound { amount } => {
                    assert_eq!(amount, asking_price);
                    replies.asking_price_bound = Some(self.bound);
                }
                ListStep::AskFaceValueBound { amount } => {
                    assert_eq!(amount, face_value);
                    replies.face_value_bound = Some(self.bound);
                }
                ListStep::AskAttested { risk_registry, sme } => {
                    assert_eq!(risk_registry, self.registry_address);
                    replies.attested = Some(self.registry.is_compliance_attested(sme));
                }
                ListStep::AskInvoiceAmount { invoice_nft, invoice_id } => {
                    assert_eq!(invoice_nft, self.nft);
                    let invoice = self.invoices.iter().find(|i| i.id == invoice_id).unwrap();
                    replies.invoice_amount = Some(invoice.amount);
                }
                ListStep::Done => {
                    self.effects = env.effects;
                    return Ok(());
                }
            }
        }
    }

    fn try_fund_invoice(
        &mut self,
        investor: Address,
        invoice_id: u64,
        amount: i128,
    ) -> Result<(), KoraError> {
        let mut replies = no_fund_replies();
        loop {
            let mut env = self.env(investor);
            match self.mp.fund_invoice(&mut env, investor, invoice_id, amount, &replies)? {
                FundStep::AskPaused { .. } => replies.paused = Some(self.paused),
                FundStep::AskAmountBound { amount: asked } => {
                    assert_eq!(asked, amount);
                    replies.amount_bound = Some(self.bound);
                }
                FundStep::AskFrozen { invoice_nft, invoice_id } => {
                    assert_eq!(invoice_nft, self.nft);
                    let invoice = self.invoices.iter().find(|i| i.id == invoice_id).unwrap();
                    replies.frozen = Some(invoice.frozen);
                }
                FundStep::AskDecimals { token } => {
                    assert_eq!(token, self.token);
                    replies.decimals = Some(7);
                }
                FundStep::AskRiskTier { invoice_nft, invoice_id } => {
                    assert_eq!(invoice_nft, self.nft);
                    let invoice = self.invoices.iter().find(|i| i.id == invoice_id).unwrap();
                    replies.risk_tier = Some(invoice.risk_tier);
                }
                FundStep::AskFee { amount, fee_bps, decimals } => {
                    assert_eq!(decimals, 7);
                    replies.fee = Some(Ok(amount * fee_bps as i128 / 10_000));
                }
                FundStep::Done => {
                    self.effects = env.effects;
                    return Ok(());
                }
            }
        }
    }

    fn try_cancel_listing(&mut self, caller: Address, invoice_id: u64) -> Result<(), KoraError> {
        let mut env = self.env(caller);
        let result = self.mp.cancel_listing(&mut env, caller, invoice_id);
        self.effects = env.effects;
        result
    }

    fn try_request_cancellation(
        &mut self,
        caller: Address,
        invoice_id: u64,
    ) -> Result<(), KoraError> {
        let mut env = self.env(caller);
        let result = self.mp.request_cancellation(&mut env, caller, invoice_id);
        self.effects = env.effects;
        result
    }

    fn try_admin_confirm_cancellation(
        &mut self,
        admin: Address,
        invoice_id: u64,
    ) -> Result<(), KoraError> {
        let mut env = self.env(admin);
        let result = self.mp.admin_confirm_cancellation(&mut env, admin, invoice_id);
        self.effects = env.effects;
        result
    }

    fn try_claim_refund(&mut self, investor: Address, invoice_id: u64) -> Result<(), KoraError> {
        let mut env = self.env(investor);
        let result = self.mp.claim_refund(&mut env, investor, invoice_id);
        self.effects = env.effects;
        result
    }

    fn try_whitelist_token(&mut self, admin: Address, token: Address) -> Result<(), KoraError> {
        let mut env = self.env(admin);
        let result = self.mp.whitelist_token(&mut env, admin, token);
        self.effects = env.effects;
        result
    }

    fn try_update_fee_bps(&mut self, admin: Address, fee_bps: u32) -> Result<(), KoraError> {
        let mut env = self.env(admin);
        let result = self.mp.update_fee_bps(&mut env, admin, fee_bps);
        self.effects = env.effects;
        result
    }

    fn try_set_referrer_split_bps(&mut self, admin: Address, bps: u32) -> Result<(), KoraError> {
        let env = self.env(admin);
        self.mp.set_referrer_split_bps(&env, admin, bps)
    }

    fn get_fee_bps(&mut self) -> u32 {
        let env = self.env(self.admin);
        self.mp.get_fee_bps(&env).unwrap()
    }

    fn add_verifier(&mut self) -> Address {
        let verifier = self.generate();
        let mut env = self.registry_env(self.admin);
        self.registry.add_verifier(&mut env, self.admin, verifier, 1_000_000i128).unwrap();
        verifier
    }

    fn register_sme(&mut self, verifier: Address, sme: Address, score: u32, attested: bool) {
        let mut env = self.registry_env(verifier);
        self.registry.register_sme(&mut env, verifier, sme, score, attested).unwrap();
    }

    /// Writes what a listing has been funded with straight into the storage.
    fn set_funded_amount(&mut self, invoice_id: u64, funded_amount: i128) {
        let mut listing = self.mp.listings.get(&invoice_id).unwrap();
        listing.funded_amount = funded_amount;
        self.mp.listings.set(invoice_id, listing);
    }
}

fn deploy() -> TestEnv {
    let mut t = TestEnv {
        timestamp: 1_700_000_000,
        last_address: 100,
        admin: address(1),
        token: address(2),
        seller: address(3),
        treasury: address(4),
        pool: address(5),
        nft: address(6),
        registry_address: address(7),
        registry: RiskRegistryContract::new(),
        mp_address: address(8),
        mp: MarketplaceContract::new(),
        invoices: Vec::new(),
        paused: false,
        bound: Ok(()),
        guard: Ok(()),
        effects: Vec::new(),
    };
    let staking_token = t.generate();
    let mut env = t.registry_env(t.admin);
    t.registry
        .initialize(&mut env, t.admin, t.nft, staking_token, 1_000_000i128, 5_000u32)
        .unwrap();
    let mp_ac = t.generate();
    t.mp.initialize(t.admin, t.nft, t.pool, t.treasury, mp_ac, t.registry_address, 50u32).unwrap();
    t.try_whitelist_token(t.admin, t.token).unwrap();
    let verifier = t.add_verifier();
    t.register_sme(verifier, t.seller, 30u32, true);
    t.effects = Vec::new();
    t
}

/// Mints an invoice in the invoice contract and returns its id.
fn mint_invoice(t: &mut TestEnv) -> u64 {
    let id = t.invoices.len() as u64 + 1;
    t.invoices.push(Invoice {
        id,
        amount: 10_000_000_000i128,
        risk_tier: RiskTier::A,
        frozen: false,
    });
    id
}

/// Mints an invoice and lists it; returns its id.
fn list_one(t: &mut TestEnv) -> u64 {
    let id = mint_invoice(t);
    let deadline = t.timestamp + 86_400 * 30;
    t.try_list_invoice(
        t.seller,
        id,
        9_500_000_000i128,
        10_000_000_000i128,
        t.token,
        deadline,
        None,
    )
    .unwrap();
    id
}

fn list_with_referrer(t: &mut TestEnv, referrer: Option<Address>) -> u64 {
    let id = mint_invoice(t);
    let deadline = t.timestamp + 86_400 * 30;
    t.try_list_invoice(
        t.seller,
        id,
        9_500_000_000i128,
        10_000_000_000i128,
        t.token,
        deadline,
        referrer,
    )
    .unwrap();
    id
}

// Setting up

#[test]
fn test_initialize_already_initialized_returns_error() {
    let mut t = deploy();
    let parties = [t.generate(), t.generate(), t.generate(), t.generate(), t.generate()];
    let result = t.mp.initialize(
        t.admin, parties[0], parties[1], parties[2], parties[3], parties[4], 50u32,
    );
    assert_eq!(result.unwrap_err(), KoraError::AlreadyInitialized);
}

#[test]
fn test_initialize_invalid_fee_bps_rejected() {
    let mut mp = MarketplaceContract::new();
    let result = mp.initialize(
        address(1), address(2), address(3), address(4), address(5), address(6), 10_001u32,
    );
    assert_eq!(result.unwrap_err(), KoraError::InvalidFeeRate);
}

#[test]
fn test_initialize_zero_fee_bps_accepted() {
    let mut mp = MarketplaceContract::new();
    assert!(mp
        .initialize(address(1), address(2), address(3), address(4), address(5), address(6), 0u32)
        .is_ok());
}

#[test]
fn test_initialize_max_fee_bps_accepted() {
    let mut mp = MarketplaceContract::new();
    assert!(mp
        .initialize(
            address(1), address(2), address(3), address(4), address(5), address(6), 10_000u32,
        )
        .is_ok());
}

#[test]
fn test_get_admin_returns_correct_address() {
    let mut t = deploy();
    let env = t.env(t.seller);
    assert_eq!(t.mp.get_admin(&env).unwrap(), t.admin);
}

#[test]
fn test_get_admin_before_init_returns_error() {
    let mut mp = MarketplaceContract::new();
    let env = call_env(START, address(8), address(1));
    assert_eq!(mp.get_admin(&env).unwrap_err(), KoraError::NotInitialized);
}

// Fees

#[test]
fn test_get_fee_bps_returns_initialized_value() {
    let mut t = deploy();
    assert_eq!(t.get_fee_bps(), 50);
}

#[test]
fn test_update_fee_bps_success() {
    let mut t = deploy();
    t.try_update_fee_bps(t.admin, 100u32).unwrap();
    assert_eq!(t.get_fee_bps(), 100);
}

#[test]
fn test_update_fee_bps_to_zero_success() {
    let mut t = deploy();
    t.try_update_fee_bps(t.admin, 0u32).unwrap();
    assert_eq!(t.get_fee_bps(), 0);
}

#[test]
fn test_update_fee_bps_to_max_success() {
    let mut t = deploy();
    t.try_update_fee_bps(t.admin, 10_000u32).unwrap();
    assert_eq!(t.get_fee_bps(), 10_000);
}

#[test]
fn test_get_config_returns_initialized_values() {
    let mut t = deploy();
    let env = t.env(t.seller);
    let config = t.mp.get_config(&env).unwrap();
    assert_eq!(config.admin, t.admin);
    assert_eq!(config.financing_pool, t.pool);
    assert_eq!(config.treasury, t.treasury);
    assert_eq!(config.fee_bps, 50u32);
}

// Tokens

#[test]
fn test_whitelist_token_success() {
    let mut t = deploy();
    let new_token = t.generate();
    assert!(!t.mp.is_token_whitelisted(new_token));
    t.try_whitelist_token(t.admin, new_token).unwrap();
    assert!(t.mp.is_token_whitelisted(new_token));
}

#[test]
fn test_whitelist_token_non_admin_rejected() {
    let mut t = deploy();
    let stranger = t.generate();
    let new_token = t.generate();
    let result = t.try_whitelist_token(stranger, new_token);
    assert_eq!(result.unwrap_err(), KoraError::NotAdmin);
}

// Listing

#[test]
fn test_list_invoice_success() {
    let mut t = deploy();
    let id = list_one(&mut t);
    let listing = t.mp.get_listing(id).unwrap();
    assert_eq!(listing.invoice_id, 1);
    assert_eq!(listing.seller, t.seller);
    assert_eq!(listing.asking_price, 9_500_000_000i128);
    assert_eq!(listing.face_value, 10_000_000_000i128);
    assert!(listing.is_active);
    assert_eq!(listing.funded_amount, 0);
}

#[test]
fn test_list_invoice_nft_status_transitions_to_listed() {
    let mut t = deploy();
    let id = list_one(&mut t);
    assert!(t.effects.contains(&Effect::SetListed {
        invoice_nft: t.nft,
        caller: t.mp_address,
        invoice_id: id,
    }));
}

#[test]
fn test_list_invoice_non_whitelisted_token_rejected() {
    let mut t = deploy();
    let _id = mint_invoice(&mut t);
    let bad_token = t.generate();
    let deadline = t.timestamp + 86_400;
    let result = t.try_list_invoice(
        t.seller, 1u64, 9_000i128, 10_000i128, bad_token, deadline, None,
    );
    assert_eq!(result.unwrap_err(), KoraError::TokenNotWhitelisted);
}

#[test]
fn test_list_invoice_zero_asking_price_rejected() {
    let mut t = deploy();
    let _id = mint_invoice(&mut t);
    let deadline = t.timestamp + 86_400;
    let result = t.try_list_invoice(t.seller, 1u64, 0i128, 10_000i128, t.token, deadline, None);
    assert_eq!(result.unwrap_err(), KoraError::InvalidAmount);
}

#[test]
fn test_list_invoice_zero_face_value_rejected() {
    let mut t = deploy();
    let _id = mint_invoice(&mut t);
    let deadline = t.timestamp + 86_400;
    let result = t.try_list_invoice(t.seller, 1u64, 9_000i128, 0i128, t.token, deadline, None);
    assert_eq!(result.unwrap_err(), KoraError::InvalidAmount);
}

#[test]
fn test_list_invoice_asking_price_equal_face_value_rejected() {
    let mut t = deploy();
    let _id = mint_invoice(&mut t);
    let deadline = t.timestamp + 86_400;
    let result = t.try_list_invoice(
        t.seller, 1u64, 10_000i128, 10_000i128, t.token, deadline, None,
    );
    assert_eq!(result.unwrap_err(), KoraError::InvalidAmount);
}

#[test]
fn test_list_invoice_asking_price_greater_than_face_value_rejected() {
    let mut t = deploy();
    let _id = mint_invoice(&mut t);
    let deadline = t.timestamp + 86_400;
    let result = t.try_list_invoice(
        t.seller, 1u64, 11_000i128, 10_000i128, t.token, deadline, None,
    );
    assert_eq!(result.unwrap_err(), KoraError::InvalidAmount);
}

#[test]
fn test_list_invoice_past_deadline_rejected() {
    let mut t = deploy();
    let _id = mint_invoice(&mut t);
    let past = t.timestamp - 1;
    let result = t.try_list_invoice(t.seller, 1u64, 9_000i128, 10_000i128, t.token, past, None);
    assert_eq!(result.unwrap_err(), KoraError::InvalidDueDate);
}

#[test]
fn test_list_invoice_duplicate_id_rejected() {
    let mut t = deploy();
    let _id = list_one(&mut t);
    let deadline = t.timestamp + 86_400;
    let result = t.try_list_invoice(
        t.seller, 1u64, 9_000i128, 10_000i128, t.token, deadline, None,
    );
    assert_eq!(result.unwrap_err(), KoraError::InvoiceAlreadyExists);
}

#[test]
fn test_list_multiple_invoices_independent() {
    let mut t = deploy();
    let deadline = t.timestamp + 86_400;
    let result = t.try_list_invoice(t.seller, 1u64, -1i128, 10_000i128, t.token, deadline, None);
    assert_eq!(result.unwrap_err(), KoraError::InvalidAmount);
}

#[test]
fn test_list_invoice_unattested_sme_rejected() {
    let mut t = deploy();
    let verifier = t.add_verifier();
    let unattested_seller = t.generate();
    t.register_sme(verifier, unattested_seller, 50u32, false);

    let _id = mint_invoice(&mut t);
    let deadline = t.timestamp + 86_400;
    let result = t.try_list_invoice(
        unattested_seller,
        1u64,
        9_500_000_000i128,
        10_000_000_000i128,
        t.token,
        deadline,
        None,
    );
    assert_eq!(result.unwrap_err(), KoraError::ComplianceNotAttested);
}

#[test]
fn test_list_invoice_attested_sme_succeeds() {
    let mut t = deploy();
    let verifier = t.add_verifier();
    let attested_seller = t.generate();
    t.register_sme(verifier, attested_seller, 50u32, true);

    let deadline = t.timestamp + 86_400;
    let nft_id = mint_invoice(&mut t);
    assert!(t
        .try_list_invoice(
            attested_seller,
            nft_id,
            9_500_000_000i128,
            10_000_000_000i128,
            t.token,
            deadline,
            None,
        )
        .is_ok());
}

#[test]
fn test_get_listing_not_found_returns_error() {
    let t = deploy();
    let result = t.mp.get_listing(999u64);
    assert_eq!(result.unwrap_err(), KoraError::ListingNotFound);
}

#[test]
fn test_get_listing_returns_correct_data() {
    let mut t = deploy();
    let deadline = t.timestamp + 86_400 * 30;
    let _id = mint_invoice(&mut t);
    t.try_list_invoice(
        t.seller,
        1u64,
        9_500_000_000i128,
        10_000_000_000i128,
        t.token,
        deadline,
        None,
    )
    .unwrap();
    let listing = t.mp.get_listing(1u64).unwrap();
    assert_eq!(listing.asking_price, 9_500_000_000i128);
    assert_eq!(listing.face_value, 10_000_000_000i128);
    assert_eq!(listing.funding_deadline, deadline);
    assert_eq!(listing.token, t.token);
    assert!(listing.is_active);
    assert_eq!(listing.funded_amount, 0);
}

// Funding

#[test]
fn test_fund_invoice_listing_not_found() {
    let mut t = deploy();
    let investor = t.generate();
    let result = t.try_fund_invoice(investor, 999u64, 1_000i128);
    assert_eq!(result.unwrap_err(), KoraError::ListingNotFound);
}

#[test]
fn test_fund_invoice_zero_amount_rejected() {
    let mut t = deploy();
    let id = list_one(&mut t);
    let investor = t.generate();
    let result = t.try_fund_invoice(investor, id, 0i128);
    assert_eq!(result.unwrap_err(), KoraError::InvalidAmount);
}

#[test]
fn test_fund_invoice_negative_amount_rejected() {
    let mut t = deploy();
    let id = list_one(&mut t);
    let investor = t.generate();
    let result = t.try_fund_invoice(investor, id, -1i128);
    assert_eq!(result.unwrap_err(), KoraError::InvalidAmount);
}

#[test]
fn test_fund_invoice_exceeds_target_rejected() {
    let mut t = deploy();
    let _id = list_one(&mut t);
    let investor = t.generate();
    let result = t.try_fund_invoice(investor, 1u64, 9_500_000_001i128);
    assert_eq!(result.unwrap_err(), KoraError::ExceedsFundingTarget);
}

#[test]
fn test_fund_invoice_after_deadline_rejected() {
    let mut t = deploy();
    let deadline = t.timestamp + 100;
    let _id = mint_invoice(&mut t);
    t.try_list_invoice(
        t.seller,
        1u64,
        9_500_000_000i128,
        10_000_000_000i128,
        t.token,
        deadline,
        None,
    )
    .unwrap();
    t.timestamp = deadline + 1;
    let investor = t.generate();
    let result = t.try_fund_invoice(investor, 1u64, 1_000_000i128);
    assert_eq!(result.unwrap_err(), KoraError::FundingDeadlinePassed);
}

#[test]
fn test_fund_invoice_on_cancelled_listing_rejected() {
    let mut t = deploy();
    let id = list_one(&mut t);
    t.try_cancel_listing(t.seller, id).unwrap();
    let investor = t.generate();
    let result = t.try_fund_invoice(investor, 1u64, 1_000_000i128);
    assert_eq!(result.unwrap_err(), KoraError::ListingAlreadyCancelled);
}

#[test]
fn test_funded_amount_overflow_protection() {
    let mut t = deploy();
    let id = list_one(&mut t);
    let investor = t.generate();
    // An amount above the asking price is refused before anything is added up.
    let result = t.try_fund_invoice(investor, id, i128::MAX);
    assert!(result.is_err());
}

#[test]
fn test_fund_cancelled_listing() {
    let mut t = deploy();
    let id = list_one(&mut t);
    t.try_cancel_listing(t.seller, id).unwrap();
    let listing = t.mp.get_listing(id).unwrap();
    assert!(!listing.is_active);

    let investor = t.generate();
    let result = t.try_fund_invoice(investor, id, 1_000_000i128);
    assert_eq!(result.unwrap_err(), KoraError::ListingAlreadyCancelled);
}

#[test]
fn test_fund_invoice_amount_exactly_equals_remaining_target() {
    let mut t = deploy();
    let id = list_one(&mut t);
    let inv1 = t.generate();
    let inv2 = t.generate();

    t.try_fund_invoice(inv1, id, 5_000_000_000i128).unwrap();
    let listing = t.mp.get_listing(id).unwrap();
    assert_eq!(listing.funded_amount, 5_000_000_000i128);
    assert!(listing.is_active);

    t.try_fund_invoice(inv2, id, 4_500_000_000i128).unwrap();
    let listing = t.mp.get_listing(id).unwrap();
    assert_eq!(listing.funded_amount, 9_500_000_000i128);
    assert!(!listing.is_active, "Listing should be fully funded and inactive");
}

// Cancelling

#[test]
fn test_cancel_listing_by_seller_success() {
    let mut t = deploy();
    list_one(&mut t);
    assert!(t.try_cancel_listing(t.seller, 1u64).is_ok());
    let listing = t.mp.get_listing(1u64).unwrap();
    assert!(!listing.is_active);
}

#[test]
fn test_cancel_listing_by_admin_success() {
    let mut t = deploy();
    list_one(&mut t);
    assert!(t.try_cancel_listing(t.admin, 1u64).is_ok());
    let listing = t.mp.get_listing(1u64).unwrap();
    assert!(!listing.is_active);
}

#[test]
fn test_cancel_listing_by_stranger_rejected() {
    let mut t = deploy();
    let id = list_one(&mut t);
    let stranger = t.generate();
    let result = t.try_cancel_listing(stranger, id);
    assert_eq!(result.unwrap_err(), KoraError::Unauthorized);
}

#[test]
fn test_cancel_listing_not_found_returns_error() {
    let mut t = deploy();
    let result = t.try_cancel_listing(t.seller, 999u64);
    assert_eq!(result.unwrap_err(), KoraError::ListingNotFound);
}

#[test]
fn test_cancel_listing_already_cancelled_returns_error() {
    let mut t = deploy();
    list_one(&mut t);
    t.try_cancel_listing(t.seller, 1u64).unwrap();
    let result = t.try_cancel_listing(t.seller, 1u64);
    assert_eq!(result.unwrap_err(), KoraError::ListingAlreadyCancelled);
}

#[test]
fn test_cancel_listing_state_unchanged_after_failed_cancel() {
    let mut t = deploy();
    let _id = list_one(&mut t);
    let stranger = t.generate();
    let _ = t.try_cancel_listing(stranger, 1u64);
    let listing = t.mp.get_listing(1u64).unwrap();
    assert!(listing.is_active);
}

#[test]
fn test_fund_after_cancel_rejected() {
    let mut t = deploy();
    let id = list_one(&mut t);
    t.try_cancel_listing(t.admin, id).unwrap();
    let investor = t.generate();
    let result = t.try_fund_invoice(investor, 1u64, 1_000_000i128);
    assert_eq!(result.unwrap_err(), KoraError::ListingAlreadyCancelled);
}

#[test]
fn test_request_cancellation_by_seller_success() {
    let mut t = deploy();
    let id = list_one(&mut t);
    assert!(t.try_request_cancellation(t.seller, id).is_ok());
    let listing = t.mp.get_listing(id).unwrap();
    assert!(!listing.is_active);
}

#[test]
fn test_cancel_listing_after_partial_funding_exposes_fund_loss_risk() {
    let mut t = deploy();
    let id = list_one(&mut t);
    let investor = t.generate();
    let partial_amount = 2_000_000_000i128;

    t.try_fund_invoice(investor, id, partial_amount).unwrap();
    let listing = t.mp.get_listing(id).unwrap();
    assert_eq!(listing.funded_amount, partial_amount);
    assert!(listing.is_active);

    assert!(t.try_cancel_listing(t.seller, id).is_ok());
    let cancelled_listing = t.mp.get_listing(id).unwrap();
    assert!(!cancelled_listing.is_active);

    // A listing that was cancelled in one step keeps its contributions until the deadline.
    let result = t.try_claim_refund(investor, id);
    assert_eq!(result.unwrap_err(), KoraError::FundingNotExpired);
}

#[test]
fn test_request_cancellation_by_admin_success() {
    let mut t = deploy();
    let id = list_one(&mut t);
    assert!(t.try_request_cancellation(t.admin, id).is_ok());
    let listing = t.mp.get_listing(id).unwrap();
    assert!(!listing.is_active);
}

#[test]
fn test_request_cancellation_stranger_rejected() {
    let mut t = deploy();
    let id = list_one(&mut t);
    let stranger = t.generate();
    let result = t.try_request_cancellation(stranger, id);
    assert_eq!(result.unwrap_err(), KoraError::Unauthorized);
}

#[test]
fn test_request_cancellation_not_active_rejected() {
    let mut t = deploy();
    let id = list_one(&mut t);
    t.try_cancel_listing(t.seller, id).unwrap();
    let result = t.try_request_cancellation(t.seller, id);
    assert_eq!(result.unwrap_err(), KoraError::ListingAlreadyCancelled);
}

#[test]
fn test_request_cancellation_duplicate_rejected() {
    let mut t = deploy();
    let id = list_one(&mut t);
    t.set_funded_amount(id, 1_000_000i128);

    assert!(t.try_request_cancellation(t.seller, id).is_ok());
    let result = t.try_request_cancellation(t.seller, id);
    assert_eq!(result.unwrap_err(), KoraError::CancellationPending);
}

#[test]
fn test_admin_confirm_cancellation_success() {
    let mut t = deploy();
    let id = list_one(&mut t);
    t.set_funded_amount(id, 1_000_000i128);

    t.try_request_cancellation(t.seller, id).unwrap();
    assert!(t.try_admin_confirm_cancellation(t.admin, id).is_ok());

    let listing = t.mp.get_listing(id).unwrap();
    assert!(!listing.is_active);
    let confirmed = t.mp.cancellations_confirmed.get(&id).unwrap_or(false);
    assert!(confirmed);
}

#[test]
fn test_admin_confirm_cancellation_no_request_rejected() {
    let mut t = deploy();
    let id = list_one(&mut t);
    let result = t.try_admin_confirm_cancellation(t.admin, id);
    assert_eq!(result.unwrap_err(), KoraError::NoCancellationPending);
}

#[test]
fn test_admin_confirm_cancellation_non_admin_rejected() {
    let mut t = deploy();
    let id = list_one(&mut t);
    t.set_funded_amount(id, 1_000_000i128);
    t.mp.cancellation_requests.set(id, t.seller);

    let stranger = t.generate();
    let result = t.try_admin_confirm_cancellation(stranger, id);
    assert_eq!(result.unwrap_err(), KoraError::NotAdmin);
}

// Refunds

#[test]
fn test_claim_refund_after_confirmed_cancellation() {
    let mut t = deploy();
    let id = list_one(&mut t);
    let investor = t.generate();
    let net_contribution: i128 = 950_000i128;
    t.set_funded_amount(id, 1_000_000i128);
    t.mp.contributions.set((id, investor), net_contribution);
    t.mp.cancellations_confirmed.set(id, true);

    // The deadline is thirty days off; the confirmed cancellation opens the refund all the same.
    let result = t.try_claim_refund(investor, id);
    if let Err(e) = result {
        assert_ne!(e, KoraError::FundingNotExpired);
    }
    assert_eq!(result, Ok(()));
    assert_eq!(
        t.effects[0],
        Effect::Transfer { token: t.token, from: t.pool, to: investor, amount: 950_000i128 }
    );
}

#[test]
fn test_claim_refund_before_deadline_without_confirmation_rejected() {
    let mut t = deploy();
    let id = list_one(&mut t);
    let investor = t.generate();
    t.set_funded_amount(id, 1_000i128);

    let result = t.try_claim_refund(investor, id);
    assert_eq!(result.unwrap_err(), KoraError::FundingNotExpired);
}

// Referrers

#[test]
fn test_list_invoice_without_referrer_succeeds() {
    let mut t = deploy();
    let id = list_with_referrer(&mut t, None);
    let listing = t.mp.get_listing(id).unwrap();
    assert!(listing.is_active);
}

#[test]
fn test_list_invoice_with_referrer_succeeds() {
    let mut t = deploy();
    let referrer = t.generate();
    let id = list_with_referrer(&mut t, Some(referrer));
    let listing = t.mp.get_listing(id).unwrap();
    assert!(listing.is_active);
}

#[test]
fn test_list_invoice_self_referral_rejected() {
    let mut t = deploy();
    let id = mint_invoice(&mut t);
    let deadline = t.timestamp + 86_400 * 30;
    let result = t.try_list_invoice(
        t.seller,
        id,
        9_500_000_000i128,
        10_000_000_000i128,
        t.token,
        deadline,
        Some(t.seller),
    );
    assert_eq!(result.unwrap_err(), KoraError::InvalidAddress);
}

#[test]
fn test_fund_invoice_no_referrer_full_fee_to_treasury() {
    let mut t = deploy();
    let id = list_with_referrer(&mut t, None);
    let investor = t.generate();
    assert!(t.try_fund_invoice(investor, id, 10_000_000i128).is_ok());
    assert_eq!(
        t.effects,
        vec![
            Effect::Transfer { token: t.token, from: investor, to: t.treasury, amount: 50_000 },
            Effect::CollectFee { treasury: t.treasury, token: t.token, amount: 50_000 },
            Effect::Transfer { token: t.token, from: investor, to: t.pool, amount: 9_950_000 },
            bump(DataKey::Listing(id)),
            Effect::Publish(Event::InvoiceFunded { invoice_id: id, investor, amount: 10_000_000 }),
            Effect::Publish(Event::FeeCollected {
                investor,
                invoice_id: id,
                fee: 50_000,
                token: t.token,
            }),
        ]
    );
}

#[test]
fn test_fund_invoice_with_referrer_splits_fee() {
    // A fifth of the fee of 50_000 goes to the referrer.
    let mut t = deploy();
    t.try_set_referrer_split_bps(t.admin, 2_000u32).unwrap();
    let referrer = t.generate();
    let id = list_with_referrer(&mut t, Some(referrer));
    let investor = t.generate();
    assert!(t.try_fund_invoice(investor, id, 10_000_000i128).is_ok());
    assert_eq!(
        t.effects[..4],
        [
            Effect::Transfer { token: t.token, from: investor, to: referrer, amount: 10_000 },
            Effect::Transfer { token: t.token, from: investor, to: t.treasury, amount: 40_000 },
            Effect::CollectFee { treasury: t.treasury, token: t.token, amount: 40_000 },
            Effect::Transfer { token: t.token, from: investor, to: t.pool, amount: 9_950_000 },
        ]
    );
}

#[test]
fn test_set_referrer_split_bps_non_admin_rejected() {
    let mut t = deploy();
    let stranger = t.generate();
    let result = t.try_set_referrer_split_bps(stranger, 2_000u32);
    assert!(result.is_err());
}

#[test]
fn test_set_referrer_split_bps_over_10000_rejected() {
    let mut t = deploy();
    let result = t.try_set_referrer_split_bps(t.admin, 10_001u32);
    assert!(result.is_err());
}

// The steps of listing and funding

#[test]
fn listing_asks_for_one_answer_at_a_time() {
    let mut t = deploy();
    let id = mint_invoice(&mut t);
    let deadline = t.timestamp + 1;
    let mut replies = no_list_replies();
    let mut env = t.env(t.seller);
    let mut step = |t: &mut TestEnv, replies: &ListReplies| {
        t.mp.list_invoice(
            &mut env,
            t.seller,
            id,
            9_500_000_000,
            10_000_000_000,
            t.token,
            deadline,
            None,
            replies,
        )
    };
    assert_eq!(
        step(&mut t, &replies),
        Ok(ListStep::AskAskingPriceBound { amount: 9_500_000_000 })
    );
    replies.asking_price_bound = Some(Ok(()));
    assert_eq!(
        step(&mut t, &replies),
        Ok(ListStep::AskFaceValueBound { amount: 10_000_000_000 })
    );
    replies.face_value_bound = Some(Ok(()));
    assert_eq!(
        step(&mut t, &replies),
        Ok(ListStep::AskAttested { risk_registry: t.registry_address, sme: t.seller })
    );
    replies.attested = Some(true);
    assert_eq!(
        step(&mut t, &replies),
        Ok(ListStep::AskInvoiceAmount { invoice_nft: t.nft, invoice_id: id })
    );
    assert_eq!(t.mp.get_listing(id), Err(KoraError::ListingNotFound));
    replies.invoice_amount = Some(10_000_000_000);
    assert_eq!(step(&mut t, &replies), Ok(ListStep::Done));
    assert!(t.mp.get_listing(id).is_ok());
    assert_eq!(
        env.effects,
        vec![
            Effect::SetListed { invoice_nft: t.nft, caller: t.mp_address, invoice_id: id },
            bump(DataKey::Listing(id)),
            Effect::Publish(Event::InvoiceListed {
                invoice_id: id,
                seller: t.seller,
                asking_price: 9_500_000_000,
            }),
        ]
    );
}

#[test]
fn funding_asks_for_one_answer_at_a_time() {
    let mut t = deploy();
    let id = list_one(&mut t);
    let investor = t.generate();
    let mut replies = no_fund_replies();
    let mut env = t.env(investor);
    let mut step = |t: &mut TestEnv, replies: &FundReplies| {
        t.mp.fund_invoice(&mut env, investor, id, 1_000_000, replies)
    };
    assert_eq!(step(&mut t, &replies), Ok(FundStep::AskAmountBound { amount: 1_000_000 }));
    replies.amount_bound = Some(Ok(()));
    assert_eq!(
        step(&mut t, &replies),
        Ok(FundStep::AskFrozen { invoice_nft: t.nft, invoice_id: id })
    );
    replies.frozen = Some(false);
    assert_eq!(step(&mut t, &replies), Ok(FundStep::AskDecimals { token: t.token }));
    replies.decimals = Some(6);
    assert_eq!(
        step(&mut t, &replies),
        Ok(FundStep::AskRiskTier { invoice_nft: t.nft, invoice_id: id })
    );
    replies.risk_tier = Some(RiskTier::B);
    assert_eq!(
        step(&mut t, &replies),
        Ok(FundStep::AskFee { amount: 1_000_000, fee_bps: 50, decimals: 6 })
    );
    assert_eq!(t.mp.get_listing(id).unwrap().funded_amount, 0);
    replies.fee = Some(Ok(5_000));
    assert_eq!(step(&mut t, &replies), Ok(FundStep::Done));
    assert_eq!(t.mp.get_listing(id).unwrap().funded_amount, 1_000_000);
    assert_eq!(t.mp.contributions.get(&(id, investor)), Some(995_000));
    assert_eq!(env.effects.len(), 6);
}

#[test]
fn refused_answers_are_passed_on() {
    let mut t = deploy();
    let id = list_one(&mut t);
    let investor = t.generate();
    let error = KoraError::Protocol(77);

    t.bound = Err(error);
    assert_eq!(t.try_fund_invoice(investor, id, 1), Err(error));
    let second = mint_invoice(&mut t);
    let deadline = t.timestamp + 10;
    assert_eq!(
        t.try_list_invoice(t.seller, second, 1, 2, t.token, deadline, None),
        Err(error)
    );
    t.bound = Ok(());

    let replies = FundReplies {
        paused: None,
        amount_bound: Some(Ok(())),
        frozen: Some(false),
        decimals: Some(7),
        risk_tier: Some(RiskTier::A),
        fee: Some(Err(error)),
    };
    let mut env = t.env(investor);
    assert_eq!(t.mp.fund_invoice(&mut env, investor, id, 1, &replies), Err(error));
    assert!(env.effects.is_empty());

    let replies = ListReplies {
        paused: None,
        asking_price_bound: Some(Ok(())),
        face_value_bound: Some(Err(error)),
        attested: None,
        invoice_amount: None,
    };
    let mut env = t.env(t.seller);
    assert_eq!(
        t.mp.list_invoice(
            &mut env, t.seller, second, 1, 2, t.token, deadline, None, &replies,
        ),
        Err(error)
    );
}

#[test]
fn a_taken_guard_stops_a_listing() {
    let mut t = deploy();
    let id = mint_invoice(&mut t);
    let deadline = t.timestamp + 10;
    t.guard = Err(KoraError::Protocol(5));
    assert_eq!(
        t.try_list_invoice(t.seller, id, 1, 10_000_000_000, t.token, deadline, None),
        Err(KoraError::Protocol(5))
    );
}

#[test]
fn a_frozen_invoice_takes_no_contribution() {
    let mut t = deploy();
    let id = list_one(&mut t);
    t.invoices[0].frozen = true;
    let investor = t.generate();
    assert_eq!(t.try_fund_invoice(investor, id, 1_000_000), Err(KoraError::InvoiceFrozen));
}

#[test]
fn a_listing_must_match_its_invoice() {
    let mut t = deploy();
    let id = mint_invoice(&mut t);
    let deadline = t.timestamp + 10;
    assert_eq!(
        t.try_list_invoice(t.seller, id, 9_000, 10_000, t.token, deadline, None),
        Err(KoraError::InvalidAmount)
    );
}

#[test]
fn a_deadline_must_lie_ahead() {
    let mut t = deploy();
    let id = mint_invoice(&mut t);
    let now = t.timestamp;
    assert_eq!(
        t.try_list_invoice(t.seller, id, 1, 10_000_000_000, t.token, now, None),
        Err(KoraError::InvalidDueDate)
    );
    assert_eq!(
        t.try_list_invoice(t.seller, id, 1, 10_000_000_000, t.token, now + 1, None),
        Ok(())
    );
}

#[test]
fn a_seller_unknown_to_the_registry_is_not_attested() {
    let mut t = deploy();
    let id = mint_invoice(&mut t);
    let stranger = t.generate();
    let deadline = t.timestamp + 10;
    assert_eq!(
        t.try_list_invoice(stranger, id, 1, 10_000_000_000, t.token, deadline, None),
        Err(KoraError::ComplianceNotAttested)
    );
}

#[test]
fn the_last_second_of_the_deadline_counts() {
    let mut t = deploy();
    let id = list_one(&mut t);
    let investor = t.generate();
    let deadline = t.mp.get_listing(id).unwrap().funding_deadline;
    t.timestamp = deadline;
    assert_eq!(t.try_fund_invoice(investor, id, 1_000), Ok(()));
    assert_eq!(t.try_claim_refund(investor, id), Err(KoraError::FundingNotExpired));
    t.timestamp = deadline + 1;
    assert_eq!(t.try_fund_invoice(investor, id, 1_000), Err(KoraError::FundingDeadlinePassed));
    assert_eq!(t.try_claim_refund(investor, id), Ok(()));
}

// Rates

#[test]
fn rates_read_back_and_are_announced() {
    let mut t = deploy();
    t.try_update_fee_bps(t.admin, 75).unwrap();
    assert_eq!(
        t.effects,
        vec![Effect::Publish(Event::FeeRateUpdated { admin: t.admin, old_bps: 50, new_bps: 75 })]
    );
    let mut env = t.env(t.admin);
    t.mp.set_fee_bps(&mut env, t.admin, 80).unwrap();
    assert_eq!(t.get_fee_bps(), 80);
    t.try_set_referrer_split_bps(t.admin, 10_000).unwrap();
    let env = t.env(t.admin);
    assert_eq!(t.mp.get_config(&env).unwrap().referrer_split_bps, 10_000);
    assert_eq!(t.get_fee_bps(), 80);
}

#[test]
fn rates_are_refused_without_changing_anything() {
    let mut t = deploy();
    let stranger = t.generate();
    assert_eq!(t.try_update_fee_bps(stranger, 1), Err(KoraError::NotAdmin));
    assert_eq!(t.try_update_fee_bps(t.admin, 10_001), Err(KoraError::InvalidFeeRate));
    assert_eq!(t.try_set_referrer_split_bps(stranger, 1), Err(KoraError::NotAdmin));
    assert_eq!(t.try_set_referrer_split_bps(t.admin, 10_001), Err(KoraError::InvalidFeeRate));
    let env = t.env(stranger);
    assert_eq!(
        t.mp.set_tier_fee_bps(&env, stranger, RiskTier::C, 1),
        Err(KoraError::NotAdmin)
    );
    let env = t.env(t.admin);
    assert_eq!(
        t.mp.set_tier_fee_bps(&env, t.admin, RiskTier::C, 10_001),
        Err(KoraError::InvalidFeeRate)
    );
    assert_eq!(t.mp.get_tier_fee_bps(&env, RiskTier::C), Ok(50));
    assert_eq!(t.get_fee_bps(), 50);
}

#[test]
fn a_risk_class_has_its_own_fee() {
    let mut t = deploy();
    let env = t.env(t.admin);
    t.mp.set_tier_fee_bps(&env, t.admin, RiskTier::A, 200).unwrap();
    assert_eq!(t.mp.get_tier_fee_bps(&env, RiskTier::A), Ok(200));
    for other in [RiskTier::AAA, RiskTier::AA, RiskTier::B, RiskTier::C] {
        assert_eq!(t.mp.get_tier_fee_bps(&env, other), Ok(50));
    }
    assert_eq!(t.mp.tier_fee_bps.get(&2), Some(200));

    let id = list_one(&mut t);
    let investor = t.generate();
    t.try_fund_invoice(investor, id, 1_000_000).unwrap();
    assert_eq!(
        t.effects[0],
        Effect::Transfer { token: t.token, from: investor, to: t.treasury, amount: 20_000 }
    );
}

#[test]
fn every_risk_class_is_stored_apart() {
    let mut t = deploy();
    let env = t.env(t.admin);
    let tiers = [RiskTier::AAA, RiskTier::AA, RiskTier::A, RiskTier::B, RiskTier::C];
    for (i, tier) in tiers.iter().enumerate() {
        t.mp.set_tier_fee_bps(&env, t.admin, *tier, 100 + i as u32).unwrap();
    }
    for (i, tier) in tiers.iter().enumerate() {
        assert_eq!(t.mp.get_tier_fee_bps(&env, *tier), Ok(100 + i as u32));
        assert_eq!(t.mp.tier_fee_bps.get(&(i as u32)), Some(100 + i as u32));
    }
}

#[test]
fn a_marketplace_that_is_not_set_up_quotes_the_default_fee() {
    let mut mp = MarketplaceContract::new();
    let env = call_env(START, address(8), address(1));
    assert_eq!(mp.get_tier_fee_bps(&env, RiskTier::AAA), Ok(50));
    assert_eq!(mp.get_fee_bps(&env), Err(KoraError::NotInitialized));
    assert_eq!(mp.get_config(&env), Err(KoraError::NotInitialized));
}

// Tokens

#[test]
fn tokens_come_on_and_off_the_list() {
    let mut t = deploy();
    let token = t.generate();
    t.try_whitelist_token(t.admin, token).unwrap();
    assert_eq!(
        t.effects,
        vec![
            bump(DataKey::WhitelistedToken(token)),
            Effect::Publish(Event::TokenWhitelisted { admin: t.admin, token }),
        ]
    );
    let stranger = t.generate();
    let env = t.env(stranger);
    assert_eq!(t.mp.remove_token_whitelist(&env, stranger, token), Err(KoraError::NotAdmin));
    let env = t.env(t.admin);
    assert_eq!(t.mp.remove_token_whitelist(&env, t.admin, token), Ok(()));
    assert!(!t.mp.is_token_whitelisted(token));
    assert!(t.mp.is_token_whitelisted(t.token));
    assert_eq!(
        t.mp.remove_token_whitelist(&env, t.admin, token),
        Err(KoraError::TokenNotWhitelisted)
    );
}

// Money

#[test]
fn the_contribution_that_reaches_the_price_has_the_seller_paid_out() {
    let mut t = deploy();
    let id = list_one(&mut t);
    let investor = t.generate();
    t.try_fund_invoice(investor, id, 9_499_999_999).unwrap();
    let release = Effect::ReleaseFunds {
        financing_pool: t.pool,
        caller: t.mp_address,
        invoice_id: id,
        token: t.token,
    };
    assert!(!t.effects.contains(&release));
    assert!(t.mp.get_listing(id).unwrap().is_active);
    t.try_fund_invoice(investor, id, 1).unwrap();
    assert_eq!(t.effects.last(), Some(&release));
    assert!(!t.mp.get_listing(id).unwrap().is_active);
    assert_eq!(t.try_fund_invoice(investor, id, 1), Err(KoraError::ListingAlreadyCancelled));
    t.timestamp += 86_400 * 31;
    assert_eq!(t.try_claim_refund(investor, id), Err(KoraError::ListingFullyFunded));
}

#[test]
fn a_free_contribution_goes_to_the_pool_whole() {
    let mut t = deploy();
    t.try_update_fee_bps(t.admin, 0).unwrap();
    let id = list_one(&mut t);
    let investor = t.generate();
    t.try_fund_invoice(investor, id, 1_000).unwrap();
    assert_eq!(
        t.effects,
        vec![
            Effect::Transfer { token: t.token, from: investor, to: t.pool, amount: 1_000 },
            bump(DataKey::Listing(id)),
            Effect::Publish(Event::InvoiceFunded { invoice_id: id, investor, amount: 1_000 }),
        ]
    );
}

#[test]
fn a_fee_can_take_a_contribution_whole() {
    let mut t = deploy();
    t.try_update_fee_bps(t.admin, 10_000).unwrap();
    t.try_set_referrer_split_bps(t.admin, 10_000).unwrap();
    let referrer = t.generate();
    let id = list_with_referrer(&mut t, Some(referrer));
    assert_eq!(t.effects[0], bump(DataKey::Referrer(id)));
    assert_eq!(t.mp.referrers.get(&id), Some(referrer));
    let investor = t.generate();
    t.try_fund_invoice(investor, id, 1_000).unwrap();
    assert_eq!(
        t.effects[0],
        Effect::Transfer { token: t.token, from: investor, to: referrer, amount: 1_000 }
    );
    assert_eq!(t.effects[1], bump(DataKey::Listing(id)));
    t.timestamp += 86_400 * 31;
    assert_eq!(t.try_claim_refund(investor, id), Err(KoraError::NoContribution));
}

#[test]
fn a_split_is_rounded_down_for_the_referrer() {
    let mut t = deploy();
    t.try_set_referrer_split_bps(t.admin, 3_333).unwrap();
    let referrer = t.generate();
    let id = list_with_referrer(&mut t, Some(referrer));
    let investor = t.generate();
    t.try_fund_invoice(investor, id, 2_000).unwrap();
    assert_eq!(
        t.effects[..3],
        [
            Effect::Transfer { token: t.token, from: investor, to: referrer, amount: 3 },
            Effect::Transfer { token: t.token, from: investor, to: t.treasury, amount: 7 },
            Effect::CollectFee { treasury: t.treasury, token: t.token, amount: 7 },
        ]
    );
}

#[test]
fn what_an_investor_pays_is_the_amount() {
    let mut t = deploy();
    t.try_set_referrer_split_bps(t.admin, 1_234).unwrap();
    let referrer = t.generate();
    let id = list_with_referrer(&mut t, Some(referrer));
    let investor = t.generate();
    for amount in [1i128, 199, 200, 20_001, 7_654_321] {
        t.try_fund_invoice(investor, id, amount).unwrap();
        let mut paid = 0i128;
        for effect in &t.effects {
            if let Effect::Transfer { from, amount, .. } = effect {
                assert_eq!(*from, investor);
                paid += amount;
            }
        }
        assert_eq!(paid, amount);
    }
}

#[test]
fn contributions_add_up_and_go_back_once() {
    let mut t = deploy();
    let id = list_one(&mut t);
    let (first, second) = (t.generate(), t.generate());
    t.try_fund_invoice(first, id, 1_000_000).unwrap();
    t.try_fund_invoice(second, id, 3_000_000).unwrap();
    t.try_fund_invoice(first, id, 2_000_000).unwrap();
    assert_eq!(t.mp.get_listing(id).unwrap().funded_amount, 6_000_000);
    t.timestamp += 86_400 * 30 + 1;

    t.try_claim_refund(first, id).unwrap();
    assert_eq!(
        t.effects,
        vec![
            Effect::Transfer { token: t.token, from: t.pool, to: first, amount: 2_985_000 },
            Effect::Publish(Event::RefundClaimed {
                invoice_id: id,
                investor: first,
                amount: 2_985_000,
            }),
        ]
    );
    assert_eq!(t.try_claim_refund(first, id), Err(KoraError::RefundAlreadyClaimed));
    t.try_claim_refund(second, id).unwrap();
    assert_eq!(
        t.effects[0],
        Effect::Transfer { token: t.token, from: t.pool, to: second, amount: 2_985_000 }
    );
    let stranger = t.generate();
    assert_eq!(t.try_claim_refund(stranger, id), Err(KoraError::NoContribution));
    assert_eq!(t.try_claim_refund(stranger, 999), Err(KoraError::ListingNotFound));
}

#[test]
fn books_do_not_overflow() {
    let mut t = deploy();
    let id = list_one(&mut t);
    let investor = t.generate();
    t.mp.contributions.set((id, investor), i128::MAX);
    assert_eq!(t.try_fund_invoice(investor, id, 1_000), Err(KoraError::ArithmeticOverflow));
    assert_eq!(t.mp.get_listing(id).unwrap().funded_amount, 0);

    t.set_funded_amount(id, i128::MIN);
    assert_eq!(t.try_fund_invoice(investor, id, 1_000), Err(KoraError::ArithmeticUnderflow));
}

#[test]
fn listings_do_not_touch_each_other() {
    let mut t = deploy();
    let first = list_one(&mut t);
    let second = list_one(&mut t);
    let investor = t.generate();
    t.try_fund_invoice(investor, first, 1_000_000).unwrap();
    t.try_cancel_listing(t.seller, first).unwrap();
    let listing = t.mp.get_listing(second).unwrap();
    assert!(listing.is_active);
    assert_eq!(listing.funded_amount, 0);
    assert_eq!(t.mp.contributions.get(&(second, investor)), None);
    assert_eq!(t.mp.get_listing(first).unwrap().funded_amount, 1_000_000);
}

// Cancelling in two phases

#[test]
fn a_confirmed_cancellation_opens_refunds_at_once() {
    let mut t = deploy();
    let id = list_one(&mut t);
    let investor = t.generate();
    t.try_fund_invoice(investor, id, 1_000_000).unwrap();

    t.try_request_cancellation(t.seller, id).unwrap();
    assert_eq!(
        t.effects,
        vec![
            bump(DataKey::CancellationRequest(id)),
            Effect::Publish(Event::CancellationRequested { invoice_id: id, caller: t.seller }),
        ]
    );
    assert_eq!(t.mp.cancellation_requests.get(&id), Some(t.seller));
    assert!(t.mp.get_listing(id).unwrap().is_active);
    assert_eq!(t.try_request_cancellation(t.admin, id), Err(KoraError::CancellationPending));
    assert_eq!(t.try_claim_refund(investor, id), Err(KoraError::FundingNotExpired));

    t.try_admin_confirm_cancellation(t.admin, id).unwrap();
    assert_eq!(
        t.effects,
        vec![
            bump(DataKey::Listing(id)),
            bump(DataKey::CancellationConfirmed(id)),
            Effect::Publish(Event::ListingCancelled { invoice_id: id, seller: t.seller }),
        ]
    );
    assert_eq!(
        t.try_admin_confirm_cancellation(t.admin, id),
        Err(KoraError::NoCancellationPending)
    );
    assert_eq!(t.try_fund_invoice(investor, id, 1), Err(KoraError::ListingAlreadyCancelled));
    assert_eq!(t.try_claim_refund(investor, id), Ok(()));
    assert_eq!(t.try_claim_refund(investor, id), Err(KoraError::RefundAlreadyClaimed));
}

#[test]
fn a_listing_without_contributions_is_cancelled_in_one_phase() {
    let mut t = deploy();
    let id = list_one(&mut t);
    t.try_request_cancellation(t.admin, id).unwrap();
    assert_eq!(
        t.effects,
        vec![
            bump(DataKey::Listing(id)),
            Effect::Publish(Event::ListingCancelled { invoice_id: id, seller: t.seller }),
        ]
    );
    assert_eq!(t.mp.cancellation_requests.get(&id), None);
}

#[test]
fn a_cancellation_is_not_confirmed_for_a_listing_off_the_offer() {
    let mut t = deploy();
    let id = list_one(&mut t);
    t.set_funded_amount(id, 1_000);
    t.try_request_cancellation(t.seller, id).unwrap();
    t.try_cancel_listing(t.seller, id).unwrap();
    assert_eq!(
        t.try_admin_confirm_cancellation(t.admin, id),
        Err(KoraError::ListingAlreadyCancelled)
    );
    t.mp.cancellation_requests.set(999, t.seller);
    assert_eq!(t.try_admin_confirm_cancellation(t.admin, 999), Err(KoraError::ListingNotFound));
}

#[test]
fn a_contribution_is_refunded_after_a_plain_cancellation_once_the_deadline_has_passed() {
    let mut t = deploy();
    let id = list_one(&mut t);
    let investor = t.generate();
    t.try_fund_invoice(investor, id, 1_000_000).unwrap();
    t.try_cancel_listing(t.admin, id).unwrap();
    assert_eq!(
        t.effects,
        vec![
            bump(DataKey::Listing(id)),
            Effect::Publish(Event::ListingCancelled { invoice_id: id, seller: t.seller }),
        ]
    );
    assert_eq!(t.try_claim_refund(investor, id), Err(KoraError::FundingNotExpired));
    t.timestamp += 86_400 * 30 + 1;
    assert_eq!(t.try_claim_refund(investor, id), Ok(()));
}

// Older deployments

fn legacy_marketplace(t: &mut TestEnv) -> Address {
    let access_control = t.generate();
    t.mp = MarketplaceContract::new();
    t.mp.legacy = LegacyConfig {
        admin: Some(t.admin),
        invoice_nft: Some(t.nft),
        financing_pool: Some(t.pool),
        treasury: Some(t.treasury),
        access_control: Some(access_control),
        fee_bps: Some(30),
    };
    access_control
}

#[test]
fn an_older_configuration_moves_into_one_entry() {
    let mut t = deploy();
    let access_control = legacy_marketplace(&mut t);
    let mut env = t.env(t.seller);
    let config = MarketplaceConfig {
        admin: t.admin,
        invoice_nft: t.nft,
        financing_pool: t.pool,
        treasury: t.treasury,
        access_control,
        risk_registry: env.fresh_address,
        fee_bps: 30,
        referrer_split_bps: 0,
    };
    assert_eq!(t.mp.config, None);
    assert_eq!(t.mp.get_config(&env), Ok(config));
    assert_eq!(t.mp.config, Some(config));
    env.fresh_address = address(5_555);
    assert_eq!(t.mp.get_config(&env), Ok(config));
    assert_eq!(t.mp.get_tier_fee_bps(&env, RiskTier::B), Ok(30));
}

#[test]
fn an_older_configuration_must_be_complete() {
    let mut t = deploy();
    legacy_marketplace(&mut t);
    let complete = t.mp.legacy;
    let env = t.env(t.seller);
    let lacking = [
        LegacyConfig { admin: None, ..complete },
        LegacyConfig { invoice_nft: None, ..complete },
        LegacyConfig { financing_pool: None, ..complete },
        LegacyConfig { treasury: None, ..complete },
        LegacyConfig { access_control: None, ..complete },
        LegacyConfig { fee_bps: None, ..complete },
    ];
    for legacy in lacking {
        t.mp.legacy = legacy;
        assert_eq!(t.mp.get_config(&env), Err(KoraError::NotInitialized));
        assert_eq!(t.mp.config, None);
    }
}

#[test]
fn an_older_deployment_can_be_paused() {
    let mut t = deploy();
    let access_control = legacy_marketplace(&mut t);
    t.try_whitelist_token(t.admin, t.token).unwrap();
    assert_eq!(t.mp.config.map(|c| c.fee_bps), Some(30));
    let id = mint_invoice(&mut t);
    let deadline = t.timestamp + 10;
    let mut env = t.env(t.seller);
    assert_eq!(
        t.mp.list_invoice(
            &mut env,
            t.seller,
            id,
            1,
            10_000_000_000,
            t.token,
            deadline,
            None,
            &no_list_replies(),
        ),
        Ok(ListStep::AskPaused { access_control })
    );
    let mut env = t.env(t.seller);
    assert_eq!(
        t.mp.fund_invoice(&mut env, t.seller, id, 1, &no_fund_replies()),
        Ok(FundStep::AskPaused { access_control })
    );
    t.paused = true;
    assert_eq!(
        t.try_list_invoice(t.seller, id, 1, 10_000_000_000, t.token, deadline, None),
        Err(KoraError::ProtocolPaused)
    );
    assert_eq!(t.try_fund_invoice(t.seller, id, 1), Err(KoraError::ProtocolPaused));
    t.paused = false;
    assert_eq!(t.try_fund_invoice(t.seller, id, 1), Err(KoraError::ListingNotFound));
}

// Upgrades

#[test]
fn an_upgrade_waits_for_its_timelock() {
    let mut t = deploy();
    let hash = [9u8; 32];
    let stranger = t.generate();
    let mut env = t.env(stranger);
    assert_eq!(t.mp.propose_upgrade(&mut env, stranger, hash), Err(KoraError::NotAdmin));
    assert_eq!(t.mp.execute_upgrade(&mut env, stranger), Err(KoraError::NotAdmin));

    let mut env = t.env(t.admin);
    assert_eq!(t.mp.execute_upgrade(&mut env, t.admin), Err(KoraError::NoUpgradeProposed));
    t.mp.propose_upgrade(&mut env, t.admin, hash).unwrap();
    assert_eq!(
        env.effects,
        vec![Effect::Publish(Event::UpgradeProposed { admin: t.admin, wasm_hash: hash })]
    );
    assert_eq!(
        t.mp.upgrade_proposal,
        Some(UpgradeProposal { wasm_hash: hash, proposed_at: t.timestamp })
    );

    t.timestamp += TIMELOCK - 1;
    let mut env = t.env(t.admin);
    assert_eq!(
        t.mp.execute_upgrade(&mut env, t.admin),
        Err(KoraError::UpgradeTimelockNotElapsed)
    );
    assert!(env.effects.is_empty());
    t.timestamp += 1;
    let mut env = t.env(t.admin);
    assert_eq!(t.mp.execute_upgrade(&mut env, t.admin), Ok(()));
    assert_eq!(
        env.effects,
        vec![
            Effect::Publish(Event::UpgradeExecuted { admin: t.admin, wasm_hash: hash }),
            Effect::UpdateWasm(hash),
        ]
    );
    assert_eq!(t.mp.execute_upgrade(&mut env, t.admin), Err(KoraError::NoUpgradeProposed));
}

#[test]
fn a_listing_reads_back_whole() {
    let mut t = deploy();
    let id = list_one(&mut t);
    assert_eq!(
        t.mp.get_listing(id),
        Ok(Listing {
            invoice_id: id,
            seller: t.seller,
            asking_price: 9_500_000_000,
            face_value: 10_000_000_000,
            token: t.token,
            funded_amount: 0,
            funding_deadline: START + 86_400 * 30,
            is_active: true,
        })
    );
}
