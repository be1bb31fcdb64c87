use vstd::prelude::*;

use crate::errors::KoraError;
use crate::types::{Address, Listing, RiskTier, UpgradeProposal};
use crate::validation::BPS_DENOMINATOR;

verus! {

/// An entry whose remaining life is below this many ledgers, about thirty days, is extended.
pub const PERSISTENT_TTL_THRESHOLD: u32 = 518_400;

/// The ledgers to which the life of an entry is extended.
pub const PERSISTENT_TTL_BUMP: u32 = 518_400;

/// The fee that is quoted for a risk class while the marketplace is not set up.
pub const DEFAULT_FEE_BPS: u32 = 50;

/// The keys of the marketplace's storage.
#[derive(Clone, Copy, Debug, PartialEq, Eq)]
pub enum DataKey {
    Config,
    Admin,
    InvoiceNft,
    FinancingPool,
    Treasury,
    AccessControl,
    FeeBps,
    Listing(u64),
    WhitelistedToken(Address),
    UpgradeProposal,
    /// The fee of a risk class, by the ordinal of the class.
    TierFeeBps(u32),
    /// What an investor has paid into the pool for a listing, fees excluded.
    Contribution(u64, Address),
    /// Whether an investor has had its contribution to a listing back.
    RefundClaimed(u64, Address),
    /// Who shares in the fees of a listing.
    Referrer(u64),
    /// Who has asked for the cancellation of a listing.
    CancellationRequest(u64),
    /// Whether the admin has confirmed the cancellation of a listing.
    CancellationConfirmed(u64),
}

/// The parties and the rates of the marketplace.
#[derive(Clone, Copy, Debug, PartialEq, Eq, Structural)]
pub struct MarketplaceConfig {
    pub admin: Address,
    pub invoice_nft: Address,
    pub financing_pool: Address,
    pub treasury: Address,
    pub access_control: Address,
    pub risk_registry: Address,
    pub fee_bps: u32,
    /// The share of a fee that goes to the referrer of a listing; zero for none.
    pub referrer_split_bps: u32,
}

/// The entries in which deployments kept the configuration before it was one entry.
#[derive(Clone, Copy, Debug, PartialEq, Eq)]
pub struct LegacyConfig {
    pub admin: Option<Address>,
    pub invoice_nft: Option<Address>,
    pub financing_pool: Option<Address>,
    pub treasury: Option<Address>,
    pub access_control: Option<Address>,
    pub fee_bps: Option<u32>,
}

/// What the marketplace announces.
#[derive(Clone, Copy, Debug, PartialEq, Eq)]
pub enum Event {
    FeeRateUpdated { admin: Address, old_bps: u32, new_bps: u32 },
    TokenWhitelisted { admin: Address, token: Address },
    InvoiceListed { invoice_id: u64, seller: Address, asking_price: i128 },
    InvoiceFunded { invoice_id: u64, investor: Address, amount: i128 },
    FeeCollected { investor: Address, invoice_id: u64, fee: i128, token: Address },
    ListingCancelled { invoice_id: u64, seller: Address },
    CancellationRequested { invoice_id: u64, caller: Address },
    RefundClaimed { invoice_id: u64, investor: Address, amount: i128 },
    UpgradeProposed { admin: Address, wasm_hash: [u8; 32] },
    UpgradeExecuted { admin: Address, wasm_hash: [u8; 32] },
}

/// What the marketplace asks of the host.
#[derive(Clone, Copy, Debug, PartialEq, Eq)]
pub enum Effect {
    /// Extend the life of a storage entry to `extend_to` ledgers if it is below `threshold`.
    ExtendTtl { key: DataKey, threshold: u32, extend_to: u32 },
    /// Move tokens.
    Transfer { token: Address, from: Address, to: Address, amount: i128 },
    /// Have the treasury record a fee.
    CollectFee { treasury: Address, token: Address, amount: i128 },
    /// Have the invoice contract mark an invoice as listed.
    SetListed { invoice_nft: Address, caller: Address, invoice_id: u64 },
    /// Have the financing pool pay the seller of an invoice out.
    ReleaseFunds { financing_pool: Address, caller: Address, invoice_id: u64, token: Address },
    /// Announce an event.
    Publish(Event),
    /// Run other code in place of the contract's.
    UpdateWasm([u8; 32]),
}

/// The answers that the listing of an invoice waits for, as far as they have come.
#[derive(Clone, Copy, Debug, PartialEq, Eq)]
pub struct ListReplies {
    /// Whether the access control says that the protocol is paused.
    pub paused: Option<bool>,
    /// What the protocol's bound on amounts says of the asking price.
    pub asking_price_bound: Option<Result<(), KoraError>>,
    /// What the protocol's bound on amounts says of the face value.
    pub face_value_bound: Option<Result<(), KoraError>>,
    /// Whether the risk registry says that the seller's compliance is attested.
    pub attested: Option<bool>,
    /// The amount of the invoice, from the invoice contract.
    pub invoice_amount: Option<i128>,
}

/// How far the listing of an invoice has come.
#[derive(Clone, Copy, Debug, PartialEq, Eq, Structural)]
pub enum ListStep {
    /// It waits for the access control to say whether the protocol is paused.
    AskPaused { access_control: Address },
    /// It waits for the protocol's bound on amounts to be held against the asking price.
    AskAskingPriceBound { amount: i128 },
    /// It waits for the protocol's bound on amounts to be held against the face value.
    AskFaceValueBound { amount: i128 },
    /// It waits for the risk registry to say whether a seller's compliance is attested.
    AskAttested { risk_registry: Address, sme: Address },
    /// It waits for the invoice contract to give the amount of an invoice.
    AskInvoiceAmount { invoice_nft: Address, invoice_id: u64 },
    /// The invoice is listed.
    Done,
}

/// The answers that the funding of an invoice waits for, as far as they have come.
#[derive(Clone, Copy, Debug, PartialEq, Eq)]
pub struct FundReplies {
    /// Whether the access control says that the protocol is paused.
    pub paused: Option<bool>,
    /// What the protocol's bound on amounts says of the amount.
    pub amount_bound: Option<Result<(), KoraError>>,
    /// Whether the invoice contract says that the invoice is frozen.
    pub frozen: Option<bool>,
    /// The decimals of the listing's token.
    pub decimals: Option<u32>,
    /// The risk class of the invoice, from the invoice contract.
    pub risk_tier: Option<RiskTier>,
    /// The protocol's fee on the amount.
    pub fee: Option<Result<i128, KoraError>>,
}

/// How far the funding of an invoice has come.
#[derive(Clone, Copy, Debug, PartialEq, Eq, Structural)]
pub enum FundStep {
    /// It waits for the access control to say whether the protocol is paused.
    AskPaused { access_control: Address },
    /// It waits for the protocol's bound on amounts to be held against the amount.
    AskAmountBound { amount: i128 },
    /// It waits for the invoice contract to say whether an invoice is frozen.
    AskFrozen { invoice_nft: Address, invoice_id: u64 },
    /// It waits for the decimals of a token.
    AskDecimals { token: Address },
    /// It waits for the invoice contract to give the risk class of an invoice.
    AskRiskTier { invoice_nft: Address, invoice_id: u64 },
    /// It waits for the protocol's fee on an amount of a token with so many decimals.
    AskFee { amount: i128, fee_bps: u32, decimals: u32 },
    /// The contribution is made.
    Done,
}

/// The terms on which an invoice is to be listed.
pub struct ListRequest {
    pub seller: Address,
    pub invoice_id: u64,
    pub asking_price: i128,
    pub face_value: i128,
    pub token: Address,
    pub funding_deadline: u64,
    pub referrer: Option<Address>,
}

impl DataKey {
    /// The extension of the life of an entry.
    pub open spec fn bump(self) -> Effect {
        Effect::ExtendTtl {
            key: self,
            threshold: PERSISTENT_TTL_THRESHOLD,
            extend_to: PERSISTENT_TTL_BUMP,
        }
    }
}

impl LegacyConfig {
    /// No such entries.
    pub open spec fn absent() -> Self {
        LegacyConfig {
            admin: None,
            invoice_nft: None,
            financing_pool: None,
            treasury: None,
            access_control: None,
            fee_bps: None,
        }
    }

    /// The configuration that the entries make up, if none is missing. They know of no risk
    /// registry, for which a fresh address stands, and of no referrers.
    pub open spec fn consolidated(self, fresh_address: Address) -> Result<
        MarketplaceConfig,
        KoraError,
    > {
        if self.admin is Some && self.invoice_nft is Some && self.financing_pool is Some
            && self.treasury is Some && self.access_control is Some && self.fee_bps is Some {
            Ok(
                MarketplaceConfig {
                    admin: self.admin->0,
                    invoice_nft: self.invoice_nft->0,
                    financing_pool: self.financing_pool->0,
                    treasury: self.treasury->0,
                    access_control: self.access_control->0,
                    risk_registry: fresh_address,
                    fee_bps: self.fee_bps->0,
                    referrer_split_bps: 0,
                },
            )
        } else {
            Err(KoraError::NotInitialized)
        }
    }
}

/// What the marketplace's storage holds.
#[verifier::ext_equal]
pub struct MarketplaceState {
    pub config: Option<MarketplaceConfig>,
    pub legacy: LegacyConfig,
    pub tier_fee_bps: Map<u32, u32>,
    pub whitelist: Map<Address, bool>,
    pub listings: Map<u64, Listing>,
    pub referrers: Map<u64, Address>,
    pub contributions: Map<(u64, Address), i128>,
    pub refunds_claimed: Map<(u64, Address), bool>,
    pub cancellation_requests: Map<u64, Address>,
    pub cancellations_confirmed: Map<u64, bool>,
    pub upgrade_proposal: Option<UpgradeProposal>,
}

impl MarketplaceState {
    /// Empty storage.
    pub open spec fn empty() -> Self {
        MarketplaceState {
            config: None,
            legacy: LegacyConfig::absent(),
            tier_fee_bps: Map::empty(),
            whitelist: Map::empty(),
            listings: Map::empty(),
            referrers: Map::empty(),
            contributions: Map::empty(),
            refunds_claimed: Map::empty(),
            cancellation_requests: Map::empty(),
            cancellations_confirmed: Map::empty(),
            upgrade_proposal: None,
        }
    }

    /// What holds of the marketplace's storage at every time.
    pub open spec fn wf(self) -> bool {
        &&& self.config matches Some(config) ==> config.fee_bps <= BPS_DENOMINATOR
            && config.referrer_split_bps <= BPS_DENOMINATOR
        &&& self.legacy.fee_bps matches Some(fee_bps) ==> fee_bps <= BPS_DENOMINATOR
        &&& forall|tier: u32| #[trigger]
            self.tier_fee_bps.contains_key(tier) ==> self.tier_fee_bps[tier] <= BPS_DENOMINATOR
        &&& forall|token: Address| #[trigger]
            self.whitelist.contains_key(token) ==> self.whitelist[token]
        &&& forall|id: u64| #[trigger]
            self.listings.contains_key(id) ==> self.listing_wf(id)
        &&& forall|id: u64| #[trigger]
            self.referrers.contains_key(id) ==> self.listings.contains_key(id)
                && self.referrers[id] != self.listings[id].seller
        &&& forall|key: (u64, Address)| #[trigger]
            self.contributions.contains_key(key) ==> self.listings.contains_key(key.0) && 0
                <= self.contributions[key] <= self.listings[key.0].funded_amount
        &&& forall|key: (u64, Address)| #[trigger]
            self.refunds_claimed.contains_key(key) ==> self.contributions.contains_key(key)
                && self.refunds_claimed[key]
        &&& forall|id: u64| #[trigger]
            self.cancellation_requests.contains_key(id) ==> self.listings.contains_key(id)
                && self.listings[id].funded_amount > 0
        &&& forall|id: u64| #[trigger]
            self.cancellations_confirmed.contains_key(id) ==> self.cancellations_confirmed[id]
                && self.listings.contains_key(id) && !self.listings[id].is_active
    }

    /// A listing is sold at a discount, is never funded beyond its price, and is on offer only
    /// until the price is reached.
    pub open spec fn listing_wf(self, id: u64) -> bool {
        let listing = self.listings[id];
        &&& listing.invoice_id == id
        &&& 0 < listing.asking_price < listing.face_value
        &&& 0 <= listing.funded_amount <= listing.asking_price
        &&& listing.is_active ==> listing.funded_amount < listing.asking_price
    }

    /// The configuration: the one entry that holds it or, where that is missing, the entries of
    /// an older deployment.
    pub open spec fn loaded(self, fresh_address: Address) -> Result<MarketplaceConfig, KoraError> {
        match self.config {
            Some(config) => Ok(config),
            None => self.legacy.consolidated(fresh_address),
        }
    }

    /// The storage with a configuration in its one entry.
    pub open spec fn with_config(self, config: MarketplaceConfig) -> Self {
        MarketplaceState { config: Some(config), ..self }
    }

    /// The storage after its configuration has been loaded.
    pub open spec fn migrated(self, fresh_address: Address) -> Self {
        match self.loaded(fresh_address) {
            Ok(config) => self.with_config(config),
            Err(_) => self,
        }
    }

    /// The general fee.
    pub open spec fn general_fee_bps(self, fresh_address: Address) -> Result<u32, KoraError> {
        match self.loaded(fresh_address) {
            Ok(config) => Ok(config.fee_bps),
            Err(error) => Err(error),
        }
    }

    /// The admin.
    pub open spec fn admin(self, fresh_address: Address) -> Result<Address, KoraError> {
        match self.loaded(fresh_address) {
            Ok(config) => Ok(config.admin),
            Err(error) => Err(error),
        }
    }

    /// A listing, if there is one.
    pub open spec fn listing(self, invoice_id: u64) -> Result<Listing, KoraError> {
        if self.listings.contains_key(invoice_id) {
            Ok(self.listings[invoice_id])
        } else {
            Err(KoraError::ListingNotFound)
        }
    }

    /// Only the admin may act.
    pub open spec fn admin_verdict(self, fresh_address: Address, caller: Address) -> Result<
        (),
        KoraError,
    > {
        match self.loaded(fresh_address) {
            Ok(config) => KoraError::NotAdmin.unless(config.admin == caller),
            Err(error) => Err(error),
        }
    }

    /// Only the admin may set a rate, and to at most the whole.
    pub open spec fn set_rate_verdict(
        self,
        fresh_address: Address,
        caller: Address,
        bps: u32,
    ) -> Result<(), KoraError> {
        if self.admin_verdict(fresh_address, caller) is Err {
            self.admin_verdict(fresh_address, caller)
        } else {
            KoraError::InvalidFeeRate.unless(bps <= BPS_DENOMINATOR)
        }
    }

    /// The marketplace is set up once, with a valid fee.
    pub open spec fn initialize_verdict(self, fee_bps: u32) -> Result<(), KoraError> {
        if self.config is Some {
            Err(KoraError::AlreadyInitialized)
        } else {
            KoraError::InvalidFeeRate.unless(fee_bps <= BPS_DENOMINATOR)
        }
    }

    pub open spec fn referrer_split_set(self, fresh_address: Address, bps: u32) -> Self {
        let config = self.loaded(fresh_address)->Ok_0;
        self.with_config(MarketplaceConfig { referrer_split_bps: bps, ..config })
    }

    pub open spec fn fee_set(self, fresh_address: Address, bps: u32) -> Self {
        let config = self.loaded(fresh_address)->Ok_0;
        self.with_config(MarketplaceConfig { fee_bps: bps, ..config })
    }

    pub open spec fn set_fee_effects(
        self,
        fresh_address: Address,
        admin: Address,
        bps: u32,
    ) -> Seq<Effect> {
        seq![
            Effect::Publish(
                Event::FeeRateUpdated {
                    admin,
                    old_bps: self.loaded(fresh_address)->Ok_0.fee_bps,
                    new_bps: bps,
                },
            ),
        ]
    }

    pub open spec fn tier_fee_set(self, fresh_address: Address, tier: RiskTier, bps: u32) -> Self {
        MarketplaceState {
            tier_fee_bps: self.tier_fee_bps.insert(tier.ordinal(), bps),
            ..self.migrated(fresh_address)
        }
    }

    /// The fee that is quoted for a risk class: its own, else the general one.
    pub open spec fn quoted_fee_bps(self, fresh_address: Address, tier: RiskTier) -> u32 {
        if self.tier_fee_bps.contains_key(tier.ordinal()) {
            self.tier_fee_bps[tier.ordinal()]
        } else {
            match self.loaded(fresh_address) {
                Ok(config) => config.fee_bps,
                Err(_) => DEFAULT_FEE_BPS,
            }
        }
    }

    /// The fee that a contribution is charged: that of the invoice's risk class, else the general
    /// one.
    pub open spec fn effective_fee_bps(self, config: MarketplaceConfig, tier: RiskTier) -> u32 {
        if self.tier_fee_bps.contains_key(tier.ordinal()) {
            self.tier_fee_bps[tier.ordinal()]
        } else {
            config.fee_bps
        }
    }

    /// Whether listings may be in a token.
    pub open spec fn is_whitelisted(self, token: Address) -> bool {
        self.whitelist.contains_key(token) && self.whitelist[token]
    }

    pub open spec fn token_whitelisted(self, fresh_address: Address, token: Address) -> Self {
        MarketplaceState {
            whitelist: self.whitelist.insert(token, true),
            ..self.migrated(fresh_address)
        }
    }

    pub open spec fn whitelist_effects(self, admin: Address, token: Address) -> Seq<Effect> {
        seq![
            DataKey::WhitelistedToken(token).bump(),
            Effect::Publish(Event::TokenWhitelisted { admin, token }),
        ]
    }

    pub open spec fn remove_token_whitelist_verdict(
        self,
        fresh_address: Address,
        caller: Address,
        token: Address,
    ) -> Result<(), KoraError> {
        if self.admin_verdict(fresh_address, caller) is Err {
            self.admin_verdict(fresh_address, caller)
        } else {
            KoraError::TokenNotWhitelisted.unless(self.is_whitelisted(token))
        }
    }

    pub open spec fn token_removed(self, fresh_address: Address, token: Address) -> Self {
        MarketplaceState {
            whitelist: self.whitelist.remove(token),
            ..self.migrated(fresh_address)
        }
    }

    /// What the listing of an invoice comes to with the answers that have come so far.
    pub open spec fn list_outcome(
        self,
        timestamp: u64,
        fresh_address: Address,
        guard: Result<(), KoraError>,
        request: ListRequest,
        replies: ListReplies,
    ) -> Result<ListStep, KoraError> {
        if self.legacy.access_control is Some && replies.paused is None {
            Ok(ListStep::AskPaused { access_control: self.legacy.access_control->0 })
        } else if self.legacy.access_control is Some && replies.paused->0 {
            Err(KoraError::ProtocolPaused)
        } else if request.asking_price <= 0 || request.face_value <= 0 {
            Err(KoraError::InvalidAmount)
        } else if replies.asking_price_bound is None {
            Ok(ListStep::AskAskingPriceBound { amount: request.asking_price })
        } else if replies.asking_price_bound->0 is Err {
            Err(replies.asking_price_bound->0->Err_0)
        } else if replies.face_value_bound is None {
            Ok(ListStep::AskFaceValueBound { amount: request.face_value })
        } else if replies.face_value_bound->0 is Err {
            Err(replies.face_value_bound->0->Err_0)
        } else if request.funding_deadline <= timestamp {
            Err(KoraError::InvalidDueDate)
        } else if request.asking_price >= request.face_value {
            Err(KoraError::InvalidAmount)
        } else if !self.is_whitelisted(request.token) {
            Err(KoraError::TokenNotWhitelisted)
        } else {
            match self.loaded(fresh_address) {
                Err(error) => Err(error),
                Ok(config) => if replies.attested is None {
                    Ok(
                        ListStep::AskAttested {
                            risk_registry: config.risk_registry,
                            sme: request.seller,
                        },
                    )
                } else if !replies.attested->0 {
                    Err(KoraError::ComplianceNotAttested)
                } else if self.listings.contains_key(request.invoice_id) {
                    Err(KoraError::InvoiceAlreadyExists)
                } else if guard is Err {
                    Err(guard->Err_0)
                } else if request.referrer == Some(request.seller) {
                    Err(KoraError::InvalidAddress)
                } else if replies.invoice_amount is None {
                    Ok(
                        ListStep::AskInvoiceAmount {
                            invoice_nft: config.invoice_nft,
                            invoice_id: request.invoice_id,
                        },
                    )
                } else if replies.invoice_amount->0 != request.face_value {
                    Err(KoraError::InvalidAmount)
                } else {
                    Ok(ListStep::Done)
                },
            }
        }
    }

    pub open spec fn listed(self, fresh_address: Address, request: ListRequest) -> Self {
        MarketplaceState {
            listings: self.listings.insert(
                request.invoice_id,
                Listing {
                    invoice_id: request.invoice_id,
                    seller: request.seller,
                    asking_price: request.asking_price,
                    face_value: request.face_value,
                    token: request.token,
                    funded_amount: 0,
                    funding_deadline: request.funding_deadline,
                    is_active: true,
                },
            ),
            referrers: match request.referrer {
                Some(referrer) => self.referrers.insert(request.invoice_id, referrer),
                None => self.referrers,
            },
            ..self.migrated(fresh_address)
        }
    }

    pub open spec fn list_effects(
        self,
        fresh_address: Address,
        contract: Address,
        request: ListRequest,
    ) -> Seq<Effect> {
        let config = self.loaded(fresh_address)->Ok_0;
        (if request.referrer is Some {
            seq![DataKey::Referrer(request.invoice_id).bump()]
        } else {
            Seq::empty()
        }) + seq![
            Effect::SetListed {
                invoice_nft: config.invoice_nft,
                caller: contract,
                invoice_id: request.invoice_id,
            },
            DataKey::Listing(request.invoice_id).bump(),
            Effect::Publish(
                Event::InvoiceListed {
                    invoice_id: request.invoice_id,
                    seller: request.seller,
                    asking_price: request.asking_price,
                },
            ),
        ]
    }

    /// What an investor has paid into the pool for a listing.
    pub open spec fn contribution(self, invoice_id: u64, investor: Address) -> i128 {
        if self.contributions.contains_key((invoice_id, investor)) {
            self.contributions[(invoice_id, investor)]
        } else {
            0
        }
    }

    /// What goes to the referrer of a listing out of a fee.
    pub open spec fn referral_share(
        self,
        config: MarketplaceConfig,
        invoice_id: u64,
        fee: i128,
    ) -> int {
        if fee > 0 && self.referrers.contains_key(invoice_id) {
            crate::validation::bps_share(fee as int, config.referrer_split_bps as int)
        } else {
            0
        }
    }

    /// Whether a contribution with its fee can be entered into the books.
    pub open spec fn booking_verdict(
        self,
        config: MarketplaceConfig,
        investor: Address,
        invoice_id: u64,
        amount: i128,
        fee: i128,
    ) -> Result<(), KoraError> {
        let funded = self.listings[invoice_id].funded_amount + amount;
        let contributed = self.contribution(invoice_id, investor) + (amount - fee);
        KoraError::ArithmeticOverflow.unless(
            i128::MIN <= amount - fee <= i128::MAX && self.referral_share(config, invoice_id, fee)
                <= i128::MAX && i128::MIN <= funded <= i128::MAX && i128::MIN <= contributed
                <= i128::MAX,
        )
    }

    /// What the funding of an invoice comes to with the answers that have come so far.
    pub open spec fn fund_outcome(
        self,
        timestamp: u64,
        fresh_address: Address,
        investor: Address,
        invoice_id: u64,
        amount: i128,
        replies: FundReplies,
    ) -> Result<FundStep, KoraError> {
        let listing = self.listings[invoice_id];
        if self.legacy.access_control is Some && replies.paused is None {
            Ok(FundStep::AskPaused { access_control: self.legacy.access_control->0 })
        } else if self.legacy.access_control is Some && replies.paused->0 {
            Err(KoraError::ProtocolPaused)
        } else if amount <= 0 {
            Err(KoraError::InvalidAmount)
        } else if replies.amount_bound is None {
            Ok(FundStep::AskAmountBound { amount })
        } else if replies.amount_bound->0 is Err {
            Err(replies.amount_bound->0->Err_0)
        } else if !self.listings.contains_key(invoice_id) {
            Err(KoraError::ListingNotFound)
        } else if !listing.is_active {
            Err(KoraError::ListingAlreadyCancelled)
        } else if timestamp > listing.funding_deadline {
            Err(KoraError::FundingDeadlinePassed)
        } else if !(i128::MIN <= listing.asking_price - listing.funded_amount <= i128::MAX) {
            Err(KoraError::ArithmeticUnderflow)
        } else if amount > listing.asking_price - listing.funded_amount {
            Err(KoraError::ExceedsFundingTarget)
        } else {
            match self.loaded(fresh_address) {
                Err(error) => Err(error),
                Ok(config) => if replies.frozen is None {
                    Ok(FundStep::AskFrozen { invoice_nft: config.invoice_nft, invoice_id })
                } else if replies.frozen->0 {
                    Err(KoraError::InvoiceFrozen)
                } else if replies.decimals is None {
                    Ok(FundStep::AskDecimals { token: listing.token })
                } else if replies.risk_tier is None {
                    Ok(FundStep::AskRiskTier { invoice_nft: config.invoice_nft, invoice_id })
                } else if replies.fee is None {
                    Ok(
                        FundStep::AskFee {
                            amount,
                            fee_bps: self.effective_fee_bps(config, replies.risk_tier->0),
                            decimals: replies.decimals->0,
                        },
                    )
                } else {
                    match replies.fee->0 {
                        Err(error) => Err(error),
                        Ok(fee) => match self.booking_verdict(
                            config,
                            investor,
                            invoice_id,
                            amount,
                            fee,
                        ) {
                            Err(error) => Err(error),
                            Ok(_) => Ok(FundStep::Done),
                        },
                    }
                },
            }
        }
    }

    /// The contribution counts in full towards the price of the listing, which leaves the offer
    /// once the price is reached; less the fee it counts towards the investor's refund.
    pub open spec fn funded(
        self,
        fresh_address: Address,
        investor: Address,
        invoice_id: u64,
        amount: i128,
        fee: i128,
    ) -> Self {
        let listing = self.listings[invoice_id];
        let funded_amount = (listing.funded_amount + amount) as i128;
        MarketplaceState {
            listings: self.listings.insert(
                invoice_id,
                Listing {
                    funded_amount,
                    is_active: listing.is_active && funded_amount < listing.asking_price,
                    ..listing
                },
            ),
            contributions: self.contributions.insert(
                (invoice_id, investor),
                (self.contribution(invoice_id, investor) + (amount - fee)) as i128,
            ),
            ..self.migrated(fresh_address)
        }
    }

    /// Where the investor's tokens go: the fee to the referrer and to the treasury, which records
    /// its part, and the rest to the financing pool.
    pub open spec fn payments(
        self,
        config: MarketplaceConfig,
        investor: Address,
        invoice_id: u64,
        amount: i128,
        fee: i128,
    ) -> Seq<Effect> {
        let token = self.listings[invoice_id].token;
        let referral = self.referral_share(config, invoice_id, fee) as i128;
        let treasury_fee = (fee - referral) as i128;
        let net = (amount - fee) as i128;
        (if referral > 0 {
            seq![
                Effect::Transfer {
                    token,
                    from: investor,
                    to: self.referrers[invoice_id],
                    amount: referral,
                },
            ]
        } else {
            Seq::empty()
        }) + (if treasury_fee > 0 {
            seq![
                Effect::Transfer {
                    token,
                    from: investor,
                    to: config.treasury,
                    amount: treasury_fee,
                },
                Effect::CollectFee { treasury: config.treasury, token, amount: treasury_fee },
            ]
        } else {
            Seq::empty()
        }) + (if net > 0 {
            seq![
                Effect::Transfer { token, from: investor, to: config.financing_pool, amount: net },
            ]
        } else {
            Seq::empty()
        })
    }

    pub open spec fn fund_effects(
        self,
        fresh_address: Address,
        contract: Address,
        investor: Address,
        invoice_id: u64,
        amount: i128,
        fee: i128,
    ) -> Seq<Effect> {
        let config = self.loaded(fresh_address)->Ok_0;
        let listing = self.listings[invoice_id];
        let token = listing.token;
        self.payments(config, investor, invoice_id, amount, fee) + seq![
            DataKey::Listing(invoice_id).bump(),
            Effect::Publish(Event::InvoiceFunded { invoice_id, investor, amount }),
        ] + (if fee > 0 {
            seq![Effect::Publish(Event::FeeCollected { investor, invoice_id, fee, token })]
        } else {
            Seq::empty()
        }) + (if listing.funded_amount + amount >= listing.asking_price {
            seq![
                Effect::ReleaseFunds {
                    financing_pool: config.financing_pool,
                    caller: contract,
                    invoice_id,
                    token,
                },
            ]
        } else {
            Seq::empty()
        })
    }

    /// The seller or the admin may take a listing off the offer.
    pub open spec fn cancel_verdict(
        self,
        fresh_address: Address,
        caller: Address,
        invoice_id: u64,
    ) -> Result<(), KoraError> {
        if !self.listings.contains_key(invoice_id) {
            Err(KoraError::ListingNotFound)
        } else if !self.listings[invoice_id].is_active {
            Err(KoraError::ListingAlreadyCancelled)
        } else {
            match self.loaded(fresh_address) {
                Err(error) => Err(error),
                Ok(config) => KoraError::Unauthorized.unless(
                    caller == self.listings[invoice_id].seller || caller == config.admin,
                ),
            }
        }
    }

    pub open spec fn cancelled(self, fresh_address: Address, invoice_id: u64) -> Self {
        MarketplaceState {
            listings: self.listings.insert(
                invoice_id,
                Listing { is_active: false, ..self.listings[invoice_id] },
            ),
            ..self.migrated(fresh_address)
        }
    }

    pub open spec fn cancel_effects(self, invoice_id: u64) -> Seq<Effect> {
        seq![
            DataKey::Listing(invoice_id).bump(),
            Effect::Publish(
                Event::ListingCancelled { invoice_id, seller: self.listings[invoice_id].seller },
            ),
        ]
    }

    /// A listing that investors have paid into is cancelled in two phases, and only once.
    pub open spec fn request_cancellation_verdict(
        self,
        fresh_address: Address,
        caller: Address,
        invoice_id: u64,
    ) -> Result<(), KoraError> {
        if self.cancel_verdict(fresh_address, caller, invoice_id) is Err {
            self.cancel_verdict(fresh_address, caller, invoice_id)
        } else {
            KoraError::CancellationPending.unless(
                self.listings[invoice_id].funded_amount == 0
                    || !self.cancellation_requests.contains_key(invoice_id),
            )
        }
    }

    pub open spec fn cancellation_requested(
        self,
        fresh_address: Address,
        caller: Address,
        invoice_id: u64,
    ) -> Self {
        if self.listings[invoice_id].funded_amount == 0 {
            self.cancelled(fresh_address, invoice_id)
        } else {
            MarketplaceState {
                cancellation_requests: self.cancellation_requests.insert(invoice_id, caller),
                ..self.migrated(fresh_address)
            }
        }
    }

    pub open spec fn request_cancellation_effects(
        self,
        caller: Address,
        invoice_id: u64,
    ) -> Seq<Effect> {
        if self.listings[invoice_id].funded_amount == 0 {
            self.cancel_effects(invoice_id)
        } else {
            seq![
                DataKey::CancellationRequest(invoice_id).bump(),
                Effect::Publish(Event::CancellationRequested { invoice_id, caller }),
            ]
        }
    }

    /// The admin confirms a cancellation that has been requested.
    pub open spec fn confirm_cancellation_verdict(
        self,
        fresh_address: Address,
        caller: Address,
        invoice_id: u64,
    ) -> Result<(), KoraError> {
        if self.admin_verdict(fresh_address, caller) is Err {
            self.admin_verdict(fresh_address, caller)
        } else if !self.cancellation_requests.contains_key(invoice_id) {
            Err(KoraError::NoCancellationPending)
        } else if !self.listings.contains_key(invoice_id) {
            Err(KoraError::ListingNotFound)
        } else {
            KoraError::ListingAlreadyCancelled.unless(self.listings[invoice_id].is_active)
        }
    }

    pub open spec fn cancellation_confirmed(
        self,
        fresh_address: Address,
        invoice_id: u64,
    ) -> Self {
        MarketplaceState {
            cancellation_requests: self.cancellation_requests.remove(invoice_id),
            cancellations_confirmed: self.cancellations_confirmed.insert(invoice_id, true),
            ..self.cancelled(fresh_address, invoice_id)
        }
    }

    pub open spec fn confirm_cancellation_effects(self, invoice_id: u64) -> Seq<Effect> {
        seq![
            DataKey::Listing(invoice_id).bump(),
            DataKey::CancellationConfirmed(invoice_id).bump(),
            Effect::Publish(
                Event::ListingCancelled { invoice_id, seller: self.listings[invoice_id].seller },
            ),
        ]
    }

    /// Whether the admin has confirmed the cancellation of a listing.
    pub open spec fn is_cancellation_confirmed(self, invoice_id: u64) -> bool {
        self.cancellations_confirmed.contains_key(invoice_id)
            && self.cancellations_confirmed[invoice_id]
    }

    /// Whether an investor has had its contribution to a listing back.
    pub open spec fn is_refund_claimed(self, invoice_id: u64, investor: Address) -> bool {
        self.refunds_claimed.contains_key((invoice_id, investor)) && self.refunds_claimed[(
            invoice_id,
            investor,
        )]
    }

    /// A contribution is paid back once, if the listing has not reached its price, and its
    /// deadline has passed or its cancellation was confirmed.
    pub open spec fn refund_verdict(
        self,
        timestamp: u64,
        fresh_address: Address,
        investor: Address,
        invoice_id: u64,
    ) -> Result<(), KoraError> {
        let listing = self.listings[invoice_id];
        if !self.listings.contains_key(invoice_id) {
            Err(KoraError::ListingNotFound)
        } else if listing.funded_amount >= listing.asking_price {
            Err(KoraError::ListingFullyFunded)
        } else if !self.is_cancellation_confirmed(invoice_id) && timestamp
            <= listing.funding_deadline {
            Err(KoraError::FundingNotExpired)
        } else if self.is_refund_claimed(invoice_id, investor) {
            Err(KoraError::RefundAlreadyClaimed)
        } else if self.contribution(invoice_id, investor) <= 0 {
            Err(KoraError::NoContribution)
        } else {
            match self.loaded(fresh_address) {
                Err(error) => Err(error),
                Ok(_) => Ok(()),
            }
        }
    }

    pub open spec fn refunded(
        self,
        fresh_address: Address,
        investor: Address,
        invoice_id: u64,
    ) -> Self {
        MarketplaceState {
            refunds_claimed: self.refunds_claimed.insert((invoice_id, investor), true),
            ..self.migrated(fresh_address)
        }
    }

    /// The contribution goes back from the pool to the investor.
    pub open spec fn refund_effects(
        self,
        fresh_address: Address,
        investor: Address,
        invoice_id: u64,
    ) -> Seq<Effect> {
        let config = self.loaded(fresh_address)->Ok_0;
        let amount = self.contribution(invoice_id, investor);
        seq![
            Effect::Transfer {
                token: self.listings[invoice_id].token,
                from: config.financing_pool,
                to: investor,
                amount,
            },
            Effect::Publish(Event::RefundClaimed { invoice_id, investor, amount }),
        ]
    }

    pub open spec fn upgrade_proposed(
        self,
        timestamp: u64,
        fresh_address: Address,
        wasm_hash: [u8; 32],
    ) -> Self {
        MarketplaceState {
            upgrade_proposal: Some(UpgradeProposal { wasm_hash, proposed_at: timestamp }),
            ..self.migrated(fresh_address)
        }
    }

    pub open spec fn propose_upgrade_effects(
        self,
        admin: Address,
        wasm_hash: [u8; 32],
    ) -> Seq<Effect> {
        seq![Effect::Publish(Event::UpgradeProposed { admin, wasm_hash })]
    }

    /// A proposed upgrade can be executed once its timelock has run out.
    pub open spec fn execute_upgrade_verdict(
        self,
        timestamp: u64,
        timelock: u64,
        fresh_address: Address,
        caller: Address,
    ) -> Result<(), KoraError> {
        if self.admin_verdict(fresh_address, caller) is Err {
            self.admin_verdict(fresh_address, caller)
        } else if self.upgrade_proposal is None {
            Err(KoraError::NoUpgradeProposed)
        } else {
            KoraError::UpgradeTimelockNotElapsed.unless(
                timestamp >= self.upgrade_proposal->0.proposed_at + timelock,
            )
        }
    }

    pub open spec fn execute_upgrade_effects(self, admin: Address) -> Seq<Effect> {
        let wasm_hash = self.upgrade_proposal->0.wasm_hash;
        seq![
            Effect::Publish(Event::UpgradeExecuted { admin, wasm_hash }),
            Effect::UpdateWasm(wasm_hash),
        ]
    }

    pub open spec fn upgrade_executed(self, fresh_address: Address) -> Self {
        MarketplaceState { upgrade_proposal: None, ..self.migrated(fresh_address) }
    }
}

} // verus!
