use vstd::prelude::*;

use crate::env::Env;
use crate::errors::KoraError;
use crate::marketplace::model::{
    DataKey, Effect, Event, FundReplies, FundStep, LegacyConfig, ListReplies, ListRequest,
    ListStep, MarketplaceConfig, MarketplaceState, DEFAULT_FEE_BPS, PERSISTENT_TTL_BUMP,
    PERSISTENT_TTL_THRESHOLD,
};
use crate::table::Table;
use crate::types::{Address, Listing, RiskTier, UpgradeProposal};
use crate::validation::{
    bps_of, require_future_timestamp, require_non_zero_amount, require_valid_fee_bps, safe_add,
    safe_sub,
};

verus! {

/// The marketplace, as its storage.
pub struct MarketplaceContract {
    pub config: Option<MarketplaceConfig>,
    /// The entries in which an older deployment kept its configuration.
    pub legacy: LegacyConfig,
    /// The fees of risk classes, by the ordinal of the class.
    pub tier_fee_bps: Table<u32, u32>,
    /// The tokens in which listings may be.
    pub whitelist: Table<Address, bool>,
    pub listings: Table<u64, Listing>,
    /// Who shares in the fees of a listing.
    pub referrers: Table<u64, Address>,
    /// What an investor has paid into the pool for a listing, fees excluded.
    pub contributions: Table<(u64, Address), i128>,
    /// Whether an investor has had its contribution to a listing back.
    pub refunds_claimed: Table<(u64, Address), bool>,
    /// Who has asked for the cancellation of a listing.
    pub cancellation_requests: Table<u64, Address>,
    /// Whether the admin has confirmed the cancellation of a listing.
    pub cancellations_confirmed: Table<u64, bool>,
    pub upgrade_proposal: Option<UpgradeProposal>,
}

impl View for MarketplaceContract {
    type V = MarketplaceState;

    open spec fn view(&self) -> MarketplaceState {
        MarketplaceState {
            config: self.config,
            legacy: self.legacy,
            tier_fee_bps: self.tier_fee_bps@,
            whitelist: self.whitelist@,
            listings: self.listings@,
            referrers: self.referrers@,
            contributions: self.contributions@,
            refunds_claimed: self.refunds_claimed@,
            cancellation_requests: self.cancellation_requests@,
            cancellations_confirmed: self.cancellations_confirmed@,
            upgrade_proposal: self.upgrade_proposal,
        }
    }
}

impl MarketplaceContract {
    /// A marketplace with empty storage.
    pub fn new() -> (r: Self)
        ensures
            r@ == MarketplaceState::empty(),
            r@.wf(),
    {
        MarketplaceContract {
            config: None,
            legacy: LegacyConfig {
                admin: None,
                invoice_nft: None,
                financing_pool: None,
                treasury: None,
                access_control: None,
                fee_bps: None,
            },
            tier_fee_bps: Table::new(),
            whitelist: Table::new(),
            listings: Table::new(),
            referrers: Table::new(),
            contributions: Table::new(),
            refunds_claimed: Table::new(),
            cancellation_requests: Table::new(),
            cancellations_confirmed: Table::new(),
            upgrade_proposal: None,
        }
    }

    /// Sets the marketplace up, once. Fees are not shared with referrers until the admin sets a
    /// share.
    pub fn initialize(
        &mut self,
        admin: Address,
        invoice_nft: Address,
        financing_pool: Address,
        treasury: Address,
        access_control: Address,
        risk_registry: Address,
        fee_bps: u32,
    ) -> (r: Result<(), KoraError>)
        ensures
            r == old(self)@.initialize_verdict(fee_bps),
            r is Err ==> *final(self) == *old(self),
            r is Ok ==> final(self)@ == old(self)@.with_config(
                MarketplaceConfig {
                    admin,
                    invoice_nft,
                    financing_pool,
                    treasury,
                    access_control,
                    risk_registry,
                    fee_bps,
                    referrer_split_bps: 0,
                },
            ),
            forall|context: crate::env::Context|
                final(self)@ == #[trigger] old(self)@.after(
                    context,
                    (crate::marketplace::history::Call::Initialize {
                        config: MarketplaceConfig {
                            admin,
                            invoice_nft,
                            financing_pool,
                            treasury,
                            access_control,
                            risk_registry,
                            fee_bps,
                            referrer_split_bps: 0,
                        },
                    }),
                ),
            old(self)@.wf() ==> final(self)@.wf(),
    {
        if self.config.is_some() {
            return Err(KoraError::AlreadyInitialized);
        }
        require_valid_fee_bps(fee_bps)?;
        self.config =
        Some(
            MarketplaceConfig {
                admin,
                invoice_nft,
                financing_pool,
                treasury,
                access_control,
                risk_registry,
                fee_bps,
                referrer_split_bps: 0,
            },
        );
        Ok(())
    }

    /// Sets the share of a fee that goes to the referrer of a listing.
    pub fn set_referrer_split_bps(
        &mut self,
        env: &Env<Effect>,
        admin: Address,
        referrer_split_bps: u32,
    ) -> (r: Result<(), KoraError>)
        requires
            env.authorizes(admin),
        ensures
            r == old(self)@.set_rate_verdict(env.fresh_address, admin, referrer_split_bps),
            r is Err ==> *final(self) == *old(self),
            r is Ok ==> final(self)@ == old(self)@.referrer_split_set(
                env.fresh_address,
                referrer_split_bps,
            ),
            final(self)@ == old(self)@.after(
                env.context(),
                (crate::marketplace::history::Call::SetReferrerSplit {
                    admin,
                    bps: referrer_split_bps,
                }),
            ),
            old(self)@.wf() ==> final(self)@.wf(),
    {
        let mut config = self.admin_config(env.fresh_address, admin)?;
        require_valid_fee_bps(referrer_split_bps)?;
        config.referrer_split_bps = referrer_split_bps;
        self.config = Some(config);
        Ok(())
    }

    /// Sets the general fee.
    pub fn set_fee_bps(
        &mut self,
        env: &mut Env<Effect>,
        admin: Address,
        fee_bps: u32,
    ) -> (r: Result<(), KoraError>)
        requires
            old(env).authorizes(admin),
        ensures
            r == old(self)@.set_rate_verdict(old(env).fresh_address, admin, fee_bps),
            r is Err ==> *final(self) == *old(self) && *final(env) == *old(env),
            r is Ok ==> {
                &&& final(self)@ == old(self)@.fee_set(old(env).fresh_address, fee_bps)
                &&& final(env).extends(
                    *old(env),
                    seq![
                        Effect::Publish(
                            Event::FeeRateUpdated {
                                admin,
                                old_bps: old(self)@.loaded(
                                    old(env).fresh_address,
                                )->Ok_0.fee_bps,
                                new_bps: fee_bps,
                            },
                        ),
                    ],
                )
            },
            final(self)@ == old(self)@.after(
                old(env).context(),
                (crate::marketplace::history::Call::SetFee { admin, bps: fee_bps }),
            ),
            final(env).extends(
                *old(env),
                old(self)@.effects_of(
                    old(env).context(),
                    (crate::marketplace::history::Call::SetFee { admin, bps: fee_bps }),
                ),
            ),
            old(self)@.wf() ==> final(self)@.wf(),
    {
        let mut config = self.admin_config(env.fresh_address, admin)?;
        require_valid_fee_bps(fee_bps)?;
        let old_bps: u32 = config.fee_bps;
        config.fee_bps = fee_bps;
        self.config = Some(config);
        env.emit(Effect::Publish(Event::FeeRateUpdated { admin, old_bps, new_bps: fee_bps }));
        Ok(())
    }

    /// Another name for [`Self::set_fee_bps`].
    pub fn update_fee_bps(
        &mut self,
        env: &mut Env<Effect>,
        admin: Address,
        fee_bps: u32,
    ) -> (r: Result<(), KoraError>)
        requires
            old(env).authorizes(admin),
        ensures
            r == old(self)@.set_rate_verdict(old(env).fresh_address, admin, fee_bps),
            r is Err ==> *final(self) == *old(self) && *final(env) == *old(env),
            r is Ok ==> {
                &&& final(self)@ == old(self)@.fee_set(old(env).fresh_address, fee_bps)
                &&& final(env).extends(
                    *old(env),
                    seq![
                        Effect::Publish(
                            Event::FeeRateUpdated {
                                admin,
                                old_bps: old(self)@.loaded(
                                    old(env).fresh_address,
                                )->Ok_0.fee_bps,
                                new_bps: fee_bps,
                            },
                        ),
                    ],
                )
            },
            final(self)@ == old(self)@.after(
                old(env).context(),
                (crate::marketplace::history::Call::SetFee { admin, bps: fee_bps }),
            ),
            final(env).extends(
                *old(env),
                old(self)@.effects_of(
                    old(env).context(),
                    (crate::marketplace::history::Call::SetFee { admin, bps: fee_bps }),
                ),
            ),
            old(self)@.wf() ==> final(self)@.wf(),
    {
        self.set_fee_bps(env, admin, fee_bps)
    }

    /// The general fee.
    pub fn get_fee_bps(&mut self, env: &Env<Effect>) -> (r: Result<u32, KoraError>)
        ensures
            r == (match old(self)@.loaded(env.fresh_address) {
                Ok(config) => Ok::<u32, KoraError>(config.fee_bps),
                Err(error) => Err(error),
            }),
            r == old(self)@.general_fee_bps(env.fresh_address),
            final(self)@ == old(self)@.migrated(env.fresh_address),
            final(self)@ == old(self)@.after(
                env.context(),
                crate::marketplace::history::Call::Load,
            ),
            old(self)@.wf() ==> final(self)@.wf(),
    {
        let config = self.load_config(env.fresh_address)?;
        Ok(config.fee_bps)
    }

    /// Sets the fee of a risk class.
    pub fn set_tier_fee_bps(
        &mut self,
        env: &Env<Effect>,
        admin: Address,
        tier: RiskTier,
        fee_bps: u32,
    ) -> (r: Result<(), KoraError>)
        requires
            env.authorizes(admin),
        ensures
            r == old(self)@.set_rate_verdict(env.fresh_address, admin, fee_bps),
            r is Err ==> *final(self) == *old(self),
            r is Ok ==> final(self)@ == old(self)@.tier_fee_set(env.fresh_address, tier, fee_bps),
            final(self)@ == old(self)@.after(
                env.context(),
                (crate::marketplace::history::Call::SetTierFee { admin, tier, bps: fee_bps }),
            ),
            old(self)@.wf() ==> final(self)@.wf(),
    {
        let config = self.admin_config(env.fresh_address, admin)?;
        require_valid_fee_bps(fee_bps)?;
        self.config = Some(config);
        self.tier_fee_bps.set(Self::tier_ordinal(&tier), fee_bps);
        Ok(())
    }

    /// The fee of a risk class; where it has none, the general fee.
    pub fn get_tier_fee_bps(&mut self, env: &Env<Effect>, tier: RiskTier) -> (r: Result<
        u32,
        KoraError,
    >)
        ensures
            r == Ok::<u32, KoraError>(old(self)@.quoted_fee_bps(env.fresh_address, tier)),
            final(self)@ == (if old(self)@.tier_fee_bps.contains_key(tier.ordinal()) {
                old(self)@
            } else {
                old(self)@.migrated(env.fresh_address)
            }),
            old(self)@.wf() ==> final(self)@.wf(),
    {
        match self.tier_fee_bps.get(&Self::tier_ordinal(&tier)) {
            Some(fee_bps) => Ok(fee_bps),
            None => match self.load_config(env.fresh_address) {
                Ok(config) => Ok(config.fee_bps),
                Err(_) => Ok(DEFAULT_FEE_BPS),
            },
        }
    }

    /// The whole configuration.
    pub fn get_config(&mut self, env: &Env<Effect>) -> (r: Result<MarketplaceConfig, KoraError>)
        ensures
            r == old(self)@.loaded(env.fresh_address),
            final(self)@ == old(self)@.migrated(env.fresh_address),
            final(self)@ == old(self)@.after(
                env.context(),
                crate::marketplace::history::Call::Load,
            ),
            old(self)@.wf() ==> final(self)@.wf(),
    {
        self.load_config(env.fresh_address)
    }

    /// The admin.
    pub fn get_admin(&mut self, env: &Env<Effect>) -> (r: Result<Address, KoraError>)
        ensures
            r == (match old(self)@.loaded(env.fresh_address) {
                Ok(config) => Ok::<Address, KoraError>(config.admin),
                Err(error) => Err(error),
            }),
            r == old(self)@.admin(env.fresh_address),
            final(self)@ == old(self)@.migrated(env.fresh_address),
            final(self)@ == old(self)@.after(
                env.context(),
                crate::marketplace::history::Call::Load,
            ),
            old(self)@.wf() ==> final(self)@.wf(),
    {
        let config = self.load_config(env.fresh_address)?;
        Ok(config.admin)
    }

    /// Admits a token for listings.
    pub fn whitelist_token(
        &mut self,
        env: &mut Env<Effect>,
        admin: Address,
        token: Address,
    ) -> (r: Result<(), KoraError>)
        requires
            old(env).authorizes(admin),
        ensures
            r == old(self)@.admin_verdict(old(env).fresh_address, admin),
            r is Err ==> *final(self) == *old(self) && *final(env) == *old(env),
            r is Ok ==> {
                &&& final(self)@ == old(self)@.token_whitelisted(old(env).fresh_address, token)
                &&& final(env).extends(
                    *old(env),
                    seq![
                        DataKey::WhitelistedToken(token).bump(),
                        Effect::Publish(Event::TokenWhitelisted { admin, token }),
                    ],
                )
            },
            final(self)@ == old(self)@.after(
                old(env).context(),
                (crate::marketplace::history::Call::WhitelistToken { admin, token }),
            ),
            final(env).extends(
                *old(env),
                old(self)@.effects_of(
                    old(env).context(),
                    (crate::marketplace::history::Call::WhitelistToken { admin, token }),
                ),
            ),
            old(self)@.wf() ==> final(self)@.wf(),
    {
        let config = self.admin_config(env.fresh_address, admin)?;
        self.config = Some(config);
        self.whitelist.set(token, true);
        Self::bump_persistent(env, DataKey::WhitelistedToken(token));
        env.emit(Effect::Publish(Event::TokenWhitelisted { admin, token }));
        Ok(())
    }

    /// Withdraws the admission of a token.
    pub fn remove_token_whitelist(
        &mut self,
        env: &Env<Effect>,
        admin: Address,
        token: Address,
    ) -> (r: Result<(), KoraError>)
        requires
            env.authorizes(admin),
        ensures
            r == old(self)@.remove_token_whitelist_verdict(env.fresh_address, admin, token),
            r is Err ==> *final(self) == *old(self),
            r is Ok ==> final(self)@ == old(self)@.token_removed(env.fresh_address, token),
            final(self)@ == old(self)@.after(
                env.context(),
                (crate::marketplace::history::Call::RemoveTokenWhitelist { admin, token }),
            ),
            old(self)@.wf() ==> final(self)@.wf(),
    {
        let config = self.admin_config(env.fresh_address, admin)?;
        self.require_whitelisted_token(token)?;
        self.config = Some(config);
        self.whitelist.remove(&token);
        Ok(())
    }

    /// Whether listings may be in a token.
    pub fn is_token_whitelisted(&self, token: Address) -> (r: bool)
        ensures
            r == self@.is_whitelisted(token),
    {
        match self.whitelist.get(&token) {
            Some(admitted) => admitted,
            None => false,
        }
    }

    /// Lists an invoice for financing, as far as the answers that have come allow: where one is
    /// missing, the step that is returned asks for it, and nothing has changed.
    ///
    /// A referrer, who must not be the seller, shares in the fee on every contribution.
    pub fn list_invoice(
        &mut self,
        env: &mut Env<Effect>,
        seller: Address,
        invoice_id: u64,
        asking_price: i128,
        face_value: i128,
        token: Address,
        funding_deadline: u64,
        referrer: Option<Address>,
        replies: &ListReplies,
    ) -> (r: Result<ListStep, KoraError>)
        requires
            old(env).authorizes(seller),
        ensures
            ({
                let request = ListRequest {
                    seller,
                    invoice_id,
                    asking_price,
                    face_value,
                    token,
                    funding_deadline,
                    referrer,
                };
                &&& final(self)@ == old(self)@.after(
                    old(env).context(),
                    (crate::marketplace::history::Call::ListInvoice {
                        request,
                        list_replies: *replies,
                    }),
                )
                &&& final(env).extends(
                    *old(env),
                    old(self)@.effects_of(
                        old(env).context(),
                        (crate::marketplace::history::Call::ListInvoice {
                            request,
                            list_replies: *replies,
                        }),
                    ),
                )
                &&& r == old(self)@.list_outcome(
                    old(env).timestamp,
                    old(env).fresh_address,
                    old(env).guard,
                    request,
                    *replies,
                )
                &&& r != Ok::<ListStep, KoraError>(ListStep::Done) ==> *final(self) == *old(self)
                    && *final(env) == *old(env)
                &&& r == Ok::<ListStep, KoraError>(ListStep::Done) ==> {
                    &&& final(self)@ == old(self)@.listed(old(env).fresh_address, request)
                    &&& final(env).extends(
                        *old(env),
                        old(self)@.list_effects(
                            old(env).fresh_address,
                            old(env).contract,
                            request,
                        ),
                    )
                }
            }),
            old(self)@.wf() ==> final(self)@.wf(),
    {
        match self.require_not_paused(replies.paused)? {
            Some(access_control) => return Ok(ListStep::AskPaused { access_control }),
            None => {},
        }
        require_non_zero_amount(asking_price)?;
        require_non_zero_amount(face_value)?;
        match replies.asking_price_bound {
            None => return Ok(ListStep::AskAskingPriceBound { amount: asking_price }),
            Some(bound) => bound?,
        }
        match replies.face_value_bound {
            None => return Ok(ListStep::AskFaceValueBound { amount: face_value }),
            Some(bound) => bound?,
        }
        require_future_timestamp(env.timestamp, funding_deadline)?;
        if asking_price >= face_value {
            return Err(KoraError::InvalidAmount);
        }
        self.require_whitelisted_token(token)?;
        match self.require_compliance_attested(env.fresh_address, replies.attested)? {
            Some(risk_registry) => return Ok(ListStep::AskAttested { risk_registry, sme: seller }),
            None => {},
        }
        if self.listings.has(&invoice_id) {
            return Err(KoraError::InvoiceAlreadyExists);
        }
        env.guard?;
        let config = self.peek_config(env.fresh_address)?;
        match referrer {
            Some(referrer) => if referrer == seller {
                return Err(KoraError::InvalidAddress);
            },
            None => {},
        }
        match replies.invoice_amount {
            None => return Ok(
                ListStep::AskInvoiceAmount { invoice_nft: config.invoice_nft, invoice_id },
            ),
            Some(amount) => if amount != face_value {
                return Err(KoraError::InvalidAmount);
            },
        }
        self.config = Some(config);
        match referrer {
            Some(referrer) => {
                self.referrers.set(invoice_id, referrer);
                Self::bump_persistent(env, DataKey::Referrer(invoice_id));
            },
            None => {},
        }
        let contract = env.contract;
        env.emit(
            Effect::SetListed { invoice_nft: config.invoice_nft, caller: contract, invoice_id },
        );
        let listing = Listing {
            invoice_id,
            seller,
            asking_price,
            face_value,
            token,
            funded_amount: 0,
            funding_deadline,
            is_active: true,
        };
        self.listings.set(invoice_id, listing);
        Self::bump_listing(env, invoice_id);
        env.emit(Effect::Publish(Event::InvoiceListed { invoice_id, seller, asking_price }));
        Ok(ListStep::Done)
    }

    /// Pays a contribution to a listing, as far as the answers that have come allow: where one is
    /// missing, the step that is returned asks for it, and nothing has changed.
    ///
    /// The fee goes to the treasury, less the share of the listing's referrer; the rest of the
    /// amount goes to the financing pool. Once the asking price is reached, the listing is no
    /// longer on offer and the pool is told to pay the seller out.
    pub fn fund_invoice(
        &mut self,
        env: &mut Env<Effect>,
        investor: Address,
        invoice_id: u64,
        amount: i128,
        replies: &FundReplies,
    ) -> (r: Result<FundStep, KoraError>)
        requires
            old(env).authorizes(investor),
        ensures
            r == old(self)@.fund_outcome(
                old(env).timestamp,
                old(env).fresh_address,
                investor,
                invoice_id,
                amount,
                *replies,
            ),
            r != Ok::<FundStep, KoraError>(FundStep::Done) ==> *final(self) == *old(self)
                && *final(env) == *old(env),
            r == Ok::<FundStep, KoraError>(FundStep::Done) ==> {
                let fee = replies.fee->0->Ok_0;
                &&& final(self)@ == old(self)@.funded(
                    old(env).fresh_address,
                    investor,
                    invoice_id,
                    amount,
                    fee,
                )
                &&& final(env).extends(
                    *old(env),
                    old(self)@.fund_effects(
                        old(env).fresh_address,
                        old(env).contract,
                        investor,
                        invoice_id,
                        amount,
                        fee,
                    ),
                )
            },
            final(self)@ == old(self)@.after(
                old(env).context(),
                (crate::marketplace::history::Call::FundInvoice {
                    investor,
                    invoice_id,
                    amount,
                    fund_replies: *replies,
                }),
            ),
            final(env).extends(
                *old(env),
                old(self)@.effects_of(
                    old(env).context(),
                    (crate::marketplace::history::Call::FundInvoice {
                        investor,
                        invoice_id,
                        amount,
                        fund_replies: *replies,
                    }),
                ),
            ),
            old(self)@.wf() && (replies.fee matches Some(Ok(fee)) ==> 0 <= fee <= amount)
                ==> final(self)@.wf(),
    {
        match self.require_not_paused(replies.paused)? {
            Some(access_control) => return Ok(FundStep::AskPaused { access_control }),
            None => {},
        }
        require_non_zero_amount(amount)?;
        match replies.amount_bound {
            None => return Ok(FundStep::AskAmountBound { amount }),
            Some(bound) => bound?,
        }
        let mut listing = self.get_listing(invoice_id)?;
        if !listing.is_active {
            return Err(KoraError::ListingAlreadyCancelled);
        }
        if env.timestamp > listing.funding_deadline {
            return Err(KoraError::FundingDeadlinePassed);
        }
        let remaining: i128 = safe_sub(listing.asking_price, listing.funded_amount)?;
        if amount > remaining {
            return Err(KoraError::ExceedsFundingTarget);
        }
        let config = self.peek_config(env.fresh_address)?;
        match replies.frozen {
            None => return Ok(
                FundStep::AskFrozen { invoice_nft: config.invoice_nft, invoice_id },
            ),
            Some(frozen) => if frozen {
                return Err(KoraError::InvoiceFrozen);
            },
        }
        let decimals: u32 = match replies.decimals {
            None => return Ok(FundStep::AskDecimals { token: listing.token }),
            Some(decimals) => decimals,
        };
        let risk_tier = match replies.risk_tier {
            None => return Ok(
                FundStep::AskRiskTier { invoice_nft: config.invoice_nft, invoice_id },
            ),
            Some(risk_tier) => risk_tier,
        };
        let fee_bps: u32 = match self.tier_fee_bps.get(&Self::tier_ordinal(&risk_tier)) {
            Some(fee_bps) => fee_bps,
            None => config.fee_bps,
        };
        let fee: i128 = match replies.fee {
            None => return Ok(FundStep::AskFee { amount, fee_bps, decimals }),
            Some(fee) => fee?,
        };
        let booking = self.book(
            &config,
            investor,
            invoice_id,
            listing.funded_amount,
            amount,
            fee,
        )?;
        self.pay(env, &config, listing.token, investor, invoice_id, amount, fee, &booking);
        let fully_funded = booking.funded_amount >= listing.asking_price;
        listing.funded_amount = booking.funded_amount;
        if fully_funded {
            listing.is_active = false;
        }
        self.config = Some(config);
        self.contributions.set((invoice_id, investor), booking.contributed);
        self.listings.set(invoice_id, listing);
        Self::bump_listing(env, invoice_id);
        env.emit(Effect::Publish(Event::InvoiceFunded { invoice_id, investor, amount }));
        let token = listing.token;
        if fee > 0 {
            env.emit(Effect::Publish(Event::FeeCollected { investor, invoice_id, fee, token }));
        }
        if fully_funded {
            let contract = env.contract;
            env.emit(
                Effect::ReleaseFunds {
                    financing_pool: config.financing_pool,
                    caller: contract,
                    invoice_id,
                    token,
                },
            );
        }
        Ok(FundStep::Done)
    }

    /// Takes a listing off the offer. A listing that investors have paid into should rather go
    /// through [`Self::request_cancellation`], after which they get their contributions back.
    pub fn cancel_listing(
        &mut self,
        env: &mut Env<Effect>,
        caller: Address,
        invoice_id: u64,
    ) -> (r: Result<(), KoraError>)
        requires
            old(env).authorizes(caller),
        ensures
            r == old(self)@.cancel_verdict(old(env).fresh_address, caller, invoice_id),
            r is Err ==> *final(self) == *old(self) && *final(env) == *old(env),
            r is Ok ==> {
                &&& final(self)@ == old(self)@.cancelled(old(env).fresh_address, invoice_id)
                &&& final(env).extends(*old(env), old(self)@.cancel_effects(invoice_id))
            },
            final(self)@ == old(self)@.after(
                old(env).context(),
                (crate::marketplace::history::Call::CancelListing { caller, invoice_id }),
            ),
            final(env).extends(
                *old(env),
                old(self)@.effects_of(
                    old(env).context(),
                    (crate::marketplace::history::Call::CancelListing { caller, invoice_id }),
                ),
            ),
            old(self)@.wf() ==> final(self)@.wf(),
    {
        let (listing, config) = self.cancellable(env.fresh_address, caller, invoice_id)?;
        self.config = Some(config);
        self.deactivate(env, invoice_id, listing);
        Ok(())
    }

    /// Cancels a listing without contributions; for one with contributions, asks the admin to
    /// confirm its cancellation.
    pub fn request_cancellation(
        &mut self,
        env: &mut Env<Effect>,
        caller: Address,
        invoice_id: u64,
    ) -> (r: Result<(), KoraError>)
        requires
            old(env).authorizes(caller),
        ensures
            r == old(self)@.request_cancellation_verdict(
                old(env).fresh_address,
                caller,
                invoice_id,
            ),
            r is Err ==> *final(self) == *old(self) && *final(env) == *old(env),
            r is Ok ==> {
                &&& final(self)@ == old(self)@.cancellation_requested(
                    old(env).fresh_address,
                    caller,
                    invoice_id,
                )
                &&& final(env).extends(
                    *old(env),
                    old(self)@.request_cancellation_effects(caller, invoice_id),
                )
            },
            final(self)@ == old(self)@.after(
                old(env).context(),
                (crate::marketplace::history::Call::RequestCancellation { caller, invoice_id }),
            ),
            final(env).extends(
                *old(env),
                old(self)@.effects_of(
                    old(env).context(),
                    (crate::marketplace::history::Call::RequestCancellation { caller, invoice_id }),
                ),
            ),
            old(self)@.wf() ==> final(self)@.wf(),
    {
        let (listing, config) = self.cancellable(env.fresh_address, caller, invoice_id)?;
        if listing.funded_amount == 0 {
            self.config = Some(config);
            self.deactivate(env, invoice_id, listing);
            return Ok(());
        }
        if self.cancellation_requests.has(&invoice_id) {
            return Err(KoraError::CancellationPending);
        }
        self.config = Some(config);
        self.cancellation_requests.set(invoice_id, caller);
        Self::bump_persistent(env, DataKey::CancellationRequest(invoice_id));
        env.emit(Effect::Publish(Event::CancellationRequested { invoice_id, caller }));
        Ok(())
    }

    /// Confirms a cancellation that has been requested. The listing leaves the offer, and its
    /// investors can have their contributions back at once.
    pub fn admin_confirm_cancellation(
        &mut self,
        env: &mut Env<Effect>,
        admin: Address,
        invoice_id: u64,
    ) -> (r: Result<(), KoraError>)
        requires
            old(env).authorizes(admin),
        ensures
            r == old(self)@.confirm_cancellation_verdict(
                old(env).fresh_address,
                admin,
                invoice_id,
            ),
            r is Err ==> *final(self) == *old(self) && *final(env) == *old(env),
            r is Ok ==> {
                &&& final(self)@ == old(self)@.cancellation_confirmed(
                    old(env).fresh_address,
                    invoice_id,
                )
                &&& final(env).extends(
                    *old(env),
                    seq![
                        DataKey::Listing(invoice_id).bump(),
                        DataKey::CancellationConfirmed(invoice_id).bump(),
                        Effect::Publish(
                            Event::ListingCancelled {
                                invoice_id,
                                seller: old(self)@.listings[invoice_id].seller,
                            },
                        ),
                    ],
                )
            },
            final(self)@ == old(self)@.after(
                old(env).context(),
                (crate::marketplace::history::Call::ConfirmCancellation { admin, invoice_id }),
            ),
            final(env).extends(
                *old(env),
                old(self)@.effects_of(
                    old(env).context(),
                    (crate::marketplace::history::Call::ConfirmCancellation { admin, invoice_id }),
                ),
            ),
            old(self)@.wf() ==> final(self)@.wf(),
    {
        let config = self.admin_config(env.fresh_address, admin)?;
        if !self.cancellation_requests.has(&invoice_id) {
            return Err(KoraError::NoCancellationPending);
        }
        let mut listing = self.get_listing(invoice_id)?;
        if !listing.is_active {
            return Err(KoraError::ListingAlreadyCancelled);
        }
        self.config = Some(config);
        listing.is_active = false;
        self.listings.set(invoice_id, listing);
        Self::bump_listing(env, invoice_id);
        self.cancellation_requests.remove(&invoice_id);
        self.cancellations_confirmed.set(invoice_id, true);
        Self::bump_persistent(env, DataKey::CancellationConfirmed(invoice_id));
        env.emit(Effect::Publish(Event::ListingCancelled { invoice_id, seller: listing.seller }));
        Ok(())
    }

    /// Pays an investor's contribution back from the financing pool, once, if the listing has
    /// expired without reaching its price or its cancellation was confirmed. Fees stay with those
    /// that received them.
    pub fn claim_refund(
        &mut self,
        env: &mut Env<Effect>,
        investor: Address,
        invoice_id: u64,
    ) -> (r: Result<(), KoraError>)
        requires
            old(env).authorizes(investor),
        ensures
            r == old(self)@.refund_verdict(
                old(env).timestamp,
                old(env).fresh_address,
                investor,
                invoice_id,
            ),
            r is Err ==> *final(self) == *old(self) && *final(env) == *old(env),
            r is Ok ==> {
                &&& final(self)@ == old(self)@.refunded(
                    old(env).fresh_address,
                    investor,
                    invoice_id,
                )
                &&& final(env).extends(
                    *old(env),
                    old(self)@.refund_effects(old(env).fresh_address, investor, invoice_id),
                )
            },
            final(self)@ == old(self)@.after(
                old(env).context(),
                (crate::marketplace::history::Call::ClaimRefund { investor, invoice_id }),
            ),
            final(env).extends(
                *old(env),
                old(self)@.effects_of(
                    old(env).context(),
                    (crate::marketplace::history::Call::ClaimRefund { investor, invoice_id }),
                ),
            ),
            old(self)@.wf() ==> final(self)@.wf(),
    {
        let listing = self.get_listing(invoice_id)?;
        if listing.funded_amount >= listing.asking_price {
            return Err(KoraError::ListingFullyFunded);
        }
        let confirmed = match self.cancellations_confirmed.get(&invoice_id) {
            Some(confirmed) => confirmed,
            None => false,
        };
        if !confirmed && env.timestamp <= listing.funding_deadline {
            return Err(KoraError::FundingNotExpired);
        }
        let claimed = match self.refunds_claimed.get(&(invoice_id, investor)) {
            Some(claimed) => claimed,
            None => false,
        };
        if claimed {
            return Err(KoraError::RefundAlreadyClaimed);
        }
        let amount: i128 = match self.contributions.get(&(invoice_id, investor)) {
            Some(amount) => amount,
            None => 0,
        };
        if amount <= 0 {
            return Err(KoraError::NoContribution);
        }
        let config = self.load_config(env.fresh_address)?;
        self.refunds_claimed.set((invoice_id, investor), true);
        env.emit(
            Effect::Transfer {
                token: listing.token,
                from: config.financing_pool,
                to: investor,
                amount,
            },
        );
        env.emit(Effect::Publish(Event::RefundClaimed { invoice_id, investor, amount }));
        Ok(())
    }

    /// A listing.
    pub fn get_listing(&self, invoice_id: u64) -> (r: Result<Listing, KoraError>)
        ensures
            r == (if self@.listings.contains_key(invoice_id) {
                Ok(self@.listings[invoice_id])
            } else {
                Err(KoraError::ListingNotFound)
            }),
            r == self@.listing(invoice_id),
    {
        match self.listings.get(&invoice_id) {
            Some(listing) => Ok(listing),
            None => Err(KoraError::ListingNotFound),
        }
    }

    /// Proposes other code for the contract; the timelock starts to run.
    pub fn propose_upgrade(
        &mut self,
        env: &mut Env<Effect>,
        admin: Address,
        new_wasm_hash: [u8; 32],
    ) -> (r: Result<(), KoraError>)
        requires
            old(env).authorizes(admin),
        ensures
            r == old(self)@.admin_verdict(old(env).fresh_address, admin),
            r is Err ==> *final(self) == *old(self) && *final(env) == *old(env),
            r is Ok ==> {
                &&& final(self)@ == old(self)@.upgrade_proposed(
                    old(env).timestamp,
                    old(env).fresh_address,
                    new_wasm_hash,
                )
                &&& final(env).extends(
                    *old(env),
                    seq![
                        Effect::Publish(
                            Event::UpgradeProposed { admin, wasm_hash: new_wasm_hash },
                        ),
                    ],
                )
            },
            final(self)@ == old(self)@.after(
                old(env).context(),
                (crate::marketplace::history::Call::ProposeUpgrade {
                    admin,
                    wasm_hash: new_wasm_hash,
                }),
            ),
            final(env).extends(
                *old(env),
                old(self)@.effects_of(
                    old(env).context(),
                    (crate::marketplace::history::Call::ProposeUpgrade {
                        admin,
                        wasm_hash: new_wasm_hash,
                    }),
                ),
            ),
            old(self)@.wf() ==> final(self)@.wf(),
    {
        let config = self.admin_config(env.fresh_address, admin)?;
        self.config = Some(config);
        self.upgrade_proposal =
        Some(UpgradeProposal { wasm_hash: new_wasm_hash, proposed_at: env.timestamp });
        env.emit(Effect::Publish(Event::UpgradeProposed { admin, wasm_hash: new_wasm_hash }));
        Ok(())
    }

    /// Runs the proposed code in place of the contract's, once the timelock has run out.
    pub fn execute_upgrade(&mut self, env: &mut Env<Effect>, admin: Address) -> (r: Result<
        (),
        KoraError,
    >)
        requires
            old(env).authorizes(admin),
            old(self)@.admin_verdict(old(env).fresh_address, admin) is Ok && old(
                self,
            )@.upgrade_proposal is Some ==> old(self)@.upgrade_proposal->0.proposed_at + old(
                env,
            ).upgrade_timelock <= u64::MAX,
        ensures
            r == old(self)@.execute_upgrade_verdict(
                old(env).timestamp,
                old(env).upgrade_timelock,
                old(env).fresh_address,
                admin,
            ),
            r is Err ==> *final(self) == *old(self) && *final(env) == *old(env),
            r is Ok ==> {
                let wasm_hash = old(self)@.upgrade_proposal->0.wasm_hash;
                &&& final(self)@ == old(self)@.upgrade_executed(old(env).fresh_address)
                &&& final(env).extends(
                    *old(env),
                    seq![
                        Effect::Publish(Event::UpgradeExecuted { admin, wasm_hash }),
                        Effect::UpdateWasm(wasm_hash),
                    ],
                )
            },
            final(self)@ == old(self)@.after(
                old(env).context(),
                (crate::marketplace::history::Call::ExecuteUpgrade { admin }),
            ),
            final(env).extends(
                *old(env),
                old(self)@.effects_of(
                    old(env).context(),
                    (crate::marketplace::history::Call::ExecuteUpgrade { admin }),
                ),
            ),
            old(self)@.wf() ==> final(self)@.wf(),
    {
        let config = self.admin_config(env.fresh_address, admin)?;
        let proposal = match self.upgrade_proposal {
            Some(proposal) => proposal,
            None => return Err(KoraError::NoUpgradeProposed),
        };
        if env.timestamp < proposal.proposed_at + env.upgrade_timelock {
            return Err(KoraError::UpgradeTimelockNotElapsed);
        }
        self.config = Some(config);
        self.upgrade_proposal = None;
        let wasm_hash: [u8; 32] = proposal.wasm_hash;
        env.emit(Effect::Publish(Event::UpgradeExecuted { admin, wasm_hash }));
        env.emit(Effect::UpdateWasm(wasm_hash));
        Ok(())
    }

    /// Works out what a contribution comes to in the books.
    fn book(
        &self,
        config: &MarketplaceConfig,
        investor: Address,
        invoice_id: u64,
        funded_amount: i128,
        amount: i128,
        fee: i128,
    ) -> (r: Result<Booking, KoraError>)
        requires
            self@.listings[invoice_id].funded_amount == funded_amount,
        ensures
            match r {
                Ok(booking) => {
                    &&& self@.booking_verdict(*config, investor, invoice_id, amount, fee) is Ok
                    &&& booking.net == amount - fee
                    &&& booking.referral == self@.referral_share(*config, invoice_id, fee)
                    &&& booking.funded_amount == funded_amount + amount
                    &&& booking.contributed == self@.contribution(invoice_id, investor) + (amount
                        - fee)
                },
                Err(error) => self@.booking_verdict(*config, investor, invoice_id, amount, fee)
                    == Err::<(), KoraError>(error),
            },
    {
        let net: i128 = match amount.checked_sub(fee) {
            Some(net) => net,
            None => return Err(KoraError::ArithmeticOverflow),
        };
        let referral: i128 = if fee > 0 && self.referrers.has(&invoice_id) {
            bps_of(fee, config.referrer_split_bps)?
        } else {
            0
        };
        let funded_amount: i128 = safe_add(funded_amount, amount)?;
        let previous: i128 = match self.contributions.get(&(invoice_id, investor)) {
            Some(previous) => previous,
            None => 0,
        };
        let contributed: i128 = safe_add(previous, net)?;
        Ok(Booking { net, referral, funded_amount, contributed })
    }

    /// Has an investor's tokens moved where they belong.
    fn pay(
        &self,
        env: &mut Env<Effect>,
        config: &MarketplaceConfig,
        token: Address,
        investor: Address,
        invoice_id: u64,
        amount: i128,
        fee: i128,
        booking: &Booking,
    )
        requires
            self@.listings[invoice_id].token == token,
            booking.net == amount - fee,
            booking.referral == self@.referral_share(*config, invoice_id, fee),
        ensures
            final(env).extends(
                *old(env),
                self@.payments(*config, investor, invoice_id, amount, fee),
            ),
    {
        proof {
            lemma_referral_share_sign(self@, *config, invoice_id, fee);
        }
        match self.referrers.get(&invoice_id) {
            Some(referrer) => if booking.referral > 0 {
                env.emit(
                    Effect::Transfer {
                        token,
                        from: investor,
                        to: referrer,
                        amount: booking.referral,
                    },
                );
            },
            None => {},
        }
        let treasury_fee: i128 = fee - booking.referral;
        if treasury_fee > 0 {
            let treasury = config.treasury;
            env.emit(
                Effect::Transfer { token, from: investor, to: treasury, amount: treasury_fee },
            );
            env.emit(Effect::CollectFee { treasury, token, amount: treasury_fee });
        }
        if booking.net > 0 {
            env.emit(
                Effect::Transfer {
                    token,
                    from: investor,
                    to: config.financing_pool,
                    amount: booking.net,
                },
            );
        }
    }

    /// A listing that the caller may take off the offer, with the configuration.
    fn cancellable(&self, fresh_address: Address, caller: Address, invoice_id: u64) -> (r: Result<
        (Listing, MarketplaceConfig),
        KoraError,
    >)
        ensures
            r == (match self@.cancel_verdict(fresh_address, caller, invoice_id) {
                Ok(_) => Ok::<(Listing, MarketplaceConfig), KoraError>(
                    (self@.listings[invoice_id], self@.loaded(fresh_address)->Ok_0),
                ),
                Err(error) => Err(error),
            }),
    {
        let listing = self.get_listing(invoice_id)?;
        if !listing.is_active {
            return Err(KoraError::ListingAlreadyCancelled);
        }
        let config = self.peek_config(fresh_address)?;
        if caller != listing.seller && caller != config.admin {
            return Err(KoraError::Unauthorized);
        }
        Ok((listing, config))
    }

    /// Takes a listing off the offer and announces it.
    fn deactivate(&mut self, env: &mut Env<Effect>, invoice_id: u64, listing: Listing)
        ensures
            final(self)@ == (MarketplaceState {
                listings: old(self)@.listings.insert(
                    invoice_id,
                    Listing { is_active: false, ..listing },
                ),
                ..old(self)@
            }),
            final(env).extends(
                *old(env),
                seq![
                    DataKey::Listing(invoice_id).bump(),
                    Effect::Publish(
                        Event::ListingCancelled { invoice_id, seller: listing.seller },
                    ),
                ],
            ),
    {
        let mut listing = listing;
        listing.is_active = false;
        self.listings.set(invoice_id, listing);
        Self::bump_listing(env, invoice_id);
        env.emit(Effect::Publish(Event::ListingCancelled { invoice_id, seller: listing.seller }));
    }

    /// The configuration, where the caller is the admin.
    fn admin_config(&self, fresh_address: Address, caller: Address) -> (r: Result<
        MarketplaceConfig,
        KoraError,
    >)
        ensures
            self@.admin_verdict(fresh_address, caller) is Ok ==> r == self@.loaded(fresh_address),
            self@.admin_verdict(fresh_address, caller) is Err ==> r == Err::<
                MarketplaceConfig,
                KoraError,
            >(self@.admin_verdict(fresh_address, caller)->Err_0),
    {
        let config = self.peek_config(fresh_address)?;
        if config.admin != caller {
            return Err(KoraError::NotAdmin);
        }
        Ok(config)
    }

    /// The configuration.
    fn peek_config(&self, fresh_address: Address) -> (r: Result<MarketplaceConfig, KoraError>)
        ensures
            r == self@.loaded(fresh_address),
    {
        match self.config {
            Some(config) => Ok(config),
            None => consolidate(&self.legacy, fresh_address),
        }
    }

    /// The configuration, which moves to its one entry if an older deployment kept it apart.
    fn load_config(&mut self, fresh_address: Address) -> (r: Result<MarketplaceConfig, KoraError>)
        ensures
            r == old(self)@.loaded(fresh_address),
            final(self)@ == old(self)@.migrated(fresh_address),
            r is Err ==> *final(self) == *old(self),
    {
        let config = self.peek_config(fresh_address)?;
        self.config = Some(config);
        Ok(config)
    }

    /// Refuses while the protocol is paused. Only a deployment that keeps the address of its
    /// access control apart has a pause; as long as the answer is missing, the access control to
    /// ask is returned.
    fn require_not_paused(&self, paused: Option<bool>) -> (r: Result<Option<Address>, KoraError>)
        ensures
            r == (match (self@.legacy.access_control, paused) {
                (None, _) => Ok::<Option<Address>, KoraError>(None),
                (Some(access_control), None) => Ok(Some(access_control)),
                (Some(_), Some(paused)) => if paused {
                    Err(KoraError::ProtocolPaused)
                } else {
                    Ok(None)
                },
            }),
    {
        match self.legacy.access_control {
            Some(access_control) => match paused {
                None => Ok(Some(access_control)),
                Some(paused) => if paused {
                    Err(KoraError::ProtocolPaused)
                } else {
                    Ok(None)
                },
            },
            None => Ok(None),
        }
    }

    /// Refuses a seller whose compliance is not attested; as long as the answer is missing, the
    /// risk registry to ask is returned.
    fn require_compliance_attested(
        &self,
        fresh_address: Address,
        attested: Option<bool>,
    ) -> (r: Result<Option<Address>, KoraError>)
        ensures
            r == (match (self@.loaded(fresh_address), attested) {
                (Err(error), _) => Err::<Option<Address>, KoraError>(error),
                (Ok(config), None) => Ok(Some(config.risk_registry)),
                (Ok(_), Some(attested)) => if attested {
                    Ok(None)
                } else {
                    Err(KoraError::ComplianceNotAttested)
                },
            }),
    {
        let config = self.peek_config(fresh_address)?;
        match attested {
            None => Ok(Some(config.risk_registry)),
            Some(attested) => if attested {
                Ok(None)
            } else {
                Err(KoraError::ComplianceNotAttested)
            },
        }
    }

    fn require_whitelisted_token(&self, token: Address) -> (r: Result<(), KoraError>)
        ensures
            r == KoraError::TokenNotWhitelisted.unless(self@.is_whitelisted(token)),
    {
        if !self.is_token_whitelisted(token) {
            return Err(KoraError::TokenNotWhitelisted);
        }
        Ok(())
    }

    /// Asks the host to extend the life of an entry.
    fn bump_persistent(env: &mut Env<Effect>, key: DataKey)
        ensures
            final(env).extends(*old(env), seq![key.bump()]),
    {
        env.emit(
            Effect::ExtendTtl {
                key,
                threshold: PERSISTENT_TTL_THRESHOLD,
                extend_to: PERSISTENT_TTL_BUMP,
            },
        );
    }

    /// Asks the host to extend the life of a listing.
    fn bump_listing(env: &mut Env<Effect>, invoice_id: u64)
        ensures
            final(env).extends(*old(env), seq![DataKey::Listing(invoice_id).bump()]),
    {
        Self::bump_persistent(env, DataKey::Listing(invoice_id));
    }

    /// The number under which the fee of a risk class is stored.
    fn tier_ordinal(tier: &RiskTier) -> (r: u32)
        ensures
            r == tier.ordinal(),
    {
        match tier {
            RiskTier::AAA => 0,
            RiskTier::AA => 1,
            RiskTier::A => 2,
            RiskTier::B => 3,
            RiskTier::C => 4,
        }
    }
}

/// What a contribution comes to in the books.
struct Booking {
    /// What goes to the financing pool.
    net: i128,
    /// What goes to the referrer.
    referral: i128,
    /// What the listing has then been funded with.
    funded_amount: i128,
    /// What the investor has then paid into the pool for the listing.
    contributed: i128,
}

/// A referrer's share is not negative, and there is none without a fee.
proof fn lemma_referral_share_sign(
    state: MarketplaceState,
    config: MarketplaceConfig,
    invoice_id: u64,
    fee: i128,
)
    ensures
        state.referral_share(config, invoice_id, fee) >= 0,
        fee <= 0 ==> state.referral_share(config, invoice_id, fee) == 0,
{
    if fee > 0 {
        let split = config.referrer_split_bps;
        assert(fee * split >= 0) by (nonlinear_arith)
            requires
                fee > 0,
                split >= 0,
        ;
    }
}

/// Puts the configuration of an older deployment together.
fn consolidate(legacy: &LegacyConfig, fresh_address: Address) -> (r: Result<
    MarketplaceConfig,
    KoraError,
>)
    ensures
        r == legacy.consolidated(fresh_address),
{
    let admin = match legacy.admin {
        Some(admin) => admin,
        None => return Err(KoraError::NotInitialized),
    };
    let invoice_nft = match legacy.invoice_nft {
        Some(invoice_nft) => invoice_nft,
        None => return Err(KoraError::NotInitialized),
    };
    let financing_pool = match legacy.financing_pool {
        Some(financing_pool) => financing_pool,
        None => return Err(KoraError::NotInitialized),
    };
    let treasury = match legacy.treasury {
        Some(treasury) => treasury,
        None => return Err(KoraError::NotInitialized),
    };
    let access_control = match legacy.access_control {
        Some(access_control) => access_control,
        None => return Err(KoraError::NotInitialized),
    };
    let fee_bps: u32 = match legacy.fee_bps {
        Some(fee_bps) => fee_bps,
        None => return Err(KoraError::NotInitialized),
    };
    Ok(
        MarketplaceConfig {
            admin,
            invoice_nft,
            financing_pool,
            treasury,
            access_control,
            risk_registry: fresh_address,
            fee_bps,
            referrer_split_bps: 0,
        },
    )
}

} // verus!
