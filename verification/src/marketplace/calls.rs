//! What each call of the marketplace promises by itself: when it is accepted, and for what reason
//! refused; which entries of the storage it changes, and no others; what it asks of the host, and
//! nothing else.
use vstd::prelude::*;

use crate::env::Context;
use crate::errors::KoraError;
use crate::marketplace::history::Call;
use crate::marketplace::model::{
    DataKey, Effect, Event, ListReplies, ListRequest, ListStep, MarketplaceConfig,
    MarketplaceState,
};
use crate::types::{Address, Listing, RiskTier, UpgradeProposal};

verus! {

/// Whether the marketplace is set up: its configuration stands in one entry, or an older
/// deployment has left all of it.
pub open spec fn set_up(state: MarketplaceState) -> bool {
    state.config is Some || {
        &&& state.legacy.admin is Some
        &&& state.legacy.invoice_nft is Some
        &&& state.legacy.financing_pool is Some
        &&& state.legacy.treasury is Some
        &&& state.legacy.access_control is Some
        &&& state.legacy.fee_bps is Some
    }
}

/// The admin of a marketplace that is set up.
pub open spec fn admin_of(state: MarketplaceState) -> Address {
    match state.config {
        Some(config) => config.admin,
        None => state.legacy.admin->0,
    }
}

/// The configuration under which a call works: the entry that holds it, or what an older
/// deployment has left, with a drawn address for the risk registry and no referrers' share.
pub open spec fn works_under(
    state: MarketplaceState,
    fresh_address: Address,
    config: MarketplaceConfig,
) -> bool {
    match state.config {
        Some(stored) => config == stored,
        None => {
            &&& set_up(state)
            &&& state.legacy.admin == Some(config.admin)
            &&& state.legacy.invoice_nft == Some(config.invoice_nft)
            &&& state.legacy.financing_pool == Some(config.financing_pool)
            &&& state.legacy.treasury == Some(config.treasury)
            &&& state.legacy.access_control == Some(config.access_control)
            &&& state.legacy.fee_bps == Some(config.fee_bps)
            &&& config.risk_registry == fresh_address
            &&& config.referrer_split_bps == 0
        },
    }
}

/// The extension of the life of an entry to thirty days of ledgers.
pub open spec fn kept_alive(key: DataKey) -> Effect {
    Effect::ExtendTtl { key, threshold: 518_400, extend_to: 518_400 }
}

/// The number under which the fee of a risk class stands.
pub open spec fn number_of(tier: RiskTier) -> u32 {
    match tier {
        RiskTier::AAA => 0,
        RiskTier::AA => 1,
        RiskTier::A => 2,
        RiskTier::B => 3,
        RiskTier::C => 4,
    }
}

/// Whether a share is so many basis points of an amount, rounded down.
pub open spec fn is_share(share: int, amount: int, bps: int) -> bool {
    share * 10_000 <= amount * bps < (share + 1) * 10_000
}

/// Loading the configuration finds it, or says that there is none. It only ever moves it into its
/// one entry.
pub proof fn configuration_is_found(state: MarketplaceState, context: Context)
    ensures
        ({
            let loaded = state.loaded(context.fresh_address);
            let after = state.after(context, Call::Load);
            &&& set_up(state) ==> loaded is Ok && works_under(
                state,
                context.fresh_address,
                loaded->Ok_0,
            )
            &&& !set_up(state) ==> loaded == Err::<MarketplaceConfig, KoraError>(
                KoraError::NotInitialized,
            )
            &&& after.config == (if set_up(state) {
                Some(loaded->Ok_0)
            } else {
                None
            })
            &&& after == MarketplaceState { config: after.config, ..state }
            &&& state.effects_of(context, Call::Load) == Seq::<Effect>::empty()
        }),
{
}

/// The general fee and the admin are read from the configuration under which calls work, and a
/// listing from its entry; where there is none, that is said.
pub proof fn entries_are_read_as_they_stand(
    state: MarketplaceState,
    fresh_address: Address,
    config: MarketplaceConfig,
    invoice_id: u64,
)
    ensures
        works_under(state, fresh_address, config) ==> {
            &&& state.general_fee_bps(fresh_address) == Ok::<u32, KoraError>(config.fee_bps)
            &&& state.admin(fresh_address) == Ok::<Address, KoraError>(config.admin)
        },
        !set_up(state) ==> {
            &&& state.general_fee_bps(fresh_address) == Err::<u32, KoraError>(
                KoraError::NotInitialized,
            )
            &&& state.admin(fresh_address) == Err::<Address, KoraError>(KoraError::NotInitialized)
        },
        state.listings.contains_key(invoice_id) ==> state.listing(invoice_id) == Ok::<
            Listing,
            KoraError,
        >(state.listings[invoice_id]),
        !state.listings.contains_key(invoice_id) ==> state.listing(invoice_id) == Err::<
            Listing,
            KoraError,
        >(KoraError::ListingNotFound),
{
}

/// A new marketplace has nothing in its storage: it is not set up, and nothing is listed, admitted,
/// contributed, claimed, requested, confirmed or proposed.
pub proof fn storage_starts_empty()
    ensures
        ({
            let state = MarketplaceState::empty();
            &&& state.config is None
            &&& !set_up(state)
            &&& state.legacy.admin is None
            &&& state.legacy.invoice_nft is None
            &&& state.legacy.financing_pool is None
            &&& state.legacy.treasury is None
            &&& state.legacy.access_control is None
            &&& state.legacy.fee_bps is None
            &&& state.tier_fee_bps == Map::<u32, u32>::empty()
            &&& state.whitelist == Map::<Address, bool>::empty()
            &&& state.listings == Map::<u64, Listing>::empty()
            &&& state.referrers == Map::<u64, Address>::empty()
            &&& state.contributions == Map::<(u64, Address), i128>::empty()
            &&& state.refunds_claimed == Map::<(u64, Address), bool>::empty()
            &&& state.cancellation_requests == Map::<u64, Address>::empty()
            &&& state.cancellations_confirmed == Map::<u64, bool>::empty()
            &&& state.upgrade_proposal is None
        }),
{
}

/// The marketplace is set up if it was not, with a fee of at most the whole. Then the
/// configuration is the given one, without a referrers' share, and nothing else changes.
pub proof fn set_up_takes_effect(
    state: MarketplaceState,
    context: Context,
    config: MarketplaceConfig,
)
    ensures
        ({
            let verdict = state.initialize_verdict(config.fee_bps);
            let call = Call::Initialize { config };
            let after = state.after(context, call);
            &&& verdict is Ok <==> state.config is None && config.fee_bps <= 10_000
            &&& verdict == Err::<(), KoraError>(KoraError::AlreadyInitialized)
                <==> state.config is Some
            &&& verdict == Err::<(), KoraError>(KoraError::InvalidFeeRate) <==> state.config is None
                && config.fee_bps > 10_000
            &&& verdict is Err ==> after == state
            &&& verdict is Ok ==> {
                &&& after.config is Some
                &&& after.config->0 == MarketplaceConfig { referrer_split_bps: 0, ..config }
                &&& after == MarketplaceState { config: after.config, ..state }
            }
            &&& state.effects_of(context, call) == Seq::<Effect>::empty()
        }),
{
}

/// A call of the admin's is accepted from the admin alone.
pub proof fn admin_is_admitted_alone(
    state: MarketplaceState,
    fresh_address: Address,
    caller: Address,
)
    ensures
        ({
            let verdict = state.admin_verdict(fresh_address, caller);
            &&& verdict is Ok <==> set_up(state) && caller == admin_of(state)
            &&& verdict == Err::<(), KoraError>(KoraError::NotInitialized) <==> !set_up(state)
            &&& verdict == Err::<(), KoraError>(KoraError::NotAdmin) <==> set_up(state) && caller
                != admin_of(state)
        }),
{
}

/// A rate is set by the admin alone, up to the whole.
pub proof fn rates_are_set_by_the_admin(
    state: MarketplaceState,
    fresh_address: Address,
    caller: Address,
    bps: u32,
)
    ensures
        ({
            let verdict = state.set_rate_verdict(fresh_address, caller, bps);
            let admitted = set_up(state) && caller == admin_of(state);
            &&& verdict is Ok <==> admitted && bps <= 10_000
            &&& verdict == Err::<(), KoraError>(KoraError::NotInitialized) <==> !set_up(state)
            &&& verdict == Err::<(), KoraError>(KoraError::NotAdmin) <==> set_up(state) && caller
                != admin_of(state)
            &&& verdict == Err::<(), KoraError>(KoraError::InvalidFeeRate) <==> admitted && bps
                > 10_000
        }),
{
}

/// Setting the fee changes the fee, announces the old one with the new, and does nothing else.
pub proof fn fee_takes_effect(state: MarketplaceState, context: Context, admin: Address, bps: u32)
    ensures
        ({
            let call = Call::SetFee { admin, bps };
            let after = state.after(context, call);
            let effects = state.effects_of(context, call);
            let accepted = set_up(state) && admin == admin_of(state) && bps <= 10_000;
            let config = after.config->0;
            &&& !accepted ==> after == state && effects == Seq::<Effect>::empty()
            &&& accepted ==> {
                &&& after == MarketplaceState { config: after.config, ..state }
                &&& after.config is Some
                &&& config.fee_bps == bps
                &&& exists|old_bps: u32| #[trigger]
                    works_under(
                        state,
                        context.fresh_address,
                        MarketplaceConfig { fee_bps: old_bps, ..config },
                    ) && effects == seq![
                        Effect::Publish(Event::FeeRateUpdated { admin, old_bps, new_bps: bps }),
                    ]
            }
        }),
{
    if state.loaded(context.fresh_address) is Ok {
        let before = state.loaded(context.fresh_address)->Ok_0;
        let config = state.fee_set(context.fresh_address, bps).config->0;
        assert(MarketplaceConfig { fee_bps: before.fee_bps, ..config } == before);
        assert(works_under(
            state,
            context.fresh_address,
            MarketplaceConfig { fee_bps: before.fee_bps, ..config },
        ));
    }
}

/// Setting the referrers' share changes that share and does nothing else.
pub proof fn referrer_split_takes_effect(
    state: MarketplaceState,
    context: Context,
    admin: Address,
    bps: u32,
)
    ensures
        ({
            let call = Call::SetReferrerSplit { admin, bps };
            let after = state.after(context, call);
            let accepted = set_up(state) && admin == admin_of(state) && bps <= 10_000;
            let config = after.config->0;
            &&& state.effects_of(context, call) == Seq::<Effect>::empty()
            &&& !accepted ==> after == state
            &&& accepted ==> {
                &&& after == MarketplaceState { config: after.config, ..state }
                &&& after.config is Some
                &&& config.referrer_split_bps == bps
                &&& exists|old_bps: u32| #[trigger]
                    works_under(
                        state,
                        context.fresh_address,
                        MarketplaceConfig { referrer_split_bps: old_bps, ..config },
                    )
            }
        }),
{
    if state.loaded(context.fresh_address) is Ok {
        let before = state.loaded(context.fresh_address)->Ok_0;
        let config = state.referrer_split_set(context.fresh_address, bps).config->0;
        assert(MarketplaceConfig { referrer_split_bps: before.referrer_split_bps, ..config }
            == before);
        assert(works_under(
            state,
            context.fresh_address,
            MarketplaceConfig { referrer_split_bps: before.referrer_split_bps, ..config },
        ));
    }
}

/// Setting the fee of a risk class changes the fee of that class and of no other.
pub proof fn tier_fee_takes_effect(
    state: MarketplaceState,
    context: Context,
    admin: Address,
    tier: RiskTier,
    bps: u32,
)
    ensures
        ({
            let call = Call::SetTierFee { admin, tier, bps };
            let after = state.after(context, call);
            let accepted = set_up(state) && admin == admin_of(state) && bps <= 10_000;
            &&& state.effects_of(context, call) == Seq::<Effect>::empty()
            &&& !accepted ==> after == state
            &&& accepted ==> {
                &&& after == MarketplaceState {
                    config: after.config,
                    tier_fee_bps: after.tier_fee_bps,
                    ..state
                }
                &&& after.config is Some
                &&& works_under(state, context.fresh_address, after.config->0)
                &&& after.tier_fee_bps == state.tier_fee_bps.insert(number_of(tier), bps)
            }
        }),
{
}

/// The fee of a risk class is the one that was set for it, else the general fee. Until the
/// marketplace is set up, fifty basis points are quoted.
pub proof fn tier_fee_falls_back(
    state: MarketplaceState,
    fresh_address: Address,
    config: MarketplaceConfig,
    tier: RiskTier,
)
    ensures
        ({
            let own = state.tier_fee_bps.contains_key(number_of(tier));
            let fee = state.tier_fee_bps[number_of(tier)];
            let quoted = state.quoted_fee_bps(fresh_address, tier);
            &&& own ==> quoted == fee && state.effective_fee_bps(config, tier) == fee
            &&& !own ==> state.effective_fee_bps(config, tier) == config.fee_bps
            &&& !own && works_under(state, fresh_address, config) ==> quoted == config.fee_bps
            &&& !own && !set_up(state) ==> quoted == 50
        }),
{
}

/// The admin, and nobody else, can put any token on the list. That token is then on it, the entry
/// is kept alive, it is announced, and nothing else happens.
pub proof fn whitelisting_takes_effect(
    state: MarketplaceState,
    context: Context,
    admin: Address,
    token: Address,
)
    ensures
        ({
            let call = Call::WhitelistToken { admin, token };
            let after = state.after(context, call);
            let effects = state.effects_of(context, call);
            let accepted = set_up(state) && admin == admin_of(state);
            &&& !accepted ==> after == state && effects == Seq::<Effect>::empty()
            &&& accepted ==> {
                &&& after == MarketplaceState {
                    config: after.config,
                    whitelist: after.whitelist,
                    ..state
                }
                &&& after.config is Some
                &&& works_under(state, context.fresh_address, after.config->0)
                &&& after.whitelist == state.whitelist.insert(token, true)
                &&& effects == seq![
                    kept_alive(DataKey::WhitelistedToken(token)),
                    Effect::Publish(Event::TokenWhitelisted { admin, token }),
                ]
            }
        }),
{
}

/// The admin, and nobody else, can take any token off the list that is on it.
pub proof fn removal_from_the_list_takes_effect(
    state: MarketplaceState,
    context: Context,
    admin: Address,
    token: Address,
)
    ensures
        ({
            let call = Call::RemoveTokenWhitelist { admin, token };
            let verdict = state.remove_token_whitelist_verdict(
                context.fresh_address,
                admin,
                token,
            );
            let after = state.after(context, call);
            let admitted = set_up(state) && admin == admin_of(state);
            let listed = state.whitelist.contains_key(token) && state.whitelist[token];
            &&& state.is_whitelisted(token) == listed
            &&& verdict is Ok <==> admitted && listed
            &&& verdict == Err::<(), KoraError>(KoraError::NotInitialized) <==> !set_up(state)
            &&& verdict == Err::<(), KoraError>(KoraError::NotAdmin) <==> set_up(state) && admin
                != admin_of(state)
            &&& verdict == Err::<(), KoraError>(KoraError::TokenNotWhitelisted) <==> admitted
                && !listed
            &&& state.effects_of(context, call) == Seq::<Effect>::empty()
            &&& verdict is Err ==> after == state
            &&& verdict is Ok ==> {
                &&& after == MarketplaceState {
                    config: after.config,
                    whitelist: after.whitelist,
                    ..state
                }
                &&& after.config is Some
                &&& works_under(state, context.fresh_address, after.config->0)
                &&& after.whitelist == state.whitelist.remove(token)
            }
        }),
{
}

/// Whether the protocol runs: there is no pause, or the access control says that it is off.
pub open spec fn runs(state: MarketplaceState, paused: Option<bool>) -> bool {
    state.legacy.access_control is None || paused == Some(false)
}

/// Whether the terms of a listing hold by themselves: positive amounts within the protocol's
/// bound, a deadline ahead, a discount, and a token on the list.
pub open spec fn terms_hold(
    state: MarketplaceState,
    timestamp: u64,
    request: ListRequest,
    replies: ListReplies,
) -> bool {
    &&& 0 < request.asking_price < request.face_value
    &&& replies.asking_price_bound matches Some(Ok(_))
    &&& replies.face_value_bound matches Some(Ok(_))
    &&& timestamp < request.funding_deadline
    &&& state.whitelist.contains_key(request.token)
    &&& state.whitelist[request.token]
}

/// An invoice is listed exactly when the protocol runs, the terms hold, the marketplace is set up,
/// the seller's compliance is attested, the invoice is not listed yet, the guard is free, nobody
/// refers itself, and the invoice is of the face value that is claimed.
pub proof fn listing_is_accepted_exactly_when(
    state: MarketplaceState,
    timestamp: u64,
    fresh_address: Address,
    guard: Result<(), KoraError>,
    request: ListRequest,
    replies: ListReplies,
)
    ensures
        state.list_outcome(timestamp, fresh_address, guard, request, replies) == Ok::<
            ListStep,
            KoraError,
        >(ListStep::Done) <==> {
            &&& runs(state, replies.paused)
            &&& terms_hold(state, timestamp, request, replies)
            &&& set_up(state)
            &&& replies.attested == Some(true)
            &&& !state.listings.contains_key(request.invoice_id)
            &&& guard is Ok
            &&& request.referrer != Some(request.seller)
            &&& replies.invoice_amount == Some(request.face_value)
        },
{
}

/// Where the terms of a listing fail, the refusal says why, the first failure first; where an
/// answer about them is missing, it is asked for.
pub proof fn listing_terms_are_judged_in_order(
    state: MarketplaceState,
    timestamp: u64,
    fresh_address: Address,
    guard: Result<(), KoraError>,
    request: ListRequest,
    replies: ListReplies,
)
    ensures
        ({
            let outcome = state.list_outcome(timestamp, fresh_address, guard, request, replies);
            let positive = runs(state, replies.paused) && request.asking_price > 0
                && request.face_value > 0;
            let asking_bound = positive && replies.asking_price_bound matches Some(Ok(_));
            let bounded = asking_bound && replies.face_value_bound matches Some(Ok(_));
            let timely = bounded && timestamp < request.funding_deadline;
            let discounted = timely && request.asking_price < request.face_value;
            let admitted = state.whitelist.contains_key(request.token)
                && state.whitelist[request.token];
            &&& state.legacy.access_control matches Some(access_control) ==> {
                &&& replies.paused is None ==> outcome == Ok::<ListStep, KoraError>(
                    ListStep::AskPaused { access_control },
                )
                &&& replies.paused == Some(true) ==> outcome == Err::<ListStep, KoraError>(
                    KoraError::ProtocolPaused,
                )
            }
            &&& runs(state, replies.paused) && (request.asking_price <= 0 || request.face_value
                <= 0) ==> outcome == Err::<ListStep, KoraError>(KoraError::InvalidAmount)
            &&& positive && replies.asking_price_bound is None ==> outcome == Ok::<
                ListStep,
                KoraError,
            >(ListStep::AskAskingPriceBound { amount: request.asking_price })
            &&& positive ==> (replies.asking_price_bound matches Some(Err(error)) ==> outcome
                == Err::<ListStep, KoraError>(error))
            &&& asking_bound && replies.face_value_bound is None ==> outcome == Ok::<
                ListStep,
                KoraError,
            >(ListStep::AskFaceValueBound { amount: request.face_value })
            &&& asking_bound ==> (replies.face_value_bound matches Some(Err(error)) ==> outcome
                == Err::<ListStep, KoraError>(error))
            &&& bounded && timestamp >= request.funding_deadline ==> outcome == Err::<
                ListStep,
                KoraError,
            >(KoraError::InvalidDueDate)
            &&& timely && request.asking_price >= request.face_value ==> outcome == Err::<
                ListStep,
                KoraError,
            >(KoraError::InvalidAmount)
            &&& discounted && !admitted ==> outcome == Err::<ListStep, KoraError>(
                KoraError::TokenNotWhitelisted,
            )
        }),
{
}

/// Where the terms of a listing hold, what still stands against it is said, the first obstacle
/// first; where an answer is missing, the contract that can give it is asked.
pub proof fn listing_obstacles_are_judged_in_order(
    state: MarketplaceState,
    timestamp: u64,
    fresh_address: Address,
    guard: Result<(), KoraError>,
    request: ListRequest,
    replies: ListReplies,
    config: MarketplaceConfig,
)
    requires
        runs(state, replies.paused),
        terms_hold(state, timestamp, request, replies),
    ensures
        ({
            let outcome = state.list_outcome(timestamp, fresh_address, guard, request, replies);
            let attested = works_under(state, fresh_address, config) && replies.attested == Some(
                true,
            );
            let new = attested && !state.listings.contains_key(request.invoice_id);
            let free = new && guard is Ok;
            let referred = free && request.referrer != Some(request.seller);
            &&& !set_up(state) ==> outcome == Err::<ListStep, KoraError>(KoraError::NotInitialized)
            &&& works_under(state, fresh_address, config) && replies.attested is None ==> outcome
                == Ok::<ListStep, KoraError>(
                ListStep::AskAttested { risk_registry: config.risk_registry, sme: request.seller },
            )
            &&& works_under(state, fresh_address, config) && replies.attested == Some(false)
                ==> outcome == Err::<ListStep, KoraError>(KoraError::ComplianceNotAttested)
            &&& attested && state.listings.contains_key(request.invoice_id) ==> outcome == Err::<
                ListStep,
                KoraError,
            >(KoraError::InvoiceAlreadyExists)
            &&& new ==> (guard matches Err(error) ==> outcome == Err::<ListStep, KoraError>(error))
            &&& free && request.referrer == Some(request.seller) ==> outcome == Err::<
                ListStep,
                KoraError,
            >(KoraError::InvalidAddress)
            &&& referred && replies.invoice_amount is None ==> outcome == Ok::<
                ListStep,
                KoraError,
            >(
                ListStep::AskInvoiceAmount {
                    invoice_nft: config.invoice_nft,
                    invoice_id: request.invoice_id,
                },
            )
            &&& referred ==> (replies.invoice_amount matches Some(amount) ==> amount
                != request.face_value ==> outcome == Err::<ListStep, KoraError>(
                KoraError::InvalidAmount,
            ))
        }),
{
}

/// A listing that is made stands under the invoice's id on the terms that were asked, unfunded and
/// on offer, with its referrer if it has one. No other entry changes; one that is not made changes
/// nothing.
pub proof fn listing_takes_effect(
    state: MarketplaceState,
    context: Context,
    request: ListRequest,
    list_replies: ListReplies,
)
    ensures
        ({
            let call = Call::ListInvoice { request, list_replies };
            let outcome = state.list_outcome(
                context.timestamp,
                context.fresh_address,
                context.guard,
                request,
                list_replies,
            );
            let after = state.after(context, call);
            let id = request.invoice_id;
            &&& outcome != Ok::<ListStep, KoraError>(ListStep::Done) ==> after == state
                && state.effects_of(context, call) == Seq::<Effect>::empty()
            &&& outcome == Ok::<ListStep, KoraError>(ListStep::Done) ==> {
                &&& after == MarketplaceState {
                    config: after.config,
                    listings: after.listings,
                    referrers: after.referrers,
                    ..state
                }
                &&& after.config is Some
                &&& works_under(state, context.fresh_address, after.config->0)
                &&& after.listings.remove(id) == state.listings.remove(id)
                &&& after.listings.contains_key(id)
                &&& after.listings[id] == Listing {
                    invoice_id: id,
                    seller: request.seller,
                    asking_price: request.asking_price,
                    face_value: request.face_value,
                    token: request.token,
                    funded_amount: 0,
                    funding_deadline: request.funding_deadline,
                    is_active: true,
                }
                &&& request.referrer is None ==> after.referrers == state.referrers
                &&& request.referrer matches Some(referrer) ==> after.referrers
                    == state.referrers.insert(id, referrer)
            }
        }),
{
}

/// For every listing that is made, with a referrer or without, the invoice contract is told
/// exactly once that the invoice is listed; the entries are kept alive, the listing is announced,
/// and nothing else is asked of the host. No tokens move.
pub proof fn listing_is_told_once(
    state: MarketplaceState,
    context: Context,
    request: ListRequest,
    list_replies: ListReplies,
    config: MarketplaceConfig,
)
    requires
        works_under(state, context.fresh_address, config),
        state.list_outcome(
            context.timestamp,
            context.fresh_address,
            context.guard,
            request,
            list_replies,
        ) == Ok::<ListStep, KoraError>(ListStep::Done),
    ensures
        ({
            let id = request.invoice_id;
            let effects = state.effects_of(
                context,
                (Call::ListInvoice { request, list_replies }),
            );
            let told = Effect::SetListed {
                invoice_nft: config.invoice_nft,
                caller: context.contract,
                invoice_id: id,
            };
            let announced = Effect::Publish(
                Event::InvoiceListed {
                    invoice_id: id,
                    seller: request.seller,
                    asking_price: request.asking_price,
                },
            );
            &&& exists|i: int|
                0 <= i < effects.len() && #[trigger] effects[i] == told && forall|j: int|
                    0 <= j < effects.len() && j != i ==> !(#[trigger] effects[j] is SetListed)
            &&& request.referrer is None ==> effects == seq![
                told,
                kept_alive(DataKey::Listing(id)),
                announced,
            ]
            &&& request.referrer is Some ==> effects == seq![
                kept_alive(DataKey::Referrer(id)),
                told,
                kept_alive(DataKey::Listing(id)),
                announced,
            ]
        }),
{
    let id = request.invoice_id;
    let effects = state.effects_of(context, Call::ListInvoice { request, list_replies });
    let told = Effect::SetListed {
        invoice_nft: config.invoice_nft,
        caller: context.contract,
        invoice_id: id,
    };
    let announced = Effect::Publish(
        Event::InvoiceListed {
            invoice_id: id,
            seller: request.seller,
            asking_price: request.asking_price,
        },
    );
    if request.referrer is None {
        assert(effects =~= seq![told, kept_alive(DataKey::Listing(id)), announced]);
        assert(effects[0] == told);
    } else {
        assert(effects =~= seq![
            kept_alive(DataKey::Referrer(id)),
            told,
            kept_alive(DataKey::Listing(id)),
            announced,
        ]);
        assert(effects[1] == told);
    }
}

/// Whether a listing is on offer.
pub open spec fn on_offer(state: MarketplaceState, invoice_id: u64) -> bool {
    state.listings.contains_key(invoice_id) && state.listings[invoice_id].is_active
}

/// Whether a caller may take a listing off the offer: its seller may, and so may the admin.
pub open spec fn may_cancel(state: MarketplaceState, caller: Address, invoice_id: u64) -> bool {
    caller == state.listings[invoice_id].seller || caller == admin_of(state)
}

/// The seller and the admin, and nobody else, can cancel every listing that is on offer, whatever
/// it was funded with.
pub proof fn cancelling_is_accepted_exactly_when(
    state: MarketplaceState,
    fresh_address: Address,
    caller: Address,
    invoice_id: u64,
)
    ensures
        ({
            let verdict = state.cancel_verdict(fresh_address, caller, invoice_id);
            let ready = on_offer(state, invoice_id) && set_up(state);
            &&& verdict is Ok <==> ready && may_cancel(state, caller, invoice_id)
            &&& verdict == Err::<(), KoraError>(KoraError::ListingNotFound)
                <==> !state.listings.contains_key(invoice_id)
            &&& verdict == Err::<(), KoraError>(KoraError::ListingAlreadyCancelled)
                <==> state.listings.contains_key(invoice_id)
                && !state.listings[invoice_id].is_active
            &&& verdict == Err::<(), KoraError>(KoraError::NotInitialized) <==> on_offer(
                state,
                invoice_id,
            ) && !set_up(state)
            &&& verdict == Err::<(), KoraError>(KoraError::Unauthorized) <==> ready && !may_cancel(
                state,
                caller,
                invoice_id,
            )
        }),
{
}

/// Cancelling takes the one listing off the offer, keeps its entry alive, announces it with its
/// seller, and does nothing else.
pub proof fn cancelling_takes_effect(
    state: MarketplaceState,
    context: Context,
    caller: Address,
    invoice_id: u64,
)
    ensures
        ({
            let call = Call::CancelListing { caller, invoice_id };
            let accepted = on_offer(state, invoice_id) && set_up(state) && may_cancel(
                state,
                caller,
                invoice_id,
            );
            &&& accepted ==> is_cancelled(
                state,
                context,
                invoice_id,
                state.after(context, call),
                state.effects_of(context, call),
            )
            &&& !accepted ==> state.after(context, call) == state && state.effects_of(context, call)
                == Seq::<Effect>::empty()
        }),
{
    let after = state.after(context, Call::CancelListing { caller, invoice_id });
    assert(after.listings.remove(invoice_id) =~= state.listings.remove(invoice_id));
}

/// Whether a storage and some effects are those of a listing's cancellation in one step.
pub open spec fn is_cancelled(
    state: MarketplaceState,
    context: Context,
    invoice_id: u64,
    after: MarketplaceState,
    effects: Seq<Effect>,
) -> bool {
    let seller = state.listings[invoice_id].seller;
    &&& after == MarketplaceState { config: after.config, listings: after.listings, ..state }
    &&& after.config is Some
    &&& works_under(state, context.fresh_address, after.config->0)
    &&& after.listings.remove(invoice_id) == state.listings.remove(invoice_id)
    &&& after.listings.contains_key(invoice_id)
    &&& !after.listings[invoice_id].is_active
    &&& state.listings[invoice_id] == Listing { is_active: true, ..after.listings[invoice_id] }
    &&& effects == seq![
        kept_alive(DataKey::Listing(invoice_id)),
        Effect::Publish(Event::ListingCancelled { invoice_id, seller }),
    ]
}

/// The seller and the admin, and nobody else, can ask for the cancellation of every listing that
/// is on offer. Only where investors have paid in can an earlier request stand in the way.
pub proof fn cancellation_request_is_accepted_exactly_when(
    state: MarketplaceState,
    fresh_address: Address,
    caller: Address,
    invoice_id: u64,
)
    ensures
        ({
            let verdict = state.request_cancellation_verdict(fresh_address, caller, invoice_id);
            let ready = on_offer(state, invoice_id) && set_up(state);
            let pending = state.listings[invoice_id].funded_amount != 0
                && state.cancellation_requests.contains_key(invoice_id);
            &&& verdict is Ok <==> ready && may_cancel(state, caller, invoice_id) && !pending
            &&& verdict == Err::<(), KoraError>(KoraError::ListingNotFound)
                <==> !state.listings.contains_key(invoice_id)
            &&& verdict == Err::<(), KoraError>(KoraError::ListingAlreadyCancelled)
                <==> state.listings.contains_key(invoice_id)
                && !state.listings[invoice_id].is_active
            &&& verdict == Err::<(), KoraError>(KoraError::NotInitialized) <==> on_offer(
                state,
                invoice_id,
            ) && !set_up(state)
            &&& verdict == Err::<(), KoraError>(KoraError::Unauthorized) <==> ready && !may_cancel(
                state,
                caller,
                invoice_id,
            )
            &&& verdict == Err::<(), KoraError>(KoraError::CancellationPending) <==> ready
                && may_cancel(state, caller, invoice_id) && pending
        }),
{
}

/// A request for the cancellation of a listing that nobody has paid into cancels it. One for a
/// listing with contributions stores who has asked, keeps that entry alive, announces it, and
/// leaves the listing as it is.
pub proof fn cancellation_request_takes_effect(
    state: MarketplaceState,
    context: Context,
    caller: Address,
    invoice_id: u64,
)
    ensures
        ({
            let call = Call::RequestCancellation { caller, invoice_id };
            let after = state.after(context, call);
            let effects = state.effects_of(context, call);
            let verdict = state.request_cancellation_verdict(
                context.fresh_address,
                caller,
                invoice_id,
            );
            &&& verdict is Err ==> after == state && effects == Seq::<Effect>::empty()
            &&& verdict is Ok && state.listings[invoice_id].funded_amount == 0 ==> is_cancelled(
                state,
                context,
                invoice_id,
                after,
                effects,
            )
            &&& verdict is Ok && state.listings[invoice_id].funded_amount != 0 ==> {
                &&& after == MarketplaceState {
                    config: after.config,
                    cancellation_requests: after.cancellation_requests,
                    ..state
                }
                &&& after.config is Some
                &&& works_under(state, context.fresh_address, after.config->0)
                &&& after.cancellation_requests == state.cancellation_requests.insert(
                    invoice_id,
                    caller,
                )
                &&& effects == seq![
                    kept_alive(DataKey::CancellationRequest(invoice_id)),
                    Effect::Publish(Event::CancellationRequested { invoice_id, caller }),
                ]
            }
        }),
{
    let after = state.after(context, Call::RequestCancellation { caller, invoice_id });
    assert(after.listings.remove(invoice_id) =~= state.listings.remove(invoice_id));
}

/// The admin, and nobody else, can confirm every cancellation that was requested, by whomever, of
/// a listing that is on offer.
pub proof fn confirmation_is_accepted_exactly_when(
    state: MarketplaceState,
    fresh_address: Address,
    caller: Address,
    invoice_id: u64,
)
    ensures
        ({
            let verdict = state.confirm_cancellation_verdict(fresh_address, caller, invoice_id);
            let admitted = set_up(state) && caller == admin_of(state);
            let pending = admitted && state.cancellation_requests.contains_key(invoice_id);
            &&& verdict is Ok <==> pending && on_offer(state, invoice_id)
            &&& verdict == Err::<(), KoraError>(KoraError::NotInitialized) <==> !set_up(state)
            &&& verdict == Err::<(), KoraError>(KoraError::NotAdmin) <==> set_up(state) && caller
                != admin_of(state)
            &&& verdict == Err::<(), KoraError>(KoraError::NoCancellationPending) <==> admitted
                && !state.cancellation_requests.contains_key(invoice_id)
            &&& verdict == Err::<(), KoraError>(KoraError::ListingNotFound) <==> pending
                && !state.listings.contains_key(invoice_id)
            &&& verdict == Err::<(), KoraError>(KoraError::ListingAlreadyCancelled) <==> pending
                && state.listings.contains_key(invoice_id)
                && !state.listings[invoice_id].is_active
        }),
{
}

/// A confirmation takes the listing off the offer, settles the request, and marks the cancellation
/// as confirmed; the entries are kept alive, it is announced, and nothing else happens.
pub proof fn confirmation_takes_effect(
    state: MarketplaceState,
    context: Context,
    admin: Address,
    invoice_id: u64,
)
    ensures
        ({
            let call = Call::ConfirmCancellation { admin, invoice_id };
            let after = state.after(context, call);
            let effects = state.effects_of(context, call);
            let seller = state.listings[invoice_id].seller;
            let accepted = set_up(state) && admin == admin_of(state)
                && state.cancellation_requests.contains_key(invoice_id) && on_offer(
                state,
                invoice_id,
            );
            &&& !accepted ==> after == state && effects == Seq::<Effect>::empty()
            &&& accepted ==> {
                &&& after == MarketplaceState {
                    config: after.config,
                    listings: after.listings,
                    cancellation_requests: after.cancellation_requests,
                    cancellations_confirmed: after.cancellations_confirmed,
                    ..state
                }
                &&& after.config is Some
                &&& works_under(state, context.fresh_address, after.config->0)
                &&& after.listings.remove(invoice_id) == state.listings.remove(invoice_id)
                &&& after.listings.contains_key(invoice_id)
                &&& !after.listings[invoice_id].is_active
                &&& state.listings[invoice_id] == Listing {
                    is_active: true,
                    ..after.listings[invoice_id]
                }
                &&& after.cancellation_requests == state.cancellation_requests.remove(invoice_id)
                &&& after.cancellations_confirmed == state.cancellations_confirmed.insert(
                    invoice_id,
                    true,
                )
                &&& effects == seq![
                    kept_alive(DataKey::Listing(invoice_id)),
                    kept_alive(DataKey::CancellationConfirmed(invoice_id)),
                    Effect::Publish(Event::ListingCancelled { invoice_id, seller }),
                ]
            }
        }),
{
    let after = state.after(context, Call::ConfirmCancellation { admin, invoice_id });
    assert(after.listings.remove(invoice_id) =~= state.listings.remove(invoice_id));
}

/// The admin, and nobody else, can propose any code at any time. The proposal replaces an earlier
/// one, starts its timelock now, is announced, and nothing else happens.
pub proof fn proposal_takes_effect(
    state: MarketplaceState,
    context: Context,
    admin: Address,
    wasm_hash: [u8; 32],
)
    ensures
        ({
            let call = Call::ProposeUpgrade { admin, wasm_hash };
            let after = state.after(context, call);
            let effects = state.effects_of(context, call);
            let accepted = set_up(state) && admin == admin_of(state);
            &&& !accepted ==> after == state && effects == Seq::<Effect>::empty()
            &&& accepted ==> {
                &&& after == MarketplaceState {
                    config: after.config,
                    upgrade_proposal: after.upgrade_proposal,
                    ..state
                }
                &&& after.config is Some
                &&& works_under(state, context.fresh_address, after.config->0)
                &&& after.upgrade_proposal == Some(
                    UpgradeProposal { wasm_hash, proposed_at: context.timestamp },
                )
                &&& effects == seq![Effect::Publish(Event::UpgradeProposed { admin, wasm_hash })]
            }
        }),
{
}

/// The admin, and nobody else, can execute a proposed upgrade from the end of its timelock on. The
/// proposed code then runs, it is announced, the proposal is gone, and nothing else happens.
pub proof fn execution_takes_effect(state: MarketplaceState, context: Context, admin: Address)
    ensures
        ({
            let call = Call::ExecuteUpgrade { admin };
            let verdict = state.execute_upgrade_verdict(
                context.timestamp,
                context.upgrade_timelock,
                context.fresh_address,
                admin,
            );
            let after = state.after(context, call);
            let effects = state.effects_of(context, call);
            let admitted = set_up(state) && admin == admin_of(state);
            let proposal = state.upgrade_proposal->0;
            let ripe = context.timestamp - proposal.proposed_at >= context.upgrade_timelock;
            let wasm_hash = proposal.wasm_hash;
            &&& verdict is Ok <==> admitted && state.upgrade_proposal is Some && ripe
            &&& verdict == Err::<(), KoraError>(KoraError::NotInitialized) <==> !set_up(state)
            &&& verdict == Err::<(), KoraError>(KoraError::NotAdmin) <==> set_up(state) && admin
                != admin_of(state)
            &&& verdict == Err::<(), KoraError>(KoraError::NoUpgradeProposed) <==> admitted
                && state.upgrade_proposal is None
            &&& verdict == Err::<(), KoraError>(KoraError::UpgradeTimelockNotElapsed) <==> admitted
                && state.upgrade_proposal is Some && !ripe
            &&& verdict is Err ==> after == state && effects == Seq::<Effect>::empty()
            &&& verdict is Ok ==> {
                &&& after == MarketplaceState {
                    config: after.config,
                    upgrade_proposal: None,
                    ..state
                }
                &&& after.config is Some
                &&& works_under(state, context.fresh_address, after.config->0)
                &&& effects == seq![
                    Effect::Publish(Event::UpgradeExecuted { admin, wasm_hash }),
                    Effect::UpdateWasm(wasm_hash),
                ]
            }
        }),
{
}

} // verus!
