//! What the calls of the marketplace promise together.
use vstd::prelude::*;

use crate::errors::KoraError;
use crate::marketplace::model::{
    Effect, FundReplies, FundStep, ListReplies, ListRequest, ListStep, MarketplaceConfig,
    MarketplaceState,
};
use crate::types::{Address, Listing, RiskTier};

verus! {

/// The tokens that effects take from an address.
pub open spec fn outflow(effects: Seq<Effect>, from: Address) -> int
    decreases effects.len(),
{
    if effects.len() == 0 {
        0
    } else {
        outflow(effects.drop_last(), from) + (match effects.last() {
            Effect::Transfer { from: payer, amount, .. } => if payer == from {
                amount as int
            } else {
                0
            },
            _ => 0,
        })
    }
}

/// A marketplace that is set up is not set up again.
pub proof fn initialize_succeeds_once(
    state: MarketplaceState,
    config: MarketplaceConfig,
    fee_bps: u32,
)
    ensures
        state.with_config(config).initialize_verdict(fee_bps) == Err::<(), KoraError>(
            KoraError::AlreadyInitialized,
        ),
{
}

/// Loading the configuration of an older deployment moves it once: from then on the same
/// configuration is loaded, whatever address the host draws.
pub proof fn migration_is_stable(
    state: MarketplaceState,
    fresh_address: Address,
    other_address: Address,
)
    requires
        state.loaded(fresh_address) is Ok,
    ensures
        state.migrated(fresh_address).loaded(other_address) == state.loaded(fresh_address),
        state.migrated(fresh_address).migrated(other_address) == state.migrated(fresh_address),
{
}

/// The fee that was set is the fee that is read; nothing else of the configuration changes.
pub proof fn fee_reads_back(
    state: MarketplaceState,
    fresh_address: Address,
    admin: Address,
    bps: u32,
)
    requires
        state.set_rate_verdict(fresh_address, admin, bps) is Ok,
    ensures
        state.fee_set(fresh_address, bps).loaded(fresh_address) == Ok::<
            MarketplaceConfig,
            KoraError,
        >(MarketplaceConfig { fee_bps: bps, ..state.loaded(fresh_address)->Ok_0 }),
{
}

/// The referrers' share that was set is the share that is read; nothing else of the configuration
/// changes.
pub proof fn referrer_split_reads_back(
    state: MarketplaceState,
    fresh_address: Address,
    admin: Address,
    bps: u32,
)
    requires
        state.set_rate_verdict(fresh_address, admin, bps) is Ok,
    ensures
        state.referrer_split_set(fresh_address, bps).loaded(fresh_address) == Ok::<
            MarketplaceConfig,
            KoraError,
        >(MarketplaceConfig { referrer_split_bps: bps, ..state.loaded(fresh_address)->Ok_0 }),
{
}

/// The fee that was set for a risk class is the one that is quoted and charged for it; other
/// classes keep theirs.
pub proof fn tier_fee_reads_back(
    state: MarketplaceState,
    fresh_address: Address,
    admin: Address,
    tier: RiskTier,
    bps: u32,
    other: RiskTier,
)
    requires
        state.set_rate_verdict(fresh_address, admin, bps) is Ok,
        other != tier,
    ensures
        ({
            let after = state.tier_fee_set(fresh_address, tier, bps);
            let config = state.loaded(fresh_address)->Ok_0;
            &&& after.quoted_fee_bps(fresh_address, tier) == bps
            &&& after.effective_fee_bps(config, tier) == bps
            &&& after.quoted_fee_bps(fresh_address, other) == state.quoted_fee_bps(
                fresh_address,
                other,
            )
            &&& after.effective_fee_bps(config, other) == state.effective_fee_bps(config, other)
        }),
{
}

/// A token is admitted once it is on the list and no longer once it is off it; other tokens are
/// not touched.
pub proof fn whitelist_reads_back(
    state: MarketplaceState,
    fresh_address: Address,
    token: Address,
    other: Address,
)
    requires
        other != token,
    ensures
        state.token_whitelisted(fresh_address, token).is_whitelisted(token),
        !state.token_removed(fresh_address, token).is_whitelisted(token),
        state.token_whitelisted(fresh_address, token).is_whitelisted(other)
            == state.is_whitelisted(other),
        state.token_removed(fresh_address, token).is_whitelisted(other) == state.is_whitelisted(
            other,
        ),
{
}

/// An invoice that has a listing is not listed again, on whatever terms and answers.
pub proof fn invoice_is_listed_once(
    state: MarketplaceState,
    timestamp: u64,
    fresh_address: Address,
    guard: Result<(), KoraError>,
    request: ListRequest,
    replies: ListReplies,
)
    requires
        state.listings.contains_key(request.invoice_id),
    ensures
        state.list_outcome(timestamp, fresh_address, guard, request, replies) != Ok::<
            ListStep,
            KoraError,
        >(ListStep::Done),
{
}

/// While the access control says that the protocol is paused, nothing is listed and nothing is
/// funded.
pub proof fn pause_stops_business(
    state: MarketplaceState,
    timestamp: u64,
    fresh_address: Address,
    guard: Result<(), KoraError>,
    request: ListRequest,
    list_replies: ListReplies,
    investor: Address,
    invoice_id: u64,
    amount: i128,
    fund_replies: FundReplies,
)
    requires
        state.legacy.access_control is Some,
        list_replies.paused == Some(true),
        fund_replies.paused == Some(true),
    ensures
        state.list_outcome(timestamp, fresh_address, guard, request, list_replies) == Err::<
            ListStep,
            KoraError,
        >(KoraError::ProtocolPaused),
        state.fund_outcome(
            timestamp,
            fresh_address,
            investor,
            invoice_id,
            amount,
            fund_replies,
        ) == Err::<FundStep, KoraError>(KoraError::ProtocolPaused),
{
}

/// The listing of an invoice asks only for answers that have not come; with all of them it is
/// decided.
pub proof fn answered_listing_is_decided(
    state: MarketplaceState,
    timestamp: u64,
    fresh_address: Address,
    guard: Result<(), KoraError>,
    request: ListRequest,
    replies: ListReplies,
)
    ensures
        match state.list_outcome(timestamp, fresh_address, guard, request, replies) {
            Ok(ListStep::AskPaused { .. }) => replies.paused is None,
            Ok(ListStep::AskAskingPriceBound { .. }) => replies.asking_price_bound is None,
            Ok(ListStep::AskFaceValueBound { .. }) => replies.face_value_bound is None,
            Ok(ListStep::AskAttested { .. }) => replies.attested is None,
            Ok(ListStep::AskInvoiceAmount { .. }) => replies.invoice_amount is None,
            Ok(ListStep::Done) => true,
            Err(_) => true,
        },
{
}

/// The funding of an invoice asks only for answers that have not come; with all of them it is
/// decided.
pub proof fn answered_funding_is_decided(
    state: MarketplaceState,
    timestamp: u64,
    fresh_address: Address,
    investor: Address,
    invoice_id: u64,
    amount: i128,
    replies: FundReplies,
)
    ensures
        match state.fund_outcome(
            timestamp,
            fresh_address,
            investor,
            invoice_id,
            amount,
            replies,
        ) {
            Ok(FundStep::AskPaused { .. }) => replies.paused is None,
            Ok(FundStep::AskAmountBound { .. }) => replies.amount_bound is None,
            Ok(FundStep::AskFrozen { .. }) => replies.frozen is None,
            Ok(FundStep::AskDecimals { .. }) => replies.decimals is None,
            Ok(FundStep::AskRiskTier { .. }) => replies.risk_tier is None,
            Ok(FundStep::AskFee { .. }) => replies.fee is None,
            Ok(FundStep::Done) => true,
            Err(_) => true,
        },
{
}

/// A listing that was made is on offer, unfunded, below its face value, in an admitted token, by
/// a seller whose compliance is attested, and for an invoice of just that face value.
pub proof fn listing_is_sound(
    state: MarketplaceState,
    timestamp: u64,
    fresh_address: Address,
    guard: Result<(), KoraError>,
    request: ListRequest,
    replies: ListReplies,
)
    requires
        state.list_outcome(timestamp, fresh_address, guard, request, replies) == Ok::<
            ListStep,
            KoraError,
        >(ListStep::Done),
    ensures
        ({
            let after = state.listed(fresh_address, request);
            let listing = after.listings[request.invoice_id];
            &&& after.listings.contains_key(request.invoice_id)
            &&& after.listing_wf(request.invoice_id)
            &&& listing.is_active
            &&& listing.funded_amount == 0
            &&& listing.funding_deadline > timestamp
            &&& after.is_whitelisted(listing.token)
            &&& replies.attested == Some(true)
            &&& replies.invoice_amount == Some(listing.face_value)
            &&& request.referrer != Some(listing.seller)
        }),
{
}

/// A contribution is accepted only for a listing on offer, before its deadline, and up to what is
/// left of its price.
pub proof fn contribution_is_sound(
    state: MarketplaceState,
    timestamp: u64,
    fresh_address: Address,
    investor: Address,
    invoice_id: u64,
    amount: i128,
    replies: FundReplies,
)
    requires
        state.fund_outcome(
            timestamp,
            fresh_address,
            investor,
            invoice_id,
            amount,
            replies,
        ) == Ok::<FundStep, KoraError>(FundStep::Done),
    ensures
        ({
            let listing = state.listings[invoice_id];
            &&& state.listings.contains_key(invoice_id)
            &&& listing.is_active
            &&& timestamp <= listing.funding_deadline
            &&& 0 < amount <= listing.asking_price - listing.funded_amount
            &&& replies.frozen == Some(false)
        }),
{
}

/// What an investor pays is exactly the amount of its contribution: the referrer's share, the
/// treasury's part and the pool's part leave nothing over.
pub proof fn contribution_is_conserved(
    state: MarketplaceState,
    config: MarketplaceConfig,
    investor: Address,
    invoice_id: u64,
    amount: i128,
    fee: i128,
)
    requires
        config.referrer_split_bps <= crate::validation::BPS_DENOMINATOR,
        0 <= fee <= amount,
    ensures
        outflow(state.payments(config, investor, invoice_id, amount, fee), investor) == amount,
{
    if fee > 0 {
        crate::validation::lemma_share_within_amount(fee as int, config.referrer_split_bps as int);
    }
    let token = state.listings[invoice_id].token;
    let referral = state.referral_share(config, invoice_id, fee) as i128;
    let treasury_fee = (fee - referral) as i128;
    let net = (amount - fee) as i128;
    let to_referrer = Effect::Transfer {
        token,
        from: investor,
        to: state.referrers[invoice_id],
        amount: referral,
    };
    let to_treasury = Effect::Transfer {
        token,
        from: investor,
        to: config.treasury,
        amount: treasury_fee,
    };
    let record = Effect::CollectFee { treasury: config.treasury, token, amount: treasury_fee };
    let to_pool = Effect::Transfer {
        token,
        from: investor,
        to: config.financing_pool,
        amount: net,
    };
    let referral_part = if referral > 0 {
        seq![to_referrer]
    } else {
        Seq::empty()
    };
    let treasury_part = if treasury_fee > 0 {
        seq![to_treasury, record]
    } else {
        Seq::empty()
    };
    let pool_part = if net > 0 {
        seq![to_pool]
    } else {
        Seq::empty()
    };
    lemma_outflow_of_few(to_referrer, to_referrer, investor);
    lemma_outflow_of_few(to_treasury, record, investor);
    lemma_outflow_of_few(record, record, investor);
    lemma_outflow_of_few(to_pool, to_pool, investor);
    lemma_outflow_concat(referral_part, treasury_part, investor);
    lemma_outflow_concat(referral_part + treasury_part, pool_part, investor);
    assert(state.payments(config, investor, invoice_id, amount, fee) == referral_part
        + treasury_part + pool_part);
}

/// The contribution that reaches the price takes the listing off the offer and has the pool pay
/// the seller out; a smaller one leaves it on offer.
pub proof fn reaching_the_price_closes_the_listing(
    state: MarketplaceState,
    fresh_address: Address,
    contract: Address,
    investor: Address,
    invoice_id: u64,
    amount: i128,
    fee: i128,
)
    requires
        state.wf(),
        state.listings.contains_key(invoice_id),
        state.listings[invoice_id].is_active,
        0 < amount <= state.listings[invoice_id].asking_price
            - state.listings[invoice_id].funded_amount,
        state.loaded(fresh_address) is Ok,
    ensures
        ({
            let before = state.listings[invoice_id];
            let after = state.funded(
                fresh_address,
                investor,
                invoice_id,
                amount,
                fee,
            ).listings[invoice_id];
            let release = Effect::ReleaseFunds {
                financing_pool: state.loaded(fresh_address)->Ok_0.financing_pool,
                caller: contract,
                invoice_id,
                token: before.token,
            };
            let effects = state.fund_effects(
                fresh_address,
                contract,
                investor,
                invoice_id,
                amount,
                fee,
            );
            &&& after.funded_amount == before.funded_amount + amount
            &&& after.is_active <==> after.funded_amount < after.asking_price
            &&& effects.contains(release) <==> after.funded_amount == after.asking_price
        }),
{
    lemma_release(state, fresh_address, contract, investor, invoice_id, amount, fee);
}

/// A listing off the offer takes no contribution, whatever is answered, and is not cancelled a
/// second time. An amount with nothing else against it is refused because of the listing.
pub proof fn inactive_listing_refuses(
    state: MarketplaceState,
    timestamp: u64,
    fresh_address: Address,
    caller: Address,
    invoice_id: u64,
    amount: i128,
    replies: FundReplies,
)
    requires
        state.listings.contains_key(invoice_id),
        !state.listings[invoice_id].is_active,
    ensures
        ({
            let outcome = state.fund_outcome(
                timestamp,
                fresh_address,
                caller,
                invoice_id,
                amount,
                replies,
            );
            let running = state.legacy.access_control is None || replies.paused == Some(false);
            &&& outcome != Ok::<FundStep, KoraError>(FundStep::Done)
            &&& running && amount > 0 && replies.amount_bound == Some(Ok::<(), KoraError>(()))
                ==> outcome == Err::<FundStep, KoraError>(KoraError::ListingAlreadyCancelled)
        }),
        state.cancel_verdict(fresh_address, caller, invoice_id) == Err::<(), KoraError>(
            KoraError::ListingAlreadyCancelled,
        ),
        state.request_cancellation_verdict(fresh_address, caller, invoice_id) == Err::<
            (),
            KoraError,
        >(KoraError::ListingAlreadyCancelled),
{
}

/// Cancelling takes a listing off the offer and changes nothing else about it.
pub proof fn cancelling_only_deactivates(
    state: MarketplaceState,
    fresh_address: Address,
    invoice_id: u64,
)
    requires
        state.listings.contains_key(invoice_id),
    ensures
        ({
            let before = state.listings[invoice_id];
            let after = state.cancelled(fresh_address, invoice_id).listings[invoice_id];
            &&& !after.is_active
            &&& after == Listing { is_active: false, ..before }
        }),
{
}

/// A request to cancel a listing without contributions cancels it at once; one for a listing with
/// contributions leaves it on offer, and a second one is refused as pending.
pub proof fn cancellation_has_two_phases(
    state: MarketplaceState,
    fresh_address: Address,
    caller: Address,
    second_caller: Address,
    invoice_id: u64,
)
    requires
        state.request_cancellation_verdict(fresh_address, caller, invoice_id) is Ok,
    ensures
        ({
            let after = state.cancellation_requested(fresh_address, caller, invoice_id);
            if state.listings[invoice_id].funded_amount == 0 {
                !after.listings[invoice_id].is_active
            } else {
                &&& after.listings == state.listings
                &&& after.request_cancellation_verdict(fresh_address, caller, invoice_id) == Err::<
                    (),
                    KoraError,
                >(KoraError::CancellationPending)
                &&& after.request_cancellation_verdict(fresh_address, second_caller, invoice_id)
                    is Err
            }
        }),
{
}

/// The admin can confirm a cancellation that has been requested. It then is settled: the listing
/// is off the offer, and every investor with a contribution that it has not had back can have it
/// back, however far the deadline is.
pub proof fn confirmed_cancellation_opens_refunds(
    state: MarketplaceState,
    fresh_address: Address,
    caller: Address,
    invoice_id: u64,
    timestamp: u64,
    investor: Address,
)
    requires
        state.request_cancellation_verdict(fresh_address, caller, invoice_id) is Ok,
        0 < state.listings[invoice_id].funded_amount < state.listings[invoice_id].asking_price,
        state.contribution(invoice_id, investor) > 0,
        !state.is_refund_claimed(invoice_id, investor),
    ensures
        ({
            let requested = state.cancellation_requested(fresh_address, caller, invoice_id);
            let admin = state.loaded(fresh_address)->Ok_0.admin;
            let confirmed = requested.cancellation_confirmed(fresh_address, invoice_id);
            &&& requested.confirm_cancellation_verdict(fresh_address, admin, invoice_id) is Ok
            &&& !confirmed.listings[invoice_id].is_active
            &&& confirmed.refund_verdict(timestamp, fresh_address, investor, invoice_id) is Ok
            &&& confirmed.confirm_cancellation_verdict(fresh_address, admin, invoice_id) == Err::<
                (),
                KoraError,
            >(KoraError::NoCancellationPending)
        }),
{
}

/// A listing that was cancelled without the admin's confirmation keeps its contributions until
/// its deadline has passed.
pub proof fn unconfirmed_cancellation_waits_for_deadline(
    state: MarketplaceState,
    fresh_address: Address,
    caller: Address,
    invoice_id: u64,
    timestamp: u64,
    investor: Address,
)
    requires
        state.wf(),
        state.cancel_verdict(fresh_address, caller, invoice_id) is Ok,
        timestamp <= state.listings[invoice_id].funding_deadline,
    ensures
        state.cancelled(fresh_address, invoice_id).refund_verdict(
            timestamp,
            fresh_address,
            investor,
            invoice_id,
        ) == Err::<(), KoraError>(KoraError::FundingNotExpired),
{
}

/// A contribution is paid back once: after a refund, the same investor's next claim on the same
/// listing is refused as claimed, at that time or later.
pub proof fn refund_is_paid_once(
    state: MarketplaceState,
    fresh_address: Address,
    investor: Address,
    invoice_id: u64,
    timestamp: u64,
    later: u64,
)
    requires
        state.refund_verdict(timestamp, fresh_address, investor, invoice_id) is Ok,
        timestamp <= later,
    ensures
        state.refunded(fresh_address, investor, invoice_id).refund_verdict(
            later,
            fresh_address,
            investor,
            invoice_id,
        ) == Err::<(), KoraError>(KoraError::RefundAlreadyClaimed),
{
}

/// One investor's refund does not touch another's.
pub proof fn refunds_are_independent(
    state: MarketplaceState,
    fresh_address: Address,
    investor: Address,
    invoice_id: u64,
    timestamp: u64,
    other: Address,
)
    requires
        state.refund_verdict(timestamp, fresh_address, investor, invoice_id) is Ok,
        other != investor,
    ensures
        state.refunded(fresh_address, investor, invoice_id).refund_verdict(
            timestamp,
            fresh_address,
            other,
            invoice_id,
        ) == state.refund_verdict(timestamp, fresh_address, other, invoice_id),
{
}

/// What is paid back is what was paid in less the fees: an investor that has contributed and then
/// gets a refund receives the net amounts of its contributions, no more and no less.
pub proof fn refund_returns_net_contribution(
    state: MarketplaceState,
    fresh_address: Address,
    investor: Address,
    invoice_id: u64,
    amount: i128,
    fee: i128,
)
    requires
        state.loaded(fresh_address) is Ok,
        state.booking_verdict(
            state.loaded(fresh_address)->Ok_0,
            investor,
            invoice_id,
            amount,
            fee,
        ) is Ok,
    ensures
        ({
            let after = state.funded(fresh_address, investor, invoice_id, amount, fee);
            let config = state.loaded(fresh_address)->Ok_0;
            &&& after.contribution(invoice_id, investor) == state.contribution(
                invoice_id,
                investor,
            ) + (amount - fee)
            &&& after.refund_effects(fresh_address, investor, invoice_id)[0] == Effect::Transfer {
                token: state.listings[invoice_id].token,
                from: config.financing_pool,
                to: investor,
                amount: after.contribution(invoice_id, investor),
            }
        }),
{
}

/// A listing that has reached its price pays nothing back, at any time and to no one.
pub proof fn sold_listing_refunds_nothing(
    state: MarketplaceState,
    timestamp: u64,
    fresh_address: Address,
    investor: Address,
    invoice_id: u64,
)
    requires
        state.listings.contains_key(invoice_id),
        state.listings[invoice_id].funded_amount >= state.listings[invoice_id].asking_price,
    ensures
        state.refund_verdict(timestamp, fresh_address, investor, invoice_id) == Err::<
            (),
            KoraError,
        >(KoraError::ListingFullyFunded),
{
}

/// Once refunds of a listing are open, no contribution to it is accepted any more: what is paid
/// back cannot be needed for its price.
pub proof fn refunds_and_contributions_exclude_each_other(
    state: MarketplaceState,
    timestamp: u64,
    later: u64,
    fresh_address: Address,
    claimant: Address,
    investor: Address,
    invoice_id: u64,
    amount: i128,
    replies: FundReplies,
)
    requires
        state.wf(),
        state.refund_verdict(timestamp, fresh_address, claimant, invoice_id) is Ok,
        timestamp <= later,
    ensures
        state.fund_outcome(later, fresh_address, investor, invoice_id, amount, replies) != Ok::<
            FundStep,
            KoraError,
        >(FundStep::Done),
{
}

/// A proposed upgrade waits for its timelock: before it has run out the execution is refused, from
/// then on the admin can execute it, and only once.
pub proof fn upgrade_waits_for_timelock(
    state: MarketplaceState,
    fresh_address: Address,
    admin: Address,
    wasm_hash: [u8; 32],
    proposed_at: u64,
    timelock: u64,
    timestamp: u64,
)
    requires
        state.admin_verdict(fresh_address, admin) is Ok,
    ensures
        ({
            let proposed = state.upgrade_proposed(proposed_at, fresh_address, wasm_hash);
            &&& proposed.execute_upgrade_verdict(timestamp, timelock, fresh_address, admin)
                == KoraError::UpgradeTimelockNotElapsed.unless(timestamp >= proposed_at + timelock)
            &&& proposed.upgrade_executed(fresh_address).execute_upgrade_verdict(
                timestamp,
                timelock,
                fresh_address,
                admin,
            ) == Err::<(), KoraError>(KoraError::NoUpgradeProposed)
        }),
{
}

/// What effects take from an address adds up.
proof fn lemma_outflow_concat(first: Seq<Effect>, second: Seq<Effect>, from: Address)
    ensures
        outflow(first + second, from) == outflow(first, from) + outflow(second, from),
    decreases second.len(),
{
    if second.len() == 0 {
        assert(first + second =~= first);
    } else {
        assert((first + second).drop_last() =~= first + second.drop_last());
        lemma_outflow_concat(first, second.drop_last(), from);
    }
}

/// What one or two effects take from an address.
proof fn lemma_outflow_of_few(first: Effect, second: Effect, from: Address)
    ensures
        outflow(seq![first], from) == (match first {
            Effect::Transfer { from: payer, amount, .. } => if payer == from {
                amount as int
            } else {
                0
            },
            _ => 0,
        }),
        outflow(seq![first, second], from) == outflow(seq![first], from) + outflow(
            seq![second],
            from,
        ),
{
    reveal_with_fuel(outflow, 2);
    assert(seq![first].drop_last() =~= Seq::empty());
    assert(seq![second].drop_last() =~= Seq::empty());
    assert(seq![first, second].drop_last() =~= seq![first]);
}

/// Tells when the effects of a contribution have the seller paid out.
proof fn lemma_release(
    state: MarketplaceState,
    fresh_address: Address,
    contract: Address,
    investor: Address,
    invoice_id: u64,
    amount: i128,
    fee: i128,
)
    ensures
        ({
            let listing = state.listings[invoice_id];
            let release = Effect::ReleaseFunds {
                financing_pool: state.loaded(fresh_address)->Ok_0.financing_pool,
                caller: contract,
                invoice_id,
                token: listing.token,
            };
            state.fund_effects(
                fresh_address,
                contract,
                investor,
                invoice_id,
                amount,
                fee,
            ).contains(release) <==> listing.funded_amount + amount >= listing.asking_price
        }),
{
    let listing = state.listings[invoice_id];
    let effects = state.fund_effects(
        fresh_address,
        contract,
        investor,
        invoice_id,
        amount,
        fee,
    );
    if listing.funded_amount + amount >= listing.asking_price {
        assert(effects.last() is ReleaseFunds);
    }
}

} // verus!
