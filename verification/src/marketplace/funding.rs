//! What the funding of an invoice and its refund promise by themselves: when they are accepted, and
//! for what reason refused; what they change; and where every token goes.
use vstd::prelude::*;

use crate::env::Context;
use crate::errors::KoraError;
use crate::marketplace::history::Call;
use crate::marketplace::model::{
    DataKey, Effect, Event, FundReplies, FundStep, MarketplaceConfig, MarketplaceState,
};
use crate::types::{Address, Listing};

verus! {

/// The sum of the transfers, among some effects, whose payer and payee a rule picks out.
pub open spec fn flow(effects: Seq<Effect>, picks: spec_fn(Address, Address) -> bool) -> int
    decreases effects.len(),
{
    if effects.len() == 0 {
        0
    } else {
        flow(effects.drop_last(), picks) + (match effects.last() {
            Effect::Transfer { from, to, amount, .. } => if picks(from, to) {
                amount as int
            } else {
                0
            },
            _ => 0,
        })
    }
}

/// How many transfers there are among some effects.
pub open spec fn transfers(effects: Seq<Effect>) -> nat
    decreases effects.len(),
{
    if effects.len() == 0 {
        0
    } else {
        transfers(effects.drop_last()) + (if effects.last() is Transfer {
            1nat
        } else {
            0nat
        })
    }
}

/// Picks out the transfers that one address pays.
pub open spec fn paid_by(payer: Address) -> spec_fn(Address, Address) -> bool {
    |from: Address, to: Address| from == payer
}

/// Picks out the transfers that one address receives.
pub open spec fn paid_to(payee: Address) -> spec_fn(Address, Address) -> bool {
    |from: Address, to: Address| to == payee
}

/// Picks out all transfers.
pub open spec fn paid_at_all() -> spec_fn(Address, Address) -> bool {
    |from: Address, to: Address| true
}

/// Transfers add up.
proof fn lemma_flow_concat(
    first: Seq<Effect>,
    second: Seq<Effect>,
    picks: spec_fn(Address, Address) -> bool,
)
    ensures
        flow(first + second, picks) == flow(first, picks) + flow(second, picks),
        transfers(first + second) == transfers(first) + transfers(second),
    decreases second.len(),
{
    if second.len() == 0 {
        assert(first + second =~= first);
    } else {
        assert((first + second).drop_last() =~= first + second.drop_last());
        lemma_flow_concat(first, second.drop_last(), picks);
    }
}

/// Effects without a transfer move nothing.
proof fn lemma_no_flow(effects: Seq<Effect>, picks: spec_fn(Address, Address) -> bool)
    requires
        forall|i: int| 0 <= i < effects.len() ==> !(#[trigger] effects[i] is Transfer),
    ensures
        flow(effects, picks) == 0,
        transfers(effects) == 0,
    decreases effects.len(),
{
    if effects.len() > 0 {
        lemma_no_flow(effects.drop_last(), picks);
    }
}

/// One transfer, with another effect behind it or not, moves its amount.
proof fn lemma_flow_of_one(
    transfer: Effect,
    behind: Effect,
    picks: spec_fn(Address, Address) -> bool,
)
    requires
        !(behind is Transfer),
    ensures
        transfer matches Effect::Transfer { from, to, amount, .. } ==> {
            let one = Seq::<Effect>::empty().push(transfer);
            let moved = if picks(from, to) {
                amount as int
            } else {
                0
            };
            &&& flow(one, picks) == moved
            &&& transfers(one) == 1
            &&& flow(one.push(behind), picks) == moved
            &&& transfers(one.push(behind)) == 1
        },
{
    let none = Seq::<Effect>::empty();
    let one = none.push(transfer);
    lemma_no_flow(none, picks);
    assert(one.drop_last() =~= none);
    assert(one.last() == transfer);
    assert(one.push(behind).drop_last() =~= one);
    assert(one.push(behind).last() == behind);
}

/// Whether an amount can be represented.
pub open spec fn fits(amount: int) -> bool {
    i128::MIN <= amount <= i128::MAX
}

/// What an investor has in a listing: what stands under the two, or nothing.
pub open spec fn held(state: MarketplaceState, invoice_id: u64, investor: Address) -> int {
    if state.contributions.contains_key((invoice_id, investor)) {
        state.contributions[(invoice_id, investor)] as int
    } else {
        0
    }
}

/// What goes to the referrer of a listing out of a fee: the set share, where there is a fee and a
/// referrer.
pub open spec fn referral(
    state: MarketplaceState,
    config: MarketplaceConfig,
    invoice_id: u64,
    fee: int,
    share: int,
) -> bool {
    if fee > 0 && state.referrers.contains_key(invoice_id) {
        crate::marketplace::calls::is_share(share, fee, config.referrer_split_bps as int)
    } else {
        share == 0
    }
}

/// Whether an amount can be contributed to a listing at a time, the answers of others aside: the
/// listing is on offer, its deadline has not passed, and no more is paid than is left of its price.
pub open spec fn open_for(
    state: MarketplaceState,
    timestamp: u64,
    invoice_id: u64,
    amount: i128,
) -> bool {
    let listing = state.listings[invoice_id];
    &&& state.listings.contains_key(invoice_id)
    &&& listing.is_active
    &&& timestamp <= listing.funding_deadline
    &&& fits(listing.asking_price - listing.funded_amount)
    &&& 0 < amount <= listing.asking_price - listing.funded_amount
}

/// There is just one referrer's share of a fee.
proof fn lemma_referral_is_share(
    state: MarketplaceState,
    config: MarketplaceConfig,
    invoice_id: u64,
    fee: i128,
)
    ensures
        referral(
            state,
            config,
            invoice_id,
            fee as int,
            state.referral_share(config, invoice_id, fee),
        ),
        fee > 0 && config.referrer_split_bps <= 10_000 ==> 0 <= state.referral_share(
            config,
            invoice_id,
            fee,
        ) <= fee,
{
    crate::validation::share_is_rounded_down(fee as int, config.referrer_split_bps as int);
    if fee > 0 && config.referrer_split_bps <= 10_000 {
        crate::validation::lemma_share_within_amount(fee as int, config.referrer_split_bps as int);
    }
}

/// A contribution that is open is accepted exactly when the protocol runs, the amount is within the
/// protocol's bound, the marketplace is set up, the invoice is not frozen, all answers are there,
/// and the sums can be represented. None other is.
pub proof fn funding_is_accepted_exactly_when(
    state: MarketplaceState,
    timestamp: u64,
    fresh_address: Address,
    investor: Address,
    invoice_id: u64,
    amount: i128,
    replies: FundReplies,
    config: MarketplaceConfig,
    share: int,
)
    requires
        crate::marketplace::calls::works_under(state, fresh_address, config),
        replies.fee matches Some(Ok(fee)) ==> referral(
            state,
            config,
            invoice_id,
            fee as int,
            share,
        ),
    ensures
        state.fund_outcome(timestamp, fresh_address, investor, invoice_id, amount, replies) == Ok::<
            FundStep,
            KoraError,
        >(FundStep::Done) <==> {
            &&& crate::marketplace::calls::runs(state, replies.paused)
            &&& replies.amount_bound matches Some(Ok(_))
            &&& open_for(state, timestamp, invoice_id, amount)
            &&& replies.frozen == Some(false)
            &&& replies.decimals is Some
            &&& replies.risk_tier is Some
            &&& replies.fee matches Some(Ok(fee))
            &&& fits(amount - fee)
            &&& fits(share)
            &&& fits(state.listings[invoice_id].funded_amount + amount)
            &&& fits(held(state, invoice_id, investor) + (amount - fee))
        },
{
    if let Some(Ok(fee)) = replies.fee {
        lemma_referral_is_share(state, config, invoice_id, fee);
        let split = config.referrer_split_bps;
        if fee > 0 && state.referrers.contains_key(invoice_id) {
            let exact = state.referral_share(config, invoice_id, fee);
            assert(share == exact) by (nonlinear_arith)
                requires
                    share * 10_000 <= fee * split < (share + 1) * 10_000,
                    exact * 10_000 <= fee * split < (exact + 1) * 10_000,
            ;
            assert(0 <= fee * split) by (nonlinear_arith)
                requires
                    fee > 0,
                    split >= 0,
            ;
            assert(share >= 0);
        }
    }
}

/// In sound storage, with a fee between nothing and the amount, no contribution is refused because
/// of a sum: it is accepted exactly when it is open and nobody objects.
pub proof fn sound_contribution_is_accepted(
    state: MarketplaceState,
    timestamp: u64,
    fresh_address: Address,
    investor: Address,
    invoice_id: u64,
    amount: i128,
    fee: i128,
    replies: FundReplies,
)
    requires
        state.wf(),
        crate::marketplace::calls::set_up(state),
        replies.fee == Some(Ok::<i128, KoraError>(fee)),
        0 <= fee <= amount,
    ensures
        state.fund_outcome(timestamp, fresh_address, investor, invoice_id, amount, replies) == Ok::<
            FundStep,
            KoraError,
        >(FundStep::Done) <==> {
            &&& crate::marketplace::calls::runs(state, replies.paused)
            &&& replies.amount_bound matches Some(Ok(_))
            &&& open_for(state, timestamp, invoice_id, amount)
            &&& replies.frozen == Some(false)
            &&& replies.decimals is Some
            &&& replies.risk_tier is Some
        },
{
    let config = state.loaded(fresh_address)->Ok_0;
    lemma_referral_is_share(state, config, invoice_id, fee);
    let share = state.referral_share(config, invoice_id, fee);
    funding_is_accepted_exactly_when(
        state,
        timestamp,
        fresh_address,
        investor,
        invoice_id,
        amount,
        replies,
        config,
        share,
    );
    if state.listings.contains_key(invoice_id) {
        assert(state.listing_wf(invoice_id));
        if state.contributions.contains_key((invoice_id, investor)) {
            assert(state.contributions[(invoice_id, investor)]
                <= state.listings[invoice_id].funded_amount);
        }
    }
}

/// Where a contribution is not accepted, the refusal says why, the first obstacle first; where an
/// answer is missing, it is asked for.
pub proof fn contribution_is_judged_in_order(
    state: MarketplaceState,
    timestamp: u64,
    fresh_address: Address,
    investor: Address,
    invoice_id: u64,
    amount: i128,
    replies: FundReplies,
)
    ensures
        ({
            let outcome = state.fund_outcome(
                timestamp,
                fresh_address,
                investor,
                invoice_id,
                amount,
                replies,
            );
            let listing = state.listings[invoice_id];
            let left = listing.asking_price - listing.funded_amount;
            let running = crate::marketplace::calls::runs(state, replies.paused);
            let bounded = running && amount > 0 && replies.amount_bound matches Some(Ok(_));
            let found = bounded && state.listings.contains_key(invoice_id);
            let offered = found && listing.is_active;
            let timely = offered && timestamp <= listing.funding_deadline;
            &&& state.legacy.access_control matches Some(access_control) ==> {
                &&& replies.paused is None ==> outcome == Ok::<FundStep, KoraError>(
                    FundStep::AskPaused { access_control },
                )
                &&& replies.paused == Some(true) ==> outcome == Err::<FundStep, KoraError>(
                    KoraError::ProtocolPaused,
                )
            }
            &&& running && amount <= 0 ==> outcome == Err::<FundStep, KoraError>(
                KoraError::InvalidAmount,
            )
            &&& running && amount > 0 && replies.amount_bound is None ==> outcome == Ok::<
                FundStep,
                KoraError,
            >(FundStep::AskAmountBound { amount })
            &&& running && amount > 0 ==> (replies.amount_bound matches Some(Err(error)) ==> outcome
                == Err::<FundStep, KoraError>(error))
            &&& bounded && !state.listings.contains_key(invoice_id) ==> outcome == Err::<
                FundStep,
                KoraError,
            >(KoraError::ListingNotFound)
            &&& found && !listing.is_active ==> outcome == Err::<FundStep, KoraError>(
                KoraError::ListingAlreadyCancelled,
            )
            &&& offered && timestamp > listing.funding_deadline ==> outcome == Err::<
                FundStep,
                KoraError,
            >(KoraError::FundingDeadlinePassed)
            &&& timely && !fits(left) ==> outcome == Err::<FundStep, KoraError>(
                KoraError::ArithmeticUnderflow,
            )
            &&& timely && fits(left) && amount > left ==> outcome == Err::<FundStep, KoraError>(
                KoraError::ExceedsFundingTarget,
            )
        }),
{
}

/// A contribution that is open waits for what the invoice contract, the token and the protocol say,
/// in that order: the fee is asked for on just the amount, at the rate of the invoice's risk class
/// or else the general one, with the decimals of the listing's token.
pub proof fn open_contribution_asks_in_order(
    state: MarketplaceState,
    timestamp: u64,
    fresh_address: Address,
    investor: Address,
    invoice_id: u64,
    amount: i128,
    replies: FundReplies,
    config: MarketplaceConfig,
)
    requires
        crate::marketplace::calls::runs(state, replies.paused),
        replies.amount_bound matches Some(Ok(_)),
        open_for(state, timestamp, invoice_id, amount),
    ensures
        ({
            let outcome = state.fund_outcome(
                timestamp,
                fresh_address,
                investor,
                invoice_id,
                amount,
                replies,
            );
            let configured = crate::marketplace::calls::works_under(state, fresh_address, config);
            let thawed = configured && replies.frozen == Some(false);
            let class = crate::marketplace::calls::number_of(replies.risk_tier->0);
            &&& !crate::marketplace::calls::set_up(state) ==> outcome == Err::<FundStep, KoraError>(
                KoraError::NotInitialized,
            )
            &&& configured && replies.frozen is None ==> outcome == Ok::<FundStep, KoraError>(
                FundStep::AskFrozen { invoice_nft: config.invoice_nft, invoice_id },
            )
            &&& configured && replies.frozen == Some(true) ==> outcome == Err::<
                FundStep,
                KoraError,
            >(KoraError::InvoiceFrozen)
            &&& thawed && replies.decimals is None ==> outcome == Ok::<FundStep, KoraError>(
                FundStep::AskDecimals { token: state.listings[invoice_id].token },
            )
            &&& thawed && replies.decimals is Some && replies.risk_tier is None ==> outcome == Ok::<
                FundStep,
                KoraError,
            >(FundStep::AskRiskTier { invoice_nft: config.invoice_nft, invoice_id })
            &&& thawed && replies.decimals is Some && replies.risk_tier is Some && replies.fee
                is None ==> outcome == Ok::<FundStep, KoraError>(
                FundStep::AskFee {
                    amount,
                    fee_bps: if state.tier_fee_bps.contains_key(class) {
                        state.tier_fee_bps[class]
                    } else {
                        config.fee_bps
                    },
                    decimals: replies.decimals->0,
                },
            )
            &&& thawed && replies.decimals is Some && replies.risk_tier is Some ==> (
            replies.fee matches Some(Err(error)) ==> outcome == Err::<FundStep, KoraError>(error))
            &&& thawed && replies.decimals is Some && replies.risk_tier is Some ==> (
            replies.fee matches Some(Ok(_)) ==> outcome == Ok::<FundStep, KoraError>(FundStep::Done)
                || outcome == Err::<FundStep, KoraError>(KoraError::ArithmeticOverflow))
        }),
{
}

/// A contribution that is made counts in full towards the price of its listing, which leaves the
/// offer when the price is reached and not before, and less its fee towards what the investor has
/// in it. No other entry changes; one that is not made changes nothing.
pub proof fn contribution_takes_effect(
    state: MarketplaceState,
    context: Context,
    investor: Address,
    invoice_id: u64,
    amount: i128,
    fund_replies: FundReplies,
)
    ensures
        ({
            let call = Call::FundInvoice { investor, invoice_id, amount, fund_replies };
            let outcome = state.fund_outcome(
                context.timestamp,
                context.fresh_address,
                investor,
                invoice_id,
                amount,
                fund_replies,
            );
            let fee = fund_replies.fee->0->Ok_0;
            let after = state.after(context, call);
            let before = state.listings[invoice_id];
            let listing = after.listings[invoice_id];
            let key = (invoice_id, investor);
            &&& outcome != Ok::<FundStep, KoraError>(FundStep::Done) ==> after == state
                && state.effects_of(context, call) == Seq::<Effect>::empty()
            &&& outcome == Ok::<FundStep, KoraError>(FundStep::Done) ==> {
                &&& after == MarketplaceState {
                    config: after.config,
                    listings: after.listings,
                    contributions: after.contributions,
                    ..state
                }
                &&& after.config is Some
                &&& crate::marketplace::calls::works_under(
                    state,
                    context.fresh_address,
                    after.config->0,
                )
                &&& after.listings.remove(invoice_id) == state.listings.remove(invoice_id)
                &&& after.listings.contains_key(invoice_id)
                &&& listing.funded_amount == before.funded_amount + amount
                &&& listing.is_active <==> before.funded_amount + amount < before.asking_price
                &&& listing == Listing {
                    funded_amount: listing.funded_amount,
                    is_active: listing.is_active,
                    ..before
                }
                &&& after.contributions.remove(key) == state.contributions.remove(key)
                &&& after.contributions.contains_key(key)
                &&& after.contributions[key] == held(state, invoice_id, investor) + (amount - fee)
            }
        }),
{
    let after = state.after(
        context,
        Call::FundInvoice { investor, invoice_id, amount, fund_replies },
    );
    assert(after.listings.remove(invoice_id) =~= state.listings.remove(invoice_id));
    assert(after.contributions.remove((invoice_id, investor)) =~= state.contributions.remove(
        (invoice_id, investor),
    ));
}

/// What a contribution asks of the host: the referrer's share of the fee, the treasury's part with
/// its record, and the rest for the pool, each where there is something to pay; the listing's entry
/// kept alive; the announcements; and, where the price is reached, the seller's payout by the pool.
/// Nothing else, and in this order.
pub proof fn contribution_asks_for(
    state: MarketplaceState,
    context: Context,
    investor: Address,
    invoice_id: u64,
    amount: i128,
    fund_replies: FundReplies,
    config: MarketplaceConfig,
    share: i128,
)
    requires
        crate::marketplace::calls::works_under(state, context.fresh_address, config),
        state.fund_outcome(
            context.timestamp,
            context.fresh_address,
            investor,
            invoice_id,
            amount,
            fund_replies,
        ) == Ok::<FundStep, KoraError>(FundStep::Done),
        referral(state, config, invoice_id, fund_replies.fee->0->Ok_0 as int, share as int),
    ensures
        ({
            let fee = fund_replies.fee->0->Ok_0;
            let listing = state.listings[invoice_id];
            let token = listing.token;
            let to_referrer = Effect::Transfer {
                token,
                from: investor,
                to: state.referrers[invoice_id],
                amount: share,
            };
            let to_treasury = Effect::Transfer {
                token,
                from: investor,
                to: config.treasury,
                amount: (fee - share) as i128,
            };
            let recorded = Effect::CollectFee {
                treasury: config.treasury,
                token,
                amount: (fee - share) as i128,
            };
            let to_pool = Effect::Transfer {
                token,
                from: investor,
                to: config.financing_pool,
                amount: (amount - fee) as i128,
            };
            let payout = Effect::ReleaseFunds {
                financing_pool: config.financing_pool,
                caller: context.contract,
                invoice_id,
                token,
            };
            let none = Seq::<Effect>::empty();
            state.effects_of(
                context,
                (Call::FundInvoice { investor, invoice_id, amount, fund_replies }),
            ) == (if share > 0 {
                none.push(to_referrer)
            } else {
                none
            }) + (if fee > share {
                none.push(to_treasury).push(recorded)
            } else {
                none
            }) + (if amount > fee {
                none.push(to_pool)
            } else {
                none
            }) + none.push(kept_alive_listing(invoice_id)).push(
                Effect::Publish(Event::InvoiceFunded { invoice_id, investor, amount }),
            ) + (if fee > 0 {
                none.push(
                    Effect::Publish(Event::FeeCollected { investor, invoice_id, fee, token }),
                )
            } else {
                none
            }) + (if listing.funded_amount + amount >= listing.asking_price {
                none.push(payout)
            } else {
                none
            })
        }),
{
    let fee = fund_replies.fee->0->Ok_0;
    let split = config.referrer_split_bps;
    lemma_referral_is_share(state, config, invoice_id, fee);
    if fee > 0 && state.referrers.contains_key(invoice_id) {
        let exact = state.referral_share(config, invoice_id, fee);
        assert(share == exact) by (nonlinear_arith)
            requires
                share * 10_000 <= fee * split < (share + 1) * 10_000,
                exact * 10_000 <= fee * split < (exact + 1) * 10_000,
        ;
    }
}

/// The extension of the life of a listing's entry.
pub open spec fn kept_alive_listing(invoice_id: u64) -> Effect {
    crate::marketplace::calls::kept_alive(DataKey::Listing(invoice_id))
}

/// An accepted contribution is charged once, whether it reaches the price or not. Over everything
/// that the call asks of the host, the investor pays exactly the amount: all but the fee to the
/// financing pool, and the fee to the treasury and the referrer. Nobody else pays, in no other
/// token, to nobody else.
pub proof fn contribution_is_charged_once(
    state: MarketplaceState,
    context: Context,
    investor: Address,
    invoice_id: u64,
    amount: i128,
    fund_replies: FundReplies,
    config: MarketplaceConfig,
)
    requires
        crate::marketplace::calls::works_under(state, context.fresh_address, config),
        config.referrer_split_bps <= 10_000,
        state.fund_outcome(
            context.timestamp,
            context.fresh_address,
            investor,
            invoice_id,
            amount,
            fund_replies,
        ) == Ok::<FundStep, KoraError>(FundStep::Done),
        0 <= fund_replies.fee->0->Ok_0 <= amount,
    ensures
        ({
            let fee = fund_replies.fee->0->Ok_0;
            let listing = state.listings[invoice_id];
            let pool = config.financing_pool;
            let referred = state.referrers.contains_key(invoice_id);
            let effects = state.effects_of(
                context,
                (Call::FundInvoice { investor, invoice_id, amount, fund_replies }),
            );
            &&& flow(effects, paid_at_all()) == amount
            &&& flow(effects, paid_by(investor)) == amount
            &&& transfers(effects) <= 3
            &&& pool != config.treasury && (referred ==> pool != state.referrers[invoice_id])
                ==> flow(effects, paid_to(pool)) == amount - fee
            &&& !referred ==> transfers(effects) <= 2
            &&& !referred && pool != config.treasury ==> flow(effects, paid_to(config.treasury))
                == fee
            &&& forall|i: int|
                0 <= i < effects.len() ==> (#[trigger] effects[i] matches Effect::Transfer {
                    token,
                    from,
                    to,
                    amount: paid,
                } ==> {
                    &&& token == listing.token
                    &&& from == investor
                    &&& paid > 0
                    &&& to == pool || to == config.treasury || (referred && to
                        == state.referrers[invoice_id])
                })
        }),
{
    let fee = fund_replies.fee->0->Ok_0;
    let listing = state.listings[invoice_id];
    let token = listing.token;
    lemma_referral_is_share(state, config, invoice_id, fee);
    let share = state.referral_share(config, invoice_id, fee) as i128;
    contribution_asks_for(
        state,
        context,
        investor,
        invoice_id,
        amount,
        fund_replies,
        config,
        share,
    );
    let none = Seq::<Effect>::empty();
    let to_referrer = Effect::Transfer {
        token,
        from: investor,
        to: state.referrers[invoice_id],
        amount: share,
    };
    let to_treasury = Effect::Transfer {
        token,
        from: investor,
        to: config.treasury,
        amount: (fee - share) as i128,
    };
    let recorded = Effect::CollectFee {
        treasury: config.treasury,
        token,
        amount: (fee - share) as i128,
    };
    let to_pool = Effect::Transfer {
        token,
        from: investor,
        to: config.financing_pool,
        amount: (amount - fee) as i128,
    };
    let first = if share > 0 {
        none.push(to_referrer)
    } else {
        none
    };
    let second = if fee > share {
        none.push(to_treasury).push(recorded)
    } else {
        none
    };
    let third = if amount > fee {
        none.push(to_pool)
    } else {
        none
    };
    let effects = state.effects_of(
        context,
        Call::FundInvoice { investor, invoice_id, amount, fund_replies },
    );
    let rest = effects.skip((first + second + third).len() as int);
    assert(effects =~= first + second + third + rest);
    assert forall|i: int| 0 <= i < rest.len() implies !(#[trigger] rest[i] is Transfer) by {
        assert(rest[i] == effects[i + (first + second + third).len()]);
    }
    assert forall|picks: spec_fn(Address, Address) -> bool| #[trigger]
        flow(effects, picks) == flow(first, picks) + flow(second, picks) + flow(third, picks) by {
        lemma_flow_concat(first, second, picks);
        lemma_flow_concat(first + second, third, picks);
        lemma_flow_concat(first + second + third, rest, picks);
        lemma_no_flow(rest, picks);
    }
    let all = paid_at_all();
    lemma_flow_concat(first, second, all);
    lemma_flow_concat(first + second, third, all);
    lemma_flow_concat(first + second + third, rest, all);
    lemma_no_flow(rest, all);
    assert forall|picks: spec_fn(Address, Address) -> bool| #[trigger]
        flow(effects, picks) == (if share > 0 && picks(investor, state.referrers[invoice_id]) {
            share as int
        } else {
            0
        }) + (if fee > share && picks(investor, config.treasury) {
            fee - share
        } else {
            0
        }) + (if amount > fee && picks(investor, config.financing_pool) {
            amount - fee
        } else {
            0
        }) by {
        lemma_flow_of_one(to_referrer, recorded, picks);
        lemma_flow_of_one(to_treasury, recorded, picks);
        lemma_flow_of_one(to_pool, recorded, picks);
        assert(flow(effects, picks) == flow(first, picks) + flow(second, picks) + flow(
            third,
            picks,
        ));
    }
    lemma_flow_of_one(to_referrer, recorded, all);
    lemma_flow_of_one(to_treasury, recorded, all);
    lemma_flow_of_one(to_pool, recorded, all);
}

/// Whether an investor has had its contribution to a listing back.
pub open spec fn repaid(state: MarketplaceState, invoice_id: u64, investor: Address) -> bool {
    state.refunds_claimed.contains_key((invoice_id, investor)) && state.refunds_claimed[(
        invoice_id,
        investor,
    )]
}

/// Whether refunds of a listing are open: it has not reached its price, and its deadline has passed
/// or the admin has confirmed its cancellation. What it was funded with does not matter otherwise.
pub open spec fn refunds_open(state: MarketplaceState, timestamp: u64, invoice_id: u64) -> bool {
    let listing = state.listings[invoice_id];
    &&& state.listings.contains_key(invoice_id)
    &&& listing.funded_amount < listing.asking_price
    &&& timestamp > listing.funding_deadline || (state.cancellations_confirmed.contains_key(
        invoice_id,
    ) && state.cancellations_confirmed[invoice_id])
}

/// Once the deadline of a listing has passed short of its price, every investor that has something
/// in it, and has not had it back, can have it back: whatever the listing was funded with, on offer
/// or not, and whether or not a cancellation was confirmed.
pub proof fn refunds_open_at_the_deadline(
    state: MarketplaceState,
    timestamp: u64,
    fresh_address: Address,
    investor: Address,
    invoice_id: u64,
)
    requires
        crate::marketplace::calls::set_up(state),
        state.listings.contains_key(invoice_id),
        state.listings[invoice_id].funded_amount < state.listings[invoice_id].asking_price,
        timestamp > state.listings[invoice_id].funding_deadline,
        held(state, invoice_id, investor) > 0,
        !repaid(state, invoice_id, investor),
    ensures
        state.refund_verdict(timestamp, fresh_address, investor, invoice_id) is Ok,
{
}

/// A refund is granted exactly when refunds of the listing are open and the investor has something
/// in it that it has not had back; a refusal says why.
pub proof fn refund_is_granted_exactly_when(
    state: MarketplaceState,
    timestamp: u64,
    fresh_address: Address,
    investor: Address,
    invoice_id: u64,
)
    ensures
        ({
            let verdict = state.refund_verdict(timestamp, fresh_address, investor, invoice_id);
            let listing = state.listings[invoice_id];
            let found = state.listings.contains_key(invoice_id);
            let short = found && listing.funded_amount < listing.asking_price;
            let open = refunds_open(state, timestamp, invoice_id);
            let due = open && !repaid(state, invoice_id, investor);
            let some = held(state, invoice_id, investor) > 0;
            &&& verdict is Ok <==> due && some && crate::marketplace::calls::set_up(state)
            &&& verdict == Err::<(), KoraError>(KoraError::ListingNotFound) <==> !found
            &&& verdict == Err::<(), KoraError>(KoraError::ListingFullyFunded) <==> found && !short
            &&& verdict == Err::<(), KoraError>(KoraError::FundingNotExpired) <==> short && !open
            &&& verdict == Err::<(), KoraError>(KoraError::RefundAlreadyClaimed) <==> open && !due
            &&& verdict == Err::<(), KoraError>(KoraError::NoContribution) <==> due && !some
            &&& verdict == Err::<(), KoraError>(KoraError::NotInitialized) <==> due && some
                && !crate::marketplace::calls::set_up(state)
        }),
{
}

/// A refund that is granted moves exactly what the investor has in the listing from the pool to
/// the investor, in the listing's token, and announces it. It is marked as had back, and nothing
/// else happens; one that is refused changes nothing and moves nothing.
pub proof fn refund_takes_effect(
    state: MarketplaceState,
    context: Context,
    investor: Address,
    invoice_id: u64,
)
    ensures
        ({
            let call = Call::ClaimRefund { investor, invoice_id };
            let verdict = state.refund_verdict(
                context.timestamp,
                context.fresh_address,
                investor,
                invoice_id,
            );
            let after = state.after(context, call);
            let effects = state.effects_of(context, call);
            let key = (invoice_id, investor);
            let amount = state.contributions[key];
            &&& verdict is Err ==> after == state && effects == Seq::<Effect>::empty()
            &&& verdict is Ok ==> {
                &&& after == MarketplaceState {
                    config: after.config,
                    refunds_claimed: after.refunds_claimed,
                    ..state
                }
                &&& after.config is Some
                &&& crate::marketplace::calls::works_under(
                    state,
                    context.fresh_address,
                    after.config->0,
                )
                &&& after.refunds_claimed == state.refunds_claimed.insert(key, true)
                &&& state.contributions.contains_key(key)
                &&& effects == seq![
                    Effect::Transfer {
                        token: state.listings[invoice_id].token,
                        from: after.config->0.financing_pool,
                        to: investor,
                        amount,
                    },
                    Effect::Publish(Event::RefundClaimed { invoice_id, investor, amount }),
                ]
            }
        }),
{
}

/// A contribution to a listing that stays short of its price comes back: whatever is called after
/// it, once the deadline has passed the investor can have back at least what was left of it after
/// the fee, unless it has had it back already.
pub proof fn contribution_to_unsold_listing_comes_back(
    state: MarketplaceState,
    context: Context,
    investor: Address,
    invoice_id: u64,
    amount: i128,
    fund_replies: FundReplies,
    calls: Seq<(Context, Call)>,
    timestamp: u64,
    fresh_address: Address,
)
    requires
        state.wf(),
        state.fund_outcome(
            context.timestamp,
            context.fresh_address,
            investor,
            invoice_id,
            amount,
            fund_replies,
        ) == Ok::<FundStep, KoraError>(FundStep::Done),
        0 <= fund_replies.fee->0->Ok_0 < amount,
        forall|i: int| 0 <= i < calls.len() ==> #[trigger] calls[i].1.fee_within_amount(),
        timestamp > state.listings[invoice_id].funding_deadline,
    ensures
        ({
            let later = state.after(
                context,
                (Call::FundInvoice { investor, invoice_id, amount, fund_replies }),
            ).after_all(calls);
            let listing = later.listings[invoice_id];
            listing.funded_amount < listing.asking_price && !repaid(later, invoice_id, investor)
                ==> {
                &&& later.refund_verdict(timestamp, fresh_address, investor, invoice_id) is Ok
                &&& later.contributions[(invoice_id, investor)] >= amount
                    - fund_replies.fee->0->Ok_0
            }
        }),
{
    let call = Call::FundInvoice { investor, invoice_id, amount, fund_replies };
    let made = state.after(context, call);
    let later = made.after_all(calls);
    let key = (invoice_id, investor);
    crate::marketplace::history::call_keeps_wf(state, context, call);
    contribution_takes_effect(state, context, investor, invoice_id, amount, fund_replies);
    crate::marketplace::history::history_keeps_entries(made, calls);
    if state.contributions.contains_key(key) {
        assert(state.contributions[key] >= 0);
    }
    assert(made.contributions.contains_key(key));
    assert(made.listings.contains_key(invoice_id));
    assert(crate::marketplace::calls::set_up(later));
    let listing = later.listings[invoice_id];
    if listing.funded_amount < listing.asking_price && !repaid(later, invoice_id, investor) {
        refunds_open_at_the_deadline(later, timestamp, fresh_address, investor, invoice_id);
    }
}

} // verus!
