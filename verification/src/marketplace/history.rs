//! Histories of the marketplace: the calls that change its storage, one after the other, and what
//! they keep.
use vstd::prelude::*;

use crate::env::Context;
use crate::errors::KoraError;
use crate::marketplace::model::{
    Effect, FundReplies, FundStep, ListReplies, ListRequest, ListStep, MarketplaceConfig,
    MarketplaceState,
};
use crate::types::{Address, Listing, RiskTier};

verus! {

/// A call that may change the storage.
pub enum Call {
    Initialize { config: MarketplaceConfig },
    Load,
    SetReferrerSplit { admin: Address, bps: u32 },
    SetFee { admin: Address, bps: u32 },
    SetTierFee { admin: Address, tier: RiskTier, bps: u32 },
    WhitelistToken { admin: Address, token: Address },
    RemoveTokenWhitelist { admin: Address, token: Address },
    ListInvoice { request: ListRequest, list_replies: ListReplies },
    FundInvoice { investor: Address, invoice_id: u64, amount: i128, fund_replies: FundReplies },
    CancelListing { caller: Address, invoice_id: u64 },
    RequestCancellation { caller: Address, invoice_id: u64 },
    ConfirmCancellation { admin: Address, invoice_id: u64 },
    ClaimRefund { investor: Address, invoice_id: u64 },
    ProposeUpgrade { admin: Address, wasm_hash: [u8; 32] },
    ExecuteUpgrade { admin: Address },
}

impl Call {
    /// The party that makes the call and has authorized it, where one must.
    pub open spec fn caller(self) -> Option<Address> {
        match self {
            Call::Initialize { .. } => None,
            Call::Load => None,
            Call::SetReferrerSplit { admin, .. } => Some(admin),
            Call::SetFee { admin, .. } => Some(admin),
            Call::SetTierFee { admin, .. } => Some(admin),
            Call::WhitelistToken { admin, .. } => Some(admin),
            Call::RemoveTokenWhitelist { admin, .. } => Some(admin),
            Call::ListInvoice { request, .. } => Some(request.seller),
            Call::FundInvoice { investor, .. } => Some(investor),
            Call::CancelListing { caller, .. } => Some(caller),
            Call::RequestCancellation { caller, .. } => Some(caller),
            Call::ConfirmCancellation { admin, .. } => Some(admin),
            Call::ClaimRefund { investor, .. } => Some(investor),
            Call::ProposeUpgrade { admin, .. } => Some(admin),
            Call::ExecuteUpgrade { admin } => Some(admin),
        }
    }

    /// Whether what the call is told of fees makes sense: a fee is a part of the amount.
    pub open spec fn fee_within_amount(self) -> bool {
        self matches Call::FundInvoice { amount, fund_replies, .. } ==> (
        fund_replies.fee matches Some(Ok(fee)) ==> 0 <= fee <= amount)
    }
}

impl MarketplaceState {
    /// The storage after a call: as it was where the call is refused or waits for an answer.
    pub open spec fn after(self, context: Context, call: Call) -> Self {
        let fresh = context.fresh_address;
        match call {
            Call::Initialize { config } => if self.initialize_verdict(config.fee_bps) is Ok {
                self.with_config(MarketplaceConfig { referrer_split_bps: 0, ..config })
            } else {
                self
            },
            Call::Load => self.migrated(fresh),
            Call::SetReferrerSplit { admin, bps } => if self.set_rate_verdict(
                fresh,
                admin,
                bps,
            ) is Ok {
                self.referrer_split_set(fresh, bps)
            } else {
                self
            },
            Call::SetFee { admin, bps } => if self.set_rate_verdict(fresh, admin, bps) is Ok {
                self.fee_set(fresh, bps)
            } else {
                self
            },
            Call::SetTierFee { admin, tier, bps } => if self.set_rate_verdict(
                fresh,
                admin,
                bps,
            ) is Ok {
                self.tier_fee_set(fresh, tier, bps)
            } else {
                self
            },
            Call::WhitelistToken { admin, token } => if self.admin_verdict(fresh, admin) is Ok {
                self.token_whitelisted(fresh, token)
            } else {
                self
            },
            Call::RemoveTokenWhitelist { admin, token } => if self.remove_token_whitelist_verdict(
                fresh,
                admin,
                token,
            ) is Ok {
                self.token_removed(fresh, token)
            } else {
                self
            },
            Call::ListInvoice { request, list_replies } => if self.list_outcome(
                context.timestamp,
                fresh,
                context.guard,
                request,
                list_replies,
            ) == Ok::<ListStep, KoraError>(ListStep::Done) {
                self.listed(fresh, request)
            } else {
                self
            },
            Call::FundInvoice {
                investor,
                invoice_id,
                amount,
                fund_replies,
            } => if self.fund_outcome(
                context.timestamp,
                fresh,
                investor,
                invoice_id,
                amount,
                fund_replies,
            ) == Ok::<FundStep, KoraError>(FundStep::Done) {
                self.funded(fresh, investor, invoice_id, amount, fund_replies.fee->0->Ok_0)
            } else {
                self
            },
            Call::CancelListing { caller, invoice_id } => if self.cancel_verdict(
                fresh,
                caller,
                invoice_id,
            ) is Ok {
                self.cancelled(fresh, invoice_id)
            } else {
                self
            },
            Call::RequestCancellation {
                caller,
                invoice_id,
            } => if self.request_cancellation_verdict(fresh, caller, invoice_id) is Ok {
                self.cancellation_requested(fresh, caller, invoice_id)
            } else {
                self
            },
            Call::ConfirmCancellation { admin, invoice_id } => if self.confirm_cancellation_verdict(
                fresh,
                admin,
                invoice_id,
            ) is Ok {
                self.cancellation_confirmed(fresh, invoice_id)
            } else {
                self
            },
            Call::ClaimRefund { investor, invoice_id } => if self.refund_verdict(
                context.timestamp,
                fresh,
                investor,
                invoice_id,
            ) is Ok {
                self.refunded(fresh, investor, invoice_id)
            } else {
                self
            },
            Call::ProposeUpgrade { admin, wasm_hash } => if self.admin_verdict(fresh, admin) is Ok {
                self.upgrade_proposed(context.timestamp, fresh, wasm_hash)
            } else {
                self
            },
            Call::ExecuteUpgrade { admin } => if self.execute_upgrade_verdict(
                context.timestamp,
                context.upgrade_timelock,
                fresh,
                admin,
            ) is Ok {
                self.upgrade_executed(fresh)
            } else {
                self
            },
        }
    }

    /// What a call asks of the host: nothing where it is refused or waits for an answer.
    pub open spec fn effects_of(self, context: Context, call: Call) -> Seq<Effect> {
        let fresh = context.fresh_address;
        match call {
            Call::SetFee { admin, bps } => if self.set_rate_verdict(fresh, admin, bps) is Ok {
                self.set_fee_effects(fresh, admin, bps)
            } else {
                Seq::empty()
            },
            Call::WhitelistToken { admin, token } => if self.admin_verdict(fresh, admin) is Ok {
                self.whitelist_effects(admin, token)
            } else {
                Seq::empty()
            },
            Call::ListInvoice { request, list_replies } => if self.list_outcome(
                context.timestamp,
                fresh,
                context.guard,
                request,
                list_replies,
            ) == Ok::<ListStep, KoraError>(ListStep::Done) {
                self.list_effects(fresh, context.contract, request)
            } else {
                Seq::empty()
            },
            Call::FundInvoice {
                investor,
                invoice_id,
                amount,
                fund_replies,
            } => if self.fund_outcome(
                context.timestamp,
                fresh,
                investor,
                invoice_id,
                amount,
                fund_replies,
            ) == Ok::<FundStep, KoraError>(FundStep::Done) {
                self.fund_effects(
                    fresh,
                    context.contract,
                    investor,
                    invoice_id,
                    amount,
                    fund_replies.fee->0->Ok_0,
                )
            } else {
                Seq::empty()
            },
            Call::CancelListing { caller, invoice_id } => if self.cancel_verdict(
                fresh,
                caller,
                invoice_id,
            ) is Ok {
                self.cancel_effects(invoice_id)
            } else {
                Seq::empty()
            },
            Call::RequestCancellation {
                caller,
                invoice_id,
            } => if self.request_cancellation_verdict(fresh, caller, invoice_id) is Ok {
                self.request_cancellation_effects(caller, invoice_id)
            } else {
                Seq::empty()
            },
            Call::ConfirmCancellation {
                admin,
                invoice_id,
            } => if self.confirm_cancellation_verdict(fresh, admin, invoice_id) is Ok {
                self.confirm_cancellation_effects(invoice_id)
            } else {
                Seq::empty()
            },
            Call::ClaimRefund { investor, invoice_id } => if self.refund_verdict(
                context.timestamp,
                fresh,
                investor,
                invoice_id,
            ) is Ok {
                self.refund_effects(fresh, investor, invoice_id)
            } else {
                Seq::empty()
            },
            Call::ProposeUpgrade { admin, wasm_hash } => if self.admin_verdict(fresh, admin) is Ok {
                self.propose_upgrade_effects(admin, wasm_hash)
            } else {
                Seq::empty()
            },
            Call::ExecuteUpgrade { admin } => if self.execute_upgrade_verdict(
                context.timestamp,
                context.upgrade_timelock,
                fresh,
                admin,
            ) is Ok {
                self.execute_upgrade_effects(admin)
            } else {
                Seq::empty()
            },
            _ => Seq::empty(),
        }
    }

    /// The storage after a history of calls.
    pub open spec fn after_all(self, calls: Seq<(Context, Call)>) -> Self
        decreases calls.len(),
    {
        if calls.len() == 0 {
            self
        } else {
            self.after_all(calls.drop_last()).after(calls.last().0, calls.last().1)
        }
    }
}

/// Whether one listing can become another in time: its terms are the same, no contribution has
/// gone, and it has not come back on offer.
pub open spec fn listing_follows(before: Listing, after: Listing) -> bool {
    &&& after.invoice_id == before.invoice_id
    &&& after.seller == before.seller
    &&& after.asking_price == before.asking_price
    &&& after.face_value == before.face_value
    &&& after.token == before.token
    &&& after.funding_deadline == before.funding_deadline
    &&& after.funded_amount >= before.funded_amount
    &&& !before.is_active ==> !after.is_active
}

/// Whether one storage can become another in time: nothing that was entered is lost or taken
/// back.
pub open spec fn storage_follows(before: MarketplaceState, after: MarketplaceState) -> bool {
    &&& before.config is Some ==> after.config is Some
    &&& after.legacy == before.legacy
    &&& forall|id: u64| #[trigger]
        before.listings.contains_key(id) ==> after.listings.contains_key(id) && listing_follows(
            before.listings[id],
            after.listings[id],
        )
    &&& forall|id: u64| #[trigger]
        before.referrers.contains_key(id) ==> after.referrers.contains_key(id)
            && after.referrers[id] == before.referrers[id]
    &&& forall|key: (u64, Address)| #[trigger]
        before.contributions.contains_key(key) ==> after.contributions.contains_key(key)
            && after.contributions[key] >= before.contributions[key]
    &&& forall|id: u64, investor: Address| #[trigger]
        before.is_refund_claimed(id, investor) ==> after.is_refund_claimed(id, investor)
    &&& forall|id: u64| #[trigger]
        before.is_cancellation_confirmed(id) ==> after.is_cancellation_confirmed(id)
}

/// No call breaks what holds of the storage at every time.
pub proof fn call_keeps_wf(state: MarketplaceState, context: Context, call: Call)
    requires
        state.wf(),
        call.fee_within_amount(),
    ensures
        state.after(context, call).wf(),
{
}

/// No call loses or takes back what was entered: the terms of a listing and its referrer stay,
/// contributions only grow, and neither a cancellation nor a refund is undone.
pub proof fn call_keeps_entries(state: MarketplaceState, context: Context, call: Call)
    requires
        state.wf(),
        call.fee_within_amount(),
    ensures
        storage_follows(state, state.after(context, call)),
{
}

/// What holds of the storage at every time holds after every history, and no history loses or
/// takes back what was entered before it.
pub proof fn history_keeps_entries(state: MarketplaceState, calls: Seq<(Context, Call)>)
    requires
        state.wf(),
        forall|i: int| 0 <= i < calls.len() ==> #[trigger] calls[i].1.fee_within_amount(),
    ensures
        state.after_all(calls).wf(),
        storage_follows(state, state.after_all(calls)),
    decreases calls.len(),
{
    if calls.len() > 0 {
        let earlier = calls.drop_last();
        assert forall|i: int| 0 <= i < earlier.len() implies #[trigger]
            earlier[i].1.fee_within_amount() by {
            assert(calls[i].1.fee_within_amount());
        }
        history_keeps_entries(state, earlier);
        let (context, call) = calls.last();
        assert(calls[calls.len() - 1].1.fee_within_amount());
        call_keeps_wf(state.after_all(earlier), context, call);
        call_keeps_entries(state.after_all(earlier), context, call);
    }
}

/// Every storage that a new marketplace can come to is as storage should be.
pub proof fn reachable_storage_is_wf(calls: Seq<(Context, Call)>)
    requires
        forall|i: int| 0 <= i < calls.len() ==> #[trigger] calls[i].1.fee_within_amount(),
    ensures
        MarketplaceState::empty().after_all(calls).wf(),
{
    history_keeps_entries(MarketplaceState::empty(), calls);
}

/// Only a call that the admin has authorized changes the configuration, the fees of risk classes,
/// the admitted tokens, or the proposed upgrade.
pub proof fn only_admin_changes_terms(state: MarketplaceState, context: Context, call: Call)
    requires
        state.config is Some,
        call.caller() != Some(state.config->0.admin),
    ensures
        state.after(context, call).config == state.config,
        state.after(context, call).tier_fee_bps == state.tier_fee_bps,
        state.after(context, call).whitelist == state.whitelist,
        state.after(context, call).upgrade_proposal == state.upgrade_proposal,
{
}

/// A listing leaves the offer only when it has reached its price, or by a call that its seller or
/// the admin has authorized.
pub proof fn listing_leaves_offer_for_cause(
    state: MarketplaceState,
    context: Context,
    call: Call,
    invoice_id: u64,
)
    requires
        state.config is Some,
        state.listings.contains_key(invoice_id),
        state.listings[invoice_id].is_active,
        !state.after(context, call).listings[invoice_id].is_active,
    ensures
        ({
            let listing = state.after(context, call).listings[invoice_id];
            ||| listing.funded_amount >= listing.asking_price
            ||| call.caller() == Some(listing.seller)
            ||| call.caller() == Some(state.config->0.admin)
        }),
{
}

/// A listing that has reached its price is final: no call changes it, or what investors have in
/// it, any more.
pub proof fn sold_listing_is_final(
    state: MarketplaceState,
    context: Context,
    call: Call,
    invoice_id: u64,
    investor: Address,
)
    requires
        state.wf(),
        state.listings.contains_key(invoice_id),
        state.listings[invoice_id].funded_amount >= state.listings[invoice_id].asking_price,
    ensures
        ({
            let after = state.after(context, call);
            &&& after.listings.contains_key(invoice_id)
            &&& after.listings[invoice_id] == state.listings[invoice_id]
            &&& after.contribution(invoice_id, investor) == state.contribution(
                invoice_id,
                investor,
            )
            &&& after.is_refund_claimed(invoice_id, investor) == state.is_refund_claimed(
                invoice_id,
                investor,
            )
        }),
{
}

/// A refund that an investor could have stays open, and as high, whatever is called in the
/// meantime, until the investor claims it.
pub proof fn open_refund_stays_open(
    state: MarketplaceState,
    context: Context,
    call: Call,
    invoice_id: u64,
    investor: Address,
    timestamp: u64,
    later: u64,
)
    requires
        state.wf(),
        state.refund_verdict(timestamp, context.fresh_address, investor, invoice_id) is Ok,
        timestamp <= context.timestamp <= later,
        call != (Call::ClaimRefund { investor, invoice_id }),
    ensures
        ({
            let after = state.after(context, call);
            &&& after.refund_verdict(later, context.fresh_address, investor, invoice_id) is Ok
            &&& after.contribution(invoice_id, investor) == state.contribution(
                invoice_id,
                investor,
            )
        }),
{
}

/// A call on one listing leaves all others, and what investors have in them, as they are.
pub proof fn listings_are_independent(
    state: MarketplaceState,
    context: Context,
    call: Call,
    other: u64,
)
    requires
        match call {
            Call::ListInvoice { request, .. } => request.invoice_id != other,
            Call::FundInvoice { invoice_id, .. } => invoice_id != other,
            Call::CancelListing { invoice_id, .. } => invoice_id != other,
            Call::RequestCancellation { invoice_id, .. } => invoice_id != other,
            Call::ConfirmCancellation { invoice_id, .. } => invoice_id != other,
            Call::ClaimRefund { invoice_id, .. } => invoice_id != other,
            _ => true,
        },
    ensures
        ({
            let after = state.after(context, call);
            &&& after.listings.contains_key(other) == state.listings.contains_key(other)
            &&& after.listings[other] == state.listings[other]
            &&& after.referrers.contains_key(other) == state.referrers.contains_key(other)
            &&& after.referrers[other] == state.referrers[other]
            &&& after.cancellation_requests.contains_key(other)
                == state.cancellation_requests.contains_key(other)
            &&& after.is_cancellation_confirmed(other) == state.is_cancellation_confirmed(other)
            &&& forall|investor: Address| #[trigger]
                after.contribution(other, investor) == state.contribution(other, investor)
            &&& forall|investor: Address| #[trigger]
                after.is_refund_claimed(other, investor) == state.is_refund_claimed(
                    other,
                    investor,
                )
        }),
{
}

} // verus!
