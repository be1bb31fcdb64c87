//! What the marketplace has paid into the financing pool for each listing, and out of it again.
use vstd::prelude::*;

use crate::env::Context;
use crate::marketplace::history::Call;
use crate::marketplace::model::MarketplaceState;
use crate::types::Address;

verus! {

/// The keys of one listing among others.
pub open spec fn keys_of(keys: Set<(u64, Address)>, invoice_id: u64) -> Set<(u64, Address)> {
    keys.filter(|key: (u64, Address)| key.0 == invoice_id)
}

impl MarketplaceState {
    /// What investors have paid into the pool for a listing, all together.
    pub open spec fn paid_in(self, invoice_id: u64) -> int {
        crate::sums::sum_under(keys_of(self.contributions.dom(), invoice_id), self.contributions)
    }

    /// What investors have had back from the pool for a listing, all together.
    pub open spec fn paid_back(self, invoice_id: u64) -> int {
        crate::sums::sum_under(keys_of(self.refunds_claimed.dom(), invoice_id), self.contributions)
    }

    /// There are finitely many contributions, and what they have brought into the pool for a
    /// listing is no more than the listing was funded with.
    pub open spec fn balanced(self) -> bool {
        &&& self.contributions.dom().finite()
        &&& forall|id: u64| #[trigger]
            self.listings.contains_key(id) ==> self.paid_in(id) <= self.listings[id].funded_amount
    }
}

/// The keys of one listing among finitely many are finitely many.
proof fn lemma_keys_of_finite(keys: Set<(u64, Address)>, invoice_id: u64)
    requires
        keys.finite(),
    ensures
        keys_of(keys, invoice_id).finite(),
{
    vstd::set_lib::lemma_set_subset_finite(keys, keys_of(keys, invoice_id));
}

/// Sets one amount under a key of one listing.
proof fn lemma_amount_set(
    amounts: Map<(u64, Address), i128>,
    key: (u64, Address),
    amount: i128,
    invoice_id: u64,
)
    requires
        amounts.dom().finite(),
    ensures
        ({
            let before = crate::sums::sum_under(keys_of(amounts.dom(), invoice_id), amounts);
            let updated = amounts.insert(key, amount);
            let after = crate::sums::sum_under(keys_of(updated.dom(), invoice_id), updated);
            let previous = if amounts.contains_key(key) {
                amounts[key] as int
            } else {
                0
            };
            after == before + (if key.0 == invoice_id {
                amount - previous
            } else {
                0
            })
        }),
{
    let updated = amounts.insert(key, amount);
    let keys = keys_of(amounts.dom(), invoice_id);
    let updated_keys = keys_of(updated.dom(), invoice_id);
    lemma_keys_of_finite(amounts.dom(), invoice_id);
    if key.0 == invoice_id {
        assert(updated_keys =~= keys.insert(key));
        crate::sums::lemma_sum_of_update(keys, amounts, key, amount);
    } else {
        assert(updated_keys =~= keys);
        crate::sums::lemma_sum_agrees(keys, amounts, updated);
    }
}

/// A contribution brings into the pool what is left of it after the fee, for its listing and for
/// no other.
pub proof fn contribution_is_paid_in(
    state: MarketplaceState,
    fresh_address: Address,
    investor: Address,
    invoice_id: u64,
    amount: i128,
    fee: i128,
    id: u64,
)
    requires
        state.contributions.dom().finite(),
        state.loaded(fresh_address) is Ok,
        state.booking_verdict(
            state.loaded(fresh_address)->Ok_0,
            investor,
            invoice_id,
            amount,
            fee,
        ) is Ok,
    ensures
        state.funded(fresh_address, investor, invoice_id, amount, fee).paid_in(id)
            == state.paid_in(id) + (if id == invoice_id {
            amount - fee
        } else {
            0
        }),
{
    let key = (invoice_id, investor);
    let contributed = (state.contribution(invoice_id, investor) + (amount - fee)) as i128;
    lemma_amount_set(state.contributions, key, contributed, id);
}

/// A refund takes out of the pool what the investor has paid into it, for its listing and for no
/// other.
pub proof fn refund_is_paid_back(
    state: MarketplaceState,
    timestamp: u64,
    fresh_address: Address,
    investor: Address,
    invoice_id: u64,
    id: u64,
)
    requires
        state.wf(),
        state.contributions.dom().finite(),
        state.refund_verdict(timestamp, fresh_address, investor, invoice_id) is Ok,
    ensures
        ({
            let after = state.refunded(fresh_address, investor, invoice_id);
            &&& after.paid_back(id) == state.paid_back(id) + (if id == invoice_id {
                state.contribution(invoice_id, investor) as int
            } else {
                0
            })
            &&& after.paid_in(id) == state.paid_in(id)
        }),
{
    let claimed = state.refunds_claimed.dom();
    let key = (invoice_id, investor);
    assert forall|k: (u64, Address)| #[trigger]
        claimed.contains(k) implies state.contributions.dom().contains(k) by {
        assert(state.refunds_claimed.contains_key(k));
    }
    vstd::set_lib::lemma_set_subset_finite(state.contributions.dom(), claimed);
    lemma_keys_of_finite(claimed, id);
    assert(!state.refunds_claimed.contains_key(key));
    let keys = keys_of(claimed, id);
    let keys_after = keys_of(claimed.insert(key), id);
    if id == invoice_id {
        lemma_keys_of_finite(claimed.insert(key), id);
        assert(keys_after.remove(key) =~= keys);
        crate::sums::lemma_sum_remove(keys_after, state.contributions, key);
    } else {
        assert(keys_after =~= keys);
    }
}

/// What has gone back to investors never exceeds what they have paid in, and that never exceeds
/// what the listing was funded with: refunds of one listing are never paid with the contributions
/// to another.
pub proof fn refunds_are_covered(state: MarketplaceState, invoice_id: u64)
    requires
        state.wf(),
        state.balanced(),
        state.listings.contains_key(invoice_id),
    ensures
        0 <= state.paid_back(invoice_id) <= state.paid_in(invoice_id)
            <= state.listings[invoice_id].funded_amount,
{
    let repaid = keys_of(state.refunds_claimed.dom(), invoice_id);
    let contributed = keys_of(state.contributions.dom(), invoice_id);
    lemma_keys_of_finite(state.contributions.dom(), invoice_id);
    assert forall|key: (u64, Address)| #[trigger] repaid.contains(key) implies contributed.contains(
        key,
    ) by {
        assert(state.refunds_claimed.contains_key(key));
    }
    assert forall|key: (u64, Address)| #[trigger] contributed.contains(
        key,
    ) implies state.contributions[key] >= 0 by {
        assert(state.contributions.contains_key(key));
    }
    crate::sums::lemma_sum_of_fewer(repaid, contributed, state.contributions);
}

/// No call brings the books out of balance.
pub proof fn call_keeps_balance(state: MarketplaceState, context: Context, call: Call)
    requires
        state.wf(),
        state.balanced(),
        call.fee_within_amount(),
    ensures
        state.after(context, call).balanced(),
{
    let after = state.after(context, call);
    match call {
        Call::FundInvoice { investor, invoice_id, amount, fund_replies } => {
            if after != state {
                let fee = fund_replies.fee->0->Ok_0;
                let fresh = context.fresh_address;
                assert forall|id: u64| #[trigger]
                    after.listings.contains_key(id) implies after.paid_in(id)
                    <= after.listings[id].funded_amount by {
                    assert(state.listings.contains_key(id));
                    contribution_is_paid_in(state, fresh, investor, invoice_id, amount, fee, id);
                }
            }
        },
        Call::ListInvoice { request, .. } => {
            if after != state {
                let id = request.invoice_id;
                assert(keys_of(state.contributions.dom(), id) =~= Set::empty()) by {
                    assert forall|key: (u64, Address)| !#[trigger] keys_of(
                        state.contributions.dom(),
                        id,
                    ).contains(key) by {
                        if state.contributions.contains_key(key) {
                            assert(state.listings.contains_key(key.0));
                        }
                    }
                }
                assert forall|other: u64| #[trigger]
                    after.listings.contains_key(other) implies after.paid_in(other)
                    <= after.listings[other].funded_amount by {
                    if other != id {
                        assert(state.listings.contains_key(other));
                    }
                }
            }
        },
        _ => {
            assert(after.contributions == state.contributions);
            assert forall|id: u64| #[trigger] after.listings.contains_key(id) implies after.paid_in(
                id,
            ) <= after.listings[id].funded_amount by {
                assert(state.listings.contains_key(id));
            }
        },
    }
}

/// The books of a new marketplace are in balance after every history.
pub proof fn reachable_storage_is_balanced(calls: Seq<(Context, Call)>)
    requires
        forall|i: int| 0 <= i < calls.len() ==> #[trigger] calls[i].1.fee_within_amount(),
    ensures
        MarketplaceState::empty().after_all(calls).balanced(),
    decreases calls.len(),
{
    if calls.len() > 0 {
        let earlier = calls.drop_last();
        assert forall|i: int| 0 <= i < earlier.len() implies #[trigger]
            earlier[i].1.fee_within_amount() by {
            assert(calls[i].1.fee_within_amount());
        }
        reachable_storage_is_balanced(earlier);
        crate::marketplace::history::reachable_storage_is_wf(earlier);
        assert(calls[calls.len() - 1].1.fee_within_amount());
        call_keeps_balance(
            MarketplaceState::empty().after_all(earlier),
            calls.last().0,
            calls.last().1,
        );
    }
}

} // verus!
