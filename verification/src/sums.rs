//! Sums of amounts over sets of keys.
use vstd::prelude::*;

verus! {

/// The sum of the amounts under some keys.
pub open spec fn sum_under<K>(keys: Set<K>, amounts: Map<K, i128>) -> int
    decreases keys.len(),
{
    if keys.finite() && keys.len() > 0 {
        let key = keys.choose();
        amounts[key] + sum_under(keys.remove(key), amounts)
    } else {
        0
    }
}

/// Any one key can be counted first.
pub proof fn lemma_sum_remove<K>(keys: Set<K>, amounts: Map<K, i128>, key: K)
    requires
        keys.finite(),
        keys.contains(key),
    ensures
        sum_under(keys, amounts) == amounts[key] + sum_under(keys.remove(key), amounts),
    decreases keys.len(),
{
    let first = keys.choose();
    if first != key {
        lemma_sum_remove(keys.remove(first), amounts, key);
        lemma_sum_remove(keys.remove(key), amounts, first);
        assert(keys.remove(first).remove(key) =~= keys.remove(key).remove(first));
    }
}

/// Amounts under other keys do not count.
pub proof fn lemma_sum_agrees<K>(keys: Set<K>, amounts: Map<K, i128>, others: Map<K, i128>)
    requires
        keys.finite(),
        forall|key: K| #[trigger] keys.contains(key) ==> amounts[key] == others[key],
    ensures
        sum_under(keys, amounts) == sum_under(keys, others),
    decreases keys.len(),
{
    if keys.len() > 0 {
        lemma_sum_agrees(keys.remove(keys.choose()), amounts, others);
    }
}

/// The sum of some amounts that are not negative is at most the sum of more of them.
pub proof fn lemma_sum_of_fewer<K>(fewer: Set<K>, more: Set<K>, amounts: Map<K, i128>)
    requires
        more.finite(),
        fewer.subset_of(more),
        forall|key: K| #[trigger] more.contains(key) ==> amounts[key] >= 0,
    ensures
        0 <= sum_under(fewer, amounts) <= sum_under(more, amounts),
    decreases more.len(),
{
    if more.len() > 0 {
        let key = more.choose();
        vstd::set_lib::lemma_set_subset_finite(more, fewer);
        lemma_sum_of_fewer(fewer.remove(key), more.remove(key), amounts);
        if fewer.contains(key) {
            lemma_sum_remove(fewer, amounts, key);
        } else {
            assert(fewer.remove(key) =~= fewer);
        }
    } else {
        assert(fewer =~= more);
    }
}

/// Setting one amount changes a sum that counts it by the difference.
pub proof fn lemma_sum_of_update<K>(keys: Set<K>, amounts: Map<K, i128>, key: K, amount: i128)
    requires
        keys.finite(),
    ensures
        sum_under(keys.insert(key), amounts.insert(key, amount)) == sum_under(keys, amounts)
            + amount - (if keys.contains(key) {
            amounts[key] as int
        } else {
            0
        }),
{
    let updated = amounts.insert(key, amount);
    let rest = keys.remove(key);
    assert(keys.insert(key).remove(key) =~= rest);
    lemma_sum_remove(keys.insert(key), updated, key);
    lemma_sum_agrees(rest, amounts, updated);
    if keys.contains(key) {
        lemma_sum_remove(keys, amounts, key);
    } else {
        assert(rest =~= keys);
    }
}

} // verus!
