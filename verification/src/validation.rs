use vstd::prelude::*;

use crate::errors::KoraError;
use crate::types::Address;

verus! {

/// The basis points in a whole.
pub const BPS_DENOMINATOR: u32 = 10_000;

/// The highest risk score.
pub const MAX_RISK_SCORE: u32 = 100;

/// The bytes in the hash of a debtor's identity.
pub const HASH_LENGTH: usize = 32;

/// Amounts must be positive.
pub fn require_non_zero_amount(amount: i128) -> (r: Result<(), KoraError>)
    ensures
        r == KoraError::InvalidAmount.unless(amount > 0),
{
    if amount <= 0 {
        return Err(KoraError::InvalidAmount);
    }
    Ok(())
}

/// A rate in basis points must not exceed the whole.
pub fn require_valid_fee_bps(fee_bps: u32) -> (r: Result<(), KoraError>)
    ensures
        r == KoraError::InvalidFeeRate.unless(fee_bps <= BPS_DENOMINATOR),
{
    if fee_bps > BPS_DENOMINATOR {
        return Err(KoraError::InvalidFeeRate);
    }
    Ok(())
}

/// Risk scores run from zero to one hundred.
pub fn require_valid_risk_score(score: u32) -> (r: Result<(), KoraError>)
    ensures
        r == KoraError::InvalidRiskScore.unless(score <= MAX_RISK_SCORE),
{
    if score > MAX_RISK_SCORE {
        return Err(KoraError::InvalidRiskScore);
    }
    Ok(())
}

/// A deadline must lie in the future.
pub fn require_future_timestamp(now: u64, timestamp: u64) -> (r: Result<(), KoraError>)
    ensures
        r == KoraError::InvalidDueDate.unless(timestamp > now),
{
    if timestamp <= now {
        return Err(KoraError::InvalidDueDate);
    }
    Ok(())
}

/// A contract must not be given itself for another party.
pub fn require_not_self(contract: Address, address: Address) -> (r: Result<(), KoraError>)
    ensures
        r == KoraError::InvalidAddress.unless(address != contract),
{
    if address == contract {
        return Err(KoraError::InvalidAddress);
    }
    Ok(())
}

/// Bytes must have a given length.
pub fn require_exact_length(bytes: &[u8], length: usize) -> (r: Result<(), KoraError>)
    ensures
        r == KoraError::InvalidLength.unless(bytes@.len() == length),
{
    if bytes.len() != length {
        return Err(KoraError::InvalidLength);
    }
    Ok(())
}

/// The sum of two amounts, where it can be represented.
pub open spec fn sum_of(a: i128, b: i128) -> Result<i128, KoraError> {
    if i128::MIN <= a + b <= i128::MAX {
        Ok((a + b) as i128)
    } else {
        Err(KoraError::ArithmeticOverflow)
    }
}

/// Adds two amounts.
pub fn safe_add(a: i128, b: i128) -> (r: Result<i128, KoraError>)
    ensures
        r == sum_of(a, b),
{
    match a.checked_add(b) {
        Some(sum) => Ok(sum),
        None => Err(KoraError::ArithmeticOverflow),
    }
}

/// The difference of two amounts, where it can be represented.
pub open spec fn difference_of(a: i128, b: i128) -> Result<i128, KoraError> {
    if i128::MIN <= a - b <= i128::MAX {
        Ok((a - b) as i128)
    } else {
        Err(KoraError::ArithmeticUnderflow)
    }
}

/// Subtracts one amount from another.
pub fn safe_sub(a: i128, b: i128) -> (r: Result<i128, KoraError>)
    ensures
        r == difference_of(a, b),
{
    match a.checked_sub(b) {
        Some(difference) => Ok(difference),
        None => Err(KoraError::ArithmeticUnderflow),
    }
}

/// Sums and differences are exact where they can be represented, and refused where not.
pub proof fn sums_are_exact(a: i128, b: i128)
    ensures
        match sum_of(a, b) {
            Ok(sum) => sum - b == a,
            Err(error) => error == KoraError::ArithmeticOverflow && (a + b > i128::MAX || a + b
                < i128::MIN),
        },
        match difference_of(a, b) {
            Ok(difference) => difference + b == a,
            Err(error) => error == KoraError::ArithmeticUnderflow && (a - b > i128::MAX || a - b
                < i128::MIN),
        },
{
}

/// So many basis points of an amount, rounded down.
pub open spec fn bps_share(amount: int, bps: int) -> int {
    amount * bps / (BPS_DENOMINATOR as int)
}

/// A share of an amount, given in basis points and rounded down.
pub fn bps_of(amount: i128, bps: u32) -> (r: Result<i128, KoraError>)
    requires
        amount >= 0,
    ensures
        r == (if bps_share(amount as int, bps as int) <= i128::MAX {
            Ok::<i128, KoraError>(bps_share(amount as int, bps as int) as i128)
        } else {
            Err(KoraError::ArithmeticOverflow)
        }),
{
    let whole: u128 = amount as u128 / BPS_DENOMINATOR as u128;
    let rest: u128 = amount as u128 % BPS_DENOMINATOR as u128;
    proof {
        lemma_split_share(amount as int, bps as int);
        assert(rest * bps <= 10_000 * u32::MAX) by (nonlinear_arith)
            requires
                rest < 10_000,
                bps <= u32::MAX,
        ;
        assert(0 <= rest * bps) by (nonlinear_arith);
        assert(0 <= whole * bps) by (nonlinear_arith);
    }
    let fraction: u128 = rest * (bps as u128) / (BPS_DENOMINATOR as u128);
    match whole.checked_mul(bps as u128) {
        Some(product) => match product.checked_add(fraction) {
            Some(share) => if share <= i128::MAX as u128 {
                Ok(share as i128)
            } else {
                Err(KoraError::ArithmeticOverflow)
            },
            None => Err(KoraError::ArithmeticOverflow),
        },
        None => Err(KoraError::ArithmeticOverflow),
    }
}

/// A share can be taken of the whole ten-thousands and of the rest apart.
proof fn lemma_split_share(amount: int, bps: int)
    requires
        amount >= 0,
        bps >= 0,
    ensures
        bps_share(amount, bps) == (amount / 10_000) * bps + (amount % 10_000) * bps / 10_000,
{
    let whole = amount / 10_000;
    let rest = amount % 10_000;
    assert(amount * bps == (whole * bps) * 10_000 + rest * bps) by (nonlinear_arith)
        requires
            amount == whole * 10_000 + rest,
    ;
    vstd::arithmetic::div_mod::lemma_div_multiples_vanish_fancy(
        whole * bps,
        (rest * bps) % 10_000,
        10_000,
    );
    assert(amount * bps == 10_000 * (whole * bps + rest * bps / 10_000) + (rest * bps) % 10_000)
        by (nonlinear_arith)
        requires
            amount * bps == (whole * bps) * 10_000 + rest * bps,
            rest * bps == 10_000 * (rest * bps / 10_000) + (rest * bps) % 10_000,
    ;
    vstd::arithmetic::div_mod::lemma_div_multiples_vanish_fancy(
        whole * bps + rest * bps / 10_000,
        (rest * bps) % 10_000,
        10_000,
    );
}

/// A share is rounded down: the next larger number would be too much.
pub proof fn share_is_rounded_down(amount: int, bps: int)
    ensures
        bps_share(amount, bps) * 10_000 <= amount * bps < (bps_share(amount, bps) + 1) * 10_000,
{
}

/// A share of at most the whole lies between zero and the amount.
pub proof fn lemma_share_within_amount(amount: int, bps: int)
    requires
        amount >= 0,
        0 <= bps <= BPS_DENOMINATOR,
    ensures
        0 <= bps_share(amount, bps) <= amount,
{
    assert(0 <= amount * bps <= amount * 10_000) by (nonlinear_arith)
        requires
            amount >= 0,
            0 <= bps <= 10_000,
    ;
    vstd::arithmetic::div_mod::lemma_div_is_ordered(amount * bps, amount * 10_000, 10_000);
    vstd::arithmetic::div_mod::lemma_div_is_ordered(0, amount * bps, 10_000);
    vstd::arithmetic::div_mod::lemma_div_multiples_vanish(amount, 10_000);
    assert(amount * 10_000 == 10_000 * amount);
}

/// The hash that some bytes spell out.
pub open spec fn hash_from(bytes: Seq<u8>) -> [u8; 32] {
    choose|hash: [u8; 32]| hash@ == bytes
}

/// Thirty-two bytes spell out a hash, and only that one.
pub proof fn lemma_hash_from(bytes: Seq<u8>)
    requires
        bytes.len() == HASH_LENGTH,
    ensures
        hash_from(bytes)@ == bytes,
{
    let hash: [u8; 32] = [
        bytes[0], bytes[1], bytes[2], bytes[3], bytes[4], bytes[5], bytes[6], bytes[7],
        bytes[8], bytes[9], bytes[10], bytes[11], bytes[12], bytes[13], bytes[14], bytes[15],
        bytes[16], bytes[17], bytes[18], bytes[19], bytes[20], bytes[21], bytes[22], bytes[23],
        bytes[24], bytes[25], bytes[26], bytes[27], bytes[28], bytes[29], bytes[30], bytes[31],
    ];
    assert(hash@ =~= bytes);
}

/// Reads a hash off thirty-two bytes.
pub fn read_hash(bytes: &[u8]) -> (r: [u8; 32])
    requires
        bytes@.len() == HASH_LENGTH,
    ensures
        r@ == bytes@,
        r == hash_from(bytes@),
{
    let mut hash: [u8; 32] = [0u8; 32];
    let mut i: usize = 0;
    while i < 32
        invariant
            i <= 32,
            bytes@.len() == 32,
            forall|j: int| 0 <= j < i ==> hash@[j] == bytes@[j],
        decreases 32 - i,
    {
        hash[i] = bytes[i];
        i += 1;
    }
    proof {
        assert(hash@ =~= bytes@);
        let chosen = hash_from(bytes@);
        assert(chosen@ == bytes@);
        assert(chosen =~= hash);
    }
    hash
}

} // verus!
