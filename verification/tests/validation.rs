use kora::errors::KoraError;
use kora::table::{Key, Table};
use kora::types::{Address, AddressKind};
use kora::validation::{
    bps_of, read_hash, require_exact_length, require_future_timestamp, require_non_zero_amount,
    require_not_self, require_valid_fee_bps, require_valid_risk_score, safe_add, safe_sub,
};

fn address(low: u128) -> Address {
    Address { kind: AddressKind::Account, high: 0, low }
}

#[test]
fn amounts_are_positive() {
    assert_eq!(require_non_zero_amount(1), Ok(()));
    assert_eq!(require_non_zero_amount(0), Err(KoraError::InvalidAmount));
    assert_eq!(require_non_zero_amount(i128::MIN), Err(KoraError::InvalidAmount));
}

#[test]
fn fee_rates_end_at_the_whole() {
    assert_eq!(require_valid_fee_bps(0), Ok(()));
    assert_eq!(require_valid_fee_bps(10_000), Ok(()));
    assert_eq!(require_valid_fee_bps(10_001), Err(KoraError::InvalidFeeRate));
}

#[test]
fn risk_scores_end_at_one_hundred() {
    assert_eq!(require_valid_risk_score(0), Ok(()));
    assert_eq!(require_valid_risk_score(100), Ok(()));
    assert_eq!(require_valid_risk_score(101), Err(KoraError::InvalidRiskScore));
}

#[test]
fn deadlines_lie_in_the_future() {
    assert_eq!(require_future_timestamp(10, 11), Ok(()));
    assert_eq!(require_future_timestamp(10, 10), Err(KoraError::InvalidDueDate));
    assert_eq!(require_future_timestamp(10, 9), Err(KoraError::InvalidDueDate));
}

#[test]
fn a_contract_is_no_party_of_its_own() {
    assert_eq!(require_not_self(address(1), address(2)), Ok(()));
    assert_eq!(require_not_self(address(1), address(1)), Err(KoraError::InvalidAddress));
    let other_kind = Address { kind: AddressKind::Contract, high: 0, low: 1 };
    assert_eq!(require_not_self(address(1), other_kind), Ok(()));
}

#[test]
fn lengths_are_exact() {
    assert_eq!(require_exact_length(&[0u8; 32], 32), Ok(()));
    assert_eq!(require_exact_length(&[0u8; 31], 32), Err(KoraError::InvalidLength));
    assert_eq!(require_exact_length(&[], 32), Err(KoraError::InvalidLength));
}

#[test]
fn sums_and_differences_do_not_overflow() {
    assert_eq!(safe_add(2, 3), Ok(5));
    assert_eq!(safe_add(i128::MAX, 1), Err(KoraError::ArithmeticOverflow));
    assert_eq!(safe_add(i128::MIN, -1), Err(KoraError::ArithmeticOverflow));
    assert_eq!(safe_sub(2, 3), Ok(-1));
    assert_eq!(safe_sub(i128::MIN, 1), Err(KoraError::ArithmeticUnderflow));
}

#[test]
fn shares_are_rounded_down() {
    assert_eq!(bps_of(50_000, 2_000), Ok(10_000));
    assert_eq!(bps_of(9_999, 1), Ok(0));
    assert_eq!(bps_of(10_000, 1), Ok(1));
    assert_eq!(bps_of(12_345, 6_789), Ok(8_381));
    assert_eq!(bps_of(0, 10_000), Ok(0));
    assert_eq!(bps_of(i128::MAX, 10_000), Ok(i128::MAX));
    assert_eq!(bps_of(i128::MAX, 10_001), Err(KoraError::ArithmeticOverflow));
    assert_eq!(bps_of(i128::MAX, u32::MAX), Err(KoraError::ArithmeticOverflow));
}

#[test]
fn a_hash_is_its_bytes() {
    let mut bytes = [0u8; 32];
    for (i, byte) in bytes.iter_mut().enumerate() {
        *byte = i as u8 * 3;
    }
    assert_eq!(read_hash(&bytes), bytes);
}

#[test]
fn keys_are_the_same_when_all_of_them_is() {
    assert!(address(4).same(&address(4)));
    assert!(!address(4).same(&address(5)));
    assert!(!address(4).same(&Address { kind: AddressKind::Account, high: 1, low: 4 }));
    assert!((7u64, address(4)).same(&(7u64, address(4))));
    assert!(!(7u64, address(4)).same(&(8u64, address(4))));
    assert!(!(7u64, address(4)).same(&(7u64, address(5))));
    let mut hash = [1u8; 32];
    assert!(hash.same(&[1u8; 32]));
    hash[31] = 2;
    assert!(!hash.same(&[1u8; 32]));
    assert!(!(address(4), hash).same(&(address(4), [1u8; 32])));
    assert!((address(4), hash).same(&(address(4), hash)));
}

#[test]
fn a_table_keeps_the_last_value_of_each_key() {
    let mut table: Table<u64, i128> = Table::new();
    assert_eq!(table.get(&1), None);
    table.set(1, 10);
    table.set(2, 20);
    table.set(3, 30);
    table.set(2, 21);
    assert_eq!((table.get(&1), table.get(&2), table.get(&3)), (Some(10), Some(21), Some(30)));
    table.remove(&2);
    table.remove(&9);
    assert!(table.has(&1) && !table.has(&2) && table.has(&3));
    table.set(2, 22);
    assert_eq!(table.get(&2), Some(22));
}
