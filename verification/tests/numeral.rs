use payment_escrow::contract::lore_token_id;
use payment_escrow::numeral::u64_to_decimal;

#[test]
fn decimal_of_zero() {
    assert_eq!(u64_to_decimal(0), "0");
}

#[test]
fn decimal_of_single_digits() {
    for d in 0u64..10 {
        assert_eq!(u64_to_decimal(d), d.to_string());
    }
}

#[test]
fn decimal_of_round_numbers() {
    assert_eq!(u64_to_decimal(10), "10");
    assert_eq!(u64_to_decimal(100), "100");
    assert_eq!(u64_to_decimal(1000000), "1000000");
}

#[test]
fn decimal_of_large_values() {
    assert_eq!(u64_to_decimal(1234567890), "1234567890");
    assert_eq!(u64_to_decimal(u64::MAX), "18446744073709551615");
}

#[test]
fn lore_token_id_prefixes_decimal_id() {
    assert_eq!(lore_token_id(0), "lore-0");
    assert_eq!(lore_token_id(42), "lore-42");
    assert_eq!(lore_token_id(u64::MAX), "lore-18446744073709551615");
}
