use utilz_rs::{NumberUtils, UNumberUtils};

#[test]
fn generic_parity() {
    assert!(NumberUtils::is_even(&4i64));
    assert!(NumberUtils::is_odd(&7u8));
    assert!(NumberUtils::is_odd(&-3i32));
    assert!(!NumberUtils::is_even(&-3i32));
    assert!(NumberUtils::is_even(&0u128));
}

#[test]
fn u32_parity() {
    assert!(UNumberUtils::is_even(&10u32));
    assert!(!UNumberUtils::is_odd(&10u32));
    assert!(UNumberUtils::is_odd(&u32::MAX));
}
