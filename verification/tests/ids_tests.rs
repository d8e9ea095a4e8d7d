use minichain::ids::{deposit_id, tip_id, withdraw_id};

#[test]
fn identifiers_render_single_digits() {
    assert_eq!(tip_id(0), "tip_0");
    assert_eq!(deposit_id(7), "deposit_7");
    assert_eq!(withdraw_id(9), "withdraw_9");
}

#[test]
fn identifiers_render_multiple_digits() {
    assert_eq!(tip_id(10), "tip_10");
    assert_eq!(deposit_id(1234567890), "deposit_1234567890");
    assert_eq!(withdraw_id(18446744073709551615), "withdraw_18446744073709551615");
}
