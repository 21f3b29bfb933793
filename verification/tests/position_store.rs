use ferrum::domain::types::Side;
use ferrum::positions::{side_from_stored_name, stored_side_name};

#[test]
fn side_names_round_trip() {
    for s in [Side::Buy, Side::Sell, Side::Range] {
        assert_eq!(side_from_stored_name(stored_side_name(s)), s);
    }
}

#[test]
fn side_names() {
    assert_eq!(stored_side_name(Side::Buy), "Buy");
    assert_eq!(stored_side_name(Side::Sell), "Sell");
    assert_eq!(side_from_stored_name("Range"), Side::Range);
    assert_eq!(side_from_stored_name("buy"), Side::Range);
    assert_eq!(side_from_stored_name(""), Side::Range);
}
