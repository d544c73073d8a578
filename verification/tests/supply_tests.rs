use iota_supply::supply::{display_units, native_asset_id, NANOS_PER_UNIT};
use iota_supply::text::{json_escape_str, u64_to_dec};

#[test]
fn display_units_floors_fractions() {
    assert_eq!(display_units(2_500_000_000), 2);
    assert_eq!(display_units(999_999_999), 0);
    assert_eq!(display_units(1_000_000_000), 1);
    assert_eq!(display_units(0), 0);
}

#[test]
fn display_units_example_values() {
    assert_eq!(display_units(7_000_000_000), 7);
    assert_eq!(display_units(4_500_000_000_000), 4500);
    assert_eq!(display_units(u64::MAX), 18_446_744_073);
}

#[test]
fn nanos_per_unit_is_one_billion() {
    assert_eq!(NANOS_PER_UNIT, 1_000_000_000);
}

#[test]
fn native_asset_id_is_fixed() {
    assert_eq!(native_asset_id(), "0x2::iota::IOTA");
}

#[test]
fn decimal_rendering() {
    assert_eq!(u64_to_dec(0), "0");
    assert_eq!(u64_to_dec(7), "7");
    assert_eq!(u64_to_dec(10), "10");
    assert_eq!(u64_to_dec(4500), "4500");
    assert_eq!(u64_to_dec(503), "503");
    assert_eq!(u64_to_dec(u64::MAX), "18446744073709551615");
}

#[test]
fn json_escaping_leaves_plain_text() {
    assert_eq!(json_escape_str(""), "");
    assert_eq!(json_escape_str("service unavailable: timeout"), "service unavailable: timeout");
}

#[test]
fn json_escaping_handles_metacharacters() {
    assert_eq!(json_escape_str("a\"b"), "a\\\"b");
    assert_eq!(json_escape_str("a\\b"), "a\\\\b");
    assert_eq!(json_escape_str("a\nb\tc\rd"), "a\\nb\\tc\\rd");
    assert_eq!(json_escape_str("\u{8}\u{c}"), "\\b\\f");
    assert_eq!(json_escape_str("\u{1}\u{1f}"), "\\u0001\\u001f");
}

#[test]
fn json_escaping_keeps_non_ascii() {
    assert_eq!(json_escape_str("münze ¢"), "münze ¢");
}
