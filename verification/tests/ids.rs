use verdant_backend::ids::{counter_id, parse_counter_id};

#[test]
fn renders_zero_padded_counter() {
    assert_eq!(
        counter_id("va:verification", 42),
        "va:verification:000000000042"
    );
    assert_eq!(counter_id("va:escrow", 1), "va:escrow:000000000001");
}

#[test]
fn ids_parses_presentation_form() {
    assert_eq!(
        parse_counter_id("va:verification:000000000042", "va:verification"),
        Some(42)
    );
    assert_eq!(
        parse_counter_id("va:escrow:000000000011", "va:escrow"),
        Some(11)
    );
}

#[test]
fn rejects_wrong_prefix() {
    assert_eq!(
        parse_counter_id("va:escrow:000000000042", "va:verification"),
        None
    );
}

#[test]
fn counter_wider_than_padding_is_kept_whole() {
    assert_eq!(
        counter_id("va:escrow", 1_234_567_890_123),
        "va:escrow:1234567890123"
    );
    assert_eq!(counter_id("va:escrow", 0), "va:escrow:000000000000");
}

#[test]
fn parse_counter_round_trips_and_rejects_garbage() {
    for n in [0u64, 7, 42, 999_999_999_999, u64::MAX] {
        assert_eq!(parse_counter_id(&counter_id("va:escrow", n), "va:escrow"), Some(n));
    }
    assert_eq!(parse_counter_id("va:escrow:", "va:escrow"), None);
    assert_eq!(parse_counter_id("va:escrow:12a", "va:escrow"), None);
    assert_eq!(parse_counter_id("va:escrow:99999999999999999999", "va:escrow"), None);
}

#[test]
fn parse_counter_accepts_bare_digits() {
    assert_eq!(parse_counter_id("42", "va:escrow"), Some(42));
    assert_eq!(parse_counter_id("000000000011", "va:escrow"), Some(11));
}
