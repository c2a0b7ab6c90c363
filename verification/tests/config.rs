use verdant_backend::config::{
    parse_contracts, port_from_setting, session_ttl_from_setting, DEFAULT_PORT,
    DEFAULT_SESSION_TTL_SECS,
};

#[test]
fn parses_indexer_contracts() {
    let map = parse_contracts("verification:CDEBUG,escrow:C2,financing:C3");
    assert_eq!(map.get("CDEBUG"), Some(&"verification".to_string()));
    assert_eq!(map.get("C2"), Some(&"escrow".to_string()));
    assert_eq!(map.get("C3"), Some(&"financing".to_string()));
    assert_eq!(map.len(), 3);
}

#[test]
fn skips_empty_contract_pairs() {
    let map = parse_contracts("verification:CDEBUG,,escrow:");
    assert_eq!(map.len(), 1);
}

#[test]
fn contract_pairs_are_trimmed_and_split_at_first_colon() {
    let map = parse_contracts("  escrow : C9 , odd:C:X, :C5, name:  ");
    assert_eq!(map.get("C9"), Some(&"escrow".to_string()));
    assert_eq!(map.get("C:X"), Some(&"odd".to_string()));
    assert_eq!(map.get("C5"), None);
    assert_eq!(map.len(), 2);
}

#[test]
fn later_pair_for_same_contract_wins() {
    let map = parse_contracts("verification:C1,escrow:C1");
    assert_eq!(map.get("C1"), Some(&"escrow".to_string()));
    assert_eq!(map.len(), 1);
    assert_eq!(parse_contracts("").len(), 0);
}

#[test]
fn port_setting_parses_or_falls_back() {
    assert_eq!(port_from_setting(Some("9090")), 9090);
    assert_eq!(port_from_setting(Some("+81")), 81);
    assert_eq!(port_from_setting(Some("65536")), DEFAULT_PORT);
    assert_eq!(port_from_setting(Some("http")), DEFAULT_PORT);
    assert_eq!(port_from_setting(None), 8080);
}

#[test]
fn session_ttl_setting_parses_or_falls_back() {
    assert_eq!(session_ttl_from_setting(Some("3600")), 3600);
    assert_eq!(session_ttl_from_setting(Some("-1")), DEFAULT_SESSION_TTL_SECS);
    assert_eq!(session_ttl_from_setting(None), 7 * 24 * 60 * 60);
}
