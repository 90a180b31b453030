use haunt::lockfile::Config;

#[test]
fn parses_valid_lockfile() {
    let c = Config::from_str("Riot Client:4832:59372:secret:https").unwrap();
    assert_eq!(c.name, "Riot Client");
    assert_eq!(c.pid, 4832);
    assert_eq!(c.port, 59372);
    assert_eq!(c.password, "secret");
    assert_eq!(c.protocol, "https");
}

#[test]
fn parsing_is_deterministic() {
    let a = Config::from_str("n:1:2:pw:https").unwrap();
    let b = Config::from_str("n:1:2:pw:https").unwrap();
    assert_eq!(a, b);
}

#[test]
fn empty_text_fields_parse() {
    let c = Config::from_str(":0:1::x").unwrap();
    assert_eq!(c.name, "");
    assert_eq!(c.pid, 0);
    assert_eq!(c.port, 1);
    assert_eq!(c.password, "");
    assert_eq!(c.protocol, "x");
}

#[test]
fn rejects_four_fields() {
    assert!(Config::from_str("n:1:2:pw").is_err());
}

#[test]
fn rejects_six_fields() {
    assert!(Config::from_str("n:1:2:pw:https:extra").is_err());
}

#[test]
fn rejects_empty_string() {
    assert!(Config::from_str("").is_err());
}

#[test]
fn rejects_non_numeric_pid() {
    assert!(Config::from_str("n:pid:2:pw:https").is_err());
}

#[test]
fn rejects_non_numeric_port() {
    assert!(Config::from_str("n:1:2a:pw:https").is_err());
}

#[test]
fn rejects_empty_pid() {
    assert!(Config::from_str("n::2:pw:https").is_err());
}

#[test]
fn rejects_oversized_port() {
    assert!(Config::from_str("n:1:99999999999:pw:https").is_err());
}

#[test]
fn accepts_largest_port() {
    let c = Config::from_str("n:1:4294967295:pw:https").unwrap();
    assert_eq!(c.port, u32::MAX);
}

#[test]
fn decimal_parsing_and_rendering() {
    assert_eq!(haunt::text::parse_u32("0"), Some(0));
    assert_eq!(haunt::text::parse_u32("007"), Some(7));
    assert_eq!(haunt::text::parse_u32("4294967295"), Some(u32::MAX));
    assert_eq!(haunt::text::parse_u32("4294967296"), None);
    assert_eq!(haunt::text::parse_u32(""), None);
    assert_eq!(haunt::text::parse_u32("12 3"), None);
    assert_eq!(haunt::text::u32_to_string(0), "0");
    assert_eq!(haunt::text::u32_to_string(1234), "1234");
    assert_eq!(haunt::text::u32_to_string(u32::MAX), "4294967295");
}
