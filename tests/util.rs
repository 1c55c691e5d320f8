use sdk_server::{country_code, current_time, random_token, timestamp_from};

#[test]
fn token_is_32_alphanumeric() {
    let t = random_token();
    assert_eq!(t.chars().count(), 32);
    assert!(t.chars().all(|c| c.is_ascii_alphanumeric()));
}

#[test]
fn tokens_differ() {
    assert_ne!(random_token(), random_token());
}

#[test]
fn timestamp_truncates_to_32_bits() {
    assert_eq!(timestamp_from(Some(1_700_000_000)), 1_700_000_000);
    assert_eq!(timestamp_from(Some(0x1_0000_0005)), 5);
    assert_eq!(timestamp_from(None), 0);
}

#[test]
fn current_time_is_recent() {
    assert!(current_time() > 1_600_000_000);
}

#[test]
fn country_defaults_to_zz() {
    assert_eq!(country_code(None), "ZZ");
    assert_eq!(country_code(Some("DE".to_string())), "DE");
}
