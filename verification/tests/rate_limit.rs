use recipe_app::rate_limit::{KeyExtractError, SessionUserId, UserIdKeyExtractor};

fn user(id: i64) -> Option<SessionUserId> {
    SessionUserId::from_session_lookup(Some(id))
}

#[test]
fn test_user_key_extractor_prefers_session_user_id() {
    let key = UserIdKeyExtractor.extract(user(42), None).unwrap();
    assert_eq!(key, "u:42");
}

#[test]
fn test_user_key_extractor_falls_back_to_ip() {
    let key = UserIdKeyExtractor.extract(None, Some("127.0.0.1")).unwrap();
    assert_eq!(key, "ip:127.0.0.1");
}

#[test]
fn test_user_key_extractor_user_id_beats_ip_when_both_present() {
    let key = UserIdKeyExtractor.extract(user(7), Some("10.0.0.1")).unwrap();
    assert_eq!(key, "u:7");
}

#[test]
fn test_user_key_extractor_no_info_returns_error() {
    let result = UserIdKeyExtractor.extract(None, None);
    assert!(matches!(result, Err(KeyExtractError::UnableToExtractKey)));
}

#[test]
fn test_user_key_extractor_different_user_ids_produce_distinct_keys() {
    let key_a = UserIdKeyExtractor.extract(user(1), None).unwrap();
    let key_b = UserIdKeyExtractor.extract(user(2), None).unwrap();
    assert_ne!(key_a, key_b);
}

#[test]
fn test_user_key_extractor_different_ips_produce_distinct_keys() {
    let key_a = UserIdKeyExtractor.extract(None, Some("192.168.1.1")).unwrap();
    let key_b = UserIdKeyExtractor.extract(None, Some("192.168.1.2")).unwrap();
    assert_ne!(key_a, key_b);
}

#[test]
fn test_user_key_extractor_ip_key_contains_address() {
    let key = UserIdKeyExtractor.extract(None, Some("10.20.30.40")).unwrap();
    assert!(key.contains("10.20.30.40"), "key should contain the IP: {key}");
}

#[test]
fn user_keys_render_ids_in_decimal() {
    assert_eq!(UserIdKeyExtractor.extract(user(0), None).unwrap(), "u:0");
    assert_eq!(UserIdKeyExtractor.extract(user(-15), None).unwrap(), "u:-15");
    assert_eq!(UserIdKeyExtractor.extract(user(1234567890), None).unwrap(), "u:1234567890");
    assert_eq!(
        UserIdKeyExtractor.extract(user(i64::MAX), None).unwrap(),
        format!("u:{}", i64::MAX)
    );
    assert_eq!(
        UserIdKeyExtractor.extract(user(i64::MIN), None).unwrap(),
        format!("u:{}", i64::MIN)
    );
}

#[test]
fn session_lookup_gives_the_user_id() {
    assert!(SessionUserId::from_session_lookup(None).is_none());
    assert_eq!(SessionUserId::from_session_lookup(Some(9)).unwrap().user_id(), 9);
}
