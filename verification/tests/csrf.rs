use recipe_app::csrf::{check_csrf, origin_matches_host, CsrfDecision};

#[test]
fn safe_methods_are_never_checked() {
    for m in ["GET", "HEAD", "OPTIONS"] {
        assert_eq!(check_csrf(m, Some("a.example"), Some("https://evil.example")), CsrfDecision::Allow);
    }
}

#[test]
fn missing_host_or_origin_passes() {
    assert_eq!(check_csrf("POST", None, Some("https://evil.example")), CsrfDecision::Allow);
    assert_eq!(check_csrf("POST", Some("localhost:7878"), None), CsrfDecision::Allow);
}

#[test]
fn same_origin_passes_and_cross_origin_is_rejected() {
    assert_eq!(
        check_csrf("POST", Some("localhost:7878"), Some("http://localhost:7878")),
        CsrfDecision::Allow
    );
    assert_eq!(
        check_csrf("DELETE", Some("recipes.example"), Some("https://recipes.example")),
        CsrfDecision::Allow
    );
    assert_eq!(
        check_csrf("PUT", Some("localhost:7878"), Some("http://evil.example")),
        CsrfDecision::Reject
    );
    assert_eq!(
        check_csrf("PATCH", Some("localhost:7878"), Some("http://localhost:7879")),
        CsrfDecision::Reject
    );
}

#[test]
fn origin_host_strips_schemes_repeatedly_and_cuts_at_slash() {
    assert!(origin_matches_host("http://http://host", "host"));
    assert!(origin_matches_host("https://host/path", "host"));
    assert!(origin_matches_host("host", "host"));
    assert!(!origin_matches_host("https://http://host", "host"));
    assert!(origin_matches_host("/x", ""));
    assert!(!origin_matches_host("ftp://host", "host"));
}

#[test]
fn method_names_are_case_sensitive() {
    assert_eq!(check_csrf("get", Some("a"), Some("http://b")), CsrfDecision::Reject);
}
