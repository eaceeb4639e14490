use rustcode::api::{build_api_url, is_fallback_status};

#[test]
fn openai_url_uses_root_base_url() {
    assert_eq!(
        build_api_url("https://example.com", "/v1/chat/completions"),
        "https://example.com/v1/chat/completions"
    );
}

#[test]
fn openai_url_does_not_duplicate_v1() {
    assert_eq!(
        build_api_url("https://example.com/v1", "/v1/chat/completions"),
        "https://example.com/v1/chat/completions"
    );
}

#[test]
fn openai_url_accepts_full_endpoint() {
    assert_eq!(
        build_api_url(
            "https://example.com/v1/chat/completions",
            "/v1/chat/completions"
        ),
        "https://example.com/v1/chat/completions"
    );
}

#[test]
fn anthropic_url_does_not_duplicate_v1() {
    assert_eq!(
        build_api_url("https://example.com/v1", "/v1/messages"),
        "https://example.com/v1/messages"
    );
}

#[test]
fn api_url_drops_trailing_slashes_and_appends_other_endpoints() {
    assert_eq!(
        build_api_url("https://example.com///", "/v1/responses"),
        "https://example.com/v1/responses"
    );
    assert_eq!(
        build_api_url("https://example.com/api/messages/", "/v1/messages"),
        "https://example.com/api/messages"
    );
    assert_eq!(
        build_api_url("https://example.com/proxy/chat/completions", "/v1/chat/completions"),
        "https://example.com/proxy/chat/completions"
    );
}

#[test]
fn fallback_statuses_are_auth_missing_conflict_rate_limit_and_server_errors() {
    for status in [401u16, 403, 404, 408, 409, 429, 500, 503, 599] {
        assert!(is_fallback_status(status), "status {}", status);
    }
    for status in [200u16, 201, 400, 402, 410, 499, 600] {
        assert!(!is_fallback_status(status), "status {}", status);
    }
}
