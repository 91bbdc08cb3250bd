use llm_usage::auth::{
    ascii_sanitize, build_verification_url, classify_poll, classify_refresh_status,
    device_authorization_url, device_code_expired, endpoint, header_value, kimi_common_headers,
    kimi_login_next, oauth_host, oauth_token_url, poll_device_token, poll_wait_seconds,
    refresh_precheck, resolve_device_id, DeviceAuthorization, LoginAction, PollDecision,
    RefreshStatus,
};
use llm_usage::json::{JsonNumber, JsonValue};
use llm_usage::tokens::StoredToken;

fn auth(uri: Option<&str>, complete: Option<&str>) -> DeviceAuthorization {
    DeviceAuthorization {
        user_code: "ABCD-1234".to_string(),
        device_code: "dev".to_string(),
        verification_uri: uri.map(|s| s.to_string()),
        verification_uri_complete: complete.map(|s| s.to_string()),
        expires_in: Some(600),
        interval: Some(5),
    }
}

fn obj(pairs: Vec<(&str, JsonValue)>) -> JsonValue {
    JsonValue::Object(pairs.into_iter().map(|(k, v)| (k.to_string(), v)).collect())
}

fn s(x: &str) -> JsonValue {
    JsonValue::Str(x.to_string())
}

fn token_payload() -> JsonValue {
    obj(vec![
        ("access_token", s("acc")),
        ("refresh_token", s("ref")),
        ("expires_in", JsonValue::Number(JsonNumber::PosInt(100))),
        ("scope", s("sc")),
        ("token_type", s("Bearer")),
    ])
}

fn failed_message(d: PollDecision) -> String {
    match d {
        PollDecision::Failed(m) => m,
        other => panic!("expected a failure, got {:?}", other),
    }
}

#[test]
fn verification_url_prefers_complete_uri() {
    let a = auth(Some("https://x/device"), Some("  https://x/device?user_code=Z  "));
    assert_eq!(build_verification_url(&a), "https://x/device?user_code=Z");
}

#[test]
fn verification_url_appends_user_code() {
    assert_eq!(
        build_verification_url(&auth(Some(" https://x/device "), Some("   "))),
        "https://x/device?user_code=ABCD-1234"
    );
    assert_eq!(
        build_verification_url(&auth(Some("https://x/device?lang=en"), None)),
        "https://x/device?lang=en&user_code=ABCD-1234"
    );
    assert_eq!(
        build_verification_url(&auth(Some("https://x/d?user_code=OTHER"), None)),
        "https://x/d?user_code=OTHER"
    );
}

#[test]
fn verification_url_without_uri_is_the_code() {
    assert_eq!(build_verification_url(&auth(None, None)), "ABCD-1234");
}

#[test]
fn header_values_are_sanitised() {
    assert_eq!(ascii_sanitize("  héllo wörld  "), "hllo wrld");
    assert_eq!(ascii_sanitize("üé"), "unknown");
    assert_eq!(ascii_sanitize(""), "unknown");
    assert_eq!(header_value(" Linux ").unwrap(), "Linux");
    assert_eq!(header_value("a\u{1}b").unwrap_err(), "failed to parse header value");
    assert_eq!(header_value("a\u{7f}").unwrap_err(), "failed to parse header value");
    assert_eq!(header_value("a\tb").unwrap(), "a\tb");
}

#[test]
fn common_headers() {
    let h = kimi_common_headers("dev-1", Some("box"), "Ubuntu", "24.04", "x86_64", "0.1.0").unwrap();
    let expected = vec![
        ("X-Msh-Platform", "kimi_cli"),
        ("X-Msh-Version", "0.1.0"),
        ("X-Msh-Device-Name", "box"),
        ("X-Msh-Device-Model", "Ubuntu 24.04 x86_64"),
        ("X-Msh-Os-Version", "24.04"),
        ("X-Msh-Device-Id", "dev-1"),
    ];
    assert_eq!(h.len(), expected.len());
    for (got, want) in h.iter().zip(expected.iter()) {
        assert_eq!(got.0, want.0);
        assert_eq!(got.1, want.1);
    }
}

#[test]
fn common_headers_without_version_or_host() {
    let h = kimi_common_headers("d", None, "Linux", "", "aarch64", "1").unwrap();
    assert_eq!(h[2].1, "unknown");
    assert_eq!(h[3].1, "Linux aarch64");
    assert_eq!(h[4].1, "unknown");
}

#[test]
fn common_headers_refuse_control_characters() {
    let e = kimi_common_headers("bad\u{1}id", Some("box"), "Linux", "6", "x86_64", "1").unwrap_err();
    assert_eq!(e, "failed to parse header value");
}

#[test]
fn oauth_host_and_endpoints() {
    assert_eq!(oauth_host(Some("https://a"), Some("https://b")), "https://a");
    assert_eq!(oauth_host(None, Some("https://b")), "https://b");
    assert_eq!(oauth_host(None, None), "https://auth.kimi.com");
    assert_eq!(endpoint("https://a.com//", "/x"), "https://a.com/x");
    assert_eq!(
        device_authorization_url("https://auth.kimi.com/"),
        "https://auth.kimi.com/api/oauth/device_authorization"
    );
    assert_eq!(oauth_token_url("https://auth.kimi.com"), "https://auth.kimi.com/api/oauth/token");
}

#[test]
fn poll_success_and_bad_token() {
    match classify_poll(200, &token_payload(), 1000) {
        PollDecision::Success(t) => {
            assert_eq!(t.access_token, "acc");
            assert_eq!(t.expires_at, 1100);
        }
        other => panic!("unexpected {:?}", other),
    }
    let m = failed_message(classify_poll(200, &obj(vec![("error", s("x"))]), 0));
    assert_eq!(m, "Missing token fields in response");
}

#[test]
fn poll_pending_and_expired() {
    let pending = obj(vec![("error", s("authorization_pending"))]);
    assert!(matches!(classify_poll(400, &pending, 0), PollDecision::Pending));
    let slow = obj(vec![("error", s("slow_down"))]);
    assert!(matches!(classify_poll(400, &slow, 0), PollDecision::Pending));
    let expired = obj(vec![("error", s("expired_token"))]);
    assert!(matches!(classify_poll(400, &expired, 0), PollDecision::Expired));
}

#[test]
fn poll_failures() {
    let denied = obj(vec![("error", s("access_denied")), ("error_description", s("no"))]);
    assert_eq!(failed_message(classify_poll(400, &denied, 0)), "Token polling failed: access_denied (no)");
    let bare = obj(vec![("error", s("access_denied"))]);
    assert_eq!(failed_message(classify_poll(400, &bare, 0)), "Token polling failed: access_denied");
    let odd = obj(vec![("error", JsonValue::Number(JsonNumber::PosInt(1)))]);
    assert_eq!(
        failed_message(classify_poll(500, &odd, 0)),
        "Token polling failed with unexpected response."
    );
}

#[test]
fn poll_by_the_clock() {
    match poll_device_token(200, &token_payload()) {
        PollDecision::Success(t) => assert!(t.expires_at > 1_600_000_000),
        other => panic!("unexpected {:?}", other),
    }
}

#[test]
fn refresh_checks() {
    let mut t = StoredToken {
        access_token: "a".to_string(),
        refresh_token: String::new(),
        expires_at: 0,
        scope: String::new(),
        token_type: String::new(),
    };
    assert_eq!(
        refresh_precheck(&t).unwrap_err(),
        "Missing refresh token. Run `llm-usage kimi login` again."
    );
    t.refresh_token = "r".to_string();
    assert!(refresh_precheck(&t).is_ok());
    assert_eq!(classify_refresh_status(401), RefreshStatus::Unauthorized);
    assert_eq!(classify_refresh_status(403), RefreshStatus::Unauthorized);
    assert_eq!(classify_refresh_status(200), RefreshStatus::Accepted);
    assert_eq!(classify_refresh_status(204), RefreshStatus::Accepted);
    assert_eq!(classify_refresh_status(500), RefreshStatus::Failed);
    assert_eq!(classify_refresh_status(302), RefreshStatus::Failed);
}

#[test]
fn login_loop_decisions() {
    assert!(device_code_expired(Some(600), 100, 700));
    assert!(!device_code_expired(Some(600), 100, 699));
    assert!(!device_code_expired(None, 0, i64::MAX));
    assert!(device_code_expired(Some(u64::MAX), 0, 0));
    assert_eq!(poll_wait_seconds(None), 5);
    assert_eq!(poll_wait_seconds(Some(0)), 1);
    assert_eq!(poll_wait_seconds(Some(7)), 7);
    assert!(matches!(kimi_login_next(PollDecision::Pending, Some(3)), LoginAction::Wait(3)));
    assert!(matches!(kimi_login_next(PollDecision::Pending, None), LoginAction::Wait(5)));
    assert!(matches!(kimi_login_next(PollDecision::Expired, None), LoginAction::Restart));
    match kimi_login_next(PollDecision::Failed("boom".to_string()), None) {
        LoginAction::Fail(m) => assert_eq!(m, "boom"),
        other => panic!("unexpected {:?}", other),
    }
}

#[test]
fn device_id_resolution() {
    let (id, write) = resolve_device_id(Some(" abc\n"));
    assert_eq!(id, "abc");
    assert!(!write);
    let (id, write) = resolve_device_id(None);
    assert!(write);
    assert_eq!(id.len(), 32);
    assert!(id.chars().all(|c| c.is_ascii_digit() || ('a'..='f').contains(&c)));
    let (other, _) = resolve_device_id(None);
    assert_ne!(id, other);
}

#[test]
fn refresh_and_authorization_replies() {
    assert_eq!(llm_usage::auth::refresh_reply_status(200, "200 OK", ""), Ok(()));
    assert_eq!(
        llm_usage::auth::refresh_reply_status(401, "401 Unauthorized", "b"),
        Err("Token refresh unauthorized. Run `llm-usage kimi login` again.".to_string())
    );
    assert_eq!(
        llm_usage::auth::refresh_reply_status(403, "403 Forbidden", "b"),
        Err("Token refresh unauthorized. Run `llm-usage kimi login` again.".to_string())
    );
    assert_eq!(
        llm_usage::auth::refresh_reply_status(500, "500 Internal Server Error", "oops"),
        Err("Token refresh failed: 500 Internal Server Error oops".to_string())
    );
    assert_eq!(llm_usage::auth::device_authorization_status(200, "200 OK", ""), Ok(()));
    assert_eq!(
        llm_usage::auth::device_authorization_status(400, "400 Bad Request", "bad"),
        Err("Device authorization failed: 400 Bad Request bad".to_string())
    );
}

#[test]
fn sanitising_twice_is_sanitising_once() {
    for v in ["  héllo  ", "ü", "", "a\u{1}b", " x\ty "] {
        let once = ascii_sanitize(v);
        assert_eq!(ascii_sanitize(&once), once);
    }
}
