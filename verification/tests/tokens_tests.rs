use llm_usage::json::{JsonNumber, JsonValue};
use llm_usage::tokens::{
    clear_kimi_token_config, has_kimi_token_config, kimi_set_token, load_kimi_token_from_config,
    now_unix, parse_token_response, save_kimi_token_config, save_token, token_from_response,
    ConfigClear, KimiTokenConfig, LlmUsageConfig, StoredToken,
};

fn token(access: &str, refresh: &str, expires_at: i64) -> StoredToken {
    StoredToken {
        access_token: access.to_string(),
        refresh_token: refresh.to_string(),
        expires_at,
        scope: "kimi-code".to_string(),
        token_type: "Bearer".to_string(),
    }
}

fn obj(pairs: Vec<(&str, JsonValue)>) -> JsonValue {
    JsonValue::Object(pairs.into_iter().map(|(k, v)| (k.to_string(), v)).collect())
}

fn s(x: &str) -> JsonValue {
    JsonValue::Str(x.to_string())
}

fn config_with(t: &StoredToken) -> LlmUsageConfig {
    LlmUsageConfig { kimi: Some(KimiTokenConfig::from_token(t)) }
}

#[test]
fn config_roundtrip_trims_access_token() {
    let t = token("  abc \n", "r", 10);
    let back = KimiTokenConfig::from_token(&t).to_token().unwrap();
    assert_eq!(back.access_token, "abc");
    assert_eq!(back.refresh_token, "r");
    assert_eq!(back.expires_at, 10);
    assert_eq!(back.scope, "kimi-code");
    assert_eq!(back.token_type, "Bearer");
}

#[test]
fn blank_or_missing_access_token_reads_as_none() {
    assert!(KimiTokenConfig::from_token(&token("   ", "r", 0)).to_token().is_none());
    let c = KimiTokenConfig {
        access_token: None,
        refresh_token: Some("r".to_string()),
        expires_at: None,
        scope: None,
        token_type: None,
    };
    assert!(c.to_token().is_none());
}

#[test]
fn missing_keys_read_as_empty_or_zero() {
    let c = KimiTokenConfig {
        access_token: Some("a".to_string()),
        refresh_token: None,
        expires_at: None,
        scope: None,
        token_type: None,
    };
    let t = c.to_token().unwrap();
    assert_eq!(t.refresh_token, "");
    assert_eq!(t.expires_at, 0);
    assert_eq!(t.scope, "");
    assert_eq!(t.token_type, "");
}

#[test]
fn refresh_rule() {
    assert!(!token("a", "", 0).needs_refresh_at(1000));
    assert!(!token("a", "  ", 0).needs_refresh_at(1000));
    assert!(token("a", "r", 0).needs_refresh_at(1000));
    assert!(token("a", "r", -5).needs_refresh_at(1000));
    assert!(token("a", "r", 1300).needs_refresh_at(1000));
    assert!(!token("a", "r", 1301).needs_refresh_at(1000));
}

#[test]
fn refresh_rule_by_the_clock() {
    assert!(now_unix() > 1_600_000_000);
    assert!(token("a", "r", 0).needs_refresh());
    assert!(!token("a", "r", i64::MAX).needs_refresh());
    assert!(token("a", "r", now_unix() + 10).needs_refresh());
}

#[test]
fn config_emptiness() {
    assert!(LlmUsageConfig { kimi: None }.is_empty());
    assert!(!config_with(&token("a", "", 0)).is_empty());
}

#[test]
fn save_then_load_gives_the_token_back() {
    let t = token("abc", "ref", 99);
    let saved = save_kimi_token_config(Some(LlmUsageConfig { kimi: None }), &t);
    let loaded = load_kimi_token_from_config(Some(&saved)).unwrap();
    assert_eq!(loaded.access_token, "abc");
    assert_eq!(loaded.refresh_token, "ref");
    assert_eq!(loaded.expires_at, 99);
    let over = save_kimi_token_config(Some(config_with(&token("old", "", 1))), &t);
    assert_eq!(load_kimi_token_from_config(Some(&over)).unwrap().access_token, "abc");
    let fresh = save_kimi_token_config(None, &t);
    assert_eq!(load_kimi_token_from_config(Some(&fresh)).unwrap().expires_at, 99);
}

#[test]
fn loading_without_a_file() {
    assert!(load_kimi_token_from_config(None).is_none());
    assert!(load_kimi_token_from_config(Some(&LlmUsageConfig { kimi: None })).is_none());
}

#[test]
fn configured_token_needs_the_file() {
    let c = config_with(&token("abc", "", 0));
    assert!(has_kimi_token_config(true, Some(&c)));
    assert!(!has_kimi_token_config(false, Some(&c)));
    assert!(!has_kimi_token_config(true, None));
    assert!(!has_kimi_token_config(true, Some(&config_with(&token(" ", "", 0)))));
}

#[test]
fn save_token_writes_both_forms() {
    let t = token("abc", "r", 5);
    let (file, config) = save_token(None, &t);
    assert_eq!(file.access_token, "abc");
    assert_eq!(file.expires_at, 5);
    assert_eq!(config.kimi.unwrap().access_token, Some("abc".to_string()));
}

#[test]
fn clearing_the_configuration() {
    let (a, removed) = clear_kimi_token_config(None);
    assert!(matches!(a, ConfigClear::Unchanged));
    assert!(!removed);
    let (a, removed) = clear_kimi_token_config(Some(None));
    assert!(matches!(a, ConfigClear::RemoveFile));
    assert!(removed);
    let (a, removed) = clear_kimi_token_config(Some(Some(LlmUsageConfig { kimi: None })));
    assert!(matches!(a, ConfigClear::Unchanged));
    assert!(!removed);
    let (a, removed) = clear_kimi_token_config(Some(Some(config_with(&token("x", "", 0)))));
    assert!(matches!(a, ConfigClear::RemoveFile));
    assert!(removed);
}

#[test]
fn set_token_then_load() {
    assert_eq!(kimi_set_token("  ").unwrap_err(), "Token cannot be empty.");
    let t = kimi_set_token("  tok-1 \n").unwrap();
    assert_eq!(t.access_token, "tok-1");
    assert_eq!(t.refresh_token, "");
    assert_eq!(t.expires_at, 0);
    let saved = save_kimi_token_config(None, &t);
    let back = load_kimi_token_from_config(Some(&saved)).unwrap();
    assert_eq!(back.access_token, "tok-1");
    assert_eq!(back.refresh_token, "");
    assert_eq!(back.expires_at, 0);
    assert_eq!(back.scope, "");
    assert_eq!(back.token_type, "");
}

fn response(expires_in: JsonValue) -> JsonValue {
    obj(vec![
        ("access_token", s("acc")),
        ("refresh_token", s("ref")),
        ("expires_in", expires_in),
        ("scope", s("sc")),
        ("token_type", s("Bearer")),
        ("extra", JsonValue::Null),
    ])
}

#[test]
fn token_response_dates_expiry_from_now() {
    let t = token_from_response(&response(JsonValue::Number(JsonNumber::PosInt(3600))), 1000)
        .unwrap();
    assert_eq!(t.access_token, "acc");
    assert_eq!(t.refresh_token, "ref");
    assert_eq!(t.expires_at, 4600);
    assert_eq!(t.scope, "sc");
    assert_eq!(t.token_type, "Bearer");
}

#[test]
fn token_response_as_array() {
    let v = JsonValue::Array(vec![
        s("a"),
        s("r"),
        JsonValue::Number(JsonNumber::PosInt(10)),
        s("s"),
        s("t"),
    ]);
    assert_eq!(token_from_response(&v, 5).unwrap().expires_at, 15);
}

#[test]
fn token_response_with_missing_or_wrong_fields() {
    let e = token_from_response(&response(s("3600")), 0).unwrap_err();
    assert_eq!(e, "Missing token fields in response");
    let neg = token_from_response(&response(JsonValue::Number(JsonNumber::NegInt(-1))), 0);
    assert!(neg.is_err());
    let partial = obj(vec![("access_token", s("a"))]);
    assert_eq!(token_from_response(&partial, 0).unwrap_err(), "Missing token fields in response");
    assert!(token_from_response(&JsonValue::Null, 0).is_err());
}

#[test]
fn token_response_by_the_clock() {
    let before = now_unix();
    let t = parse_token_response(&response(JsonValue::Number(JsonNumber::PosInt(60)))).unwrap();
    assert!(t.expires_at >= before + 60);
    assert!(parse_token_response(&JsonValue::Null).is_err());
}
