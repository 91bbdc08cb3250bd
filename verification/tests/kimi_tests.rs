use llm_usage::json::{JsonNumber, JsonValue};
use llm_usage::kimi::{
    collect_kimi_rows, extract_limit_row, format_kimi_reset, format_kimi_reset_text,
    is_weekly_label, parse_epoch, parse_reset_value, reset_at_timestamp, reset_hint,
    reset_suffix_of, reset_text_from_parts, to_i64, to_usage_row,
};
use llm_usage::time::Instant;

fn entries(pairs: Vec<(&str, JsonValue)>) -> Vec<(String, JsonValue)> {
    pairs.into_iter().map(|(k, v)| (k.to_string(), v)).collect()
}

fn obj(pairs: Vec<(&str, JsonValue)>) -> JsonValue {
    JsonValue::Object(entries(pairs))
}

fn s(x: &str) -> JsonValue {
    JsonValue::Str(x.to_string())
}

fn n(x: u64) -> JsonValue {
    JsonValue::Number(JsonNumber::PosInt(x))
}

fn at(secs: i64) -> Option<Instant> {
    Some(Instant { secs, nanos: 0 })
}

#[test]
fn rows_of_a_usage_reply() {
    let payload = obj(vec![
        (
            "limits",
            JsonValue::Array(vec![
                obj(vec![(
                    "detail",
                    obj(vec![
                        ("limit", n(100)),
                        ("used", n(10)),
                        ("reset_at", s("2026-03-08T05:37:00Z")),
                    ]),
                )]),
                obj(vec![("name", s("Requests")), ("limit", n(100)), ("remaining", n(30))]),
                s("not an entry"),
                obj(vec![("title", s("Empty"))]),
            ]),
        ),
        ("usage", obj(vec![("limit", s("200")), ("used", s("40"))])),
    ]);
    let rows = collect_kimi_rows(&payload);
    assert_eq!(rows.len(), 3);
    assert_eq!(rows[0].label, "Limit #1");
    assert_eq!(rows[0].used, 10);
    assert_eq!(rows[0].limit, 100);
    assert_eq!(rows[0].reset_at, at(1772948220));
    assert_eq!(rows[0].reset_hint, Some("resets at 2026-03-08T05:37:00Z".to_string()));
    assert_eq!(rows[1].label, "Requests");
    assert_eq!(rows[1].used, 70);
    assert_eq!(rows[1].limit, 100);
    assert_eq!(rows[1].reset_at, None);
    assert_eq!(rows[2].label, "Weekly limit");
    assert_eq!(rows[2].used, 40);
    assert_eq!(rows[2].limit, 200);
}

#[test]
fn rows_of_an_empty_reply() {
    assert!(collect_kimi_rows(&obj(vec![])).is_empty());
    assert!(collect_kimi_rows(&JsonValue::Null).is_empty());
    let odd = obj(vec![("limits", s("x")), ("usage", JsonValue::Array(vec![]))]);
    assert!(collect_kimi_rows(&odd).is_empty());
}

#[test]
fn limit_entry_labels() {
    let item = obj(vec![
        ("title", s("Outer title")),
        ("detail", obj(vec![("name", s("Inner name")), ("limit", n(5))])),
    ]);
    let row = extract_limit_row(&item, 0).unwrap();
    assert_eq!(row.label, "Inner name");
    assert_eq!(row.used, 0);
    assert_eq!(row.limit, 5);
    let numbered = obj(vec![("used", n(1)), ("name", n(3))]);
    assert_eq!(extract_limit_row(&numbered, 6).unwrap().label, "Limit #7");
    assert!(extract_limit_row(&JsonValue::Bool(true), 0).is_none());
    assert!(extract_limit_row(&obj(vec![("name", s("x"))]), 0).is_none());
}

#[test]
fn usage_row_label_and_default() {
    let data = entries(vec![("title", s("T")), ("used", n(2))]);
    assert_eq!(to_usage_row(&data, "Default").unwrap().label, "T");
    let data = entries(vec![("name", n(1)), ("title", s("T")), ("used", n(2))]);
    assert_eq!(to_usage_row(&data, "Default").unwrap().label, "Default");
    assert!(to_usage_row(&entries(vec![("remaining", n(2))]), "D").is_none());
}

#[test]
fn integers_from_json() {
    assert_eq!(to_i64(Some(&n(5))), Some(5));
    assert_eq!(to_i64(Some(&JsonValue::Number(JsonNumber::NegInt(-3)))), Some(-3));
    assert_eq!(to_i64(Some(&n(u64::MAX))), Some(i64::MAX));
    let f = JsonValue::Number(JsonNumber::Float { bits: 3.7f64.to_bits(), truncated: 3 });
    assert_eq!(to_i64(Some(&f)), Some(3));
    assert_eq!(to_i64(Some(&s("12"))), Some(12));
    assert_eq!(to_i64(Some(&s(" 12"))), None);
    assert_eq!(to_i64(Some(&JsonValue::Bool(true))), None);
    assert_eq!(to_i64(None), None);
}

#[test]
fn epochs_in_seconds_or_milliseconds() {
    assert_eq!(parse_epoch(1_700_000_000), at(1_700_000_000));
    assert_eq!(parse_epoch(1_700_000_000_123), at(1_700_000_000));
    assert_eq!(parse_epoch(-1_700_000_000_999), at(-1_700_000_000));
    assert_eq!(parse_epoch(1_000_000_000_000), at(1_000_000_000_000));
}

#[test]
fn epochs_out_of_range() {
    assert_eq!(parse_epoch(i64::MAX), None);
    assert_eq!(parse_epoch(i64::MIN), None);
}

#[test]
fn reset_values() {
    assert_eq!(parse_reset_value(&s("2026-03-08T05:37:00Z")), at(1772948220));
    assert_eq!(parse_reset_value(&s(" 1700000000 ")), at(1_700_000_000));
    assert_eq!(parse_reset_value(&n(1_700_000_000)), at(1_700_000_000));
    assert_eq!(parse_reset_value(&s("soon")), None);
    assert_eq!(parse_reset_value(&JsonValue::Null), None);
}

#[test]
fn reset_keys_in_order() {
    let data = entries(vec![("resetTime", s("later")), ("resetAt", n(1_700_000_000))]);
    assert_eq!(reset_hint(&data), Some("resets at later".to_string()));
    assert_eq!(reset_at_timestamp(&data), at(1_700_000_000));
    let none = entries(vec![("reset", s("x"))]);
    assert_eq!(reset_hint(&none), None);
    assert_eq!(reset_at_timestamp(&none), None);
}

#[test]
fn weekly_labels() {
    assert!(is_weekly_label("Weekly limit"));
    assert!(is_weekly_label("THIS WEEK"));
    assert!(!is_weekly_label("5h limit"));
    assert!(!is_weekly_label("Wee k"));
}

#[test]
fn reset_texts() {
    let hint = "resets at tomorrow".to_string();
    assert_eq!(format_kimi_reset_text(None, Some(&hint)), Some(hint.clone()));
    assert_eq!(format_kimi_reset_text(None, None), None);
    assert_eq!(format_kimi_reset(None, Some(&hint)), " (resets at tomorrow)");
    assert_eq!(format_kimi_reset(None, None), "");
    let t = format_kimi_reset_text(at(1_700_000_000), Some(&hint)).unwrap();
    assert!(t.starts_with("resets "));
    assert!(t.contains(" on "));
    assert_eq!(
        reset_text_from_parts(Some(("05:37", "Sun Mar 8")), None),
        Some("resets 05:37 on Sun Mar 8".to_string())
    );
    assert_eq!(reset_suffix_of(Some("x")), " (x)");
    assert_eq!(reset_suffix_of(None), "");
}
