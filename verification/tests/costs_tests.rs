use llm_usage::costs::{
    api_costs_report, api_costs_times, cost_window, extract_amount, format_money,
    month_bounds_utc, parse_datetime, summarize_costs, CostTerm,
};
use llm_usage::json::{JsonNumber, JsonValue};
use llm_usage::time::Instant;

fn obj(pairs: Vec<(&str, JsonValue)>) -> JsonValue {
    JsonValue::Object(pairs.into_iter().map(|(k, v)| (k.to_string(), v)).collect())
}

fn s(x: &str) -> JsonValue {
    JsonValue::Str(x.to_string())
}

fn num(x: f64) -> JsonNumber {
    JsonNumber::Float { bits: x.to_bits(), truncated: x as i64 }
}

fn fv(x: f64) -> JsonValue {
    JsonValue::Number(num(x))
}

fn iv(x: u64) -> JsonValue {
    JsonValue::Number(JsonNumber::PosInt(x))
}

fn at(secs: i64) -> Instant {
    Instant { secs, nanos: 0 }
}

fn float_of(n: &JsonNumber) -> f64 {
    match n {
        JsonNumber::PosInt(u) => *u as f64,
        JsonNumber::NegInt(i) => *i as f64,
        JsonNumber::Float { bits, .. } => f64::from_bits(*bits),
    }
}

#[test]
fn amounts() {
    let (n, c) = extract_amount(&iv(3)).unwrap();
    assert_eq!(float_of(&n), 3.0);
    assert_eq!(c, None);
    let (n, c) = extract_amount(&obj(vec![("value", fv(1.5)), ("currency", s("usd"))])).unwrap();
    assert_eq!(float_of(&n), 1.5);
    assert_eq!(c, Some("usd".to_string()));
    let nested = obj(vec![("amount", obj(vec![("value", iv(2)), ("currency", s("eur"))]))]);
    let (n, c) = extract_amount(&nested).unwrap();
    assert_eq!(float_of(&n), 2.0);
    assert_eq!(c, Some("eur".to_string()));
    let outer = obj(vec![("currency", s("gbp")), ("total_cost", obj(vec![("value", iv(4)), ("currency", s("eur"))]))]);
    let (n, c) = extract_amount(&outer).unwrap();
    assert_eq!(float_of(&n), 4.0);
    assert_eq!(c, Some("gbp".to_string()));
    assert!(extract_amount(&s("1.0")).is_none());
    assert!(extract_amount(&obj(vec![("value", s("1"))])).is_none());
}

#[test]
fn summary_of_buckets() {
    let value = obj(vec![(
        "data",
        JsonValue::Array(vec![
            obj(vec![
                ("total_cost", obj(vec![("value", iv(1)), ("currency", s("usd"))])),
                ("line_items", JsonValue::Array(vec![obj(vec![("name", s("gpt")), ("cost", fv(0.5))])])),
            ]),
            obj(vec![(
                "line_items",
                JsonValue::Array(vec![
                    obj(vec![("type", s("emb")), ("amount", iv(2))]),
                    obj(vec![("cost", iv(1))]),
                    obj(vec![("name", s("gpt")), ("cost", fv(0.25))]),
                    obj(vec![("name", s("none"))]),
                ]),
            )]),
            obj(vec![("amount", fv(0.75))]),
        ]),
    )]);
    let summary = summarize_costs(&value);
    assert_eq!(summary.currency, Some("usd".to_string()));
    let terms = summary.total_terms.unwrap();
    assert_eq!(terms.len(), 3);
    assert!(matches!(&terms[0], CostTerm::Single(n) if float_of(n) == 1.0));
    match &terms[1] {
        CostTerm::Group(g) => {
            let v: Vec<f64> = g.iter().map(float_of).collect();
            assert_eq!(v, vec![2.0, 1.0, 0.25]);
        }
        other => panic!("unexpected {:?}", other),
    }
    assert!(matches!(&terms[2], CostTerm::Single(n) if float_of(n) == 0.75));
    let items: Vec<(String, Vec<f64>)> = summary
        .line_items
        .iter()
        .map(|(k, v)| (k.clone(), v.iter().map(float_of).collect()))
        .collect();
    assert_eq!(
        items,
        vec![
            ("gpt".to_string(), vec![0.5, 0.25]),
            ("emb".to_string(), vec![2.0]),
            ("unknown".to_string(), vec![1.0]),
        ]
    );
}

#[test]
fn summary_without_costs() {
    let summary = summarize_costs(&obj(vec![("data", JsonValue::Array(vec![obj(vec![])]))]));
    assert!(summary.total_terms.is_none());
    assert!(summary.currency.is_none());
    assert!(summary.line_items.is_empty());
    assert!(summarize_costs(&JsonValue::Null).total_terms.is_none());
}

#[test]
fn dates_and_times() {
    assert_eq!(parse_datetime("2024-01-15").unwrap(), at(1705276800));
    assert_eq!(parse_datetime("2024-01-15T10:00:00+02:00").unwrap(), at(1705305600));
    assert_eq!(parse_datetime("garbage").unwrap_err(), "invalid date or time: garbage");
    let times = api_costs_times(at(1705276800), at(1705305600), at(1706745600));
    assert_eq!(times.start, "2024-01-15T00:00:00Z");
    assert_eq!(times.end, "2024-01-15T08:00:00Z");
    assert_eq!(times.reset_time_utc, "2024-02-01T00:00:00Z");
    assert!(!times.reset_time_local.is_empty());
}

#[test]
fn calendar_months() {
    assert_eq!(month_bounds_utc(at(1705305600)), Some((at(1704067200), at(1706745600))));
    assert_eq!(month_bounds_utc(at(1702641600)), Some((at(1701388800), at(1704067200))));
    assert_eq!(month_bounds_utc(at(i64::MAX)), None);
}

#[test]
fn query_windows() {
    let month_start = at(1704067200);
    let now = at(1705305600);
    assert_eq!(cost_window(None, None, month_start, now), Ok((month_start, now)));
    assert_eq!(cost_window(Some("2024-01-02"), None, month_start, now), Ok((at(1704153600), now)));
    assert_eq!(
        cost_window(Some("2024-01-15"), Some("2024-01-01"), month_start, now),
        Err("end time 2024-01-01T00:00:00Z is before start time 2024-01-15T00:00:00Z".to_string())
    );
    assert_eq!(
        cost_window(Some("bad"), Some("worse"), month_start, now),
        Err("invalid date or time: bad".to_string())
    );
    assert_eq!(
        cost_window(None, Some("worse"), month_start, now),
        Err("invalid date or time: worse".to_string())
    );
}

#[test]
fn money() {
    assert_eq!(format_money("1.5000", "USD"), "$1.5000 USD");
    assert_eq!(format_money("1.5000", "eur"), "€1.5000 EUR");
    assert_eq!(format_money("1.5000", "Gbp"), "£1.5000 GBP");
    assert_eq!(format_money("1.5000", "JPY"), "1.5000 jpy");
}

#[test]
fn costs_report() {
    let items = vec![("emb".to_string(), "2.0000".to_string()), ("gpt".to_string(), "0.7500".to_string())];
    let lines = api_costs_report(
        at(1704067200),
        at(1705305600),
        Some("2.7500"),
        Some("USD"),
        &items,
        at(1706745600),
        "local",
    );
    assert_eq!(
        lines,
        vec![
            "OpenAI plan usage (billing)",
            "Query window (UTC): 2024-01-01T00:00:00Z to 2024-01-15T08:00:00Z",
            "Total cost so far: $2.7500 USD",
            "Line items:",
            "- emb: $2.0000 USD",
            "- gpt: $0.7500 USD",
            "Reset time (UTC): 2024-02-01T00:00:00Z",
            "Reset time (local): local",
            "Note: reset time assumes calendar-month billing in UTC.",
        ]
    );
}

#[test]
fn costs_report_without_total() {
    let lines = api_costs_report(at(0), at(0), None, None, &vec![], at(0), "l");
    assert_eq!(lines.len(), 6);
    assert_eq!(lines[2], "Total cost so far: unavailable (use --raw to inspect).");
    assert_eq!(lines[3], "Reset time (UTC): 1970-01-01T00:00:00Z");
}

#[test]
fn local_times_need_room_in_the_calendar() {
    use_inside(at(1706745600), true);
    use_inside(at(8210266876799 - 86400), true);
    use_inside(at(8210266876799 - 86399), false);
    use_inside(at(-8334601228800 + 86400), true);
    use_inside(at(-8334601228800), false);
}

fn use_inside(t: Instant, expected: bool) {
    assert_eq!(llm_usage::time::is_inside_calendar_by_a_day(t), expected);
}
