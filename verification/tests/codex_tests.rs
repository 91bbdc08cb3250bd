use llm_usage::codex::{
    build_codex_usage_json, codex_window_to_component, compose_rate_limit_rows,
    credit_status_row, format_credit_balance, format_limit_label, get_limits_duration, is_stale,
    render_rate_limit_lines, snapshot_from_details, snapshots_from_payload, window_display,
    AdditionalRateLimitDetails, CreditStatusDetails, CreditsSnapshotDisplay,
    RateLimitSnapshotDisplay, RateLimitStatusDetails, RateLimitStatusPayload,
    RateLimitWindowDisplay, RateLimitWindowSnapshot, StatusRateLimitValue,
};
use llm_usage::display::Gauge;
use llm_usage::time::Instant;

fn g(rounded: i64, filled: u64) -> Gauge {
    Gauge { rounded, filled }
}

fn captured() -> Instant {
    Instant { secs: 1_700_000_000, nanos: 0 }
}

fn display(used: Gauge, week: Gauge, resets: Option<&str>, minutes: Option<i64>) -> RateLimitWindowDisplay {
    RateLimitWindowDisplay {
        used,
        week,
        resets_at: resets.map(|s| s.to_string()),
        reset_at: resets.map(|_| Instant { secs: 1_700_003_600, nanos: 0 }),
        window_minutes: minutes,
    }
}

fn snapshot(
    name: &str,
    primary: Option<RateLimitWindowDisplay>,
    secondary: Option<RateLimitWindowDisplay>,
    credits: Option<CreditsSnapshotDisplay>,
) -> RateLimitSnapshotDisplay {
    RateLimitSnapshotDisplay {
        limit_name: name.to_string(),
        captured_at: captured(),
        primary,
        secondary,
        credits,
    }
}

fn window(seconds: Option<i64>, reset_at: Option<i64>, used: Gauge, week: Gauge) -> RateLimitWindowSnapshot {
    RateLimitWindowSnapshot { used, week, limit_window_seconds: seconds, reset_at }
}

#[test]
fn window_lengths() {
    assert_eq!(get_limits_duration(300), "5h");
    assert_eq!(get_limits_duration(0), "1h");
    assert_eq!(get_limits_duration(-5), "1h");
    assert_eq!(get_limits_duration(57), "1h");
    assert_eq!(get_limits_duration(117), "2h");
    assert_eq!(get_limits_duration(1443), "24h");
    assert_eq!(get_limits_duration(1444), "weekly");
    assert_eq!(get_limits_duration(10080), "weekly");
    assert_eq!(get_limits_duration(10083), "weekly");
    assert_eq!(get_limits_duration(10084), "monthly");
    assert_eq!(get_limits_duration(43200), "monthly");
    assert_eq!(get_limits_duration(43204), "annual");
    assert_eq!(get_limits_duration(i64::MAX), "annual");
}

#[test]
fn limit_labels() {
    assert_eq!(format_limit_label("weekly".to_string()), "Weekly");
    assert_eq!(format_limit_label("monthly".to_string()), "Monthly");
    assert_eq!(format_limit_label("annual".to_string()), "Annual");
    assert_eq!(format_limit_label("5h".to_string()), "5h");
    assert_eq!(format_limit_label("Weekly".to_string()), "Weekly");
}

#[test]
fn credit_balances() {
    assert_eq!(format_credit_balance(" 42 ", None), Some("42".to_string()));
    assert_eq!(format_credit_balance("+42", None), Some("42".to_string()));
    assert_eq!(format_credit_balance("0", None), None);
    assert_eq!(format_credit_balance("-5", None), None);
    assert_eq!(format_credit_balance("   ", Some(3)), None);
    assert_eq!(format_credit_balance("12.6", Some(13)), Some("13".to_string()));
    assert_eq!(format_credit_balance("abc", None), None);
    for n in [1i64, 7, 1000, i64::MAX] {
        assert_eq!(format_credit_balance(&n.to_string(), Some(0)), Some(n.to_string()));
    }
}

#[test]
fn credit_rows() {
    let c = |has: bool, unlimited: bool, balance: Option<&str>, decimal: Option<i64>| {
        CreditsSnapshotDisplay {
            has_credits: has,
            unlimited,
            balance: balance.map(|b| b.to_string()),
            balance_decimal: decimal,
        }
    };
    assert!(credit_status_row(&c(false, true, Some("5"), None)).is_none());
    let row = credit_status_row(&c(true, true, None, None)).unwrap();
    assert_eq!(row.label, "Credits");
    assert!(matches!(row.value, StatusRateLimitValue::Text(ref t) if t == "Unlimited"));
    let row = credit_status_row(&c(true, false, Some("42"), None)).unwrap();
    assert!(matches!(row.value, StatusRateLimitValue::Text(ref t) if t == "42 credits"));
    assert!(credit_status_row(&c(true, false, None, None)).is_none());
    assert!(credit_status_row(&c(true, false, Some("0"), None)).is_none());
}

#[test]
fn codex_lines_as_documented() {
    let snapshots = vec![snapshot(
        "codex",
        Some(display(g(30, 6), g(0, 0), Some("22:26 on Sat Mar 14"), Some(300))),
        Some(display(g(40, 8), g(50, 10), Some("18:26 on Sat Mar 14"), Some(10080))),
        None,
    )];
    assert_eq!(
        render_rate_limit_lines(&snapshots),
        vec![
            "5h limit     : [██████░░░░░░░░░░░░░░]  30% used (resets 22:26 on Sat Mar 14)",
            "Weekly limit : [████████░░░░░░░░░░░░]  40% used (resets 18:26 on Sat Mar 14)",
            "Week progress: [----------          ]  50% elapsed",
        ]
    );
}

#[test]
fn codex_lines_without_data() {
    assert_eq!(render_rate_limit_lines(&vec![]), vec!["Limits       : data not available yet"]);
    let rows = compose_rate_limit_rows(&vec![snapshot("codex", None, None, None)]);
    assert_eq!(rows.len(), 1);
    assert_eq!(rows[0].label, "Limits");
}

#[test]
fn codex_rows_of_other_limits() {
    let single = snapshot("gpt-x", Some(display(g(1, 0), g(0, 0), None, None)), None, None);
    let double = snapshot(
        "other",
        Some(display(g(1, 0), g(0, 0), None, Some(60))),
        Some(display(g(2, 0), g(0, 0), None, None)),
        None,
    );
    let rows = compose_rate_limit_rows(&vec![single, double]);
    let labels: Vec<&str> = rows.iter().map(|r| r.label.as_str()).collect();
    assert_eq!(labels, vec!["gpt-x 5h limit", "other limit", "1h limit", "Weekly limit"]);
    assert!(matches!(rows[1].value, StatusRateLimitValue::Text(ref t) if t.is_empty()));
}

#[test]
fn codex_lines_with_credits_and_no_reset() {
    let credits = CreditsSnapshotDisplay {
        has_credits: true,
        unlimited: false,
        balance: Some("120".to_string()),
        balance_decimal: Some(120),
    };
    let snapshots = vec![snapshot(
        "CODEX",
        Some(display(g(100, 20), g(0, 0), None, None)),
        None,
        Some(credits),
    )];
    assert_eq!(
        render_rate_limit_lines(&snapshots),
        vec![
            "5h limit     : [████████████████████] 100% used",
            "Credits      : 120 credits",
        ]
    );
}

#[test]
fn window_displays() {
    let w = window(Some(18000), Some(1_700_003_600), g(30, 6), g(1, 1));
    let d = window_display(&w);
    assert_eq!(d.window_minutes, Some(300));
    assert_eq!(d.reset_at, Some(Instant { secs: 1_700_003_600, nanos: 0 }));
    assert!(d.resets_at.is_some());
    assert_eq!(d.used.rounded, 30);
    let w = window(Some(0), Some(i64::MAX), g(0, 0), g(0, 0));
    let d = window_display(&w);
    assert_eq!(d.window_minutes, None);
    assert_eq!(d.reset_at, None);
    assert!(d.resets_at.is_none());
    let w = window(Some(59), None, g(0, 0), g(0, 0));
    assert_eq!(window_display(&w).window_minutes, Some(0));
}

#[test]
fn snapshots_of_a_reply() {
    let details = RateLimitStatusDetails {
        primary_window: Some(window(Some(18000), None, g(30, 6), g(0, 0))),
        secondary_window: None,
    };
    let s = snapshot_from_details("n".to_string(), &details, None, captured());
    assert_eq!(s.limit_name, "n");
    assert_eq!(s.captured_at, captured());
    assert!(s.primary.is_some());
    assert!(s.secondary.is_none());
    let payload = RateLimitStatusPayload {
        plan_type: Some("plus".to_string()),
        rate_limit: Some(details),
        credits: Some(CreditStatusDetails {
            has_credits: true,
            unlimited: false,
            balance: Some("7".to_string()),
            balance_decimal: Some(7),
        }),
        additional_rate_limits: Some(vec![
            AdditionalRateLimitDetails { limit_name: "skip".to_string(), rate_limit: None },
            AdditionalRateLimitDetails {
                limit_name: "gpt-x".to_string(),
                rate_limit: Some(RateLimitStatusDetails { primary_window: None, secondary_window: None }),
            },
        ]),
    };
    let snaps = snapshots_from_payload(&payload, captured());
    assert_eq!(snaps.len(), 2);
    assert_eq!(snaps[0].limit_name, "codex");
    assert_eq!(snaps[0].credits.as_ref().unwrap().balance, Some("7".to_string()));
    assert_eq!(snaps[1].limit_name, "gpt-x");
    assert!(snaps[1].credits.is_none());
}

#[test]
fn staleness() {
    let s = vec![snapshot("codex", None, None, None)];
    assert!(!is_stale(&s, captured()));
    assert!(!is_stale(&s, Instant { secs: 1_700_000_900, nanos: 0 }));
    assert!(is_stale(&s, Instant { secs: 1_700_000_900, nanos: 1 }));
    assert!(!is_stale(&vec![], Instant { secs: i64::MAX, nanos: 0 }));
}

#[test]
fn json_components() {
    let w = display(g(40, 8), g(50, 10), Some("x"), Some(10080));
    let c = codex_window_to_component("weekly", &w);
    assert_eq!(c.limit, "weekly");
    assert_eq!(c.percent_used, Some(40));
    assert_eq!(c.week_progress_percent, Some(50));
    assert!(c.reset_at.is_some());
    let c = codex_window_to_component("5h", &display(g(3, 0), g(9, 0), None, None));
    assert_eq!(c.week_progress_percent, None);
    assert!(c.reset_at.is_none());
}

#[test]
fn json_summary() {
    let payload = RateLimitStatusPayload {
        plan_type: Some("plus".to_string()),
        rate_limit: Some(RateLimitStatusDetails {
            primary_window: Some(window(Some(18000), Some(1_700_003_600), g(30, 6), g(0, 0))),
            secondary_window: Some(window(Some(604800), None, g(40, 8), g(50, 10))),
        }),
        credits: None,
        additional_rate_limits: Some(vec![
            AdditionalRateLimitDetails {
                limit_name: "gpt-x".to_string(),
                rate_limit: Some(RateLimitStatusDetails {
                    primary_window: Some(window(None, None, g(5, 1), g(0, 0))),
                    secondary_window: Some(window(Some(18000), None, g(6, 1), g(0, 0))),
                }),
            },
            AdditionalRateLimitDetails {
                limit_name: "empty".to_string(),
                rate_limit: Some(RateLimitStatusDetails { primary_window: None, secondary_window: None }),
            },
        ]),
    };
    let j = build_codex_usage_json(&payload, captured());
    assert_eq!(j.plan, Some("plus".to_string()));
    assert!(!j.stale);
    assert_eq!(j.components.len(), 2);
    assert_eq!(j.components[0].0, "plus");
    let plus = &j.components[0].1;
    assert_eq!(plus.len(), 2);
    assert_eq!(plus[0].0, "5h");
    assert_eq!(plus[0].1.percent_used, Some(30));
    assert!(plus[0].1.reset_at.is_some());
    assert_eq!(plus[1].0, "weekly");
    assert_eq!(plus[1].1.week_progress_percent, Some(50));
    assert_eq!(j.components[1].0, "gpt-x");
    let gx = &j.components[1].1;
    assert_eq!(gx.len(), 1);
    assert_eq!(gx[0].0, "5h");
    assert_eq!(gx[0].1.percent_used, Some(6));
}

#[test]
fn reset_times_within_the_calendar() {
    let reset = |secs: i64| window_display(&window(None, Some(secs), g(0, 0), g(0, 0))).reset_at;
    assert_eq!(reset(8210266876799), Some(Instant { secs: 8210266876799, nanos: 0 }));
    assert_eq!(reset(8210266876800), None);
    assert_eq!(reset(-8334601228800), Some(Instant { secs: -8334601228800, nanos: 0 }));
    assert_eq!(reset(-8334601228801), None);
}

#[test]
fn window_names_grow_with_length() {
    let rank = |name: &str| match name {
        "weekly" => 1,
        "monthly" => 2,
        "annual" => 3,
        _ => 0,
    };
    let hours = |name: &str| name.trim_end_matches('h').parse::<i64>().unwrap();
    let mut previous = get_limits_duration(-10);
    for m in [0i64, 57, 60, 117, 300, 1440, 1443, 1444, 10083, 10084, 43203, 43204, i64::MAX] {
        let name = get_limits_duration(m);
        assert!(rank(&previous) <= rank(&name));
        if rank(&name) == 0 {
            assert!(hours(&previous) <= hours(&name));
        }
        previous = name;
    }
}

#[test]
fn reset_texts_name_the_reset_instant() {
    let w = window(Some(18000), Some(1_700_003_600), g(30, 6), g(1, 1));
    let d = window_display(&w);
    let text = d.resets_at.clone().unwrap();
    let parts: Vec<&str> = text.split(' ').collect();
    assert_eq!(parts.len(), 5);
    assert_eq!(parts[1], "on");
    assert_eq!(parts[0].len(), 5);
    assert_eq!(&parts[0][2..3], ":");
    assert_eq!(parts[3], "Nov");
    let c = codex_window_to_component("5h", &d);
    assert_eq!(c.reset_instant, Some(Instant { secs: 1_700_003_600, nanos: 0 }));
    assert!(c.reset_at.unwrap().starts_with("2023-11-1"));
}
