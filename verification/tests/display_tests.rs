use llm_usage::display::{
    format_elapsed_percent, format_status_limit_summary, format_used_percent, kimi_rows_to_json,
    print_kimi_usage_summary, render_bar, render_kimi_lines, render_status_limit_progress_bar,
    render_week_line, render_week_progress_bar, Gauge, RowGauges,
};
use llm_usage::kimi::UsageRow;
use llm_usage::time::Instant;

fn row(label: &str, hint: Option<&str>, reset_at: Option<Instant>) -> UsageRow {
    UsageRow {
        label: label.to_string(),
        used: 0,
        limit: 0,
        reset_hint: hint.map(|h| h.to_string()),
        reset_at,
    }
}

fn gauges(used: (i64, u64), week: (i64, u64)) -> RowGauges {
    RowGauges {
        used: Gauge { rounded: used.0, filled: used.1 },
        week: Gauge { rounded: week.0, filled: week.1 },
    }
}

#[test]
fn bars() {
    assert_eq!(
        render_status_limit_progress_bar(Gauge { rounded: 10, filled: 2 }),
        "[██░░░░░░░░░░░░░░░░░░]"
    );
    assert_eq!(
        render_week_progress_bar(Gauge { rounded: 25, filled: 5 }),
        "[-----               ]"
    );
    assert_eq!(render_bar(0, '#', '.'), "[....................]");
    assert_eq!(render_bar(25, '#', '.'), "[####################]");
}

#[test]
fn percentages() {
    assert_eq!(format_used_percent(10), " 10% used");
    assert_eq!(format_used_percent(0), "  0% used");
    assert_eq!(format_used_percent(100), "100% used");
    assert_eq!(format_status_limit_summary(7), "  7% used");
    assert_eq!(format_elapsed_percent(25), " 25% elapsed");
}

#[test]
fn week_line() {
    assert_eq!(
        render_week_line(Gauge { rounded: 50, filled: 10 }, 13),
        "Week progress: [----------          ]  50% elapsed"
    );
}

#[test]
fn kimi_summary_as_documented() {
    let rows = vec![
        (row("Limit #1", None, None), gauges((10, 2), (0, 0))),
        (row("Weekly limit", None, None), gauges((20, 4), (25, 5))),
    ];
    let suffixes = vec![
        " (resets 05:37 on Sun Mar 8)".to_string(),
        " (resets 19:37 on Sat Mar 14)".to_string(),
    ];
    let lines = render_kimi_lines(&rows, &suffixes);
    assert_eq!(
        lines,
        vec![
            "Limit #1     : [██░░░░░░░░░░░░░░░░░░]  10% used (resets 05:37 on Sun Mar 8)",
            "Weekly limit : [████░░░░░░░░░░░░░░░░]  20% used (resets 19:37 on Sat Mar 14)",
            "Week progress: [-----               ]  25% elapsed",
        ]
    );
}

#[test]
fn kimi_summary_widens_for_long_labels() {
    let rows = vec![(row("A very long label", None, None), gauges((0, 0), (0, 0)))];
    let lines = render_kimi_lines(&rows, &vec![String::new()]);
    assert_eq!(lines, vec!["A very long label: [░░░░░░░░░░░░░░░░░░░░]   0% used"]);
}

#[test]
fn kimi_summary_without_rows() {
    assert_eq!(render_kimi_lines(&vec![], &vec![]), vec!["No usage data available."]);
    assert_eq!(print_kimi_usage_summary(&vec![]), vec!["No usage data available."]);
}

#[test]
fn kimi_summary_with_hints() {
    let rows = vec![(row("Requests", Some("resets at noon"), None), gauges((50, 10), (0, 0)))];
    assert_eq!(
        print_kimi_usage_summary(&rows),
        vec!["Requests     : [██████████░░░░░░░░░░]  50% used (resets at noon)"]
    );
}

#[test]
fn kimi_summary_with_instants() {
    let rows = vec![(
        row("Weekly limit", None, Some(Instant { secs: 1_700_000_000, nanos: 0 })),
        gauges((20, 4), (25, 5)),
    )];
    let lines = print_kimi_usage_summary(&rows);
    assert_eq!(lines.len(), 2);
    assert!(lines[0].starts_with("Weekly limit : [████░░░░░░░░░░░░░░░░]  20% used (resets "));
    assert!(lines[0].ends_with(")"));
    assert_eq!(lines[1], "Week progress: [-----               ]  25% elapsed");
}

#[test]
fn kimi_rows_as_json() {
    let rows = vec![
        (row("Limit #1", Some("resets at noon"), None), gauges((10, 2), (0, 0))),
        (
            row("Weekly limit", None, Some(Instant { secs: 1_700_000_000, nanos: 0 })),
            gauges((20, 4), (25, 5)),
        ),
    ];
    let json = kimi_rows_to_json(&rows);
    assert_eq!(json.len(), 2);
    assert_eq!(json[0].label, "Limit #1");
    assert_eq!(json[0].percent_used, Some(10));
    assert_eq!(json[0].reset_at, None);
    assert_eq!(json[0].reset_display, Some("resets at noon".to_string()));
    assert_eq!(json[0].week_progress_percent, None);
    assert_eq!(json[0].text, None);
    assert_eq!(json[1].percent_used, Some(20));
    assert_eq!(json[1].week_progress_percent, Some(25));
    assert!(json[1].reset_at.is_some());
    assert!(json[1].reset_display.as_ref().unwrap().starts_with("resets "));
}
