//! Codex rate limits: the ChatGPT backend's reply, the rows shown for it, and
//! its JSON summary.
use vstd::prelude::*;
use crate::text::{
    trim, trim_seq, parse_i64, parse_i64_seq, i64_to_string, int_decimal, str_eq,
    eq_ignore_ascii_case, eq_ignore_ascii_case_seq, push_str, to_owned_string, pad_end,
    pad_end_seq, to_lowercase, lowercase_of, lemma_decimal_trimmed, lemma_decimal_roundtrip,
};
use crate::display::{
    Gauge, bar_seq, used_percent_seq, week_line, render_status_limit_progress_bar,
    format_status_limit_summary, render_week_line, label_width, strings_view,
};
use crate::kimi::{spec_is_weekly_label, is_weekly_label};
use crate::time::{
    Instant, utc_from_timestamp, timestamp_in_range, local_rfc3339, local_rfc3339_of, offset_ok,
    strftime_text,
};
use crate::assoc::{alist_put, distinct_keys, lemma_put_distinct};

verus! {

// ---------------------------------------------------------------------------
// The backend's reply
// ---------------------------------------------------------------------------

/// One rate-limit window. `used` measures `used_percent`; `week` measures how
/// much of the week ending at the reset time (or of the current calendar week
/// when there is none) has elapsed at the time the reply was captured.
#[derive(Debug, Clone, Copy)]
pub struct RateLimitWindowSnapshot {
    pub used: Gauge,
    pub week: Gauge,
    pub limit_window_seconds: Option<i64>,
    pub reset_at: Option<i64>,
}

#[derive(Debug, Clone, Copy)]
pub struct RateLimitStatusDetails {
    pub primary_window: Option<RateLimitWindowSnapshot>,
    pub secondary_window: Option<RateLimitWindowSnapshot>,
}

#[derive(Debug)]
pub struct AdditionalRateLimitDetails {
    pub limit_name: String,
    pub rate_limit: Option<RateLimitStatusDetails>,
}

/// Credits. `balance_decimal` is the balance text, trimmed, read as a decimal
/// number and rounded, when that number is positive.
#[derive(Debug)]
pub struct CreditStatusDetails {
    pub has_credits: bool,
    pub unlimited: bool,
    pub balance: Option<String>,
    pub balance_decimal: Option<i64>,
}

#[derive(Debug)]
pub struct RateLimitStatusPayload {
    pub plan_type: Option<String>,
    pub rate_limit: Option<RateLimitStatusDetails>,
    pub credits: Option<CreditStatusDetails>,
    pub additional_rate_limits: Option<Vec<AdditionalRateLimitDetails>>,
}

// ---------------------------------------------------------------------------
// Snapshots
// ---------------------------------------------------------------------------

#[derive(Debug)]
pub struct RateLimitWindowDisplay {
    pub used: Gauge,
    pub week: Gauge,
    /// The reset time as shown (local clock time and day).
    pub resets_at: Option<String>,
    pub reset_at: Option<Instant>,
    pub window_minutes: Option<i64>,
}

#[derive(Debug)]
pub struct CreditsSnapshotDisplay {
    pub has_credits: bool,
    pub unlimited: bool,
    pub balance: Option<String>,
    pub balance_decimal: Option<i64>,
}

#[derive(Debug)]
pub struct RateLimitSnapshotDisplay {
    pub limit_name: String,
    pub captured_at: Instant,
    pub primary: Option<RateLimitWindowDisplay>,
    pub secondary: Option<RateLimitWindowDisplay>,
    pub credits: Option<CreditsSnapshotDisplay>,
}

pub open spec fn opt_seq(o: Option<String>) -> Option<Seq<char>> {
    match o {
        Some(s) => Some(s@),
        None => None,
    }
}

/// The reset instant of a window: its reset time in seconds, when chrono can
/// represent it.
pub open spec fn window_reset_instant(w: RateLimitWindowSnapshot) -> Option<Instant> {
    match w.reset_at {
        Some(s) => if timestamp_in_range(s) {
            Some(Instant { secs: s, nanos: 0 })
        } else {
            None
        },
        None => None,
    }
}

/// The window length in whole minutes, when positive.
pub open spec fn window_minutes_of(w: RateLimitWindowSnapshot) -> Option<i64> {
    match w.limit_window_seconds {
        Some(s) => if s > 0 {
            Some((s / 60) as i64)
        } else {
            None
        },
        None => None,
    }
}

/// The reset time of an instant as shown: `%H:%M on %a %b %-d`, formatted
/// with `DateTime::<Local>::format`, together with the UTC offset it was
/// written at (zero when chrono cannot represent the instant). Which offset
/// that is, is not stated: it is the local time zone's at that instant.
#[verifier::external_body]
pub(crate) fn format_reset_timestamp(t: Instant) -> (r: (String, i32))
    ensures
        r.0@ == strftime_text(t.secs, t.nanos, r.1, "%H:%M on %a %b %-d"@),
        offset_ok(r.1),
{
    match chrono::DateTime::<chrono::Utc>::from_timestamp(t.secs, t.nanos) {
        Some(d) => {
            let l = d.with_timezone(&chrono::Local);
            (l.format("%H:%M on %a %b %-d").to_string(), chrono::Offset::fix(l.offset()).local_minus_utc())
        },
        None => (String::new(), 0),
    }
}

/// `text` is the reset time shown for the instant `reset_at` (`%H:%M on %a %b
/// %-d` at some UTC offset, the local time zone's at that instant), and is
/// present exactly when there is an instant.
pub open spec fn reset_clock_text_of(reset_at: Option<Instant>, text: Option<Seq<char>>) -> bool {
    match reset_at {
        Some(t) => exists|off: i32|
            offset_ok(off) && text == Some(
                #[trigger] strftime_text(t.secs, t.nanos, off, "%H:%M on %a %b %-d"@),
            ),
        None => text.is_none(),
    }
}

pub fn window_display(window: &RateLimitWindowSnapshot) -> (r: RateLimitWindowDisplay)
    ensures
        r.used == window.used,
        r.week == window.week,
        r.reset_at == window_reset_instant(*window),
        reset_clock_text_of(r.reset_at, opt_seq(r.resets_at)),
        r.window_minutes == window_minutes_of(*window),
{
    let reset_at = match window.reset_at {
        Some(s) => utc_from_timestamp(s),
        None => None,
    };
    let resets_at = match reset_at {
        Some(t) => {
            let (text, offset) = format_reset_timestamp(t);
            Some(text)
        },
        None => None,
    };
    let window_minutes = match window.limit_window_seconds {
        Some(s) => if s > 0 {
            Some(s / 60)
        } else {
            None
        },
        None => None,
    };
    RateLimitWindowDisplay {
        used: window.used,
        week: window.week,
        resets_at,
        reset_at,
        window_minutes,
    }
}

/// A window display holds what `window_display` makes of the snapshot.
pub open spec fn window_shows(d: RateLimitWindowDisplay, w: RateLimitWindowSnapshot) -> bool {
    &&& d.used == w.used
    &&& d.week == w.week
    &&& d.reset_at == window_reset_instant(w)
    &&& reset_clock_text_of(d.reset_at, opt_seq(d.resets_at))
    &&& d.window_minutes == window_minutes_of(w)
}

pub open spec fn opt_window_shows(
    d: Option<RateLimitWindowDisplay>,
    w: Option<RateLimitWindowSnapshot>,
) -> bool {
    match (d, w) {
        (Some(d), Some(w)) => window_shows(d, w),
        (None, None) => true,
        _ => false,
    }
}

/// A snapshot display holds the named limit's windows, the credits given, and
/// the capture time.
pub open spec fn snapshot_shows(
    s: RateLimitSnapshotDisplay,
    name: Seq<char>,
    details: RateLimitStatusDetails,
    credits: Option<CreditStatusDetails>,
    captured_at: Instant,
) -> bool {
    &&& s.limit_name@ == name
    &&& s.captured_at == captured_at
    &&& opt_window_shows(s.primary, details.primary_window)
    &&& opt_window_shows(s.secondary, details.secondary_window)
    &&& match (s.credits, credits) {
        (Some(c), Some(d)) => c.has_credits == d.has_credits && c.unlimited == d.unlimited
            && opt_seq(c.balance) == opt_seq(d.balance) && c.balance_decimal == d.balance_decimal,
        (None, None) => true,
        _ => false,
    }
}

fn window_display_opt(w: &Option<RateLimitWindowSnapshot>) -> (r: Option<RateLimitWindowDisplay>)
    ensures
        opt_window_shows(r, *w),
{
    match w {
        Some(w) => Some(window_display(w)),
        None => None,
    }
}

pub fn snapshot_from_details(
    limit_name: String,
    details: &RateLimitStatusDetails,
    credits: Option<CreditsSnapshotDisplay>,
    captured_at: Instant,
) -> (r: RateLimitSnapshotDisplay)
    ensures
        r.limit_name@ == limit_name@,
        r.captured_at == captured_at,
        opt_window_shows(r.primary, details.primary_window),
        opt_window_shows(r.secondary, details.secondary_window),
        r.credits == credits,
{
    RateLimitSnapshotDisplay {
        limit_name,
        captured_at,
        primary: window_display_opt(&details.primary_window),
        secondary: window_display_opt(&details.secondary_window),
        credits,
    }
}

/// The limits that a reply reports, in order: the main (`codex`) limit with
/// the credits, then each additional limit that has details.
pub open spec fn spec_snapshot_sources(p: RateLimitStatusPayload) -> Seq<
    (Seq<char>, RateLimitStatusDetails, Option<CreditStatusDetails>),
> {
    let main = match p.rate_limit {
        Some(d) => seq![("codex"@, d, p.credits)],
        None => Seq::empty(),
    };
    let extra = match p.additional_rate_limits {
        Some(v) => additional_sources(v@),
        None => Seq::empty(),
    };
    main + extra
}

pub open spec fn additional_sources(v: Seq<AdditionalRateLimitDetails>) -> Seq<
    (Seq<char>, RateLimitStatusDetails, Option<CreditStatusDetails>),
>
    decreases v.len(),
{
    if v.len() == 0 {
        Seq::empty()
    } else {
        let prev = additional_sources(v.drop_last());
        match v.last().rate_limit {
            Some(d) => prev.push((v.last().limit_name@, d, None)),
            None => prev,
        }
    }
}

pub fn snapshots_from_payload(payload: &RateLimitStatusPayload, captured_at: Instant) -> (r: Vec<
    RateLimitSnapshotDisplay,
>)
    ensures
        r@.len() == spec_snapshot_sources(*payload).len(),
        forall|i: int|
            0 <= i < r@.len() ==> {
                let src = spec_snapshot_sources(*payload)[i];
                snapshot_shows(#[trigger] r@[i], src.0, src.1, src.2, captured_at)
            },
{
    let mut snapshots: Vec<RateLimitSnapshotDisplay> = Vec::new();
    let ghost main: Seq<(Seq<char>, RateLimitStatusDetails, Option<CreditStatusDetails>)> =
        match payload.rate_limit {
        Some(d) => seq![("codex"@, d, payload.credits)],
        None => Seq::empty(),
    };
    if let Some(details) = &payload.rate_limit {
        let credits = match &payload.credits {
            Some(c) => Some(
                CreditsSnapshotDisplay {
                    has_credits: c.has_credits,
                    unlimited: c.unlimited,
                    balance: match &c.balance {
                        Some(b) => Some(b.clone()),
                        None => None,
                    },
                    balance_decimal: c.balance_decimal,
                },
            ),
            None => None,
        };
        let s = snapshot_from_details(to_owned_string("codex"), details, credits, captured_at);
        snapshots.push(s);
    }
    assert(snapshots@.len() == main.len());
    assert(forall|i: int|
        0 <= i < snapshots@.len() ==> snapshot_shows(
            #[trigger] snapshots@[i],
            main[i].0,
            main[i].1,
            main[i].2,
            captured_at,
        ));
    if let Some(additional) = &payload.additional_rate_limits {
        let mut j: usize = 0;
        while j < additional.len()
            invariant
                j <= additional@.len(),
                snapshots@.len() == main.len() + additional_sources(additional@.take(j as int)).len(),
                forall|i: int|
                    0 <= i < snapshots@.len() ==> {
                        let src = (main + additional_sources(additional@.take(j as int)))[i];
                        snapshot_shows(#[trigger] snapshots@[i], src.0, src.1, src.2, captured_at)
                    },
            decreases additional@.len() - j,
        {
            let entry = &additional[j];
            assert(additional@.take(j + 1).drop_last() =~= additional@.take(j as int));
            assert(additional@.take(j + 1).last() == additional@[j as int]);
            let ghost prev = main + additional_sources(additional@.take(j as int));
            if let Some(details) = &entry.rate_limit {
                let s = snapshot_from_details(entry.limit_name.clone(), details, None, captured_at);
                snapshots.push(s);
                assert(main + additional_sources(additional@.take(j + 1)) =~= prev.push(
                    (entry.limit_name@, *details, None),
                ));
            } else {
                assert(main + additional_sources(additional@.take(j + 1)) =~= prev);
            }
            j = j + 1;
        }
        assert(additional@.take(additional@.len() as int) =~= additional@);
    } else {
        assert(main + Seq::empty() =~= main);
    }
    snapshots
}

// ---------------------------------------------------------------------------
// Window lengths and labels
// ---------------------------------------------------------------------------

/// A window length named: whole hours (at least one, rounding 3 minutes up)
/// up to a day, then `weekly`, `monthly` and `annual`, each with 3 minutes of
/// slack; negative lengths count as zero.
pub open spec fn spec_limits_duration(window_minutes: i64) -> Seq<char> {
    let w: int = if window_minutes < 0 {
        0
    } else {
        window_minutes as int
    };
    if w <= 1443 {
        let h = (w + 3) / 60;
        int_decimal(if h < 1 {
            1
        } else {
            h
        }) + "h"@
    } else if w <= 10083 {
        "weekly"@
    } else if w <= 43203 {
        "monthly"@
    } else {
        "annual"@
    }
}

pub fn get_limits_duration(window_minutes: i64) -> (r: String)
    ensures
        r@ == spec_limits_duration(window_minutes),
{
    let w: i64 = if window_minutes < 0 {
        0
    } else {
        window_minutes
    };
    if w <= 1443 {
        let adjusted = w + 3;
        let h = adjusted / 60;
        let hours: i64 = if h < 1 {
            1
        } else {
            h
        };
        let mut s = i64_to_string(hours);
        push_str(&mut s, "h");
        s
    } else if w <= 10083 {
        to_owned_string("weekly")
    } else if w <= 43203 {
        to_owned_string("monthly")
    } else {
        to_owned_string("annual")
    }
}

/// The order of window-length names: hour counts first, then `weekly`,
/// `monthly` and `annual`.
pub open spec fn duration_rank(name: Seq<char>) -> int {
    if name == "weekly"@ {
        1
    } else if name == "monthly"@ {
        2
    } else if name == "annual"@ {
        3
    } else {
        0
    }
}

/// The hour count named for a window of `window_minutes` minutes up to a day.
pub open spec fn duration_hours(window_minutes: i64) -> int {
    let w: int = if window_minutes < 0 {
        0
    } else {
        window_minutes as int
    };
    if (w + 3) / 60 < 1 {
        1
    } else {
        (w + 3) / 60
    }
}

/// A longer window never gets an earlier name: the names' order does not
/// go back, and while both are hour counts the count does not shrink.
pub proof fn lemma_limits_duration_monotonic(a: i64, b: i64)
    requires
        a <= b,
    ensures
        duration_rank(spec_limits_duration(a)) <= duration_rank(spec_limits_duration(b)),
        duration_rank(spec_limits_duration(b)) == 0 ==> (spec_limits_duration(a) == int_decimal(
            duration_hours(a),
        ) + "h"@ && spec_limits_duration(b) == int_decimal(duration_hours(b)) + "h"@ && 1
            <= duration_hours(a) <= duration_hours(b)),
{
    reveal_strlit("h");
    reveal_strlit("weekly");
    reveal_strlit("monthly");
    reveal_strlit("annual");
    assert("monthly"@ != "weekly"@) by {
        assert("monthly"@.len() != "weekly"@.len());
    }
    assert("annual"@ != "weekly"@) by {
        assert("annual"@[0] != "weekly"@[0]);
    }
    assert("annual"@ != "monthly"@) by {
        assert("annual"@.len() != "monthly"@.len());
    }
    let wa: int = if a < 0 { 0 } else { a as int };
    let wb: int = if b < 0 { 0 } else { b as int };
    assert(wa <= wb);
    assert((wa + 3) / 60 <= (wb + 3) / 60) by (nonlinear_arith)
        requires
            0 <= wa <= wb,
    ;
    if wa <= 1443 {
        let x = int_decimal(duration_hours(a)) + "h"@;
        assert(x.last() == 'h');
        assert(x != "weekly"@ && x != "monthly"@ && x != "annual"@) by {
            assert("weekly"@.last() == 'y');
            assert("monthly"@.last() == 'y');
            assert("annual"@.last() == 'l');
        }
    }
    if wb <= 1443 {
        let y = int_decimal(duration_hours(b)) + "h"@;
        assert(y.last() == 'h');
        assert(y != "weekly"@ && y != "monthly"@ && y != "annual"@) by {
            assert("weekly"@.last() == 'y');
            assert("monthly"@.last() == 'y');
            assert("annual"@.last() == 'l');
        }
    }
}

/// Interval names capitalised for display; other labels unchanged.
pub open spec fn spec_format_limit_label(label: Seq<char>) -> Seq<char> {
    if label == "weekly"@ {
        "Weekly"@
    } else if label == "monthly"@ {
        "Monthly"@
    } else if label == "annual"@ {
        "Annual"@
    } else {
        label
    }
}

pub fn format_limit_label(label: String) -> (r: String)
    ensures
        r@ == spec_format_limit_label(label@),
{
    if str_eq(label.as_str(), "weekly") {
        to_owned_string("Weekly")
    } else if str_eq(label.as_str(), "monthly") {
        to_owned_string("Monthly")
    } else if str_eq(label.as_str(), "annual") {
        to_owned_string("Annual")
    } else {
        label
    }
}

/// The length label of a window: its named length, else `default`.
pub open spec fn window_length_label(w: RateLimitWindowDisplay, default: Seq<char>) -> Seq<char> {
    match w.window_minutes {
        Some(m) => spec_limits_duration(m),
        None => default,
    }
}

fn window_length(w: &RateLimitWindowDisplay, default: &str) -> (r: String)
    ensures
        r@ == window_length_label(*w, default@),
{
    match w.window_minutes {
        Some(m) => get_limits_duration(m),
        None => to_owned_string(default),
    }
}

// ---------------------------------------------------------------------------
// Credits
// ---------------------------------------------------------------------------

/// The balance as shown: the trimmed text as a positive integer, else its
/// positive decimal value rounded; nothing when blank or not positive.
pub open spec fn spec_format_credit_balance(raw: Seq<char>, decimal: Option<i64>) -> Option<
    Seq<char>,
> {
    let t = trim_seq(raw);
    if t.len() == 0 {
        None
    } else {
        match parse_i64_seq(t) {
            Some(v) if v > 0 => Some(int_decimal(v as int)),
            _ => match decimal {
                Some(d) => Some(int_decimal(d as int)),
                None => None,
            },
        }
    }
}

/// Formats a credit balance; `rounded_decimal` is the trimmed text read as a
/// decimal number and rounded, when that number is positive.
pub fn format_credit_balance(raw: &str, rounded_decimal: Option<i64>) -> (r: Option<String>)
    ensures
        opt_seq(r) == spec_format_credit_balance(raw@, rounded_decimal),
{
    let trimmed = trim(raw);
    if trimmed.unicode_len() == 0 {
        return None;
    }
    match parse_i64(trimmed.as_str()) {
        Some(v) => if v > 0 {
            return Some(i64_to_string(v));
        },
        None => {},
    }
    match rounded_decimal {
        Some(d) => Some(i64_to_string(d)),
        None => None,
    }
}

/// A balance written as a positive whole number is shown as that number.
pub proof fn lemma_credit_balance_of_integer(n: i64, decimal: Option<i64>)
    requires
        n > 0,
    ensures
        spec_format_credit_balance(int_decimal(n as int), decimal) == Some(int_decimal(n as int)),
{
    lemma_decimal_trimmed(n);
    lemma_decimal_roundtrip(n);
}

// ---------------------------------------------------------------------------
// Status rows
// ---------------------------------------------------------------------------

#[derive(Debug)]
pub enum StatusRateLimitValue {
    Window { used: Gauge, week: Gauge, resets_at: Option<String>, reset_at: Option<Instant> },
    Text(String),
}

#[derive(Debug)]
pub struct StatusRateLimitRow {
    pub label: String,
    pub value: StatusRateLimitValue,
}

pub enum ValueView {
    Window { used: Gauge, week: Gauge, resets_at: Option<Seq<char>>, reset_at: Option<Instant> },
    Text(Seq<char>),
}

pub struct StatusRowView {
    pub label: Seq<char>,
    pub value: ValueView,
}

pub open spec fn status_row_view(r: StatusRateLimitRow) -> StatusRowView {
    StatusRowView {
        label: r.label@,
        value: match r.value {
            StatusRateLimitValue::Window { used, week, resets_at, reset_at } => ValueView::Window {
                used,
                week,
                resets_at: opt_seq(resets_at),
                reset_at,
            },
            StatusRateLimitValue::Text(t) => ValueView::Text(t@),
        },
    }
}

pub open spec fn status_rows_view(v: Seq<StatusRateLimitRow>) -> Seq<StatusRowView> {
    v.map_values(|r: StatusRateLimitRow| status_row_view(r))
}

pub open spec fn text_row(label: Seq<char>, text: Seq<char>) -> StatusRowView {
    StatusRowView { label, value: ValueView::Text(text) }
}

/// The credits row: none without credits; `Unlimited`, or the formatted
/// balance followed by ` credits`.
pub open spec fn spec_credit_row(c: CreditsSnapshotDisplay) -> Option<StatusRowView> {
    if !c.has_credits {
        None
    } else if c.unlimited {
        Some(text_row("Credits"@, "Unlimited"@))
    } else {
        match c.balance {
            None => None,
            Some(b) => match spec_format_credit_balance(b@, c.balance_decimal) {
                Some(d) => Some(text_row("Credits"@, d + " credits"@)),
                None => None,
            },
        }
    }
}

pub open spec fn opt_row_view(r: Option<StatusRateLimitRow>) -> Option<StatusRowView> {
    match r {
        Some(r) => Some(status_row_view(r)),
        None => None,
    }
}

pub fn credit_status_row(credits: &CreditsSnapshotDisplay) -> (r: Option<StatusRateLimitRow>)
    ensures
        opt_row_view(r) == spec_credit_row(*credits),
{
    if !credits.has_credits {
        return None;
    }
    if credits.unlimited {
        return Some(
            StatusRateLimitRow {
                label: to_owned_string("Credits"),
                value: StatusRateLimitValue::Text(to_owned_string("Unlimited")),
            },
        );
    }
    let balance = match &credits.balance {
        Some(b) => b,
        None => {
            return None;
        },
    };
    let display_balance = match format_credit_balance(balance.as_str(), credits.balance_decimal) {
        Some(d) => d,
        None => {
            return None;
        },
    };
    let mut text = display_balance;
    push_str(&mut text, " credits");
    Some(
        StatusRateLimitRow {
            label: to_owned_string("Credits"),
            value: StatusRateLimitValue::Text(text),
        },
    )
}

pub open spec fn window_row(label: Seq<char>, w: RateLimitWindowDisplay) -> StatusRowView {
    StatusRowView {
        label,
        value: ValueView::Window {
            used: w.used,
            week: w.week,
            resets_at: opt_seq(w.resets_at),
            reset_at: w.reset_at,
        },
    }
}

/// The rows of one limit: a heading row for a non-`codex` limit with two
/// windows; a row per window, labelled with its length (and the limit's name
/// for a non-`codex` limit with a single window); then the credits row.
pub open spec fn spec_snapshot_rows(s: RateLimitSnapshotDisplay) -> Seq<StatusRowView> {
    let name = s.limit_name@;
    let show_prefix = !eq_ignore_ascii_case_seq(name, "codex"@);
    let count = (if s.primary.is_some() {
        1int
    } else {
        0
    }) + (if s.secondary.is_some() {
        1int
    } else {
        0
    });
    let combine = show_prefix && count == 1;
    let heading = if show_prefix && !combine {
        seq![text_row(name + " limit"@, Seq::empty())]
    } else {
        Seq::empty()
    };
    let primary = match s.primary {
        Some(w) => {
            let l = spec_format_limit_label(window_length_label(w, "5h"@));
            seq![
                window_row(
                    if combine {
                        name + " "@ + l + " limit"@
                    } else {
                        l + " limit"@
                    },
                    w,
                ),
            ]
        },
        None => Seq::empty(),
    };
    let secondary = match s.secondary {
        Some(w) => {
            let l = spec_format_limit_label(window_length_label(w, "weekly"@));
            seq![
                window_row(
                    if combine {
                        name + " "@ + l + " limit"@
                    } else {
                        l + " limit"@
                    },
                    w,
                ),
            ]
        },
        None => Seq::empty(),
    };
    let credits = match s.credits {
        Some(c) => match spec_credit_row(c) {
            Some(r) => seq![r],
            None => Seq::empty(),
        },
        None => Seq::empty(),
    };
    heading + primary + secondary + credits
}

pub open spec fn spec_all_snapshot_rows(v: Seq<RateLimitSnapshotDisplay>) -> Seq<StatusRowView>
    decreases v.len(),
{
    if v.len() == 0 {
        Seq::empty()
    } else {
        spec_all_snapshot_rows(v.drop_last()) + spec_snapshot_rows(v.last())
    }
}

/// All rows, or a single `Limits: data not available yet` row when there are
/// none.
pub open spec fn spec_compose_rows(v: Seq<RateLimitSnapshotDisplay>) -> Seq<StatusRowView> {
    let rows = spec_all_snapshot_rows(v);
    if rows.len() == 0 {
        seq![text_row("Limits"@, "data not available yet"@)]
    } else {
        rows
    }
}

fn clone_opt(o: &Option<String>) -> (r: Option<String>)
    ensures
        opt_seq(r) == opt_seq(*o),
{
    match o {
        Some(s) => Some(s.clone()),
        None => None,
    }
}

fn push_window_row(rows: &mut Vec<StatusRateLimitRow>, label: String, w: &RateLimitWindowDisplay)
    ensures
        status_rows_view(final(rows)@) == status_rows_view(old(rows)@).push(window_row(label@, *w)),
{
    let ghost before = status_rows_view(rows@);
    rows.push(
        StatusRateLimitRow {
            label,
            value: StatusRateLimitValue::Window {
                used: w.used,
                week: w.week,
                resets_at: clone_opt(&w.resets_at),
                reset_at: w.reset_at,
            },
        },
    );
    assert(status_rows_view(rows@) =~= before.push(window_row(label@, *w)));
}

fn window_label(name: &str, length: String, combine: bool) -> (r: String)
    ensures
        r@ == (if combine {
            name@ + " "@ + spec_format_limit_label(length@) + " limit"@
        } else {
            spec_format_limit_label(length@) + " limit"@
        }),
{
    let l = format_limit_label(length);
    if combine {
        let mut s = to_owned_string(name);
        push_str(&mut s, " ");
        push_str(&mut s, l.as_str());
        push_str(&mut s, " limit");
        s
    } else {
        let mut s = l;
        push_str(&mut s, " limit");
        s
    }
}

/// Appends the rows of one limit.
fn push_snapshot_rows(rows: &mut Vec<StatusRateLimitRow>, s: &RateLimitSnapshotDisplay)
    ensures
        status_rows_view(final(rows)@) == status_rows_view(old(rows)@) + spec_snapshot_rows(*s),
{
    let ghost start = status_rows_view(rows@);
    let name = s.limit_name.as_str();
    let show_prefix = !eq_ignore_ascii_case(name, "codex");
    let count: u8 = (if s.primary.is_some() {
        1u8
    } else {
        0u8
    }) + (if s.secondary.is_some() {
        1u8
    } else {
        0u8
    });
    let combine = show_prefix && count == 1;
    if show_prefix && !combine {
        let mut heading = to_owned_string(name);
        push_str(&mut heading, " limit");
        rows.push(
            StatusRateLimitRow { label: heading, value: StatusRateLimitValue::Text(String::new()) },
        );
    }
    let ghost after_heading = status_rows_view(rows@);
    assert(after_heading =~= start + (if show_prefix && !combine {
        seq![text_row(s.limit_name@ + " limit"@, Seq::empty())]
    } else {
        Seq::<StatusRowView>::empty()
    }));
    if let Some(w) = &s.primary {
        let length = window_length(w, "5h");
        let label = window_label(name, length, combine);
        push_window_row(rows, label, w);
    }
    let ghost after_primary = status_rows_view(rows@);
    if let Some(w) = &s.secondary {
        let length = window_length(w, "weekly");
        let label = window_label(name, length, combine);
        push_window_row(rows, label, w);
    }
    let ghost after_secondary = status_rows_view(rows@);
    if let Some(c) = &s.credits {
        if let Some(row) = credit_status_row(c) {
            let ghost b = status_rows_view(rows@);
            rows.push(row);
            assert(status_rows_view(rows@) =~= b.push(status_row_view(row)));
        }
    }
    assert(status_rows_view(rows@) =~= start + spec_snapshot_rows(*s));
}

pub fn compose_rate_limit_rows(snapshots: &Vec<RateLimitSnapshotDisplay>) -> (r: Vec<
    StatusRateLimitRow,
>)
    ensures
        status_rows_view(r@) == spec_compose_rows(snapshots@),
{
    let mut rows: Vec<StatusRateLimitRow> = Vec::new();
    let mut i: usize = 0;
    assert(status_rows_view(rows@) =~= spec_all_snapshot_rows(snapshots@.take(0)));
    while i < snapshots.len()
        invariant
            i <= snapshots@.len(),
            status_rows_view(rows@) == spec_all_snapshot_rows(snapshots@.take(i as int)),
        decreases snapshots@.len() - i,
    {
        push_snapshot_rows(&mut rows, &snapshots[i]);
        assert(snapshots@.take(i + 1).drop_last() =~= snapshots@.take(i as int));
        assert(snapshots@.take(i + 1).last() == snapshots@[i as int]);
        i = i + 1;
    }
    assert(snapshots@.take(snapshots@.len() as int) =~= snapshots@);
    if rows.len() == 0 {
        let mut out: Vec<StatusRateLimitRow> = Vec::new();
        out.push(
            StatusRateLimitRow {
                label: to_owned_string("Limits"),
                value: StatusRateLimitValue::Text(to_owned_string("data not available yet")),
            },
        );
        assert(status_rows_view(out@) =~= seq![text_row("Limits"@, "data not available yet"@)]);
        out
    } else {
        rows
    }
}

// ---------------------------------------------------------------------------
// Rendering
// ---------------------------------------------------------------------------

/// The lines of one status row, its label padded to `width`.
pub open spec fn status_row_lines(row: StatusRowView, width: int) -> Seq<Seq<char>> {
    match row.value {
        ValueView::Window { used, week, resets_at, .. } => {
            let l = pad_end_seq(row.label, width) + ": "@ + bar_seq(used.filled as int, '█', '░')
                + " "@ + used_percent_seq(used.rounded) + match resets_at {
                Some(t) => " (resets "@ + t + ")"@,
                None => Seq::empty(),
            };
            if spec_is_weekly_label(row.label) {
                seq![l, week_line(week, width)]
            } else {
                seq![l]
            }
        },
        ValueView::Text(t) => seq![pad_end_seq(row.label, width) + ": "@ + t],
    }
}

pub open spec fn status_lines(rows: Seq<StatusRowView>, width: int) -> Seq<Seq<char>>
    decreases rows.len(),
{
    if rows.len() == 0 {
        Seq::empty()
    } else {
        status_lines(rows.drop_last(), width) + status_row_lines(rows.last(), width)
    }
}

/// The text lines for some limits: each row with its label column padded to
/// the widest label, and a week-progress line under each weekly window.
pub open spec fn spec_rate_limit_lines(v: Seq<RateLimitSnapshotDisplay>) -> Seq<Seq<char>> {
    let rows = spec_compose_rows(v);
    status_lines(rows, label_width(rows.map_values(|r: StatusRowView| r.label)))
}

fn rows_width(rows: &Vec<StatusRateLimitRow>) -> (w: usize)
    ensures
        w == label_width(status_rows_view(rows@).map_values(|r: StatusRowView| r.label)),
{
    let mut w: usize = 13;
    let mut i: usize = 0;
    while i < rows.len()
        invariant
            i <= rows@.len(),
            w == label_width(
                status_rows_view(rows@.take(i as int)).map_values(|r: StatusRowView| r.label),
            ),
        decreases rows@.len() - i,
    {
        let n = rows[i].label.as_str().len();
        proof {
            let ls = status_rows_view(rows@.take(i + 1)).map_values(|r: StatusRowView| r.label);
            assert(ls.drop_last() =~= status_rows_view(rows@.take(i as int)).map_values(
                |r: StatusRowView| r.label,
            ));
            assert(ls.last() == rows@[i as int].label@);
        }
        if n > w {
            w = n;
        }
        i = i + 1;
    }
    assert(rows@.take(rows@.len() as int) =~= rows@);
    w
}

fn render_status_row(row: &StatusRateLimitRow, width: usize, out: &mut Vec<String>)
    ensures
        strings_view(final(out)@) == strings_view(old(out)@) + status_row_lines(
            status_row_view(*row),
            width as int,
        ),
{
    let ghost before = strings_view(out@);
    match &row.value {
        StatusRateLimitValue::Window { used, week, resets_at, .. } => {
            let mut line = pad_end(row.label.as_str(), width);
            push_str(&mut line, ": ");
            let bar = render_status_limit_progress_bar(*used);
            push_str(&mut line, bar.as_str());
            push_str(&mut line, " ");
            let summary = format_status_limit_summary(used.rounded);
            push_str(&mut line, summary.as_str());
            if let Some(r) = resets_at {
                push_str(&mut line, " (resets ");
                push_str(&mut line, r.as_str());
                push_str(&mut line, ")");
            }
            assert(line@ =~= pad_end_seq(row.label@, width as int) + ": "@ + bar_seq(
                used.filled as int,
                '█',
                '░',
            ) + " "@ + used_percent_seq(used.rounded) + match opt_seq(*resets_at) {
                Some(t) => " (resets "@ + t + ")"@,
                None => Seq::<char>::empty(),
            });
            let weekly = is_weekly_label(row.label.as_str());
            out.push(line);
            if weekly {
                let l2 = render_week_line(*week, width);
                out.push(l2);
            }
        },
        StatusRateLimitValue::Text(t) => {
            let mut line = pad_end(row.label.as_str(), width);
            push_str(&mut line, ": ");
            push_str(&mut line, t.as_str());
            out.push(line);
            assert(strings_view(out@) =~= before + seq![pad_end_seq(row.label@, width as int) + ": "@ + t@]);
        },
    }
    assert(strings_view(out@) =~= before + status_row_lines(status_row_view(*row), width as int));
}

pub fn render_rate_limit_lines(snapshots: &Vec<RateLimitSnapshotDisplay>) -> (r: Vec<String>)
    ensures
        strings_view(r@) == spec_rate_limit_lines(snapshots@),
{
    let rows = compose_rate_limit_rows(snapshots);
    let width = rows_width(&rows);
    let mut lines: Vec<String> = Vec::new();
    let mut i: usize = 0;
    while i < rows.len()
        invariant
            i <= rows@.len(),
            strings_view(lines@) == status_lines(status_rows_view(rows@.take(i as int)), width as int),
        decreases rows@.len() - i,
    {
        render_status_row(&rows[i], width, &mut lines);
        assert(status_rows_view(rows@.take(i + 1)).drop_last() =~= status_rows_view(
            rows@.take(i as int),
        ));
        i = i + 1;
    }
    assert(rows@.take(rows@.len() as int) =~= rows@);
    lines
}

// ---------------------------------------------------------------------------
// Staleness
// ---------------------------------------------------------------------------

/// More than fifteen minutes separate `captured` from `now`.
pub open spec fn older_than_15_minutes(captured: Instant, now: Instant) -> bool {
    (now.secs - captured.secs) * 1_000_000_000 + (now.nanos - captured.nanos) > 900_000_000_000
}

pub fn is_stale(snapshots: &Vec<RateLimitSnapshotDisplay>, now: Instant) -> (r: bool)
    ensures
        r == exists|i: int|
            0 <= i < snapshots@.len() && older_than_15_minutes(
                #[trigger] snapshots@[i].captured_at,
                now,
            ),
{
    let mut i: usize = 0;
    while i < snapshots.len()
        invariant
            i <= snapshots@.len(),
            forall|k: int| 0 <= k < i ==> !older_than_15_minutes(#[trigger] snapshots@[k].captured_at, now),
        decreases snapshots@.len() - i,
    {
        let c = snapshots[i].captured_at;
        let d: i128 = ((now.secs as i128) - (c.secs as i128)) * 1_000_000_000i128 + ((now.nanos as i128)
            - (c.nanos as i128));
        if d > 900_000_000_000i128 {
            return true;
        }
        i = i + 1;
    }
    false
}


// ---------------------------------------------------------------------------
// JSON summary
// ---------------------------------------------------------------------------

/// One window in the JSON summary.
#[derive(Debug)]
pub struct CodexUsageComponent {
    pub limit: String,
    pub percent_used: Option<i64>,
    /// The reset instant in local RFC 3339.
    pub reset_at: Option<String>,
    /// The reset instant that `reset_at` writes out.
    pub reset_instant: Option<Instant>,
    pub week_progress_percent: Option<i64>,
}

/// The JSON summary. Each map is a list of (key, value) pairs whose keys are
/// distinct.
#[derive(Debug)]
pub struct CodexUsageJson {
    pub plan: Option<String>,
    pub components: Vec<(String, Vec<(String, CodexUsageComponent)>)>,
    pub stale: bool,
}

pub struct ComponentView {
    pub limit: Seq<char>,
    pub percent_used: Option<i64>,
    pub reset_instant: Option<Instant>,
    pub week_progress_percent: Option<i64>,
}

pub open spec fn component_view(c: CodexUsageComponent) -> ComponentView {
    ComponentView {
        limit: c.limit@,
        percent_used: c.percent_used,
        reset_instant: c.reset_instant,
        week_progress_percent: c.week_progress_percent,
    }
}

/// A component's `reset_at` is the local RFC 3339 form of its reset instant.
pub open spec fn component_text_ok(c: CodexUsageComponent) -> bool {
    local_rfc3339_of(c.reset_instant, opt_seq(c.reset_at))
}

pub open spec fn limits_text_ok(m: Seq<(String, CodexUsageComponent)>) -> bool {
    forall|j: int| 0 <= j < m.len() ==> component_text_ok(#[trigger] m[j].1)
}

pub open spec fn components_text_ok(m: Seq<(String, Vec<(String, CodexUsageComponent)>)>) -> bool {
    forall|i: int| 0 <= i < m.len() ==> limits_text_ok(#[trigger] m[i].1@)
}

pub open spec fn limits_view(m: Seq<(String, CodexUsageComponent)>) -> Seq<(Seq<char>, ComponentView)> {
    m.map_values(|p: (String, CodexUsageComponent)| (p.0@, component_view(p.1)))
}

pub open spec fn components_view(m: Seq<(String, Vec<(String, CodexUsageComponent)>)>) -> Seq<
    (Seq<char>, Seq<(Seq<char>, ComponentView)>),
> {
    m.map_values(|p: (String, Vec<(String, CodexUsageComponent)>)| (p.0@, limits_view(p.1@)))
}

/// The facts about a window that the JSON summary reads: its length in
/// minutes, its two measures, and its reset instant.
pub open spec fn snapshot_facts(w: RateLimitWindowSnapshot) -> (Option<i64>, Gauge, Gauge, Option<Instant>) {
    (window_minutes_of(w), w.used, w.week, window_reset_instant(w))
}

pub open spec fn display_facts(d: RateLimitWindowDisplay) -> (Option<i64>, Gauge, Gauge, Option<Instant>) {
    (d.window_minutes, d.used, d.week, d.reset_at)
}

pub open spec fn facts_key(f: (Option<i64>, Gauge, Gauge, Option<Instant>), default: Seq<char>) -> Seq<char> {
    lowercase_of(
        match f.0 {
            Some(m) => spec_limits_duration(m),
            None => default,
        },
    )
}

/// A window's JSON entry under key `k`: its rounded usage, its week progress
/// when the key is `weekly`, and its reset instant.
pub open spec fn facts_component(k: Seq<char>, f: (Option<i64>, Gauge, Gauge, Option<Instant>)) -> ComponentView {
    ComponentView {
        limit: k,
        percent_used: Some(f.1.rounded),
        reset_instant: f.3,
        week_progress_percent: if k == "weekly"@ {
            Some(f.2.rounded)
        } else {
            None
        },
    }
}

/// The windows of one limit keyed by lower-cased length (`5h` and `weekly` by
/// default); the secondary window replaces the primary one under the same key.
pub open spec fn spec_limit_windows(
    p: Option<(Option<i64>, Gauge, Gauge, Option<Instant>)>,
    s: Option<(Option<i64>, Gauge, Gauge, Option<Instant>)>,
) -> Seq<(Seq<char>, ComponentView)> {
    let m0 = Seq::<(Seq<char>, ComponentView)>::empty();
    let m1 = match p {
        Some(f) => alist_put(m0, facts_key(f, "5h"@), facts_component(facts_key(f, "5h"@), f)),
        None => m0,
    };
    match s {
        Some(f) => alist_put(
            m1,
            facts_key(f, "weekly"@),
            facts_component(facts_key(f, "weekly"@), f),
        ),
        None => m1,
    }
}

pub open spec fn opt_facts(w: Option<RateLimitWindowSnapshot>) -> Option<(Option<i64>, Gauge, Gauge, Option<Instant>)> {
    match w {
        Some(w) => Some(snapshot_facts(w)),
        None => None,
    }
}

/// The component name of a limit: the plan type for the main `codex` limit
/// when there is one, else the limit's name.
pub open spec fn component_name(name: Seq<char>, plan: Option<Seq<char>>) -> Seq<char> {
    if name == "codex"@ {
        match plan {
            Some(p) => p,
            None => name,
        }
    } else {
        name
    }
}

/// The components of the JSON summary: for each limit in order, its windows
/// under its component name (a later limit replacing an earlier one of the
/// same name); limits without windows are left out.
pub open spec fn spec_components(
    sources: Seq<(Seq<char>, RateLimitStatusDetails, Option<CreditStatusDetails>)>,
    plan: Option<Seq<char>>,
) -> Seq<(Seq<char>, Seq<(Seq<char>, ComponentView)>)>
    decreases sources.len(),
{
    if sources.len() == 0 {
        Seq::empty()
    } else {
        let prev = spec_components(sources.drop_last(), plan);
        let src = sources.last();
        let limits = spec_limit_windows(
            opt_facts(src.1.primary_window),
            opt_facts(src.1.secondary_window),
        );
        if limits.len() > 0 {
            alist_put(prev, component_name(src.0, plan), limits)
        } else {
            prev
        }
    }
}

fn insert_component(m: &mut Vec<(String, CodexUsageComponent)>, k: String, c: CodexUsageComponent)
    requires
        distinct_keys(limits_view(old(m)@)),
        limits_text_ok(old(m)@),
        component_text_ok(c),
    ensures
        limits_view(final(m)@) == alist_put(limits_view(old(m)@), k@, component_view(c)),
        distinct_keys(limits_view(final(m)@)),
        limits_text_ok(final(m)@),
{
    let ghost before = limits_view(m@);
    proof {
        lemma_put_distinct(before, k@, component_view(c));
    }
    let mut i: usize = 0;
    while i < m.len()
        invariant
            i <= m@.len(),
            before == limits_view(m@),
            before == limits_view(old(m)@),
            m@ == old(m)@,
            distinct_keys(before),
            limits_text_ok(m@),
            component_text_ok(c),
            forall|j: int| 0 <= j < i ==> m@[j].0@ != k@,
        decreases m@.len() - i,
    {
        if str_eq(m[i].0.as_str(), k.as_str()) {
            assert(before[i as int].0 == k@);
            let ghost ch = choose|j: int| 0 <= j < before.len() && #[trigger] before[j].0 == k@;
            assert(ch == i as int) by {
                if ch < i {
                    assert(m@[ch].0@ != k@);
                } else if ch > i {
                    assert(before[i as int].0 != before[ch].0);
                }
            }
            assert(alist_put(before, k@, component_view(c)) == before.update(i as int, (k@, component_view(c)))) by {
                assert(exists|j: int| 0 <= j < before.len() && #[trigger] before[j].0 == k@);
            }
            m.set(i, (k, c));
            assert(limits_view(m@) =~= alist_put(before, k@, component_view(c)));
            return;
        }
        i = i + 1;
    }
    assert(!exists|j: int| 0 <= j < before.len() && #[trigger] before[j].0 == k@) by {
        assert forall|j: int| 0 <= j < before.len() implies #[trigger] before[j].0 != k@ by {
            assert(m@[j].0@ != k@);
        }
    }
    m.push((k, c));
    assert(limits_view(m@) =~= alist_put(before, k@, component_view(c)));
}

fn insert_limits(
    m: &mut Vec<(String, Vec<(String, CodexUsageComponent)>)>,
    k: String,
    v: Vec<(String, CodexUsageComponent)>,
)
    requires
        distinct_keys(components_view(old(m)@)),
        components_text_ok(old(m)@),
        limits_text_ok(v@),
    ensures
        components_view(final(m)@) == alist_put(components_view(old(m)@), k@, limits_view(v@)),
        distinct_keys(components_view(final(m)@)),
        components_text_ok(final(m)@),
{
    let ghost before = components_view(m@);
    let ghost vv = limits_view(v@);
    proof {
        lemma_put_distinct(before, k@, vv);
    }
    let mut i: usize = 0;
    while i < m.len()
        invariant
            i <= m@.len(),
            before == components_view(m@),
            before == components_view(old(m)@),
            m@ == old(m)@,
            components_text_ok(m@),
            limits_text_ok(v@),
            vv == limits_view(v@),
            distinct_keys(before),
            forall|j: int| 0 <= j < i ==> m@[j].0@ != k@,
        decreases m@.len() - i,
    {
        if str_eq(m[i].0.as_str(), k.as_str()) {
            assert(before[i as int].0 == k@);
            let ghost ch = choose|j: int| 0 <= j < before.len() && #[trigger] before[j].0 == k@;
            assert(ch == i as int) by {
                if ch < i {
                    assert(m@[ch].0@ != k@);
                } else if ch > i {
                    assert(before[i as int].0 != before[ch].0);
                }
            }
            assert(alist_put(before, k@, vv) == before.update(i as int, (k@, vv))) by {
                assert(exists|j: int| 0 <= j < before.len() && #[trigger] before[j].0 == k@);
            }
            m.set(i, (k, v));
            assert(components_view(m@) =~= alist_put(before, k@, vv));
            return;
        }
        i = i + 1;
    }
    assert(!exists|j: int| 0 <= j < before.len() && #[trigger] before[j].0 == k@) by {
        assert forall|j: int| 0 <= j < before.len() implies #[trigger] before[j].0 != k@ by {
            assert(m@[j].0@ != k@);
        }
    }
    m.push((k, v));
    assert(components_view(m@) =~= alist_put(before, k@, vv));
}

/// A window's entry in the JSON summary.
pub fn codex_window_to_component(key: &str, window: &RateLimitWindowDisplay) -> (r:
    CodexUsageComponent)
    ensures
        component_view(r) == facts_component(key@, display_facts(*window)),
        component_text_ok(r),
{
    let week = if str_eq(key, "weekly") {
        Some(window.week.rounded)
    } else {
        None
    };
    let reset_at = match window.reset_at {
        Some(t) => {
            let (text, offset) = local_rfc3339(t);
            Some(text)
        },
        None => None,
    };
    CodexUsageComponent {
        limit: to_owned_string(key),
        percent_used: Some(window.used.rounded),
        reset_at,
        reset_instant: window.reset_at,
        week_progress_percent: week,
    }
}

fn window_key(w: &RateLimitWindowDisplay, default: &str) -> (r: String)
    ensures
        r@ == facts_key(display_facts(*w), default@),
{
    let l = window_length(w, default);
    to_lowercase(l.as_str())
}

pub open spec fn opt_display_facts(d: Option<RateLimitWindowDisplay>) -> Option<(Option<i64>, Gauge, Gauge, Option<Instant>)> {
    match d {
        Some(d) => Some(display_facts(d)),
        None => None,
    }
}

fn snapshot_limits(s: &RateLimitSnapshotDisplay) -> (r: Vec<(String, CodexUsageComponent)>)
    ensures
        limits_view(r@) == spec_limit_windows(opt_display_facts(s.primary), opt_display_facts(s.secondary)),
        distinct_keys(limits_view(r@)),
        limits_text_ok(r@),
{
    let mut limits: Vec<(String, CodexUsageComponent)> = Vec::new();
    assert(limits_view(limits@) =~= Seq::<(Seq<char>, ComponentView)>::empty());
    if let Some(primary) = &s.primary {
        let key = window_key(primary, "5h");
        let c = codex_window_to_component(key.as_str(), primary);
        insert_component(&mut limits, key, c);
    }
    if let Some(secondary) = &s.secondary {
        let key = window_key(secondary, "weekly");
        let c = codex_window_to_component(key.as_str(), secondary);
        insert_component(&mut limits, key, c);
    }
    limits
}

/// The JSON summary of a reply captured at `captured_at`.
pub fn build_codex_usage_json(payload: &RateLimitStatusPayload, captured_at: Instant) -> (r:
    CodexUsageJson)
    ensures
        opt_seq(r.plan) == opt_seq(payload.plan_type),
        components_view(r.components@) == spec_components(
            spec_snapshot_sources(*payload),
            opt_seq(payload.plan_type),
        ),
        distinct_keys(components_view(r.components@)),
        components_text_ok(r.components@),
        !r.stale,
{
    let snapshots = snapshots_from_payload(payload, captured_at);
    let ghost sources = spec_snapshot_sources(*payload);
    let ghost plan = opt_seq(payload.plan_type);
    let mut components: Vec<(String, Vec<(String, CodexUsageComponent)>)> = Vec::new();
    assert(components_view(components@) =~= spec_components(sources.take(0), plan));
    let mut i: usize = 0;
    while i < snapshots.len()
        invariant
            i <= snapshots@.len(),
            snapshots@.len() == sources.len(),
            sources == spec_snapshot_sources(*payload),
            plan == opt_seq(payload.plan_type),
            forall|k: int|
                0 <= k < snapshots@.len() ==> snapshot_shows(
                    #[trigger] snapshots@[k],
                    sources[k].0,
                    sources[k].1,
                    sources[k].2,
                    captured_at,
                ),
            components_view(components@) == spec_components(sources.take(i as int), plan),
            distinct_keys(components_view(components@)),
            components_text_ok(components@),
        decreases snapshots@.len() - i,
    {
        let snapshot = &snapshots[i];
        assert(snapshot_shows(snapshots@[i as int], sources[i as int].0, sources[i as int].1, sources[i as int].2, captured_at));
        assert(opt_display_facts(snapshot.primary) == opt_facts(sources[i as int].1.primary_window));
        assert(opt_display_facts(snapshot.secondary) == opt_facts(sources[i as int].1.secondary_window));
        let name = if str_eq(snapshot.limit_name.as_str(), "codex") {
            match &payload.plan_type {
                Some(p) => p.clone(),
                None => snapshot.limit_name.clone(),
            }
        } else {
            snapshot.limit_name.clone()
        };
        assert(name@ == component_name(sources[i as int].0, plan));
        let limits = snapshot_limits(snapshot);
        assert(sources.take(i + 1).drop_last() =~= sources.take(i as int));
        assert(sources.take(i + 1).last() == sources[i as int]);
        if limits.len() > 0 {
            insert_limits(&mut components, name, limits);
        }
        i = i + 1;
    }
    assert(sources.take(sources.len() as int) =~= sources);
    let stale = is_stale(&snapshots, captured_at);
    assert(!stale) by {
        if stale {
            let k = choose|k: int|
                0 <= k < snapshots@.len() && older_than_15_minutes(
                    #[trigger] snapshots@[k].captured_at,
                    captured_at,
                );
            assert(snapshots@[k].captured_at == captured_at);
        }
    }
    CodexUsageJson {
        plan: match &payload.plan_type {
            Some(p) => Some(p.clone()),
            None => None,
        },
        components,
        stale,
    }
}

} // verus!
