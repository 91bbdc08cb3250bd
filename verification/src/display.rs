//! The text report: progress bars, percentages, aligned labels, and the Kimi
//! summary built from them.
//!
//! Percentages are measured in floating point by the caller; the library
//! receives each one as a [`Gauge`]: the percentage rounded and clamped to
//! 0..=100, and how many of the twenty bar segments it fills.
use vstd::prelude::*;
use vstd::utf8::encode_utf8;
use crate::text::{
    pad_end, pad_end_seq, pad_start, pad_start_seq, push_char, push_str, push_repeat, repeat_seq,
    i64_to_string, int_decimal, to_owned_string,
};
use crate::kimi::{
    UsageRow, RowView, rows_view, spec_is_weekly_label, is_weekly_label, reset_suffix,
    local_reset_text, format_kimi_reset, format_kimi_reset_text, opt_string_seq,
};
use crate::time::{local_rfc3339, local_rfc3339_of, offset_ok};

verus! {

/// A percentage as shown: rounded and clamped to 0..=100, and the number of
/// filled bar segments.
#[derive(Debug, Clone, Copy)]
pub struct Gauge {
    pub rounded: i64,
    pub filled: u64,
}

pub const SEGMENTS: u64 = 20;

pub const WEEK_PROGRESS_LABEL: &'static str = "Week progress";

/// `[` then `min(filled, 20)` fill characters, the rest of twenty as empty
/// characters, then `]`.
pub open spec fn bar_seq(filled: int, fill: char, empty: char) -> Seq<char> {
    let f = if filled < 20 {
        filled
    } else {
        20
    };
    seq!['['] + repeat_seq(fill, f) + repeat_seq(empty, 20 - f) + seq![']']
}

pub fn render_bar(filled: u64, fill: char, empty: char) -> (r: String)
    ensures
        r@ == bar_seq(filled as int, fill, empty),
{
    let f: u64 = if filled < SEGMENTS {
        filled
    } else {
        SEGMENTS
    };
    let mut r = String::new();
    push_char(&mut r, '[');
    push_repeat(&mut r, fill, f as usize);
    push_repeat(&mut r, empty, (SEGMENTS - f) as usize);
    push_char(&mut r, ']');
    assert(r@ =~= bar_seq(filled as int, fill, empty));
    r
}

/// The usage bar: filled with `█`, empty as `░`.
pub fn render_status_limit_progress_bar(g: Gauge) -> (r: String)
    ensures
        r@ == bar_seq(g.filled as int, '█', '░'),
{
    render_bar(g.filled, '█', '░')
}

/// The week-progress bar: filled with `-`, empty as spaces.
pub fn render_week_progress_bar(g: Gauge) -> (r: String)
    ensures
        r@ == bar_seq(g.filled as int, '-', ' '),
{
    render_bar(g.filled, '-', ' ')
}

/// `<n>% used`, the number right-aligned in three columns.
pub open spec fn used_percent_seq(rounded: i64) -> Seq<char> {
    pad_start_seq(int_decimal(rounded as int), 3) + "% used"@
}

/// `<n>% elapsed`, the number right-aligned in three columns.
pub open spec fn elapsed_percent_seq(rounded: i64) -> Seq<char> {
    pad_start_seq(int_decimal(rounded as int), 3) + "% elapsed"@
}

pub fn format_used_percent(rounded: i64) -> (r: String)
    ensures
        r@ == used_percent_seq(rounded),
{
    let d = i64_to_string(rounded);
    let mut r = pad_start(d.as_str(), 3);
    push_str(&mut r, "% used");
    r
}

pub fn format_status_limit_summary(rounded: i64) -> (r: String)
    ensures
        r@ == used_percent_seq(rounded),
{
    format_used_percent(rounded)
}

pub fn format_elapsed_percent(rounded: i64) -> (r: String)
    ensures
        r@ == elapsed_percent_seq(rounded),
{
    let d = i64_to_string(rounded);
    let mut r = pad_start(d.as_str(), 3);
    push_str(&mut r, "% elapsed");
    r
}

/// The label column's width: the longest label in bytes (as `str::len`
/// reports it), and at least the length of `Week progress`.
pub open spec fn label_width(labels: Seq<Seq<char>>) -> int
    decreases labels.len(),
{
    if labels.len() == 0 {
        13
    } else {
        let rest = label_width(labels.drop_last());
        let here = (encode_utf8(labels.last()).len() as usize) as int;
        if here > rest {
            here
        } else {
            rest
        }
    }
}

/// The week-progress line under a weekly limit.
pub open spec fn week_line(g: Gauge, width: int) -> Seq<char> {
    pad_end_seq(WEEK_PROGRESS_LABEL@, width) + ": "@ + bar_seq(g.filled as int, '-', ' ') + " "@
        + elapsed_percent_seq(g.rounded)
}

pub fn render_week_line(g: Gauge, width: usize) -> (r: String)
    ensures
        r@ == week_line(g, width as int),
{
    let mut line = pad_end(WEEK_PROGRESS_LABEL, width);
    push_str(&mut line, ": ");
    let bar = render_week_progress_bar(g);
    push_str(&mut line, bar.as_str());
    push_str(&mut line, " ");
    let p = format_elapsed_percent(g.rounded);
    push_str(&mut line, p.as_str());
    line
}

// ---------------------------------------------------------------------------
// Kimi summary
// ---------------------------------------------------------------------------

/// The measured parts of a Kimi row: its usage, and the elapsed part of the
/// week it belongs to.
#[derive(Debug, Clone, Copy)]
pub struct RowGauges {
    pub used: Gauge,
    pub week: Gauge,
}

/// The lines of one Kimi row, with `suffix` the row's reset text in
/// parentheses (or nothing).
pub open spec fn kimi_row_lines(row: RowView, g: RowGauges, suffix: Seq<char>, width: int) -> Seq<
    Seq<char>,
> {
    let l1 = pad_end_seq(row.label, width) + ": "@ + bar_seq(g.used.filled as int, '█', '░')
        + " "@ + used_percent_seq(g.used.rounded) + suffix;
    if spec_is_weekly_label(row.label) {
        seq![l1, week_line(g.week, width)]
    } else {
        seq![l1]
    }
}

/// The lines of the Kimi rows in order.
pub open spec fn kimi_lines(
    rows: Seq<RowView>,
    gauges: Seq<RowGauges>,
    suffixes: Seq<Seq<char>>,
    width: int,
) -> Seq<Seq<char>>
    decreases rows.len(),
{
    if rows.len() == 0 {
        Seq::empty()
    } else {
        kimi_lines(rows.drop_last(), gauges.drop_last(), suffixes.drop_last(), width)
            + kimi_row_lines(rows.last(), gauges.last(), suffixes.last(), width)
    }
}

/// The Kimi summary, given each row's reset suffix.
pub open spec fn spec_kimi_summary(
    rows: Seq<RowView>,
    gauges: Seq<RowGauges>,
    suffixes: Seq<Seq<char>>,
) -> Seq<Seq<char>> {
    if rows.len() == 0 {
        seq!["No usage data available."@]
    } else {
        kimi_lines(rows, gauges, suffixes, label_width(rows.map_values(|r: RowView| r.label)))
    }
}

pub open spec fn strings_view(v: Seq<String>) -> Seq<Seq<char>> {
    v.map_values(|s: String| s@)
}

pub open spec fn entry_rows(v: Seq<(UsageRow, RowGauges)>) -> Seq<RowView> {
    v.map_values(|e: (UsageRow, RowGauges)| e.0@)
}

pub open spec fn entry_gauges(v: Seq<(UsageRow, RowGauges)>) -> Seq<RowGauges> {
    v.map_values(|e: (UsageRow, RowGauges)| e.1)
}

/// The suffix that a row's reset shows: its hint's when it has no instant,
/// else the instant's clock time and day at some UTC offset (the local time
/// zone's at that instant).
pub open spec fn suffix_fits(row: RowView, suffix: Seq<char>) -> bool {
    match row.reset_at {
        None => suffix == reset_suffix(row.reset_hint),
        Some(t) => exists|off: i32|
            offset_ok(off) && suffix == reset_suffix(Some(#[trigger] local_reset_text(t, off))),
    }
}

fn width_of(rows: &Vec<(UsageRow, RowGauges)>) -> (w: usize)
    ensures
        w == label_width(entry_rows(rows@).map_values(|r: RowView| r.label)),
{
    let mut w: usize = 13;
    let mut i: usize = 0;
    while i < rows.len()
        invariant
            i <= rows@.len(),
            w == label_width(entry_rows(rows@.take(i as int)).map_values(|r: RowView| r.label)),
        decreases rows@.len() - i,
    {
        let n = rows[i].0.label.as_str().len();
        proof {
            let ls = entry_rows(rows@.take(i + 1)).map_values(|r: RowView| r.label);
            assert(ls.drop_last() =~= entry_rows(rows@.take(i as int)).map_values(
                |r: RowView| r.label,
            ));
            assert(ls.last() == rows@[i as int].0.label@);
        }
        if n > w {
            w = n;
        }
        i = i + 1;
    }
    assert(rows@.take(rows@.len() as int) =~= rows@);
    w
}

/// The Kimi summary lines, given each row's reset suffix (`suffixes[i]` for
/// row `i`).
pub fn render_kimi_lines(rows: &Vec<(UsageRow, RowGauges)>, suffixes: &Vec<String>) -> (r: Vec<
    String,
>)
    requires
        suffixes@.len() == rows@.len(),
    ensures
        strings_view(r@) == spec_kimi_summary(
            entry_rows(rows@),
            entry_gauges(rows@),
            strings_view(suffixes@),
        ),
{
    let mut out: Vec<String> = Vec::new();
    if rows.len() == 0 {
        out.push(to_owned_string("No usage data available."));
        assert(strings_view(out@) =~= seq!["No usage data available."@]);
        return out;
    }
    let width = width_of(rows);
    let ghost w = width as int;
    let mut i: usize = 0;
    while i < rows.len()
        invariant
            i <= rows@.len(),
            suffixes@.len() == rows@.len(),
            width as int == w,
            strings_view(out@) == kimi_lines(
                entry_rows(rows@.take(i as int)),
                entry_gauges(rows@.take(i as int)),
                strings_view(suffixes@.take(i as int)),
                w,
            ),
        decreases rows@.len() - i,
    {
        let row = &rows[i].0;
        let g = rows[i].1;
        let mut l1 = pad_end(row.label.as_str(), width);
        push_str(&mut l1, ": ");
        let bar = render_status_limit_progress_bar(g.used);
        push_str(&mut l1, bar.as_str());
        push_str(&mut l1, " ");
        let p = format_used_percent(g.used.rounded);
        push_str(&mut l1, p.as_str());
        push_str(&mut l1, suffixes[i].as_str());
        let ghost before = strings_view(out@);
        let weekly = is_weekly_label(row.label.as_str());
        out.push(l1);
        if weekly {
            let l2 = render_week_line(g.week, width);
            out.push(l2);
        }
        proof {
            let rs = entry_rows(rows@.take(i + 1));
            let gs = entry_gauges(rows@.take(i + 1));
            let ss = strings_view(suffixes@.take(i + 1));
            assert(rs.drop_last() =~= entry_rows(rows@.take(i as int)));
            assert(gs.drop_last() =~= entry_gauges(rows@.take(i as int)));
            assert(ss.drop_last() =~= strings_view(suffixes@.take(i as int)));
            assert(rs.last() == rows@[i as int].0@);
            assert(gs.last() == rows@[i as int].1);
            assert(ss.last() == suffixes@[i as int]@);
            assert(strings_view(out@) =~= before + kimi_row_lines(
                rows@[i as int].0@,
                rows@[i as int].1,
                suffixes@[i as int]@,
                w,
            ));
        }
        i = i + 1;
    }
    assert(rows@.take(rows@.len() as int) =~= rows@);
    assert(suffixes@.take(suffixes@.len() as int) =~= suffixes@);
    out
}

/// The Kimi summary lines: each row, then a week-progress line under each
/// weekly row; `No usage data available.` when there are no rows. Reset times
/// are shown in local time.
pub fn print_kimi_usage_summary(rows: &Vec<(UsageRow, RowGauges)>) -> (r: Vec<String>)
    ensures
        exists|suffixes: Seq<Seq<char>>|
            suffixes.len() == rows@.len() && (forall|i: int|
                0 <= i < rows@.len() ==> suffix_fits(rows@[i].0@, #[trigger] suffixes[i]))
                && strings_view(r@) == spec_kimi_summary(
                entry_rows(rows@),
                entry_gauges(rows@),
                suffixes,
            ),
{
    let mut suffixes: Vec<String> = Vec::new();
    let mut i: usize = 0;
    while i < rows.len()
        invariant
            i <= rows@.len(),
            suffixes@.len() == i,
            forall|k: int| 0 <= k < i ==> suffix_fits(rows@[k].0@, #[trigger] suffixes@[k]@),
        decreases rows@.len() - i,
    {
        let row = &rows[i].0;
        let s = format_kimi_reset(row.reset_at, row.reset_hint.as_ref());
        proof {
            if let Some(t) = row.reset_at {
                assert(row.reset_at == Some(t));
            }
            assert(suffix_fits(rows@[i as int].0@, s@));
        }
        suffixes.push(s);
        i = i + 1;
    }
    let r = render_kimi_lines(rows, &suffixes);
    assert(forall|k: int| 0 <= k < rows@.len() ==> suffix_fits(rows@[k].0@, #[trigger] strings_view(suffixes@)[k]));
    r
}

// ---------------------------------------------------------------------------
// Kimi rows as JSON
// ---------------------------------------------------------------------------

/// The reset text of a row: its hint when it has no instant, else
/// `resets <HH:MM> on <day>` for the instant at some UTC offset (the local time
/// zone's at that instant).
pub open spec fn reset_display_of(row: RowView, text: Option<Seq<char>>) -> bool {
    match row.reset_at {
        Some(t) => exists|off: i32| offset_ok(off) && text == Some(#[trigger] local_reset_text(t, off)),
        None => text == row.reset_hint,
    }
}

/// A row of the JSON summary.
#[derive(Debug)]
pub struct UsageRowJson {
    pub label: String,
    pub percent_used: Option<i64>,
    pub reset_at: Option<String>,
    pub reset_display: Option<String>,
    pub week_progress_percent: Option<i64>,
    pub text: Option<String>,
}

/// The JSON rows: label and rounded usage of every row, the week progress of
/// weekly rows, and the reset instant (in local RFC 3339) and reset text.
pub fn kimi_rows_to_json(rows: &Vec<(UsageRow, RowGauges)>) -> (r: Vec<UsageRowJson>)
    ensures
        r@.len() == rows@.len(),
        forall|i: int|
            0 <= i < rows@.len() ==> {
                let row = rows@[i].0@;
                let g = rows@[i].1;
                let j = #[trigger] r@[i];
                &&& j.label@ == row.label
                &&& j.percent_used == Some(g.used.rounded)
                &&& j.week_progress_percent == (if spec_is_weekly_label(row.label) {
                    Some(g.week.rounded)
                } else {
                    None
                })
                &&& local_rfc3339_of(row.reset_at, opt_string_seq(j.reset_at))
                &&& reset_display_of(row, opt_string_seq(j.reset_display))
                &&& j.text.is_none()
            },
{
    let mut out: Vec<UsageRowJson> = Vec::new();
    let mut i: usize = 0;
    while i < rows.len()
        invariant
            i <= rows@.len(),
            out@.len() == i,
            forall|k: int|
                0 <= k < i ==> {
                    let row = rows@[k].0@;
                    let g = rows@[k].1;
                    let j = #[trigger] out@[k];
                    &&& j.label@ == row.label
                    &&& j.percent_used == Some(g.used.rounded)
                    &&& j.week_progress_percent == (if spec_is_weekly_label(row.label) {
                        Some(g.week.rounded)
                    } else {
                        None
                    })
                    &&& local_rfc3339_of(row.reset_at, opt_string_seq(j.reset_at))
                    &&& reset_display_of(row, opt_string_seq(j.reset_display))
                    &&& j.text.is_none()
                },
        decreases rows@.len() - i,
    {
        let row = &rows[i].0;
        let g = rows[i].1;
        let reset_at = match row.reset_at {
            Some(t) => {
                let (text, off) = local_rfc3339(t);
                Some(text)
            },
            None => None,
        };
        let reset_display = format_kimi_reset_text(row.reset_at, row.reset_hint.as_ref());
        let week = if is_weekly_label(row.label.as_str()) {
            Some(g.week.rounded)
        } else {
            None
        };
        out.push(
            UsageRowJson {
                label: row.label.clone(),
                percent_used: Some(g.used.rounded),
                reset_at,
                reset_display,
                week_progress_percent: week,
                text: None,
            },
        );
        i = i + 1;
    }
    out
}

} // verus!
