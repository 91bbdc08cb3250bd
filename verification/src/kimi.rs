//! Kimi usage: reading the usage endpoint's reply into rows, and the rows'
//! labels and reset texts.
use vstd::prelude::*;
use crate::text::{
    parse_i64, parse_i64_seq, trim, trim_seq, to_lowercase, lowercase_of, contains, seq_contains, all_ascii, ascii_lowercase,
    push_str, to_owned_string, u64_to_string, nat_decimal, int_decimal, lemma_decimal_trimmed,
    lemma_decimal_roundtrip,
};
use crate::json::{
    JsonValue, JsonNumber, entries_get, json_get, opt_str, json_as_str, number_as_i64,
    number_f64_as_i64, entries_lookup, deref_opt, as_str, number_i64, number_f64_i64, get,
};
use crate::time::{
    Instant, timestamp_in_range, utc_from_timestamp, parse_rfc3339, rfc3339_instant, instant_of,
    local_clock_and_day, clock_time_at, day_at, offset_ok,
};

verus! {

/// One usage bucket.
#[derive(Debug)]
pub struct UsageRow {
    pub label: String,
    pub used: i64,
    pub limit: i64,
    /// A reset time given as text, as `resets at <text>`.
    pub reset_hint: Option<String>,
    /// The reset instant, when one could be read.
    pub reset_at: Option<Instant>,
}

pub struct RowView {
    pub label: Seq<char>,
    pub used: i64,
    pub limit: i64,
    pub reset_hint: Option<Seq<char>>,
    pub reset_at: Option<Instant>,
}

pub open spec fn opt_string_seq(o: Option<String>) -> Option<Seq<char>> {
    match o {
        Some(s) => Some(s@),
        None => None,
    }
}

impl View for UsageRow {
    type V = RowView;

    open spec fn view(&self) -> RowView {
        RowView {
            label: self.label@,
            used: self.used,
            limit: self.limit,
            reset_hint: opt_string_seq(self.reset_hint),
            reset_at: self.reset_at,
        }
    }
}

pub open spec fn rows_view(rows: Seq<UsageRow>) -> Seq<RowView> {
    rows.map_values(|r: UsageRow| r@)
}

// ---------------------------------------------------------------------------
// Numbers and reset times
// ---------------------------------------------------------------------------

/// An integer read from a JSON value: a number (as `i64` when it is one, else
/// its float value cast to `i64`), or a string that parses as an `i64`.
pub open spec fn spec_to_i64(v: Option<JsonValue>) -> Option<i64> {
    match v {
        Some(JsonValue::Number(n)) => Some(
            match number_as_i64(n) {
                Some(i) => i,
                None => number_f64_as_i64(n),
            },
        ),
        Some(JsonValue::Str(s)) => parse_i64_seq(s@),
        _ => None,
    }
}

pub fn to_i64(value: Option<&JsonValue>) -> (r: Option<i64>)
    ensures
        r == spec_to_i64(deref_opt(value)),
{
    match value {
        Some(JsonValue::Number(n)) => match number_i64(n) {
            Some(i) => Some(i),
            None => Some(number_f64_i64(n)),
        },
        Some(JsonValue::Str(s)) => parse_i64(s.as_str()),
        _ => None,
    }
}

/// The keys under which a reset time may be given, in the order they are tried.
pub open spec fn reset_keys() -> Seq<Seq<char>> {
    seq!["reset_at"@, "resetAt"@, "reset_time"@, "resetTime"@]
}

/// `resets at <text>` for the first of `keys` whose member is a string.
pub open spec fn spec_reset_hint_from(data: Seq<(String, JsonValue)>, keys: Seq<Seq<char>>) -> Option<
    Seq<char>,
>
    decreases keys.len(),
{
    if keys.len() == 0 {
        None
    } else {
        match opt_str(entries_get(data, keys[0])) {
            Some(v) => Some("resets at "@ + v),
            None => spec_reset_hint_from(data, keys.drop_first()),
        }
    }
}

/// `a / b` rounded toward zero, as Rust divides integers.
pub open spec fn div_trunc(a: int, b: int) -> int {
    if a >= 0 {
        a / b
    } else {
        -((-a) / b)
    }
}

/// An epoch value read as seconds, or as milliseconds when its magnitude is
/// above 10^12.
pub open spec fn epoch_seconds(v: i64) -> int {
    let mag = if v < 0 {
        -v
    } else {
        v as int
    };
    if mag > 1_000_000_000_000 {
        div_trunc(v as int, 1000)
    } else {
        v as int
    }
}

pub open spec fn spec_parse_epoch(v: i64) -> Option<Instant> {
    let s = epoch_seconds(v) as i64;
    if timestamp_in_range(s) {
        Some(Instant { secs: s, nanos: 0 })
    } else {
        None
    }
}

pub fn parse_epoch(value: i64) -> (r: Option<Instant>)
    ensures
        r == spec_parse_epoch(value),
{
    let wide: i128 = value as i128;
    let mag: i128 = if wide < 0 {
        -wide
    } else {
        wide
    };
    let seconds: i64 = if mag > 1_000_000_000_000i128 {
        if wide >= 0 {
            (wide / 1000) as i64
        } else {
            (-((-wide) / 1000)) as i64
        }
    } else {
        value
    };
    utc_from_timestamp(seconds)
}

/// The reset instant a JSON value gives: a number or numeric string read as an
/// epoch value, or an RFC 3339 string.
pub open spec fn spec_parse_reset_value(v: JsonValue) -> Option<Instant> {
    match v {
        JsonValue::Number(n) => spec_parse_epoch(spec_to_i64(Some(v)).unwrap()),
        JsonValue::Str(s) => match instant_of(rfc3339_instant(s@)) {
            Some(t) => Some(t),
            None => match parse_i64_seq(trim_seq(s@)) {
                Some(raw) => spec_parse_epoch(raw),
                None => None,
            },
        },
        _ => None,
    }
}

pub fn parse_reset_value(value: &JsonValue) -> (r: Option<Instant>)
    ensures
        r == spec_parse_reset_value(*value),
{
    match value {
        JsonValue::Number(_) => {
            let raw = to_i64(Some(value));
            match raw {
                Some(raw) => parse_epoch(raw),
                None => None,
            }
        },
        JsonValue::Str(s) => {
            if let Some(t) = parse_rfc3339(s.as_str()) {
                return Some(t);
            }
            let t = trim(s.as_str());
            match parse_i64(t.as_str()) {
                Some(raw) => parse_epoch(raw),
                None => None,
            }
        },
        _ => None,
    }
}

/// The first of `keys` whose member gives a reset instant.
pub open spec fn spec_reset_at_from(data: Seq<(String, JsonValue)>, keys: Seq<Seq<char>>) -> Option<
    Instant,
>
    decreases keys.len(),
{
    if keys.len() == 0 {
        None
    } else {
        match entries_get(data, keys[0]) {
            Some(v) => match spec_parse_reset_value(v) {
                Some(t) => Some(t),
                None => spec_reset_at_from(data, keys.drop_first()),
            },
            None => spec_reset_at_from(data, keys.drop_first()),
        }
    }
}

fn reset_key(i: usize) -> (k: &'static str)
    requires
        i < 4,
    ensures
        k@ == reset_keys()[i as int],
{
    proof {
        reveal_strlit("reset_at");
        reveal_strlit("resetAt");
        reveal_strlit("reset_time");
        reveal_strlit("resetTime");
    }
    if i == 0 {
        "reset_at"
    } else if i == 1 {
        "resetAt"
    } else if i == 2 {
        "reset_time"
    } else {
        "resetTime"
    }
}

pub fn reset_hint(data: &Vec<(String, JsonValue)>) -> (r: Option<String>)
    ensures
        opt_string_seq(r) == spec_reset_hint_from(data@, reset_keys()),
{
    let mut i: usize = 0;
    assert(reset_keys().skip(0) =~= reset_keys());
    while i < 4
        invariant
            i <= 4,
            spec_reset_hint_from(data@, reset_keys()) == spec_reset_hint_from(
                data@,
                reset_keys().skip(i as int),
            ),
        decreases 4 - i,
    {
        let key = reset_key(i);
        assert(reset_keys().skip(i as int).drop_first() =~= reset_keys().skip(i + 1));
        match entries_lookup(data, key) {
            Some(v) => match as_str(v) {
                Some(s) => {
                    let mut h = to_owned_string("resets at ");
                    push_str(&mut h, s);
                    return Some(h);
                },
                None => {},
            },
            None => {},
        }
        i = i + 1;
    }
    None
}

pub fn reset_at_timestamp(data: &Vec<(String, JsonValue)>) -> (r: Option<Instant>)
    ensures
        r == spec_reset_at_from(data@, reset_keys()),
{
    let mut i: usize = 0;
    assert(reset_keys().skip(0) =~= reset_keys());
    while i < 4
        invariant
            i <= 4,
            spec_reset_at_from(data@, reset_keys()) == spec_reset_at_from(
                data@,
                reset_keys().skip(i as int),
            ),
        decreases 4 - i,
    {
        let key = reset_key(i);
        assert(reset_keys().skip(i as int).drop_first() =~= reset_keys().skip(i + 1));
        match entries_lookup(data, key) {
            Some(v) => match parse_reset_value(v) {
                Some(t) => {
                    return Some(t);
                },
                None => {},
            },
            None => {},
        }
        i = i + 1;
    }
    None
}

// ---------------------------------------------------------------------------
// Rows
// ---------------------------------------------------------------------------

/// `x` wrapped into `i64` as two's-complement arithmetic does, for `x` within
/// one turn of the range.
pub open spec fn wrap_i64(x: int) -> i64 {
    if x > i64::MAX {
        (x - 18446744073709551616int) as i64
    } else if x < i64::MIN {
        (x + 18446744073709551616int) as i64
    } else {
        x as i64
    }
}

/// The string member `name`, or when there is no member `name`, the string
/// member `title`; else `default_label`.
pub open spec fn spec_row_label(data: Seq<(String, JsonValue)>, default_label: Seq<char>) -> Seq<
    char,
> {
    let v = match entries_get(data, "name"@) {
        Some(x) => Some(x),
        None => entries_get(data, "title"@),
    };
    match opt_str(v) {
        Some(s) => s,
        None => default_label,
    }
}

/// The row an object describes: `limit` and `used` (or `limit - remaining`
/// when `used` is missing), at least one of which must be readable.
pub open spec fn spec_to_usage_row(data: Seq<(String, JsonValue)>, default_label: Seq<char>) -> Option<
    RowView,
> {
    let limit = spec_to_i64(entries_get(data, "limit"@));
    let used0 = spec_to_i64(entries_get(data, "used"@));
    let remaining = spec_to_i64(entries_get(data, "remaining"@));
    let used = if used0.is_none() && limit.is_some() && remaining.is_some() {
        Some(wrap_i64(limit.unwrap() - remaining.unwrap()))
    } else {
        used0
    };
    if limit.is_none() && used.is_none() {
        None
    } else {
        Some(
            RowView {
                label: spec_row_label(data, default_label),
                used: match used {
                    Some(u) => u,
                    None => 0,
                },
                limit: match limit {
                    Some(l) => l,
                    None => 0,
                },
                reset_hint: spec_reset_hint_from(data, reset_keys()),
                reset_at: spec_reset_at_from(data, reset_keys()),
            },
        )
    }
}

pub open spec fn row_opt_view(r: Option<UsageRow>) -> Option<RowView> {
    match r {
        Some(r) => Some(r@),
        None => None,
    }
}

fn wrapping_sub(a: i64, b: i64) -> (r: i64)
    ensures
        r == wrap_i64(a - b),
{
    let d: i128 = (a as i128) - (b as i128);
    if d > 9223372036854775807i128 {
        (d - 18446744073709551616i128) as i64
    } else if d < -9223372036854775808i128 {
        (d + 18446744073709551616i128) as i64
    } else {
        d as i64
    }
}

pub fn to_usage_row(data: &Vec<(String, JsonValue)>, default_label: &str) -> (r: Option<UsageRow>)
    ensures
        row_opt_view(r) == spec_to_usage_row(data@, default_label@),
{
    let limit = to_i64(entries_lookup(data, "limit"));
    let mut used = to_i64(entries_lookup(data, "used"));
    if used.is_none() {
        if let Some(limit_val) = limit {
            if let Some(remaining) = to_i64(entries_lookup(data, "remaining")) {
                used = Some(wrapping_sub(limit_val, remaining));
            }
        }
    }
    if limit.is_none() && used.is_none() {
        return None;
    }
    let named = match entries_lookup(data, "name") {
        Some(x) => Some(x),
        None => entries_lookup(data, "title"),
    };
    let label = match named {
        Some(x) => match as_str(x) {
            Some(s) => to_owned_string(s),
            None => to_owned_string(default_label),
        },
        None => to_owned_string(default_label),
    };
    Some(
        UsageRow {
            label,
            used: match used {
                Some(u) => u,
                None => 0,
            },
            limit: match limit {
                Some(l) => l,
                None => 0,
            },
            reset_hint: reset_hint(data),
            reset_at: reset_at_timestamp(data),
        },
    )
}

/// The first of four optional values that is present.
pub open spec fn first_present(
    a: Option<JsonValue>,
    b: Option<JsonValue>,
    c: Option<JsonValue>,
    d: Option<JsonValue>,
) -> Option<JsonValue> {
    if a.is_some() {
        a
    } else if b.is_some() {
        b
    } else if c.is_some() {
        c
    } else {
        d
    }
}

/// The members a limit entry is read from: its `detail` object when it has
/// one, else the entry itself.
pub open spec fn limit_detail(m: Seq<(String, JsonValue)>) -> Seq<(String, JsonValue)> {
    match entries_get(m, "detail"@) {
        Some(JsonValue::Object(d)) => d@,
        _ => m,
    }
}

/// The row of entry `idx` of `limits`: labelled by the first `name` or
/// `title` found on the entry or its detail, else `Limit #<idx + 1>`.
pub open spec fn spec_extract_limit_row(item: JsonValue, idx: int) -> Option<RowView> {
    match item {
        JsonValue::Object(m) => {
            let detail = limit_detail(m@);
            let lv = first_present(
                entries_get(m@, "name"@),
                entries_get(detail, "name"@),
                entries_get(m@, "title"@),
                entries_get(detail, "title"@),
            );
            let label = match opt_str(lv) {
                Some(s) => s,
                None => "Limit #"@ + nat_decimal((idx + 1) as nat),
            };
            spec_to_usage_row(detail, label)
        },
        _ => None,
    }
}

pub fn extract_limit_row(item: &JsonValue, idx: usize) -> (r: Option<UsageRow>)
    requires
        idx < usize::MAX,
    ensures
        row_opt_view(r) == spec_extract_limit_row(*item, idx as int),
{
    let item_map = match item {
        JsonValue::Object(m) => m,
        _ => {
            return None;
        },
    };
    let detail = match entries_lookup(item_map, "detail") {
        Some(JsonValue::Object(d)) => d,
        _ => item_map,
    };
    assert(detail@ == limit_detail(item_map@));
    let a = entries_lookup(item_map, "name");
    let b = entries_lookup(detail, "name");
    let c = entries_lookup(item_map, "title");
    let d = entries_lookup(detail, "title");
    let lv = if a.is_some() {
        a
    } else if b.is_some() {
        b
    } else if c.is_some() {
        c
    } else {
        d
    };
    let label = match lv {
        Some(x) => match as_str(x) {
            Some(s) => to_owned_string(s),
            None => {
                let mut l = to_owned_string("Limit #");
                let n = u64_to_string((idx + 1) as u64);
                push_str(&mut l, n.as_str());
                l
            },
        },
        None => {
            let mut l = to_owned_string("Limit #");
            let n = u64_to_string((idx + 1) as u64);
            push_str(&mut l, n.as_str());
            l
        },
    };
    to_usage_row(detail, label.as_str())
}

/// The rows of the `limits` entries, in order, skipping entries without one.
pub open spec fn spec_limit_rows(items: Seq<JsonValue>) -> Seq<RowView>
    decreases items.len(),
{
    if items.len() == 0 {
        Seq::empty()
    } else {
        let prev = spec_limit_rows(items.drop_last());
        match spec_extract_limit_row(items.last(), items.len() - 1) {
            Some(r) => prev.push(r),
            None => prev,
        }
    }
}

/// The rows of a usage reply: one per readable entry of its `limits` array,
/// then the `usage` object's row, labelled `Weekly limit` by default.
pub open spec fn spec_collect_kimi_rows(payload: JsonValue) -> Seq<RowView> {
    let a = match json_get(payload, "limits"@) {
        Some(JsonValue::Array(items)) => spec_limit_rows(items@),
        _ => Seq::empty(),
    };
    match json_get(payload, "usage"@) {
        Some(JsonValue::Object(u)) => match spec_to_usage_row(u@, "Weekly limit"@) {
            Some(r) => a.push(r),
            None => a,
        },
        _ => a,
    }
}

pub fn collect_kimi_rows(payload: &JsonValue) -> (r: Vec<UsageRow>)
    ensures
        rows_view(r@) == spec_collect_kimi_rows(*payload),
{
    let mut rows: Vec<UsageRow> = Vec::new();
    let ghost limits_rows: Seq<RowView> = Seq::empty();
    match get(payload, "limits") {
        Some(JsonValue::Array(items)) => {
            let mut i: usize = 0;
            while i < items.len()
                invariant
                    i <= items@.len(),
                    rows_view(rows@) == spec_limit_rows(items@.take(i as int)),
                decreases items@.len() - i,
            {
                let row = extract_limit_row(&items[i], i);
                assert(items@.take(i + 1).drop_last() =~= items@.take(i as int));
                assert(items@.take(i + 1).last() == items@[i as int]);
                match row {
                    Some(row) => {
                        rows.push(row);
                        assert(rows_view(rows@) =~= spec_limit_rows(items@.take(i + 1)));
                    },
                    None => {
                        assert(rows_view(rows@) =~= spec_limit_rows(items@.take(i + 1)));
                    },
                }
                i = i + 1;
            }
            assert(items@.take(items@.len() as int) =~= items@);
        },
        _ => {
            assert(rows_view(rows@) =~= Seq::<RowView>::empty());
        },
    }
    match get(payload, "usage") {
        Some(JsonValue::Object(u)) => match to_usage_row(u, "Weekly limit") {
            Some(row) => {
                let ghost before = rows_view(rows@);
                rows.push(row);
                assert(rows_view(rows@) =~= before.push(row@));
            },
            None => {},
        },
        _ => {},
    }
    rows
}

// ---------------------------------------------------------------------------
// Labels and reset texts
// ---------------------------------------------------------------------------

/// A label names a weekly limit when its lower-case form contains `week`.
pub open spec fn spec_is_weekly_label(label: Seq<char>) -> bool {
    seq_contains(lowercase_of(label), "week"@)
}

pub fn is_weekly_label(label: &str) -> (r: bool)
    ensures
        r == spec_is_weekly_label(label@),
        all_ascii(label@) ==> r == seq_contains(ascii_lowercase(label@), "week"@),
{
    let lower = to_lowercase(label);
    contains(lower.as_str(), "week")
}

/// `resets <time> on <day>`.
pub open spec fn reset_sentence(time: Seq<char>, day: Seq<char>) -> Seq<char> {
    "resets "@ + time + " on "@ + day
}

/// The reset text of an instant seen at a UTC offset: `resets <HH:MM> on
/// <day>`.
pub open spec fn local_reset_text(t: Instant, off: i32) -> Seq<char> {
    reset_sentence(clock_time_at(t, off), day_at(t, off))
}

/// The reset text of a row, given the local clock time and day of its reset
/// instant (`local` is `None` exactly when the row has no instant): the instant
/// when there is one, else the hint.
pub open spec fn spec_reset_text(
    local: Option<(Seq<char>, Seq<char>)>,
    hint: Option<Seq<char>>,
) -> Option<Seq<char>> {
    match local {
        Some((t, d)) => Some(reset_sentence(t, d)),
        None => hint,
    }
}

pub fn reset_text_from_parts(local: Option<(&str, &str)>, hint: Option<&String>) -> (r: Option<
    String,
>)
    ensures
        opt_string_seq(r) == spec_reset_text(
            match local {
                Some((t, d)) => Some((t@, d@)),
                None => None,
            },
            match hint {
                Some(h) => Some(h@),
                None => None,
            },
        ),
{
    match local {
        Some((t, d)) => {
            let mut s = to_owned_string("resets ");
            push_str(&mut s, t);
            push_str(&mut s, " on ");
            push_str(&mut s, d);
            Some(s)
        },
        None => match hint {
            Some(h) => Some(h.clone()),
            None => None,
        },
    }
}

/// The reset text of a row: `resets <HH:MM> on <day>` in local time when the
/// reset instant is known, else the hint.
pub fn format_kimi_reset_text(reset_at: Option<Instant>, reset_hint: Option<&String>) -> (r: Option<
    String,
>)
    ensures
        reset_at.is_none() ==> opt_string_seq(r) == match reset_hint {
            Some(h) => Some(h@),
            None => None,
        },
        forall|t: Instant|
            reset_at == Some(t) ==> exists|off: i32|
                offset_ok(off) && opt_string_seq(r) == Some(#[trigger] local_reset_text(t, off)),
{
    match reset_at {
        Some(t) => {
            let (time, day, off) = local_clock_and_day(t);
            let r = reset_text_from_parts(Some((time.as_str(), day.as_str())), reset_hint);
            assert(opt_string_seq(r) == Some(local_reset_text(t, off)));
            r
        },
        None => reset_text_from_parts(None, reset_hint),
    }
}

/// ` (<reset text>)`, or nothing without a reset text.
pub open spec fn reset_suffix(text: Option<Seq<char>>) -> Seq<char> {
    match text {
        Some(t) => " ("@ + t + ")"@,
        None => Seq::empty(),
    }
}

pub fn reset_suffix_of(text: Option<&str>) -> (r: String)
    ensures
        r@ == reset_suffix(
            match text {
                Some(t) => Some(t@),
                None => None,
            },
        ),
{
    match text {
        Some(t) => {
            let mut s = to_owned_string(" (");
            push_str(&mut s, t);
            push_str(&mut s, ")");
            s
        },
        None => String::new(),
    }
}

/// A row's reset text in parentheses, or nothing.
pub fn format_kimi_reset(reset_at: Option<Instant>, reset_hint: Option<&String>) -> (r: String)
    ensures
        reset_at.is_none() ==> r@ == reset_suffix(
            match reset_hint {
                Some(h) => Some(h@),
                None => None,
            },
        ),
        forall|t: Instant|
            reset_at == Some(t) ==> exists|off: i32|
                offset_ok(off) && r@ == reset_suffix(Some(#[trigger] local_reset_text(t, off))),
{
    let text = format_kimi_reset_text(reset_at, reset_hint);
    match &text {
        Some(t) => reset_suffix_of(Some(t.as_str())),
        None => reset_suffix_of(None),
    }
}

/// A reset time given as a JSON integer is epoch seconds, or epoch
/// milliseconds when its magnitude is above 10^12 (rounded toward zero to
/// whole seconds); the instant exists when chrono's calendar holds it.
pub proof fn lemma_reset_number(n: JsonNumber, v: i64)
    requires
        number_as_i64(n) == Some(v),
    ensures
        v > 1_000_000_000_000 ==> spec_parse_reset_value(JsonValue::Number(n)) == (if timestamp_in_range(
            (v / 1000) as i64,
        ) {
            Some(Instant { secs: (v / 1000) as i64, nanos: 0 })
        } else {
            None
        }),
        v < -1_000_000_000_000 ==> spec_parse_reset_value(JsonValue::Number(n)) == (if timestamp_in_range(
            (-((-v) / 1000)) as i64,
        ) {
            Some(Instant { secs: (-((-v) / 1000)) as i64, nanos: 0 })
        } else {
            None
        }),
        -1_000_000_000_000 <= v <= 1_000_000_000_000 ==> spec_parse_reset_value(JsonValue::Number(n))
            == (if timestamp_in_range(v) {
            Some(Instant { secs: v, nanos: 0 })
        } else {
            None
        }),
{
}

/// A reset time written as the decimal digits of an integer reads as the
/// same instant as that integer written as a JSON number (unless chrono
/// reads the text as an RFC 3339 time).
pub proof fn lemma_reset_number_text_agree(n: JsonNumber, v: i64, s: String)
    requires
        number_as_i64(n) == Some(v),
        s@ == int_decimal(v as int),
        rfc3339_instant(s@).is_none(),
    ensures
        spec_parse_reset_value(JsonValue::Str(s)) == spec_parse_reset_value(JsonValue::Number(n)),
{
    lemma_decimal_trimmed(v);
    lemma_decimal_roundtrip(v);
}

/// The label of a limits entry that names itself with a string: the name its
/// detail gives (its `name`, or its `title` when it has no `name`) when that is
/// a string, else the entry's own name; never the numbered default.
pub proof fn lemma_limit_row_label(item: JsonValue, idx: int, name: Seq<char>)
    requires
        item matches JsonValue::Object(m) && opt_str(entries_get(m@, "name"@)) == Some(name),
    ensures
        spec_extract_limit_row(item, idx) matches Some(r) ==> ({
            let d = limit_detail(item->Object_0@);
            let own = match entries_get(d, "name"@) {
                Some(x) => Some(x),
                None => entries_get(d, "title"@),
            };
            r.label == match opt_str(own) {
                Some(x) => x,
                None => name,
            }
        }),
{
}

} // verus!
