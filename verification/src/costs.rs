//! OpenAI API costs: which amounts of the costs endpoint's reply make up the
//! total and each line item, the query window, and the text report.
//!
//! Amounts are kept as the JSON numbers they were read from; adding them up is
//! floating-point work left to the caller, in the order given here.
use vstd::prelude::*;
use crate::text::{push_str, to_owned_string, str_eq, to_lowercase, lowercase_of};
use crate::assoc::{alist_put, alist_get, distinct_keys, lemma_put_distinct};
use crate::json::{
    JsonValue, JsonNumber, entries_get, entries_index, lemma_entries_index, json_get, opt_str,
    entries_lookup, as_str, get, deref_opt,
};
use crate::time::{
    Instant, instant_lt, instant_before, parse_rfc3339, rfc3339_instant, instant_of,
    parse_ymd_midnight, ymd_midnight_utc, utc_year_month, utc_year_month_of, utc_month_start,
    utc_month_start_secs, format_time, format_time_local, rfc3339_secs_text, next_month,
    inside_calendar_by_a_day, offset_ok,
};

verus! {

// ---------------------------------------------------------------------------
// Amounts
// ---------------------------------------------------------------------------

/// An amount and the currency given with it.
pub type Amount = (JsonNumber, Option<String>);

pub open spec fn amount_view(a: Option<Amount>) -> Option<(JsonNumber, Option<Seq<char>>)> {
    match a {
        Some((n, c)) => Some(
            (
                n,
                match c {
                    Some(s) => Some(s@),
                    None => None,
                },
            ),
        ),
        None => None,
    }
}

pub open spec fn or_currency(a: Option<Seq<char>>, b: Option<Seq<char>>) -> Option<Seq<char>> {
    if a.is_some() {
        a
    } else {
        b
    }
}

/// The amount a JSON value gives: a number itself; for an object, its numeric
/// `value`, else its numeric `amount`, else the amount nested under `amount`,
/// else under `total_cost`, with the object's `currency` string (or, when it
/// has none, the nested one).
pub open spec fn spec_extract_amount(v: JsonValue) -> Option<(JsonNumber, Option<Seq<char>>)>
    decreases v,
{
    match v {
        JsonValue::Number(n) => Some((n, None)),
        JsonValue::Object(m) => {
            let currency = opt_str(entries_get(m@, "currency"@));
            match entries_get(m@, "value"@) {
                Some(JsonValue::Number(n)) => Some((n, currency)),
                _ => match entries_get(m@, "amount"@) {
                    Some(JsonValue::Number(n)) => Some((n, currency)),
                    _ => {
                        let ia = entries_index(m@, "amount"@);
                        let nested_amount = if 0 <= ia < m@.len() {
                            spec_extract_amount(m@[ia].1)
                        } else {
                            None
                        };
                        match nested_amount {
                            Some((n, c)) => Some((n, or_currency(currency, c))),
                            None => {
                                let it = entries_index(m@, "total_cost"@);
                                let nested_total = if 0 <= it < m@.len() {
                                    spec_extract_amount(m@[it].1)
                                } else {
                                    None
                                };
                                match nested_total {
                                    Some((n, c)) => Some((n, or_currency(currency, c))),
                                    None => None,
                                }
                            },
                        }
                    },
                }
            }
        },
        _ => None,
    }
}

/// The amount under `key`, if the member exists and gives one.
pub open spec fn member_amount(m: Seq<(String, JsonValue)>, key: Seq<char>) -> Option<
    (JsonNumber, Option<Seq<char>>),
> {
    match entries_get(m, key) {
        Some(x) => spec_extract_amount(x),
        None => None,
    }
}

proof fn lemma_member_amount(m: Seq<(String, JsonValue)>, key: Seq<char>)
    ensures
        member_amount(m, key) == (if 0 <= entries_index(m, key) < m.len() {
            spec_extract_amount(m[entries_index(m, key)].1)
        } else {
            None
        }),
{
    lemma_entries_index(m, key);
}

fn clone_opt_str(s: Option<&str>) -> (r: Option<String>)
    ensures
        match r {
            Some(x) => s.is_some() && x@ == s.unwrap()@,
            None => s.is_none(),
        },
{
    match s {
        Some(x) => Some(to_owned_string(x)),
        None => None,
    }
}

pub fn extract_amount(value: &JsonValue) -> (r: Option<Amount>)
    ensures
        amount_view(r) == spec_extract_amount(*value),
    decreases value,
{
    match value {
        JsonValue::Number(n) => Some((*n, None)),
        JsonValue::Object(m) => {
            let currency = clone_opt_str(match entries_lookup(m, "currency") {
                Some(c) => as_str(c),
                None => None,
            });
            match entries_lookup(m, "value") {
                Some(JsonValue::Number(n)) => {
                    return Some((*n, currency));
                },
                _ => {},
            }
            match entries_lookup(m, "amount") {
                Some(JsonValue::Number(n)) => {
                    return Some((*n, currency));
                },
                _ => {},
            }
            proof {
                lemma_member_amount(m@, "amount"@);
                lemma_member_amount(m@, "total_cost"@);
                lemma_entries_index(m@, "amount"@);
                lemma_entries_index(m@, "total_cost"@);
            }
            let nested = match entries_lookup(m, "amount") {
                Some(x) => {
                    proof {
                        let ia = entries_index(m@, "amount"@);
                        assert(*x == m@[ia].1);
                        assert(decreases_to!(*value => m@[ia].1));
                    }
                    extract_amount(x)
                },
                None => None,
            };
            match nested {
                Some((n, c)) => {
                    let cur = if currency.is_some() {
                        currency
                    } else {
                        c
                    };
                    return Some((n, cur));
                },
                None => {},
            }
            let nested_total = match entries_lookup(m, "total_cost") {
                Some(x) => {
                    proof {
                        let it = entries_index(m@, "total_cost"@);
                        assert(*x == m@[it].1);
                        assert(decreases_to!(*value => m@[it].1));
                    }
                    extract_amount(x)
                },
                None => None,
            };
            match nested_total {
                Some((n, c)) => {
                    let cur = if currency.is_some() {
                        currency
                    } else {
                        c
                    };
                    Some((n, cur))
                },
                None => None,
            }
        },
        _ => None,
    }
}

// ---------------------------------------------------------------------------
// Summing up a reply
// ---------------------------------------------------------------------------

/// A part of the total: one amount, or the sum of a bucket's line items
/// (added up from zero first, then added to the total).
#[derive(Debug)]
pub enum CostTerm {
    Single(JsonNumber),
    Group(Vec<JsonNumber>),
}

pub enum TermView {
    Single(JsonNumber),
    Group(Seq<JsonNumber>),
}

pub open spec fn term_view(t: CostTerm) -> TermView {
    match t {
        CostTerm::Single(n) => TermView::Single(n),
        CostTerm::Group(g) => TermView::Group(g@),
    }
}

pub open spec fn terms_view(v: Seq<CostTerm>) -> Seq<TermView> {
    v.map_values(|t: CostTerm| term_view(t))
}

pub open spec fn items_view(v: Seq<(String, Vec<JsonNumber>)>) -> Seq<(Seq<char>, Seq<JsonNumber>)> {
    v.map_values(|p: (String, Vec<JsonNumber>)| (p.0@, p.1@))
}

/// What a costs reply adds up to. The total, when any cost was seen, is the
/// sum from zero of `total_terms` in order; each line item's amount is the sum
/// from zero of its numbers in order.
#[derive(Debug)]
pub struct CostSummary {
    pub total_terms: Option<Vec<CostTerm>>,
    pub currency: Option<String>,
    /// Line items by name; names are distinct.
    pub line_items: Vec<(String, Vec<JsonNumber>)>,
}

pub struct CostState {
    pub terms: Seq<TermView>,
    pub saw: bool,
    pub currency: Option<Seq<char>>,
    pub items: Seq<(Seq<char>, Seq<JsonNumber>)>,
}

pub open spec fn initial_state() -> CostState {
    CostState { terms: Seq::empty(), saw: false, currency: None, items: Seq::empty() }
}

/// The amount under member `key` of a value.
pub open spec fn value_amount(v: JsonValue, key: Seq<char>) -> Option<(JsonNumber, Option<Seq<char>>)> {
    match json_get(v, key) {
        Some(x) => spec_extract_amount(x),
        None => None,
    }
}

/// A line item's amount: its `cost`, else its `amount`.
pub open spec fn item_amount(item: JsonValue) -> Option<(JsonNumber, Option<Seq<char>>)> {
    match value_amount(item, "cost"@) {
        Some(a) => Some(a),
        None => value_amount(item, "amount"@),
    }
}

/// A line item's name: its `name` string, else its `type` string, else
/// `unknown`.
pub open spec fn item_name(item: JsonValue) -> Seq<char> {
    match opt_str(json_get(item, "name"@)) {
        Some(n) => n,
        None => match opt_str(json_get(item, "type"@)) {
            Some(t) => t,
            None => "unknown"@,
        },
    }
}

/// `m` with `a` added to the amounts under `k`.
pub open spec fn alist_add(m: Seq<(Seq<char>, Seq<JsonNumber>)>, k: Seq<char>, a: JsonNumber) -> Seq<
    (Seq<char>, Seq<JsonNumber>),
> {
    alist_put(
        m,
        k,
        match alist_get(m, k) {
            Some(s) => s.push(a),
            None => seq![a],
        },
    )
}

/// The line items of one bucket folded into `items`: the new items, the
/// bucket's amounts in order, and the currency.
pub open spec fn line_fold(
    arr: Seq<JsonValue>,
    items: Seq<(Seq<char>, Seq<JsonNumber>)>,
    currency: Option<Seq<char>>,
) -> (Seq<(Seq<char>, Seq<JsonNumber>)>, Seq<JsonNumber>, Option<Seq<char>>)
    decreases arr.len(),
{
    if arr.len() == 0 {
        (items, Seq::empty(), currency)
    } else {
        let prev = line_fold(arr.drop_last(), items, currency);
        match item_amount(arr.last()) {
            Some((a, c)) => (
                alist_add(prev.0, item_name(arr.last()), a),
                prev.1.push(a),
                or_currency(prev.2, c),
            ),
            None => prev,
        }
    }
}

/// One bucket of `data`: its `total_cost`, else its `amount`, counts toward
/// the total; its line items go to the line items, and their sum counts toward
/// the total when the bucket gave neither. The first currency seen is kept.
pub open spec fn bucket_step(st: CostState, bucket: JsonValue) -> CostState {
    let a = value_amount(bucket, "total_cost"@);
    let st1 = match a {
        Some((n, c)) => CostState {
            terms: st.terms.push(TermView::Single(n)),
            saw: true,
            currency: or_currency(st.currency, c),
            items: st.items,
        },
        None => st,
    };
    let used1 = a.is_some();
    let b = if !used1 {
        value_amount(bucket, "amount"@)
    } else {
        None
    };
    let st2 = match b {
        Some((n, c)) => CostState {
            terms: st1.terms.push(TermView::Single(n)),
            saw: true,
            currency: or_currency(st1.currency, c),
            items: st1.items,
        },
        None => st1,
    };
    let used2 = used1 || b.is_some();
    match json_get(bucket, "line_items"@) {
        Some(JsonValue::Array(arr)) => {
            let f = line_fold(arr@, st2.items, st2.currency);
            if f.1.len() > 0 {
                CostState {
                    terms: if !used2 {
                        st2.terms.push(TermView::Group(f.1))
                    } else {
                        st2.terms
                    },
                    saw: true,
                    currency: f.2,
                    items: f.0,
                }
            } else {
                CostState { terms: st2.terms, saw: st2.saw, currency: f.2, items: f.0 }
            }
        },
        _ => st2,
    }
}

pub open spec fn buckets_fold(bs: Seq<JsonValue>) -> CostState
    decreases bs.len(),
{
    if bs.len() == 0 {
        initial_state()
    } else {
        bucket_step(buckets_fold(bs.drop_last()), bs.last())
    }
}

/// A bucket counts toward the total once: a bucket that gives its own amount
/// (`total_cost`, else `amount`) adds exactly that amount, whatever its line
/// items; a bucket with neither adds at most one term, the sum of its line
/// items. Earlier terms stay as they were.
pub proof fn lemma_bucket_counted_once(st: CostState, bucket: JsonValue)
    ensures
        value_amount(bucket, "total_cost"@) matches Some((n, c)) ==> bucket_step(st, bucket).terms
            == st.terms.push(TermView::Single(n)),
        value_amount(bucket, "total_cost"@).is_none() ==> (value_amount(bucket, "amount"@) matches Some(
            (n, c),
        ) ==> bucket_step(st, bucket).terms == st.terms.push(TermView::Single(n))),
        value_amount(bucket, "total_cost"@).is_none() && value_amount(bucket, "amount"@).is_none()
            ==> (bucket_step(st, bucket).terms == st.terms || (bucket_step(st, bucket).terms.len()
            == st.terms.len() + 1 && bucket_step(st, bucket).terms.drop_last() == st.terms
            && bucket_step(st, bucket).terms.last() is Group)),
{
}

/// The state after reading every bucket of the reply's `data` array.
pub open spec fn spec_summarize(value: JsonValue) -> CostState {
    match json_get(value, "data"@) {
        Some(JsonValue::Array(bs)) => buckets_fold(bs@),
        _ => initial_state(),
    }
}

pub open spec fn opt_seq(o: Option<String>) -> Option<Seq<char>> {
    match o {
        Some(s) => Some(s@),
        None => None,
    }
}

fn copy_push(v: &Vec<JsonNumber>, a: JsonNumber) -> (r: Vec<JsonNumber>)
    ensures
        r@ == v@.push(a),
{
    let mut r: Vec<JsonNumber> = Vec::new();
    let mut i: usize = 0;
    while i < v.len()
        invariant
            i <= v@.len(),
            r@ == v@.take(i as int),
        decreases v@.len() - i,
    {
        r.push(v[i]);
        i = i + 1;
        assert(r@ =~= v@.take(i as int));
    }
    r.push(a);
    assert(r@ =~= v@.push(a));
    r
}

fn add_line_item(items: &mut Vec<(String, Vec<JsonNumber>)>, name: &str, a: JsonNumber)
    requires
        distinct_keys(items_view(old(items)@)),
    ensures
        items_view(final(items)@) == alist_add(items_view(old(items)@), name@, a),
        distinct_keys(items_view(final(items)@)),
{
    let ghost before = items_view(items@);
    let mut i: usize = 0;
    while i < items.len()
        invariant
            i <= items@.len(),
            before == items_view(items@),
            before == items_view(old(items)@),
            distinct_keys(before),
            forall|j: int| 0 <= j < i ==> items@[j].0@ != name@,
        decreases items@.len() - i,
    {
        if str_eq(items[i].0.as_str(), name) {
            let ghost ch = choose|j: int| 0 <= j < before.len() && #[trigger] before[j].0 == name@;
            assert(before[i as int].0 == name@);
            assert(ch == i as int) by {
                if ch < i {
                    assert(items@[ch].0@ != name@);
                } else if ch > i {
                    assert(before[i as int].0 != before[ch].0);
                }
            }
            let inner = copy_push(&items[i].1, a);
            let ghost nv = before[i as int].1.push(a);
            assert(alist_get(before, name@) == Some(before[i as int].1));
            proof {
                lemma_put_distinct(before, name@, nv);
            }
            assert(alist_put(before, name@, nv) == before.update(i as int, (name@, nv)));
            items.set(i, (to_owned_string(name), inner));
            assert(items_view(items@) =~= alist_add(before, name@, a));
            return;
        }
        i = i + 1;
    }
    assert(!exists|j: int| 0 <= j < before.len() && #[trigger] before[j].0 == name@) by {
        assert forall|j: int| 0 <= j < before.len() implies #[trigger] before[j].0 != name@ by {
            assert(items@[j].0@ != name@);
        }
    }
    proof {
        lemma_put_distinct(before, name@, seq![a]);
    }
    let mut inner: Vec<JsonNumber> = Vec::new();
    inner.push(a);
    items.push((to_owned_string(name), inner));
    assert(items_view(items@) =~= alist_add(before, name@, a));
}

fn member_amount_of(v: &JsonValue, key: &str) -> (r: Option<Amount>)
    ensures
        amount_view(r) == value_amount(*v, key@),
{
    match get(v, key) {
        Some(x) => extract_amount(x),
        None => None,
    }
}

fn opt_str_of<'a>(v: &'a JsonValue, key: &str) -> (r: Option<&'a str>)
    ensures
        match r {
            Some(s) => opt_str(json_get(*v, key@)) == Some(s@),
            None => opt_str(json_get(*v, key@)).is_none(),
        },
{
    match get(v, key) {
        Some(x) => as_str(x),
        None => None,
    }
}

fn merge_currency(cur: Option<String>, c: Option<String>) -> (r: Option<String>)
    ensures
        opt_seq(r) == or_currency(opt_seq(cur), opt_seq(c)),
{
    if cur.is_some() {
        cur
    } else {
        c
    }
}

/// Reads one bucket's line items into `items`; returns the bucket's amounts.
fn read_line_items(
    arr: &Vec<JsonValue>,
    items: &mut Vec<(String, Vec<JsonNumber>)>,
    currency: &mut Option<String>,
) -> (g: Vec<JsonNumber>)
    requires
        distinct_keys(items_view(old(items)@)),
    ensures
        ({
            let f = line_fold(arr@, items_view(old(items)@), opt_seq(*old(currency)));
            &&& items_view(final(items)@) == f.0
            &&& g@ == f.1
            &&& opt_seq(*final(currency)) == f.2
        }),
        distinct_keys(items_view(final(items)@)),
{
    let ghost items0 = items_view(items@);
    let ghost cur0 = opt_seq(*currency);
    let mut group: Vec<JsonNumber> = Vec::new();
    let mut i: usize = 0;
    while i < arr.len()
        invariant
            i <= arr@.len(),
            items0 == items_view(old(items)@),
            cur0 == opt_seq(*old(currency)),
            distinct_keys(items_view(items@)),
            ({
                let f = line_fold(arr@.take(i as int), items0, cur0);
                &&& items_view(items@) == f.0
                &&& group@ == f.1
                &&& opt_seq(*currency) == f.2
            }),
        decreases arr@.len() - i,
    {
        let item = &arr[i];
        assert(arr@.take(i + 1).drop_last() =~= arr@.take(i as int));
        assert(arr@.take(i + 1).last() == arr@[i as int]);
        let amount = match member_amount_of(item, "cost") {
            Some(a) => Some(a),
            None => member_amount_of(item, "amount"),
        };
        match amount {
            Some((a, c)) => {
                let name: &str = match opt_str_of(item, "name") {
                    Some(n) => n,
                    None => match opt_str_of(item, "type") {
                        Some(t) => t,
                        None => "unknown",
                    },
                };
                assert(name@ == item_name(arr@[i as int]));
                add_line_item(items, name, a);
                group.push(a);
                if currency.is_none() {
                    *currency = c;
                }
            },
            None => {},
        }
        i = i + 1;
    }
    assert(arr@.take(arr@.len() as int) =~= arr@);
    group
}

pub open spec fn summary_state(s: CostSummary) -> (Option<Seq<TermView>>, Option<Seq<char>>, Seq<
    (Seq<char>, Seq<JsonNumber>),
>) {
    (
        match s.total_terms {
            Some(t) => Some(terms_view(t@)),
            None => None,
        },
        opt_seq(s.currency),
        items_view(s.line_items@),
    )
}

/// What a costs reply adds up to.
pub fn summarize_costs(value: &JsonValue) -> (r: CostSummary)
    ensures
        ({
            let st = spec_summarize(*value);
            summary_state(r) == (
                if st.saw {
                    Some(st.terms)
                } else {
                    None
                },
                st.currency,
                st.items,
            )
        }),
        distinct_keys(items_view(r.line_items@)),
{
    let mut terms: Vec<CostTerm> = Vec::new();
    let mut saw = false;
    let mut currency: Option<String> = None;
    let mut items: Vec<(String, Vec<JsonNumber>)> = Vec::new();
    assert(terms_view(terms@) =~= Seq::<TermView>::empty());
    assert(items_view(items@) =~= Seq::<(Seq<char>, Seq<JsonNumber>)>::empty());
    match get(value, "data") {
        Some(JsonValue::Array(buckets)) => {
            let mut i: usize = 0;
            while i < buckets.len()
                invariant
                    i <= buckets@.len(),
                    distinct_keys(items_view(items@)),
                    ({
                        let st = buckets_fold(buckets@.take(i as int));
                        &&& terms_view(terms@) == st.terms
                        &&& saw == st.saw
                        &&& opt_seq(currency) == st.currency
                        &&& items_view(items@) == st.items
                    }),
                decreases buckets@.len() - i,
            {
                let bucket = &buckets[i];
                assert(buckets@.take(i + 1).drop_last() =~= buckets@.take(i as int));
                assert(buckets@.take(i + 1).last() == buckets@[i as int]);
                let mut used = false;
                match member_amount_of(bucket, "total_cost") {
                    Some((a, c)) => {
                        let ghost t0 = terms_view(terms@);
                        terms.push(CostTerm::Single(a));
                        assert(terms_view(terms@) =~= t0.push(TermView::Single(a)));
                        saw = true;
                        used = true;
                        currency = merge_currency(currency, c);
                    },
                    None => {},
                }
                if !used {
                    match member_amount_of(bucket, "amount") {
                        Some((a, c)) => {
                            let ghost t0 = terms_view(terms@);
                            terms.push(CostTerm::Single(a));
                            assert(terms_view(terms@) =~= t0.push(TermView::Single(a)));
                            saw = true;
                            used = true;
                            currency = merge_currency(currency, c);
                        },
                        None => {},
                    }
                }
                match get(bucket, "line_items") {
                    Some(JsonValue::Array(arr)) => {
                        let group = read_line_items(arr, &mut items, &mut currency);
                        if group.len() > 0 {
                            saw = true;
                            if !used {
                                let ghost t0 = terms_view(terms@);
                                let ghost gv = group@;
                                terms.push(CostTerm::Group(group));
                                assert(terms_view(terms@) =~= t0.push(TermView::Group(gv)));
                            }
                        }
                    },
                    _ => {},
                }
                i = i + 1;
            }
            assert(buckets@.take(buckets@.len() as int) =~= buckets@);
        },
        _ => {},
    }
    CostSummary {
        total_terms: if saw {
            Some(terms)
        } else {
            None
        },
        currency,
        line_items: items,
    }
}

// ---------------------------------------------------------------------------
// The query window
// ---------------------------------------------------------------------------

/// The instant a `--start` or `--end` value names: an RFC 3339 time, else a
/// `YYYY-MM-DD` date at midnight UTC.
pub open spec fn spec_parse_datetime(input: Seq<char>) -> Option<Instant> {
    match instant_of(rfc3339_instant(input)) {
        Some(t) => Some(t),
        None => match ymd_midnight_utc(input) {
            Some(s) => Some(Instant { secs: s, nanos: 0 }),
            None => None,
        },
    }
}

pub open spec fn invalid_datetime_message(input: Seq<char>) -> Seq<char> {
    "invalid date or time: "@ + input
}

pub fn parse_datetime(input: &str) -> (r: Result<Instant, String>)
    ensures
        match r {
            Ok(t) => spec_parse_datetime(input@) == Some(t),
            Err(e) => spec_parse_datetime(input@).is_none() && e@ == invalid_datetime_message(
                input@,
            ),
        },
{
    if let Some(t) = parse_rfc3339(input) {
        return Ok(t);
    }
    match parse_ymd_midnight(input) {
        Some(t) => Ok(t),
        None => {
            let mut e = to_owned_string("invalid date or time: ");
            push_str(&mut e, input);
            Err(e)
        },
    }
}

/// The starts of the UTC calendar month holding `now` and of the next one, or
/// `None` when chrono cannot give them.
pub open spec fn spec_month_bounds(now: Instant) -> Option<(Instant, Instant)> {
    match utc_year_month_of(now.secs) {
        None => None,
        Some((y, m)) => {
            let (ny, nm) = next_month(y, m);
            if ny > i32::MAX {
                None
            } else {
                match (utc_month_start_secs(y, m), utc_month_start_secs(ny as i32, nm as u32)) {
                    (Some(a), Some(b)) => Some(
                        (Instant { secs: a, nanos: 0 }, Instant { secs: b, nanos: 0 }),
                    ),
                    _ => None,
                }
            }
        },
    }
}

pub fn month_bounds_utc(now: Instant) -> (r: Option<(Instant, Instant)>)
    ensures
        r == spec_month_bounds(now),
        r matches Some((start, next)) ==> !instant_lt(now, start) && instant_lt(now, next),
{
    let (year, month) = match utc_year_month(now.secs) {
        Some(ym) => ym,
        None => {
            return None;
        },
    };
    let start = match utc_month_start(year, month) {
        Some(t) => t,
        None => {
            return None;
        },
    };
    if month == 12 && year == 2147483647i32 {
        return None;
    }
    let (next_year, next_month): (i32, u32) = if month == 12 {
        (year + 1, 1)
    } else {
        (year, month + 1)
    };
    match utc_month_start(next_year, next_month) {
        Some(next) => Some((start, next)),
        None => None,
    }
}

pub open spec fn end_before_start_message(start: Instant, end: Instant) -> Seq<char> {
    "end time "@ + rfc3339_secs_text(end.secs, end.nanos, 0) + " is before start time "@
        + rfc3339_secs_text(start.secs, start.nanos, 0)
}

/// The query window: the given start (else the month's start) to the given end
/// (else now); the end may not precede the start.
pub open spec fn spec_cost_window(
    start_arg: Option<Seq<char>>,
    end_arg: Option<Seq<char>>,
    month_start: Instant,
    now: Instant,
) -> Result<(Instant, Instant), Seq<char>> {
    let start = match start_arg {
        Some(s) => match spec_parse_datetime(s) {
            Some(t) => Ok(t),
            None => Err(invalid_datetime_message(s)),
        },
        None => Ok(month_start),
    };
    match start {
        Err(e) => Err(e),
        Ok(start) => {
            let end = match end_arg {
                Some(s) => match spec_parse_datetime(s) {
                    Some(t) => Ok(t),
                    None => Err(invalid_datetime_message(s)),
                },
                None => Ok(now),
            };
            match end {
                Err(e) => Err(e),
                Ok(end) => if instant_lt(end, start) {
                    Err(end_before_start_message(start, end))
                } else {
                    Ok((start, end))
                },
            }
        },
    }
}

/// The query window runs from the given start (else the month's start) to
/// the given end (else now), and ends no earlier than it starts; it is refused
/// exactly when a given time cannot be read or the end precedes the start.
pub proof fn lemma_cost_window_bounds(
    start_arg: Option<Seq<char>>,
    end_arg: Option<Seq<char>>,
    month_start: Instant,
    now: Instant,
)
    ensures
        spec_cost_window(start_arg, end_arg, month_start, now) matches Ok((a, b)) ==> {
            &&& a == match start_arg {
                Some(s) => spec_parse_datetime(s).unwrap(),
                None => month_start,
            }
            &&& b == match end_arg {
                Some(s) => spec_parse_datetime(s).unwrap(),
                None => now,
            }
            &&& !instant_lt(b, a)
        },
        (start_arg matches Some(s) && spec_parse_datetime(s).is_none()) ==> spec_cost_window(
            start_arg,
            end_arg,
            month_start,
            now,
        ) is Err,
        (end_arg matches Some(s) && spec_parse_datetime(s).is_none()) ==> spec_cost_window(
            start_arg,
            end_arg,
            month_start,
            now,
        ) is Err,
        (start_arg matches Some(s) ==> spec_parse_datetime(s).is_some()) && (end_arg matches Some(
            s,
        ) ==> spec_parse_datetime(s).is_some()) ==> (spec_cost_window(start_arg, end_arg, month_start, now) is Ok
            <==> !instant_lt(
            match end_arg {
                Some(s) => spec_parse_datetime(s).unwrap(),
                None => now,
            },
            match start_arg {
                Some(s) => spec_parse_datetime(s).unwrap(),
                None => month_start,
            },
        )),
{
}

pub open spec fn window_view(r: Result<(Instant, Instant), String>) -> Result<(Instant, Instant), Seq<char>> {
    match r {
        Ok(w) => Ok(w),
        Err(e) => Err(e@),
    }
}

pub open spec fn opt_str_view(o: Option<&str>) -> Option<Seq<char>> {
    match o {
        Some(s) => Some(s@),
        None => None,
    }
}

pub fn cost_window(
    start_arg: Option<&str>,
    end_arg: Option<&str>,
    month_start: Instant,
    now: Instant,
) -> (r: Result<(Instant, Instant), String>)
    ensures
        window_view(r) == spec_cost_window(
            opt_str_view(start_arg),
            opt_str_view(end_arg),
            month_start,
            now,
        ),
{
    let start = match start_arg {
        Some(s) => match parse_datetime(s) {
            Ok(t) => t,
            Err(e) => {
                return Err(e);
            },
        },
        None => month_start,
    };
    let end = match end_arg {
        Some(s) => match parse_datetime(s) {
            Ok(t) => t,
            Err(e) => {
                return Err(e);
            },
        },
        None => now,
    };
    if instant_before(end, start) {
        let mut e = to_owned_string("end time ");
        let et = format_time(end);
        push_str(&mut e, et.as_str());
        push_str(&mut e, " is before start time ");
        let st = format_time(start);
        push_str(&mut e, st.as_str());
        return Err(e);
    }
    Ok((start, end))
}

/// The times that a costs report states: the query window and the reset in
/// UTC (RFC 3339, whole seconds), and the reset in local time.
#[derive(Debug)]
pub struct ApiCostsTimes {
    pub start: String,
    pub end: String,
    pub reset_time_utc: String,
    /// The same formatting at the local time zone's offset.
    pub reset_time_local: String,
}

/// The times of a costs report. The reset's local time is the RFC 3339 text
/// at some UTC offset, the local time zone's at that instant; which offset is
/// not stated. Formatting a local time panics when it leaves chrono's
/// calendar, so the reset must lie a day inside it.
pub fn api_costs_times(start: Instant, end: Instant, next_month_start: Instant) -> (r:
    ApiCostsTimes)
    requires
        inside_calendar_by_a_day(next_month_start),
    ensures
        r.start@ == rfc3339_secs_text(start.secs, start.nanos, 0),
        r.end@ == rfc3339_secs_text(end.secs, end.nanos, 0),
        r.reset_time_utc@ == rfc3339_secs_text(next_month_start.secs, next_month_start.nanos, 0),
        exists|off: i32|
            offset_ok(off) && r.reset_time_local@ == #[trigger] rfc3339_secs_text(
                next_month_start.secs,
                next_month_start.nanos,
                off,
            ),
{
    let (reset_time_local, offset) = format_time_local(next_month_start);
    ApiCostsTimes {
        start: format_time(start),
        end: format_time(end),
        reset_time_utc: format_time(next_month_start),
        reset_time_local,
    }
}

// ---------------------------------------------------------------------------
// The text report
// ---------------------------------------------------------------------------

/// An amount with its currency: `$`, `€` or `£` before and the upper-case code
/// after for USD, EUR and GBP (in any case); otherwise the lower-cased code
/// after.
pub open spec fn spec_format_money(amount: Seq<char>, currency: Seq<char>) -> Seq<char> {
    let c = lowercase_of(currency);
    if c == "usd"@ {
        "$"@ + amount + " USD"@
    } else if c == "eur"@ {
        "€"@ + amount + " EUR"@
    } else if c == "gbp"@ {
        "£"@ + amount + " GBP"@
    } else {
        amount + " "@ + c
    }
}

/// Formats an amount, given as text with four decimals, in a currency.
pub fn format_money(amount: &str, currency: &str) -> (r: String)
    ensures
        r@ == spec_format_money(amount@, currency@),
{
    let c = to_lowercase(currency);
    if str_eq(c.as_str(), "usd") {
        let mut s = to_owned_string("$");
        push_str(&mut s, amount);
        push_str(&mut s, " USD");
        s
    } else if str_eq(c.as_str(), "eur") {
        let mut s = to_owned_string("€");
        push_str(&mut s, amount);
        push_str(&mut s, " EUR");
        s
    } else if str_eq(c.as_str(), "gbp") {
        let mut s = to_owned_string("£");
        push_str(&mut s, amount);
        push_str(&mut s, " GBP");
        s
    } else {
        let mut s = to_owned_string(amount);
        push_str(&mut s, " ");
        push_str(&mut s, c.as_str());
        s
    }
}

pub open spec fn currency_or_usd(c: Option<Seq<char>>) -> Seq<char> {
    match c {
        Some(c) => c,
        None => "usd"@,
    }
}

pub open spec fn item_lines(items: Seq<(Seq<char>, Seq<char>)>, currency: Seq<char>) -> Seq<Seq<char>>
    decreases items.len(),
{
    if items.len() == 0 {
        Seq::empty()
    } else {
        item_lines(items.drop_last(), currency).push(
            "- "@ + items.last().0 + ": "@ + spec_format_money(items.last().1, currency),
        )
    }
}

/// The report: the window, the total (or that it is unavailable), the line
/// items when there are any, and the reset times. `total` and each line item's
/// amount are given as text with four decimals; `reset_local` is the reset time
/// in local time.
pub open spec fn spec_api_costs_report(
    start: Instant,
    end: Instant,
    total: Option<Seq<char>>,
    currency: Option<Seq<char>>,
    items: Seq<(Seq<char>, Seq<char>)>,
    next_month_start: Instant,
    reset_local: Seq<char>,
) -> Seq<Seq<char>> {
    let head = seq![
        "OpenAI plan usage (billing)"@,
        "Query window (UTC): "@ + rfc3339_secs_text(start.secs, start.nanos, 0) + " to "@
            + rfc3339_secs_text(end.secs, end.nanos, 0),
        match total {
            Some(t) => "Total cost so far: "@ + spec_format_money(
                t,
                lowercase_of(currency_or_usd(currency)),
            ),
            None => "Total cost so far: unavailable (use --raw to inspect)."@,
        },
    ];
    let lines = if items.len() > 0 {
        seq!["Line items:"@] + item_lines(items, currency_or_usd(currency))
    } else {
        Seq::empty()
    };
    head + lines + seq![
        "Reset time (UTC): "@ + rfc3339_secs_text(next_month_start.secs, next_month_start.nanos, 0),
        "Reset time (local): "@ + reset_local,
        "Note: reset time assumes calendar-month billing in UTC."@,
    ]
}

pub open spec fn pairs_view(v: Seq<(String, String)>) -> Seq<(Seq<char>, Seq<char>)> {
    v.map_values(|p: (String, String)| (p.0@, p.1@))
}

pub open spec fn strs_view(v: Seq<String>) -> Seq<Seq<char>> {
    v.map_values(|s: String| s@)
}

fn push_line(out: &mut Vec<String>, s: String)
    ensures
        strs_view(final(out)@) == strs_view(old(out)@).push(s@),
{
    let ghost b = strs_view(out@);
    out.push(s);
    assert(strs_view(out@) =~= b.push(s@));
}

pub fn api_costs_report(
    start: Instant,
    end: Instant,
    total: Option<&str>,
    currency: Option<&str>,
    items: &Vec<(String, String)>,
    next_month_start: Instant,
    reset_local: &str,
) -> (r: Vec<String>)
    ensures
        strs_view(r@) == spec_api_costs_report(
            start,
            end,
            opt_str_view(total),
            opt_str_view(currency),
            pairs_view(items@),
            next_month_start,
            reset_local@,
        ),
{
    let mut out: Vec<String> = Vec::new();
    push_line(&mut out, to_owned_string("OpenAI plan usage (billing)"));
    let mut w = to_owned_string("Query window (UTC): ");
    let st = format_time(start);
    push_str(&mut w, st.as_str());
    push_str(&mut w, " to ");
    let et = format_time(end);
    push_str(&mut w, et.as_str());
    push_line(&mut out, w);
    let cur: &str = match currency {
        Some(c) => c,
        None => "usd",
    };
    match total {
        Some(t) => {
            let lc = to_lowercase(cur);
            let mut l = to_owned_string("Total cost so far: ");
            let m = format_money(t, lc.as_str());
            push_str(&mut l, m.as_str());
            push_line(&mut out, l);
        },
        None => {
            push_line(&mut out, to_owned_string("Total cost so far: unavailable (use --raw to inspect)."));
        },
    }
    let ghost head = strs_view(out@);
    if items.len() > 0 {
        push_line(&mut out, to_owned_string("Line items:"));
        let mut i: usize = 0;
        while i < items.len()
            invariant
                i <= items@.len(),
                items@.len() > 0,
                cur@ == currency_or_usd(opt_str_view(currency)),
                strs_view(out@) == head + seq!["Line items:"@] + item_lines(
                    pairs_view(items@.take(i as int)),
                    cur@,
                ),
            decreases items@.len() - i,
        {
            let mut l = to_owned_string("- ");
            push_str(&mut l, items[i].0.as_str());
            push_str(&mut l, ": ");
            let m = format_money(items[i].1.as_str(), cur);
            push_str(&mut l, m.as_str());
            assert(pairs_view(items@.take(i + 1)).drop_last() =~= pairs_view(items@.take(i as int)));
            push_line(&mut out, l);
            i = i + 1;
        }
        assert(items@.take(items@.len() as int) =~= items@);
    }
    let ghost mid = strs_view(out@);
    let mut l1 = to_owned_string("Reset time (UTC): ");
    let rt = format_time(next_month_start);
    push_str(&mut l1, rt.as_str());
    push_line(&mut out, l1);
    let mut l2 = to_owned_string("Reset time (local): ");
    push_str(&mut l2, reset_local);
    push_line(&mut out, l2);
    push_line(&mut out, to_owned_string("Note: reset time assumes calendar-month billing in UTC."));
    assert(strs_view(out@) =~= spec_api_costs_report(
        start,
        end,
        opt_str_view(total),
        opt_str_view(currency),
        pairs_view(items@),
        next_month_start,
        reset_local@,
    ));
    out
}

} // verus!
