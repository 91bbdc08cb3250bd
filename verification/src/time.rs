//! Instants, and the calendar work that `chrono` does on them.
//!
//! An instant is kept as Unix seconds plus nanoseconds, the pair that
//! `DateTime::timestamp` and `DateTime::timestamp_subsec_nanos` give and that
//! `DateTime::from_timestamp` takes back.
use vstd::prelude::*;

verus! {

#[derive(Debug, Clone, Copy, PartialEq, Eq, Structural)]
pub struct Instant {
    pub secs: i64,
    pub nanos: u32,
}

/// `a` is strictly earlier than `b`.
pub open spec fn instant_lt(a: Instant, b: Instant) -> bool {
    a.secs < b.secs || (a.secs == b.secs && a.nanos < b.nanos)
}

pub fn instant_before(a: Instant, b: Instant) -> (r: bool)
    ensures
        r == instant_lt(a, b),
{
    a.secs < b.secs || (a.secs == b.secs && a.nanos < b.nanos)
}

/// The instant that `DateTime::parse_from_rfc3339` reads from a string, as
/// (seconds, nanoseconds), or `None` when it refuses the string.
pub uninterp spec fn rfc3339_instant(s: Seq<char>) -> Option<(i64, u32)>;

pub open spec fn instant_of(p: Option<(i64, u32)>) -> Option<Instant> {
    match p {
        Some((s, n)) => Some(Instant { secs: s, nanos: n }),
        None => None,
    }
}

/// `DateTime::parse_from_rfc3339`, keeping the instant.
#[verifier::external_body]
pub(crate) fn parse_rfc3339(s: &str) -> (r: Option<Instant>)
    ensures
        r == instant_of(rfc3339_instant(s@)),
{
    match chrono::DateTime::parse_from_rfc3339(s) {
        Ok(d) => Some(Instant { secs: d.timestamp(), nanos: d.timestamp_subsec_nanos() }),
        Err(_) => None,
    }
}

/// Whether `DateTime::from_timestamp(secs, 0)` accepts `secs`: chrono's
/// calendar runs from January 1 of year -262143 to December 31 of year 262142,
/// 00:00:00 to 23:59:59 UTC.
pub open spec fn timestamp_in_range(secs: i64) -> bool {
    -8334601228800 <= secs <= 8210266876799
}

/// `DateTime::<Utc>::from_timestamp(secs, 0)`: the instant `secs` seconds after
/// the epoch, when chrono can represent it.
#[verifier::external_body]
pub(crate) fn utc_from_timestamp(secs: i64) -> (r: Option<Instant>)
    ensures
        r == (if timestamp_in_range(secs) {
            Some(Instant { secs, nanos: 0 })
        } else {
            None
        }),
{
    match chrono::DateTime::<chrono::Utc>::from_timestamp(secs, 0) {
        Some(d) => Some(Instant { secs: d.timestamp(), nanos: d.timestamp_subsec_nanos() }),
        None => None,
    }
}

/// The Unix seconds of midnight UTC on the date that
/// `NaiveDate::parse_from_str(s, "%Y-%m-%d")` reads from `s`, or `None` when it
/// refuses the string.
pub uninterp spec fn ymd_midnight_utc(s: Seq<char>) -> Option<i64>;

/// `NaiveDate::parse_from_str(s, "%Y-%m-%d")`, as the instant of that date's
/// midnight in UTC.
#[verifier::external_body]
pub(crate) fn parse_ymd_midnight(s: &str) -> (r: Option<Instant>)
    ensures
        r == (match ymd_midnight_utc(s@) {
            Some(t) => Some(Instant { secs: t, nanos: 0 }),
            None => None,
        }),
{
    match chrono::NaiveDate::parse_from_str(s, "%Y-%m-%d") {
        Ok(d) => Some(
            Instant {
                secs: chrono::TimeZone::from_utc_datetime(
                    &chrono::Utc,
                    &d.and_hms_opt(0, 0, 0).unwrap(),
                ).timestamp(),
                nanos: 0,
            },
        ),
        Err(_) => None,
    }
}

/// The UTC calendar year and month (1 to 12) of the instant `secs` seconds
/// after the epoch, or `None` when chrono cannot represent it.
pub uninterp spec fn utc_year_month_of(secs: i64) -> Option<(i32, u32)>;

/// The first month after (`year`, `month`).
pub open spec fn next_month(year: i32, month: u32) -> (int, int) {
    if month == 12 {
        (year + 1, 1)
    } else {
        (year as int, month + 1)
    }
}

/// `DateTime::from_timestamp(secs, 0)` followed by `year()` and `month()`.
/// Besides naming the result, the contract states what the calendar gives:
/// the month (1 to 12) holding `secs` starts no later than `secs`, and the
/// next month, when chrono can represent its start, starts after `secs`.
#[verifier::external_body]
pub(crate) fn utc_year_month(secs: i64) -> (r: Option<(i32, u32)>)
    ensures
        r == utc_year_month_of(secs),
        r matches Some((y, m)) ==> 1 <= m <= 12,
        r matches Some((y, m)) ==> (utc_month_start_secs(y, m) matches Some(a) && a <= secs),
        r matches Some((y, m)) ==> ({
            let (ny, nm) = next_month(y, m);
            ny <= i32::MAX ==> (utc_month_start_secs(ny as i32, nm as u32) matches Some(b)
                ==> secs < b)
        }),
{
    match chrono::DateTime::<chrono::Utc>::from_timestamp(secs, 0) {
        Some(d) => Some((chrono::Datelike::year(&d), chrono::Datelike::month(&d))),
        None => None,
    }
}

/// The Unix seconds of the first day of `month` in `year`, 00:00:00 UTC, or
/// `None` when chrono refuses that date.
pub uninterp spec fn utc_month_start_secs(year: i32, month: u32) -> Option<i64>;

/// `Utc.with_ymd_and_hms(year, month, 1, 0, 0, 0).single()`, as an instant.
#[verifier::external_body]
pub(crate) fn utc_month_start(year: i32, month: u32) -> (r: Option<Instant>)
    ensures
        r == (match utc_month_start_secs(year, month) {
            Some(t) => Some(Instant { secs: t, nanos: 0 }),
            None => None,
        }),
{
    match chrono::TimeZone::with_ymd_and_hms(&chrono::Utc, year, month, 1, 0, 0, 0).single() {
        Some(d) => Some(Instant { secs: d.timestamp(), nanos: 0 }),
        None => None,
    }
}

/// A UTC offset as chrono keeps one: seconds east of UTC, less than a day
/// either way.
pub open spec fn offset_ok(offset: i32) -> bool {
    -86400 < offset < 86400
}

/// What `to_rfc3339_opts(SecondsFormat::Secs, true)` writes for the instant
/// (seconds, nanoseconds) seen at the UTC offset of `offset` seconds
/// (`YYYY-MM-DDTHH:MM:SS` and the offset, `Z` for offset zero), or the empty
/// text when chrono cannot represent the instant.
pub uninterp spec fn rfc3339_secs_text(secs: i64, nanos: u32, offset: i32) -> Seq<char>;

/// What `to_rfc3339()` writes for the instant seen at the UTC offset of
/// `offset` seconds, or the empty text when chrono cannot represent the
/// instant.
pub uninterp spec fn rfc3339_auto_text(secs: i64, nanos: u32, offset: i32) -> Seq<char>;

/// What `format(fmt).to_string()` writes for the instant seen at the UTC
/// offset of `offset` seconds, or the empty text when chrono cannot represent
/// the instant.
pub uninterp spec fn strftime_text(secs: i64, nanos: u32, offset: i32, fmt: Seq<char>) -> Seq<char>;

/// The instant's clock time (`%H:%M`) and day (`%a %b %-d`).
pub open spec fn clock_time_at(t: Instant, off: i32) -> Seq<char> {
    strftime_text(t.secs, t.nanos, off, "%H:%M"@)
}

pub open spec fn day_at(t: Instant, off: i32) -> Seq<char> {
    strftime_text(t.secs, t.nanos, off, "%a %b %-d"@)
}

/// `text` is the RFC 3339 form (`to_rfc3339`) of the instant `reset_at` at
/// some UTC offset, and is present exactly when there is an instant.
pub open spec fn local_rfc3339_of(reset_at: Option<Instant>, text: Option<Seq<char>>) -> bool {
    match reset_at {
        Some(t) => exists|off: i32|
            offset_ok(off) && text == Some(#[trigger] rfc3339_auto_text(t.secs, t.nanos, off)),
        None => text.is_none(),
    }
}

/// An instant in UTC, as RFC 3339 with whole seconds and a `Z` suffix
/// (`DateTime::<Utc>::to_rfc3339_opts`, which writes the UTC time and offset
/// zero). An instant that chrono cannot represent gives the empty string.
#[verifier::external_body]
pub(crate) fn format_time(t: Instant) -> (r: String)
    ensures
        r@ == rfc3339_secs_text(t.secs, t.nanos, 0),
{
    match chrono::DateTime::<chrono::Utc>::from_timestamp(t.secs, t.nanos) {
        Some(d) => d.to_rfc3339_opts(chrono::SecondsFormat::Secs, true),
        None => String::new(),
    }
}

/// The instant lies at least a day inside chrono's calendar, so that its local
/// time does too.
pub open spec fn inside_calendar_by_a_day(t: Instant) -> bool {
    timestamp_in_range((t.secs - 86400) as i64) && timestamp_in_range((t.secs + 86400) as i64)
}

pub fn is_inside_calendar_by_a_day(t: Instant) -> (r: bool)
    ensures
        r == inside_calendar_by_a_day(t),
{
    -8334601228800 + 86400 <= t.secs && t.secs <= 8210266876799 - 86400
}

/// The same formatting in the machine's local time zone
/// (`with_timezone(&Local)`, then `to_rfc3339_opts`), together with the UTC
/// offset it was written at (`offset().local_minus_utc()`, zero when chrono
/// cannot represent the instant). Which offset that is, is not stated: it is
/// the local time zone's at that instant. `to_rfc3339_opts` panics when the
/// local time leaves chrono's calendar, so the instant must lie a day inside
/// it.
#[verifier::external_body]
pub(crate) fn format_time_local(t: Instant) -> (r: (String, i32))
    requires
        inside_calendar_by_a_day(t),
    ensures
        r.0@ == rfc3339_secs_text(t.secs, t.nanos, r.1),
        offset_ok(r.1),
{
    match chrono::DateTime::<chrono::Utc>::from_timestamp(t.secs, t.nanos) {
        Some(d) => {
            let l = d.with_timezone(&chrono::Local);
            (
                l.to_rfc3339_opts(chrono::SecondsFormat::Secs, true),
                chrono::Offset::fix(l.offset()).local_minus_utc(),
            )
        },
        None => (String::new(), 0),
    }
}

/// `DateTime::<Local>::to_rfc3339` of an instant, together with the UTC offset
/// it was written at (zero when chrono cannot represent the instant). Which
/// offset that is, is not stated: it is the local time zone's at that instant.
#[verifier::external_body]
pub(crate) fn local_rfc3339(t: Instant) -> (r: (String, i32))
    ensures
        r.0@ == rfc3339_auto_text(t.secs, t.nanos, r.1),
        offset_ok(r.1),
{
    match chrono::DateTime::<chrono::Utc>::from_timestamp(t.secs, t.nanos) {
        Some(d) => {
            let l = d.with_timezone(&chrono::Local);
            (l.to_rfc3339(), chrono::Offset::fix(l.offset()).local_minus_utc())
        },
        None => (String::new(), 0),
    }
}

/// An instant's local clock time (`%H:%M`) and day (`%a %b %-d`), formatted
/// with `DateTime::<Local>::format`, together with the UTC offset both were
/// written at (zero when chrono cannot represent the instant). Which offset
/// that is, is not stated: it is the local time zone's at that instant.
#[verifier::external_body]
pub(crate) fn local_clock_and_day(t: Instant) -> (r: (String, String, i32))
    ensures
        r.0@ == strftime_text(t.secs, t.nanos, r.2, "%H:%M"@),
        r.1@ == strftime_text(t.secs, t.nanos, r.2, "%a %b %-d"@),
        offset_ok(r.2),
{
    match chrono::DateTime::<chrono::Utc>::from_timestamp(t.secs, t.nanos) {
        Some(d) => {
            let l = d.with_timezone(&chrono::Local);
            (
                l.format("%H:%M").to_string(),
                l.format("%a %b %-d").to_string(),
                chrono::Offset::fix(l.offset()).local_minus_utc(),
            )
        },
        None => (String::new(), String::new(), 0),
    }
}

} // verus!
