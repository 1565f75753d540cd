//! The timestamp resolution rule shared by every kind of submission.
//!
//! A submission entry may carry an RFC 3339 text, an epoch integer, both, or
//! neither. Exactly one canonical text is derived from them, by precedence:
//! the supplied text, else the epoch integer rendered in UTC, else the wall
//! clock at the moment of resolution.
//!
//! The epoch integer is read at millisecond resolution, although submissions
//! name the field in microseconds. The reading is kept for compatibility and
//! is a known risk: a producer that sends true microseconds gets a date tens
//! of thousands of years ahead.

use chrono::TimeZone;
use chrono::Utc;
use vstd::prelude::*;

verus! {

/// The earliest epoch value, in milliseconds, that falls on a calendar date
/// (midnight at the start of the year -262143).
pub const MIN_EPOCH_MILLIS: i64 = -8_334_601_228_800_000;

/// The latest epoch value, in milliseconds, that falls on a calendar date
/// (the last millisecond of the year 262142).
pub const MAX_EPOCH_MILLIS: i64 = 8_210_266_876_799_999;

/// Whether an epoch value in milliseconds can be rendered as a calendar date.
pub open spec fn epoch_millis_supported(ms: i64) -> bool {
    MIN_EPOCH_MILLIS <= ms <= MAX_EPOCH_MILLIS
}

/// The text that `chrono::DateTime::<Utc>::to_rfc3339` gives for the instant
/// `secs` whole seconds and `nanos` nanoseconds after 1970-01-01T00:00:00 UTC.
pub uninterp spec fn rfc3339_utc(secs: int, nanos: int) -> Seq<char>;

/// The rendering of an epoch value read in milliseconds: whole seconds are
/// rounded toward minus infinity, the remainder becomes the sub-second part.
pub open spec fn rfc3339_of_epoch_millis(ms: int) -> Seq<char> {
    rfc3339_utc(ms / 1000, (ms % 1000) * 1_000_000)
}

/// Whether `text` is the rendering of some instant in UTC.
pub open spec fn is_rendered_instant(text: Seq<char>) -> bool {
    exists|secs: int, nanos: int| text == #[trigger] rfc3339_utc(secs, nanos)
}

/// Whether `ts` is a canonical timestamp for an entry with the given source
/// fields. With a supplied text or an epoch value there is exactly one such
/// `ts`; with neither, any reading of the clock is one.
pub open spec fn resolves_to(
    ts_rfc3339: Option<Seq<char>>,
    ts_epoch_microseconds: Option<i64>,
    ts: Seq<char>,
) -> bool {
    match ts_rfc3339 {
        Some(text) => ts == text,
        None => match ts_epoch_microseconds {
            Some(ms) => ts == rfc3339_of_epoch_millis(ms as int),
            None => is_rendered_instant(ts),
        },
    }
}

/// Whether resolution can render the epoch value of these source fields, in
/// case it has to: a supplied text makes the epoch value irrelevant.
pub open spec fn resolvable(
    ts_rfc3339: Option<Seq<char>>,
    ts_epoch_microseconds: Option<i64>,
) -> bool {
    ts_rfc3339 is None ==> match ts_epoch_microseconds {
        Some(ms) => epoch_millis_supported(ms),
        None => true,
    }
}

/// A supplied text takes precedence: it is the one canonical timestamp of the
/// entry, whatever epoch value the entry carries beside it.
pub proof fn lemma_supplied_text_wins(
    text: Seq<char>,
    ts_epoch_microseconds: Option<i64>,
    ts: Seq<char>,
)
    ensures
        resolves_to(Some(text), ts_epoch_microseconds, ts) <==> ts == text,
{
}

/// Without a supplied text, an epoch value decides: the one canonical
/// timestamp of the entry is the rendering of the instant that many
/// milliseconds from the epoch.
pub proof fn lemma_epoch_value_decides(ms: i64, ts: Seq<char>)
    ensures
        resolves_to(None, Some(ms), ts) <==> ts == rfc3339_utc(
            ms as int / 1000,
            (ms as int % 1000) * 1_000_000,
        ),
{
}

/// Calls `chrono::TimeZone::timestamp_millis` on `Utc` and renders what it
/// returns with `chrono::DateTime::to_rfc3339`.
///
/// Trusted: the first call places the instant `ms` div 1000 seconds and
/// (`ms` mod 1000) million nanoseconds after the epoch, both Euclidean, and
/// panics only outside the range that `requires` admits; the text of the
/// second call is what `rfc3339_utc` names.
#[verifier::external_body]
#[allow(deprecated)]
fn epoch_millis_to_rfc3339(ms: i64) -> (text: String)
    requires
        epoch_millis_supported(ms),
    ensures
        text@ == rfc3339_utc(ms as int / 1000, (ms as int % 1000) * 1_000_000),
{
    Utc.timestamp_millis(ms).to_rfc3339()
}

/// Reads the wall clock with `chrono::Utc::now` and renders the reading with
/// `chrono::DateTime::to_rfc3339`.
///
/// Trusted: whatever the clock shows, the text is the rendering of an instant
/// in UTC. Which instant is not stated. `Utc::now` panics on a clock set
/// before 1970 or beyond the calendar that chrono supports.
#[verifier::external_body]
fn clock_to_rfc3339() -> (text: String)
    ensures
        exists|secs: int, nanos: int| text@ == #[trigger] rfc3339_utc(secs, nanos),
{
    Utc::now().to_rfc3339()
}

/// Tells whether an epoch value in milliseconds can be rendered.
pub fn epoch_millis_in_range(ms: i64) -> (ok: bool)
    ensures
        ok == epoch_millis_supported(ms),
{
    MIN_EPOCH_MILLIS <= ms && ms <= MAX_EPOCH_MILLIS
}

/// Tells whether [`resolve_timestamp`] accepts these source fields.
pub fn is_resolvable(ts_rfc3339: &Option<String>, ts_epoch_microseconds: Option<i64>) -> (ok: bool)
    ensures
        ok == resolvable(ts_rfc3339.deep_view(), ts_epoch_microseconds),
{
    match ts_rfc3339 {
        Some(_) => true,
        None => match ts_epoch_microseconds {
            Some(ms) => epoch_millis_in_range(ms),
            None => true,
        },
    }
}

/// Resolves the canonical timestamp of one entry from its two optional source
/// fields: the supplied text verbatim if there is one, else the epoch value
/// rendered in UTC, else the wall clock at this moment.
pub fn resolve_timestamp(
    ts_rfc3339: Option<String>,
    ts_epoch_microseconds: Option<i64>,
) -> (ts: String)
    requires
        resolvable(ts_rfc3339.deep_view(), ts_epoch_microseconds),
    ensures
        resolves_to(ts_rfc3339.deep_view(), ts_epoch_microseconds, ts@),
{
    match ts_rfc3339 {
        Some(text) => text,
        None => match ts_epoch_microseconds {
            Some(ms) => epoch_millis_to_rfc3339(ms),
            None => clock_to_rfc3339(),
        },
    }
}

} // verus!
