//! The two normalisation transforms: one submission in, its canonical records
//! out, one record per entry and in the order of the entries.
//!
//! Both are pure but for the wall clock, which is consulted for an entry that
//! carries no timestamp at all, separately for each such entry.

use crate::log::Log;
use crate::log::LogView;
use crate::submission::UdmEventView;
use crate::submission::UdmEvents;
use crate::submission::UdmEventsView;
use crate::submission::UnstructuredLogView;
use crate::submission::UnstructuredLogs;
use crate::submission::UnstructuredLogsView;
use crate::timestamp::resolve_timestamp;
use crate::timestamp::resolves_to;
use vstd::prelude::*;

verus! {

/// Whether `log` is a canonical record of `entry`, an entry of the free-text
/// submission `logs`: customer, log type and namespace are those of the
/// submission, the text is that of the entry, and the timestamp is one that
/// the resolution rule allows for the entry.
pub open spec fn is_unstructured_record(
    logs: UnstructuredLogsView,
    entry: UnstructuredLogView,
    log: LogView,
) -> bool {
    &&& log.customer_id == logs.customer_id
    &&& log.log_type == logs.log_type
    &&& log.namespace == logs.namespace
    &&& log.log_text == entry.log_text
    &&& resolves_to(entry.ts_rfc3339, entry.ts_epoch_microseconds, log.ts_rfc3339)
}

/// Whether `out` is a normalisation of the free-text submission `logs`: as
/// many records as entries, the record at each position derived from the
/// entry at that position.
pub open spec fn normalizes_unstructured(logs: UnstructuredLogsView, out: Seq<LogView>) -> bool {
    &&& out.len() == logs.entries.len()
    &&& forall|i: int|
        0 <= i < out.len() ==> is_unstructured_record(logs, logs.entries[i], #[trigger] out[i])
}

/// Whether `log` is a canonical record of `event`, an event of a structured
/// submission by `customer_id`: the customer is that of the submission, log
/// type and namespace are those of the event's metadata, the text is empty,
/// and the timestamp is one that the resolution rule allows for the metadata.
/// The `invalid` flag of the event plays no part.
pub open spec fn is_udm_record(customer_id: Seq<char>, event: UdmEventView, log: LogView) -> bool {
    &&& log.customer_id == customer_id
    &&& log.log_type == event.metadata.log_type
    &&& log.namespace == event.metadata.namespace
    &&& log.log_text == Seq::<char>::empty()
    &&& resolves_to(
        event.metadata.ts_rfc3339,
        event.metadata.ts_epoch_microseconds,
        log.ts_rfc3339,
    )
}

/// Whether `out` is a normalisation of the structured submission `events`: as
/// many records as events, the record at each position derived from the event
/// at that position.
pub open spec fn normalizes_udm_events(events: UdmEventsView, out: Seq<LogView>) -> bool {
    &&& out.len() == events.events.len()
    &&& forall|i: int|
        0 <= i < out.len() ==> is_udm_record(
            events.customer_id,
            events.events[i],
            #[trigger] out[i],
        )
}

/// Normalisation is pure but for the clock: a free-text submission in which
/// every entry carries a timestamp text or an epoch value has exactly one
/// normalisation.
pub proof fn lemma_unstructured_normalization_is_determined(
    logs: UnstructuredLogsView,
    a: Seq<LogView>,
    b: Seq<LogView>,
)
    requires
        forall|i: int|
            0 <= i < logs.entries.len() ==> {
                ||| (#[trigger] logs.entries[i]).ts_rfc3339 is Some
                ||| logs.entries[i].ts_epoch_microseconds is Some
            },
        normalizes_unstructured(logs, a),
        normalizes_unstructured(logs, b),
    ensures
        a == b,
{
    assert forall|i: int| 0 <= i < a.len() implies a[i] == b[i] by {
        let entry = logs.entries[i];
        assert(is_unstructured_record(logs, entry, a[i]));
        assert(is_unstructured_record(logs, entry, b[i]));
        assert(a[i].ts_rfc3339 == b[i].ts_rfc3339);
    }
    assert(a =~= b);
}

/// Normalisation is pure but for the clock: a structured submission in which
/// every event carries a timestamp text or an epoch value has exactly one
/// normalisation.
pub proof fn lemma_udm_normalization_is_determined(
    events: UdmEventsView,
    a: Seq<LogView>,
    b: Seq<LogView>,
)
    requires
        forall|i: int|
            0 <= i < events.events.len() ==> {
                ||| (#[trigger] events.events[i]).metadata.ts_rfc3339 is Some
                ||| events.events[i].metadata.ts_epoch_microseconds is Some
            },
        normalizes_udm_events(events, a),
        normalizes_udm_events(events, b),
    ensures
        a == b,
{
    assert forall|i: int| 0 <= i < a.len() implies a[i] == b[i] by {
        let event = events.events[i];
        assert(is_udm_record(events.customer_id, event, a[i]));
        assert(is_udm_record(events.customer_id, event, b[i]));
        assert(a[i].ts_rfc3339 == b[i].ts_rfc3339);
    }
    assert(a =~= b);
}

/// The `invalid` flag is inert: two structured submissions that differ at most
/// in the flags of their events have the same normalisations.
pub proof fn lemma_invalid_flag_is_inert(x: UdmEventsView, y: UdmEventsView, out: Seq<LogView>)
    requires
        x.customer_id == y.customer_id,
        x.events.len() == y.events.len(),
        forall|i: int|
            0 <= i < x.events.len() ==> (#[trigger] x.events[i]).metadata == y.events[i].metadata,
    ensures
        normalizes_udm_events(x, out) <==> normalizes_udm_events(y, out),
{
    if normalizes_udm_events(x, out) {
        assert forall|i: int| 0 <= i < out.len() implies is_udm_record(
            y.customer_id,
            y.events[i],
            #[trigger] out[i],
        ) by {
            assert(x.events[i].metadata == y.events[i].metadata);
        }
    }
    if normalizes_udm_events(y, out) {
        assert forall|i: int| 0 <= i < out.len() implies is_udm_record(
            x.customer_id,
            x.events[i],
            #[trigger] out[i],
        ) by {
            assert(x.events[i].metadata == y.events[i].metadata);
        }
    }
}

/// Normalises a free-text submission into its canonical records.
///
/// No entry is dropped or merged. An epoch value that has to be rendered must
/// be one that can be: see [`UnstructuredLogs::is_resolvable`].
pub fn normalize_unstructured(logs: UnstructuredLogs) -> (out: Vec<Log>)
    requires
        logs@.resolvable(),
    ensures
        out.len() == logs@.entries.len(),
        normalizes_unstructured(logs@, out.deep_view()),
{
    let ghost submission = logs@;
    let UnstructuredLogs { customer_id, log_type, namespace, entries } = logs;
    let ghost items = entries@;
    let mut out: Vec<Log> = Vec::new();
    for entry in it: entries.into_iter()
        invariant
            submission.customer_id == customer_id@,
            submission.log_type == log_type@,
            submission.namespace == namespace.deep_view(),
            submission.entries.len() == items.len(),
            forall|i: int|
                0 <= i < items.len() ==> submission.entries[i] == (#[trigger] items[i])@,
            submission.resolvable(),
            it.seq() == items,
            out.len() == it.index(),
            forall|i: int|
                0 <= i < out.len() ==> is_unstructured_record(
                    submission,
                    submission.entries[i],
                    (#[trigger] out@[i])@,
                ),
    {
        let ts = resolve_timestamp(entry.ts_rfc3339, entry.ts_epoch_microseconds);
        let log = Log::new(
            customer_id.clone(),
            log_type.clone(),
            entry.log_text,
            ts,
            namespace.clone(),
        );
        out.push(log);
    }
    out
}

/// Normalises a structured submission into its canonical records.
///
/// No event is dropped or merged, whatever its `invalid` flag says. An epoch
/// value that has to be rendered must be one that can be: see
/// [`UdmEvents::is_resolvable`].
pub fn normalize_udm_events(events: UdmEvents) -> (out: Vec<Log>)
    requires
        events@.resolvable(),
    ensures
        out.len() == events@.events.len(),
        normalizes_udm_events(events@, out.deep_view()),
{
    let ghost submission = events@;
    let UdmEvents { customer_id, events } = events;
    let ghost items = events@;
    let mut out: Vec<Log> = Vec::new();
    for event in it: events.into_iter()
        invariant
            submission.customer_id == customer_id@,
            submission.events.len() == items.len(),
            forall|i: int|
                0 <= i < items.len() ==> submission.events[i] == (#[trigger] items[i])@,
            submission.resolvable(),
            it.seq() == items,
            out.len() == it.index(),
            forall|i: int|
                0 <= i < out.len() ==> is_udm_record(
                    submission.customer_id,
                    submission.events[i],
                    (#[trigger] out@[i])@,
                ),
    {
        let ts = resolve_timestamp(
            event.metadata.ts_rfc3339,
            event.metadata.ts_epoch_microseconds,
        );
        let log = Log::new(
            customer_id.clone(),
            event.metadata.log_type,
            String::new(),
            ts,
            event.metadata.namespace,
        );
        out.push(log);
    }
    out
}

} // verus!
