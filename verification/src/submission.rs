//! The two submission shapes that callers hand in, already deserialised.
//!
//! A submission is built per request, normalised at once and then dropped.
//! Nothing here checks that a field is well formed: required fields are
//! present by construction, optional ones may be absent.

use crate::timestamp::is_resolvable;
use crate::timestamp::resolvable;
use vstd::prelude::*;

verus! {

/// One free-text entry of an [`UnstructuredLogs`] submission.
#[derive(Debug)]
pub struct UnstructuredLog {
    /// The text payload.
    pub log_text: String,
    /// The time of the entry as an epoch integer, if given.
    pub ts_epoch_microseconds: Option<i64>,
    /// The time of the entry as RFC 3339 text, if given.
    pub ts_rfc3339: Option<String>,
}

/// The mathematical value of an [`UnstructuredLog`].
pub struct UnstructuredLogView {
    pub log_text: Seq<char>,
    pub ts_epoch_microseconds: Option<i64>,
    pub ts_rfc3339: Option<Seq<char>>,
}

impl View for UnstructuredLog {
    type V = UnstructuredLogView;

    open spec fn view(&self) -> UnstructuredLogView {
        UnstructuredLogView {
            log_text: self.log_text@,
            ts_epoch_microseconds: self.ts_epoch_microseconds,
            ts_rfc3339: self.ts_rfc3339.deep_view(),
        }
    }
}

impl DeepView for UnstructuredLog {
    type V = UnstructuredLogView;

    open spec fn deep_view(&self) -> UnstructuredLogView {
        self@
    }
}

impl UnstructuredLogView {
    /// Whether the timestamp of this entry can be resolved without fault.
    pub open spec fn resolvable(self) -> bool {
        resolvable(self.ts_rfc3339, self.ts_epoch_microseconds)
    }
}

impl UnstructuredLog {
    /// Tells whether the timestamp of this entry can be resolved without
    /// fault.
    pub fn is_resolvable(&self) -> (ok: bool)
        ensures
            ok == self@.resolvable(),
    {
        is_resolvable(&self.ts_rfc3339, self.ts_epoch_microseconds)
    }
}

/// A free-text submission: one customer, one log type, many text entries.
#[derive(Debug)]
pub struct UnstructuredLogs {
    /// The submitting customer.
    pub customer_id: String,
    /// The classification label shared by all entries.
    pub log_type: String,
    /// The namespace shared by all entries, if any.
    pub namespace: Option<String>,
    /// The entries, in submission order.
    pub entries: Vec<UnstructuredLog>,
}

/// The mathematical value of an [`UnstructuredLogs`].
pub struct UnstructuredLogsView {
    pub customer_id: Seq<char>,
    pub log_type: Seq<char>,
    pub namespace: Option<Seq<char>>,
    pub entries: Seq<UnstructuredLogView>,
}

impl View for UnstructuredLogs {
    type V = UnstructuredLogsView;

    open spec fn view(&self) -> UnstructuredLogsView {
        UnstructuredLogsView {
            customer_id: self.customer_id@,
            log_type: self.log_type@,
            namespace: self.namespace.deep_view(),
            entries: self.entries.deep_view(),
        }
    }
}

impl DeepView for UnstructuredLogs {
    type V = UnstructuredLogsView;

    open spec fn deep_view(&self) -> UnstructuredLogsView {
        self@
    }
}

impl UnstructuredLogsView {
    /// Whether the timestamp of every entry can be resolved without fault.
    pub open spec fn resolvable(self) -> bool {
        forall|i: int| 0 <= i < self.entries.len() ==> (#[trigger] self.entries[i]).resolvable()
    }
}

impl UnstructuredLogs {
    /// Tells whether the timestamp of every entry can be resolved without
    /// fault, which is what normalisation asks of a submission.
    pub fn is_resolvable(&self) -> (ok: bool)
        ensures
            ok == self@.resolvable(),
    {
        let mut i: usize = 0;
        while i < self.entries.len()
            invariant
                i <= self.entries.len(),
                forall|j: int| 0 <= j < i ==> (#[trigger] self@.entries[j]).resolvable(),
            decreases self.entries.len() - i,
        {
            if !self.entries[i].is_resolvable() {
                assert(!self@.entries[i as int].resolvable());
                return false;
            }
            i += 1;
        }
        true
    }
}

/// The metadata of one structured event.
#[derive(Debug)]
pub struct UdmMetadata {
    /// The classification label of the event.
    pub log_type: String,
    /// The namespace of the event, if any.
    pub namespace: Option<String>,
    /// The time of the event as an epoch integer, if given.
    pub ts_epoch_microseconds: Option<i64>,
    /// The time of the event as RFC 3339 text, if given.
    pub ts_rfc3339: Option<String>,
}

/// The mathematical value of a [`UdmMetadata`].
pub struct UdmMetadataView {
    pub log_type: Seq<char>,
    pub namespace: Option<Seq<char>>,
    pub ts_epoch_microseconds: Option<i64>,
    pub ts_rfc3339: Option<Seq<char>>,
}

impl View for UdmMetadata {
    type V = UdmMetadataView;

    open spec fn view(&self) -> UdmMetadataView {
        UdmMetadataView {
            log_type: self.log_type@,
            namespace: self.namespace.deep_view(),
            ts_epoch_microseconds: self.ts_epoch_microseconds,
            ts_rfc3339: self.ts_rfc3339.deep_view(),
        }
    }
}

impl DeepView for UdmMetadata {
    type V = UdmMetadataView;

    open spec fn deep_view(&self) -> UdmMetadataView {
        self@
    }
}

/// One structured security event.
#[derive(Debug)]
pub struct UdmEvent {
    /// What the event says of itself.
    pub metadata: UdmMetadata,
    /// A flag that producers may set. Normalisation does not consult it.
    pub invalid: Option<bool>,
}

/// The mathematical value of a [`UdmEvent`].
pub struct UdmEventView {
    pub metadata: UdmMetadataView,
    pub invalid: Option<bool>,
}

impl View for UdmEvent {
    type V = UdmEventView;

    open spec fn view(&self) -> UdmEventView {
        UdmEventView { metadata: self.metadata@, invalid: self.invalid }
    }
}

impl DeepView for UdmEvent {
    type V = UdmEventView;

    open spec fn deep_view(&self) -> UdmEventView {
        self@
    }
}

impl UdmEventView {
    /// Whether the timestamp of this event can be resolved without fault.
    pub open spec fn resolvable(self) -> bool {
        resolvable(self.metadata.ts_rfc3339, self.metadata.ts_epoch_microseconds)
    }
}

impl UdmEvent {
    /// Tells whether the timestamp of this event can be resolved without
    /// fault.
    pub fn is_resolvable(&self) -> (ok: bool)
        ensures
            ok == self@.resolvable(),
    {
        is_resolvable(&self.metadata.ts_rfc3339, self.metadata.ts_epoch_microseconds)
    }
}

/// A structured submission: one customer, many typed events.
#[derive(Debug)]
pub struct UdmEvents {
    /// The submitting customer.
    pub customer_id: String,
    /// The events, in submission order.
    pub events: Vec<UdmEvent>,
}

/// The mathematical value of a [`UdmEvents`].
pub struct UdmEventsView {
    pub customer_id: Seq<char>,
    pub events: Seq<UdmEventView>,
}

impl View for UdmEvents {
    type V = UdmEventsView;

    open spec fn view(&self) -> UdmEventsView {
        UdmEventsView { customer_id: self.customer_id@, events: self.events.deep_view() }
    }
}

impl DeepView for UdmEvents {
    type V = UdmEventsView;

    open spec fn deep_view(&self) -> UdmEventsView {
        self@
    }
}

impl UdmEventsView {
    /// Whether the timestamp of every event can be resolved without fault.
    pub open spec fn resolvable(self) -> bool {
        forall|i: int| 0 <= i < self.events.len() ==> (#[trigger] self.events[i]).resolvable()
    }
}

impl UdmEvents {
    /// Tells whether the timestamp of every event can be resolved without
    /// fault, which is what normalisation asks of a submission.
    pub fn is_resolvable(&self) -> (ok: bool)
        ensures
            ok == self@.resolvable(),
    {
        let mut i: usize = 0;
        while i < self.events.len()
            invariant
                i <= self.events.len(),
                forall|j: int| 0 <= j < i ==> (#[trigger] self@.events[j]).resolvable(),
            decreases self.events.len() - i,
        {
            if !self.events[i].is_resolvable() {
                assert(!self@.events[i as int].resolvable());
                return false;
            }
            i += 1;
        }
        true
    }
}

} // verus!
