//! The canonical log record that every submission is normalised to.

use vstd::prelude::*;

verus! {

/// One canonical log record: the unit of stored data.
///
/// A record is a plain data holder. Its timestamp is always present, whatever
/// timestamp fields the submission carried; see [`crate::timestamp`].
#[derive(Clone, Debug)]
pub struct Log {
    /// The customer that submitted the record, as given in the submission.
    pub customer_id: String,
    /// The classification label of the record.
    pub log_type: String,
    /// The free-text payload; empty for records derived from structured events.
    pub log_text: String,
    /// The resolved timestamp, in RFC 3339 text form.
    pub ts_rfc3339: String,
    /// The namespace, if the submission named one.
    pub namespace: Option<String>,
}

/// The mathematical value of a [`Log`].
pub struct LogView {
    pub customer_id: Seq<char>,
    pub log_type: Seq<char>,
    pub log_text: Seq<char>,
    pub ts_rfc3339: Seq<char>,
    pub namespace: Option<Seq<char>>,
}

impl View for Log {
    type V = LogView;

    open spec fn view(&self) -> LogView {
        LogView {
            customer_id: self.customer_id@,
            log_type: self.log_type@,
            log_text: self.log_text@,
            ts_rfc3339: self.ts_rfc3339@,
            namespace: self.namespace.deep_view(),
        }
    }
}

impl DeepView for Log {
    type V = LogView;

    open spec fn deep_view(&self) -> LogView {
        self@
    }
}

impl Log {
    /// Builds a record from its five fields.
    pub fn new(
        customer_id: String,
        log_type: String,
        log_text: String,
        ts_rfc3339: String,
        namespace: Option<String>,
    ) -> (log: Log)
        ensures
            log@ == (LogView {
                customer_id: customer_id@,
                log_type: log_type@,
                log_text: log_text@,
                ts_rfc3339: ts_rfc3339@,
                namespace: namespace.deep_view(),
            }),
    {
        Log { customer_id, log_type, log_text, ts_rfc3339, namespace }
    }
}

} // verus!
