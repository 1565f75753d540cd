//! The log store: an ordered, append-only collection of canonical records.
//!
//! A store is constructed and owned explicitly. Records enter it a whole
//! submission at a time and are never changed or removed afterwards. Sharing
//! a store between threads is the owner's business: whoever holds the
//! exclusive reference that an append takes is the only writer, so the
//! records of two submissions are never interleaved.

use crate::log::Log;
use crate::log::LogView;
use crate::normalize::normalize_udm_events;
use crate::normalize::normalize_unstructured;
use crate::normalize::normalizes_udm_events;
use crate::normalize::normalizes_unstructured;
use crate::submission::UdmEvents;
use crate::submission::UnstructuredLogs;
use vstd::prelude::*;

verus! {

/// An append-only sequence of canonical records, without capacity limit or
/// eviction.
pub struct LogStore {
    logs: Vec<Log>,
}

impl View for LogStore {
    type V = Seq<LogView>;

    /// The stored records, oldest first.
    closed spec fn view(&self) -> Seq<LogView> {
        self.logs.deep_view()
    }
}

impl LogStore {
    /// Makes an empty store.
    pub fn new() -> (store: LogStore)
        ensures
            store@ == Seq::<LogView>::empty(),
    {
        LogStore { logs: Vec::new() }
    }

    /// The number of stored records.
    pub fn len(&self) -> (n: usize)
        ensures
            n == self@.len(),
    {
        self.logs.len()
    }

    /// The stored records, oldest first.
    pub fn logs(&self) -> (logs: &Vec<Log>)
        ensures
            logs.deep_view() == self@,
    {
        &self.logs
    }

    /// Appends a batch of records behind those already stored, keeping the
    /// order of the batch.
    pub fn append(&mut self, batch: Vec<Log>)
        ensures
            final(self)@ == old(self)@ + batch.deep_view(),
    {
        let mut batch = batch;
        self.logs.append(&mut batch);
    }
}

/// What a store that held `store` holds after `batches` have been appended to
/// it, one whole batch after another.
pub open spec fn after_appends(store: Seq<LogView>, batches: Seq<Seq<LogView>>) -> Seq<LogView>
    decreases batches.len(),
{
    if batches.len() == 0 {
        store
    } else {
        after_appends(store, batches.drop_last()) + batches.last()
    }
}

/// Appends never lose, repeat or interleave records. In whichever order the
/// appends of a number of submissions take effect, if each brings `m` records
/// the store grows by that number times `m`, what it held before stays in
/// front, and behind it each submission's records stand together and in their
/// own order, one submission after the other.
pub proof fn lemma_appends_keep_batches_whole(
    store: Seq<LogView>,
    batches: Seq<Seq<LogView>>,
    m: nat,
)
    requires
        forall|k: int| 0 <= k < batches.len() ==> (#[trigger] batches[k]).len() == m,
    ensures
        after_appends(store, batches).len() == store.len() + batches.len() * m,
        after_appends(store, batches).take(store.len() as int) == store,
        forall|k: int|
            0 <= k < batches.len() ==> after_appends(store, batches).subrange(
                store.len() + k * m,
                store.len() + (k + 1) * m,
            ) == #[trigger] batches[k],
    decreases batches.len(),
{
    if batches.len() > 0 {
        let front = batches.drop_last();
        let n = front.len() as int;
        lemma_appends_keep_batches_whole(store, front, m);
        let before = after_appends(store, front);
        let after = after_appends(store, batches);
        assert(after == before + batches.last());
        assert(batches.len() * m == n * m + m) by (nonlinear_arith)
            requires
                batches.len() == n + 1,
        ;
        assert(after.take(store.len() as int) =~= before.take(store.len() as int));
        assert forall|k: int| 0 <= k < batches.len() implies after.subrange(
            store.len() + k * m,
            store.len() + (k + 1) * m,
        ) == #[trigger] batches[k] by {
            assert((k + 1) * m == k * m + m) by (nonlinear_arith);
            if k < n {
                assert(0 <= k * m && k * m + m <= n * m) by (nonlinear_arith)
                    requires
                        0 <= k < n,
                ;
                assert(front[k] == batches[k]);
                assert(after.subrange(store.len() + k * m, store.len() + (k + 1) * m)
                    =~= before.subrange(store.len() + k * m, store.len() + (k + 1) * m));
            } else {
                assert(after.subrange(store.len() + k * m, store.len() + (k + 1) * m)
                    =~= batches.last());
            }
        }
    } else {
        assert(batches.len() * m == 0) by (nonlinear_arith)
            requires
                batches.len() == 0,
        ;
        assert(store.take(store.len() as int) =~= store);
    }
}

/// Normalises a free-text submission and appends all of its records to the
/// store, behind what the store already holds.
pub fn add_unstructured_to_data(data: &mut LogStore, logs: UnstructuredLogs)
    requires
        logs@.resolvable(),
    ensures
        final(data)@.len() == old(data)@.len() + logs@.entries.len(),
        final(data)@.take(old(data)@.len() as int) == old(data)@,
        normalizes_unstructured(logs@, final(data)@.skip(old(data)@.len() as int)),
{
    let batch = normalize_unstructured(logs);
    data.append(batch);
}

/// Normalises a structured submission and appends all of its records to the
/// store, behind what the store already holds.
pub fn add_udm_events_to_data(data: &mut LogStore, logs: UdmEvents)
    requires
        logs@.resolvable(),
    ensures
        final(data)@.len() == old(data)@.len() + logs@.events.len(),
        final(data)@.take(old(data)@.len() as int) == old(data)@,
        normalizes_udm_events(logs@, final(data)@.skip(old(data)@.len() as int)),
{
    let batch = normalize_udm_events(logs);
    data.append(batch);
}

} // verus!
