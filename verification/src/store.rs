use vstd::prelude::*;

verus! {

/// One persisted row of an append-only reading sequence: the store-assigned
/// identifier and the recorded value.
#[derive(Clone, Copy, PartialEq, Eq, Structural, Debug)]
pub struct Row<V> {
    pub id: u64,
    pub value: V,
}

/// An append-only log of readings. Rows are only ever inserted, each with an
/// identifier strictly greater than every identifier handed out before, so the
/// current value of the quantity is the value of the row with the maximum
/// identifier — which is always the last row.
pub struct ReadingLog<V> {
    pub rows: Vec<Row<V>>,
    pub next_id: u64,
}

impl<V: Copy> ReadingLog<V> {
    /// Identifiers are assigned in strictly increasing order and stay below
    /// the identifier the next insert will use.
    pub open spec fn wf(self) -> bool {
        &&& 1 <= self.next_id
        &&& forall|i: int, j: int|
            0 <= i < j < self.rows@.len() ==> self.rows@[i].id < self.rows@[j].id
        &&& forall|i: int| 0 <= i < self.rows@.len() ==> self.rows@[i].id < self.next_id
    }

    /// The current value: the value of the most recently inserted row, if any.
    pub open spec fn spec_latest(self) -> Option<V> {
        if self.rows@.len() == 0 {
            None
        } else {
            Some(self.rows@.last().value)
        }
    }

    pub fn new() -> (log: Self)
        ensures
            log.wf(),
            log.rows@.len() == 0,
            log.next_id == 1,
    {
        ReadingLog { rows: Vec::new(), next_id: 1 }
    }

    /// Appends one row; never updates or deletes. Returns the identifier the
    /// new row received.
    pub fn insert(&mut self, value: V) -> (id: u64)
        requires
            old(self).wf(),
            old(self).next_id < u64::MAX,
        ensures
            final(self).wf(),
            id == old(self).next_id,
            final(self).rows@ == old(self).rows@.push(Row { id, value }),
            final(self).next_id == old(self).next_id + 1,
    {
        let id = self.next_id;
        self.rows.push(Row { id, value });
        self.next_id = self.next_id + 1;
        id
    }

    /// Reads the current value without touching the log.
    pub fn latest(&self) -> (r: Option<V>)
        ensures
            r == self.spec_latest(),
    {
        let n = self.rows.len();
        if n == 0 {
            None
        } else {
            Some(self.rows[n - 1].value)
        }
    }

    pub fn len(&self) -> (n: usize)
        ensures
            n == self.rows@.len(),
    {
        self.rows.len()
    }
}

/// Monotonic-latest law: in a well-formed, non-empty log every row's
/// identifier is at most the last row's, so the current value is the value of
/// the row with the maximum identifier.
pub proof fn lemma_latest_is_max_id<V: Copy>(log: ReadingLog<V>)
    requires
        log.wf(),
        log.rows@.len() > 0,
    ensures
        forall|i: int| 0 <= i < log.rows@.len() ==> log.rows@[i].id <= log.rows@.last().id,
        log.spec_latest() == Some(log.rows@.last().value),
{
    assert forall|i: int| 0 <= i < log.rows@.len() implies log.rows@[i].id <= log.rows@.last().id by {
        if i < log.rows@.len() - 1 {
            assert(log.rows@[i].id < log.rows@[log.rows@.len() - 1].id);
        }
    }
}

/// Append-only law: an insert leaves every row that was already in the log at
/// its place, unchanged, and only lengthens the sequence.
pub proof fn lemma_insert_is_append_only<V: Copy>(
    pre: ReadingLog<V>,
    post: ReadingLog<V>,
    id: u64,
    value: V,
)
    requires
        post.rows@ == pre.rows@.push(Row { id, value }),
    ensures
        post.rows@.len() == pre.rows@.len() + 1,
        forall|i: int| 0 <= i < pre.rows@.len() ==> post.rows@[i] == pre.rows@[i],
        post.rows@.last() == (Row { id, value }),
{
}

/// The persisted history of one tank system: three independent append-only
/// sequences, one per quantity. The fill level is carried as the raw bit
/// pattern of an IEEE-754 double, so the model never computes on it.
pub struct TankStore {
    pub levels: ReadingLog<u64>,
    pub valves: ReadingLog<bool>,
    pub thresholds: ReadingLog<i32>,
}

impl TankStore {
    pub open spec fn wf(self) -> bool {
        &&& self.levels.wf()
        &&& self.valves.wf()
        &&& self.thresholds.wf()
    }

    pub fn new() -> (store: Self)
        ensures
            store.wf(),
            store.levels.rows@.len() == 0,
            store.valves.rows@.len() == 0,
            store.thresholds.rows@.len() == 0,
    {
        TankStore { levels: ReadingLog::new(), valves: ReadingLog::new(), thresholds: ReadingLog::new() }
    }
}

} // verus!
