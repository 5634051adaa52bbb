use vstd::prelude::*;

use crate::record::{SMap, SMapView};

verus! {

/// The ordered, append-only collection of registered records.
///
/// Callers that share it between tasks hold it behind one mutual-exclusion
/// primitive; each method is one linearizable step on the sequence below.
pub struct Registry {
    records: Vec<SMap>,
}

/// The views of a sequence of records, in the same order.
pub open spec fn views_of(v: Seq<SMap>) -> Seq<SMapView> {
    v.map_values(|r: SMap| r@)
}

/// The state reached from `start` by appending `ops` one after another.
pub open spec fn after_appends(start: Seq<SMapView>, ops: Seq<SMapView>) -> Seq<SMapView>
    decreases ops.len(),
{
    if ops.len() == 0 {
        start
    } else {
        after_appends(start, ops.drop_last()).push(ops.last())
    }
}

impl View for Registry {
    type V = Seq<SMapView>;

    closed spec fn view(&self) -> Seq<SMapView> {
        views_of(self.records@)
    }
}

impl Registry {
    /// An empty registry.
    pub fn new() -> (r: Registry)
        ensures
            r@ == Seq::<SMapView>::empty(),
    {
        let r = Registry { records: Vec::new() };
        assert(r@ =~= Seq::<SMapView>::empty());
        r
    }

    /// The number of registered records.
    pub fn len(&self) -> (n: usize)
        ensures
            n == self@.len(),
    {
        self.records.len()
    }

    /// Adds `record` at the end; every earlier record stays where it was.
    pub fn append(&mut self, record: SMap)
        ensures
            final(self)@ == old(self)@.push(record@),
    {
        self.records.push(record);
        assert(views_of(self.records@) =~= views_of(old(self).records@).push(record@));
    }

    /// A copy of every registered record, in insertion order.
    pub fn snapshot(&self) -> (r: Vec<SMap>)
        ensures
            views_of(r@) == self@,
    {
        let mut out: Vec<SMap> = Vec::new();
        let mut i: usize = 0;
        while i < self.records.len()
            invariant
                i <= self.records@.len(),
                views_of(out@) =~= views_of(self.records@.take(i as int)),
            decreases self.records@.len() - i,
        {
            let c = self.records[i].clone();
            let ghost prev = out@;
            out.push(c);
            assert(views_of(out@) =~= views_of(prev).push(c@));
            assert(self.records@.take(i as int + 1) =~= self.records@.take(i as int).push(
                self.records@[i as int],
            ));
            assert(views_of(self.records@.take(i as int + 1)) =~= views_of(
                self.records@.take(i as int),
            ).push(self.records@[i as int]@));
            i = i + 1;
        }
        assert(self.records@.take(i as int) =~= self.records@);
        out
    }

    /// Whether some registered record carries the identifier `uuid`.
    pub fn contains_id(&self, uuid: &String) -> (b: bool)
        ensures
            b == exists|k: int| 0 <= k < self@.len() && #[trigger] self@[k].uuid == uuid@,
    {
        let mut i: usize = 0;
        while i < self.records.len()
            invariant
                i <= self.records@.len(),
                forall|k: int| 0 <= k < i ==> #[trigger] self@[k].uuid != uuid@,
            decreases self.records@.len() - i,
        {
            if self.records[i].uuid == *uuid {
                assert(self@[i as int].uuid == uuid@);
                return true;
            }
            i = i + 1;
        }
        false
    }
}

/// Appending a sequence of records one at a time yields the start state
/// followed by those records, in the order in which they were appended.
pub proof fn lemma_appends_keep_order(start: Seq<SMapView>, ops: Seq<SMapView>)
    ensures
        after_appends(start, ops) == start + ops,
    decreases ops.len(),
{
    if ops.len() == 0 {
        assert(start + ops =~= start);
    } else {
        lemma_appends_keep_order(start, ops.drop_last());
        assert(start + ops =~= (start + ops.drop_last()).push(ops.last()));
    }
}

/// Linearized appends never tear or reorder what a snapshot sees: the state
/// after any first `k` of a run of appends is exactly a prefix of the state
/// after the whole run, and holds each completed append once, in order.
pub proof fn lemma_snapshot_is_prefix(start: Seq<SMapView>, ops: Seq<SMapView>, k: int)
    requires
        0 <= k <= ops.len(),
    ensures
        after_appends(start, ops.take(k)) == after_appends(start, ops).take(start.len() + k),
        after_appends(start, ops.take(k)).len() == start.len() + k,
        after_appends(start, ops).subrange(start.len() + k, (start.len() + ops.len()) as int) == ops.subrange(
            k,
            ops.len() as int,
        ),
{
    lemma_appends_keep_order(start, ops.take(k));
    lemma_appends_keep_order(start, ops);
    assert(start + ops.take(k) =~= (start + ops).take(start.len() + k));
    assert((start + ops).subrange(start.len() + k, (start.len() + ops.len()) as int) =~= ops.subrange(
        k,
        ops.len() as int,
    ));
}

} // verus!
