//! The registry of workspace records: the one place where records live.

use vstd::prelude::*;
use vstd::multiset::Multiset;
use crate::status::WorkspaceStatus;
use crate::workspace::{transitioned, Workspace, WorkspaceView};

verus! {

/// Why a store operation did not take effect.
#[derive(Clone, Copy, Debug, PartialEq, Eq, Structural)]
pub enum StoreError {
    /// No record has the identifier.
    NotFound,
    /// The record has taken as many mutations as its revision counter holds.
    Exhausted,
}

/// The records as plain values, in the order in which they were inserted.
pub open spec fn views(s: Seq<Workspace>) -> Seq<WorkspaceView> {
    s.map_values(|w: Workspace| w@)
}

/// Whether some record has the identifier `id`.
pub open spec fn has_id(s: Seq<WorkspaceView>, id: u128) -> bool {
    exists|i: int| 0 <= i < s.len() && s[i].id == id
}

/// The position of the record with identifier `id`, where there is one.
pub open spec fn index_of(s: Seq<WorkspaceView>, id: u128) -> int {
    choose|i: int| 0 <= i < s.len() && s[i].id == id
}

/// The record with identifier `id`, if any.
pub open spec fn lookup(s: Seq<WorkspaceView>, id: u128) -> Option<WorkspaceView> {
    if has_id(s, id) {
        Some(s[index_of(s, id)])
    } else {
        None
    }
}

/// No two records share an identifier, and each keeps the record invariants.
pub open spec fn registry_wf(s: Seq<WorkspaceView>) -> bool {
    &&& forall|i: int, j: int| 0 <= i < s.len() && 0 <= j < s.len() && s[i].id == s[j].id ==> i == j
    &&& forall|i: int| 0 <= i < s.len() ==> (#[trigger] s[i]).wf()
}

/// The registry after `put(w)`: the record with `w`'s identifier replaced in
/// place, or `w` appended.
pub open spec fn put_result(s: Seq<WorkspaceView>, w: WorkspaceView) -> Seq<WorkspaceView> {
    if has_id(s, w.id) {
        s.update(index_of(s, w.id), w)
    } else {
        s.push(w)
    }
}

/// The records of `owner`, in insertion order.
pub open spec fn owned_by(s: Seq<WorkspaceView>, owner: u128) -> Seq<WorkspaceView>
    decreases s.len(),
{
    if s.len() == 0 {
        s
    } else {
        let rest = owned_by(s.drop_last(), owner);
        if s.last().user_id == owner {
            rest.push(s.last())
        } else {
            rest
        }
    }
}

/// `w` placed into a list ordered newest first, ahead of every record
/// created at the same time or earlier.
pub open spec fn insert_newest(sorted: Seq<WorkspaceView>, w: WorkspaceView) -> Seq<WorkspaceView>
    decreases sorted.len(),
{
    if sorted.len() == 0 {
        seq![w]
    } else if sorted[0].created_at <= w.created_at {
        seq![w] + sorted
    } else {
        seq![sorted[0]] + insert_newest(sorted.drop_first(), w)
    }
}

/// All records ordered by `created_at`, newest first; among records created
/// at the same instant the later inserted comes first.
pub open spec fn newest_first(s: Seq<WorkspaceView>) -> Seq<WorkspaceView>
    decreases s.len(),
{
    if s.len() == 0 {
        s
    } else {
        insert_newest(newest_first(s.drop_last()), s.last())
    }
}

/// What a listing returns: every record newest first, or one owner's
/// records in insertion order.
pub open spec fn listing(s: Seq<WorkspaceView>, owner: Option<u128>) -> Seq<WorkspaceView> {
    match owner {
        None => newest_first(s),
        Some(o) => owned_by(s, o),
    }
}

/// Where the first record created no later than `w` stands, `w` goes.
proof fn lemma_insert_newest_at(sorted: Seq<WorkspaceView>, w: WorkspaceView, j: int)
    requires
        0 <= j <= sorted.len(),
        forall|k: int| 0 <= k < j ==> sorted[k].created_at > w.created_at,
        j < sorted.len() ==> sorted[j].created_at <= w.created_at,
    ensures
        insert_newest(sorted, w) == sorted.insert(j, w),
    decreases j,
{
    if j == 0 {
        assert(insert_newest(sorted, w) =~= sorted.insert(0, w));
    } else {
        let rest = sorted.drop_first();
        assert forall|k: int| 0 <= k < j - 1 implies rest[k].created_at > w.created_at by {
            assert(rest[k] == sorted[k + 1]);
        }
        lemma_insert_newest_at(rest, w, j - 1);
        assert(insert_newest(sorted, w) =~= sorted.insert(j, w));
    }
}

/// Ordered by `created_at`, newest first.
pub open spec fn is_newest_first(s: Seq<WorkspaceView>) -> bool {
    forall|i: int, j: int| 0 <= i < j < s.len() ==> s[i].created_at >= s[j].created_at
}

proof fn lemma_insert_newest(sorted: Seq<WorkspaceView>, w: WorkspaceView)
    ensures
        insert_newest(sorted, w).to_multiset() == sorted.to_multiset().insert(w),
        insert_newest(sorted, w).len() == sorted.len() + 1,
        insert_newest(sorted, w)[0] == w || (sorted.len() > 0 && insert_newest(sorted, w)[0] == sorted[0]),
        is_newest_first(sorted) ==> is_newest_first(insert_newest(sorted, w)),
    decreases sorted.len(),
{
    broadcast use vstd::seq_lib::lemma_multiset_commutative, vstd::seq_lib::to_multiset_build;

    let one = seq![w];
    assert(one =~= Seq::<WorkspaceView>::empty().push(w));
    assert(one.to_multiset() =~= Multiset::<WorkspaceView>::empty().insert(w)) by {
        Seq::<WorkspaceView>::empty().to_multiset_ensures();
    }
    if sorted.len() == 0 {
        assert(sorted.to_multiset() =~= Multiset::<WorkspaceView>::empty()) by {
            sorted.to_multiset_ensures();
        }
    } else if sorted[0].created_at <= w.created_at {
        assert((one + sorted).to_multiset() =~= one.to_multiset().add(sorted.to_multiset()));
        let r = one + sorted;
        assert forall|i: int, j: int| 0 <= i < j < r.len() && is_newest_first(sorted) implies r[i].created_at
            >= r[j].created_at by {
            if i == 0 {
                assert(sorted[0].created_at >= sorted[j - 1].created_at || j - 1 == 0);
            } else {
                assert(r[i] == sorted[i - 1] && r[j] == sorted[j - 1]);
            }
        }
    } else {
        let rest = sorted.drop_first();
        let head = seq![sorted[0]];
        lemma_insert_newest(rest, w);
        let sub = insert_newest(rest, w);
        assert(sorted =~= head + rest);
        assert((head + rest).to_multiset() =~= head.to_multiset().add(rest.to_multiset()));
        assert((head + sub).to_multiset() =~= head.to_multiset().add(sub.to_multiset()));
        let r = head + sub;
        assert(r =~= insert_newest(sorted, w));
        if is_newest_first(sorted) {
            assert(is_newest_first(rest)) by {
                assert forall|i: int, j: int| 0 <= i < j < rest.len() implies rest[i].created_at
                    >= rest[j].created_at by {
                    assert(rest[i] == sorted[i + 1] && rest[j] == sorted[j + 1]);
                }
            }
            assert(rest.len() > 0 ==> sorted[0].created_at >= rest[0].created_at) by {
                if rest.len() > 0 {
                    assert(rest[0] == sorted[1]);
                }
            }
            assert forall|i: int, j: int| 0 <= i < j < r.len() implies r[i].created_at >= r[j].created_at by {
                if i == 0 {
                    assert(r[j] == sub[j - 1]);
                    assert(sub[0].created_at >= sub[j - 1].created_at || j - 1 == 0);
                } else {
                    assert(r[i] == sub[i - 1] && r[j] == sub[j - 1]);
                }
            }
        }
    }
}

/// The newest-first listing holds exactly the records, each as often as
/// the registry does, ordered by `created_at` from newest to oldest.
pub proof fn lemma_newest_first_sorted(s: Seq<WorkspaceView>)
    ensures
        newest_first(s).to_multiset() == s.to_multiset(),
        is_newest_first(newest_first(s)),
    decreases s.len(),
{
    broadcast use vstd::seq_lib::to_multiset_build;

    if s.len() > 0 {
        lemma_newest_first_sorted(s.drop_last());
        lemma_insert_newest(newest_first(s.drop_last()), s.last());
        assert(s =~= s.drop_last().push(s.last()));
    }
}

/// The workspace registry. Records are kept in insertion order.
pub struct WorkspaceStore {
    records: Vec<Workspace>,
}

impl View for WorkspaceStore {
    type V = Seq<WorkspaceView>;

    closed spec fn view(&self) -> Seq<WorkspaceView> {
        views(self.records@)
    }
}

impl WorkspaceStore {
    pub open spec fn wf(&self) -> bool {
        registry_wf(self@)
    }

    /// An empty registry.
    pub fn new() -> (r: WorkspaceStore)
        ensures
            r.wf(),
            r@ == Seq::<WorkspaceView>::empty(),
    {
        let r = WorkspaceStore { records: Vec::new() };
        assert(r@ =~= Seq::<WorkspaceView>::empty());
        r
    }

    /// The number of records.
    pub fn len(&self) -> (r: usize)
        ensures
            r == self@.len(),
    {
        self.records.len()
    }

    /// The position of the record with identifier `id`.
    fn position(&self, id: u128) -> (r: Option<usize>)
        requires
            self.wf(),
        ensures
            match r {
                Some(i) => has_id(self@, id) && i == index_of(self@, id) && i < self@.len(),
                None => !has_id(self@, id),
            },
    {
        let n = self.records.len();
        let mut i: usize = 0;
        while i < n
            invariant
                self.wf(),
                n == self@.len(),
                i <= n,
                forall|k: int| 0 <= k < i ==> self@[k].id != id,
            decreases n - i,
        {
            if self.records[i].id == id {
                assert(self@[i as int].id == id);
                assert(has_id(self@, id));
                let ghost j = index_of(self@, id);
                assert(self@[j].id == id);
                return Some(i);
            }
            i = i + 1;
        }
        None
    }

    /// A copy of the record with identifier `id`, if any.
    pub fn get(&self, id: u128) -> (r: Option<Workspace>)
        requires
            self.wf(),
        ensures
            match r {
                Some(w) => lookup(self@, id) == Some(w@),
                None => lookup(self@, id) is None,
            },
    {
        match self.position(id) {
            Some(i) => Some(self.records[i].snapshot()),
            None => None,
        }
    }

    /// Inserts `w`, or replaces in place the record that has its identifier.
    pub fn put(&mut self, w: Workspace)
        requires
            old(self).wf(),
            w@.wf(),
        ensures
            final(self).wf(),
            final(self)@ == put_result(old(self)@, w@),
    {
        let ghost w_view = w@;
        match self.position(w.id) {
            Some(i) => {
                self.records.set(i, w);
                assert(self@ =~= old(self)@.update(i as int, w_view));
            },
            None => {
                self.records.push(w);
                assert(self@ =~= old(self)@.push(w_view));
            },
        }
        let ghost s = self@;
        assert forall|i: int, j: int| 0 <= i < s.len() && 0 <= j < s.len() && s[i].id == s[j].id implies i == j by {
            if has_id(old(self)@, w_view.id) {
                let k = index_of(old(self)@, w_view.id);
                assert(old(self)@[k].id == w_view.id);
            }
        }
    }

    /// Sets the status of the record `id` to `target` at time `now`, in one
    /// step, and returns the new record.
    pub fn mutate(&mut self, id: u128, target: WorkspaceStatus, now: i64) -> (r: Result<Workspace, StoreError>)
        requires
            old(self).wf(),
        ensures
            final(self).wf(),
            match lookup(old(self)@, id) {
                None => r == Err::<Workspace, StoreError>(StoreError::NotFound) && final(self)@ == old(self)@,
                Some(w) => if w.revision == u64::MAX {
                    r == Err::<Workspace, StoreError>(StoreError::Exhausted) && final(self)@ == old(self)@
                } else {
                    &&& r is Ok
                    &&& r->Ok_0@ == transitioned(w, target, now)
                    &&& final(self)@ == old(self)@.update(index_of(old(self)@, id), transitioned(w, target, now))
                },
            },
    {
        match self.position(id) {
            None => Err(StoreError::NotFound),
            Some(i) => {
                if self.records[i].revision == u64::MAX {
                    return Err(StoreError::Exhausted);
                }
                let ghost before = self@[i as int];
                self.records[i].transition(target, now);
                proof {
                    assert(self@ =~= old(self)@.update(i as int, transitioned(before, target, now)));
                    crate::workspace::lemma_transition_keeps_wf(before, target, now);
                    let s = self@;
                    assert forall|k: int| 0 <= k < s.len() implies (#[trigger] s[k]).wf() by {
                        if k != i {
                            assert(s[k] == old(self)@[k]);
                        }
                    }
                    assert forall|a: int, b: int| 0 <= a < s.len() && 0 <= b < s.len() && s[a].id == s[b].id implies a == b by {
                        assert(s[a].id == old(self)@[a].id);
                        assert(s[b].id == old(self)@[b].id);
                    }
                }
                Ok(self.records[i].snapshot())
            },
        }
    }

    /// Deletes the record `id`.
    pub fn remove(&mut self, id: u128) -> (r: Result<(), StoreError>)
        requires
            old(self).wf(),
        ensures
            final(self).wf(),
            has_id(old(self)@, id) ==> r is Ok && final(self)@ == old(self)@.remove(index_of(old(self)@, id)),
            !has_id(old(self)@, id) ==> r == Err::<(), StoreError>(StoreError::NotFound) && final(self)@ == old(self)@,
    {
        match self.position(id) {
            None => Err(StoreError::NotFound),
            Some(i) => {
                self.records.remove(i);
                proof {
                    assert(self@ =~= old(self)@.remove(i as int));
                    let s = self@;
                    let o = old(self)@;
                    assert forall|k: int| 0 <= k < s.len() implies (#[trigger] s[k]).wf() by {
                        if k < i {
                            assert(s[k] == o[k]);
                        } else {
                            assert(s[k] == o[k + 1]);
                        }
                    }
                    assert forall|a: int, b: int| 0 <= a < s.len() && 0 <= b < s.len() && s[a].id == s[b].id implies a == b by {
                        let a2 = if a < i { a } else { a + 1 };
                        let b2 = if b < i { b } else { b + 1 };
                        assert(s[a] == o[a2]);
                        assert(s[b] == o[b2]);
                    }
                }
                Ok(())
            },
        }
    }

    /// A point-in-time copy of the records: all of them newest first, or
    /// those of one owner in insertion order.
    pub fn list(&self, owner: Option<u128>) -> (r: Vec<Workspace>)
        ensures
            views(r@) == listing(self@, owner),
    {
        match owner {
            None => self.list_newest_first(),
            Some(o) => self.list_owned_by(o),
        }
    }

    fn list_owned_by(&self, owner: u128) -> (r: Vec<Workspace>)
        ensures
            views(r@) == owned_by(self@, owner),
    {
        let n = self.records.len();
        let mut out: Vec<Workspace> = Vec::new();
        let mut i: usize = 0;
        while i < n
            invariant
                n == self@.len(),
                i <= n,
                views(out@) == owned_by(self@.take(i as int), owner),
            decreases n - i,
        {
            let ghost before = out@;
            assert(self@.take(i as int + 1).drop_last() =~= self@.take(i as int));
            if self.records[i].user_id == owner {
                out.push(self.records[i].snapshot());
                assert(views(out@) =~= views(before).push(self@[i as int]));
            }
            i = i + 1;
        }
        assert(self@.take(n as int) =~= self@);
        out
    }

    fn list_newest_first(&self) -> (r: Vec<Workspace>)
        ensures
            views(r@) == newest_first(self@),
    {
        let n = self.records.len();
        let mut out: Vec<Workspace> = Vec::new();
        let mut i: usize = 0;
        while i < n
            invariant
                n == self@.len(),
                i <= n,
                out@.len() == i,
                views(out@) == newest_first(self@.take(i as int)),
            decreases n - i,
        {
            let w = self.records[i].snapshot();
            let ghost sorted = views(out@);
            let mut j: usize = 0;
            while j < out.len() && out[j].created_at > w.created_at
                invariant
                    j <= out@.len(),
                    sorted == views(out@),
                    forall|k: int| 0 <= k < j ==> sorted[k].created_at > w@.created_at,
                decreases out@.len() - j,
            {
                j = j + 1;
            }
            proof {
                lemma_insert_newest_at(sorted, w@, j as int);
                assert(self@.take(i as int + 1).drop_last() =~= self@.take(i as int));
            }
            let ghost wv = w@;
            out.insert(j, w);
            assert(views(out@) =~= sorted.insert(j as int, wv));
            i = i + 1;
        }
        assert(self@.take(n as int) =~= self@);
        out
    }
}

} // verus!
