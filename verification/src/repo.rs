//! The transactional repository over the in-memory catalog: typed find,
//! create and delete operations per entity kind, taken against a scoped
//! [`Transaction`] and atomically committed or rolled back as a unit.
//!
//! Uniqueness of locator names and the single-winner finalize update are
//! enforced here, at the store, never by a check-then-act in a caller.

use vstd::prelude::*;
use crate::errors::FacadeError;
use crate::ids::{DataLossToken, ResourceLookup, Uuid};
use crate::locator::{SequenceResourceLocator, TopicResourceLocator};
use crate::records::{NotificationRecord, NotifyType, SequenceRecord, SessionRecord, TopicRecord};

verus! {

/// Keeps the sequence rows not carrying `name`.
pub open spec fn pred_seq_not_named(name: Seq<char>) -> spec_fn(SequenceRecord) -> bool {
    |q: SequenceRecord| q.locator_name@ != name
}

/// Keeps the topic rows of the sequence with id `sid`.
pub open spec fn pred_topic_of(sid: i32) -> spec_fn(TopicRecord) -> bool {
    |t: TopicRecord| t.sequence_id == sid
}

/// Keeps the topic rows of other sequences than the one with id `sid`.
pub open spec fn pred_topic_other(sid: i32) -> spec_fn(TopicRecord) -> bool {
    |t: TopicRecord| t.sequence_id != sid
}

/// Keeps the topic rows whose id is not `tid`.
pub open spec fn pred_topic_not_id(tid: i32) -> spec_fn(TopicRecord) -> bool {
    |t: TopicRecord| t.topic_id != tid
}

/// Keeps the session rows of the sequence with id `sid`.
pub open spec fn pred_session_of(sid: i32) -> spec_fn(SessionRecord) -> bool {
    |x: SessionRecord| x.sequence_id == sid
}

/// Keeps the session rows of other sequences than the one with id `sid`.
pub open spec fn pred_session_other(sid: i32) -> spec_fn(SessionRecord) -> bool {
    |x: SessionRecord| x.sequence_id != sid
}

/// Keeps the notification rows owned by the resource with id `id`.
pub open spec fn pred_notif_of(id: i32) -> spec_fn(NotificationRecord) -> bool {
    |n: NotificationRecord| n.owning_resource_id == id
}

/// Keeps the notification rows not owned by the resource with id `id`.
pub open spec fn pred_notif_not_of(id: i32) -> spec_fn(NotificationRecord) -> bool {
    |n: NotificationRecord| n.owning_resource_id != id
}

/// Keeps the notification rows owned neither by the sequence with id `sid`
/// nor by one of its topics.
pub open spec fn pred_notif_surviving(topics: Seq<TopicRecord>, sid: i32) -> spec_fn(
    NotificationRecord,
) -> bool {
    |n: NotificationRecord| n.owning_resource_id != sid && !owned_topic_id(
        topics,
        n.owning_resource_id,
        sid,
    )
}

/// Some topic row carries id `tid` and belongs to the sequence with id
/// `sid`.
pub open spec fn owned_topic_id(topics: Seq<TopicRecord>, tid: i32, sid: i32) -> bool {
    exists|i: int|
        0 <= i < topics.len() && (#[trigger] topics[i]).topic_id == tid && topics[i].sequence_id
            == sid
}

/// The whole persisted state: one table per entity and the id counter. The
/// store is the single source of truth; integer ids are assigned from one
/// counter, so an id names at most one record across all tables.
pub struct CatalogState {
    /// The next integer id the store will assign; ids grow from 1.
    pub next_id: i32,
    pub sequences: Vec<SequenceRecord>,
    pub topics: Vec<TopicRecord>,
    pub sessions: Vec<SessionRecord>,
    pub notifications: Vec<NotificationRecord>,
}

impl CatalogState {
    /// Some sequence carries this locator name.
    pub open spec fn seq_named(self, name: Seq<char>) -> bool {
        exists|i: int|
            0 <= i < self.sequences@.len() && (#[trigger] self.sequences@[i]).locator_name@
                == name
    }

    /// Some sequence carries this integer id.
    pub open spec fn seq_with_id(self, id: i32) -> bool {
        exists|i: int|
            0 <= i < self.sequences@.len() && (#[trigger] self.sequences@[i]).sequence_id == id
    }

    /// Some sequence carries this random identifier.
    pub open spec fn seq_with_uuid(self, u: Uuid) -> bool {
        exists|i: int|
            0 <= i < self.sequences@.len() && (#[trigger] self.sequences@[i]).sequence_uuid == u
    }

    /// Some topic carries this integer id.
    pub open spec fn topic_with_id(self, id: i32) -> bool {
        exists|i: int|
            0 <= i < self.topics@.len() && (#[trigger] self.topics@[i]).topic_id == id
    }

    /// Some topic carries this random identifier.
    pub open spec fn topic_with_uuid(self, u: Uuid) -> bool {
        exists|i: int|
            0 <= i < self.topics@.len() && (#[trigger] self.topics@[i]).topic_uuid == u
    }

    /// Some topic of the sequence with id `sid` carries this name.
    pub open spec fn topic_in(self, sid: i32, name: Seq<char>) -> bool {
        exists|i: int|
            0 <= i < self.topics@.len() && (#[trigger] self.topics@[i]).sequence_id == sid
                && self.topics@[i].locator_name@ == name
    }

    /// Some session carries this random identifier.
    pub open spec fn session_with_uuid(self, u: Uuid) -> bool {
        exists|i: int|
            0 <= i < self.sessions@.len() && (#[trigger] self.sessions@[i]).session_uuid == u
    }

    /// Some topic belongs to the sequence with id `sid`.
    pub open spec fn has_topic_of(self, sid: i32) -> bool {
        exists|i: int|
            0 <= i < self.topics@.len() && (#[trigger] self.topics@[i]).sequence_id == sid
    }

    /// Some session belongs to the sequence with id `sid`.
    pub open spec fn session_of(self, sid: i32) -> bool {
        exists|i: int|
            0 <= i < self.sessions@.len() && (#[trigger] self.sessions@[i]).sequence_id == sid
    }

    /// The id names a sequence or a topic: the two kinds a notification may
    /// be attached to.
    pub open spec fn owner_exists(self, id: i32) -> bool {
        self.seq_with_id(id) || self.topic_with_id(id)
    }

    /// The notifications owned by the resource with id `id`, in creation
    /// order.
    pub open spec fn notifications_of(self, id: i32) -> Seq<NotificationRecord> {
        self.notifications@.filter(pred_notif_of(id))
    }

    /// The two states hold the same tables and counter. Contracts compare
    /// states through this predicate: it is equality of everything the
    /// store means, independent of heap identity.
    pub open spec fn same_as(self, other: CatalogState) -> bool {
        &&& self.next_id == other.next_id
        &&& self.sequences@ == other.sequences@
        &&& self.topics@ == other.topics@
        &&& self.sessions@ == other.sessions@
        &&& self.notifications@ == other.notifications@
    }

    /// The store invariant. Enforced by the repository boundary, not by
    /// callers: every mutation establishes it anew.
    pub open spec fn wf(self) -> bool {
        &&& 1 <= self.next_id
        // Assigned ids are below the counter,
        &&& (forall|i: int|
            0 <= i < self.sequences@.len() ==> 1 <= (#[trigger] self.sequences@[i]).sequence_id
                < self.next_id)
        &&& (forall|i: int|
            0 <= i < self.topics@.len() ==> 1 <= (#[trigger] self.topics@[i]).topic_id
                < self.next_id)
        &&& (forall|i: int|
            0 <= i < self.sessions@.len() ==> 1 <= (#[trigger] self.sessions@[i]).session_id
                < self.next_id)
        &&& (forall|i: int|
            0 <= i < self.notifications@.len() ==> 1 <= (
            #[trigger] self.notifications@[i]).notification_id < self.next_id)
        // random identifiers are never sentinels,
        &&& (forall|i: int|
            0 <= i < self.sequences@.len() ==> (
            #[trigger] self.sequences@[i]).sequence_uuid.valid())
        &&& (forall|i: int|
            0 <= i < self.topics@.len() ==> (#[trigger] self.topics@[i]).topic_uuid.valid())
        &&& (forall|i: int|
            0 <= i < self.sessions@.len() ==> (#[trigger] self.sessions@[i]).session_uuid.valid())
        // ids, random identifiers and locator names are unique per table,
        &&& (forall|i: int, j: int|
            #![trigger self.sequences@[i], self.sequences@[j]]
            0 <= i < j < self.sequences@.len() ==> self.sequences@[i].sequence_id
                != self.sequences@[j].sequence_id && self.sequences@[i].sequence_uuid
                != self.sequences@[j].sequence_uuid && self.sequences@[i].locator_name@
                != self.sequences@[j].locator_name@)
        &&& (forall|i: int, j: int|
            #![trigger self.topics@[i], self.topics@[j]]
            0 <= i < j < self.topics@.len() ==> self.topics@[i].topic_id
                != self.topics@[j].topic_id && self.topics@[i].topic_uuid
                != self.topics@[j].topic_uuid)
        // topic names are unique within their owning sequence,
        &&& (forall|i: int, j: int|
            #![trigger self.topics@[i], self.topics@[j]]
            0 <= i < j < self.topics@.len() ==> !(self.topics@[i].sequence_id
                == self.topics@[j].sequence_id && self.topics@[i].locator_name@
                == self.topics@[j].locator_name@))
        &&& (forall|i: int, j: int|
            #![trigger self.sessions@[i], self.sessions@[j]]
            0 <= i < j < self.sessions@.len() ==> self.sessions@[i].session_id
                != self.sessions@[j].session_id && self.sessions@[i].session_uuid
                != self.sessions@[j].session_uuid)
        &&& (forall|i: int, j: int|
            #![trigger self.notifications@[i], self.notifications@[j]]
            0 <= i < j < self.notifications@.len() ==> self.notifications@[i].notification_id
                != self.notifications@[j].notification_id)
        // an id never names both a sequence and a topic,
        &&& (forall|i: int, j: int|
            #![trigger self.sequences@[i], self.topics@[j]]
            0 <= i < self.sequences@.len() && 0 <= j < self.topics@.len()
                ==> self.sequences@[i].sequence_id != self.topics@[j].topic_id)
        // ownership references resolve,
        &&& (forall|i: int|
            0 <= i < self.topics@.len() ==> self.seq_with_id(
                (#[trigger] self.topics@[i]).sequence_id,
            ))
        &&& (forall|i: int|
            0 <= i < self.sessions@.len() ==> self.seq_with_id(
                (#[trigger] self.sessions@[i]).sequence_id,
            ))
        &&& (forall|i: int|
            0 <= i < self.notifications@.len() ==> self.owner_exists(
                (#[trigger] self.notifications@[i]).owning_resource_id,
            ))
        // and a completion timestamp stands iff the session is locked.
        &&& (forall|i: int|
            0 <= i < self.sessions@.len() ==> (#[trigger] self.sessions@[i]).wf())
    }

    /// The empty catalog.
    pub fn empty() -> (r: CatalogState)
        ensures
            r.wf(),
            r.next_id == 1,
            r.sequences@ =~= Seq::<SequenceRecord>::empty(),
            r.topics@ =~= Seq::<TopicRecord>::empty(),
            r.sessions@ =~= Seq::<SessionRecord>::empty(),
            r.notifications@ =~= Seq::<NotificationRecord>::empty(),
    {
        CatalogState {
            next_id: 1,
            sequences: Vec::new(),
            topics: Vec::new(),
            sessions: Vec::new(),
            notifications: Vec::new(),
        }
    }

    /// A value-equal copy, taken when a transaction opens.
    fn snapshot(&self) -> (r: CatalogState)
        ensures
            r.same_as(*self),
    {
        let r = CatalogState {
            next_id: self.next_id,
            sequences: self.sequences.clone(),
            topics: self.topics.clone(),
            sessions: self.sessions.clone(),
            notifications: self.notifications.clone(),
        };
        proof {
            assert forall|i: int| 0 <= i < self.sequences@.len() implies r.sequences@[i]
                == self.sequences@[i] by {
                assert(cloned(self.sequences@[i], r.sequences@[i]));
            }
            assert forall|i: int| 0 <= i < self.topics@.len() implies r.topics@[i]
                == self.topics@[i] by {
                assert(cloned(self.topics@[i], r.topics@[i]));
            }
            assert forall|i: int| 0 <= i < self.sessions@.len() implies r.sessions@[i]
                == self.sessions@[i] by {
                assert(cloned(self.sessions@[i], r.sessions@[i]));
            }
            assert forall|i: int| 0 <= i < self.notifications@.len() implies r.notifications@[i]
                == self.notifications@[i] by {
                assert(cloned(self.notifications@[i], r.notifications@[i]));
            }
            assert(r.sequences@ =~= self.sequences@);
            assert(r.topics@ =~= self.topics@);
            assert(r.sessions@ =~= self.sessions@);
            assert(r.notifications@ =~= self.notifications@);
        }
        r
    }
}

/// The handle to the shared persistent state.
pub struct Repository {
    pub state: CatalogState,
}

/// A scoped unit of work over a private working copy of the catalog. All
/// operations taken against one transaction observe each other's uncommitted
/// writes; the writes reach the repository only through
/// [`Repository::commit`]. A transaction dropped on any other path — every
/// error path included — changes nothing: rollback is the default.
pub struct Transaction {
    pub work: CatalogState,
}

impl Repository {
    /// A repository over an empty catalog.
    pub fn new() -> (r: Repository)
        ensures
            r.state.wf(),
            r.state.next_id == 1,
            r.state.sequences@ =~= Seq::<SequenceRecord>::empty(),
            r.state.topics@ =~= Seq::<TopicRecord>::empty(),
            r.state.sessions@ =~= Seq::<SessionRecord>::empty(),
            r.state.notifications@ =~= Seq::<NotificationRecord>::empty(),
    {
        Repository { state: CatalogState::empty() }
    }

    /// Opens a scoped transaction over the current state.
    pub fn transaction(&self) -> (tx: Transaction)
        ensures
            tx.work.same_as(self.state),
    {
        Transaction { work: self.state.snapshot() }
    }

    /// Atomically publishes the transaction's writes.
    pub fn commit(&mut self, tx: Transaction) -> (r: Result<(), FacadeError>)
        ensures
            r is Ok,
            final(self).state == tx.work,
    {
        self.state = tx.work;
        Ok(())
    }
}

/// Every element a filter keeps satisfies its predicate, comes from the
/// filtered sequence, and two kept positions come from two positions of the
/// source in the same order — so a filter of a duplicate-free table stays
/// duplicate-free.
pub(crate) proof fn lemma_filter_structure<A>(s: Seq<A>, pred: spec_fn(A) -> bool)
    ensures
        forall|i: int| 0 <= i < s.filter(pred).len() ==> pred(#[trigger] s.filter(pred)[i]),
        forall|i: int| 0 <= i < s.filter(pred).len() ==> s.contains(#[trigger] s.filter(pred)[i]),
        forall|i: int, j: int|
            #![trigger s.filter(pred)[i], s.filter(pred)[j]]
            0 <= i < j < s.filter(pred).len() ==> exists|k: int, l: int|
                0 <= k < l < s.len() && s[k] == s.filter(pred)[i] && s[l] == s.filter(pred)[j],
    decreases s.len(),
{
    reveal(Seq::filter);
    let f = s.filter(pred);
    if s.len() > 0 {
        let sub = s.drop_last();
        lemma_filter_structure(sub, pred);
        let fsub = sub.filter(pred);
        assert(forall|k: int| 0 <= k < sub.len() ==> sub[k] == s[k]);
        assert forall|x: A| sub.contains(x) implies s.contains(x) by {
            let k = choose|k: int| 0 <= k < sub.len() && sub[k] == x;
            assert(s[k] == x);
        }
        assert forall|i: int| 0 <= i < f.len() implies pred(#[trigger] f[i]) && s.contains(
            f[i],
        ) by {
            if i < fsub.len() {
                assert(f[i] == fsub[i]);
            } else {
                assert(pred(s.last()) && f[i] == s.last());
                assert(s[s.len() - 1] == s.last());
            }
        }
        assert forall|i: int, j: int|
            #![trigger f[i], f[j]]
            0 <= i < j < f.len() implies exists|k: int, l: int|
            0 <= k < l < s.len() && s[k] == f[i] && s[l] == f[j] by {
            if j < fsub.len() {
                assert(f[i] == fsub[i] && f[j] == fsub[j]);
                let (k, l): (int, int) = choose|k: int, l: int|
                    0 <= k < l < sub.len() && sub[k] == fsub[i] && sub[l] == fsub[j];
                assert(0 <= k < l < s.len() && s[k] == f[i] && s[l] == f[j]);
            } else {
                assert(pred(s.last()) && f[j] == s.last() && f[i] == fsub[i]);
                assert(sub.contains(fsub[i]));
                let k = choose|k: int| 0 <= k < sub.len() && sub[k] == fsub[i];
                let l = s.len() - 1;
                assert(0 <= k < l < s.len() && s[k] == f[i] && s[l] == f[j]);
            }
        }
    }
}

/// One step of walking a table while filtering it: taking one more element
/// extends the filtered prefix by the element iff it satisfies the
/// predicate.
proof fn lemma_filter_take_step<A>(s: Seq<A>, pred: spec_fn(A) -> bool, i: int)
    requires
        0 <= i < s.len(),
    ensures
        s.take(i + 1).filter(pred) == if pred(s[i]) {
            s.take(i).filter(pred).push(s[i])
        } else {
            s.take(i).filter(pred)
        },
{
    reveal(Seq::filter);
    assert(s.take(i + 1).drop_last() =~= s.take(i));
    assert(s.take(i + 1).last() == s[i]);
}

/// Appending a fresh sequence row keeps the store invariant: the assigned
/// id is the counter, above every stored id, and the name and random
/// identifier are checked free beforehand.
proof fn lemma_wf_after_sequence_push(pre: CatalogState, post: CatalogState, out: SequenceRecord)
    requires
        pre.wf(),
        pre.next_id < i32::MAX,
        post.sequences@ == pre.sequences@.push(out),
        post.topics@ == pre.topics@,
        post.sessions@ == pre.sessions@,
        post.notifications@ == pre.notifications@,
        post.next_id == pre.next_id + 1,
        out.sequence_id == pre.next_id,
        out.sequence_uuid.valid(),
        !pre.seq_named(out.locator_name@),
        !pre.seq_with_uuid(out.sequence_uuid),
    ensures
        post.wf(),
{
    let a = pre.sequences@;
    let b = post.sequences@;
    assert forall|i: int| 0 <= i < b.len() implies 1 <= (#[trigger] b[i]).sequence_id
        < post.next_id && b[i].sequence_uuid.valid() by {
        if i < a.len() {
            assert(b[i] == a[i]);
        } else {
            assert(b[i] == out);
        }
    }
    assert forall|i: int, j: int|
        #![trigger b[i], b[j]]
        0 <= i < j < b.len() implies b[i].sequence_id != b[j].sequence_id && b[i].sequence_uuid
        != b[j].sequence_uuid && b[i].locator_name@ != b[j].locator_name@ by {
        assert(b[i] == a[i]);
        if j < a.len() {
            assert(b[j] == a[j]);
        } else {
            assert(b[j] == out);
            if a[i].sequence_uuid == out.sequence_uuid {
                assert(pre.seq_with_uuid(out.sequence_uuid));
            }
            if a[i].locator_name@ == out.locator_name@ {
                assert(pre.seq_named(out.locator_name@));
            }
        }
    }
    assert forall|i: int, j: int|
        #![trigger b[i], post.topics@[j]]
        0 <= i < b.len() && 0 <= j < post.topics@.len() implies b[i].sequence_id
        != post.topics@[j].topic_id by {
        if i < a.len() {
            assert(b[i] == a[i]);
        } else {
            assert(b[i] == out);
        }
    }
    assert forall|i: int| 0 <= i < post.topics@.len() implies post.seq_with_id(
        (#[trigger] post.topics@[i]).sequence_id,
    ) by {
        let sid = post.topics@[i].sequence_id;
        assert(pre.seq_with_id(sid));
        let k = choose|k: int| 0 <= k < a.len() && (#[trigger] a[k]).sequence_id == sid;
        assert(b[k] == a[k]);
    }
    assert forall|i: int| 0 <= i < post.sessions@.len() implies post.seq_with_id(
        (#[trigger] post.sessions@[i]).sequence_id,
    ) by {
        let sid = post.sessions@[i].sequence_id;
        assert(pre.seq_with_id(sid));
        let k = choose|k: int| 0 <= k < a.len() && (#[trigger] a[k]).sequence_id == sid;
        assert(b[k] == a[k]);
    }
    assert forall|i: int| 0 <= i < post.notifications@.len() implies post.owner_exists(
        (#[trigger] post.notifications@[i]).owning_resource_id,
    ) by {
        let oid = post.notifications@[i].owning_resource_id;
        assert(pre.owner_exists(oid));
        if pre.seq_with_id(oid) {
            let k = choose|k: int| 0 <= k < a.len() && (#[trigger] a[k]).sequence_id == oid;
            assert(b[k] == a[k]);
        }
    }
}

/// Appending a fresh session row keeps the store invariant.
proof fn lemma_wf_after_session_push(pre: CatalogState, post: CatalogState, out: SessionRecord)
    requires
        pre.wf(),
        pre.next_id < i32::MAX,
        post.sessions@ == pre.sessions@.push(out),
        post.topics@ == pre.topics@,
        post.sequences@ == pre.sequences@,
        post.notifications@ == pre.notifications@,
        post.next_id == pre.next_id + 1,
        out.session_id == pre.next_id,
        out.session_uuid.valid(),
        out.wf(),
        pre.seq_with_id(out.sequence_id),
        !pre.session_with_uuid(out.session_uuid),
    ensures
        post.wf(),
{
    let a = pre.sessions@;
    let b = post.sessions@;
    assert forall|i: int| 0 <= i < b.len() implies 1 <= (#[trigger] b[i]).session_id
        < post.next_id && b[i].session_uuid.valid() && b[i].wf() by {
        if i < a.len() {
            assert(b[i] == a[i]);
        } else {
            assert(b[i] == out);
        }
    }
    assert forall|i: int, j: int|
        #![trigger b[i], b[j]]
        0 <= i < j < b.len() implies b[i].session_id != b[j].session_id && b[i].session_uuid
        != b[j].session_uuid by {
        assert(b[i] == a[i]);
        if j < a.len() {
            assert(b[j] == a[j]);
        } else {
            assert(b[j] == out);
            if a[i].session_uuid == out.session_uuid {
                assert(pre.session_with_uuid(out.session_uuid));
            }
        }
    }
    assert forall|i: int| 0 <= i < b.len() implies post.seq_with_id(
        (#[trigger] b[i]).sequence_id,
    ) by {
        if i < a.len() {
            assert(b[i] == a[i]);
            assert(pre.seq_with_id(a[i].sequence_id));
        } else {
            assert(b[i] == out);
        }
    }
}

/// The conditional finalize update keeps the store invariant: the locked
/// version keeps the row's identity and owner, and completes the one-way
/// transition.
proof fn lemma_wf_after_session_update(
    pre: CatalogState,
    post: CatalogState,
    i: int,
    completion_millis: i64,
)
    requires
        pre.wf(),
        0 <= i < pre.sessions@.len(),
        post.sessions@ == pre.sessions@.update(
            i,
            locked_version(pre.sessions@[i], completion_millis),
        ),
        post.topics@ == pre.topics@,
        post.sequences@ == pre.sequences@,
        post.notifications@ == pre.notifications@,
        post.next_id == pre.next_id,
    ensures
        post.wf(),
{
    let a = pre.sessions@;
    let b = post.sessions@;
    assert forall|k: int| 0 <= k < b.len() implies 1 <= (#[trigger] b[k]).session_id
        < post.next_id && b[k].session_uuid.valid() && b[k].wf() && b[k].session_uuid
        == a[k].session_uuid && b[k].session_id == a[k].session_id && b[k].sequence_id
        == a[k].sequence_id by {
        if k != i {
            assert(b[k] == a[k]);
        }
    }
    assert forall|k: int| 0 <= k < b.len() implies post.seq_with_id(
        (#[trigger] b[k]).sequence_id,
    ) by {
        assert(pre.seq_with_id(a[k].sequence_id));
    }
}

/// Whether the lookup form addresses this sequence record.
pub open spec fn lookup_matches_seq(l: ResourceLookup, rec: SequenceRecord) -> bool {
    match l {
        ResourceLookup::Id(id) => rec.sequence_id == id,
        ResourceLookup::Uuid(u) => rec.sequence_uuid == u,
        ResourceLookup::Locator(name) => rec.locator_name@ == name@,
    }
}

/// Whether some sequence of the catalog answers the lookup form.
pub open spec fn seq_lookup_hits(s: CatalogState, l: ResourceLookup) -> bool {
    match l {
        ResourceLookup::Id(id) => s.seq_with_id(id),
        ResourceLookup::Uuid(u) => s.seq_with_uuid(u),
        ResourceLookup::Locator(name) => s.seq_named(name@),
    }
}

/// Find a sequence given its id.
pub fn sequence_find_by_id(tx: &Transaction, id: i32) -> (r: Result<SequenceRecord, FacadeError>)
    ensures
        match r {
            Ok(rec) => tx.work.sequences@.contains(rec) && rec.sequence_id == id,
            Err(e) => e == FacadeError::NotFound && !tx.work.seq_with_id(id),
        },
{
    let n = tx.work.sequences.len();
    let mut i: usize = 0;
    while i < n
        invariant
            n == tx.work.sequences@.len(),
            0 <= i <= n,
            forall|j: int| 0 <= j < i ==> (#[trigger] tx.work.sequences@[j]).sequence_id != id,
        decreases n - i,
    {
        if tx.work.sequences[i].sequence_id == id {
            let rec = tx.work.sequences[i].clone();
            proof {
                assert(tx.work.sequences@[i as int] == rec);
            }
            return Ok(rec);
        }
        i += 1;
    }
    Err(FacadeError::NotFound)
}

/// Find a sequence given its random identifier.
pub fn sequence_find_by_uuid(tx: &Transaction, uuid: &Uuid) -> (r: Result<
    SequenceRecord,
    FacadeError,
>)
    ensures
        match r {
            Ok(rec) => tx.work.sequences@.contains(rec) && rec.sequence_uuid == *uuid,
            Err(e) => e == FacadeError::NotFound && !tx.work.seq_with_uuid(*uuid),
        },
{
    let n = tx.work.sequences.len();
    let mut i: usize = 0;
    while i < n
        invariant
            n == tx.work.sequences@.len(),
            0 <= i <= n,
            forall|j: int| 0 <= j < i ==> (#[trigger] tx.work.sequences@[j]).sequence_uuid
                != *uuid,
        decreases n - i,
    {
        if tx.work.sequences[i].sequence_uuid.bits == uuid.bits {
            let rec = tx.work.sequences[i].clone();
            proof {
                assert(tx.work.sequences@[i as int] == rec);
            }
            return Ok(rec);
        }
        i += 1;
    }
    Err(FacadeError::NotFound)
}

/// Find a sequence given its name.
pub fn sequence_find_by_locator(tx: &Transaction, loc: &SequenceResourceLocator) -> (r: Result<
    SequenceRecord,
    FacadeError,
>)
    ensures
        match r {
            Ok(rec) => tx.work.sequences@.contains(rec) && rec.locator_name@ == loc.name@,
            Err(e) => e == FacadeError::NotFound && !tx.work.seq_named(loc.name@),
        },
{
    let n = tx.work.sequences.len();
    let mut i: usize = 0;
    while i < n
        invariant
            n == tx.work.sequences@.len(),
            0 <= i <= n,
            forall|j: int| 0 <= j < i ==> (#[trigger] tx.work.sequences@[j]).locator_name@
                != loc.name@,
        decreases n - i,
    {
        if tx.work.sequences[i].locator_name == loc.name {
            let rec = tx.work.sequences[i].clone();
            proof {
                assert(tx.work.sequences@[i as int] == rec);
            }
            return Ok(rec);
        }
        i += 1;
    }
    Err(FacadeError::NotFound)
}

/// Find a sequence by resource lookup. The locator form is taken as stored
/// text here; its validation stands at the boundary that parses user input.
pub fn sequence_lookup(tx: &Transaction, resource_lookup: &ResourceLookup) -> (r: Result<
    SequenceRecord,
    FacadeError,
>)
    ensures
        match r {
            Ok(rec) => tx.work.sequences@.contains(rec) && lookup_matches_seq(
                *resource_lookup,
                rec,
            ),
            Err(e) => e == FacadeError::NotFound && !seq_lookup_hits(tx.work, *resource_lookup),
        },
{
    match resource_lookup {
        ResourceLookup::Id(id) => sequence_find_by_id(tx, *id),
        ResourceLookup::Uuid(uuid) => sequence_find_by_uuid(tx, uuid),
        ResourceLookup::Locator(locator) => {
            let loc = SequenceResourceLocator::from_name(locator.clone());
            sequence_find_by_locator(tx, &loc)
        },
    }
}

/// Return all sequences, in storage order.
pub fn sequence_find_all(tx: &Transaction) -> (r: Result<Vec<SequenceRecord>, FacadeError>)
    ensures
        match r {
            Ok(v) => v@ == tx.work.sequences@,
            Err(_) => false,
        },
{
    let v = tx.work.sequences.clone();
    proof {
        assert forall|i: int| 0 <= i < tx.work.sequences@.len() implies v@[i]
            == tx.work.sequences@[i] by {
            assert(cloned(tx.work.sequences@[i], v@[i]));
        }
        assert(v@ =~= tx.work.sequences@);
    }
    Ok(v)
}

/// Creates a new sequence record, assigning its id. The store itself
/// refuses a taken locator name, so concurrent creation attempts with one
/// name yield at most one success.
pub fn sequence_create(tx: &mut Transaction, record: &SequenceRecord) -> (r: Result<
    SequenceRecord,
    FacadeError,
>)
    requires
        old(tx).work.wf(),
    ensures
        final(tx).work.wf(),
        match r {
            Ok(out) => {
                &&& !old(tx).work.seq_named(record.locator_name@)
                &&& !old(tx).work.seq_with_uuid(record.sequence_uuid)
                &&& record.sequence_uuid.valid()
                &&& old(tx).work.next_id < i32::MAX
                &&& out.sequence_id == old(tx).work.next_id
                &&& out.sequence_uuid == record.sequence_uuid
                &&& out.locator_name@ == record.locator_name@
                &&& out.creation_unix_tstamp == record.creation_unix_tstamp
                &&& out.user_metadata == record.user_metadata
                &&& final(tx).work.sequences@ == old(tx).work.sequences@.push(out)
                &&& final(tx).work.next_id == old(tx).work.next_id + 1
                &&& final(tx).work.topics@ == old(tx).work.topics@
                &&& final(tx).work.sessions@ == old(tx).work.sessions@
                &&& final(tx).work.notifications@ == old(tx).work.notifications@
            },
            Err(e) => {
                &&& *final(tx) == *old(tx)
                &&& match e {
                    FacadeError::AlreadyExists => old(tx).work.seq_named(record.locator_name@),
                    FacadeError::Validation => !old(tx).work.seq_named(record.locator_name@)
                        && !record.sequence_uuid.valid(),
                    FacadeError::RepositoryError => !old(tx).work.seq_named(record.locator_name@)
                        && record.sequence_uuid.valid() && (old(tx).work.seq_with_uuid(
                        record.sequence_uuid,
                    ) || old(tx).work.next_id == i32::MAX),
                    _ => false,
                }
            },
        },
{
    let loc = SequenceResourceLocator::from_name(record.locator_name.clone());
    if let Ok(_) = sequence_find_by_locator(&*tx, &loc) {
        return Err(FacadeError::AlreadyExists);
    }
    if !record.sequence_uuid.is_valid() {
        return Err(FacadeError::Validation);
    }
    if let Ok(_) = sequence_find_by_uuid(&*tx, &record.sequence_uuid) {
        return Err(FacadeError::RepositoryError);
    }
    if tx.work.next_id == i32::MAX {
        return Err(FacadeError::RepositoryError);
    }
    let mut out = record.clone();
    out.sequence_id = tx.work.next_id;
    tx.work.next_id = tx.work.next_id + 1;
    let stored = out.clone();
    tx.work.sequences.push(stored);
    proof {
        lemma_wf_after_sequence_push(old(tx).work, tx.work, out);
    }
    Ok(out)
}

/// Creates a new session row for an existing sequence. Sessions are not
/// mutually exclusive: any number may stand open for one sequence.
pub fn session_create(tx: &mut Transaction, record: &SessionRecord) -> (r: Result<
    SessionRecord,
    FacadeError,
>)
    requires
        old(tx).work.wf(),
        !record.locked,
        record.completion_unix_tstamp is None,
    ensures
        final(tx).work.wf(),
        match r {
            Ok(out) => {
                &&& old(tx).work.seq_with_id(record.sequence_id)
                &&& !old(tx).work.session_with_uuid(record.session_uuid)
                &&& record.session_uuid.valid()
                &&& old(tx).work.next_id < i32::MAX
                &&& out.session_id == old(tx).work.next_id
                &&& out.session_uuid == record.session_uuid
                &&& out.sequence_id == record.sequence_id
                &&& !out.locked
                &&& out.creation_unix_tstamp == record.creation_unix_tstamp
                &&& out.completion_unix_tstamp is None
                &&& final(tx).work.sessions@ == old(tx).work.sessions@.push(out)
                &&& final(tx).work.next_id == old(tx).work.next_id + 1
                &&& final(tx).work.sequences@ == old(tx).work.sequences@
                &&& final(tx).work.topics@ == old(tx).work.topics@
                &&& final(tx).work.notifications@ == old(tx).work.notifications@
            },
            Err(e) => {
                &&& *final(tx) == *old(tx)
                &&& match e {
                    FacadeError::NotFound => !old(tx).work.seq_with_id(record.sequence_id),
                    FacadeError::Validation => old(tx).work.seq_with_id(record.sequence_id)
                        && !record.session_uuid.valid(),
                    FacadeError::RepositoryError => old(tx).work.seq_with_id(record.sequence_id)
                        && record.session_uuid.valid() && (old(tx).work.session_with_uuid(
                        record.session_uuid,
                    ) || old(tx).work.next_id == i32::MAX),
                    _ => false,
                }
            },
        },
{
    if let Err(_) = sequence_find_by_id(&*tx, record.sequence_id) {
        return Err(FacadeError::NotFound);
    }
    if !record.session_uuid.is_valid() {
        return Err(FacadeError::Validation);
    }
    if session_uuid_taken(&*tx, &record.session_uuid) {
        return Err(FacadeError::RepositoryError);
    }
    if tx.work.next_id == i32::MAX {
        return Err(FacadeError::RepositoryError);
    }
    let mut out = record.clone();
    out.session_id = tx.work.next_id;
    tx.work.next_id = tx.work.next_id + 1;
    let stored = out.clone();
    tx.work.sessions.push(stored);
    proof {
        lemma_wf_after_session_push(old(tx).work, tx.work, out);
    }
    Ok(out)
}

/// Whether some session already carries this random identifier.
fn session_uuid_taken(tx: &Transaction, uuid: &Uuid) -> (r: bool)
    ensures
        r == tx.work.session_with_uuid(*uuid),
{
    let n = tx.work.sessions.len();
    let mut i: usize = 0;
    while i < n
        invariant
            n == tx.work.sessions@.len(),
            0 <= i <= n,
            forall|j: int| 0 <= j < i ==> (#[trigger] tx.work.sessions@[j]).session_uuid != *uuid,
        decreases n - i,
    {
        if tx.work.sessions[i].session_uuid.bits == uuid.bits {
            proof {
                assert(tx.work.sessions@[i as int].session_uuid == *uuid);
            }
            return true;
        }
        i += 1;
    }
    false
}

/// Find a session given its random identifier.
pub fn session_find_by_uuid(tx: &Transaction, uuid: &Uuid) -> (r: Result<
    SessionRecord,
    FacadeError,
>)
    ensures
        match r {
            Ok(rec) => tx.work.sessions@.contains(rec) && rec.session_uuid == *uuid,
            Err(e) => e == FacadeError::NotFound && !tx.work.session_with_uuid(*uuid),
        },
{
    let n = tx.work.sessions.len();
    let mut i: usize = 0;
    while i < n
        invariant
            n == tx.work.sessions@.len(),
            0 <= i <= n,
            forall|j: int| 0 <= j < i ==> (#[trigger] tx.work.sessions@[j]).session_uuid != *uuid,
        decreases n - i,
    {
        if tx.work.sessions[i].session_uuid.bits == uuid.bits {
            let rec = tx.work.sessions[i].clone();
            proof {
                assert(tx.work.sessions@[i as int] == rec);
            }
            return Ok(rec);
        }
        i += 1;
    }
    Err(FacadeError::NotFound)
}

/// The locked version of a session row: the one-way transition target.
pub open spec fn locked_version(s: SessionRecord, completion_millis: i64) -> SessionRecord {
    SessionRecord {
        session_id: s.session_id,
        session_uuid: s.session_uuid,
        sequence_id: s.sequence_id,
        locked: true,
        creation_unix_tstamp: s.creation_unix_tstamp,
        completion_unix_tstamp: Some(completion_millis),
    }
}

/// The atomic conditional update behind finalize: lock the session named by
/// `uuid` only if it is currently unlocked. Concurrent attempts against one
/// session resolve to exactly one success; the rest see `AlreadyLocked` and
/// change nothing — the completion timestamp is written exactly once.
pub fn session_finalize(tx: &mut Transaction, uuid: &Uuid, completion_millis: i64) -> (r: Result<
    (),
    FacadeError,
>)
    requires
        old(tx).work.wf(),
    ensures
        final(tx).work.wf(),
        match r {
            Ok(()) => {
                &&& exists|i: int|
                    {
                        &&& 0 <= i < old(tx).work.sessions@.len()
                        &&& (#[trigger] old(tx).work.sessions@[i]).session_uuid == *uuid
                        &&& !old(tx).work.sessions@[i].locked
                        &&& final(tx).work.sessions@ == old(tx).work.sessions@.update(
                            i,
                            locked_version(old(tx).work.sessions@[i], completion_millis),
                        )
                    }
                &&& final(tx).work.next_id == old(tx).work.next_id
                &&& final(tx).work.sequences@ == old(tx).work.sequences@
                &&& final(tx).work.topics@ == old(tx).work.topics@
                &&& final(tx).work.notifications@ == old(tx).work.notifications@
            },
            Err(e) => {
                &&& *final(tx) == *old(tx)
                &&& match e {
                    FacadeError::NotFound => !old(tx).work.session_with_uuid(*uuid),
                    FacadeError::AlreadyLocked => exists|i: int|
                        0 <= i < old(tx).work.sessions@.len() && (
                        #[trigger] old(tx).work.sessions@[i]).session_uuid == *uuid
                            && old(tx).work.sessions@[i].locked,
                    _ => false,
                }
            },
        },
{
    let n = tx.work.sessions.len();
    let mut i: usize = 0;
    while i < n
        invariant
            *tx == *old(tx),
            old(tx).work.wf(),
            n == tx.work.sessions@.len(),
            0 <= i <= n,
            forall|j: int| 0 <= j < i ==> (#[trigger] tx.work.sessions@[j]).session_uuid != *uuid,
        decreases n - i,
    {
        if tx.work.sessions[i].session_uuid.bits == uuid.bits {
            proof {
                assert(tx.work.sessions@[i as int].session_uuid == *uuid);
            }
            if tx.work.sessions[i].is_locked() {
                return Err(FacadeError::AlreadyLocked);
            }
            let prev = tx.work.sessions.remove(i);
            let next = SessionRecord {
                session_id: prev.session_id,
                session_uuid: prev.session_uuid,
                sequence_id: prev.sequence_id,
                locked: true,
                creation_unix_tstamp: prev.creation_unix_tstamp,
                completion_unix_tstamp: Some(completion_millis),
            };
            tx.work.sessions.insert(i, next);
            proof {
                assert(tx.work.sessions@ =~= old(tx).work.sessions@.update(
                    i as int,
                    locked_version(old(tx).work.sessions@[i as int], completion_millis),
                ));
                lemma_wf_after_session_update(
                    old(tx).work,
                    tx.work,
                    i as int,
                    completion_millis,
                );
            }
            return Ok(());
        }
        i += 1;
    }
    Err(FacadeError::NotFound)
}

/// The index of the sequence row carrying `name`; meaningful under
/// [`CatalogState::seq_named`], unique under [`CatalogState::wf`].
pub open spec fn named_seq_index(s: CatalogState, name: Seq<char>) -> int {
    choose|i: int|
        0 <= i < s.sequences@.len() && (#[trigger] s.sequences@[i]).locator_name@ == name
}

/// The integer id of the sequence row carrying `name`.
pub open spec fn named_seq_id(s: CatalogState, name: Seq<char>) -> i32 {
    s.sequences@[named_seq_index(s, name)].sequence_id
}

/// The random identifier of the sequence row carrying `name`.
pub open spec fn named_seq_uuid(s: CatalogState, name: Seq<char>) -> Uuid {
    s.sequences@[named_seq_index(s, name)].sequence_uuid
}

/// Under the invariant, any row index carrying `name` determines what
/// [`named_seq_id`] and [`named_seq_uuid`] speak of: names are unique.
pub proof fn lemma_named_row_determined(s: CatalogState, name: Seq<char>, k: int)
    requires
        s.wf(),
        0 <= k < s.sequences@.len(),
        s.sequences@[k].locator_name@ == name,
    ensures
        s.seq_named(name),
        named_seq_id(s, name) == s.sequences@[k].sequence_id,
        named_seq_uuid(s, name) == s.sequences@[k].sequence_uuid,
{
    assert((#[trigger] s.sequences@[k]).locator_name@ == name);
    let i = named_seq_index(s, name);
    assert(s.sequences@[i].locator_name@ == name);
    if i != k {
        assert(s.sequences@[i].locator_name@ != s.sequences@[k].locator_name@);
    }
}

/// No row of the filtered sequence table carries the removed name: after a
/// delete, a lookup by that name fails.
pub proof fn lemma_deleted_name_gone(rows: Seq<SequenceRecord>, name: Seq<char>)
    ensures
        forall|i: int|
            0 <= i < sequences_not_named(rows, name).len() ==> (#[trigger] sequences_not_named(
                rows,
                name,
            )[i]).locator_name@ != name,
{
    let pred = pred_seq_not_named(name);
    lemma_filter_structure(rows, pred);
    assert forall|i: int|
        0 <= i < rows.filter(pred).len() implies (#[trigger] rows.filter(pred)[i]).locator_name@
        != name by {
        assert(pred(rows.filter(pred)[i]));
    }
}

/// The index of the topic row carrying `name` within sequence `sid`;
/// meaningful under [`CatalogState::topic_in`], unique under
/// [`CatalogState::wf`].
pub open spec fn topic_index_in(s: CatalogState, sid: i32, name: Seq<char>) -> int {
    choose|i: int|
        0 <= i < s.topics@.len() && (#[trigger] s.topics@[i]).sequence_id == sid
            && s.topics@[i].locator_name@ == name
}

/// The integer id of the topic row carrying `name` within sequence `sid`.
pub open spec fn topic_id_in(s: CatalogState, sid: i32, name: Seq<char>) -> i32 {
    s.topics@[topic_index_in(s, sid, name)].topic_id
}

/// Under the invariant, a found topic row named `name` under sequence
/// `sid` is the row that [`topic_id_in`] speaks of: names are unique
/// within their owning sequence.
pub proof fn lemma_topic_id_agrees(s: CatalogState, sid: i32, name: Seq<char>, rec: TopicRecord)
    requires
        s.wf(),
        s.topics@.contains(rec),
        rec.sequence_id == sid,
        rec.locator_name@ == name,
    ensures
        s.topic_in(sid, name),
        topic_id_in(s, sid, name) == rec.topic_id,
{
    let j = choose|j: int| 0 <= j < s.topics@.len() && s.topics@[j] == rec;
    assert((#[trigger] s.topics@[j]).sequence_id == sid && s.topics@[j].locator_name@ == name);
    let i = topic_index_in(s, sid, name);
    assert(s.topics@[i].sequence_id == sid && s.topics@[i].locator_name@ == name);
    if i != j {
        assert(!(s.topics@[i].sequence_id == s.topics@[j].sequence_id
            && s.topics@[i].locator_name@ == s.topics@[j].locator_name@));
    }
}

/// The sequence table without the row named `name`.
pub open spec fn sequences_not_named(rows: Seq<SequenceRecord>, name: Seq<char>) -> Seq<
    SequenceRecord,
> {
    rows.filter(pred_seq_not_named(name))
}

/// The topics that belong to the sequence with id `sid`, in storage order.
pub open spec fn topics_of(rows: Seq<TopicRecord>, sid: i32) -> Seq<TopicRecord> {
    rows.filter(pred_topic_of(sid))
}

/// The topics that do not belong to the sequence with id `sid`.
pub open spec fn topics_of_other(rows: Seq<TopicRecord>, sid: i32) -> Seq<TopicRecord> {
    rows.filter(pred_topic_other(sid))
}

/// The topic table without the row with id `tid`.
pub open spec fn topics_without_id(rows: Seq<TopicRecord>, tid: i32) -> Seq<TopicRecord> {
    rows.filter(pred_topic_not_id(tid))
}

/// The sessions of the sequence with id `sid`, in storage order.
pub open spec fn sessions_of(rows: Seq<SessionRecord>, sid: i32) -> Seq<SessionRecord> {
    rows.filter(pred_session_of(sid))
}

/// The sessions that do not belong to the sequence with id `sid`.
pub open spec fn sessions_of_other(rows: Seq<SessionRecord>, sid: i32) -> Seq<SessionRecord> {
    rows.filter(pred_session_other(sid))
}

/// The notifications not owned by the resource with id `id`.
pub open spec fn notifications_not_of(rows: Seq<NotificationRecord>, id: i32) -> Seq<
    NotificationRecord,
> {
    rows.filter(pred_notif_not_of(id))
}

/// The notifications that survive the cascading removal of the sequence
/// with id `sid`: those owned neither by it nor by one of its topics.
pub open spec fn notifications_surviving(
    rows: Seq<NotificationRecord>,
    topics: Seq<TopicRecord>,
    sid: i32,
) -> Seq<NotificationRecord> {
    rows.filter(pred_notif_surviving(topics, sid))
}

/// Under the invariant, a found row named `name` is the row that
/// [`named_seq_id`] speaks of: names are unique.
pub proof fn lemma_named_seq_id_agrees(s: CatalogState, name: Seq<char>, rec: SequenceRecord)
    requires
        s.wf(),
        s.sequences@.contains(rec),
        rec.locator_name@ == name,
    ensures
        s.seq_named(name),
        named_seq_id(s, name) == rec.sequence_id,
{
    let j = choose|j: int| 0 <= j < s.sequences@.len() && s.sequences@[j] == rec;
    assert((#[trigger] s.sequences@[j]).locator_name@ == name);
    let i = named_seq_index(s, name);
    assert(s.sequences@[i].locator_name@ == name);
    if i != j {
        assert(s.sequences@[i].locator_name@ != s.sequences@[j].locator_name@);
    }
}

/// Appending a fresh topic row keeps the store invariant.
proof fn lemma_wf_after_topic_push(pre: CatalogState, post: CatalogState, out: TopicRecord)
    requires
        pre.wf(),
        pre.next_id < i32::MAX,
        post.topics@ == pre.topics@.push(out),
        post.sequences@ == pre.sequences@,
        post.sessions@ == pre.sessions@,
        post.notifications@ == pre.notifications@,
        post.next_id == pre.next_id + 1,
        out.topic_id == pre.next_id,
        out.topic_uuid.valid(),
        pre.seq_with_id(out.sequence_id),
        !pre.topic_with_uuid(out.topic_uuid),
        !pre.topic_in(out.sequence_id, out.locator_name@),
    ensures
        post.wf(),
{
    let a = pre.topics@;
    let b = post.topics@;
    assert forall|i: int| 0 <= i < b.len() implies 1 <= (#[trigger] b[i]).topic_id < post.next_id
        && b[i].topic_uuid.valid() by {
        if i < a.len() {
            assert(b[i] == a[i]);
        } else {
            assert(b[i] == out);
        }
    }
    assert forall|i: int, j: int|
        #![trigger b[i], b[j]]
        0 <= i < j < b.len() implies b[i].topic_id != b[j].topic_id && b[i].topic_uuid
        != b[j].topic_uuid && !(b[i].sequence_id == b[j].sequence_id && b[i].locator_name@
        == b[j].locator_name@) by {
        assert(b[i] == a[i]);
        if j < a.len() {
            assert(b[j] == a[j]);
        } else {
            assert(b[j] == out);
            if a[i].topic_uuid == out.topic_uuid {
                assert(pre.topic_with_uuid(out.topic_uuid));
            }
            if a[i].sequence_id == out.sequence_id && a[i].locator_name@ == out.locator_name@ {
                assert(pre.topic_in(out.sequence_id, out.locator_name@));
            }
        }
    }
    assert forall|i: int, j: int|
        #![trigger post.sequences@[i], b[j]]
        0 <= i < post.sequences@.len() && 0 <= j < b.len() implies post.sequences@[i].sequence_id
        != b[j].topic_id by {
        if j < a.len() {
            assert(b[j] == a[j]);
        } else {
            assert(b[j] == out);
        }
    }
    assert forall|i: int| 0 <= i < b.len() implies post.seq_with_id(
        (#[trigger] b[i]).sequence_id,
    ) by {
        if i < a.len() {
            assert(b[i] == a[i]);
        } else {
            assert(b[i] == out);
        }
    }
    assert forall|i: int| 0 <= i < post.notifications@.len() implies post.owner_exists(
        (#[trigger] post.notifications@[i]).owning_resource_id,
    ) by {
        let oid = post.notifications@[i].owning_resource_id;
        assert(pre.owner_exists(oid));
        if pre.topic_with_id(oid) {
            let k = choose|k: int| 0 <= k < a.len() && (#[trigger] a[k]).topic_id == oid;
            assert(b[k] == a[k]);
        }
    }
}

/// Appending a notification row keeps the store invariant.
proof fn lemma_wf_after_notification_push(
    pre: CatalogState,
    post: CatalogState,
    out: NotificationRecord,
)
    requires
        pre.wf(),
        pre.next_id < i32::MAX,
        post.notifications@ == pre.notifications@.push(out),
        post.sequences@ == pre.sequences@,
        post.topics@ == pre.topics@,
        post.sessions@ == pre.sessions@,
        post.next_id == pre.next_id + 1,
        out.notification_id == pre.next_id,
        pre.owner_exists(out.owning_resource_id),
    ensures
        post.wf(),
{
    let a = pre.notifications@;
    let b = post.notifications@;
    assert forall|i: int| 0 <= i < b.len() implies 1 <= (#[trigger] b[i]).notification_id
        < post.next_id by {
        if i < a.len() {
            assert(b[i] == a[i]);
        } else {
            assert(b[i] == out);
        }
    }
    assert forall|i: int, j: int|
        #![trigger b[i], b[j]]
        0 <= i < j < b.len() implies b[i].notification_id != b[j].notification_id by {
        assert(b[i] == a[i]);
        if j < a.len() {
            assert(b[j] == a[j]);
        } else {
            assert(b[j] == out);
        }
    }
    assert forall|i: int| 0 <= i < b.len() implies post.owner_exists(
        (#[trigger] b[i]).owning_resource_id,
    ) by {
        if i < a.len() {
            assert(b[i] == a[i]);
            assert(pre.owner_exists(a[i].owning_resource_id));
        } else {
            assert(b[i] == out);
        }
    }
}

/// Removing all notifications of one owner keeps the store invariant.
proof fn lemma_wf_after_purge(pre: CatalogState, post: CatalogState, id: i32)
    requires
        pre.wf(),
        post.notifications@ == notifications_not_of(pre.notifications@, id),
        post.sequences@ == pre.sequences@,
        post.topics@ == pre.topics@,
        post.sessions@ == pre.sessions@,
        post.next_id == pre.next_id,
    ensures
        post.wf(),
{
    let pnot = pred_notif_not_of(id);
    lemma_filter_structure(pre.notifications@, pnot);
    let a = pre.notifications@;
    let b = post.notifications@;
    assert forall|i: int| 0 <= i < b.len() implies 1 <= (#[trigger] b[i]).notification_id
        < post.next_id && post.owner_exists(b[i].owning_resource_id) by {
        assert(a.contains(b[i]));
        let k = choose|k: int| 0 <= k < a.len() && a[k] == b[i];
        assert(1 <= (#[trigger] a[k]).notification_id < pre.next_id);
        assert(pre.owner_exists(a[k].owning_resource_id));
    }
    assert forall|i: int, j: int|
        #![trigger b[i], b[j]]
        0 <= i < j < b.len() implies b[i].notification_id != b[j].notification_id by {
        let (k, l): (int, int) = choose|k: int, l: int|
            0 <= k < l < a.len() && a[k] == b[i] && a[l] == b[j];
        assert(a[k].notification_id != a[l].notification_id);
    }
}

/// Removing one topic and its notifications keeps the store invariant.
proof fn lemma_wf_after_topic_delete(pre: CatalogState, post: CatalogState, tid: i32)
    requires
        pre.wf(),
        post.topics@ == topics_without_id(pre.topics@, tid),
        post.notifications@ == notifications_not_of(pre.notifications@, tid),
        post.sequences@ == pre.sequences@,
        post.sessions@ == pre.sessions@,
        post.next_id == pre.next_id,
    ensures
        post.wf(),
{
    let ptop = pred_topic_not_id(tid);
    let pnot = pred_notif_not_of(tid);
    lemma_filter_structure(pre.topics@, ptop);
    lemma_filter_structure(pre.notifications@, pnot);
    let a = pre.topics@;
    let b = post.topics@;
    assert forall|i: int| 0 <= i < b.len() implies 1 <= (#[trigger] b[i]).topic_id < post.next_id
        && b[i].topic_uuid.valid() && post.seq_with_id(b[i].sequence_id) by {
        assert(a.contains(b[i]));
        let k = choose|k: int| 0 <= k < a.len() && a[k] == b[i];
        assert(1 <= (#[trigger] a[k]).topic_id < pre.next_id);
        assert(pre.seq_with_id(a[k].sequence_id));
    }
    assert forall|i: int, j: int|
        #![trigger b[i], b[j]]
        0 <= i < j < b.len() implies b[i].topic_id != b[j].topic_id && b[i].topic_uuid
        != b[j].topic_uuid && !(b[i].sequence_id == b[j].sequence_id && b[i].locator_name@
        == b[j].locator_name@) by {
        let (k, l): (int, int) = choose|k: int, l: int|
            0 <= k < l < a.len() && a[k] == b[i] && a[l] == b[j];
        assert(a[k].topic_id != a[l].topic_id);
    }
    assert forall|i: int, j: int|
        #![trigger post.sequences@[i], b[j]]
        0 <= i < post.sequences@.len() && 0 <= j < b.len()
        implies post.sequences@[i].sequence_id != b[j].topic_id by {
        assert(a.contains(b[j]));
        let k = choose|k: int| 0 <= k < a.len() && a[k] == b[j];
        assert(pre.sequences@[i].sequence_id != (#[trigger] a[k]).topic_id);
    }
    let c = pre.notifications@;
    let d = post.notifications@;
    assert forall|i: int| 0 <= i < d.len() implies 1 <= (#[trigger] d[i]).notification_id
        < post.next_id && post.owner_exists(d[i].owning_resource_id) by {
        assert(c.contains(d[i]));
        let k = choose|k: int| 0 <= k < c.len() && c[k] == d[i];
        assert(1 <= (#[trigger] c[k]).notification_id < pre.next_id);
        let oid = d[i].owning_resource_id;
        assert(pre.owner_exists(oid));
        assert(pnot(d[i]));
        if pre.topic_with_id(oid) {
            let m = choose|m: int| 0 <= m < a.len() && (#[trigger] a[m]).topic_id == oid;
            assert(ptop(a[m]));
            a.lemma_filter_contains(ptop, m);
            assert(b.contains(a[m]));
            let w = choose|w: int| 0 <= w < b.len() && b[w] == a[m];
            assert((#[trigger] b[w]).topic_id == oid);
        }
    }
    assert forall|i: int, j: int|
        #![trigger d[i], d[j]]
        0 <= i < j < d.len() implies d[i].notification_id != d[j].notification_id by {
        let (k, l): (int, int) = choose|k: int, l: int|
            0 <= k < l < c.len() && c[k] == d[i] && c[l] == d[j];
        assert(c[k].notification_id != c[l].notification_id);
    }
}

/// The cascading removal of the sequence named `name` (id `sid`), of its
/// topics and sessions, and of the notifications owned by any of them,
/// keeps the store invariant.
proof fn lemma_wf_after_cascade_delete(
    pre: CatalogState,
    post: CatalogState,
    name: Seq<char>,
    sid: i32,
)
    requires
        pre.wf(),
        exists|i: int|
            0 <= i < pre.sequences@.len() && (#[trigger] pre.sequences@[i]).locator_name@ == name
                && pre.sequences@[i].sequence_id == sid,
        post.sequences@ == sequences_not_named(pre.sequences@, name),
        post.topics@ == topics_of_other(pre.topics@, sid),
        post.sessions@ == sessions_of_other(pre.sessions@, sid),
        post.notifications@ == notifications_surviving(pre.notifications@, pre.topics@, sid),
        post.next_id == pre.next_id,
    ensures
        post.wf(),
{
    let pseq = pred_seq_not_named(name);
    let ptop = pred_topic_other(sid);
    let pses = pred_session_other(sid);
    let pnot = pred_notif_surviving(pre.topics@, sid);
    lemma_filter_structure(pre.sequences@, pseq);
    lemma_filter_structure(pre.topics@, ptop);
    lemma_filter_structure(pre.sessions@, pses);
    lemma_filter_structure(pre.notifications@, pnot);
    let r0 = choose|i: int|
        0 <= i < pre.sequences@.len() && (#[trigger] pre.sequences@[i]).locator_name@ == name
            && pre.sequences@[i].sequence_id == sid;
    let qa = pre.sequences@;
    let qb = post.sequences@;
    let ta = pre.topics@;
    let tb = post.topics@;
    let xa = pre.sessions@;
    let xb = post.sessions@;
    let ca = pre.notifications@;
    let cb = post.notifications@;
    // A surviving sequence row keeps its facts; one whose name differs from
    // the deleted one also carries a different id.
    assert forall|i: int| 0 <= i < qb.len() implies 1 <= (#[trigger] qb[i]).sequence_id
        < post.next_id && qb[i].sequence_uuid.valid() && qb[i].sequence_id != sid by {
        assert(qa.contains(qb[i]));
        let k = choose|k: int| 0 <= k < qa.len() && qa[k] == qb[i];
        assert(1 <= (#[trigger] qa[k]).sequence_id < pre.next_id);
        assert(pseq(qb[i]));
        if k != r0 {
            assert(qa[k].sequence_id != qa[r0].sequence_id);
        }
    }
    assert forall|i: int, j: int|
        #![trigger qb[i], qb[j]]
        0 <= i < j < qb.len() implies qb[i].sequence_id != qb[j].sequence_id && qb[i].sequence_uuid
        != qb[j].sequence_uuid && qb[i].locator_name@ != qb[j].locator_name@ by {
        let (k, l): (int, int) = choose|k: int, l: int|
            0 <= k < l < qa.len() && qa[k] == qb[i] && qa[l] == qb[j];
        assert(qa[k].sequence_id != qa[l].sequence_id);
    }
    assert forall|i: int| 0 <= i < tb.len() implies 1 <= (#[trigger] tb[i]).topic_id
        < post.next_id && tb[i].topic_uuid.valid() by {
        assert(ta.contains(tb[i]));
        let k = choose|k: int| 0 <= k < ta.len() && ta[k] == tb[i];
        assert(1 <= (#[trigger] ta[k]).topic_id < pre.next_id);
    }
    assert forall|i: int, j: int|
        #![trigger tb[i], tb[j]]
        0 <= i < j < tb.len() implies tb[i].topic_id != tb[j].topic_id && tb[i].topic_uuid
        != tb[j].topic_uuid && !(tb[i].sequence_id == tb[j].sequence_id && tb[i].locator_name@
        == tb[j].locator_name@) by {
        let (k, l): (int, int) = choose|k: int, l: int|
            0 <= k < l < ta.len() && ta[k] == tb[i] && ta[l] == tb[j];
        assert(ta[k].topic_id != ta[l].topic_id);
    }
    assert forall|i: int, j: int|
        #![trigger qb[i], tb[j]]
        0 <= i < qb.len() && 0 <= j < tb.len() implies qb[i].sequence_id != tb[j].topic_id by {
        assert(qa.contains(qb[i]));
        assert(ta.contains(tb[j]));
        let k = choose|k: int| 0 <= k < qa.len() && qa[k] == qb[i];
        let l = choose|l: int| 0 <= l < ta.len() && ta[l] == tb[j];
        assert((#[trigger] qa[k]).sequence_id != (#[trigger] ta[l]).topic_id);
    }
    assert forall|i: int| 0 <= i < xb.len() implies 1 <= (#[trigger] xb[i]).session_id
        < post.next_id && xb[i].session_uuid.valid() && xb[i].wf() by {
        assert(xa.contains(xb[i]));
        let k = choose|k: int| 0 <= k < xa.len() && xa[k] == xb[i];
        assert(1 <= (#[trigger] xa[k]).session_id < pre.next_id);
    }
    assert forall|i: int, j: int|
        #![trigger xb[i], xb[j]]
        0 <= i < j < xb.len() implies xb[i].session_id != xb[j].session_id && xb[i].session_uuid
        != xb[j].session_uuid by {
        let (k, l): (int, int) = choose|k: int, l: int|
            0 <= k < l < xa.len() && xa[k] == xb[i] && xa[l] == xb[j];
        assert(xa[k].session_id != xa[l].session_id);
    }
    assert forall|i: int| 0 <= i < cb.len() implies 1 <= (#[trigger] cb[i]).notification_id
        < post.next_id by {
        assert(ca.contains(cb[i]));
        let k = choose|k: int| 0 <= k < ca.len() && ca[k] == cb[i];
        assert(1 <= (#[trigger] ca[k]).notification_id < pre.next_id);
    }
    assert forall|i: int, j: int|
        #![trigger cb[i], cb[j]]
        0 <= i < j < cb.len() implies cb[i].notification_id != cb[j].notification_id by {
        let (k, l): (int, int) = choose|k: int, l: int|
            0 <= k < l < ca.len() && ca[k] == cb[i] && ca[l] == cb[j];
        assert(ca[k].notification_id != ca[l].notification_id);
    }
    // A sequence row other than the deleted one survives the name filter.
    assert forall|id: i32| pre.seq_with_id(id) && id != sid implies post.seq_with_id(id) by {
        let m = choose|m: int| 0 <= m < qa.len() && (#[trigger] qa[m]).sequence_id == id;
        if qa[m].locator_name@ == name {
            if m != r0 {
                assert(qa[m].locator_name@ != qa[r0].locator_name@);
            }
        }
        assert(pseq(qa[m]));
        qa.lemma_filter_contains(pseq, m);
        assert(qb.contains(qa[m]));
        let w = choose|w: int| 0 <= w < qb.len() && qb[w] == qa[m];
        assert((#[trigger] qb[w]).sequence_id == id);
    }
    assert forall|i: int| 0 <= i < tb.len() implies post.seq_with_id(
        (#[trigger] tb[i]).sequence_id,
    ) by {
        assert(ta.contains(tb[i]));
        let k = choose|k: int| 0 <= k < ta.len() && ta[k] == tb[i];
        assert(pre.seq_with_id((#[trigger] ta[k]).sequence_id));
        assert(ptop(tb[i]));
    }
    assert forall|i: int| 0 <= i < xb.len() implies post.seq_with_id(
        (#[trigger] xb[i]).sequence_id,
    ) by {
        assert(xa.contains(xb[i]));
        let k = choose|k: int| 0 <= k < xa.len() && xa[k] == xb[i];
        assert(pre.seq_with_id((#[trigger] xa[k]).sequence_id));
        assert(pses(xb[i]));
    }
    assert forall|i: int| 0 <= i < cb.len() implies post.owner_exists(
        (#[trigger] cb[i]).owning_resource_id,
    ) by {
        assert(ca.contains(cb[i]));
        let k = choose|k: int| 0 <= k < ca.len() && ca[k] == cb[i];
        let oid = cb[i].owning_resource_id;
        assert(pre.owner_exists((#[trigger] ca[k]).owning_resource_id));
        assert(pnot(cb[i]));
        if pre.seq_with_id(oid) {
            assert(oid != sid);
        } else {
            let m = choose|m: int| 0 <= m < ta.len() && (#[trigger] ta[m]).topic_id == oid;
            assert(!owned_topic_id(pre.topics@, oid, sid));
            assert(ta[m].sequence_id != sid);
            assert(ptop(ta[m]));
            ta.lemma_filter_contains(ptop, m);
            assert(tb.contains(ta[m]));
            let w = choose|w: int| 0 <= w < tb.len() && tb[w] == ta[m];
            assert((#[trigger] tb[w]).topic_id == oid);
        }
    }
}

/// Whether some sequence row carries the id; linear scan.
fn seq_id_present(tx: &Transaction, id: i32) -> (r: bool)
    ensures
        r == tx.work.seq_with_id(id),
{
    let n = tx.work.sequences.len();
    let mut i: usize = 0;
    while i < n
        invariant
            n == tx.work.sequences@.len(),
            0 <= i <= n,
            forall|j: int| 0 <= j < i ==> (#[trigger] tx.work.sequences@[j]).sequence_id != id,
        decreases n - i,
    {
        if tx.work.sequences[i].sequence_id == id {
            proof {
                assert(tx.work.sequences@[i as int].sequence_id == id);
            }
            return true;
        }
        i += 1;
    }
    false
}

/// Whether some topic row carries the id; linear scan.
fn topic_id_present(tx: &Transaction, id: i32) -> (r: bool)
    ensures
        r == tx.work.topic_with_id(id),
{
    let n = tx.work.topics.len();
    let mut i: usize = 0;
    while i < n
        invariant
            n == tx.work.topics@.len(),
            0 <= i <= n,
            forall|j: int| 0 <= j < i ==> (#[trigger] tx.work.topics@[j]).topic_id != id,
        decreases n - i,
    {
        if tx.work.topics[i].topic_id == id {
            proof {
                assert(tx.work.topics@[i as int].topic_id == id);
            }
            return true;
        }
        i += 1;
    }
    false
}

/// Whether some topic row carries this random identifier.
fn topic_uuid_taken(tx: &Transaction, uuid: &Uuid) -> (r: bool)
    ensures
        r == tx.work.topic_with_uuid(*uuid),
{
    let n = tx.work.topics.len();
    let mut i: usize = 0;
    while i < n
        invariant
            n == tx.work.topics@.len(),
            0 <= i <= n,
            forall|j: int| 0 <= j < i ==> (#[trigger] tx.work.topics@[j]).topic_uuid != *uuid,
        decreases n - i,
    {
        if tx.work.topics[i].topic_uuid.bits == uuid.bits {
            proof {
                assert(tx.work.topics@[i as int].topic_uuid == *uuid);
            }
            return true;
        }
        i += 1;
    }
    false
}

/// Whether the listed topics hold a row with id `tid` owned by sequence
/// `sid`.
fn topic_owned(topics: &Vec<TopicRecord>, tid: i32, sid: i32) -> (r: bool)
    ensures
        r == owned_topic_id(topics@, tid, sid),
{
    let n = topics.len();
    let mut i: usize = 0;
    while i < n
        invariant
            n == topics@.len(),
            0 <= i <= n,
            forall|j: int| 0 <= j < i ==> !((#[trigger] topics@[j]).topic_id == tid
                && topics@[j].sequence_id == sid),
        decreases n - i,
    {
        if topics[i].topic_id == tid && topics[i].sequence_id == sid {
            proof {
                assert(topics@[i as int].topic_id == tid && topics@[i as int].sequence_id == sid);
            }
            return true;
        }
        i += 1;
    }
    false
}

/// Find a topic by its own name within the sequence with id `sid`.
pub fn topic_find(tx: &Transaction, sequence_id: i32, name: &String) -> (r: Result<
    TopicRecord,
    FacadeError,
>)
    ensures
        match r {
            Ok(rec) => tx.work.topics@.contains(rec) && rec.sequence_id == sequence_id
                && rec.locator_name@ == name@,
            Err(e) => e == FacadeError::NotFound && !tx.work.topic_in(sequence_id, name@),
        },
{
    let n = tx.work.topics.len();
    let mut i: usize = 0;
    while i < n
        invariant
            n == tx.work.topics@.len(),
            0 <= i <= n,
            forall|j: int| 0 <= j < i ==> !((#[trigger] tx.work.topics@[j]).sequence_id
                == sequence_id && tx.work.topics@[j].locator_name@ == name@),
        decreases n - i,
    {
        if tx.work.topics[i].sequence_id == sequence_id && tx.work.topics[i].locator_name
            == *name {
            let rec = tx.work.topics[i].clone();
            proof {
                assert(tx.work.topics@[i as int] == rec);
            }
            return Ok(rec);
        }
        i += 1;
    }
    Err(FacadeError::NotFound)
}

/// Creates a new topic record under an existing sequence, assigning its id.
/// The store refuses a name already taken within that sequence.
pub fn topic_create(tx: &mut Transaction, record: &TopicRecord) -> (r: Result<
    TopicRecord,
    FacadeError,
>)
    requires
        old(tx).work.wf(),
    ensures
        final(tx).work.wf(),
        match r {
            Ok(out) => {
                &&& old(tx).work.seq_with_id(record.sequence_id)
                &&& !old(tx).work.topic_in(record.sequence_id, record.locator_name@)
                &&& record.topic_uuid.valid()
                &&& !old(tx).work.topic_with_uuid(record.topic_uuid)
                &&& old(tx).work.next_id < i32::MAX
                &&& out.topic_id == old(tx).work.next_id
                &&& out.topic_uuid == record.topic_uuid
                &&& out.sequence_id == record.sequence_id
                &&& out.locator_name@ == record.locator_name@
                &&& out.serialization_format == record.serialization_format
                &&& out.ontology_tag == record.ontology_tag
                &&& out.creation_unix_tstamp == record.creation_unix_tstamp
                &&& out.user_metadata == record.user_metadata
                &&& final(tx).work.topics@ == old(tx).work.topics@.push(out)
                &&& final(tx).work.next_id == old(tx).work.next_id + 1
                &&& final(tx).work.sequences@ == old(tx).work.sequences@
                &&& final(tx).work.sessions@ == old(tx).work.sessions@
                &&& final(tx).work.notifications@ == old(tx).work.notifications@
            },
            Err(e) => {
                &&& *final(tx) == *old(tx)
                &&& match e {
                    FacadeError::NotFound => !old(tx).work.seq_with_id(record.sequence_id),
                    FacadeError::AlreadyExists => old(tx).work.seq_with_id(record.sequence_id)
                        && old(tx).work.topic_in(record.sequence_id, record.locator_name@),
                    FacadeError::Validation => old(tx).work.seq_with_id(record.sequence_id)
                        && !old(tx).work.topic_in(record.sequence_id, record.locator_name@)
                        && !record.topic_uuid.valid(),
                    FacadeError::RepositoryError => old(tx).work.seq_with_id(record.sequence_id)
                        && !old(tx).work.topic_in(record.sequence_id, record.locator_name@)
                        && record.topic_uuid.valid() && (old(tx).work.topic_with_uuid(
                        record.topic_uuid,
                    ) || old(tx).work.next_id == i32::MAX),
                    _ => false,
                }
            },
        },
{
    if !seq_id_present(&*tx, record.sequence_id) {
        return Err(FacadeError::NotFound);
    }
    if let Ok(_) = topic_find(&*tx, record.sequence_id, &record.locator_name) {
        return Err(FacadeError::AlreadyExists);
    }
    if !record.topic_uuid.is_valid() {
        return Err(FacadeError::Validation);
    }
    if topic_uuid_taken(&*tx, &record.topic_uuid) {
        return Err(FacadeError::RepositoryError);
    }
    if tx.work.next_id == i32::MAX {
        return Err(FacadeError::RepositoryError);
    }
    let mut out = record.clone();
    out.topic_id = tx.work.next_id;
    tx.work.next_id = tx.work.next_id + 1;
    let stored = out.clone();
    tx.work.topics.push(stored);
    proof {
        lemma_wf_after_topic_push(old(tx).work, tx.work, out);
    }
    Ok(out)
}

/// The sequence rows not carrying `name`, as a fresh table.
fn filter_sequences_not_named(v: &Vec<SequenceRecord>, name: &String) -> (r: Vec<SequenceRecord>)
    ensures
        r@ == sequences_not_named(v@, name@),
{
    let mut r: Vec<SequenceRecord> = Vec::new();
    let n = v.len();
    let mut i: usize = 0;
    proof {
        reveal(Seq::filter);
        assert(v@.take(0) =~= Seq::<SequenceRecord>::empty());
    }
    while i < n
        invariant
            n == v@.len(),
            0 <= i <= n,
            r@ == v@.take(i as int).filter(pred_seq_not_named(name@)),
        decreases n - i,
    {
        proof {
            lemma_filter_take_step(v@, pred_seq_not_named(name@), i as int);
        }
        if !(v[i].locator_name == *name) {
            r.push(v[i].clone());
        }
        i += 1;
    }
    proof {
        assert(v@.take(n as int) =~= v@);
    }
    r
}

/// The topic rows of other sequences than `sid`, as a fresh table.
fn filter_topics_other(v: &Vec<TopicRecord>, sid: i32) -> (r: Vec<TopicRecord>)
    ensures
        r@ == topics_of_other(v@, sid),
{
    let mut r: Vec<TopicRecord> = Vec::new();
    let n = v.len();
    let mut i: usize = 0;
    proof {
        reveal(Seq::filter);
        assert(v@.take(0) =~= Seq::<TopicRecord>::empty());
    }
    while i < n
        invariant
            n == v@.len(),
            0 <= i <= n,
            r@ == v@.take(i as int).filter(pred_topic_other(sid)),
        decreases n - i,
    {
        proof {
            lemma_filter_take_step(v@, pred_topic_other(sid), i as int);
        }
        if v[i].sequence_id != sid {
            r.push(v[i].clone());
        }
        i += 1;
    }
    proof {
        assert(v@.take(n as int) =~= v@);
    }
    r
}

/// The topic rows whose id is not `tid`, as a fresh table.
fn filter_topics_not_id(v: &Vec<TopicRecord>, tid: i32) -> (r: Vec<TopicRecord>)
    ensures
        r@ == topics_without_id(v@, tid),
{
    let mut r: Vec<TopicRecord> = Vec::new();
    let n = v.len();
    let mut i: usize = 0;
    proof {
        reveal(Seq::filter);
        assert(v@.take(0) =~= Seq::<TopicRecord>::empty());
    }
    while i < n
        invariant
            n == v@.len(),
            0 <= i <= n,
            r@ == v@.take(i as int).filter(pred_topic_not_id(tid)),
        decreases n - i,
    {
        proof {
            lemma_filter_take_step(v@, pred_topic_not_id(tid), i as int);
        }
        if v[i].topic_id != tid {
            r.push(v[i].clone());
        }
        i += 1;
    }
    proof {
        assert(v@.take(n as int) =~= v@);
    }
    r
}

/// The session rows of other sequences than `sid`, as a fresh table.
fn filter_sessions_other(v: &Vec<SessionRecord>, sid: i32) -> (r: Vec<SessionRecord>)
    ensures
        r@ == sessions_of_other(v@, sid),
{
    let mut r: Vec<SessionRecord> = Vec::new();
    let n = v.len();
    let mut i: usize = 0;
    proof {
        reveal(Seq::filter);
        assert(v@.take(0) =~= Seq::<SessionRecord>::empty());
    }
    while i < n
        invariant
            n == v@.len(),
            0 <= i <= n,
            r@ == v@.take(i as int).filter(pred_session_other(sid)),
        decreases n - i,
    {
        proof {
            lemma_filter_take_step(v@, pred_session_other(sid), i as int);
        }
        if v[i].sequence_id != sid {
            r.push(v[i].clone());
        }
        i += 1;
    }
    proof {
        assert(v@.take(n as int) =~= v@);
    }
    r
}

/// The notification rows not owned by `id`, as a fresh table.
fn filter_notifs_not_of(v: &Vec<NotificationRecord>, id: i32) -> (r: Vec<NotificationRecord>)
    ensures
        r@ == notifications_not_of(v@, id),
{
    let mut r: Vec<NotificationRecord> = Vec::new();
    let n = v.len();
    let mut i: usize = 0;
    proof {
        reveal(Seq::filter);
        assert(v@.take(0) =~= Seq::<NotificationRecord>::empty());
    }
    while i < n
        invariant
            n == v@.len(),
            0 <= i <= n,
            r@ == v@.take(i as int).filter(pred_notif_not_of(id)),
        decreases n - i,
    {
        proof {
            lemma_filter_take_step(v@, pred_notif_not_of(id), i as int);
        }
        if v[i].owning_resource_id != id {
            r.push(v[i].clone());
        }
        i += 1;
    }
    proof {
        assert(v@.take(n as int) =~= v@);
    }
    r
}

/// The notification rows surviving the cascading removal of the sequence
/// with id `sid`, as a fresh table.
fn filter_notifs_surviving(
    v: &Vec<NotificationRecord>,
    topics: &Vec<TopicRecord>,
    sid: i32,
) -> (r: Vec<NotificationRecord>)
    ensures
        r@ == notifications_surviving(v@, topics@, sid),
{
    let mut r: Vec<NotificationRecord> = Vec::new();
    let n = v.len();
    let mut i: usize = 0;
    proof {
        reveal(Seq::filter);
        assert(v@.take(0) =~= Seq::<NotificationRecord>::empty());
    }
    while i < n
        invariant
            n == v@.len(),
            0 <= i <= n,
            r@ == v@.take(i as int).filter(pred_notif_surviving(topics@, sid)),
        decreases n - i,
    {
        proof {
            lemma_filter_take_step(v@, pred_notif_surviving(topics@, sid), i as int);
        }
        if v[i].owning_resource_id != sid && !topic_owned(topics, v[i].owning_resource_id, sid) {
            r.push(v[i].clone());
        }
        i += 1;
    }
    proof {
        assert(v@.take(n as int) =~= v@);
    }
    r
}

/// Whether some topic belongs to the sequence with id `sid`; linear scan.
pub(crate) fn topic_of_seq_present(tx: &Transaction, sid: i32) -> (r: bool)
    ensures
        r == tx.work.has_topic_of(sid),
{
    let n = tx.work.topics.len();
    let mut i: usize = 0;
    while i < n
        invariant
            n == tx.work.topics@.len(),
            0 <= i <= n,
            forall|j: int| 0 <= j < i ==> (#[trigger] tx.work.topics@[j]).sequence_id != sid,
        decreases n - i,
    {
        if tx.work.topics[i].sequence_id == sid {
            proof {
                assert(tx.work.topics@[i as int].sequence_id == sid);
            }
            return true;
        }
        i += 1;
    }
    false
}

/// Whether some session belongs to the sequence with id `sid`; linear scan.
pub(crate) fn session_of_present(tx: &Transaction, sid: i32) -> (r: bool)
    ensures
        r == tx.work.session_of(sid),
{
    let n = tx.work.sessions.len();
    let mut i: usize = 0;
    while i < n
        invariant
            n == tx.work.sessions@.len(),
            0 <= i <= n,
            forall|j: int| 0 <= j < i ==> (#[trigger] tx.work.sessions@[j]).sequence_id != sid,
        decreases n - i,
    {
        if tx.work.sessions[i].sequence_id == sid {
            proof {
                assert(tx.work.sessions@[i as int].sequence_id == sid);
            }
            return true;
        }
        i += 1;
    }
    false
}

/// How many topics the sequence with id `sid` owns.
pub(crate) fn count_topics_of(tx: &Transaction, sid: i32) -> (r: usize)
    ensures
        r == topics_of(tx.work.topics@, sid).len(),
{
    let v = &tx.work.topics;
    let n = v.len();
    let mut i: usize = 0;
    let mut count: usize = 0;
    proof {
        reveal(Seq::filter);
        assert(v@.take(0) =~= Seq::<TopicRecord>::empty());
    }
    while i < n
        invariant
            v == &tx.work.topics,
            n == v@.len(),
            0 <= i <= n,
            count == v@.take(i as int).filter(pred_topic_of(sid)).len(),
            count <= i,
        decreases n - i,
    {
        proof {
            lemma_filter_take_step(v@, pred_topic_of(sid), i as int);
        }
        if v[i].sequence_id == sid {
            count += 1;
        }
        i += 1;
    }
    proof {
        assert(v@.take(n as int) =~= v@);
    }
    count
}

/// How many sessions the sequence with id `sid` owns.
pub(crate) fn count_sessions_of(tx: &Transaction, sid: i32) -> (r: usize)
    ensures
        r == sessions_of(tx.work.sessions@, sid).len(),
{
    let v = &tx.work.sessions;
    let n = v.len();
    let mut i: usize = 0;
    let mut count: usize = 0;
    proof {
        reveal(Seq::filter);
        assert(v@.take(0) =~= Seq::<SessionRecord>::empty());
    }
    while i < n
        invariant
            v == &tx.work.sessions,
            n == v@.len(),
            0 <= i <= n,
            count == v@.take(i as int).filter(pred_session_of(sid)).len(),
            count <= i,
        decreases n - i,
    {
        proof {
            lemma_filter_take_step(v@, pred_session_of(sid), i as int);
        }
        if v[i].sequence_id == sid {
            count += 1;
        }
        i += 1;
    }
    proof {
        assert(v@.take(n as int) =~= v@);
    }
    count
}

/// How many notifications the resource with id `id` owns.
pub(crate) fn count_notifications_of(tx: &Transaction, id: i32) -> (r: usize)
    ensures
        r == tx.work.notifications_of(id).len(),
{
    let v = &tx.work.notifications;
    let n = v.len();
    let mut i: usize = 0;
    let mut count: usize = 0;
    proof {
        reveal(Seq::filter);
        assert(v@.take(0) =~= Seq::<NotificationRecord>::empty());
    }
    while i < n
        invariant
            v == &tx.work.notifications,
            n == v@.len(),
            0 <= i <= n,
            count == v@.take(i as int).filter(pred_notif_of(id)).len(),
            count <= i,
        decreases n - i,
    {
        proof {
            lemma_filter_take_step(v@, pred_notif_of(id), i as int);
        }
        if v[i].owning_resource_id == id {
            count += 1;
        }
        i += 1;
    }
    proof {
        assert(v@.take(n as int) =~= v@);
    }
    count
}

/// Deletes a sequence record from the repository by its name, **bypassing
/// any lock state**: its topics, its sessions, and every notification owned
/// by any of them go with it. The [`DataLossToken`] marks the call site: an
/// improper use destroys data irrecoverably. A name that resolves to no
/// record deletes nothing and still succeeds.
pub fn sequence_delete(
    tx: &mut Transaction,
    loc: &SequenceResourceLocator,
    _token: DataLossToken,
) -> (r: Result<(), FacadeError>)
    requires
        old(tx).work.wf(),
    ensures
        final(tx).work.wf(),
        r is Ok,
        !old(tx).work.seq_named(loc.name@) ==> *final(tx) == *old(tx),
        old(tx).work.seq_named(loc.name@) ==> ({
            let sid = named_seq_id(old(tx).work, loc.name@);
            &&& final(tx).work.sequences@ == sequences_not_named(
                old(tx).work.sequences@,
                loc.name@,
            )
            &&& final(tx).work.topics@ == topics_of_other(old(tx).work.topics@, sid)
            &&& final(tx).work.sessions@ == sessions_of_other(old(tx).work.sessions@, sid)
            &&& final(tx).work.notifications@ == notifications_surviving(
                old(tx).work.notifications@,
                old(tx).work.topics@,
                sid,
            )
            &&& final(tx).work.next_id == old(tx).work.next_id
        }),
{
    let found = sequence_find_by_locator(&*tx, loc);
    match found {
        Err(_) => Ok(()),
        Ok(rec) => {
            let sid = rec.sequence_id;
            proof {
                lemma_named_seq_id_agrees(tx.work, loc.name@, rec);
            }
            let new_sequences = filter_sequences_not_named(&tx.work.sequences, &loc.name);
            let new_topics = filter_topics_other(&tx.work.topics, sid);
            let new_sessions = filter_sessions_other(&tx.work.sessions, sid);
            let new_notifications = filter_notifs_surviving(
                &tx.work.notifications,
                &tx.work.topics,
                sid,
            );
            tx.work.sequences = new_sequences;
            tx.work.topics = new_topics;
            tx.work.sessions = new_sessions;
            tx.work.notifications = new_notifications;
            proof {
                lemma_wf_after_cascade_delete(old(tx).work, tx.work, loc.name@, sid);
            }
            Ok(())
        },
    }
}

/// Deletes one topic row and the notifications it owns.
pub fn topic_delete(tx: &mut Transaction, topic_id: i32) -> (r: Result<(), FacadeError>)
    requires
        old(tx).work.wf(),
    ensures
        final(tx).work.wf(),
        match r {
            Ok(()) => {
                &&& old(tx).work.topic_with_id(topic_id)
                &&& final(tx).work.topics@ == topics_without_id(old(tx).work.topics@, topic_id)
                &&& final(tx).work.notifications@ == notifications_not_of(
                    old(tx).work.notifications@,
                    topic_id,
                )
                &&& final(tx).work.sequences@ == old(tx).work.sequences@
                &&& final(tx).work.sessions@ == old(tx).work.sessions@
                &&& final(tx).work.next_id == old(tx).work.next_id
            },
            Err(e) => e == FacadeError::NotFound && !old(tx).work.topic_with_id(topic_id)
                && *final(tx) == *old(tx),
        },
{
    if !topic_id_present(&*tx, topic_id) {
        return Err(FacadeError::NotFound);
    }
    let new_topics = filter_topics_not_id(&tx.work.topics, topic_id);
    let new_notifications = filter_notifs_not_of(&tx.work.notifications, topic_id);
    tx.work.topics = new_topics;
    tx.work.notifications = new_notifications;
    proof {
        lemma_wf_after_topic_delete(old(tx).work, tx.work, topic_id);
    }
    Ok(())
}

/// Appends a notification for an existing sequence or topic.
pub fn notification_create(
    tx: &mut Transaction,
    owning_resource_id: i32,
    kind: NotifyType,
    message: String,
    millis: i64,
) -> (r: Result<NotificationRecord, FacadeError>)
    requires
        old(tx).work.wf(),
    ensures
        final(tx).work.wf(),
        match r {
            Ok(out) => {
                &&& old(tx).work.owner_exists(owning_resource_id)
                &&& old(tx).work.next_id < i32::MAX
                &&& out == (NotificationRecord {
                    notification_id: old(tx).work.next_id,
                    owning_resource_id,
                    kind,
                    message,
                    creation_unix_tstamp: millis,
                })
                &&& final(tx).work.notifications@ == old(tx).work.notifications@.push(out)
                &&& final(tx).work.next_id == old(tx).work.next_id + 1
                &&& final(tx).work.sequences@ == old(tx).work.sequences@
                &&& final(tx).work.topics@ == old(tx).work.topics@
                &&& final(tx).work.sessions@ == old(tx).work.sessions@
            },
            Err(e) => {
                &&& *final(tx) == *old(tx)
                &&& match e {
                    FacadeError::NotFound => !old(tx).work.owner_exists(owning_resource_id),
                    FacadeError::RepositoryError => old(tx).work.owner_exists(owning_resource_id)
                        && old(tx).work.next_id == i32::MAX,
                    _ => false,
                }
            },
        },
{
    let seq_owner = seq_id_present(&*tx, owning_resource_id);
    let topic_owner = topic_id_present(&*tx, owning_resource_id);
    if !seq_owner && !topic_owner {
        return Err(FacadeError::NotFound);
    }
    if tx.work.next_id == i32::MAX {
        return Err(FacadeError::RepositoryError);
    }
    let out = NotificationRecord {
        notification_id: tx.work.next_id,
        owning_resource_id,
        kind,
        message,
        creation_unix_tstamp: millis,
    };
    tx.work.next_id = tx.work.next_id + 1;
    let stored = out.clone();
    tx.work.notifications.push(stored);
    proof {
        lemma_wf_after_notification_push(old(tx).work, tx.work, out);
    }
    Ok(out)
}

/// The notifications owned by `owning_resource_id`, in creation order.
pub fn notification_list(tx: &Transaction, owning_resource_id: i32) -> (r: Result<
    Vec<NotificationRecord>,
    FacadeError,
>)
    ensures
        match r {
            Ok(v) => v@ == tx.work.notifications_of(owning_resource_id),
            Err(_) => false,
        },
{
    let v = &tx.work.notifications;
    let mut r: Vec<NotificationRecord> = Vec::new();
    let n = v.len();
    let mut i: usize = 0;
    proof {
        reveal(Seq::filter);
        assert(v@.take(0) =~= Seq::<NotificationRecord>::empty());
    }
    while i < n
        invariant
            v == &tx.work.notifications,
            n == v@.len(),
            0 <= i <= n,
            r@ == v@.take(i as int).filter(pred_notif_of(owning_resource_id)),
        decreases n - i,
    {
        proof {
            lemma_filter_take_step(v@, pred_notif_of(owning_resource_id), i as int);
        }
        if v[i].owning_resource_id == owning_resource_id {
            r.push(v[i].clone());
        }
        i += 1;
    }
    proof {
        assert(v@.take(n as int) =~= v@);
    }
    Ok(r)
}

/// Deletes every notification owned by `owning_resource_id`.
pub fn notification_purge(tx: &mut Transaction, owning_resource_id: i32) -> (r: Result<
    (),
    FacadeError,
>)
    requires
        old(tx).work.wf(),
    ensures
        final(tx).work.wf(),
        r is Ok,
        final(tx).work.notifications@ == notifications_not_of(
            old(tx).work.notifications@,
            owning_resource_id,
        ),
        final(tx).work.sequences@ == old(tx).work.sequences@,
        final(tx).work.topics@ == old(tx).work.topics@,
        final(tx).work.sessions@ == old(tx).work.sessions@,
        final(tx).work.next_id == old(tx).work.next_id,
{
    let new_notifications = filter_notifs_not_of(&tx.work.notifications, owning_resource_id);
    tx.work.notifications = new_notifications;
    proof {
        lemma_wf_after_purge(old(tx).work, tx.work, owning_resource_id);
    }
    Ok(())
}

/// The names of all topics of the sequence named by `loc`, each joined to
/// the sequence's own name; an unknown sequence yields the empty list, as a
/// join does.
pub fn sequence_find_all_topic_names(tx: &Transaction, loc: &SequenceResourceLocator) -> (r:
    Result<Vec<TopicResourceLocator>, FacadeError>)
    requires
        tx.work.wf(),
    ensures
        match r {
            Ok(v) => {
                if tx.work.seq_named(loc.name@) {
                    let tps = topics_of(tx.work.topics@, named_seq_id(tx.work, loc.name@));
                    &&& v@.len() == tps.len()
                    &&& forall|i: int|
                        0 <= i < v@.len() ==> (#[trigger] v@[i]).sequence@ == loc.name@
                            && v@[i].name@ == tps[i].locator_name@
                } else {
                    v@.len() == 0
                }
            },
            Err(_) => false,
        },
{
    let found = sequence_find_by_locator(tx, loc);
    let rec = match found {
        Err(_) => {
            return Ok(Vec::new());
        },
        Ok(rec) => rec,
    };
    let sid = rec.sequence_id;
    proof {
        lemma_named_seq_id_agrees(tx.work, loc.name@, rec);
    }
    let v = &tx.work.topics;
    let mut r: Vec<TopicResourceLocator> = Vec::new();
    let n = v.len();
    let mut i: usize = 0;
    proof {
        reveal(Seq::filter);
        assert(v@.take(0) =~= Seq::<TopicRecord>::empty());
    }
    while i < n
        invariant
            v == &tx.work.topics,
            n == v@.len(),
            0 <= i <= n,
            r@.len() == v@.take(i as int).filter(pred_topic_of(sid)).len(),
            forall|k: int|
                0 <= k < r@.len() ==> (#[trigger] r@[k]).sequence@ == loc.name@ && r@[k].name@
                    == v@.take(i as int).filter(pred_topic_of(sid))[k].locator_name@,
        decreases n - i,
    {
        proof {
            lemma_filter_take_step(v@, pred_topic_of(sid), i as int);
        }
        if v[i].sequence_id == sid {
            let entry = TopicResourceLocator {
                sequence: loc.name.clone(),
                name: v[i].locator_name.clone(),
            };
            r.push(entry);
        }
        i += 1;
    }
    proof {
        assert(v@.take(n as int) =~= v@);
    }
    Ok(r)
}

} // verus!
