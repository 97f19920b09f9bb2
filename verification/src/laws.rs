//! The crate-level guarantees, stated and proved once over the catalog
//! model: resolution equivalence, name uniqueness, the single-winner
//! finalize race, and purge-then-list emptiness.

use vstd::prelude::*;
use crate::actions::session::finalize_post;
use crate::errors::FacadeError;
use crate::ids::ResourceId;
use crate::records::{NotificationRecord, SequenceRecord};
use crate::repo::{
    lemma_filter_structure, notifications_not_of, pred_notif_not_of, pred_notif_of, CatalogState,
};

verus! {

/// Two sequence rows of a catalog holding the invariant that agree in any
/// one of the three address forms — integer id, random identifier, or
/// locator name — are one and the same row.
pub proof fn lemma_resolution_equivalence(s: CatalogState, r1: SequenceRecord, r2: SequenceRecord)
    requires
        s.wf(),
        s.sequences@.contains(r1),
        s.sequences@.contains(r2),
        r1.sequence_id == r2.sequence_id || r1.sequence_uuid == r2.sequence_uuid
            || r1.locator_name@ == r2.locator_name@,
    ensures
        r1 == r2,
{
    let i = choose|i: int| 0 <= i < s.sequences@.len() && s.sequences@[i] == r1;
    let j = choose|j: int| 0 <= j < s.sequences@.len() && s.sequences@[j] == r2;
    if i != j {
        assert(s.sequences@[i].sequence_id != s.sequences@[j].sequence_id
            && s.sequences@[i].sequence_uuid != s.sequences@[j].sequence_uuid
            && s.sequences@[i].locator_name@ != s.sequences@[j].locator_name@);
    }
}

/// After a successful creation, resolution via the integer id, via the
/// random identifier, and via the locator text all name the one created
/// row: the three address forms are equivalent.
pub proof fn lemma_create_resolution(
    pre: CatalogState,
    post: CatalogState,
    name: Seq<char>,
    meta: Seq<char>,
    rid: ResourceId,
)
    requires
        crate::actions::sequence::create_post(pre, post, name, meta, Ok(rid)),
    ensures
        post.seq_named(name),
        post.seq_with_id(rid.id),
        post.seq_with_uuid(rid.uuid),
        forall|rec: SequenceRecord|
            post.sequences@.contains(rec) && (rec.sequence_id == rid.id || rec.sequence_uuid
                == rid.uuid || rec.locator_name@ == name) ==> rec == post.sequences@.last(),
{
    let last = post.sequences@.last();
    assert(post.sequences@[post.sequences@.len() - 1] == last);
    assert(post.seq_named(name) && post.seq_with_id(rid.id) && post.seq_with_uuid(rid.uuid));
    assert(post.sequences@.contains(last));
    assert forall|rec: SequenceRecord|
        post.sequences@.contains(rec) && (rec.sequence_id == rid.id || rec.sequence_uuid
            == rid.uuid || rec.locator_name@ == name) implies rec == last by {
        lemma_resolution_equivalence(post, rec, last);
    }
}

/// A catalog holding the invariant stores at most one sequence row for a
/// name: two indices carrying one name are equal. Together with the
/// creation contract — a taken name fails `AlreadyExists` and changes
/// nothing — the store holds exactly one row for a created name before
/// and after such an attempt.
pub proof fn lemma_at_most_one_named(s: CatalogState, name: Seq<char>, i: int, j: int)
    requires
        s.wf(),
        0 <= i < s.sequences@.len(),
        0 <= j < s.sequences@.len(),
        s.sequences@[i].locator_name@ == name,
        s.sequences@[j].locator_name@ == name,
    ensures
        i == j,
{
    if i != j {
        assert(s.sequences@[i].locator_name@ != s.sequences@[j].locator_name@);
    }
}

/// Of concurrent finalize attempts against one session, exactly one
/// succeeds: once an attempt has won, every further attempt with the same
/// key fails `AlreadyLocked` and changes nothing, so the completion
/// timestamp is written exactly once and never changes thereafter.
pub proof fn lemma_finalize_single_winner(
    pre: CatalogState,
    mid: CatalogState,
    post: CatalogState,
    key: Seq<char>,
    r2: Result<(), FacadeError>,
)
    requires
        finalize_post(pre, mid, key, Ok(())),
        finalize_post(mid, post, key, r2),
    ensures
        r2 == Err::<(), FacadeError>(FacadeError::AlreadyLocked),
        post.same_as(mid),
{
    let b: u128 = match crate::trusted::uuid_text_value(key) {
        Some(b) => b,
        None => 0,
    };
    let u = crate::ids::Uuid { bits: b };
    let (i, t): (int, i64) = choose|i: int, t: i64|
        #![trigger pre.sessions@.update(i, crate::repo::locked_version(pre.sessions@[i], t))]
        {
            &&& 0 <= i < pre.sessions@.len()
            &&& pre.sessions@[i].session_uuid == u
            &&& !pre.sessions@[i].locked
            &&& t >= 0
            &&& mid.sessions@ == pre.sessions@.update(
                i,
                crate::repo::locked_version(pre.sessions@[i], t),
            )
        };
    assert(mid.sessions@[i].session_uuid == u && mid.sessions@[i].locked);
    match r2 {
        Ok(()) => {
            let (i2, t2): (int, i64) = choose|i2: int, t2: i64|
                #![trigger mid.sessions@.update(i2, crate::repo::locked_version(mid.sessions@[i2], t2))]
                {
                    &&& 0 <= i2 < mid.sessions@.len()
                    &&& mid.sessions@[i2].session_uuid == u
                    &&& !mid.sessions@[i2].locked
                    &&& t2 >= 0
                    &&& post.sessions@ == mid.sessions@.update(
                        i2,
                        crate::repo::locked_version(mid.sessions@[i2], t2),
                    )
                };
            if i2 != i {
                assert(mid.sessions@[i].session_uuid != mid.sessions@[i2].session_uuid);
            }
            assert(false);
        },
        Err(e) => {
            match e {
                FacadeError::Validation => {
                    assert(false);
                },
                FacadeError::NotFound => {
                    assert(mid.session_with_uuid(u));
                    assert(false);
                },
                FacadeError::AlreadyLocked => {
                },
                _ => {
                    assert(false);
                },
            }
        },
    }
}

/// A purge leaves nothing to list: filtering the notifications that
/// survived a purge of `id` for ownership by `id` yields the empty
/// sequence.
pub proof fn lemma_purge_then_list_empty(rows: Seq<NotificationRecord>, id: i32)
    ensures
        notifications_not_of(rows, id).filter(pred_notif_of(id)) == Seq::<
            NotificationRecord,
        >::empty(),
{
    let kept = notifications_not_of(rows, id);
    lemma_filter_structure(rows, pred_notif_not_of(id));
    lemma_filter_structure(kept, pred_notif_of(id));
    let listed = kept.filter(pred_notif_of(id));
    if listed.len() > 0 {
        assert(pred_notif_of(id)(listed[0]));
        assert(kept.contains(listed[0]));
        let k = choose|k: int| 0 <= k < kept.len() && kept[k] == listed[0];
        assert(pred_notif_not_of(id)(kept[k]));
        assert(false);
    }
    assert(listed =~= Seq::<NotificationRecord>::empty());
}

} // verus!
