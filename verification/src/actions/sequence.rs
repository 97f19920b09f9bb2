//! Sequence-related actions.

use vstd::prelude::*;
use crate::errors::FacadeError;
use crate::facades::{FacadeSequence, SequenceSystemInfo};
use crate::ids::{ResourceId, Uuid};
use crate::records::{notify_type_of_text, NotificationRecord, NotifyType};
use crate::repo::{
    named_seq_id, named_seq_uuid, notifications_not_of, notifications_surviving,
    sequences_not_named, sessions_of_other, topics_of, topics_of_other, CatalogState, Repository,
};
use crate::trusted::{json_wellformed, uuid_text_value};

verus! {

/// What creating a sequence means: a fresh row under a free name with
/// well-formed metadata, or the first typed error with nothing changed.
pub open spec fn create_post(
    pre: CatalogState,
    post: CatalogState,
    name: Seq<char>,
    meta: Seq<char>,
    r: Result<ResourceId, FacadeError>,
) -> bool {
    match r {
        Ok(rid) => {
            &&& !pre.seq_named(name)
            &&& json_wellformed(meta)
            &&& rid.uuid.valid()
            &&& rid.id == pre.next_id
            &&& post.sequences@ == pre.sequences@.push(post.sequences@.last())
            &&& post.sequences@.last().sequence_id == rid.id
            &&& post.sequences@.last().sequence_uuid == rid.uuid
            &&& post.sequences@.last().locator_name@ == name
            &&& (post.sequences@.last().user_metadata matches Some(m) && m@ == meta)
            &&& post.next_id == pre.next_id + 1
            &&& post.topics@ == pre.topics@
            &&& post.sessions@ == pre.sessions@
            &&& post.notifications@ == pre.notifications@
            &&& post.wf()
        },
        Err(e) => {
            &&& post.same_as(pre)
            &&& match e {
                FacadeError::AlreadyExists => pre.seq_named(name),
                FacadeError::Validation => !pre.seq_named(name) && !json_wellformed(meta),
                FacadeError::RepositoryError => !pre.seq_named(name) && json_wellformed(meta)
                    && (pre.next_id == i32::MAX || pre.sequences@.len() > 0),
                _ => false,
            }
        },
    }
}

/// Creates a new sequence with the given name and metadata. The name must
/// be free and the metadata must parse as JSON; the metadata is stored as
/// an opaque blob.
pub fn create(repo: &mut Repository, locator: String, user_metadata_str: &str) -> (r: Result<
    ResourceId,
    FacadeError,
>)
    requires
        old(repo).state.wf(),
    ensures
        final(repo).state.wf(),
        create_post(old(repo).state, final(repo).state, locator@, user_metadata_str@, r),
{
    let handle = FacadeSequence::new(locator);
    if handle.resource_id(&*repo).is_ok() {
        return Err(FacadeError::AlreadyExists);
    }
    if !crate::trusted::json_text_wellformed(user_metadata_str) {
        return Err(FacadeError::Validation);
    }
    let meta = user_metadata_str.to_owned();
    handle.create(repo, Some(meta))
}

/// What the checked delete of a sequence means.
pub open spec fn delete_post(
    pre: CatalogState,
    post: CatalogState,
    name: Seq<char>,
    r: Result<(), FacadeError>,
) -> bool {
    match r {
        Ok(()) => ({
            let sid = named_seq_id(pre, name);
            &&& pre.seq_named(name)
            &&& !pre.has_topic_of(sid)
            &&& !pre.session_of(sid)
            &&& post.sequences@ == sequences_not_named(pre.sequences@, name)
            &&& !post.seq_named(name)
            &&& post.topics@ == topics_of_other(pre.topics@, sid)
            &&& post.sessions@ == sessions_of_other(pre.sessions@, sid)
            &&& post.notifications@ == notifications_surviving(pre.notifications@, pre.topics@, sid)
            &&& post.next_id == pre.next_id
            &&& post.wf()
        }),
        Err(e) => {
            &&& post.same_as(pre)
            &&& match e {
                FacadeError::NotFound => !pre.seq_named(name),
                FacadeError::Locked => pre.seq_named(name) && ({
                    let sid = named_seq_id(pre, name);
                    pre.has_topic_of(sid) || pre.session_of(sid)
                }),
                _ => false,
            }
        },
    }
}

/// Deletes a sequence that owns no topics and no sessions.
pub fn delete(repo: &mut Repository, name: String) -> (r: Result<(), FacadeError>)
    requires
        old(repo).state.wf(),
    ensures
        final(repo).state.wf(),
        delete_post(old(repo).state, final(repo).state, name@, r),
{
    let handle = FacadeSequence::new(name);
    let r = handle.delete(repo);
    proof {
        if r is Ok {
            crate::repo::lemma_deleted_name_gone(old(repo).state.sequences@, handle.locator.name@);
        }
    }
    r
}

/// What aborting a sequence creation means: the caller proves possession
/// of the creation receipt — the sequence's own random identifier — and
/// the sequence is then deleted as by the checked delete. A key that does
/// not parse, or is a sentinel, is a `Validation` error; a key that names
/// another identifier is `BadKey`, and nothing changes.
pub open spec fn abort_post(
    pre: CatalogState,
    post: CatalogState,
    name: Seq<char>,
    key: Seq<char>,
    r: Result<(), FacadeError>,
) -> bool {
    match r {
        Ok(()) => {
            &&& uuid_text_value(key) == Some(named_seq_uuid(pre, name).bits)
            &&& delete_post(pre, post, name, Ok(()))
        },
        Err(e) => {
            &&& post.same_as(pre)
            &&& match e {
                FacadeError::NotFound => !pre.seq_named(name),
                FacadeError::Validation => pre.seq_named(name) && (uuid_text_value(key) is None
                    || uuid_text_value(key) == Some(0u128) || uuid_text_value(key) == Some(
                    u128::MAX,
                )),
                FacadeError::BadKey => pre.seq_named(name) && (uuid_text_value(key) matches Some(
                    b,
                ) && b != 0 && b != u128::MAX && b != named_seq_uuid(pre, name).bits),
                FacadeError::Locked => pre.seq_named(name) && uuid_text_value(key) == Some(
                    named_seq_uuid(pre, name).bits,
                ) && ({
                    let sid = named_seq_id(pre, name);
                    pre.has_topic_of(sid) || pre.session_of(sid)
                }),
                _ => false,
            }
        },
    }
}

/// Aborts a sequence creation, deleting the sequence if the key matches
/// its identifier.
pub fn abort(repo: &mut Repository, name: String, key: String) -> (r: Result<(), FacadeError>)
    requires
        old(repo).state.wf(),
    ensures
        final(repo).state.wf(),
        abort_post(old(repo).state, final(repo).state, name@, key@, r),
{
    let handle = FacadeSequence::new(name);
    let r_id = match handle.resource_id(&*repo) {
        Ok(rid) => rid,
        Err(e) => {
            return Err(e);
        },
    };
    proof {
        let k = choose|k: int|
            0 <= k < repo.state.sequences@.len()
                && (#[trigger] repo.state.sequences@[k]).locator_name@ == handle.locator.name@
                && repo.state.sequences@[k].sequence_id == r_id.id
                && repo.state.sequences@[k].sequence_uuid == r_id.uuid;
        crate::repo::lemma_named_row_determined(repo.state, handle.locator.name@, k);
    }
    let received_uuid = match Uuid::parse_str(key.as_str()) {
        Ok(u) => u,
        Err(_) => {
            return Err(FacadeError::Validation);
        },
    };
    if !(r_id.uuid.bits == received_uuid.bits) {
        return Err(FacadeError::BadKey);
    }
    let r = handle.delete(repo);
    proof {
        if r is Ok {
            crate::repo::lemma_deleted_name_gone(old(repo).state.sequences@, handle.locator.name@);
        }
    }
    r
}

/// What appending a notification to a sequence's log means.
pub open spec fn notify_create_post(
    pre: CatalogState,
    post: CatalogState,
    name: Seq<char>,
    notify_type: Seq<char>,
    msg: Seq<char>,
    r: Result<(), FacadeError>,
) -> bool {
    match r {
        Ok(()) => {
            &&& pre.seq_named(name)
            &&& (notify_type_of_text(notify_type) matches Some(kind) && ({
                &&& post.notifications@ == pre.notifications@.push(post.notifications@.last())
                &&& post.notifications@.last().owning_resource_id == named_seq_id(pre, name)
                &&& post.notifications@.last().kind == kind
                &&& post.notifications@.last().message@ == msg
            }))
            &&& post.sequences@ == pre.sequences@
            &&& post.topics@ == pre.topics@
            &&& post.sessions@ == pre.sessions@
            &&& post.next_id == pre.next_id + 1
            &&& post.wf()
        },
        Err(e) => {
            &&& post.same_as(pre)
            &&& match e {
                FacadeError::Validation => notify_type_of_text(notify_type) is None,
                FacadeError::NotFound => notify_type_of_text(notify_type) is Some
                    && !pre.seq_named(name),
                FacadeError::RepositoryError => notify_type_of_text(notify_type) is Some
                    && pre.seq_named(name) && pre.next_id == i32::MAX,
                _ => false,
            }
        },
    }
}

/// Creates a notification for a sequence. The kind is parsed first: an
/// unknown kind is a `Validation` error before any lookup.
pub fn notify_create(
    repo: &mut Repository,
    name: String,
    notify_type: String,
    msg: String,
) -> (r: Result<(), FacadeError>)
    requires
        old(repo).state.wf(),
    ensures
        final(repo).state.wf(),
        notify_create_post(old(repo).state, final(repo).state, name@, notify_type@, msg@, r),
{
    let handle = FacadeSequence::new(name);
    let ntype = match NotifyType::parse_str(notify_type.as_str()) {
        Ok(t) => t,
        Err(e) => {
            return Err(e);
        },
    };
    handle.notify(repo, ntype, msg)
}

/// Lists all notifications for a sequence, in creation order.
pub fn notify_list(repo: &Repository, name: String) -> (r: Result<
    Vec<NotificationRecord>,
    FacadeError,
>)
    requires
        repo.state.wf(),
    ensures
        match r {
            Ok(v) => repo.state.seq_named(name@) && v@ == repo.state.notifications_of(
                named_seq_id(repo.state, name@),
            ),
            Err(e) => e == FacadeError::NotFound && !repo.state.seq_named(name@),
        },
{
    let handle = FacadeSequence::new(name);
    handle.notify_list(repo)
}

/// What purging a sequence's notifications means.
pub open spec fn notify_purge_post(
    pre: CatalogState,
    post: CatalogState,
    name: Seq<char>,
    r: Result<(), FacadeError>,
) -> bool {
    match r {
        Ok(()) => {
            &&& pre.seq_named(name)
            &&& post.notifications@ == notifications_not_of(
                pre.notifications@,
                named_seq_id(pre, name),
            )
            &&& post.sequences@ == pre.sequences@
            &&& post.topics@ == pre.topics@
            &&& post.sessions@ == pre.sessions@
            &&& post.next_id == pre.next_id
            &&& post.wf()
        },
        Err(e) => post.same_as(pre) && e == FacadeError::NotFound && !pre.seq_named(name),
    }
}

/// Purges all notifications for a sequence.
pub fn notify_purge(repo: &mut Repository, name: String) -> (r: Result<(), FacadeError>)
    requires
        old(repo).state.wf(),
    ensures
        final(repo).state.wf(),
        notify_purge_post(old(repo).state, final(repo).state, name@, r),
{
    let handle = FacadeSequence::new(name);
    handle.notify_purge(repo)
}

/// Gets system information for a sequence: counts and timestamps, no
/// mutation.
pub fn system_info(repo: &Repository, name: String) -> (r: Result<
    SequenceSystemInfo,
    FacadeError,
>)
    requires
        repo.state.wf(),
    ensures
        match r {
            Ok(info) => ({
                let sid = named_seq_id(repo.state, name@);
                &&& repo.state.seq_named(name@)
                &&& info.resource.id == sid
                &&& info.topic_count == topics_of(repo.state.topics@, sid).len()
                &&& info.session_count == crate::repo::sessions_of(repo.state.sessions@, sid).len()
                &&& info.notification_count == repo.state.notifications_of(sid).len()
            }),
            Err(e) => e == FacadeError::NotFound && !repo.state.seq_named(name@),
        },
{
    let handle = FacadeSequence::new(name);
    handle.system_info(repo)
}

} // verus!
