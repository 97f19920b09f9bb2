//! Topic-related actions.

use vstd::prelude::*;
use crate::errors::FacadeError;
use crate::facades::{FacadeTopic, TopicSystemInfo};
use crate::ids::{ResourceId, Uuid};
use crate::locator::{valid_topic_locator, TopicResourceLocator};
use crate::records::{notify_type_of_text, NotificationRecord, NotifyType};
use crate::repo::{
    named_seq_id, named_seq_uuid, notifications_not_of, topic_id_in, topics_without_id,
    CatalogState, Repository,
};
use crate::trusted::{json_wellformed, uuid_text_value};

verus! {

/// The two levels of a topic locator text, as [`TopicResourceLocator`]
/// parses them: meaningful under [`valid_topic_locator`].
pub open spec fn locator_levels(s: Seq<char>) -> (Seq<char>, Seq<char>) {
    let i = choose|i: int|
        0 <= i < s.len() && s[i] == '/' && crate::locator::valid_resource_name(s.take(i))
            && crate::locator::valid_resource_name(s.skip(i + 1));
    (s.take(i), s.skip(i + 1))
}

/// What creating a topic means: the locator text must split in two valid
/// levels, the owning sequence must exist, the key must name its
/// identifier, the metadata must be JSON, and the topic name must be free
/// within the sequence; then a fresh topic row stands, else the first
/// typed error and nothing changed.
pub open spec fn create_post(
    pre: CatalogState,
    post: CatalogState,
    name: Seq<char>,
    sequence_key: Seq<char>,
    serialization_format: Seq<char>,
    ontology_tag: Seq<char>,
    meta: Seq<char>,
    r: Result<ResourceId, FacadeError>,
) -> bool {
    let levels = locator_levels(name);
    let sid = named_seq_id(pre, levels.0);
    match r {
        Ok(rid) => {
            &&& valid_topic_locator(name)
            &&& pre.seq_named(levels.0)
            &&& uuid_text_value(sequence_key) == Some(named_seq_uuid(pre, levels.0).bits)
            &&& json_wellformed(meta)
            &&& !pre.topic_in(sid, levels.1)
            &&& rid.uuid.valid()
            &&& rid.id == pre.next_id
            &&& post.topics@ == pre.topics@.push(post.topics@.last())
            &&& post.topics@.last().topic_id == rid.id
            &&& post.topics@.last().topic_uuid == rid.uuid
            &&& post.topics@.last().sequence_id == sid
            &&& post.topics@.last().locator_name@ == levels.1
            &&& post.topics@.last().serialization_format@ == serialization_format
            &&& post.topics@.last().ontology_tag@ == ontology_tag
            &&& (post.topics@.last().user_metadata matches Some(m) && m@ == meta)
            &&& post.next_id == pre.next_id + 1
            &&& post.sequences@ == pre.sequences@
            &&& post.sessions@ == pre.sessions@
            &&& post.notifications@ == pre.notifications@
            &&& post.wf()
        },
        Err(e) => {
            &&& post.same_as(pre)
            &&& match e {
                FacadeError::Validation => !valid_topic_locator(name) || (valid_topic_locator(name)
                    && pre.seq_named(levels.0) && (uuid_text_value(sequence_key) is None
                    || uuid_text_value(sequence_key) == Some(0u128) || uuid_text_value(
                    sequence_key,
                ) == Some(u128::MAX) || (uuid_text_value(sequence_key) == Some(
                    named_seq_uuid(pre, levels.0).bits,
                ) && !json_wellformed(meta)))),
                FacadeError::NotFound => valid_topic_locator(name) && !pre.seq_named(levels.0),
                FacadeError::BadKey => valid_topic_locator(name) && pre.seq_named(levels.0) && (
                uuid_text_value(sequence_key) matches Some(b) && b != 0 && b != u128::MAX && b
                    != named_seq_uuid(pre, levels.0).bits),
                FacadeError::AlreadyExists => valid_topic_locator(name) && pre.seq_named(levels.0)
                    && uuid_text_value(sequence_key) == Some(named_seq_uuid(pre, levels.0).bits)
                    && json_wellformed(meta) && pre.topic_in(sid, levels.1),
                FacadeError::RepositoryError => valid_topic_locator(name) && pre.seq_named(
                    levels.0,
                ) && !pre.topic_in(sid, levels.1) && (pre.next_id == i32::MAX
                    || pre.topics@.len() > 0),
                _ => false,
            }
        },
    }
}

/// Under the invariant, a parsed topic locator names the levels that
/// [`locator_levels`] speaks of: the split at the only separator is
/// unique.
proof fn lemma_levels_agree(s: Seq<char>, a: Seq<char>, b: Seq<char>)
    requires
        crate::locator::valid_resource_name(a),
        crate::locator::valid_resource_name(b),
        s == a + seq!['/'] + b,
    ensures
        valid_topic_locator(s),
        locator_levels(s) == (a, b),
{
    let i = a.len() as int;
    assert(s.len() == a.len() + 1 + b.len());
    assert(s[i] == '/');
    assert(s.take(i) =~= a);
    assert(s.skip(i + 1) =~= b);
    assert(valid_topic_locator(s));
    let j = choose|j: int|
        0 <= j < s.len() && s[j] == '/' && crate::locator::valid_resource_name(s.take(j))
            && crate::locator::valid_resource_name(s.skip(j + 1));
    if j < i {
        assert(a[j] == s[j]);
    } else if j > i {
        assert(s.take(j)[i] == '/');
    }
    assert(locator_levels(s) == (s.take(j), s.skip(j + 1)));
    assert(s.take(j) =~= a && s.skip(j + 1) =~= b);
}

/// Creates a new topic under an existing sequence. The caller proves
/// possession of the sequence's creation receipt in `sequence_key`.
pub fn create(
    repo: &mut Repository,
    name: String,
    sequence_key: String,
    serialization_format: String,
    ontology_tag: String,
    user_metadata_str: &str,
) -> (r: Result<ResourceId, FacadeError>)
    requires
        old(repo).state.wf(),
    ensures
        final(repo).state.wf(),
        create_post(
            old(repo).state,
            final(repo).state,
            name@,
            sequence_key@,
            serialization_format@,
            ontology_tag@,
            user_metadata_str@,
            r,
        ),
{
    let locator = match TopicResourceLocator::parse_str(name.as_str()) {
        Ok(l) => l,
        Err(e) => {
            return Err(e);
        },
    };
    proof {
        lemma_levels_agree(name@, locator.sequence@, locator.name@);
    }
    let handle = FacadeTopic::new(locator);
    let seq_handle = crate::facades::FacadeSequence::new(handle.locator.sequence.clone());
    let r_id = match seq_handle.resource_id(&*repo) {
        Ok(rid) => rid,
        Err(e) => {
            return Err(e);
        },
    };
    proof {
        let k = choose|k: int|
            0 <= k < repo.state.sequences@.len()
                && (#[trigger] repo.state.sequences@[k]).locator_name@
                == seq_handle.locator.name@ && repo.state.sequences@[k].sequence_id == r_id.id
                && repo.state.sequences@[k].sequence_uuid == r_id.uuid;
        crate::repo::lemma_named_row_determined(repo.state, seq_handle.locator.name@, k);
    }
    let received_uuid = match Uuid::parse_str(sequence_key.as_str()) {
        Ok(u) => u,
        Err(_) => {
            return Err(FacadeError::Validation);
        },
    };
    if !(r_id.uuid.bits == received_uuid.bits) {
        return Err(FacadeError::BadKey);
    }
    if !crate::trusted::json_text_wellformed(user_metadata_str) {
        return Err(FacadeError::Validation);
    }
    let meta = user_metadata_str.to_owned();
    handle.create(repo, serialization_format, ontology_tag, Some(meta))
}

/// What the delete of a topic means.
pub open spec fn delete_post(
    pre: CatalogState,
    post: CatalogState,
    name: Seq<char>,
    r: Result<(), FacadeError>,
) -> bool {
    let levels = locator_levels(name);
    let sid = named_seq_id(pre, levels.0);
    let tid = topic_id_in(pre, sid, levels.1);
    match r {
        Ok(()) => {
            &&& valid_topic_locator(name)
            &&& pre.seq_named(levels.0)
            &&& pre.topic_in(sid, levels.1)
            &&& post.topics@ == topics_without_id(pre.topics@, tid)
            &&& post.notifications@ == notifications_not_of(pre.notifications@, tid)
            &&& post.sequences@ == pre.sequences@
            &&& post.sessions@ == pre.sessions@
            &&& post.next_id == pre.next_id
            &&& post.wf()
        },
        Err(e) => {
            &&& post.same_as(pre)
            &&& match e {
                FacadeError::Validation => !valid_topic_locator(name),
                FacadeError::NotFound => valid_topic_locator(name) && (!pre.seq_named(levels.0)
                    || !pre.topic_in(sid, levels.1)),
                _ => false,
            }
        },
    }
}

/// Deletes a topic and its notification log.
pub fn delete(repo: &mut Repository, name: String) -> (r: Result<(), FacadeError>)
    requires
        old(repo).state.wf(),
    ensures
        final(repo).state.wf(),
        delete_post(old(repo).state, final(repo).state, name@, r),
{
    let locator = match TopicResourceLocator::parse_str(name.as_str()) {
        Ok(l) => l,
        Err(e) => {
            return Err(e);
        },
    };
    proof {
        lemma_levels_agree(name@, locator.sequence@, locator.name@);
    }
    let handle = FacadeTopic::new(locator);
    handle.delete(repo)
}

/// What appending a notification to a topic's log means.
pub open spec fn notify_create_post(
    pre: CatalogState,
    post: CatalogState,
    name: Seq<char>,
    notify_type: Seq<char>,
    msg: Seq<char>,
    r: Result<(), FacadeError>,
) -> bool {
    let levels = locator_levels(name);
    let sid = named_seq_id(pre, levels.0);
    let tid = topic_id_in(pre, sid, levels.1);
    match r {
        Ok(()) => {
            &&& valid_topic_locator(name)
            &&& pre.seq_named(levels.0)
            &&& pre.topic_in(sid, levels.1)
            &&& (notify_type_of_text(notify_type) matches Some(kind) && ({
                &&& post.notifications@ == pre.notifications@.push(post.notifications@.last())
                &&& post.notifications@.last().owning_resource_id == tid
                &&& post.notifications@.last().kind == kind
                &&& post.notifications@.last().message@ == msg
            }))
            &&& post.sequences@ == pre.sequences@
            &&& post.topics@ == pre.topics@
            &&& post.sessions@ == pre.sessions@
            &&& post.next_id == pre.next_id + 1
            &&& post.wf()
        },
        Err(e) => {
            &&& post.same_as(pre)
            &&& match e {
                FacadeError::Validation => !valid_topic_locator(name) || (valid_topic_locator(name)
                    && notify_type_of_text(notify_type) is None),
                FacadeError::NotFound => valid_topic_locator(name) && notify_type_of_text(
                    notify_type,
                ) is Some && (!pre.seq_named(levels.0) || !pre.topic_in(sid, levels.1)),
                FacadeError::RepositoryError => valid_topic_locator(name) && pre.next_id
                    == i32::MAX,
                _ => false,
            }
        },
    }
}

/// Creates a notification for a topic.
pub fn notify_create(
    repo: &mut Repository,
    name: String,
    notify_type: String,
    msg: String,
) -> (r: Result<(), FacadeError>)
    requires
        old(repo).state.wf(),
    ensures
        final(repo).state.wf(),
        notify_create_post(old(repo).state, final(repo).state, name@, notify_type@, msg@, r),
{
    let locator = match TopicResourceLocator::parse_str(name.as_str()) {
        Ok(l) => l,
        Err(e) => {
            return Err(e);
        },
    };
    proof {
        lemma_levels_agree(name@, locator.sequence@, locator.name@);
    }
    let handle = FacadeTopic::new(locator);
    let ntype = match NotifyType::parse_str(notify_type.as_str()) {
        Ok(t) => t,
        Err(e) => {
            return Err(e);
        },
    };
    handle.notify(repo, ntype, msg)
}

/// Lists all notifications for a topic, in creation order.
pub fn notify_list(repo: &Repository, name: String) -> (r: Result<
    Vec<NotificationRecord>,
    FacadeError,
>)
    requires
        repo.state.wf(),
    ensures
        match r {
            Ok(v) => ({
                let levels = locator_levels(name@);
                let sid = named_seq_id(repo.state, levels.0);
                &&& valid_topic_locator(name@)
                &&& repo.state.seq_named(levels.0)
                &&& repo.state.topic_in(sid, levels.1)
                &&& v@ == repo.state.notifications_of(topic_id_in(repo.state, sid, levels.1))
            }),
            Err(e) => match e {
                FacadeError::Validation => !valid_topic_locator(name@),
                FacadeError::NotFound => valid_topic_locator(name@) && ({
                    let levels = locator_levels(name@);
                    !repo.state.seq_named(levels.0) || !repo.state.topic_in(
                        named_seq_id(repo.state, levels.0),
                        levels.1,
                    )
                }),
                _ => false,
            },
        },
{
    let locator = match TopicResourceLocator::parse_str(name.as_str()) {
        Ok(l) => l,
        Err(e) => {
            return Err(e);
        },
    };
    proof {
        lemma_levels_agree(name@, locator.sequence@, locator.name@);
    }
    let handle = FacadeTopic::new(locator);
    handle.notify_list(repo)
}

/// What purging a topic's notifications means.
pub open spec fn notify_purge_post(
    pre: CatalogState,
    post: CatalogState,
    name: Seq<char>,
    r: Result<(), FacadeError>,
) -> bool {
    let levels = locator_levels(name);
    let sid = named_seq_id(pre, levels.0);
    let tid = topic_id_in(pre, sid, levels.1);
    match r {
        Ok(()) => {
            &&& valid_topic_locator(name)
            &&& pre.seq_named(levels.0)
            &&& pre.topic_in(sid, levels.1)
            &&& post.notifications@ == notifications_not_of(pre.notifications@, tid)
            &&& post.sequences@ == pre.sequences@
            &&& post.topics@ == pre.topics@
            &&& post.sessions@ == pre.sessions@
            &&& post.next_id == pre.next_id
            &&& post.wf()
        },
        Err(e) => {
            &&& post.same_as(pre)
            &&& match e {
                FacadeError::Validation => !valid_topic_locator(name),
                FacadeError::NotFound => valid_topic_locator(name) && (!pre.seq_named(levels.0)
                    || !pre.topic_in(sid, levels.1)),
                _ => false,
            }
        },
    }
}

/// Purges all notifications for a topic.
pub fn notify_purge(repo: &mut Repository, name: String) -> (r: Result<(), FacadeError>)
    requires
        old(repo).state.wf(),
    ensures
        final(repo).state.wf(),
        notify_purge_post(old(repo).state, final(repo).state, name@, r),
{
    let locator = match TopicResourceLocator::parse_str(name.as_str()) {
        Ok(l) => l,
        Err(e) => {
            return Err(e);
        },
    };
    proof {
        lemma_levels_agree(name@, locator.sequence@, locator.name@);
    }
    let handle = FacadeTopic::new(locator);
    handle.notify_purge(repo)
}

/// Gets system information for a topic.
pub fn system_info(repo: &Repository, name: String) -> (r: Result<TopicSystemInfo, FacadeError>)
    requires
        repo.state.wf(),
    ensures
        match r {
            Ok(info) => ({
                let levels = locator_levels(name@);
                let sid = named_seq_id(repo.state, levels.0);
                let tid = topic_id_in(repo.state, sid, levels.1);
                &&& valid_topic_locator(name@)
                &&& repo.state.seq_named(levels.0)
                &&& repo.state.topic_in(sid, levels.1)
                &&& info.resource.id == tid
                &&& info.notification_count == repo.state.notifications_of(tid).len()
            }),
            Err(e) => match e {
                FacadeError::Validation => !valid_topic_locator(name@),
                FacadeError::NotFound => valid_topic_locator(name@) && ({
                    let levels = locator_levels(name@);
                    !repo.state.seq_named(levels.0) || !repo.state.topic_in(
                        named_seq_id(repo.state, levels.0),
                        levels.1,
                    )
                }),
                _ => false,
            },
        },
{
    let locator = match TopicResourceLocator::parse_str(name.as_str()) {
        Ok(l) => l,
        Err(e) => {
            return Err(e);
        },
    };
    proof {
        lemma_levels_agree(name@, locator.sequence@, locator.name@);
    }
    let handle = FacadeTopic::new(locator);
    handle.system_info(repo)
}

} // verus!
