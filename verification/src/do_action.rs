//! The action dispatcher: the main entry point for inbound control-plane
//! requests, routing each action to its handler. Its contract restates,
//! per action, the handler's own relational postcondition.

use vstd::prelude::*;
use crate::actions::{sequence, session, topic};
use crate::errors::FacadeError;
use crate::facades::{SequenceSystemInfo, TopicSystemInfo};
use crate::ids::ResourceId;
use crate::records::NotificationRecord;
use crate::repo::{named_seq_id, topic_id_in, Repository};

verus! {

/// An inbound control-plane request, as the dispatcher receives it.
pub enum ActionRequest {
    SequenceCreate { name: String, user_metadata: String },
    SequenceDelete { name: String },
    SequenceAbort { name: String, key: String },
    SequenceNotifyCreate { name: String, notify_type: String, msg: String },
    SequenceNotifyList { name: String },
    SequenceNotifyPurge { name: String },
    SequenceSystemInfo { name: String },
    SessionCreate { name: String },
    SessionFinalize { key: String },
    TopicCreate {
        name: String,
        sequence_key: String,
        serialization_format: String,
        ontology_tag: String,
        user_metadata: String,
    },
    TopicDelete { name: String },
    TopicNotifyCreate { name: String, notify_type: String, msg: String },
    TopicNotifyList { name: String },
    TopicNotifyPurge { name: String },
    TopicSystemInfo { name: String },
}

/// The typed result of a dispatched action.
#[derive(Debug)]
pub enum ActionResponse {
    SequenceCreate(ResourceId),
    SequenceDelete,
    SequenceAbort,
    SequenceNotifyCreate,
    SequenceNotifyList(Vec<NotificationRecord>),
    SequenceNotifyPurge,
    SequenceSystemInfo(SequenceSystemInfo),
    SessionCreate(ResourceId),
    SessionFinalize,
    TopicCreate(ResourceId),
    TopicDelete,
    TopicNotifyCreate,
    TopicNotifyList(Vec<NotificationRecord>),
    TopicNotifyPurge,
    TopicSystemInfo(TopicSystemInfo),
}

/// Dispatches an action request to the appropriate handler and wraps its
/// typed result.
pub fn do_action(repo: &mut Repository, action: ActionRequest) -> (r: Result<
    ActionResponse,
    FacadeError,
>)
    requires
        old(repo).state.wf(),
    ensures
        final(repo).state.wf(),
        match action {
            ActionRequest::SequenceCreate { name, user_metadata } => match r {
                Ok(resp) => resp matches ActionResponse::SequenceCreate(rid)
                    && sequence::create_post(
                    old(repo).state,
                    final(repo).state,
                    name@,
                    user_metadata@,
                    Ok(rid),
                ),
                Err(e) => sequence::create_post(
                    old(repo).state,
                    final(repo).state,
                    name@,
                    user_metadata@,
                    Err(e),
                ),
            },
            ActionRequest::SequenceDelete { name } => match r {
                Ok(resp) => resp is SequenceDelete && sequence::delete_post(
                    old(repo).state,
                    final(repo).state,
                    name@,
                    Ok(()),
                ),
                Err(e) => sequence::delete_post(
                    old(repo).state,
                    final(repo).state,
                    name@,
                    Err(e),
                ),
            },
            ActionRequest::SequenceAbort { name, key } => match r {
                Ok(resp) => resp is SequenceAbort && sequence::abort_post(
                    old(repo).state,
                    final(repo).state,
                    name@,
                    key@,
                    Ok(()),
                ),
                Err(e) => sequence::abort_post(
                    old(repo).state,
                    final(repo).state,
                    name@,
                    key@,
                    Err(e),
                ),
            },
            ActionRequest::SequenceNotifyCreate { name, notify_type, msg } => match r {
                Ok(resp) => resp is SequenceNotifyCreate && sequence::notify_create_post(
                    old(repo).state,
                    final(repo).state,
                    name@,
                    notify_type@,
                    msg@,
                    Ok(()),
                ),
                Err(e) => sequence::notify_create_post(
                    old(repo).state,
                    final(repo).state,
                    name@,
                    notify_type@,
                    msg@,
                    Err(e),
                ),
            },
            ActionRequest::SequenceNotifyList { name } => {
                &&& *final(repo) == *old(repo)
                &&& match r {
                    Ok(resp) => resp matches ActionResponse::SequenceNotifyList(v)
                        && old(repo).state.seq_named(name@) && v@
                        == old(repo).state.notifications_of(named_seq_id(old(repo).state, name@)),
                    Err(e) => e == FacadeError::NotFound && !old(repo).state.seq_named(name@),
                }
            },
            ActionRequest::SequenceNotifyPurge { name } => match r {
                Ok(resp) => resp is SequenceNotifyPurge && sequence::notify_purge_post(
                    old(repo).state,
                    final(repo).state,
                    name@,
                    Ok(()),
                ),
                Err(e) => sequence::notify_purge_post(
                    old(repo).state,
                    final(repo).state,
                    name@,
                    Err(e),
                ),
            },
            ActionRequest::SequenceSystemInfo { name } => {
                &&& *final(repo) == *old(repo)
                &&& match r {
                    Ok(resp) => resp matches ActionResponse::SequenceSystemInfo(info) && ({
                        let sid = named_seq_id(old(repo).state, name@);
                        &&& old(repo).state.seq_named(name@)
                        &&& info.resource.id == sid
                        &&& info.topic_count == crate::repo::topics_of(
                            old(repo).state.topics@,
                            sid,
                        ).len()
                        &&& info.session_count == crate::repo::sessions_of(
                            old(repo).state.sessions@,
                            sid,
                        ).len()
                        &&& info.notification_count == old(repo).state.notifications_of(sid).len()
                    }),
                    Err(e) => e == FacadeError::NotFound && !old(repo).state.seq_named(name@),
                }
            },
            ActionRequest::SessionCreate { name } => match r {
                Ok(resp) => resp matches ActionResponse::SessionCreate(rid)
                    && session::create_post(old(repo).state, final(repo).state, name@, Ok(rid)),
                Err(e) => session::create_post(old(repo).state, final(repo).state, name@, Err(e)),
            },
            ActionRequest::SessionFinalize { key } => match r {
                Ok(resp) => resp is SessionFinalize && session::finalize_post(
                    old(repo).state,
                    final(repo).state,
                    key@,
                    Ok(()),
                ),
                Err(e) => session::finalize_post(
                    old(repo).state,
                    final(repo).state,
                    key@,
                    Err(e),
                ),
            },
            ActionRequest::TopicCreate {
                name,
                sequence_key,
                serialization_format,
                ontology_tag,
                user_metadata,
            } => match r {
                Ok(resp) => resp matches ActionResponse::TopicCreate(rid) && topic::create_post(
                    old(repo).state,
                    final(repo).state,
                    name@,
                    sequence_key@,
                    serialization_format@,
                    ontology_tag@,
                    user_metadata@,
                    Ok(rid),
                ),
                Err(e) => topic::create_post(
                    old(repo).state,
                    final(repo).state,
                    name@,
                    sequence_key@,
                    serialization_format@,
                    ontology_tag@,
                    user_metadata@,
                    Err(e),
                ),
            },
            ActionRequest::TopicDelete { name } => match r {
                Ok(resp) => resp is TopicDelete && topic::delete_post(
                    old(repo).state,
                    final(repo).state,
                    name@,
                    Ok(()),
                ),
                Err(e) => topic::delete_post(old(repo).state, final(repo).state, name@, Err(e)),
            },
            ActionRequest::TopicNotifyCreate { name, notify_type, msg } => match r {
                Ok(resp) => resp is TopicNotifyCreate && topic::notify_create_post(
                    old(repo).state,
                    final(repo).state,
                    name@,
                    notify_type@,
                    msg@,
                    Ok(()),
                ),
                Err(e) => topic::notify_create_post(
                    old(repo).state,
                    final(repo).state,
                    name@,
                    notify_type@,
                    msg@,
                    Err(e),
                ),
            },
            ActionRequest::TopicNotifyList { name } => {
                &&& *final(repo) == *old(repo)
                &&& match r {
                    Ok(resp) => resp matches ActionResponse::TopicNotifyList(v) && ({
                        let levels = topic::locator_levels(name@);
                        let sid = named_seq_id(old(repo).state, levels.0);
                        &&& crate::locator::valid_topic_locator(name@)
                        &&& old(repo).state.seq_named(levels.0)
                        &&& old(repo).state.topic_in(sid, levels.1)
                        &&& v@ == old(repo).state.notifications_of(
                            topic_id_in(old(repo).state, sid, levels.1),
                        )
                    }),
                    Err(e) => match e {
                        FacadeError::Validation => !crate::locator::valid_topic_locator(name@),
                        FacadeError::NotFound => crate::locator::valid_topic_locator(name@) && ({
                            let levels = topic::locator_levels(name@);
                            !old(repo).state.seq_named(levels.0) || !old(repo).state.topic_in(
                                named_seq_id(old(repo).state, levels.0),
                                levels.1,
                            )
                        }),
                        _ => false,
                    },
                }
            },
            ActionRequest::TopicNotifyPurge { name } => match r {
                Ok(resp) => resp is TopicNotifyPurge && topic::notify_purge_post(
                    old(repo).state,
                    final(repo).state,
                    name@,
                    Ok(()),
                ),
                Err(e) => topic::notify_purge_post(
                    old(repo).state,
                    final(repo).state,
                    name@,
                    Err(e),
                ),
            },
            ActionRequest::TopicSystemInfo { name } => {
                &&& *final(repo) == *old(repo)
                &&& match r {
                    Ok(resp) => resp matches ActionResponse::TopicSystemInfo(info) && ({
                        let levels = topic::locator_levels(name@);
                        let sid = named_seq_id(old(repo).state, levels.0);
                        let tid = topic_id_in(old(repo).state, sid, levels.1);
                        &&& crate::locator::valid_topic_locator(name@)
                        &&& old(repo).state.seq_named(levels.0)
                        &&& old(repo).state.topic_in(sid, levels.1)
                        &&& info.resource.id == tid
                        &&& info.notification_count == old(repo).state.notifications_of(tid).len()
                    }),
                    Err(e) => match e {
                        FacadeError::Validation => !crate::locator::valid_topic_locator(name@),
                        FacadeError::NotFound => crate::locator::valid_topic_locator(name@) && ({
                            let levels = topic::locator_levels(name@);
                            !old(repo).state.seq_named(levels.0) || !old(repo).state.topic_in(
                                named_seq_id(old(repo).state, levels.0),
                                levels.1,
                            )
                        }),
                        _ => false,
                    },
                }
            },
        },
{
    match action {
        ActionRequest::SequenceCreate { name, user_metadata } => {
            match sequence::create(repo, name, user_metadata.as_str()) {
                Ok(rid) => Ok(ActionResponse::SequenceCreate(rid)),
                Err(e) => Err(e),
            }
        },
        ActionRequest::SequenceDelete { name } => {
            match sequence::delete(repo, name) {
                Ok(()) => Ok(ActionResponse::SequenceDelete),
                Err(e) => Err(e),
            }
        },
        ActionRequest::SequenceAbort { name, key } => {
            match sequence::abort(repo, name, key) {
                Ok(()) => Ok(ActionResponse::SequenceAbort),
                Err(e) => Err(e),
            }
        },
        ActionRequest::SequenceNotifyCreate { name, notify_type, msg } => {
            match sequence::notify_create(repo, name, notify_type, msg) {
                Ok(()) => Ok(ActionResponse::SequenceNotifyCreate),
                Err(e) => Err(e),
            }
        },
        ActionRequest::SequenceNotifyList { name } => {
            match sequence::notify_list(&*repo, name) {
                Ok(v) => Ok(ActionResponse::SequenceNotifyList(v)),
                Err(e) => Err(e),
            }
        },
        ActionRequest::SequenceNotifyPurge { name } => {
            match sequence::notify_purge(repo, name) {
                Ok(()) => Ok(ActionResponse::SequenceNotifyPurge),
                Err(e) => Err(e),
            }
        },
        ActionRequest::SequenceSystemInfo { name } => {
            match sequence::system_info(&*repo, name) {
                Ok(info) => Ok(ActionResponse::SequenceSystemInfo(info)),
                Err(e) => Err(e),
            }
        },
        ActionRequest::SessionCreate { name } => {
            match session::create(repo, name) {
                Ok(rid) => Ok(ActionResponse::SessionCreate(rid)),
                Err(e) => Err(e),
            }
        },
        ActionRequest::SessionFinalize { key } => {
            match session::finalize(repo, key) {
                Ok(()) => Ok(ActionResponse::SessionFinalize),
                Err(e) => Err(e),
            }
        },
        ActionRequest::TopicCreate {
            name,
            sequence_key,
            serialization_format,
            ontology_tag,
            user_metadata,
        } => {
            match topic::create(
                repo,
                name,
                sequence_key,
                serialization_format,
                ontology_tag,
                user_metadata.as_str(),
            ) {
                Ok(rid) => Ok(ActionResponse::TopicCreate(rid)),
                Err(e) => Err(e),
            }
        },
        ActionRequest::TopicDelete { name } => {
            match topic::delete(repo, name) {
                Ok(()) => Ok(ActionResponse::TopicDelete),
                Err(e) => Err(e),
            }
        },
        ActionRequest::TopicNotifyCreate { name, notify_type, msg } => {
            match topic::notify_create(repo, name, notify_type, msg) {
                Ok(()) => Ok(ActionResponse::TopicNotifyCreate),
                Err(e) => Err(e),
            }
        },
        ActionRequest::TopicNotifyList { name } => {
            match topic::notify_list(&*repo, name) {
                Ok(v) => Ok(ActionResponse::TopicNotifyList(v)),
                Err(e) => Err(e),
            }
        },
        ActionRequest::TopicNotifyPurge { name } => {
            match topic::notify_purge(repo, name) {
                Ok(()) => Ok(ActionResponse::TopicNotifyPurge),
                Err(e) => Err(e),
            }
        },
        ActionRequest::TopicSystemInfo { name } => {
            match topic::system_info(&*repo, name) {
                Ok(info) => Ok(ActionResponse::TopicSystemInfo(info)),
                Err(e) => Err(e),
            }
        },
    }
}

} // verus!
