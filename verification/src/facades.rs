//! The facade layer: one facade per resource kind, each binding one lookup
//! or locator to transactional operations against the repository. A facade
//! operation opens one transaction, performs its existence and state
//! checks, mutates the repository, and commits — or returns the first
//! typed error, upon which the transaction is dropped and nothing changes.

use vstd::prelude::*;
use crate::errors::FacadeError;
use crate::ids::{DataLossToken, ResourceId, ResourceLookup, Timestamp};
use crate::locator::{SequenceResourceLocator, TopicResourceLocator};
use crate::records::{NotificationRecord, NotifyType, SequenceRecord, SessionRecord, TopicRecord};
use crate::repo::{
    lookup_matches_seq, named_seq_id, notification_create, notification_list, notification_purge,
    notifications_not_of, seq_lookup_hits, sequence_create, sequence_delete,
    sequence_find_by_locator, sequence_lookup, sequences_not_named, session_create,
    session_finalize, sessions_of_other, locked_version, topic_create, topic_delete, topic_find,
    topics_of, topics_of_other, topics_without_id, notifications_surviving, Repository,
};

verus! {

/// A read-only summary of a sequence: counts and timestamps, no mutation.
#[derive(Debug)]
pub struct SequenceSystemInfo {
    pub resource: ResourceId,
    pub topic_count: usize,
    pub session_count: usize,
    pub notification_count: usize,
    pub creation_unix_tstamp: i64,
}

/// A read-only summary of a topic.
#[derive(Debug)]
pub struct TopicSystemInfo {
    pub resource: ResourceId,
    pub notification_count: usize,
    pub creation_unix_tstamp: i64,
}

/// A high-level facade for managing one sequence, addressed by its name.
pub struct FacadeSequence {
    /// The locator this facade operates on.
    pub locator: SequenceResourceLocator,
}

impl FacadeSequence {
    /// Binds a facade to a sequence name, as stored text.
    pub fn new(locator: String) -> (r: FacadeSequence)
        ensures
            r.locator.name == locator,
    {
        FacadeSequence { locator: SequenceResourceLocator::from_name(locator) }
    }

    /// Resolves the bound locator to the canonical persisted identity.
    pub fn resource_id(&self, repo: &Repository) -> (r: Result<ResourceId, FacadeError>)
        ensures
            match r {
                Ok(rid) => exists|i: int|
                    0 <= i < repo.state.sequences@.len()
                        && (#[trigger] repo.state.sequences@[i]).locator_name@
                        == self.locator.name@ && repo.state.sequences@[i].sequence_id == rid.id
                        && repo.state.sequences@[i].sequence_uuid == rid.uuid,
                Err(e) => e == FacadeError::NotFound && !repo.state.seq_named(self.locator.name@),
            },
    {
        let tx = repo.transaction();
        match sequence_find_by_locator(&tx, &self.locator) {
            Ok(rec) => {
                proof {
                    let k = choose|k: int|
                        0 <= k < tx.work.sequences@.len() && tx.work.sequences@[k] == rec;
                    assert((#[trigger] repo.state.sequences@[k]).locator_name@
                        == self.locator.name@);
                }
                Ok(ResourceId { id: rec.sequence_id, uuid: rec.sequence_uuid })
            },
            Err(e) => Err(e),
        }
    }

    /// Inserts a new sequence under the bound name with a freshly generated
    /// valid identifier and the current timestamp. Fails `AlreadyExists` if
    /// the name is taken — at most one creation of a name ever succeeds —
    /// and `RepositoryError` only on an identifier collision or an
    /// exhausted id counter.
    pub fn create(&self, repo: &mut Repository, user_metadata: Option<String>) -> (r: Result<
        ResourceId,
        FacadeError,
    >)
        requires
            old(repo).state.wf(),
        ensures
            final(repo).state.wf(),
            match r {
                Ok(rid) => {
                    &&& !old(repo).state.seq_named(self.locator.name@)
                    &&& rid.uuid.valid()
                    &&& rid.id == old(repo).state.next_id
                    &&& final(repo).state.sequences@ == old(repo).state.sequences@.push(
                        final(repo).state.sequences@.last(),
                    )
                    &&& final(repo).state.sequences@.last().sequence_id == rid.id
                    &&& final(repo).state.sequences@.last().sequence_uuid == rid.uuid
                    &&& final(repo).state.sequences@.last().locator_name@ == self.locator.name@
                    &&& final(repo).state.sequences@.last().user_metadata == user_metadata
                    &&& final(repo).state.next_id == old(repo).state.next_id + 1
                    &&& final(repo).state.topics@ == old(repo).state.topics@
                    &&& final(repo).state.sessions@ == old(repo).state.sessions@
                    &&& final(repo).state.notifications@ == old(repo).state.notifications@
                },
                Err(e) => {
                    &&& *final(repo) == *old(repo)
                    &&& match e {
                        FacadeError::AlreadyExists => old(repo).state.seq_named(
                            self.locator.name@,
                        ),
                        FacadeError::RepositoryError => !old(repo).state.seq_named(
                            self.locator.name@,
                        ) && (old(repo).state.next_id == i32::MAX
                            || old(repo).state.sequences@.len() > 0),
                        _ => false,
                    }
                },
            },
    {
        let mut record = SequenceRecord::new(self.locator.name());
        record.user_metadata = user_metadata;
        let mut tx = repo.transaction();
        match sequence_create(&mut tx, &record) {
            Ok(out) => {
                let rid = ResourceId { id: out.sequence_id, uuid: out.sequence_uuid };
                let _ = repo.commit(tx);
                Ok(rid)
            },
            Err(e) => Err(e),
        }
    }

    /// Checked delete: refuses to remove a sequence that still owns topics
    /// or sessions, surfacing the dependent state as `Locked`; otherwise
    /// removes the sequence record and its notification log transactionally.
    pub fn delete(&self, repo: &mut Repository) -> (r: Result<(), FacadeError>)
        requires
            old(repo).state.wf(),
        ensures
            final(repo).state.wf(),
            match r {
                Ok(()) => ({
                    let sid = named_seq_id(old(repo).state, self.locator.name@);
                    &&& old(repo).state.seq_named(self.locator.name@)
                    &&& !old(repo).state.has_topic_of(sid)
                    &&& !old(repo).state.session_of(sid)
                    &&& final(repo).state.sequences@ == sequences_not_named(
                        old(repo).state.sequences@,
                        self.locator.name@,
                    )
                    &&& final(repo).state.topics@ == topics_of_other(old(repo).state.topics@, sid)
                    &&& final(repo).state.sessions@ == sessions_of_other(
                        old(repo).state.sessions@,
                        sid,
                    )
                    &&& final(repo).state.notifications@ == notifications_surviving(
                        old(repo).state.notifications@,
                        old(repo).state.topics@,
                        sid,
                    )
                    &&& final(repo).state.next_id == old(repo).state.next_id
                }),
                Err(e) => {
                    &&& *final(repo) == *old(repo)
                    &&& match e {
                        FacadeError::NotFound => !old(repo).state.seq_named(self.locator.name@),
                        FacadeError::Locked => old(repo).state.seq_named(self.locator.name@) && ({
                            let sid = named_seq_id(old(repo).state, self.locator.name@);
                            old(repo).state.has_topic_of(sid) || old(repo).state.session_of(sid)
                        }),
                        _ => false,
                    }
                },
            },
    {
        let mut tx = repo.transaction();
        let rec = match sequence_find_by_locator(&tx, &self.locator) {
            Ok(rec) => rec,
            Err(e) => {
                return Err(e);
            },
        };
        proof {
            crate::repo::lemma_named_seq_id_agrees(tx.work, self.locator.name@, rec);
        }
        if crate::repo::topic_of_seq_present(&tx, rec.sequence_id) || crate::repo::session_of_present(
            &tx,
            rec.sequence_id,
        ) {
            return Err(FacadeError::Locked);
        }
        match sequence_delete(&mut tx, &self.locator, DataLossToken::acknowledge_data_loss()) {
            Ok(()) => {
                let _ = repo.commit(tx);
                Ok(())
            },
            Err(e) => Err(e),
        }
    }

    /// Unconditional delete by locator, ignoring all state checks: the
    /// sequence, its topics, its sessions, and their notifications go.
    /// Requires the capability token; intended for administrative recovery.
    /// Succeeds whether or not the name resolves.
    pub fn delete_bypass(&self, repo: &mut Repository, token: DataLossToken) -> (r: Result<
        (),
        FacadeError,
    >)
        requires
            old(repo).state.wf(),
        ensures
            final(repo).state.wf(),
            r is Ok,
            !old(repo).state.seq_named(self.locator.name@) ==> final(repo).state.same_as(
                old(repo).state,
            ),
            old(repo).state.seq_named(self.locator.name@) ==> ({
                let sid = named_seq_id(old(repo).state, self.locator.name@);
                &&& final(repo).state.sequences@ == sequences_not_named(
                    old(repo).state.sequences@,
                    self.locator.name@,
                )
                &&& final(repo).state.topics@ == topics_of_other(old(repo).state.topics@, sid)
                &&& final(repo).state.sessions@ == sessions_of_other(
                    old(repo).state.sessions@,
                    sid,
                )
                &&& final(repo).state.notifications@ == notifications_surviving(
                    old(repo).state.notifications@,
                    old(repo).state.topics@,
                    sid,
                )
                &&& final(repo).state.next_id == old(repo).state.next_id
            }),
    {
        let mut tx = repo.transaction();
        match sequence_delete(&mut tx, &self.locator, token) {
            Ok(()) => {
                let _ = repo.commit(tx);
                Ok(())
            },
            Err(e) => Err(e),
        }
    }

    /// Appends a notification entry to this sequence's log.
    pub fn notify(&self, repo: &mut Repository, kind: NotifyType, msg: String) -> (r: Result<
        (),
        FacadeError,
    >)
        requires
            old(repo).state.wf(),
        ensures
            final(repo).state.wf(),
            match r {
                Ok(()) => ({
                    let sid = named_seq_id(old(repo).state, self.locator.name@);
                    &&& old(repo).state.seq_named(self.locator.name@)
                    &&& final(repo).state.notifications@ == old(repo).state.notifications@.push(
                        final(repo).state.notifications@.last(),
                    )
                    &&& final(repo).state.notifications@.last().owning_resource_id == sid
                    &&& final(repo).state.notifications@.last().kind == kind
                    &&& final(repo).state.notifications@.last().message == msg
                    &&& final(repo).state.sequences@ == old(repo).state.sequences@
                    &&& final(repo).state.topics@ == old(repo).state.topics@
                    &&& final(repo).state.sessions@ == old(repo).state.sessions@
                    &&& final(repo).state.next_id == old(repo).state.next_id + 1
                }),
                Err(e) => {
                    &&& *final(repo) == *old(repo)
                    &&& match e {
                        FacadeError::NotFound => !old(repo).state.seq_named(self.locator.name@),
                        FacadeError::RepositoryError => old(repo).state.seq_named(
                            self.locator.name@,
                        ) && old(repo).state.next_id == i32::MAX,
                        _ => false,
                    }
                },
            },
    {
        let mut tx = repo.transaction();
        let rec = match sequence_find_by_locator(&tx, &self.locator) {
            Ok(rec) => rec,
            Err(e) => {
                return Err(e);
            },
        };
        proof {
            crate::repo::lemma_named_seq_id_agrees(tx.work, self.locator.name@, rec);
        }
        let now = Timestamp::now();
        match notification_create(&mut tx, rec.sequence_id, kind, msg, now.as_millis()) {
            Ok(_) => {
                let _ = repo.commit(tx);
                Ok(())
            },
            Err(e) => Err(e),
        }
    }

    /// Lists this sequence's notifications, ordered by creation.
    pub fn notify_list(&self, repo: &Repository) -> (r: Result<
        Vec<NotificationRecord>,
        FacadeError,
    >)
        requires
            repo.state.wf(),
        ensures
            match r {
                Ok(v) => repo.state.seq_named(self.locator.name@) && v@
                    == repo.state.notifications_of(named_seq_id(repo.state, self.locator.name@)),
                Err(e) => e == FacadeError::NotFound && !repo.state.seq_named(self.locator.name@),
            },
    {
        let tx = repo.transaction();
        let rec = match sequence_find_by_locator(&tx, &self.locator) {
            Ok(rec) => rec,
            Err(e) => {
                return Err(e);
            },
        };
        proof {
            crate::repo::lemma_named_seq_id_agrees(tx.work, self.locator.name@, rec);
        }
        match notification_list(&tx, rec.sequence_id) {
            Ok(v) => Ok(v),
            Err(e) => Err(e),
        }
    }

    /// Deletes all of this sequence's notifications.
    pub fn notify_purge(&self, repo: &mut Repository) -> (r: Result<(), FacadeError>)
        requires
            old(repo).state.wf(),
        ensures
            final(repo).state.wf(),
            match r {
                Ok(()) => ({
                    let sid = named_seq_id(old(repo).state, self.locator.name@);
                    &&& old(repo).state.seq_named(self.locator.name@)
                    &&& final(repo).state.notifications@ == notifications_not_of(
                        old(repo).state.notifications@,
                        sid,
                    )
                    &&& final(repo).state.sequences@ == old(repo).state.sequences@
                    &&& final(repo).state.topics@ == old(repo).state.topics@
                    &&& final(repo).state.sessions@ == old(repo).state.sessions@
                    &&& final(repo).state.next_id == old(repo).state.next_id
                }),
                Err(e) => e == FacadeError::NotFound && !old(repo).state.seq_named(
                    self.locator.name@,
                ) && *final(repo) == *old(repo),
            },
    {
        let mut tx = repo.transaction();
        let rec = match sequence_find_by_locator(&tx, &self.locator) {
            Ok(rec) => rec,
            Err(e) => {
                return Err(e);
            },
        };
        proof {
            crate::repo::lemma_named_seq_id_agrees(tx.work, self.locator.name@, rec);
        }
        match notification_purge(&mut tx, rec.sequence_id) {
            Ok(()) => {
                let _ = repo.commit(tx);
                Ok(())
            },
            Err(e) => Err(e),
        }
    }

    /// A read-only summary of this sequence: its identity, its creation
    /// timestamp, and how many topics, sessions and notifications it owns.
    pub fn system_info(&self, repo: &Repository) -> (r: Result<SequenceSystemInfo, FacadeError>)
        requires
            repo.state.wf(),
        ensures
            match r {
                Ok(info) => ({
                    let sid = named_seq_id(repo.state, self.locator.name@);
                    &&& repo.state.seq_named(self.locator.name@)
                    &&& info.resource.id == sid
                    &&& info.topic_count == topics_of(repo.state.topics@, sid).len()
                    &&& info.session_count == crate::repo::sessions_of(
                        repo.state.sessions@,
                        sid,
                    ).len()
                    &&& info.notification_count == repo.state.notifications_of(sid).len()
                }),
                Err(e) => e == FacadeError::NotFound && !repo.state.seq_named(self.locator.name@),
            },
    {
        let tx = repo.transaction();
        let rec = match sequence_find_by_locator(&tx, &self.locator) {
            Ok(rec) => rec,
            Err(e) => {
                return Err(e);
            },
        };
        proof {
            crate::repo::lemma_named_seq_id_agrees(tx.work, self.locator.name@, rec);
        }
        let topic_count = crate::repo::count_topics_of(&tx, rec.sequence_id);
        let session_count = crate::repo::count_sessions_of(&tx, rec.sequence_id);
        let notification_count = crate::repo::count_notifications_of(&tx, rec.sequence_id);
        Ok(
            SequenceSystemInfo {
                resource: ResourceId { id: rec.sequence_id, uuid: rec.sequence_uuid },
                topic_count,
                session_count,
                notification_count,
                creation_unix_tstamp: rec.creation_unix_tstamp,
            },
        )
    }
}

/// A high-level facade for managing one topic, addressed by its two-level
/// locator.
pub struct FacadeTopic {
    /// The parsed locator this facade operates on.
    pub locator: TopicResourceLocator,
}

impl FacadeTopic {
    /// Binds a facade to a parsed topic locator.
    pub fn new(locator: TopicResourceLocator) -> (r: FacadeTopic)
        ensures
            r.locator.sequence == locator.sequence,
            r.locator.name == locator.name,
    {
        FacadeTopic { locator }
    }

    /// Resolves the bound locator to the canonical persisted identity:
    /// first the owning sequence by name, then the topic within it.
    pub fn resource_id(&self, repo: &Repository) -> (r: Result<ResourceId, FacadeError>)
        requires
            repo.state.wf(),
        ensures
            match r {
                Ok(rid) => ({
                    let sid = named_seq_id(repo.state, self.locator.sequence@);
                    &&& repo.state.seq_named(self.locator.sequence@)
                    &&& repo.state.topic_in(sid, self.locator.name@)
                    &&& rid.id == crate::repo::topic_id_in(repo.state, sid, self.locator.name@)
                }),
                Err(e) => e == FacadeError::NotFound && (!repo.state.seq_named(
                    self.locator.sequence@,
                ) || !repo.state.topic_in(
                    named_seq_id(repo.state, self.locator.sequence@),
                    self.locator.name@,
                )),
            },
    {
        let tx = repo.transaction();
        let loc = SequenceResourceLocator::from_name(self.locator.sequence.clone());
        let srec = match sequence_find_by_locator(&tx, &loc) {
            Ok(rec) => rec,
            Err(e) => {
                return Err(e);
            },
        };
        proof {
            crate::repo::lemma_named_seq_id_agrees(tx.work, self.locator.sequence@, srec);
        }
        match topic_find(&tx, srec.sequence_id, &self.locator.name) {
            Ok(trec) => {
                proof {
                    crate::repo::lemma_topic_id_agrees(
                        tx.work,
                        srec.sequence_id,
                        self.locator.name@,
                        trec,
                    );
                }
                Ok(ResourceId { id: trec.topic_id, uuid: trec.topic_uuid })
            },
            Err(e) => Err(e),
        }
    }

    /// Inserts a new topic under the bound locator: the owning sequence
    /// must exist, and the topic name must be free within it.
    pub fn create(
        &self,
        repo: &mut Repository,
        serialization_format: String,
        ontology_tag: String,
        user_metadata: Option<String>,
    ) -> (r: Result<ResourceId, FacadeError>)
        requires
            old(repo).state.wf(),
        ensures
            final(repo).state.wf(),
            match r {
                Ok(rid) => ({
                    let sid = named_seq_id(old(repo).state, self.locator.sequence@);
                    &&& old(repo).state.seq_named(self.locator.sequence@)
                    &&& !old(repo).state.topic_in(sid, self.locator.name@)
                    &&& rid.uuid.valid()
                    &&& rid.id == old(repo).state.next_id
                    &&& final(repo).state.topics@ == old(repo).state.topics@.push(
                        final(repo).state.topics@.last(),
                    )
                    &&& final(repo).state.topics@.last().topic_id == rid.id
                    &&& final(repo).state.topics@.last().topic_uuid == rid.uuid
                    &&& final(repo).state.topics@.last().sequence_id == sid
                    &&& final(repo).state.topics@.last().locator_name@ == self.locator.name@
                    &&& final(repo).state.topics@.last().serialization_format
                        == serialization_format
                    &&& final(repo).state.topics@.last().ontology_tag == ontology_tag
                    &&& final(repo).state.topics@.last().user_metadata == user_metadata
                    &&& final(repo).state.next_id == old(repo).state.next_id + 1
                    &&& final(repo).state.sequences@ == old(repo).state.sequences@
                    &&& final(repo).state.sessions@ == old(repo).state.sessions@
                    &&& final(repo).state.notifications@ == old(repo).state.notifications@
                }),
                Err(e) => {
                    &&& *final(repo) == *old(repo)
                    &&& match e {
                        FacadeError::NotFound => !old(repo).state.seq_named(
                            self.locator.sequence@,
                        ),
                        FacadeError::AlreadyExists => old(repo).state.seq_named(
                            self.locator.sequence@,
                        ) && old(repo).state.topic_in(
                            named_seq_id(old(repo).state, self.locator.sequence@),
                            self.locator.name@,
                        ),
                        FacadeError::RepositoryError => old(repo).state.seq_named(
                            self.locator.sequence@,
                        ) && !old(repo).state.topic_in(
                            named_seq_id(old(repo).state, self.locator.sequence@),
                            self.locator.name@,
                        ) && (old(repo).state.next_id == i32::MAX
                            || old(repo).state.topics@.len() > 0),
                        _ => false,
                    }
                },
            },
    {
        let mut tx = repo.transaction();
        let loc = SequenceResourceLocator::from_name(self.locator.sequence.clone());
        let srec = match sequence_find_by_locator(&tx, &loc) {
            Ok(rec) => rec,
            Err(e) => {
                return Err(e);
            },
        };
        proof {
            crate::repo::lemma_named_seq_id_agrees(tx.work, self.locator.sequence@, srec);
        }
        let mut record = TopicRecord::new(
            srec.sequence_id,
            self.locator.name.as_str(),
            serialization_format,
            ontology_tag,
        );
        record.user_metadata = user_metadata;
        match topic_create(&mut tx, &record) {
            Ok(out) => {
                let rid = ResourceId { id: out.topic_id, uuid: out.topic_uuid };
                let _ = repo.commit(tx);
                Ok(rid)
            },
            Err(e) => Err(e),
        }
    }

    /// Removes the topic record and its notification log transactionally.
    pub fn delete(&self, repo: &mut Repository) -> (r: Result<(), FacadeError>)
        requires
            old(repo).state.wf(),
        ensures
            final(repo).state.wf(),
            match r {
                Ok(()) => ({
                    let sid = named_seq_id(old(repo).state, self.locator.sequence@);
                    let tid = crate::repo::topic_id_in(old(repo).state, sid, self.locator.name@);
                    &&& old(repo).state.seq_named(self.locator.sequence@)
                    &&& old(repo).state.topic_in(sid, self.locator.name@)
                    &&& final(repo).state.topics@ == topics_without_id(
                        old(repo).state.topics@,
                        tid,
                    )
                    &&& final(repo).state.notifications@ == notifications_not_of(
                        old(repo).state.notifications@,
                        tid,
                    )
                    &&& final(repo).state.sequences@ == old(repo).state.sequences@
                    &&& final(repo).state.sessions@ == old(repo).state.sessions@
                    &&& final(repo).state.next_id == old(repo).state.next_id
                }),
                Err(e) => e == FacadeError::NotFound && *final(repo) == *old(repo) && (!old(
                    repo,
                ).state.seq_named(self.locator.sequence@) || !old(repo).state.topic_in(
                    named_seq_id(old(repo).state, self.locator.sequence@),
                    self.locator.name@,
                )),
            },
    {
        let mut tx = repo.transaction();
        let loc = SequenceResourceLocator::from_name(self.locator.sequence.clone());
        let srec = match sequence_find_by_locator(&tx, &loc) {
            Ok(rec) => rec,
            Err(e) => {
                return Err(e);
            },
        };
        proof {
            crate::repo::lemma_named_seq_id_agrees(tx.work, self.locator.sequence@, srec);
        }
        let trec = match topic_find(&tx, srec.sequence_id, &self.locator.name) {
            Ok(rec) => rec,
            Err(e) => {
                return Err(e);
            },
        };
        proof {
            crate::repo::lemma_topic_id_agrees(
                tx.work,
                srec.sequence_id,
                self.locator.name@,
                trec,
            );
        }
        match topic_delete(&mut tx, trec.topic_id) {
            Ok(()) => {
                let _ = repo.commit(tx);
                Ok(())
            },
            Err(e) => Err(e),
        }
    }

    /// Appends a notification entry to this topic's log.
    pub fn notify(&self, repo: &mut Repository, kind: NotifyType, msg: String) -> (r: Result<
        (),
        FacadeError,
    >)
        requires
            old(repo).state.wf(),
        ensures
            final(repo).state.wf(),
            match r {
                Ok(()) => ({
                    let sid = named_seq_id(old(repo).state, self.locator.sequence@);
                    let tid = crate::repo::topic_id_in(old(repo).state, sid, self.locator.name@);
                    &&& old(repo).state.seq_named(self.locator.sequence@)
                    &&& old(repo).state.topic_in(sid, self.locator.name@)
                    &&& final(repo).state.notifications@ == old(repo).state.notifications@.push(
                        final(repo).state.notifications@.last(),
                    )
                    &&& final(repo).state.notifications@.last().owning_resource_id == tid
                    &&& final(repo).state.notifications@.last().kind == kind
                    &&& final(repo).state.notifications@.last().message == msg
                    &&& final(repo).state.sequences@ == old(repo).state.sequences@
                    &&& final(repo).state.topics@ == old(repo).state.topics@
                    &&& final(repo).state.sessions@ == old(repo).state.sessions@
                    &&& final(repo).state.next_id == old(repo).state.next_id + 1
                }),
                Err(e) => {
                    &&& *final(repo) == *old(repo)
                    &&& match e {
                        FacadeError::NotFound => !old(repo).state.seq_named(
                            self.locator.sequence@,
                        ) || !old(repo).state.topic_in(
                            named_seq_id(old(repo).state, self.locator.sequence@),
                            self.locator.name@,
                        ),
                        FacadeError::RepositoryError => old(repo).state.next_id == i32::MAX,
                        _ => false,
                    }
                },
            },
    {
        let mut tx = repo.transaction();
        let loc = SequenceResourceLocator::from_name(self.locator.sequence.clone());
        let srec = match sequence_find_by_locator(&tx, &loc) {
            Ok(rec) => rec,
            Err(e) => {
                return Err(e);
            },
        };
        proof {
            crate::repo::lemma_named_seq_id_agrees(tx.work, self.locator.sequence@, srec);
        }
        let trec = match topic_find(&tx, srec.sequence_id, &self.locator.name) {
            Ok(rec) => rec,
            Err(e) => {
                return Err(e);
            },
        };
        proof {
            crate::repo::lemma_topic_id_agrees(
                tx.work,
                srec.sequence_id,
                self.locator.name@,
                trec,
            );
        }
        let now = Timestamp::now();
        match notification_create(&mut tx, trec.topic_id, kind, msg, now.as_millis()) {
            Ok(_) => {
                let _ = repo.commit(tx);
                Ok(())
            },
            Err(e) => Err(e),
        }
    }

    /// Lists this topic's notifications, ordered by creation.
    pub fn notify_list(&self, repo: &Repository) -> (r: Result<
        Vec<NotificationRecord>,
        FacadeError,
    >)
        requires
            repo.state.wf(),
        ensures
            match r {
                Ok(v) => ({
                    let sid = named_seq_id(repo.state, self.locator.sequence@);
                    &&& repo.state.seq_named(self.locator.sequence@)
                    &&& repo.state.topic_in(sid, self.locator.name@)
                    &&& v@ == repo.state.notifications_of(
                        crate::repo::topic_id_in(repo.state, sid, self.locator.name@),
                    )
                }),
                Err(e) => e == FacadeError::NotFound && (!repo.state.seq_named(
                    self.locator.sequence@,
                ) || !repo.state.topic_in(
                    named_seq_id(repo.state, self.locator.sequence@),
                    self.locator.name@,
                )),
            },
    {
        let tx = repo.transaction();
        let loc = SequenceResourceLocator::from_name(self.locator.sequence.clone());
        let srec = match sequence_find_by_locator(&tx, &loc) {
            Ok(rec) => rec,
            Err(e) => {
                return Err(e);
            },
        };
        proof {
            crate::repo::lemma_named_seq_id_agrees(tx.work, self.locator.sequence@, srec);
        }
        let trec = match topic_find(&tx, srec.sequence_id, &self.locator.name) {
            Ok(rec) => rec,
            Err(e) => {
                return Err(e);
            },
        };
        proof {
            crate::repo::lemma_topic_id_agrees(
                tx.work,
                srec.sequence_id,
                self.locator.name@,
                trec,
            );
        }
        notification_list(&tx, trec.topic_id)
    }

    /// Deletes all of this topic's notifications.
    pub fn notify_purge(&self, repo: &mut Repository) -> (r: Result<(), FacadeError>)
        requires
            old(repo).state.wf(),
        ensures
            final(repo).state.wf(),
            match r {
                Ok(()) => ({
                    let sid = named_seq_id(old(repo).state, self.locator.sequence@);
                    let tid = crate::repo::topic_id_in(old(repo).state, sid, self.locator.name@);
                    &&& old(repo).state.seq_named(self.locator.sequence@)
                    &&& old(repo).state.topic_in(sid, self.locator.name@)
                    &&& final(repo).state.notifications@ == notifications_not_of(
                        old(repo).state.notifications@,
                        tid,
                    )
                    &&& final(repo).state.sequences@ == old(repo).state.sequences@
                    &&& final(repo).state.topics@ == old(repo).state.topics@
                    &&& final(repo).state.sessions@ == old(repo).state.sessions@
                    &&& final(repo).state.next_id == old(repo).state.next_id
                }),
                Err(e) => e == FacadeError::NotFound && *final(repo) == *old(repo) && (!old(
                    repo,
                ).state.seq_named(self.locator.sequence@) || !old(repo).state.topic_in(
                    named_seq_id(old(repo).state, self.locator.sequence@),
                    self.locator.name@,
                )),
            },
    {
        let mut tx = repo.transaction();
        let loc = SequenceResourceLocator::from_name(self.locator.sequence.clone());
        let srec = match sequence_find_by_locator(&tx, &loc) {
            Ok(rec) => rec,
            Err(e) => {
                return Err(e);
            },
        };
        proof {
            crate::repo::lemma_named_seq_id_agrees(tx.work, self.locator.sequence@, srec);
        }
        let trec = match topic_find(&tx, srec.sequence_id, &self.locator.name) {
            Ok(rec) => rec,
            Err(e) => {
                return Err(e);
            },
        };
        proof {
            crate::repo::lemma_topic_id_agrees(
                tx.work,
                srec.sequence_id,
                self.locator.name@,
                trec,
            );
        }
        match notification_purge(&mut tx, trec.topic_id) {
            Ok(()) => {
                let _ = repo.commit(tx);
                Ok(())
            },
            Err(e) => Err(e),
        }
    }

    /// A read-only summary of this topic.
    pub fn system_info(&self, repo: &Repository) -> (r: Result<TopicSystemInfo, FacadeError>)
        requires
            repo.state.wf(),
        ensures
            match r {
                Ok(info) => ({
                    let sid = named_seq_id(repo.state, self.locator.sequence@);
                    let tid = crate::repo::topic_id_in(repo.state, sid, self.locator.name@);
                    &&& repo.state.seq_named(self.locator.sequence@)
                    &&& repo.state.topic_in(sid, self.locator.name@)
                    &&& info.resource.id == tid
                    &&& info.notification_count == repo.state.notifications_of(tid).len()
                }),
                Err(e) => e == FacadeError::NotFound && (!repo.state.seq_named(
                    self.locator.sequence@,
                ) || !repo.state.topic_in(
                    named_seq_id(repo.state, self.locator.sequence@),
                    self.locator.name@,
                )),
            },
    {
        let tx = repo.transaction();
        let loc = SequenceResourceLocator::from_name(self.locator.sequence.clone());
        let srec = match sequence_find_by_locator(&tx, &loc) {
            Ok(rec) => rec,
            Err(e) => {
                return Err(e);
            },
        };
        proof {
            crate::repo::lemma_named_seq_id_agrees(tx.work, self.locator.sequence@, srec);
        }
        let trec = match topic_find(&tx, srec.sequence_id, &self.locator.name) {
            Ok(rec) => rec,
            Err(e) => {
                return Err(e);
            },
        };
        proof {
            crate::repo::lemma_topic_id_agrees(
                tx.work,
                srec.sequence_id,
                self.locator.name@,
                trec,
            );
        }
        let notification_count = crate::repo::count_notifications_of(&tx, trec.topic_id);
        Ok(
            TopicSystemInfo {
                resource: ResourceId { id: trec.topic_id, uuid: trec.topic_uuid },
                notification_count,
                creation_unix_tstamp: trec.creation_unix_tstamp,
            },
        )
    }
}

/// A high-level facade for creating and finalizing upload sessions,
/// bound to the owning sequence's lookup (for `create`) or to the
/// session's own identifier (for `finalize`).
pub struct FacadeSession {
    /// The lookup identifier for the resource this facade operates on.
    pub lookup: ResourceLookup,
}

impl FacadeSession {
    /// Creates a new [`FacadeSession`] for a given sequence.
    pub fn new(sequence_lookup: ResourceLookup) -> (r: FacadeSession)
        ensures
            r.lookup == sequence_lookup,
    {
        FacadeSession { lookup: sequence_lookup }
    }

    /// Creates a new session record for the target sequence: unlocked,
    /// freshly identified, current timestamp. Sessions of one sequence are
    /// not mutually exclusive: any number of creations succeed
    /// independently.
    pub fn create(&self, repo: &mut Repository) -> (r: Result<ResourceId, FacadeError>)
        requires
            old(repo).state.wf(),
        ensures
            final(repo).state.wf(),
            match r {
                Ok(rid) => {
                    &&& seq_lookup_hits(old(repo).state, self.lookup)
                    &&& rid.uuid.valid()
                    &&& rid.id == old(repo).state.next_id
                    &&& final(repo).state.sessions@ == old(repo).state.sessions@.push(
                        final(repo).state.sessions@.last(),
                    )
                    &&& final(repo).state.sessions@.last().session_id == rid.id
                    &&& final(repo).state.sessions@.last().session_uuid == rid.uuid
                    &&& !final(repo).state.sessions@.last().locked
                    &&& final(repo).state.sessions@.last().completion_unix_tstamp is None
                    &&& exists|i: int|
                        0 <= i < old(repo).state.sequences@.len() && lookup_matches_seq(
                            self.lookup,
                            #[trigger] old(repo).state.sequences@[i],
                        ) && final(repo).state.sessions@.last().sequence_id
                            == old(repo).state.sequences@[i].sequence_id
                    &&& final(repo).state.next_id == old(repo).state.next_id + 1
                    &&& final(repo).state.sequences@ == old(repo).state.sequences@
                    &&& final(repo).state.topics@ == old(repo).state.topics@
                    &&& final(repo).state.notifications@ == old(repo).state.notifications@
                },
                Err(e) => {
                    &&& *final(repo) == *old(repo)
                    &&& match e {
                        FacadeError::NotFound => !seq_lookup_hits(old(repo).state, self.lookup),
                        FacadeError::RepositoryError => seq_lookup_hits(
                            old(repo).state,
                            self.lookup,
                        ) && (old(repo).state.next_id == i32::MAX
                            || old(repo).state.sessions@.len() > 0),
                        _ => false,
                    }
                },
            },
    {
        let mut tx = repo.transaction();
        let srecord = match sequence_lookup(&tx, &self.lookup) {
            Ok(rec) => rec,
            Err(e) => {
                return Err(e);
            },
        };
        proof {
            let k = choose|k: int|
                0 <= k < tx.work.sequences@.len() && tx.work.sequences@[k] == srecord;
            assert(lookup_matches_seq(self.lookup, (#[trigger] old(repo).state.sequences@[k])));
        }
        let record = SessionRecord::new(srecord.sequence_id);
        match session_create(&mut tx, &record) {
            Ok(out) => {
                let rid = out.resource_id();
                let _ = repo.commit(tx);
                Ok(rid)
            },
            Err(e) => Err(e),
        }
    }

    /// Finalizes the session, making it and all its associated data
    /// immutable: the one-way `Open` to `Locked` transition, guarded by the
    /// current lock state so that of any number of concurrent attempts
    /// exactly one succeeds. The session is addressed by its own
    /// identifier; any other lookup form is a `Validation` error.
    pub fn finalize(&self, repo: &mut Repository) -> (r: Result<(), FacadeError>)
        requires
            old(repo).state.wf(),
        ensures
            final(repo).state.wf(),
            match r {
                Ok(()) => {
                    &&& self.lookup matches ResourceLookup::Uuid(u) && (exists|i: int, t: i64|
                        #![trigger old(repo).state.sessions@.update(i, locked_version(old(repo).state.sessions@[i], t))]
                        {
                            &&& 0 <= i < old(repo).state.sessions@.len()
                            &&& old(repo).state.sessions@[i].session_uuid == u
                            &&& !old(repo).state.sessions@[i].locked
                            &&& t >= 0
                            &&& final(repo).state.sessions@ == old(repo).state.sessions@.update(
                                i,
                                locked_version(old(repo).state.sessions@[i], t),
                            )
                        })
                    &&& final(repo).state.next_id == old(repo).state.next_id
                    &&& final(repo).state.sequences@ == old(repo).state.sequences@
                    &&& final(repo).state.topics@ == old(repo).state.topics@
                    &&& final(repo).state.notifications@ == old(repo).state.notifications@
                },
                Err(e) => {
                    &&& *final(repo) == *old(repo)
                    &&& match e {
                        FacadeError::Validation => !(self.lookup is Uuid),
                        FacadeError::NotFound => self.lookup matches ResourceLookup::Uuid(u)
                            && !old(repo).state.session_with_uuid(u),
                        FacadeError::AlreadyLocked => self.lookup matches ResourceLookup::Uuid(u)
                            && exists|i: int|
                            0 <= i < old(repo).state.sessions@.len() && (
                            #[trigger] old(repo).state.sessions@[i]).session_uuid == u && old(
                            repo,
                        ).state.sessions@[i].locked,
                        _ => false,
                    }
                },
            },
    {
        let uuid = match &self.lookup {
            ResourceLookup::Uuid(u) => *u,
            _ => {
                return Err(FacadeError::Validation);
            },
        };
        let mut tx = repo.transaction();
        let now = Timestamp::now();
        match session_finalize(&mut tx, &uuid, now.as_millis()) {
            Ok(()) => {
                let _ = repo.commit(tx);
                Ok(())
            },
            Err(e) => Err(e),
        }
    }
}

} // verus!
