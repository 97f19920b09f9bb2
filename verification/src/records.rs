//! The persisted entities: sequences, topics, sessions and notifications.
//! A record is constructed in memory unregistered and unlocked; the store
//! assigns its integer id at first successful persistence, exactly once.

use vstd::prelude::*;
use crate::errors::FacadeError;
use crate::ids::{ResourceId, Timestamp, Uuid, UNREGISTERED};

verus! {

/// The root of the two-level hierarchy: owns topics and sessions. Its
/// `locator_name` is unique across all sequences.
#[derive(Debug)]
pub struct SequenceRecord {
    pub sequence_id: i32,
    pub sequence_uuid: Uuid,
    pub locator_name: String,
    pub creation_unix_tstamp: i64,
    /// Opaque user payload; validated as JSON where it enters from outside.
    pub user_metadata: Option<String>,
}

impl SequenceRecord {
    /// A new unregistered sequence record with a fresh valid identifier and
    /// the current timestamp.
    pub fn new(locator_name: &str) -> (r: SequenceRecord)
        ensures
            r.sequence_id == UNREGISTERED,
            r.sequence_uuid.valid(),
            r.locator_name@ == locator_name@,
            r.creation_unix_tstamp >= 0,
            r.user_metadata is None,
    {
        SequenceRecord {
            sequence_id: UNREGISTERED,
            sequence_uuid: Uuid::new(),
            locator_name: locator_name.to_owned(),
            creation_unix_tstamp: Timestamp::now().as_millis(),
            user_metadata: None,
        }
    }
}

impl Clone for SequenceRecord {
    fn clone(&self) -> (r: Self)
        ensures
            r == *self,
    {
        SequenceRecord {
            sequence_id: self.sequence_id,
            sequence_uuid: self.sequence_uuid,
            locator_name: self.locator_name.clone(),
            creation_unix_tstamp: self.creation_unix_tstamp,
            user_metadata: match &self.user_metadata {
                Some(m) => Some(m.clone()),
                None => None,
            },
        }
    }
}

/// A named sub-resource of a sequence. Its `locator_name` is unique within
/// the owning sequence.
#[derive(Debug)]
pub struct TopicRecord {
    pub topic_id: i32,
    pub topic_uuid: Uuid,
    /// The owning sequence's integer id.
    pub sequence_id: i32,
    /// The topic's own name, without the sequence prefix.
    pub locator_name: String,
    pub serialization_format: String,
    pub ontology_tag: String,
    pub creation_unix_tstamp: i64,
    pub user_metadata: Option<String>,
}

impl TopicRecord {
    /// A new unregistered topic record for the given owning sequence.
    pub fn new(
        sequence_id: i32,
        locator_name: &str,
        serialization_format: String,
        ontology_tag: String,
    ) -> (r: TopicRecord)
        ensures
            r.topic_id == UNREGISTERED,
            r.topic_uuid.valid(),
            r.sequence_id == sequence_id,
            r.locator_name@ == locator_name@,
            r.serialization_format == serialization_format,
            r.ontology_tag == ontology_tag,
            r.creation_unix_tstamp >= 0,
            r.user_metadata is None,
    {
        TopicRecord {
            topic_id: UNREGISTERED,
            topic_uuid: Uuid::new(),
            sequence_id,
            locator_name: locator_name.to_owned(),
            serialization_format,
            ontology_tag,
            creation_unix_tstamp: Timestamp::now().as_millis(),
            user_metadata: None,
        }
    }
}

impl Clone for TopicRecord {
    fn clone(&self) -> (r: Self)
        ensures
            r == *self,
    {
        TopicRecord {
            topic_id: self.topic_id,
            topic_uuid: self.topic_uuid,
            sequence_id: self.sequence_id,
            locator_name: self.locator_name.clone(),
            serialization_format: self.serialization_format.clone(),
            ontology_tag: self.ontology_tag.clone(),
            creation_unix_tstamp: self.creation_unix_tstamp,
            user_metadata: match &self.user_metadata {
                Some(m) => Some(m.clone()),
                None => None,
            },
        }
    }
}

/// One upload/update batch scoped to a sequence: an isolated,
/// independently-finalizable unit. Finalizing locks it forever; its
/// completion timestamp is set iff it is locked.
#[derive(Debug, Eq, PartialEq, Hash)]
pub struct SessionRecord {
    /// The unique identifier for the session.
    pub session_id: i32,
    /// The unique random identifier for the session.
    pub session_uuid: Uuid,
    /// The id of the sequence this session belongs to.
    pub sequence_id: i32,
    /// Whether the session is completed. Once completed, all data within
    /// this session is immutable.
    pub locked: bool,
    /// UNIX timestamp in milliseconds of the creation.
    pub creation_unix_tstamp: i64,
    /// UNIX timestamp in milliseconds of the completion, set exactly once,
    /// when the session is locked.
    pub completion_unix_tstamp: Option<i64>,
}

impl SessionRecord {
    /// The one-way state invariant: a completion timestamp stands iff the
    /// session is locked.
    pub open spec fn wf(self) -> bool {
        self.completion_unix_tstamp is Some <==> self.locked
    }

    /// Creates a new record for a given sequence: unlocked, unregistered,
    /// not persisted until an explicit repository call.
    pub fn new(sequence_id: i32) -> (r: SessionRecord)
        ensures
            r.session_id == UNREGISTERED,
            r.session_uuid.valid(),
            r.sequence_id == sequence_id,
            !r.locked,
            r.creation_unix_tstamp >= 0,
            r.completion_unix_tstamp is None,
            r.wf(),
    {
        SessionRecord {
            session_id: UNREGISTERED,
            session_uuid: Uuid::new(),
            sequence_id,
            locked: false,
            creation_unix_tstamp: Timestamp::now().as_millis(),
            completion_unix_tstamp: None,
        }
    }

    /// Checks if the session is locked (completed).
    pub fn is_locked(&self) -> (r: bool)
        ensures
            r == self.locked,
    {
        self.locked
    }

    /// Returns the creation timestamp of the session.
    pub fn creation_timestamp(&self) -> (r: Timestamp)
        ensures
            r.millis == self.creation_unix_tstamp,
    {
        Timestamp::from_millis(self.creation_unix_tstamp)
    }

    /// Returns the completion timestamp of the session, if it has been
    /// completed.
    pub fn completion_timestamp(&self) -> (r: Option<Timestamp>)
        ensures
            match r {
                Some(t) => self.completion_unix_tstamp == Some(t.millis),
                None => self.completion_unix_tstamp is None,
            },
    {
        match self.completion_unix_tstamp {
            Some(t) => Some(Timestamp::from_millis(t)),
            None => None,
        }
    }

    /// The resource identity of a persisted session.
    pub fn resource_id(&self) -> (r: ResourceId)
        ensures
            r.id == self.session_id,
            r.uuid == self.session_uuid,
    {
        ResourceId { id: self.session_id, uuid: self.session_uuid }
    }
}

impl Clone for SessionRecord {
    fn clone(&self) -> (r: Self)
        ensures
            r == *self,
    {
        SessionRecord {
            session_id: self.session_id,
            session_uuid: self.session_uuid,
            sequence_id: self.sequence_id,
            locked: self.locked,
            creation_unix_tstamp: self.creation_unix_tstamp,
            completion_unix_tstamp: self.completion_unix_tstamp,
        }
    }
}

/// The kind of a notification entry.
#[derive(Clone, Copy, PartialEq, Eq, Structural, Debug)]
pub enum NotifyType {
    Info,
    Warning,
    Error,
}

/// The kind named by the text, if any.
pub open spec fn notify_type_of_text(s: Seq<char>) -> Option<NotifyType> {
    if s == "info"@ {
        Some(NotifyType::Info)
    } else if s == "warning"@ {
        Some(NotifyType::Warning)
    } else if s == "error"@ {
        Some(NotifyType::Error)
    } else {
        None
    }
}

impl NotifyType {
    /// Reads a notification kind from user input; unknown text is a
    /// `Validation` error.
    pub fn parse_str(s: &str) -> (r: Result<NotifyType, FacadeError>)
        ensures
            match r {
                Ok(t) => notify_type_of_text(s@) == Some(t),
                Err(e) => e == FacadeError::Validation && notify_type_of_text(s@) is None,
            },
    {
        let o = s.to_owned();
        if o == "info".to_owned() {
            Ok(NotifyType::Info)
        } else if o == "warning".to_owned() {
            Ok(NotifyType::Warning)
        } else if o == "error".to_owned() {
            Ok(NotifyType::Error)
        } else {
            Err(FacadeError::Validation)
        }
    }
}

/// An append-only event log entry attached to a sequence or a topic.
#[derive(Debug)]
pub struct NotificationRecord {
    pub notification_id: i32,
    /// The integer id of the owning sequence or topic.
    pub owning_resource_id: i32,
    pub kind: NotifyType,
    pub message: String,
    pub creation_unix_tstamp: i64,
}

impl Clone for NotificationRecord {
    fn clone(&self) -> (r: Self)
        ensures
            r == *self,
    {
        NotificationRecord {
            notification_id: self.notification_id,
            owning_resource_id: self.owning_resource_id,
            kind: self.kind,
            message: self.message.clone(),
            creation_unix_tstamp: self.creation_unix_tstamp,
        }
    }
}

} // verus!
