//! Session related actions.

use vstd::prelude::*;
use crate::errors::FacadeError;
use crate::facades::FacadeSession;
use crate::ids::{ResourceId, ResourceLookup, Uuid};
use crate::repo::{locked_version, CatalogState, Repository};
use crate::trusted::uuid_text_value;

verus! {

/// What creating a session for a named sequence means: a fresh unlocked
/// row under an existing sequence, or the first typed error with nothing
/// changed.
pub open spec fn create_post(
    pre: CatalogState,
    post: CatalogState,
    sequence_locator: Seq<char>,
    r: Result<ResourceId, FacadeError>,
) -> bool {
    match r {
        Ok(rid) => {
            &&& pre.seq_named(sequence_locator)
            &&& rid.uuid.valid()
            &&& rid.id == pre.next_id
            &&& post.sessions@ == pre.sessions@.push(post.sessions@.last())
            &&& post.sessions@.last().session_id == rid.id
            &&& post.sessions@.last().session_uuid == rid.uuid
            &&& !post.sessions@.last().locked
            &&& post.sessions@.last().completion_unix_tstamp is None
            &&& post.sessions@.last().sequence_id == crate::repo::named_seq_id(
                pre,
                sequence_locator,
            )
            &&& post.next_id == pre.next_id + 1
            &&& post.sequences@ == pre.sequences@
            &&& post.topics@ == pre.topics@
            &&& post.notifications@ == pre.notifications@
            &&& post.wf()
        },
        Err(e) => {
            &&& post.same_as(pre)
            &&& match e {
                FacadeError::NotFound => !pre.seq_named(sequence_locator),
                FacadeError::RepositoryError => pre.seq_named(sequence_locator) && (pre.next_id
                    == i32::MAX || pre.sessions@.len() > 0),
                _ => false,
            }
        },
    }
}

/// Creates a new session for the sequence named by `sequence_locator`.
/// Sessions are not mutually exclusive: concurrent creations against one
/// sequence all succeed independently.
pub fn create(repo: &mut Repository, sequence_locator: String) -> (r: Result<
    ResourceId,
    FacadeError,
>)
    requires
        old(repo).state.wf(),
    ensures
        final(repo).state.wf(),
        create_post(old(repo).state, final(repo).state, sequence_locator@, r),
{
    let ghost name = sequence_locator@;
    let handle = FacadeSession::new(ResourceLookup::Locator(sequence_locator));
    let r = handle.create(repo);
    proof {
        if r is Ok {
            let k = choose|k: int|
                0 <= k < old(repo).state.sequences@.len() && crate::repo::lookup_matches_seq(
                    handle.lookup,
                    #[trigger] old(repo).state.sequences@[k],
                ) && final(repo).state.sessions@.last().sequence_id
                    == old(repo).state.sequences@[k].sequence_id;
            crate::repo::lemma_named_row_determined(old(repo).state, name, k);
        }
    }
    r
}

/// What finalizing a session by its identifier means: the one-way lock of
/// the one unlocked session carrying the parsed identifier; a second
/// attempt finds it locked and fails `AlreadyLocked` with nothing changed,
/// so of any number of attempts exactly one succeeds and the completion
/// timestamp is written exactly once.
pub open spec fn finalize_post(
    pre: CatalogState,
    post: CatalogState,
    key: Seq<char>,
    r: Result<(), FacadeError>,
) -> bool {
    match r {
        Ok(()) => {
            &&& (uuid_text_value(key) matches Some(b) && b != 0 && b != u128::MAX
                && (exists|i: int, t: i64|
                #![trigger pre.sessions@.update(i, locked_version(pre.sessions@[i], t))]
                {
                    &&& 0 <= i < pre.sessions@.len()
                    &&& pre.sessions@[i].session_uuid == (Uuid { bits: b })
                    &&& !pre.sessions@[i].locked
                    &&& t >= 0
                    &&& post.sessions@ == pre.sessions@.update(
                        i,
                        locked_version(pre.sessions@[i], t),
                    )
                }))
            &&& post.next_id == pre.next_id
            &&& post.sequences@ == pre.sequences@
            &&& post.topics@ == pre.topics@
            &&& post.notifications@ == pre.notifications@
            &&& post.wf()
        },
        Err(e) => {
            &&& post.same_as(pre)
            &&& match e {
                FacadeError::Validation => uuid_text_value(key) is None || uuid_text_value(key)
                    == Some(0u128) || uuid_text_value(key) == Some(u128::MAX),
                FacadeError::NotFound => (uuid_text_value(key) matches Some(b) && b != 0 && b
                    != u128::MAX && !pre.session_with_uuid(Uuid { bits: b })),
                FacadeError::AlreadyLocked => (uuid_text_value(key) matches Some(b) && b != 0 && b
                    != u128::MAX && (exists|i: int|
                    0 <= i < pre.sessions@.len() && (#[trigger] pre.sessions@[i]).session_uuid
                        == (Uuid { bits: b }) && pre.sessions@[i].locked)),
                _ => false,
            }
        },
    }
}

/// Finalizes the session named by the uuid text `uuid`, making it and all
/// its associated data immutable.
pub fn finalize(repo: &mut Repository, uuid: String) -> (r: Result<(), FacadeError>)
    requires
        old(repo).state.wf(),
    ensures
        final(repo).state.wf(),
        finalize_post(old(repo).state, final(repo).state, uuid@, r),
{
    let parsed = match Uuid::parse_str(uuid.as_str()) {
        Ok(u) => u,
        Err(_) => {
            return Err(FacadeError::Validation);
        },
    };
    let handle = FacadeSession::new(ResourceLookup::Uuid(parsed));
    handle.finalize(repo)
}

} // verus!
