use mosaicod::actions::{sequence, session, topic};
use mosaicod::do_action::{do_action, ActionRequest, ActionResponse};
use mosaicod::errors::FacadeError;
use mosaicod::ids::{DataLossToken, Timestamp, Uuid};
use mosaicod::locator::{SequenceResourceLocator, TopicResourceLocator};
use mosaicod::records::{NotifyType, SequenceRecord, SessionRecord};
use mosaicod::repo::{
    sequence_find_all, sequence_find_all_topic_names, sequence_find_by_id,
    sequence_find_by_locator, sequence_find_by_uuid, Repository,
};

fn key_text(u: &Uuid) -> String {
    uuid::Uuid::from_u128(u.bits).hyphenated().to_string()
}

const NIL_KEY: &str = "00000000-0000-0000-0000-000000000000";
const MAX_KEY: &str = "ffffffff-ffff-ffff-ffff-ffffffffffff";

#[test]
fn test_create() {
    let record = SequenceRecord::new("/my/path");
    let repo = Repository::new();
    let mut tx = repo.transaction();
    let rrecord = mosaicod::repo::sequence_create(&mut tx, &record).unwrap();

    assert_eq!(record.sequence_uuid, rrecord.sequence_uuid);
    assert_eq!(record.locator_name, rrecord.locator_name);
    assert_eq!(record.creation_unix_tstamp, rrecord.creation_unix_tstamp);
}

#[test]
fn sequence_create() {
    let mut repo = Repository::new();
    let rid = sequence::create(&mut repo, "test_sequence".to_string(), "{}").unwrap();
    assert!(rid.uuid.is_valid());
}

#[test]
fn topic_create() {
    let mut repo = Repository::new();
    let seq_key = sequence::create(&mut repo, "test_sequence".to_string(), "{}").unwrap();
    let topic_key = topic::create(
        &mut repo,
        "test_sequence/my_topic".to_string(),
        key_text(&seq_key.uuid),
        "arrow".to_string(),
        "demo".to_string(),
        "{}",
    )
    .unwrap();
    assert!(topic_key.uuid.is_valid());
}

#[test]
fn upload_data() {
    let mut repo = Repository::new();
    let seq_name = "test_sequence";
    let seq_key = sequence::create(&mut repo, seq_name.to_string(), "{}").unwrap();
    assert!(seq_key.uuid.is_valid());

    let topic_name = format!("{}/my_topic", seq_name);
    let topic_key = topic::create(
        &mut repo,
        topic_name,
        key_text(&seq_key.uuid),
        "arrow".to_string(),
        "demo".to_string(),
        "{}",
    )
    .unwrap();
    assert!(topic_key.uuid.is_valid());
}

#[test]
fn resolution_forms_agree() {
    let mut repo = Repository::new();
    let rid = sequence::create(&mut repo, "s1".to_string(), "{}").unwrap();

    let tx = repo.transaction();
    let by_id = sequence_find_by_id(&tx, rid.id).unwrap();
    let by_uuid = sequence_find_by_uuid(&tx, &rid.uuid).unwrap();
    let by_loc =
        sequence_find_by_locator(&tx, &SequenceResourceLocator::from_name("s1".to_string()))
            .unwrap();

    assert_eq!(by_id.sequence_id, rid.id);
    assert_eq!(by_uuid.sequence_id, rid.id);
    assert_eq!(by_loc.sequence_id, rid.id);
    assert_eq!(by_id.sequence_uuid, rid.uuid);
    assert_eq!(by_uuid.sequence_uuid, rid.uuid);
    assert_eq!(by_loc.sequence_uuid, rid.uuid);
}

#[test]
fn duplicate_name_single_record() {
    let mut repo = Repository::new();
    sequence::create(&mut repo, "dup".to_string(), "{}").unwrap();
    let before = {
        let tx = repo.transaction();
        sequence_find_all(&tx).unwrap().len()
    };
    let err = sequence::create(&mut repo, "dup".to_string(), "{}").unwrap_err();
    assert_eq!(err, FacadeError::AlreadyExists);
    let after = {
        let tx = repo.transaction();
        sequence_find_all(&tx).unwrap().len()
    };
    assert_eq!(before, 1);
    assert_eq!(after, 1);
}

#[test]
fn abort_wrong_key_no_mutation() {
    let mut repo = Repository::new();
    let rid = sequence::create(&mut repo, "s1".to_string(), "{}").unwrap();

    let mut wrong = rid.uuid.bits.wrapping_add(1);
    if wrong == 0 || wrong == u128::MAX {
        wrong = wrong.wrapping_add(1);
    }
    let wrong_key = uuid::Uuid::from_u128(wrong).hyphenated().to_string();
    let err = sequence::abort(&mut repo, "s1".to_string(), wrong_key).unwrap_err();
    assert_eq!(err, FacadeError::BadKey);

    let tx = repo.transaction();
    let found =
        sequence_find_by_locator(&tx, &SequenceResourceLocator::from_name("s1".to_string()));
    assert!(found.is_ok());
}

#[test]
fn abort_correct_key_removes_sequence() {
    let mut repo = Repository::new();
    let rid = sequence::create(&mut repo, "s1".to_string(), "{}").unwrap();
    sequence::abort(&mut repo, "s1".to_string(), key_text(&rid.uuid)).unwrap();

    let tx = repo.transaction();
    let err =
        sequence_find_by_locator(&tx, &SequenceResourceLocator::from_name("s1".to_string()))
            .unwrap_err();
    assert_eq!(err, FacadeError::NotFound);
}

#[test]
fn abort_sentinel_key_is_validation() {
    // A sentinel identifier is refused by the input-parsing path itself,
    // before any key comparison.
    let mut repo = Repository::new();
    let rid = sequence::create(&mut repo, "s2".to_string(), "{}").unwrap();
    let err = sequence::abort(&mut repo, "s2".to_string(), NIL_KEY.to_string()).unwrap_err();
    assert_eq!(err, FacadeError::Validation);

    sequence::abort(&mut repo, "s2".to_string(), key_text(&rid.uuid)).unwrap();
    // The name is reusable after deletion.
    let rid2 = sequence::create(&mut repo, "s2".to_string(), "{}").unwrap();
    assert!(rid2.uuid.is_valid());
}

#[test]
fn finalize_single_winner() {
    let mut repo = Repository::new();
    sequence::create(&mut repo, "s1".to_string(), "{}").unwrap();
    let session_rid = session::create(&mut repo, "s1".to_string()).unwrap();
    let key = key_text(&session_rid.uuid);

    let mut successes = 0;
    let mut already_locked = 0;
    let mut completion: Option<i64> = None;
    for _ in 0..5 {
        match session::finalize(&mut repo, key.clone()) {
            Ok(()) => {
                successes += 1;
                completion = repo.state.sessions[0].completion_unix_tstamp;
                assert!(completion.is_some());
            }
            Err(e) => {
                assert_eq!(e, FacadeError::AlreadyLocked);
                already_locked += 1;
                // The completion timestamp is set exactly once and does
                // not change across failed attempts.
                assert_eq!(repo.state.sessions[0].completion_unix_tstamp, completion);
            }
        }
    }
    assert_eq!(successes, 1);
    assert_eq!(already_locked, 4);
}

#[test]
fn session_create_then_finalize_twice() {
    let mut repo = Repository::new();
    sequence::create(&mut repo, "s1".to_string(), "{}").unwrap();
    let u2 = session::create(&mut repo, "s1".to_string()).unwrap();
    session::finalize(&mut repo, key_text(&u2.uuid)).unwrap();
    let err = session::finalize(&mut repo, key_text(&u2.uuid)).unwrap_err();
    assert_eq!(err, FacadeError::AlreadyLocked);
}

#[test]
fn purge_then_list_is_empty() {
    let mut repo = Repository::new();
    sequence::create(&mut repo, "s1".to_string(), "{}").unwrap();
    sequence::notify_create(
        &mut repo,
        "s1".to_string(),
        "info".to_string(),
        "first".to_string(),
    )
    .unwrap();
    sequence::notify_create(
        &mut repo,
        "s1".to_string(),
        "error".to_string(),
        "second".to_string(),
    )
    .unwrap();

    let listed = sequence::notify_list(&repo, "s1".to_string()).unwrap();
    assert_eq!(listed.len(), 2);
    assert_eq!(listed[0].message, "first");
    assert_eq!(listed[1].message, "second");
    assert_eq!(listed[0].kind, NotifyType::Info);
    assert_eq!(listed[1].kind, NotifyType::Error);

    sequence::notify_purge(&mut repo, "s1".to_string()).unwrap();
    let listed = sequence::notify_list(&repo, "s1".to_string()).unwrap();
    assert_eq!(listed.len(), 0);
}

#[test]
fn sentinel_uuids_rejected_everywhere() {
    assert!(Uuid::parse_str(NIL_KEY).is_err());
    assert!(Uuid::parse_str(MAX_KEY).is_err());
    assert!(Uuid::parse_str("not-a-uuid").is_err());

    let mut repo = Repository::new();
    sequence::create(&mut repo, "s1".to_string(), "{}").unwrap();
    assert_eq!(
        session::finalize(&mut repo, NIL_KEY.to_string()).unwrap_err(),
        FacadeError::Validation
    );
    assert_eq!(
        session::finalize(&mut repo, MAX_KEY.to_string()).unwrap_err(),
        FacadeError::Validation
    );
    assert_eq!(
        topic::create(
            &mut repo,
            "s1/t1".to_string(),
            MAX_KEY.to_string(),
            "arrow".to_string(),
            "demo".to_string(),
            "{}",
        )
        .unwrap_err(),
        FacadeError::Validation
    );
}

#[test]
fn uuid_parse_reads_hex_value() {
    let u = Uuid::parse_str("a1a2a3a4-b1b2-c1c2-d1d2-d3d4d5d6d7d8").unwrap();
    assert_eq!(u.bits, 0xa1a2a3a4b1b2c1c2d1d2d3d4d5d6d7d8u128);
}

#[test]
fn repeated_create_already_exists() {
    let mut repo = Repository::new();
    let rid = sequence::create(&mut repo, "test_sequence".to_string(), "{}").unwrap();
    assert!(rid.uuid.is_valid());
    let err = sequence::create(&mut repo, "test_sequence".to_string(), "{}").unwrap_err();
    assert_eq!(err, FacadeError::AlreadyExists);
}

#[test]
fn delete_rejected_while_topic_exists() {
    let mut repo = Repository::new();
    let u1 = sequence::create(&mut repo, "s1".to_string(), "{}").unwrap();
    topic::create(
        &mut repo,
        "s1/t1".to_string(),
        key_text(&u1.uuid),
        "arrow".to_string(),
        "demo".to_string(),
        "{}",
    )
    .unwrap();

    let err = sequence::delete(&mut repo, "s1".to_string()).unwrap_err();
    assert_eq!(err, FacadeError::Locked);

    let handle = mosaicod::facades::FacadeSequence::new("s1".to_string());
    handle
        .delete_bypass(&mut repo, DataLossToken::acknowledge_data_loss())
        .unwrap();
    let tx = repo.transaction();
    assert!(sequence_find_by_locator(
        &tx,
        &SequenceResourceLocator::from_name("s1".to_string())
    )
    .is_err());
    assert_eq!(repo.state.topics.len(), 0);
}

#[test]
fn bad_metadata_is_validation() {
    let mut repo = Repository::new();
    let err = sequence::create(&mut repo, "s1".to_string(), "not json").unwrap_err();
    assert_eq!(err, FacadeError::Validation);
}

#[test]
fn missing_sequence_not_found() {
    let mut repo = Repository::new();
    assert_eq!(
        sequence::delete(&mut repo, "ghost".to_string()).unwrap_err(),
        FacadeError::NotFound
    );
    assert_eq!(
        session::create(&mut repo, "ghost".to_string()).unwrap_err(),
        FacadeError::NotFound
    );
    assert_eq!(
        sequence::notify_list(&repo, "ghost".to_string()).unwrap_err(),
        FacadeError::NotFound
    );
}

#[test]
fn exhausted_id_counter_is_repository_error() {
    let mut repo = Repository::new();
    repo.state.next_id = i32::MAX;
    let err = sequence::create(&mut repo, "s1".to_string(), "{}").unwrap_err();
    assert_eq!(err, FacadeError::RepositoryError);
}

#[test]
fn topic_create_wrong_key_is_bad_key() {
    let mut repo = Repository::new();
    let u1 = sequence::create(&mut repo, "s1".to_string(), "{}").unwrap();
    let mut wrong = u1.uuid.bits.wrapping_add(1);
    if wrong == 0 || wrong == u128::MAX {
        wrong = wrong.wrapping_add(1);
    }
    let err = topic::create(
        &mut repo,
        "s1/t1".to_string(),
        uuid::Uuid::from_u128(wrong).hyphenated().to_string(),
        "arrow".to_string(),
        "demo".to_string(),
        "{}",
    )
    .unwrap_err();
    assert_eq!(err, FacadeError::BadKey);
}

#[test]
fn topic_locator_parsing() {
    let t = TopicResourceLocator::parse_str("abc/def").unwrap();
    assert_eq!(t.sequence, "abc");
    assert_eq!(t.name, "def");

    assert!(TopicResourceLocator::parse_str("abc").is_err());
    assert!(TopicResourceLocator::parse_str("/abc").is_err());
    assert!(TopicResourceLocator::parse_str("abc/").is_err());
    assert!(TopicResourceLocator::parse_str("a/b/c").is_err());
    assert!(TopicResourceLocator::parse_str("").is_err());

    assert!(SequenceResourceLocator::parse_str("abc").is_ok());
    assert!(SequenceResourceLocator::parse_str("").is_err());
    assert!(SequenceResourceLocator::parse_str("a/b").is_err());
}

#[test]
fn notify_type_parsing() {
    assert_eq!(NotifyType::parse_str("info").unwrap(), NotifyType::Info);
    assert_eq!(
        NotifyType::parse_str("warning").unwrap(),
        NotifyType::Warning
    );
    assert_eq!(NotifyType::parse_str("error").unwrap(), NotifyType::Error);
    assert_eq!(
        NotifyType::parse_str("verbose").unwrap_err(),
        FacadeError::Validation
    );
}

#[test]
fn session_record_starts_open() {
    let rec = SessionRecord::new(7);
    assert!(!rec.is_locked());
    assert!(rec.completion_timestamp().is_none());
    assert!(rec.creation_timestamp().as_millis() >= 0);
    assert_eq!(rec.sequence_id, 7);
    assert_eq!(rec.session_id, mosaicod::ids::UNREGISTERED);
    assert!(rec.session_uuid.is_valid());
}

#[test]
fn timestamp_round_trip() {
    let t = Timestamp::from_millis(123456789);
    assert_eq!(t.as_millis(), 123456789);
    assert!(Timestamp::now().as_millis() >= 0);
}

#[test]
fn system_info_counts() {
    let mut repo = Repository::new();
    let u1 = sequence::create(&mut repo, "s1".to_string(), "{}").unwrap();
    topic::create(
        &mut repo,
        "s1/t1".to_string(),
        key_text(&u1.uuid),
        "arrow".to_string(),
        "demo".to_string(),
        "{}",
    )
    .unwrap();
    session::create(&mut repo, "s1".to_string()).unwrap();
    sequence::notify_create(
        &mut repo,
        "s1".to_string(),
        "info".to_string(),
        "hello".to_string(),
    )
    .unwrap();

    let info = sequence::system_info(&repo, "s1".to_string()).unwrap();
    assert_eq!(info.resource.id, u1.id);
    assert_eq!(info.topic_count, 1);
    assert_eq!(info.session_count, 1);
    assert_eq!(info.notification_count, 1);
}

#[test]
fn topic_notifications_and_delete() {
    let mut repo = Repository::new();
    let u1 = sequence::create(&mut repo, "s1".to_string(), "{}").unwrap();
    topic::create(
        &mut repo,
        "s1/t1".to_string(),
        key_text(&u1.uuid),
        "arrow".to_string(),
        "demo".to_string(),
        "{}",
    )
    .unwrap();

    topic::notify_create(
        &mut repo,
        "s1/t1".to_string(),
        "warning".to_string(),
        "careful".to_string(),
    )
    .unwrap();
    let listed = topic::notify_list(&repo, "s1/t1".to_string()).unwrap();
    assert_eq!(listed.len(), 1);
    assert_eq!(listed[0].message, "careful");

    let info = topic::system_info(&repo, "s1/t1".to_string()).unwrap();
    assert_eq!(info.notification_count, 1);

    topic::delete(&mut repo, "s1/t1".to_string()).unwrap();
    assert_eq!(
        topic::notify_list(&repo, "s1/t1".to_string()).unwrap_err(),
        FacadeError::NotFound
    );
    // The sequence may now be deleted on the checked path.
    sequence::delete(&mut repo, "s1".to_string()).unwrap();
}

#[test]
fn find_all_topic_names_joins() {
    let mut repo = Repository::new();
    let u1 = sequence::create(&mut repo, "s1".to_string(), "{}").unwrap();
    topic::create(
        &mut repo,
        "s1/t1".to_string(),
        key_text(&u1.uuid),
        "arrow".to_string(),
        "demo".to_string(),
        "{}",
    )
    .unwrap();
    topic::create(
        &mut repo,
        "s1/t2".to_string(),
        key_text(&u1.uuid),
        "arrow".to_string(),
        "demo".to_string(),
        "{}",
    )
    .unwrap();

    let tx = repo.transaction();
    let names =
        sequence_find_all_topic_names(&tx, &SequenceResourceLocator::from_name("s1".to_string()))
            .unwrap();
    assert_eq!(names.len(), 2);
    assert_eq!(names[0].sequence, "s1");
    assert_eq!(names[0].name, "t1");
    assert_eq!(names[1].name, "t2");

    let none = sequence_find_all_topic_names(
        &tx,
        &SequenceResourceLocator::from_name("ghost".to_string()),
    )
    .unwrap();
    assert_eq!(none.len(), 0);
}

#[test]
fn dispatcher_routes_actions() {
    let mut repo = Repository::new();
    let resp = do_action(
        &mut repo,
        ActionRequest::SequenceCreate {
            name: "s1".to_string(),
            user_metadata: "{}".to_string(),
        },
    )
    .unwrap();
    let rid = match resp {
        ActionResponse::SequenceCreate(rid) => rid,
        _ => panic!("unexpected response kind"),
    };
    assert!(rid.uuid.is_valid());

    let resp = do_action(
        &mut repo,
        ActionRequest::SessionCreate {
            name: "s1".to_string(),
        },
    )
    .unwrap();
    let sid = match resp {
        ActionResponse::SessionCreate(rid) => rid,
        _ => panic!("unexpected response kind"),
    };
    let resp = do_action(
        &mut repo,
        ActionRequest::SessionFinalize {
            key: key_text(&sid.uuid),
        },
    )
    .unwrap();
    assert!(matches!(resp, ActionResponse::SessionFinalize));

    let err = do_action(
        &mut repo,
        ActionRequest::SequenceAbort {
            name: "s1".to_string(),
            key: NIL_KEY.to_string(),
        },
    )
    .unwrap_err();
    assert_eq!(err, FacadeError::Validation);
}

#[test]
fn flight_commands_hold_plain_values() {
    let put = mosaicod::flight::DoPutCmd {
        resource_locator: "s1/t1".to_string(),
        key: "abc".to_string(),
    };
    assert_eq!(put.resource_locator, "s1/t1");
    assert_eq!(put.key, "abc");
    let info = mosaicod::flight::GetFlightInfoCmd {
        resource_locator: "s1".to_string(),
    };
    assert_eq!(info.resource_locator, "s1");
}

#[test]
fn fresh_identifiers_are_never_sentinels() {
    for _ in 0..100 {
        let u = Uuid::new();
        assert!(u.is_valid());
    }
}

#[test]
fn unknown_notify_type_is_validation() {
    let mut repo = Repository::new();
    sequence::create(&mut repo, "s1".to_string(), "{}").unwrap();
    let err = sequence::notify_create(
        &mut repo,
        "s1".to_string(),
        "bogus".to_string(),
        "msg".to_string(),
    )
    .unwrap_err();
    assert_eq!(err, FacadeError::Validation);
}

#[test]
fn session_create_by_uuid_lookup() {
    let mut repo = Repository::new();
    let rid = sequence::create(&mut repo, "s1".to_string(), "{}").unwrap();
    let handle =
        mosaicod::facades::FacadeSession::new(mosaicod::ids::ResourceLookup::Uuid(rid.uuid));
    let sid = handle.create(&mut repo).unwrap();
    assert!(sid.uuid.is_valid());
    assert_eq!(repo.state.sessions[0].sequence_id, rid.id);
    assert!(!repo.state.sessions[0].locked);
}
