use session_registry::identifier::{KIND_MASK, RANDOM_KIND};
use session_registry::registry::{CreateError, Registry};
use session_registry::username::INVALID_USERNAME;

#[test]
fn a_new_registry_is_empty() {
    let registry = Registry::new();
    assert_eq!(registry.user_count(), 0);
    assert_eq!(registry.session_count(), 0);
}

#[test]
fn a_created_session_leads_to_alice() {
    let mut registry = Registry::new();
    let (user, session) = registry.create_user_and_session("alice", 30).unwrap();
    assert_eq!(user.name().value(), "alice");
    assert_eq!(session.user_id(), user.user_id());
    let found = registry.get_user_by_session(session.session_id()).unwrap();
    assert_eq!(found.name().value(), "alice");
    assert_eq!(found.user_id(), user.user_id());
    assert_eq!(found.current_table_id(), None);
}

#[test]
fn a_created_pair_is_filed_under_the_identifiers_given() {
    let mut registry = Registry::new();
    let (user, session) = registry.create_at("alice", 1, 2, Some(100), 30).unwrap();
    assert_eq!(user.user_id(), 1);
    assert_eq!(user.name().value(), "alice");
    assert_eq!(user.current_table_id(), None);
    assert_eq!(session.session_id(), 2);
    assert_eq!(session.user_id(), 1);
    assert_eq!(session.expires_at(), 130);
    assert_eq!(registry.user_count(), 1);
    assert_eq!(registry.session_count(), 1);
    let found = registry.get_user_by_session_at(2, 100).unwrap();
    assert_eq!(found.user_id(), 1);
    assert_eq!(found.name().value(), "alice");
}

#[test]
fn created_identifiers_are_random() {
    let mut registry = Registry::new();
    let (user, session) = registry.create_user_and_session("alice", 30).unwrap();
    assert_eq!(user.user_id() & KIND_MASK, RANDOM_KIND);
    assert_eq!(session.session_id() & KIND_MASK, RANDOM_KIND);
    assert_ne!(user.user_id(), session.session_id());
}

#[test]
fn an_invalid_name_is_turned_down_and_nothing_is_filed() {
    let mut registry = Registry::new();
    for name in ["", "al", "alice bob", "abcdefghij0123456789x", "a!c"] {
        match registry.create_user_and_session(name, 30) {
            Err(CreateError::Validation(why)) => assert_eq!(why, INVALID_USERNAME),
            other => panic!("{:?} gave {:?}", name, other.map(|_| ())),
        }
        match registry.create_at(name, 1, 2, Some(100), 30) {
            Err(CreateError::Validation(why)) => assert_eq!(why, INVALID_USERNAME),
            other => panic!("{:?} gave {:?}", name, other.map(|_| ())),
        }
    }
    assert_eq!(registry.user_count(), 0);
    assert_eq!(registry.session_count(), 0);
}

#[test]
fn an_invalid_name_is_judged_before_anything_else() {
    let mut registry = Registry::new();
    registry.create_at("alice", 1, 2, Some(100), 30).unwrap();
    assert!(matches!(
        registry.create_at("x", 1, 2, None, u64::MAX),
        Err(CreateError::Validation(_))
    ));
}

#[test]
fn an_identifier_in_use_is_turned_down_and_nothing_is_filed() {
    let mut registry = Registry::new();
    registry.create_at("alice", 1, 2, Some(100), 30).unwrap();
    assert!(matches!(
        registry.create_at("bob", 1, 3, Some(100), 30),
        Err(CreateError::IdentifierInUse)
    ));
    assert!(matches!(
        registry.create_at("bob", 4, 2, Some(100), 30),
        Err(CreateError::IdentifierInUse)
    ));
    assert!(matches!(
        registry.create_at("bob", 1, 2, None, 30),
        Err(CreateError::IdentifierInUse)
    ));
    assert_eq!(registry.user_count(), 1);
    assert_eq!(registry.session_count(), 1);
    assert_eq!(registry.get_user_by_session_at(2, 100).unwrap().name().value(), "alice");
    assert!(registry.get_user_by_session_at(3, 100).is_err());
}

#[test]
fn an_expiry_out_of_range_is_turned_down_and_nothing_is_filed() {
    let mut registry = Registry::new();
    assert!(matches!(
        registry.create_at("alice", 1, 2, None, 30),
        Err(CreateError::ExpiryOutOfRange)
    ));
    assert!(matches!(
        registry.create_at("alice", 1, 2, Some(u64::MAX), 1),
        Err(CreateError::ExpiryOutOfRange)
    ));
    assert!(matches!(
        registry.create_user_and_session("alice", u64::MAX),
        Err(CreateError::ExpiryOutOfRange)
    ));
    assert_eq!(registry.user_count(), 0);
    assert_eq!(registry.session_count(), 0);
    let (_, session) = registry.create_at("alice", 1, 2, Some(u64::MAX - 1), 1).unwrap();
    assert_eq!(session.expires_at(), u64::MAX);
}

#[test]
fn an_identifier_never_issued_is_not_found() {
    let mut registry = Registry::new();
    assert!(registry.get_user_by_session(12345).is_err());
    assert!(registry.get_user_by_session_at(12345, 0).is_err());
    let (user, session) = registry.create_user_and_session("alice", 30).unwrap();
    assert!(registry.get_user_by_session(session.session_id() ^ 1).is_err());
    assert!(registry.get_user_by_session(user.user_id()).is_err());
    assert!(registry.get_user_by_session(0).is_err());
}

#[test]
fn an_expired_session_is_not_found_even_before_a_sweep() {
    let mut registry = Registry::new();
    registry.create_at("alice", 1, 2, Some(100), 0).unwrap();
    assert!(registry.get_user_by_session_at(2, 100).is_ok());
    assert!(registry.get_user_by_session_at(2, 101).is_err());
    assert_eq!(registry.session_count(), 1);
    registry.create_at("bob", 3, 4, Some(100), 30).unwrap();
    assert!(registry.get_user_by_session_at(4, 130).is_ok());
    assert!(registry.get_user_by_session_at(4, 131).is_err());
    assert_eq!(registry.user_count(), 2);
}

#[test]
fn a_session_of_long_ago_is_not_found_by_the_clock() {
    let mut registry = Registry::new();
    registry.create_at("alice", 1, 2, Some(0), 0).unwrap();
    assert!(registry.get_user_by_session(2).is_err());
    assert_eq!(registry.session_count(), 1);
}

#[test]
fn a_sweep_takes_the_expired_and_leaves_the_rest() {
    let mut registry = Registry::new();
    registry.create_at("alice", 1, 101, Some(100), 10).unwrap();
    registry.create_at("bob", 2, 102, Some(100), 20).unwrap();
    registry.create_at("carol", 3, 103, Some(100), 30).unwrap();
    registry.create_at("dave", 4, 104, Some(100), 20).unwrap();
    let mut removed = registry.sweep_expired_at(121);
    removed.sort();
    assert_eq!(removed, vec![1, 2, 4]);
    assert_eq!(registry.user_count(), 1);
    assert_eq!(registry.session_count(), 1);
    assert!(registry.get_user_by_session_at(101, 0).is_err());
    assert!(registry.get_user_by_session_at(102, 0).is_err());
    assert!(registry.get_user_by_session_at(104, 0).is_err());
    let carol = registry.get_user_by_session_at(103, 121).unwrap();
    assert_eq!(carol.user_id(), 3);
    assert_eq!(carol.name().value(), "carol");
}

#[test]
fn a_sweep_at_the_last_second_takes_nothing() {
    let mut registry = Registry::new();
    registry.create_at("alice", 1, 101, Some(100), 10).unwrap();
    assert_eq!(registry.sweep_expired_at(110), Vec::<u128>::new());
    assert_eq!(registry.user_count(), 1);
    assert_eq!(registry.session_count(), 1);
    assert_eq!(registry.sweep_expired_at(111), vec![1]);
    assert_eq!(registry.user_count(), 0);
    assert_eq!(registry.session_count(), 0);
}

#[test]
fn a_sweep_of_an_empty_registry_takes_nothing() {
    let mut registry = Registry::new();
    assert_eq!(registry.sweep_expired_at(u64::MAX), Vec::<u128>::new());
    assert_eq!(registry.sweep_expired(), Vec::<u128>::new());
}

#[test]
fn a_second_sweep_takes_nothing_more() {
    let mut registry = Registry::new();
    registry.create_at("alice", 1, 101, Some(100), 10).unwrap();
    registry.create_at("bob", 2, 102, Some(100), 50).unwrap();
    assert_eq!(registry.sweep_expired_at(120), vec![1]);
    assert_eq!(registry.sweep_expired_at(120), Vec::<u128>::new());
    assert_eq!(registry.session_count(), 1);
}

#[test]
fn a_sweep_by_the_clock_takes_what_has_expired_by_now() {
    let mut registry = Registry::new();
    registry.create_at("alice", 1, 101, Some(0), 10).unwrap();
    let (bob, session) = registry.create_user_and_session("bob", 3600).unwrap();
    assert_eq!(registry.sweep_expired(), vec![1]);
    assert_eq!(registry.user_count(), 1);
    assert_eq!(registry.session_count(), 1);
    let found = registry.get_user_by_session(session.session_id()).unwrap();
    assert_eq!(found.user_id(), bob.user_id());
}

#[test]
fn a_swept_identifier_can_be_used_again() {
    let mut registry = Registry::new();
    registry.create_at("alice", 1, 2, Some(100), 10).unwrap();
    registry.sweep_expired_at(200);
    registry.create_at("bob", 1, 2, Some(200), 10).unwrap();
    assert_eq!(registry.get_user_by_session_at(2, 200).unwrap().name().value(), "bob");
}

#[test]
fn many_creations_lose_and_repeat_nothing() {
    let mut registry = Registry::new();
    let mut user_ids: Vec<u128> = Vec::new();
    let mut session_ids: Vec<u128> = Vec::new();
    for n in 0..200u32 {
        let name = format!("user{}", n);
        let (user, session) = registry.create_user_and_session(&name, 3600).unwrap();
        assert_eq!(user.name().value(), name);
        user_ids.push(user.user_id());
        session_ids.push(session.session_id());
    }
    assert_eq!(registry.user_count(), 200);
    assert_eq!(registry.session_count(), 200);
    for n in 0..200usize {
        let found = registry.get_user_by_session(session_ids[n]).unwrap();
        assert_eq!(found.user_id(), user_ids[n]);
        assert_eq!(found.name().value(), format!("user{}", n));
    }
    user_ids.sort();
    user_ids.dedup();
    session_ids.sort();
    session_ids.dedup();
    assert_eq!(user_ids.len(), 200);
    assert_eq!(session_ids.len(), 200);
}

#[test]
fn a_live_session_finds_its_user_before_and_after_a_sweep() {
    let mut registry = Registry::new();
    registry.create_at("alice", 1, 101, Some(100), 10).unwrap();
    registry.create_at("bob", 2, 102, Some(100), 60).unwrap();
    assert_eq!(registry.get_user_by_session_at(102, 150).unwrap().user_id(), 2);
    registry.sweep_expired_at(150);
    assert_eq!(registry.get_user_by_session_at(102, 150).unwrap().user_id(), 2);
    assert_eq!(registry.get_user_by_session_at(102, 160).unwrap().name().value(), "bob");
    registry.sweep_expired_at(160);
    assert_eq!(registry.get_user_by_session_at(102, 160).unwrap().name().value(), "bob");
    assert!(registry.get_user_by_session_at(102, 161).is_err());
}
