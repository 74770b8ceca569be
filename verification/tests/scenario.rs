use waas::coordinator::{SigningCoordinator, WorkflowError};
use waas::db::{DbError, DbInterface, MemDb};
use waas::notify::{event_json, EventOutcome};
use waas::service::SignService;
use waas::web_app::{IndexView, WebApp};

const HASH1: &str = "$2y$05$gifLHpZdNAixJzy36HyOc.1PsRNbn5Je9vlWalKyg3sGqSAW.8rFG";
const HASH2: &str = "$2y$05$gifLHpZdNAixJzy36HyOc.ge.9FMFAI.6NwvXHqIpLQpCF3hepE9e";

#[test]
fn seeded_accounts_validate() {
    let db = MemDb::new();
    assert_eq!(db.validate_user_password("user1", HASH1), Ok(1));
    assert_eq!(db.validate_user_password("user2", HASH2), Ok(2));
    assert_eq!(
        db.validate_user_password("user1", HASH2),
        Err(DbError::WrongPassword)
    );
    assert_eq!(
        db.validate_user_password("nobody", HASH1),
        Err(DbError::UserNotFound)
    );
    assert_eq!(db.get_user_name(1), Some("user1".to_string()));
    assert_eq!(db.get_user_name(2), Some("user2".to_string()));
    assert_eq!(db.get_user_name(3), None);
}

#[test]
fn adding_users_and_keys() {
    let mut db = MemDb::new();
    let uid = db.add_user("user3", "somehash").unwrap();
    assert_eq!(db.validate_user_password("user3", "somehash"), Ok(uid));
    assert_eq!(
        db.add_user("user3", "otherhash"),
        Err(DbError::UserAlreadyExists)
    );
    assert_eq!(db.get_user_key(uid), Err(DbError::KeyNotFound));
    db.add_user_key(uid, &[1, 2, 3]).unwrap();
    assert_eq!(db.get_user_key(uid), Ok(vec![1, 2, 3]));
    db.discard_user_key(uid).unwrap();
    assert_eq!(db.get_user_key(uid), Err(DbError::KeyNotFound));
    // Discarding again is a quiet no-op.
    assert_eq!(db.discard_user_key(uid), Ok(()));
}

#[test]
fn full_signing_scenario_for_user1() {
    // Account user1 with its stored hash and no key.
    let mut db = MemDb::new();
    let svc = SignService::default();
    let mut coord = SigningCoordinator::new();

    assert_eq!(db.validate_user_password("user1", HASH1), Ok(1));
    assert_eq!(db.get_user_key(1), Err(DbError::KeyNotFound));

    let key = svc.generate_key();
    db.add_user_key(1, &key).unwrap();

    assert_eq!(coord.submit(&db, 1, "hello".to_string()), Ok(()));
    assert_eq!(coord.process(&db, &svc, 1), Ok(()));
    assert_eq!(
        event_json(1, &EventOutcome::Done),
        "{\"user_id\": 1, \"error\": \"none\"}"
    );

    let signature = coord.retrieve(1).unwrap();
    assert_eq!(signature, svc.sign_message("hello", &key).unwrap());
    assert_eq!(coord.retrieve(1), Err(WorkflowError::NotFound));
}

#[test]
fn login_mints_a_session_and_logout_ends_it() {
    let db = MemDb::new();
    let mut app = WebApp::new();

    assert_eq!(
        app.login(&db, "nobody", HASH1),
        Err(WorkflowError::UserNotFound)
    );
    assert_eq!(
        app.login(&db, "user1", HASH2),
        Err(WorkflowError::WrongPassword)
    );

    let token = app.login(&db, "user1", HASH1).unwrap();
    assert_eq!(token.len(), 16);
    assert!(token.chars().all(|c| (32..127).contains(&(c as u32))));

    assert_eq!(app.current_user(Some(token.as_str())), Ok(1));
    assert_eq!(
        app.current_user(None),
        Err(WorkflowError::SessionNotFound)
    );
    assert_eq!(
        app.current_user(Some("0123456789abcdef")),
        Err(WorkflowError::UserNotFound)
    );

    app.logout(Some(token.as_str()));
    assert_eq!(
        app.current_user(Some(token.as_str())),
        Err(WorkflowError::UserNotFound)
    );
    // Logging out again, or without a session, changes nothing.
    app.logout(Some(token.as_str()));
    app.logout(None);
}

#[test]
fn request_level_workflow() {
    let mut db = MemDb::new();
    let svc = SignService::default();
    let mut app = WebApp::new();

    let token = app.login(&db, "user1", HASH1).unwrap();

    // The landing page before and after key generation.
    assert!(matches!(app.index_request(&db, None), IndexView::RedirectToLogin));
    match app.index_request(&db, Some(token.as_str())) {
        IndexView::NoKey(name) => assert_eq!(name, "user1"),
        _ => panic!("expected the key-generation page"),
    }

    let key = app.generate_key_request(&mut db, &svc, Some(token.as_str())).unwrap();
    assert_eq!(key.len(), 32);
    assert_eq!(
        app.generate_key_request(&mut db, &svc, Some(token.as_str())),
        Err(WorkflowError::KeyAlreadyExists)
    );
    assert!(matches!(app.index_request(&db, Some(token.as_str())), IndexView::HasKey));

    // Submit, notify, retrieve.
    let ticket = app
        .sign_message_request(&db, Some(token.as_str()), "hello".to_string())
        .unwrap();
    assert_eq!(ticket, 1);
    assert_eq!(
        app.sign_message_request(&db, Some(token.as_str()), "again".to_string()),
        Err(WorkflowError::AlreadyPending)
    );
    assert_eq!(
        app.message_signed_request(Some(token.as_str())),
        Err(WorkflowError::NotFound)
    );

    // The event stream checks its caller before doing any work.
    assert_eq!(app.event_request(&db, &svc, 1, None), EventOutcome::NoSession);
    assert_eq!(
        app.event_request(&db, &svc, 1, Some("0123456789abcdef")),
        EventOutcome::NoUser
    );
    assert_eq!(
        app.event_request(&db, &svc, 2, Some(token.as_str())),
        EventOutcome::WrongUser
    );
    assert_eq!(app.event_request(&db, &svc, 1, Some(token.as_str())), EventOutcome::Done);
    assert_eq!(
        app.event_request(&db, &svc, 1, Some(token.as_str())),
        EventOutcome::NoPending
    );

    let signature = app.message_signed_request(Some(token.as_str())).unwrap();
    assert_eq!(signature, svc.sign_message("hello", &key).unwrap());
    assert_eq!(
        app.message_signed_request(Some(token.as_str())),
        Err(WorkflowError::NotFound)
    );

    // Key discard: once, then the key is gone.
    assert_eq!(app.discard_key_request(&mut db, Some(token.as_str())), Ok(()));
    assert_eq!(
        app.discard_key_request(&mut db, Some(token.as_str())),
        Err(WorkflowError::KeyNotFound)
    );
    assert_eq!(
        app.sign_message_request(&db, Some(token.as_str()), "hello".to_string()),
        Err(WorkflowError::KeyNotFound)
    );
}

#[test]
fn event_stream_reports_missing_key_and_discards_the_message() {
    let mut db = MemDb::new();
    let svc = SignService::default();
    let mut app = WebApp::new();

    let token = app.login(&db, "user1", HASH1).unwrap();
    app.generate_key_request(&mut db, &svc, Some(token.as_str())).unwrap();
    app.sign_message_request(&db, Some(token.as_str()), "hello".to_string())
        .unwrap();
    app.discard_key_request(&mut db, Some(token.as_str())).unwrap();

    assert_eq!(app.event_request(&db, &svc, 1, Some(token.as_str())), EventOutcome::NoKey);
    // Best-effort: the claimed message was dropped, not kept for retry.
    assert_eq!(
        app.event_request(&db, &svc, 1, Some(token.as_str())),
        EventOutcome::NoPending
    );
    assert_eq!(
        app.message_signed_request(Some(token.as_str())),
        Err(WorkflowError::NotFound)
    );
}

#[test]
fn event_stream_reports_a_failed_signing() {
    let mut db = MemDb::new();
    let svc = SignService::default();
    let mut app = WebApp::new();

    let token = app.login(&db, "user1", HASH1).unwrap();
    // A stored key the backend rejects: the zero scalar.
    db.add_user_key(1, &[0u8; 32]).unwrap();
    app.sign_message_request(&db, Some(token.as_str()), "hello".to_string())
        .unwrap();

    assert_eq!(
        app.event_request(&db, &svc, 1, Some(token.as_str())),
        EventOutcome::SigningFailed
    );
    assert_eq!(
        app.message_signed_request(Some(token.as_str())),
        Err(WorkflowError::NotFound)
    );
}

#[test]
fn two_sessions_two_users_no_crossover() {
    let mut db = MemDb::new();
    let svc = SignService::default();
    let mut app = WebApp::new();

    let token1 = app.login(&db, "user1", HASH1).unwrap();
    let token2 = app.login(&db, "user2", HASH2).unwrap();
    let key1 = app.generate_key_request(&mut db, &svc, Some(token1.as_str())).unwrap();
    let key2 = app.generate_key_request(&mut db, &svc, Some(token2.as_str())).unwrap();

    app.sign_message_request(&db, Some(token1.as_str()), "alpha".to_string())
        .unwrap();
    app.sign_message_request(&db, Some(token2.as_str()), "beta".to_string())
        .unwrap();
    assert_eq!(app.event_request(&db, &svc, 2, Some(token2.as_str())), EventOutcome::Done);
    assert_eq!(app.event_request(&db, &svc, 1, Some(token1.as_str())), EventOutcome::Done);

    let sig1 = app.message_signed_request(Some(token1.as_str())).unwrap();
    let sig2 = app.message_signed_request(Some(token2.as_str())).unwrap();
    assert_eq!(sig1, svc.sign_message("alpha", &key1).unwrap());
    assert_eq!(sig2, svc.sign_message("beta", &key2).unwrap());
    assert_ne!(sig1, sig2);
}
