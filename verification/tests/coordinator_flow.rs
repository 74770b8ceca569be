use waas::coordinator::{SigningCoordinator, WorkflowError};
use waas::db::{DbInterface, MemDb};
use waas::service::SignService;

fn give_key(db: &mut MemDb, svc: &SignService, uid: u64) -> Vec<u8> {
    let key = svc.generate_key();
    db.add_user_key(uid, &key).unwrap();
    key
}

#[test]
fn submit_without_key_then_with_key() {
    let mut db = MemDb::new();
    let svc = SignService::default();
    let mut coord = SigningCoordinator::new();

    assert_eq!(
        coord.submit(&db, 1, "hello".to_string()),
        Err(WorkflowError::KeyNotFound)
    );
    give_key(&mut db, &svc, 1);
    assert_eq!(coord.submit(&db, 1, "hello".to_string()), Ok(()));
}

#[test]
fn double_submit_is_already_pending() {
    let mut db = MemDb::new();
    let svc = SignService::default();
    let mut coord = SigningCoordinator::new();
    give_key(&mut db, &svc, 1);

    assert_eq!(coord.submit(&db, 1, "first".to_string()), Ok(()));
    assert_eq!(
        coord.submit(&db, 1, "second".to_string()),
        Err(WorkflowError::AlreadyPending)
    );
}

#[test]
fn process_without_pending_is_a_no_op_failure() {
    let mut db = MemDb::new();
    let svc = SignService::default();
    let mut coord = SigningCoordinator::new();
    give_key(&mut db, &svc, 1);

    assert_eq!(
        coord.process(&db, &svc, 1),
        Err(WorkflowError::NoPendingMessage)
    );
    // Side-effect free: nothing retrievable, and a fresh submit works.
    assert_eq!(coord.retrieve(1), Err(WorkflowError::NotFound));
    assert_eq!(coord.submit(&db, 1, "hello".to_string()), Ok(()));
}

#[test]
fn retrieve_only_after_process_and_only_once() {
    let mut db = MemDb::new();
    let svc = SignService::default();
    let mut coord = SigningCoordinator::new();
    give_key(&mut db, &svc, 1);

    assert_eq!(coord.retrieve(1), Err(WorkflowError::NotFound));
    coord.submit(&db, 1, "hello".to_string()).unwrap();
    assert_eq!(coord.retrieve(1), Err(WorkflowError::NotFound));
    coord.process(&db, &svc, 1).unwrap();
    let first = coord.retrieve(1);
    assert!(first.is_ok());
    assert_eq!(coord.retrieve(1), Err(WorkflowError::NotFound));
}

#[test]
fn claim_and_finish_steps() {
    let mut db = MemDb::new();
    let svc = SignService::default();
    let mut coord = SigningCoordinator::new();
    let key = give_key(&mut db, &svc, 1);

    coord.submit(&db, 1, "hello".to_string()).unwrap();
    // A worker claims the message; a racing duplicate finds nothing.
    let message = coord.claim(1).unwrap();
    assert_eq!(message, "hello");
    assert_eq!(coord.claim(1), Err(WorkflowError::NoPendingMessage));
    // While in flight nothing is retrievable and no new submit fits.
    assert_eq!(coord.retrieve(1), Err(WorkflowError::NotFound));
    assert_eq!(
        coord.submit(&db, 1, "again".to_string()),
        Err(WorkflowError::AlreadyPending)
    );
    let signature = svc.sign_message(&message, &key).unwrap();
    coord.finish_success(1, signature.clone()).unwrap();
    assert_eq!(coord.retrieve(1), Ok(signature));
}

#[test]
fn finish_failure_releases_the_user() {
    let mut db = MemDb::new();
    let svc = SignService::default();
    let mut coord = SigningCoordinator::new();
    give_key(&mut db, &svc, 1);

    coord.submit(&db, 1, "hello".to_string()).unwrap();
    coord.claim(1).unwrap();
    coord.finish_failure(1).unwrap();
    assert_eq!(coord.retrieve(1), Err(WorkflowError::NotFound));
    assert_eq!(coord.submit(&db, 1, "retry".to_string()), Ok(()));
}

#[test]
fn process_with_discarded_key_discards_the_message() {
    let mut db = MemDb::new();
    let svc = SignService::default();
    let mut coord = SigningCoordinator::new();
    give_key(&mut db, &svc, 1);

    coord.submit(&db, 1, "hello".to_string()).unwrap();
    db.discard_user_key(1).unwrap();
    assert_eq!(coord.process(&db, &svc, 1), Err(WorkflowError::KeyNotFound));
    // The message is gone, not retried: the user is back to idle.
    assert_eq!(coord.retrieve(1), Err(WorkflowError::NotFound));
    assert_eq!(
        coord.process(&db, &svc, 1),
        Err(WorkflowError::NoPendingMessage)
    );
}

#[test]
fn discard_blocks_submit_but_keeps_sign_state() {
    let mut db = MemDb::new();
    let svc = SignService::default();
    let mut coord = SigningCoordinator::new();
    give_key(&mut db, &svc, 1);

    // Plain case: discard, then submit fails for want of a key.
    db.discard_user_key(1).unwrap();
    assert_eq!(
        coord.submit(&db, 1, "hello".to_string()),
        Err(WorkflowError::KeyNotFound)
    );

    // With a finished result outstanding: the discard leaves it alone.
    give_key(&mut db, &svc, 1);
    coord.submit(&db, 1, "hello".to_string()).unwrap();
    coord.process(&db, &svc, 1).unwrap();
    db.discard_user_key(1).unwrap();
    assert_eq!(
        coord.submit(&db, 1, "next".to_string()),
        Err(WorkflowError::AlreadyPending)
    );
    assert!(coord.retrieve(1).is_ok());
    // Once the result is collected, the missing key shows again.
    assert_eq!(
        coord.submit(&db, 1, "next".to_string()),
        Err(WorkflowError::KeyNotFound)
    );
}

#[test]
fn malformed_key_yields_signing_failed_and_releases_the_user() {
    let mut db = MemDb::new();
    let svc = SignService::default();
    let mut coord = SigningCoordinator::new();
    // A stored key the backend rejects: the zero scalar.
    db.add_user_key(1, &[0u8; 32]).unwrap();

    coord.submit(&db, 1, "hello".to_string()).unwrap();
    assert_eq!(coord.process(&db, &svc, 1), Err(WorkflowError::SigningFailed));
    // The failure is terminal and the user is back to idle.
    assert_eq!(coord.retrieve(1), Err(WorkflowError::NotFound));
    assert_eq!(coord.submit(&db, 1, "retry".to_string()), Ok(()));
}

#[test]
fn interleaved_users_never_cross() {
    let mut db = MemDb::new();
    let svc = SignService::default();
    let mut coord = SigningCoordinator::new();
    let key1 = give_key(&mut db, &svc, 1);
    let key2 = give_key(&mut db, &svc, 2);

    coord.submit(&db, 1, "alpha".to_string()).unwrap();
    coord.submit(&db, 2, "beta".to_string()).unwrap();
    coord.process(&db, &svc, 2).unwrap();
    coord.process(&db, &svc, 1).unwrap();
    let sig1 = coord.retrieve(1).unwrap();
    let sig2 = coord.retrieve(2).unwrap();

    // Each result is exactly the deterministic signature of that
    // user's own message under that user's own key.
    assert_eq!(sig1, svc.sign_message("alpha", &key1).unwrap());
    assert_eq!(sig2, svc.sign_message("beta", &key2).unwrap());
    assert_ne!(sig1, sig2);
    assert_ne!(sig1, svc.sign_message("alpha", &key2).unwrap());
    assert_ne!(sig1, svc.sign_message("beta", &key1).unwrap());
}
