//! The signing coordinator: a per-user single-flight state machine.
//!
//! Each user is in exactly one of four states: idle (absent from the
//! table), pending (a message awaits a worker), in flight (a worker
//! claimed the message and is signing), or signed (a result awaits its
//! one retrieval).  A user only moves forward: idle, pending, in
//! flight, signed, idle.  An illegal transition fails; it never blocks
//! and never disturbs the state.

use vstd::prelude::*;
use std::collections::HashMap;
use crate::db::{DbInterface, UserId};
use crate::service::{key_accepted, signable, signature_of, SignService, SignServiceError};

verus! {

/// The errors the workflow surfaces; every one is terminal for its
/// request and nothing is retried.
#[derive(Clone, Copy, Debug, PartialEq, Eq, Structural)]
pub enum WorkflowError {
    UserNotFound,
    WrongPassword,
    KeyNotFound,
    KeyAlreadyExists,
    AlreadyPending,
    NoPendingMessage,
    SigningFailed,
    NotFound,
    SessionNotFound,
}

/// Where a user stands in the signing workflow; a user absent from the
/// coordinator's table is idle.
pub enum SignState {
    /// A submitted message awaits a worker.
    Pending(String),
    /// A worker claimed the message and is signing it.
    InFlight,
    /// A signature awaits its one retrieval.
    Signed(String),
}

/// The ghost image of a user's workflow state.
pub enum UserState {
    Pending(Seq<char>),
    InFlight,
    Signed(Seq<char>),
}

impl View for SignState {
    type V = UserState;

    open spec fn view(&self) -> UserState {
        match self {
            SignState::Pending(m) => UserState::Pending(m@),
            SignState::InFlight => UserState::InFlight,
            SignState::Signed(s) => UserState::Signed(s@),
        }
    }
}

/// Whether `submit` succeeds for `uid`: the user is idle and holds a
/// key.
pub open spec fn submit_allowed(
    states: Map<UserId, UserState>,
    keys: Map<UserId, Seq<u8>>,
    uid: UserId,
) -> bool {
    !states.contains_key(uid) && keys.contains_key(uid)
}

/// The error `submit` fails with when it does: an outstanding entry
/// first, a missing key second.
pub open spec fn submit_error(
    states: Map<UserId, UserState>,
    keys: Map<UserId, Seq<u8>>,
    uid: UserId,
) -> WorkflowError {
    if states.contains_key(uid) {
        WorkflowError::AlreadyPending
    } else {
        WorkflowError::KeyNotFound
    }
}

/// Whether `claim` succeeds for `uid`: a message is pending.
pub open spec fn claim_allowed(states: Map<UserId, UserState>, uid: UserId) -> bool {
    states.contains_key(uid) && states[uid] is Pending
}

/// Whether `retrieve` succeeds for `uid`: a signature waits.
pub open spec fn retrieve_allowed(states: Map<UserId, UserState>, uid: UserId) -> bool {
    states.contains_key(uid) && states[uid] is Signed
}

/// The per-user signing table.  In specifications a coordinator is its
/// view, a `Map<UserId, UserState>` with idle users absent.
pub struct SigningCoordinator {
    table: HashMap<UserId, SignState>,
}

impl View for SigningCoordinator {
    type V = Map<UserId, UserState>;

    closed spec fn view(&self) -> Map<UserId, UserState> {
        self.table@.map_values(|s: SignState| s@)
    }
}

impl SigningCoordinator {
    /// Every user idle.
    pub fn new() -> (r: Self)
        ensures
            r@ == Map::<UserId, UserState>::empty(),
    {
        let r = SigningCoordinator { table: HashMap::new() };
        proof {
            assert(r@ =~= Map::<UserId, UserState>::empty());
        }
        r
    }

    /// Accepts `message` for signing if `user_id` is idle and holds a
    /// key; fails with `AlreadyPending` on an outstanding entry and
    /// `KeyNotFound` on a missing key.
    pub fn submit<D: DbInterface>(
        &mut self,
        db: &D,
        user_id: UserId,
        message: String,
    ) -> (r: Result<(), WorkflowError>)
        ensures
            r is Ok <==> submit_allowed(old(self)@, db.keys(), user_id),
            r is Ok ==> final(self)@ == old(self)@.insert(user_id, UserState::Pending(message@)),
            r is Err ==> final(self)@ == old(self)@ && r->Err_0 == submit_error(
                old(self)@,
                db.keys(),
                user_id,
            ),
    {
        if self.table.contains_key(&user_id) {
            Err(WorkflowError::AlreadyPending)
        } else if db.get_user_key(user_id).is_ok() {
            self.table.insert(user_id, SignState::Pending(message));
            proof {
                assert(final(self)@ =~= old(self)@.insert(user_id, UserState::Pending(message@)));
            }
            Ok(())
        } else {
            Err(WorkflowError::KeyNotFound)
        }
    }

    /// Claims the pending message of `user_id`, leaving the user in
    /// flight; fails with `NoPendingMessage` if nothing is pending.
    pub fn claim(&mut self, user_id: UserId) -> (r: Result<String, WorkflowError>)
        ensures
            r is Ok <==> claim_allowed(old(self)@, user_id),
            r is Ok ==> (r->Ok_0)@ == old(self)@[user_id]->Pending_0 && final(self)@ == old(
                self,
            )@.insert(user_id, UserState::InFlight),
            r is Err ==> final(self)@ == old(self)@ && r->Err_0
                == WorkflowError::NoPendingMessage,
    {
        let claimed: Option<String> = match self.table.get(&user_id) {
            Some(SignState::Pending(m)) => Some(m.clone()),
            _ => None,
        };
        match claimed {
            Some(m) => {
                self.table.insert(user_id, SignState::InFlight);
                proof {
                    assert(final(self)@ =~= old(self)@.insert(user_id, UserState::InFlight));
                }
                Ok(m)
            },
            None => Err(WorkflowError::NoPendingMessage),
        }
    }

    /// Stores the signature of an in-flight user, leaving the user
    /// signed; fails with `NoPendingMessage` if nothing is in flight.
    pub fn finish_success(&mut self, user_id: UserId, signature: String) -> (r: Result<
        (),
        WorkflowError,
    >)
        ensures
            r is Ok <==> old(self)@.contains_key(user_id) && old(self)@[user_id] is InFlight,
            r is Ok ==> final(self)@ == old(self)@.insert(
                user_id,
                UserState::Signed(signature@),
            ),
            r is Err ==> final(self)@ == old(self)@ && r->Err_0
                == WorkflowError::NoPendingMessage,
    {
        let in_flight = match self.table.get(&user_id) {
            Some(SignState::InFlight) => true,
            _ => false,
        };
        if in_flight {
            self.table.insert(user_id, SignState::Signed(signature));
            proof {
                assert(final(self)@ =~= old(self)@.insert(user_id, UserState::Signed(signature@)));
            }
            Ok(())
        } else {
            Err(WorkflowError::NoPendingMessage)
        }
    }

    /// Releases an in-flight user back to idle after a failed signing;
    /// fails with `NoPendingMessage` if nothing is in flight.
    pub fn finish_failure(&mut self, user_id: UserId) -> (r: Result<(), WorkflowError>)
        ensures
            r is Ok <==> old(self)@.contains_key(user_id) && old(self)@[user_id] is InFlight,
            r is Ok ==> final(self)@ == old(self)@.remove(user_id),
            r is Err ==> final(self)@ == old(self)@ && r->Err_0
                == WorkflowError::NoPendingMessage,
    {
        let in_flight = match self.table.get(&user_id) {
            Some(SignState::InFlight) => true,
            _ => false,
        };
        if in_flight {
            self.table.remove(&user_id);
            proof {
                assert(final(self)@ =~= old(self)@.remove(user_id));
            }
            Ok(())
        } else {
            Err(WorkflowError::NoPendingMessage)
        }
    }

    /// Hands out the stored signature exactly once, leaving the user
    /// idle; fails with `NotFound` while the user is idle, pending or
    /// in flight, and on every call after the first.
    pub fn retrieve(&mut self, user_id: UserId) -> (r: Result<String, WorkflowError>)
        ensures
            r is Ok <==> retrieve_allowed(old(self)@, user_id),
            r is Ok ==> (r->Ok_0)@ == old(self)@[user_id]->Signed_0 && final(self)@ == old(
                self,
            )@.remove(user_id),
            r is Err ==> final(self)@ == old(self)@ && r->Err_0 == WorkflowError::NotFound,
    {
        let is_signed = match self.table.get(&user_id) {
            Some(SignState::Signed(_)) => true,
            _ => false,
        };
        if is_signed {
            match self.table.remove(&user_id) {
                Some(SignState::Signed(s)) => {
                    proof {
                        assert(final(self)@ =~= old(self)@.remove(user_id));
                    }
                    Ok(s)
                },
                _ => Err(WorkflowError::NotFound),
            }
        } else {
            Err(WorkflowError::NotFound)
        }
    }

    /// Drives one pending request to its end: claims the message,
    /// fetches the key, signs, and stores the result or releases the
    /// user.  Exactly one terminal outcome comes back for the claimed
    /// message; a duplicate call finds nothing pending and changes
    /// nothing.
    pub fn process<D: DbInterface>(
        &mut self,
        db: &D,
        svc: &SignService,
        user_id: UserId,
    ) -> (r: Result<(), WorkflowError>)
        ensures
            !claim_allowed(old(self)@, user_id) ==> r == Result::<(), WorkflowError>::Err(
                WorkflowError::NoPendingMessage,
            ) && final(self)@ == old(self)@,
            claim_allowed(old(self)@, user_id) && !db.keys().contains_key(user_id) ==> r
                == Result::<(), WorkflowError>::Err(WorkflowError::KeyNotFound) && final(self)@
                == old(self)@.remove(user_id),
            claim_allowed(old(self)@, user_id) && db.keys().contains_key(user_id) ==> {
                &&& r is Ok ==> key_accepted(db.keys()[user_id]) && final(self)@ == old(
                    self,
                )@.insert(
                    user_id,
                    UserState::Signed(
                        signature_of(old(self)@[user_id]->Pending_0, db.keys()[user_id]),
                    ),
                )
                &&& r is Err ==> r->Err_0 == WorkflowError::SigningFailed && final(self)@ == old(
                    self,
                )@.remove(user_id)
                &&& !key_accepted(db.keys()[user_id]) ==> r is Err
                &&& key_accepted(db.keys()[user_id]) && signable(
                    old(self)@[user_id]->Pending_0,
                    db.keys()[user_id],
                ) ==> r is Ok
            },
    {
        let message = match self.claim(user_id) {
            Ok(m) => m,
            Err(e) => {
                return Err(e);
            },
        };
        let key = match db.get_user_key(user_id) {
            Ok(k) => k,
            Err(_) => {
                let _ = self.finish_failure(user_id);
                proof {
                    assert(final(self)@ =~= old(self)@.remove(user_id));
                }
                return Err(WorkflowError::KeyNotFound);
            },
        };
        match svc.sign_message(message.as_str(), key.as_slice()) {
            Ok(signature) => {
                let _ = self.finish_success(user_id, signature);
                proof {
                    assert(final(self)@ =~= old(self)@.insert(
                        user_id,
                        UserState::Signed(
                            signature_of(old(self)@[user_id]->Pending_0, db.keys()[user_id]),
                        ),
                    ));
                }
                Ok(())
            },
            Err(SignServiceError::KeyError) => {
                let _ = self.finish_failure(user_id);
                proof {
                    assert(final(self)@ =~= old(self)@.remove(user_id));
                }
                Err(WorkflowError::SigningFailed)
            },
        }
    }
}

/// With no key, a submission fails with `KeyNotFound`; once a key is
/// stored, the same submission is allowed.
pub proof fn lemma_submit_after_generate(
    states: Map<UserId, UserState>,
    keys: Map<UserId, Seq<u8>>,
    uid: UserId,
    key: Seq<u8>,
)
    requires
        !states.contains_key(uid),
        !keys.contains_key(uid),
    ensures
        !submit_allowed(states, keys, uid),
        submit_error(states, keys, uid) == WorkflowError::KeyNotFound,
        submit_allowed(states, keys.insert(uid, key), uid),
{
}

/// A second submission without an intervening claim fails with
/// `AlreadyPending`.
pub proof fn lemma_submit_single_flight(
    states: Map<UserId, UserState>,
    keys: Map<UserId, Seq<u8>>,
    uid: UserId,
    message: Seq<char>,
)
    requires
        submit_allowed(states, keys, uid),
    ensures
        !submit_allowed(states.insert(uid, UserState::Pending(message)), keys, uid),
        submit_error(states.insert(uid, UserState::Pending(message)), keys, uid)
            == WorkflowError::AlreadyPending,
{
}

/// A signature is retrievable exactly once: not while the request is
/// still pending, exactly after a finished signing stored it, and not
/// again after the retrieval that removed it.
pub proof fn lemma_retrieve_exactly_once(
    states: Map<UserId, UserState>,
    uid: UserId,
    sig: Seq<char>,
)
    ensures
        states.contains_key(uid) && states[uid] is Pending ==> !retrieve_allowed(states, uid),
        retrieve_allowed(states.insert(uid, UserState::Signed(sig)), uid),
        retrieve_allowed(states, uid) ==> !retrieve_allowed(states.remove(uid), uid),
{
}

/// Discarding the key blocks the next submission: idle users see
/// `KeyNotFound`, users with an outstanding entry keep seeing
/// `AlreadyPending` (discarding does not clear signing state).
pub proof fn lemma_discard_blocks_submit(
    states: Map<UserId, UserState>,
    keys: Map<UserId, Seq<u8>>,
    uid: UserId,
)
    ensures
        !submit_allowed(states, keys.remove(uid), uid),
        !states.contains_key(uid) ==> submit_error(states, keys.remove(uid), uid)
            == WorkflowError::KeyNotFound,
        states.contains_key(uid) ==> submit_error(states, keys.remove(uid), uid)
            == WorkflowError::AlreadyPending,
{
}

/// A step of one user's workflow never touches another user's state:
/// every operation pins the new table to an insert or a remove at its
/// own user, and both leave every other user's entry as it was.
pub proof fn lemma_user_isolation(
    states: Map<UserId, UserState>,
    uid: UserId,
    other: UserId,
    s: UserState,
)
    requires
        uid != other,
    ensures
        states.insert(uid, s).contains_key(other) == states.contains_key(other),
        states.contains_key(other) ==> states.insert(uid, s)[other] == states[other],
        states.remove(uid).contains_key(other) == states.contains_key(other),
        states.contains_key(other) ==> states.remove(uid)[other] == states[other],
{
}

} // verus!
