//! The request-level workflow around the stores: resolve the caller's
//! session, then run one step of the key or signing lifecycle.  Each
//! function here is the decision half of one page of the application;
//! the transport that carries cookies and renders pages sits outside.

use vstd::prelude::*;
use crate::coordinator::{
    claim_allowed, retrieve_allowed, submit_allowed, submit_error, SigningCoordinator, UserState,
    WorkflowError,
};
use crate::db::{DbError, DbInterface, MemDb, UserId};
use crate::notify::EventOutcome;
use crate::service::{key_accepted, signable, signature_of, SignService};
use crate::session::{token_shape, SessionRegistry};

verus! {

/// What the landing page shows.
pub enum IndexView {
    /// No live session: the client is sent to the login page.
    RedirectToLogin,
    /// The user holds no key yet: the key-generation page, addressed to
    /// the given display name.
    NoKey(String),
    /// The user holds a key: the message-signing page.
    HasKey,
}

/// The application state: live sessions and the signing coordinator.
pub struct WebApp {
    current_users: SessionRegistry,
    signing: SigningCoordinator,
}

impl WebApp {
    /// Live sessions by token.
    pub closed spec fn sessions(&self) -> Map<Seq<char>, UserId> {
        self.current_users@
    }

    /// Signing workflow states by user; idle users are absent.
    pub closed spec fn states(&self) -> Map<UserId, UserState> {
        self.signing@
    }

    /// Nobody logged in, every user idle.
    pub fn new() -> (r: Self)
        ensures
            r.sessions() == Map::<Seq<char>, UserId>::empty(),
            r.states() == Map::<UserId, UserState>::empty(),
    {
        WebApp { current_users: SessionRegistry::new(), signing: SigningCoordinator::new() }
    }

    /// The user behind the caller's session token: `SessionNotFound`
    /// without a token, `UserNotFound` for a token no login minted.
    pub fn current_user(&self, token: Option<&str>) -> (r: Result<UserId, WorkflowError>)
        ensures
            match r {
                Ok(uid) => token is Some && self.sessions().contains_key((token->0)@) && uid
                    == self.sessions()[(token->0)@],
                Err(e) => (e == WorkflowError::SessionNotFound && token is None) || (e
                    == WorkflowError::UserNotFound && token is Some && !self.sessions(
                ).contains_key((token->0)@)),
            },
    {
        match token {
            Some(t) => match self.current_users.resolve(t) {
                Some(uid) => Ok(uid),
                None => Err(WorkflowError::UserNotFound),
            },
            None => Err(WorkflowError::SessionNotFound),
        }
    }

    /// Logs a user in: validates the credentials and mints a session
    /// token for the account's user id.  The password hash is compared
    /// with the stored one exactly; hashing itself happens outside.
    pub fn login<D: DbInterface>(
        &mut self,
        db: &D,
        username: &str,
        password_hash: &str,
    ) -> (r: Result<String, WorkflowError>)
        ensures
            final(self).states() == old(self).states(),
            match r {
                Ok(token) => {
                    &&& db.users().contains_key(username@)
                    &&& db.users()[username@].pass_hash == password_hash@
                    &&& token_shape(token@)
                    &&& !old(self).sessions().contains_key(token@)
                    &&& final(self).sessions() == old(self).sessions().insert(
                        token@,
                        db.users()[username@].user_id,
                    )
                },
                Err(e) => {
                    &&& final(self).sessions() == old(self).sessions()
                    &&& (e == WorkflowError::UserNotFound && !db.users().contains_key(username@))
                        || (e == WorkflowError::WrongPassword && db.users().contains_key(username@)
                        && db.users()[username@].pass_hash != password_hash@)
                },
            },
    {
        match db.validate_user_password(username, password_hash) {
            Ok(uid) => Ok(self.current_users.create(uid)),
            Err(DbError::UserNotFound) => Err(WorkflowError::UserNotFound),
            Err(_) => Err(WorkflowError::WrongPassword),
        }
    }

    /// Ends the caller's session, if it carried one; always succeeds.
    pub fn logout(&mut self, token: Option<&str>)
        ensures
            final(self).states() == old(self).states(),
            match token {
                Some(t) => final(self).sessions() == old(self).sessions().remove(t@),
                None => final(self).sessions() == old(self).sessions(),
            },
    {
        if let Some(t) = token {
            self.current_users.destroy(t);
        }
    }

    /// Accepts a message for signing on behalf of the caller's session
    /// and returns the user id as the ticket a client subscribes with.
    pub fn sign_message_request<D: DbInterface>(
        &mut self,
        db: &D,
        token: Option<&str>,
        message: String,
    ) -> (r: Result<UserId, WorkflowError>)
        ensures
            final(self).sessions() == old(self).sessions(),
            match r {
                Ok(uid) => {
                    &&& token is Some
                    &&& old(self).sessions().contains_key((token->0)@)
                    &&& uid == old(self).sessions()[(token->0)@]
                    &&& submit_allowed(old(self).states(), db.keys(), uid)
                    &&& final(self).states() == old(self).states().insert(
                        uid,
                        UserState::Pending(message@),
                    )
                },
                Err(e) => {
                    &&& final(self).states() == old(self).states()
                    &&& if token is None {
                        e == WorkflowError::SessionNotFound
                    } else if !old(self).sessions().contains_key((token->0)@) {
                        e == WorkflowError::UserNotFound
                    } else {
                        let uid = old(self).sessions()[(token->0)@];
                        !submit_allowed(old(self).states(), db.keys(), uid) && e == submit_error(
                            old(self).states(),
                            db.keys(),
                            uid,
                        )
                    }
                },
            },
    {
        let uid = match self.current_user(token) {
            Ok(u) => u,
            Err(e) => {
                return Err(e);
            },
        };
        match self.signing.submit(db, uid, message) {
            Ok(_) => Ok(uid),
            Err(e) => Err(e),
        }
    }

    /// Hands the caller's finished signature out, exactly once.
    pub fn message_signed_request(&mut self, token: Option<&str>) -> (r: Result<
        String,
        WorkflowError,
    >)
        ensures
            final(self).sessions() == old(self).sessions(),
            match r {
                Ok(sig) => token is Some && old(self).sessions().contains_key((token->0)@) && {
                    let uid = old(self).sessions()[(token->0)@];
                    &&& retrieve_allowed(old(self).states(), uid)
                    &&& sig@ == old(self).states()[uid]->Signed_0
                    &&& final(self).states() == old(self).states().remove(uid)
                },
                Err(e) => {
                    &&& final(self).states() == old(self).states()
                    &&& if token is None {
                        e == WorkflowError::SessionNotFound
                    } else if !old(self).sessions().contains_key((token->0)@) {
                        e == WorkflowError::UserNotFound
                    } else {
                        !retrieve_allowed(old(self).states(), old(self).sessions()[(token->0)@])
                            && e == WorkflowError::NotFound
                    }
                },
            },
    {
        let uid = match self.current_user(token) {
            Ok(u) => u,
            Err(e) => {
                return Err(e);
            },
        };
        self.signing.retrieve(uid)
    }

    /// Generates a key for the caller's user and stores it, provided
    /// the user holds none yet; returns the key bytes.
    pub fn generate_key_request<D: DbInterface>(
        &self,
        db: &mut D,
        svc: &SignService,
        token: Option<&str>,
    ) -> (r: Result<Vec<u8>, WorkflowError>)
        ensures
            final(db).users() == old(db).users(),
            match r {
                Ok(k) => token is Some && self.sessions().contains_key((token->0)@) && {
                    let uid = self.sessions()[(token->0)@];
                    &&& !old(db).keys().contains_key(uid)
                    &&& k@.len() == 32
                    &&& key_accepted(k@)
                    &&& final(db).keys() == old(db).keys().insert(uid, k@)
                },
                Err(e) => {
                    &&& final(db).keys() == old(db).keys()
                    &&& if token is None {
                        e == WorkflowError::SessionNotFound
                    } else if !self.sessions().contains_key((token->0)@) {
                        e == WorkflowError::UserNotFound
                    } else {
                        old(db).keys().contains_key(self.sessions()[(token->0)@]) && e
                            == WorkflowError::KeyAlreadyExists
                    }
                },
            },
    {
        let uid = match self.current_user(token) {
            Ok(u) => u,
            Err(e) => {
                return Err(e);
            },
        };
        if db.get_user_key(uid).is_ok() {
            Err(WorkflowError::KeyAlreadyExists)
        } else {
            let key = svc.generate_key();
            let _ = db.add_user_key(uid, key.as_slice());
            Ok(key)
        }
    }

    /// Discards the caller's key; the user is left keyless.  Signing
    /// state is deliberately left alone: an outstanding pending entry
    /// or uncollected signature survives the discard.
    pub fn discard_key_request<D: DbInterface>(&self, db: &mut D, token: Option<&str>) -> (r:
        Result<(), WorkflowError>)
        ensures
            final(db).users() == old(db).users(),
            match r {
                Ok(_) => token is Some && self.sessions().contains_key((token->0)@) && {
                    let uid = self.sessions()[(token->0)@];
                    &&& old(db).keys().contains_key(uid)
                    &&& final(db).keys() == old(db).keys().remove(uid)
                },
                Err(e) => {
                    &&& final(db).keys() == old(db).keys()
                    &&& if token is None {
                        e == WorkflowError::SessionNotFound
                    } else if !self.sessions().contains_key((token->0)@) {
                        e == WorkflowError::UserNotFound
                    } else {
                        !old(db).keys().contains_key(self.sessions()[(token->0)@]) && e
                            == WorkflowError::KeyNotFound
                    }
                },
            },
    {
        let uid = match self.current_user(token) {
            Ok(u) => u,
            Err(e) => {
                return Err(e);
            },
        };
        if db.get_user_key(uid).is_ok() {
            let _ = db.discard_user_key(uid);
            Ok(())
        } else {
            Err(WorkflowError::KeyNotFound)
        }
    }

    /// What the landing page shows the caller: the login page without a
    /// live session, the key-generation page (addressed by name) for a
    /// keyless user, the signing page otherwise.
    pub fn index_request(&self, db: &MemDb, token: Option<&str>) -> (r: IndexView)
        ensures
            match r {
                IndexView::RedirectToLogin => token is None || !self.sessions().contains_key(
                    (token->0)@,
                ),
                IndexView::NoKey(name) => token is Some && self.sessions().contains_key(
                    (token->0)@,
                ) && {
                    let uid = self.sessions()[(token->0)@];
                    &&& !db.keys().contains_key(uid)
                    &&& (db.users().contains_key(name@) && db.users()[name@].user_id == uid) || (
                    name@ == "Unknown user"@ && forall|k: Seq<char>|
                        db.users().contains_key(k) ==> (#[trigger] db.users()[k]).user_id != uid)
                },
                IndexView::HasKey => token is Some && self.sessions().contains_key((token->0)@)
                    && db.keys().contains_key(self.sessions()[(token->0)@]),
            },
    {
        let uid = match self.current_user(token) {
            Ok(u) => u,
            Err(_) => {
                return IndexView::RedirectToLogin;
            },
        };
        if db.get_user_key(uid).is_ok() {
            IndexView::HasKey
        } else {
            match db.get_user_name(uid) {
                Some(name) => IndexView::NoKey(name),
                None => IndexView::NoKey("Unknown user".to_owned()),
            }
        }
    }

    /// Claims the pending message of `user_id` for a worker, leaving
    /// the user in flight.  The claim is the serialization point: a
    /// caller holds the state only for this step, runs the slow signing
    /// outside it, and hands the outcome back through `finish_success`
    /// or `finish_failure`.
    pub fn claim_pending(&mut self, user_id: UserId) -> (r: Result<String, WorkflowError>)
        ensures
            final(self).sessions() == old(self).sessions(),
            r is Ok <==> claim_allowed(old(self).states(), user_id),
            r is Ok ==> (r->Ok_0)@ == old(self).states()[user_id]->Pending_0 && final(self).states() == old(self).states().insert(user_id, UserState::InFlight),
            r is Err ==> final(self).states() == old(self).states() && r->Err_0
                == WorkflowError::NoPendingMessage,
    {
        self.signing.claim(user_id)
    }

    /// Stores the signature a worker produced for its claimed message.
    pub fn finish_success(&mut self, user_id: UserId, signature: String) -> (r: Result<
        (),
        WorkflowError,
    >)
        ensures
            final(self).sessions() == old(self).sessions(),
            r is Ok <==> old(self).states().contains_key(user_id) && old(self).states()[user_id] is InFlight,
            r is Ok ==> final(self).states() == old(self).states().insert(
                user_id,
                UserState::Signed(signature@),
            ),
            r is Err ==> final(self).states() == old(self).states() && r->Err_0
                == WorkflowError::NoPendingMessage,
    {
        self.signing.finish_success(user_id, signature)
    }

    /// Releases a claimed user back to idle after a failed signing.
    pub fn finish_failure(&mut self, user_id: UserId) -> (r: Result<(), WorkflowError>)
        ensures
            final(self).sessions() == old(self).sessions(),
            r is Ok <==> old(self).states().contains_key(user_id) && old(self).states()[user_id] is InFlight,
            r is Ok ==> final(self).states() == old(self).states().remove(user_id),
            r is Err ==> final(self).states() == old(self).states() && r->Err_0
                == WorkflowError::NoPendingMessage,
    {
        self.signing.finish_failure(user_id)
    }

    /// Serves one subscriber of the notification stream: checks that
    /// the caller's session owns the asked-for user, drives the user's
    /// pending request to its end, and says how it ended.  The caller
    /// renders the outcome as the one terminal event of the stream.
    pub fn event_request<D: DbInterface>(
        &mut self,
        db: &D,
        svc: &SignService,
        path_user_id: UserId,
        token: Option<&str>,
    ) -> (r: EventOutcome)
        ensures
            final(self).sessions() == old(self).sessions(),
            token is None ==> r == EventOutcome::NoSession && final(self).states() == old(self).states(),
            token is Some && !old(self).sessions().contains_key((token->0)@) ==> r
                == EventOutcome::NoUser && final(self).states() == old(self).states(),
            token is Some && old(self).sessions().contains_key((token->0)@) && old(self).sessions()[(token->0)@] != path_user_id ==> r == EventOutcome::WrongUser && final(self).states() == old(self).states(),
            token is Some && old(self).sessions().contains_key((token->0)@) && old(self).sessions()[(token->0)@] == path_user_id ==> {
                &&& !claim_allowed(old(self).states(), path_user_id) ==> r
                    == EventOutcome::NoPending && final(self).states() == old(self).states()
                &&& claim_allowed(old(self).states(), path_user_id) && !db.keys().contains_key(
                    path_user_id,
                ) ==> r == EventOutcome::NoKey && final(self).states() == old(self).states().remove(path_user_id)
                &&& claim_allowed(old(self).states(), path_user_id) && db.keys().contains_key(
                    path_user_id,
                ) ==> {
                    &&& r == EventOutcome::Done || r == EventOutcome::SigningFailed
                    &&& r == EventOutcome::Done ==> key_accepted(db.keys()[path_user_id]) && final(self).states() == old(self).states().insert(
                        path_user_id,
                        UserState::Signed(
                            signature_of(
                                old(self).states()[path_user_id]->Pending_0,
                                db.keys()[path_user_id],
                            ),
                        ),
                    )
                    &&& r == EventOutcome::SigningFailed ==> final(self).states() == old(self).states().remove(path_user_id)
                    &&& !key_accepted(db.keys()[path_user_id]) ==> r
                        == EventOutcome::SigningFailed
                    &&& key_accepted(db.keys()[path_user_id]) && signable(
                        old(self).states()[path_user_id]->Pending_0,
                        db.keys()[path_user_id],
                    ) ==> r == EventOutcome::Done
                }
            },
    {
        let uid = match self.current_user(token) {
            Ok(u) => u,
            Err(WorkflowError::SessionNotFound) => {
                return EventOutcome::NoSession;
            },
            Err(_) => {
                return EventOutcome::NoUser;
            },
        };
        if uid != path_user_id {
            return EventOutcome::WrongUser;
        }
        match self.signing.process(db, svc, path_user_id) {
            Ok(_) => EventOutcome::Done,
            Err(WorkflowError::NoPendingMessage) => EventOutcome::NoPending,
            Err(WorkflowError::KeyNotFound) => EventOutcome::NoKey,
            Err(_) => EventOutcome::SigningFailed,
        }
    }
}

} // verus!
