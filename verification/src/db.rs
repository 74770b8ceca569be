//! Account records and per-user signing keys.
//!
//! The store owns two tables: accounts keyed by username, holding a
//! stable user id and a stored password hash, and signing keys keyed by
//! user id.  Credentials are validated by exact comparison of the stored
//! hash with a hash the caller already computed.  At most one key lives
//! per user; absence is a valid state.

use vstd::prelude::*;
use vstd::slice::slice_to_vec;
use crate::strmap::StrMap;
use std::collections::HashMap;

verus! {

/// Errors of the account and key store.
#[derive(Clone, Copy, Debug, PartialEq, Eq, Structural)]
pub enum DbError {
    UserNotFound,
    UserAlreadyExists,
    WrongPassword,
    KeyNotFound,
}

pub type UserId = u64;

/// A stored account: the stable user id and the stored password hash.
pub struct UserRecord {
    pub user_id: UserId,
    pub pass_hash: String,
}

/// The ghost image of a stored account.
pub struct Account {
    pub user_id: UserId,
    pub pass_hash: Seq<char>,
}

/// The store as two ghost maps: accounts by username, keys by user id.
pub trait DbInterface: Sized {
    /// Accounts by username.
    spec fn users(&self) -> Map<Seq<char>, Account>;

    /// Signing keys by user id.
    spec fn keys(&self) -> Map<UserId, Seq<u8>>;

    /// The id of the account named `user`, when the stored hash equals
    /// `password_hash` exactly; `UserNotFound` or `WrongPassword`
    /// otherwise.
    fn validate_user_password(&self, user: &str, password_hash: &str) -> (r: Result<
        UserId,
        DbError,
    >)
        ensures
            match r {
                Ok(uid) => self.users().contains_key(user@) && self.users()[user@].pass_hash
                    == password_hash@ && uid == self.users()[user@].user_id,
                Err(DbError::WrongPassword) => self.users().contains_key(user@)
                    && self.users()[user@].pass_hash != password_hash@,
                Err(DbError::UserNotFound) => !self.users().contains_key(user@),
                Err(_) => false,
            },
    ;

    /// The key of `user_id`, or `KeyNotFound` if the user has none.
    fn get_user_key(&self, user_id: UserId) -> (r: Result<Vec<u8>, DbError>)
        ensures
            match r {
                Ok(k) => self.keys().contains_key(user_id) && k@ == self.keys()[user_id],
                Err(DbError::KeyNotFound) => !self.keys().contains_key(user_id),
                Err(_) => false,
            },
    ;

    /// Adds an account under a fresh id, or fails with
    /// `UserAlreadyExists` if the username is taken.
    fn add_user(&mut self, user: &str, password_hash: &str) -> (r: Result<UserId, DbError>)
        ensures
            match r {
                Ok(uid) => !old(self).users().contains_key(user@)
                    && final(self).users() == old(self).users().insert(
                        user@,
                        Account { user_id: uid, pass_hash: password_hash@ },
                    )
                    && final(self).keys() == old(self).keys(),
                Err(DbError::UserAlreadyExists) => old(self).users().contains_key(user@)
                    && final(self).users() == old(self).users()
                    && final(self).keys() == old(self).keys(),
                Err(_) => false,
            },
    ;

    /// Stores `key` for `user_id`, overwriting unconditionally.  A
    /// caller that owes "at most one key per user" checks absence first.
    fn add_user_key(&mut self, user_id: UserId, key: &[u8]) -> (r: Result<(), DbError>)
        ensures
            r is Ok,
            final(self).keys() == old(self).keys().insert(user_id, key@),
            final(self).users() == old(self).users(),
    ;

    /// Removes the key of `user_id`; doing so again changes nothing.
    fn discard_user_key(&mut self, user_id: UserId) -> (r: Result<(), DbError>)
        ensures
            r is Ok,
            final(self).keys() == old(self).keys().remove(user_id),
            final(self).users() == old(self).users(),
    ;
}

/// The in-memory store, seeded with its fixed accounts.
pub struct MemDb {
    users: StrMap<UserRecord>,
    keys: HashMap<UserId, Vec<u8>>,
}

/// The ghost image of an account record.
pub open spec fn account_of(r: UserRecord) -> Account {
    Account { user_id: r.user_id, pass_hash: r.pass_hash@ }
}

impl MemDb {
    /// The two seeded accounts, under ids 1 and 2, with no keys.
    pub fn new() -> (r: Self)
        ensures
            r.users() == Map::<Seq<char>, Account>::empty().insert(
                "user1"@,
                Account {
                    user_id: 1,
                    pass_hash: "$2y$05$gifLHpZdNAixJzy36HyOc.1PsRNbn5Je9vlWalKyg3sGqSAW.8rFG"@,
                },
            ).insert(
                "user2"@,
                Account {
                    user_id: 2,
                    pass_hash: "$2y$05$gifLHpZdNAixJzy36HyOc.ge.9FMFAI.6NwvXHqIpLQpCF3hepE9e"@,
                },
            ),
            r.keys() == Map::<UserId, Seq<u8>>::empty(),
    {
        let mut users: StrMap<UserRecord> = StrMap::new();
        users.insert(
            "user1".to_owned(),
            UserRecord {
                user_id: 1,
                pass_hash: "$2y$05$gifLHpZdNAixJzy36HyOc.1PsRNbn5Je9vlWalKyg3sGqSAW.8rFG".to_owned(),
            },
        );
        users.insert(
            "user2".to_owned(),
            UserRecord {
                user_id: 2,
                pass_hash: "$2y$05$gifLHpZdNAixJzy36HyOc.ge.9FMFAI.6NwvXHqIpLQpCF3hepE9e".to_owned(),
            },
        );
        let r = MemDb { users, keys: HashMap::new() };
        proof {
            assert(r.users() =~= Map::<Seq<char>, Account>::empty().insert(
                "user1"@,
                Account {
                    user_id: 1,
                    pass_hash: "$2y$05$gifLHpZdNAixJzy36HyOc.1PsRNbn5Je9vlWalKyg3sGqSAW.8rFG"@,
                },
            ).insert(
                "user2"@,
                Account {
                    user_id: 2,
                    pass_hash: "$2y$05$gifLHpZdNAixJzy36HyOc.ge.9FMFAI.6NwvXHqIpLQpCF3hepE9e"@,
                },
            ));
            assert(r.keys() =~= Map::<UserId, Seq<u8>>::empty());
        }
        r
    }

    /// A username of the account with id `user_id`, if one exists.
    pub fn get_user_name(&self, user_id: UserId) -> (r: Option<String>)
        ensures
            match r {
                Some(name) => self.users().contains_key(name@) && self.users()[name@].user_id
                    == user_id,
                None => forall|k: Seq<char>|
                    self.users().contains_key(k) ==> (#[trigger] self.users()[k]).user_id
                        != user_id,
            },
    {
        let ghost s = self.users.entries_seq();
        let n = self.users.num_entries();
        let mut i: usize = 0;
        while i < n
            invariant
                n == s.len(),
                s == self.users.entries_seq(),
                i <= n,
                forall|j: int| 0 <= j < i ==> (#[trigger] s[j]).1.user_id != user_id,
            decreases n - i,
        {
            let (name, record) = self.users.entry_at(i);
            if record.user_id == user_id {
                proof {
                    use_type_invariant(&self.users);
                    self.users.lemma_entries_view();
                }
                return Some(name.clone());
            }
            i = i + 1;
        }
        proof {
            use_type_invariant(&self.users);
            assert forall|k: Seq<char>| self.users().contains_key(k) implies (
            #[trigger] self.users()[k]).user_id != user_id by {
                self.users.lemma_entries_view();
            }
        }
        None
    }
}

impl DbInterface for MemDb {
    closed spec fn users(&self) -> Map<Seq<char>, Account> {
        self.users@.map_values(|r: UserRecord| account_of(r))
    }

    closed spec fn keys(&self) -> Map<UserId, Seq<u8>> {
        self.keys@.map_values(|v: Vec<u8>| v@)
    }

    fn validate_user_password(&self, user: &str, password_hash: &str) -> (r: Result<
        UserId,
        DbError,
    >) {
        match self.users.get(user) {
            Some(record) => {
                let given = password_hash.to_owned();
                if record.pass_hash == given {
                    Ok(record.user_id)
                } else {
                    Err(DbError::WrongPassword)
                }
            },
            None => Err(DbError::UserNotFound),
        }
    }

    fn get_user_key(&self, user_id: UserId) -> (r: Result<Vec<u8>, DbError>) {
        match self.keys.get(&user_id) {
            Some(key) => Ok(slice_to_vec(key.as_slice())),
            None => Err(DbError::KeyNotFound),
        }
    }

    fn add_user(&mut self, user: &str, password_hash: &str) -> (r: Result<UserId, DbError>) {
        if self.users.contains_key(user) {
            Err(DbError::UserAlreadyExists)
        } else {
            let user_id = crate::random::random_u64();
            self.users.insert(
                user.to_owned(),
                UserRecord { user_id, pass_hash: password_hash.to_owned() },
            );
            proof {
                assert(self.users() =~= old(self).users().insert(
                    user@,
                    Account { user_id, pass_hash: password_hash@ },
                ));
            }
            Ok(user_id)
        }
    }

    fn add_user_key(&mut self, user_id: UserId, key: &[u8]) -> (r: Result<(), DbError>) {
        self.keys.insert(user_id, slice_to_vec(key));
        proof {
            assert(self.keys() =~= old(self).keys().insert(user_id, key@));
        }
        Ok(())
    }

    fn discard_user_key(&mut self, user_id: UserId) -> (r: Result<(), DbError>) {
        self.keys.remove(&user_id);
        proof {
            assert(self.keys() =~= old(self).keys().remove(user_id));
        }
        Ok(())
    }
}

} // verus!
