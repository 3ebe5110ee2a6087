//! The credential store.

use crate::hashing::{
    bcrypt_verdict, hash_password, is_hash_of, verification_result, verify_password,
    HashBackendFailure, HASH_COST,
};
use vstd::hash_map::StringHashMap;
use vstd::prelude::*;

verus! {

/// What a registration of `username` with `password` may make of the store
/// `pre`: the result `r` and the store `post` that it leaves.
///
/// A username that has a record is turned away and nothing changes.
/// Otherwise the password is hashed. Where that fails, the failure is
/// returned and nothing changes; where it succeeds, the one new record holds
/// a hash of the password under the work factor `HASH_COST`, and every
/// other record is as it was.
pub open spec fn registers(
    pre: Map<Seq<char>, Seq<char>>,
    username: Seq<char>,
    password: Seq<char>,
    r: Result<bool, HashBackendFailure>,
    post: Map<Seq<char>, Seq<char>>,
) -> bool {
    if pre.contains_key(username) {
        r == Ok::<bool, HashBackendFailure>(false) && post == pre
    } else {
        match r {
            Ok(added) => {
                &&& added
                &&& post.contains_key(username)
                &&& is_hash_of(post[username], password, HASH_COST)
                &&& post == pre.insert(username, post[username])
            },
            Err(failure) => {
                &&& failure == HashBackendFailure::HashComputationError
                &&& post == pre
            },
        }
    }
}

/// What a verification of `username` with `password` returns on the store
/// `db`: `Ok(false)` for a username without a record, and otherwise what
/// bcrypt answers for the password and the stored hash.
pub open spec fn login_result(
    db: Map<Seq<char>, Seq<char>>,
    username: Seq<char>,
    password: Seq<char>,
) -> Result<bool, HashBackendFailure> {
    if db.contains_key(username) {
        verification_result(bcrypt_verdict(password, db[username]))
    } else {
        Ok(false)
    }
}

/// The records of all registered users: for each username one password hash.
pub struct UserDB {
    users: StringHashMap<String>,
}

impl View for UserDB {
    type V = Map<Seq<char>, Seq<char>>;

    /// The store as a map from username to the text of the stored hash.
    closed spec fn view(&self) -> Map<Seq<char>, Seq<char>> {
        Map::new(
            |username: Seq<char>| self.users@.contains_key(username),
            |username: Seq<char>| self.users@[username]@,
        )
    }
}

impl UserDB {
    /// An empty store.
    pub fn new() -> (db: UserDB)
        ensures
            db@ == Map::<Seq<char>, Seq<char>>::empty(),
    {
        let db = UserDB { users: StringHashMap::new() };
        assert(db@ =~= Map::<Seq<char>, Seq<char>>::empty());
        db
    }

    /// The number of records.
    pub fn len(&self) -> (n: usize)
        ensures
            n == self@.len(),
    {
        assert(self@.dom() =~= self.users@.dom());
        self.users.len()
    }

    /// Whether `username` has a record.
    pub fn contains_user(&self, username: &str) -> (found: bool)
        ensures
            found == self@.contains_key(username@),
    {
        self.users.contains_key(username)
    }

    /// The hash stored for `username`, if it has a record.
    pub fn stored_hash(&self, username: &str) -> (stored: Option<String>)
        ensures
            match stored {
                Some(hash) => self@.contains_key(username@) && hash@ == self@[username@],
                None => !self@.contains_key(username@),
            },
    {
        match self.users.get(username) {
            Some(hash) => Some(hash.clone()),
            None => None,
        }
    }

    /// Records `password_hash` for `username` unless the username has a
    /// record already, in one step. Returns whether the record was added; an
    /// existing record is never replaced.
    pub fn add_hashed_user(&mut self, username: String, password_hash: String) -> (added: bool)
        ensures
            added == !old(self)@.contains_key(username@),
            final(self)@ == if added {
                old(self)@.insert(username@, password_hash@)
            } else {
                old(self)@
            },
    {
        if self.users.contains_key(username.as_str()) {
            false
        } else {
            let ghost name = username@;
            self.users.insert(username, password_hash);
            assert(self@ =~= old(self)@.insert(name, password_hash@));
            true
        }
    }

    /// Registers `username` with `password`.
    ///
    /// Returns `Ok(false)`, and changes nothing, where the username has a
    /// record. Otherwise hashes the password and adds the record, returning
    /// `Ok(true)`; where the backend cannot hash, returns its failure and
    /// changes nothing.
    pub fn add_user(&mut self, username: String, password: String) -> (r: Result<
        bool,
        HashBackendFailure,
    >)
        ensures
            registers(old(self)@, username@, password@, r, final(self)@),
    {
        if self.users.contains_key(username.as_str()) {
            return Ok(false);
        }
        match hash_password(password.as_str()) {
            Ok(password_hash) => {
                let added = self.add_hashed_user(username, password_hash);
                Ok(added)
            },
            Err(failure) => Err(failure),
        }
    }

    /// Holds `password` against the hash stored for `username`.
    ///
    /// Returns `Ok(false)` for a username without a record, so that an unknown
    /// user and a wrong password look alike. Otherwise returns bcrypt's answer
    /// for the password and the stored hash, or `HashVerificationError` where
    /// the stored text is no hash. The store is not changed.
    pub fn verify_user(&self, username: String, password: String) -> (r: Result<
        bool,
        HashBackendFailure,
    >)
        ensures
            r == login_result(self@, username@, password@),
    {
        match self.users.get(username.as_str()) {
            None => Ok(false),
            Some(password_hash) => verify_password(password.as_str(), password_hash.as_str()),
        }
    }
}

} // verus!
