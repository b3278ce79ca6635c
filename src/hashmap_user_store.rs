use vstd::prelude::*;

use crate::data_stores::{User, UserRecord, UserStore, UserStoreError};
use crate::email::Email;
use crate::keyed::{distinct_keys, lemma_map_of_index, lemma_map_of_push, map_of};
use crate::password::{password_matches_hash, verify_password_hash, Password};

verus! {

/// An in-process user store, for tests and single-process use.
/// Held as a list with distinct keys rather than a `HashMap`: vstd's
/// `HashMap` specification holds only for key types with
/// `obeys_key_model`, which vstd grants integer and `bool` keys, not text.
pub struct HashmapUserStore {
    users: Vec<User>,
}

/// The entries of a list of users, keyed by address.
pub open spec fn user_entries(users: Seq<User>) -> Seq<(Seq<char>, UserRecord)> {
    users.map_values(|u: User| (u.email@, u@))
}

impl View for HashmapUserStore {
    type V = Map<Seq<char>, UserRecord>;

    closed spec fn view(&self) -> Map<Seq<char>, UserRecord> {
        map_of(user_entries(self.users@))
    }
}

impl HashmapUserStore {
    #[verifier::type_invariant]
    spec fn addresses_unique(&self) -> bool {
        distinct_keys(user_entries(self.users@))
    }

    pub fn new() -> (r: HashmapUserStore)
        ensures
            r@ == Map::<Seq<char>, UserRecord>::empty(),
    {
        let r = HashmapUserStore { users: Vec::new() };
        assert(r@ =~= Map::<Seq<char>, UserRecord>::empty());
        r
    }

    /// The position of the user registered under `email`.
    fn find(&self, email: &Email) -> (r: Option<usize>)
        ensures
            match r {
                Some(i) => i < self.users@.len() && self.users@[i as int].email@ == email@
                    && self@.contains_key(email@) && self@[email@] == self.users@[i as int]@,
                None => !self@.contains_key(email@),
            },
    {
        proof {
            use_type_invariant(self);
        }
        let ghost entries = user_entries(self.users@);
        let mut i: usize = 0;
        while i < self.users.len()
            invariant
                entries == user_entries(self.users@),
                distinct_keys(entries),
                i <= self.users@.len(),
                forall|j: int| 0 <= j < i ==> entries[j].0 != email@,
            decreases self.users@.len() - i,
        {
            if self.users[i].email.same_as(email) {
                proof {
                    lemma_map_of_index(entries, i as int);
                }
                return Some(i);
            }
            i = i + 1;
        }
        None
    }

    /// Registers `user` unless its address is already taken.
    pub fn add_user(&mut self, user: User) -> (r: Result<(), UserStoreError>)
        ensures
            match r {
                Ok(()) => !old(self)@.contains_key(user.email@) && final(self)@ == old(
                    self,
                )@.insert(user.email@, user@),
                Err(e) => e == UserStoreError::UserAlreadyExists && old(self)@.contains_key(
                    user.email@,
                ) && final(self)@ == old(self)@,
            },
    {
        proof {
            use_type_invariant(&*self);
        }
        match self.find(&user.email) {
            Some(_) => Err(UserStoreError::UserAlreadyExists),
            None => {
                let ghost before = self.users@;
                proof {
                    lemma_map_of_push(user_entries(before), user.email@, user@);
                    assert(user_entries(before.push(user)) =~= user_entries(before).push(
                        (user.email@, user@),
                    ));
                }
                let mut users = Vec::new();
                std::mem::swap(&mut users, &mut self.users);
                users.push(user);
                self.users = users;
                Ok(())
            },
        }
    }

    /// The user registered under `email`.
    pub fn get_user(&self, email: &Email) -> (r: Result<User, UserStoreError>)
        ensures
            match r {
                Ok(u) => self@.contains_key(email@) && u@ == self@[email@] && u.email@ == email@,
                Err(e) => e == UserStoreError::UserNotFound && !self@.contains_key(email@),
            },
    {
        match self.find(email) {
            Some(i) => Ok(self.users[i].clone()),
            None => Err(UserStoreError::UserNotFound),
        }
    }

    /// Checks `password` against the hash stored for `email`.
    pub fn validate_user(&self, email: &Email, password: &Password) -> (r: Result<
        (),
        UserStoreError,
    >)
        ensures
            match r {
                Ok(()) => self@.contains_key(email@) && password_matches_hash(
                    self@[email@].password_hash,
                    password@,
                ),
                Err(UserStoreError::UserNotFound) => !self@.contains_key(email@),
                Err(UserStoreError::InvalidCredentials) => self@.contains_key(email@)
                    && !password_matches_hash(self@[email@].password_hash, password@),
                Err(_) => false,
            },
    {
        match self.find(email) {
            Some(i) => verify_password_hash(self.users[i].password_hash.as_str(), password),
            None => Err(UserStoreError::UserNotFound),
        }
    }
}

impl Default for HashmapUserStore {
    fn default() -> (r: HashmapUserStore)
        ensures
            r@ == Map::<Seq<char>, UserRecord>::empty(),
    {
        HashmapUserStore::new()
    }
}

impl UserStore for HashmapUserStore {
    closed spec fn users(&self) -> Map<Seq<char>, UserRecord> {
        self@
    }

    fn add_user(&mut self, user: User) -> (r: Result<(), UserStoreError>) {
        HashmapUserStore::add_user(self, user)
    }

    fn get_user(&self, email: &Email) -> (r: Result<User, UserStoreError>) {
        HashmapUserStore::get_user(self, email)
    }

    fn validate_user(&self, email: &Email, password: &Password) -> (r: Result<(), UserStoreError>) {
        HashmapUserStore::validate_user(self, email, password)
    }
}

} // verus!
