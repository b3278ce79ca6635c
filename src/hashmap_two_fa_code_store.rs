use vstd::prelude::*;

use crate::data_stores::{
    Challenge, LoginAttemptId, TwoFACode, TwoFACodeStore, TwoFACodeStoreError,
};
use crate::email::Email;
use crate::keyed::{
    distinct_keys, lemma_map_of_index, lemma_map_of_push, lemma_map_of_remove, map_of,
};

verus! {

/// One stored challenge: the address, the attempt id and the code.
pub struct ChallengeEntry {
    pub email: Email,
    pub login_attempt_id: LoginAttemptId,
    pub code: TwoFACode,
}

/// An in-process challenge store.
/// Held as a list with distinct keys rather than a `HashMap`: vstd's
/// `HashMap` specification holds only for key types with
/// `obeys_key_model`, which vstd grants integer and `bool` keys, not text.
pub struct HashmapTwoFACodeStore {
    codes: Vec<ChallengeEntry>,
}

/// The entries of a list of challenges, keyed by address.
pub open spec fn challenge_entries(codes: Seq<ChallengeEntry>) -> Seq<(Seq<char>, Challenge)> {
    codes.map_values(|c: ChallengeEntry| (c.email@, (c.login_attempt_id@, c.code@)))
}

impl View for HashmapTwoFACodeStore {
    type V = Map<Seq<char>, Challenge>;

    closed spec fn view(&self) -> Map<Seq<char>, Challenge> {
        map_of(challenge_entries(self.codes@))
    }
}

impl HashmapTwoFACodeStore {
    #[verifier::type_invariant]
    spec fn one_challenge_per_address(&self) -> bool {
        distinct_keys(challenge_entries(self.codes@))
    }

    pub fn new() -> (r: HashmapTwoFACodeStore)
        ensures
            r@ == Map::<Seq<char>, Challenge>::empty(),
    {
        let r = HashmapTwoFACodeStore { codes: Vec::new() };
        assert(r@ =~= Map::<Seq<char>, Challenge>::empty());
        r
    }

    /// The position of the challenge for `email`.
    fn find(&self, email: &Email) -> (r: Option<usize>)
        ensures
            match r {
                Some(i) => i < self.codes@.len() && self.codes@[i as int].email@ == email@
                    && self@.contains_key(email@) && self@[email@] == (
                    self.codes@[i as int].login_attempt_id@,
                    self.codes@[i as int].code@,
                ),
                None => !self@.contains_key(email@),
            },
    {
        proof {
            use_type_invariant(self);
        }
        let ghost entries = challenge_entries(self.codes@);
        let mut i: usize = 0;
        while i < self.codes.len()
            invariant
                entries == challenge_entries(self.codes@),
                distinct_keys(entries),
                i <= self.codes@.len(),
                forall|j: int| 0 <= j < i ==> entries[j].0 != email@,
            decreases self.codes@.len() - i,
        {
            if self.codes[i].email.same_as(email) {
                proof {
                    lemma_map_of_index(entries, i as int);
                }
                return Some(i);
            }
            i = i + 1;
        }
        None
    }

    /// Drops the entry at `i`.
    fn remove_at(&mut self, i: usize)
        requires
            i < old(self).codes@.len(),
        ensures
            final(self)@ == old(self)@.remove(old(self).codes@[i as int].email@),
    {
        proof {
            use_type_invariant(&*self);
            lemma_map_of_remove(challenge_entries(self.codes@), i as int);
            assert(challenge_entries(self.codes@.remove(i as int)) =~= challenge_entries(
                self.codes@,
            ).remove(i as int));
        }
        let mut codes = Vec::new();
        std::mem::swap(&mut codes, &mut self.codes);
        codes.remove(i);
        self.codes = codes;
    }

    /// Stores a challenge for `email`, replacing any earlier one.
    pub fn add_code(&mut self, email: Email, login_attempt_id: LoginAttemptId, code: TwoFACode) -> (r:
        Result<(), TwoFACodeStoreError>)
        ensures
            r is Ok,
            final(self)@ == old(self)@.insert(email@, (login_attempt_id@, code@)),
    {
        if let Some(i) = self.find(&email) {
            self.remove_at(i);
        }
        proof {
            use_type_invariant(&*self);
            assert(!self@.contains_key(email@));
        }
        let ghost before = self.codes@;
        let entry = ChallengeEntry { email, login_attempt_id, code };
        proof {
            lemma_map_of_push(
                challenge_entries(before),
                entry.email@,
                (entry.login_attempt_id@, entry.code@),
            );
            assert(challenge_entries(before.push(entry)) =~= challenge_entries(before).push(
                (entry.email@, (entry.login_attempt_id@, entry.code@)),
            ));
        }
        let mut codes = Vec::new();
        std::mem::swap(&mut codes, &mut self.codes);
        codes.push(entry);
        self.codes = codes;
        proof {
            assert(self@ =~= old(self)@.insert(email@, (login_attempt_id@, code@)));
        }
        Ok(())
    }

    /// Consumes the challenge for `email`; fails if there is none.
    pub fn remove_code(&mut self, email: &Email) -> (r: Result<(), TwoFACodeStoreError>)
        ensures
            match r {
                Ok(()) => old(self)@.contains_key(email@) && final(self)@ == old(self)@.remove(
                    email@,
                ),
                Err(e) => e == TwoFACodeStoreError::LoginAttemptIdNotFound && !old(
                    self,
                )@.contains_key(email@) && final(self)@ == old(self)@,
            },
    {
        match self.find(email) {
            Some(i) => {
                self.remove_at(i);
                Ok(())
            },
            None => Err(TwoFACodeStoreError::LoginAttemptIdNotFound),
        }
    }

    /// The challenge for `email`.
    pub fn get_code(&self, email: &Email) -> (r: Result<
        (LoginAttemptId, TwoFACode),
        TwoFACodeStoreError,
    >)
        ensures
            match r {
                Ok((id, code)) => self@.contains_key(email@) && self@[email@] == (id@, code@),
                Err(e) => e == TwoFACodeStoreError::LoginAttemptIdNotFound && !self@.contains_key(
                    email@,
                ),
            },
    {
        match self.find(email) {
            Some(i) => Ok((self.codes[i].login_attempt_id.clone(), self.codes[i].code.clone())),
            None => Err(TwoFACodeStoreError::LoginAttemptIdNotFound),
        }
    }
}

impl Default for HashmapTwoFACodeStore {
    fn default() -> (r: HashmapTwoFACodeStore)
        ensures
            r@ == Map::<Seq<char>, Challenge>::empty(),
    {
        HashmapTwoFACodeStore::new()
    }
}

impl TwoFACodeStore for HashmapTwoFACodeStore {
    closed spec fn codes(&self) -> Map<Seq<char>, Challenge> {
        self@
    }

    fn add_code(&mut self, email: Email, login_attempt_id: LoginAttemptId, code: TwoFACode) -> (r:
        Result<(), TwoFACodeStoreError>) {
        HashmapTwoFACodeStore::add_code(self, email, login_attempt_id, code)
    }

    fn remove_code(&mut self, email: &Email) -> (r: Result<(), TwoFACodeStoreError>) {
        HashmapTwoFACodeStore::remove_code(self, email)
    }

    fn get_code(&self, email: &Email) -> (r: Result<(LoginAttemptId, TwoFACode), TwoFACodeStoreError>) {
        HashmapTwoFACodeStore::get_code(self, email)
    }
}

} // verus!
