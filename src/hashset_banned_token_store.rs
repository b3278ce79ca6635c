use vstd::prelude::*;

use crate::data_stores::{BannedTokenStore, BannedTokenStoreError};

verus! {

/// An in-process set of revoked tokens, kept for the life of the process.
/// Held as a list rather than a `HashSet`: vstd's `HashSet` specification
/// holds only for element types with `obeys_key_model`, which vstd grants
/// integer and `bool` elements, not text.
pub struct HashsetBannedTokenStore {
    tokens: Vec<String>,
}

/// The texts of a list of tokens.
pub open spec fn token_texts(tokens: Seq<String>) -> Seq<Seq<char>> {
    tokens.map_values(|t: String| t@)
}

impl View for HashsetBannedTokenStore {
    type V = Set<Seq<char>>;

    closed spec fn view(&self) -> Set<Seq<char>> {
        token_texts(self.tokens@).to_set()
    }
}

impl HashsetBannedTokenStore {
    pub fn new() -> (r: HashsetBannedTokenStore)
        ensures
            r@ == Set::<Seq<char>>::empty(),
    {
        let r = HashsetBannedTokenStore { tokens: Vec::new() };
        assert(r@ =~= Set::<Seq<char>>::empty());
        r
    }

    /// Whether `token` has been revoked.
    pub fn contains_token(&self, token: &str) -> (r: Result<bool, BannedTokenStoreError>)
        ensures
            r == Ok::<bool, BannedTokenStoreError>(self@.contains(token@)),
    {
        let wanted = token.to_string();
        let ghost texts = token_texts(self.tokens@);
        let mut i: usize = 0;
        while i < self.tokens.len()
            invariant
                texts == token_texts(self.tokens@),
                wanted@ == token@,
                i <= self.tokens@.len(),
                forall|j: int| 0 <= j < i ==> texts[j] != token@,
            decreases self.tokens@.len() - i,
        {
            assert(texts[i as int] == self.tokens@[i as int]@);
            if self.tokens[i] == wanted {
                assert(texts[i as int] == token@);
                return Ok(true);
            }
            i = i + 1;
        }
        assert(!texts.contains(token@));
        Ok(false)
    }

    /// Revokes `token`; revoking it again changes nothing.
    pub fn add_token(&mut self, token: String) -> (r: Result<(), BannedTokenStoreError>)
        ensures
            r is Ok,
            final(self)@ == old(self)@.insert(token@),
    {
        if let Ok(true) = self.contains_token(token.as_str()) {
            assert(self@.insert(token@) =~= self@);
            return Ok(());
        }
        let ghost before = self.tokens@;
        self.tokens.push(token);
        assert(token_texts(self.tokens@) =~= token_texts(before).push(token@));
        proof {
            token_texts(before).lemma_push_to_set_commute(token@);
        }
        Ok(())
    }
}

impl Default for HashsetBannedTokenStore {
    fn default() -> (r: HashsetBannedTokenStore)
        ensures
            r@ == Set::<Seq<char>>::empty(),
    {
        HashsetBannedTokenStore::new()
    }
}

impl BannedTokenStore for HashsetBannedTokenStore {
    closed spec fn banned(&self) -> Set<Seq<char>> {
        self@
    }

    fn add_token(&mut self, token: String) -> (r: Result<(), BannedTokenStoreError>) {
        HashsetBannedTokenStore::add_token(self, token)
    }

    fn contains_token(&self, token: &str) -> (r: Result<bool, BannedTokenStoreError>) {
        HashsetBannedTokenStore::contains_token(self, token)
    }
}

/// Revoking a token a second time changes nothing, and the token stays
/// revoked. (`add_token` itself never fails on this store.)
pub proof fn lemma_add_token_idempotent(
    before: Set<Seq<char>>,
    token: Seq<char>,
    after_first: Set<Seq<char>>,
    after_second: Set<Seq<char>>,
)
    requires
        after_first == before.insert(token),
        after_second == after_first.insert(token),
    ensures
        after_second == after_first,
        after_second.contains(token),
{
    assert(after_second =~= after_first);
}

} // verus!
