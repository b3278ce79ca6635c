use vstd::prelude::*;

use crate::data_stores::UserStoreError;

verus! {

/// Whether `c` has the Unicode `Uppercase` property.
pub uninterp spec fn uppercase_char(c: char) -> bool;

/// Whether `c` has the Unicode `Lowercase` property.
pub uninterp spec fn lowercase_char(c: char) -> bool;


/// Relies on `char::is_uppercase`.
#[verifier::external_body]
fn is_uppercase(c: char) -> (r: bool)
    ensures
        r == uppercase_char(c),
{
    c.is_uppercase()
}

/// Relies on `char::is_lowercase`.
#[verifier::external_body]
fn is_lowercase(c: char) -> (r: bool)
    ensures
        r == lowercase_char(c),
{
    c.is_lowercase()
}

/// A decimal digit, `0` to `9`.
pub open spec fn digit_char(c: char) -> bool {
    '0' <= c <= '9'
}

pub const MIN_PASSWORD_CHARS: usize = 8;

pub const MAX_PASSWORD_CHARS: usize = 256;

/// Some character of `s` satisfies `p`.
pub open spec fn has_char(s: Seq<char>, p: spec_fn(char) -> bool) -> bool {
    exists|i: int| 0 <= i < s.len() && #[trigger] p(s[i])
}

proof fn lemma_has_char_push(s: Seq<char>, c: char, p: spec_fn(char) -> bool)
    ensures
        has_char(s.push(c), p) == (has_char(s, p) || p(c)),
{
    let t = s.push(c);
    if has_char(s, p) {
        let i = choose|i: int| 0 <= i < s.len() && #[trigger] p(s[i]);
        assert(t[i] == s[i]);
    }
    if p(c) {
        assert(t[s.len() as int] == c);
    }
    if has_char(t, p) {
        let i = choose|i: int| 0 <= i < t.len() && #[trigger] p(t[i]);
        if i < s.len() {
            assert(t[i] == s[i]);
        }
    }
}

/// The password policy: 8 to 256 characters, with at least one uppercase
/// letter, one lowercase letter and one digit.
pub open spec fn valid_password(s: Seq<char>) -> bool {
    &&& MIN_PASSWORD_CHARS <= s.len() <= MAX_PASSWORD_CHARS
    &&& has_char(s, |c: char| uppercase_char(c))
    &&& has_char(s, |c: char| lowercase_char(c))
    &&& has_char(s, |c: char| digit_char(c))
}

/// A cleartext password that satisfies the password policy.
#[derive(Debug, PartialEq)]
pub struct Password(String);

impl View for Password {
    type V = Seq<char>;

    closed spec fn view(&self) -> Seq<char> {
        self.0@
    }
}

impl Clone for Password {
    fn clone(&self) -> (r: Password)
        ensures
            r@ == self@,
    {
        proof {
            use_type_invariant(self);
        }
        Password(self.0.clone())
    }
}

impl Password {
    #[verifier::type_invariant]
    spec fn meets_policy(&self) -> bool {
        valid_password(self.0@)
    }

    /// Accepts `password` exactly when it satisfies the password policy.
    pub fn parse(password: &str) -> (r: Result<Password, UserStoreError>)
        ensures
            match r {
                Ok(p) => valid_password(password@) && p@ == password@,
                Err(e) => !valid_password(password@) && e == UserStoreError::InvalidCredentials,
            },
    {
        let n = password.unicode_len();
        if n < MIN_PASSWORD_CHARS || n > MAX_PASSWORD_CHARS {
            return Err(UserStoreError::InvalidCredentials);
        }
        let mut upper = false;
        let mut lower = false;
        let mut digit = false;
        let mut i: usize = 0;
        while i < n
            invariant
                n == password@.len(),
                i <= n,
                upper == has_char(password@.take(i as int), |c: char| uppercase_char(c)),
                lower == has_char(password@.take(i as int), |c: char| lowercase_char(c)),
                digit == has_char(password@.take(i as int), |c: char| digit_char(c)),
            decreases n - i,
        {
            let c = password.get_char(i);
            proof {
                let prefix = password@.take(i as int);
                assert(password@.take(i + 1) =~= prefix.push(c));
                lemma_has_char_push(prefix, c, |c: char| uppercase_char(c));
                lemma_has_char_push(prefix, c, |c: char| lowercase_char(c));
                lemma_has_char_push(prefix, c, |c: char| digit_char(c));
            }
            upper = upper || is_uppercase(c);
            lower = lower || is_lowercase(c);
            digit = digit || ('0' <= c && c <= '9');
            i = i + 1;
        }
        assert(password@.take(n as int) =~= password@);
        if upper && lower && digit {
            Ok(Password(password.to_string()))
        } else {
            Err(UserStoreError::InvalidCredentials)
        }
    }

    /// The password's text.
    pub fn as_str(&self) -> (r: &str)
        ensures
            r@ == self@,
    {
        self.0.as_str()
    }
}

/// Whether argon2 accepts the cleartext `password` against the PHC string
/// `hash`: the hash is recomputed with the salt and parameters that `hash`
/// names and compared in constant time.
pub uninterp spec fn password_matches_hash(hash: Seq<char>, password: Seq<char>) -> bool;

/// The error of `argon2`'s hashing calls, carried opaquely.
#[verifier::external_type_specification]
#[verifier::external_body]
pub struct ExPasswordHashError(argon2::password_hash::Error);

/// Relies on `argon2::PasswordHash::new` and `PasswordVerifier::verify_password`
/// of `Argon2::default()`: a text that is no PHC string matches nothing.
#[verifier::external_body]
fn argon2_verify(hash: &str, password: &str) -> (r: bool)
    ensures
        r == password_matches_hash(hash@, password@),
{
    match argon2::PasswordHash::new(hash) {
        Ok(parsed) => argon2::PasswordVerifier::verify_password(
            &argon2::Argon2::default(),
            password.as_bytes(),
            &parsed,
        ).is_ok(),
        Err(_) => false,
    }
}

/// Relies on `argon2::Params::new` and `PasswordHasher::hash_password` with
/// Argon2id (version 0x13) and a fresh random salt from
/// `SaltString::generate`: the PHC string it returns verifies against the
/// same password. Parameters that `Params::new` accepts and a password far
/// below `MAX_PWD_LEN` bytes leave it no error to return.
#[verifier::external_body]
fn argon2id_hash(password: &str, memory_kib: u32, iterations: u32, lanes: u32) -> (r: Result<
    String,
    argon2::password_hash::Error,
>)
    requires
        password@.len() <= MAX_PASSWORD_CHARS,
        8 <= memory_kib,
        8 * lanes <= memory_kib,
        1 <= iterations,
        1 <= lanes <= 0xFFFFFF,
    ensures
        r is Ok,
        r matches Ok(h) ==> password_matches_hash(h@, password@),
{
    let salt = argon2::password_hash::SaltString::generate(&mut rand::thread_rng());
    let params = argon2::Params::new(memory_kib, iterations, lanes, None)?;
    let hasher = argon2::Argon2::new(argon2::Algorithm::Argon2id, argon2::Version::V0x13, params);
    Ok(argon2::PasswordHasher::hash_password(&hasher, password.as_bytes(), &salt)?.to_string())
}

/// Memory cost of a password hash, in KiB.
pub const HASH_MEMORY_KIB: u32 = 15000;

/// Passes over memory of a password hash.
pub const HASH_ITERATIONS: u32 = 2;

/// Lanes of a password hash.
pub const HASH_LANES: u32 = 1;

/// The one-way, salted hash of `password` that stores keep in its place.
/// The salt is random, so only the hash's agreement with the password is
/// fixed; hashing does not fail.
pub fn compute_password_hash(password: &Password) -> (r: Result<String, UserStoreError>)
    ensures
        r matches Ok(h) && password_matches_hash(h@, password@),
{
    proof {
        use_type_invariant(password);
    }
    match argon2id_hash(password.as_str(), HASH_MEMORY_KIB, HASH_ITERATIONS, HASH_LANES) {
        Ok(h) => Ok(h),
        Err(_) => Err(UserStoreError::UnexpectedError),
    }
}

/// Checks `password_candidate` against a stored hash.
pub fn verify_password_hash(expected_password_hash: &str, password_candidate: &Password) -> (r:
    Result<(), UserStoreError>)
    ensures
        match r {
            Ok(()) => password_matches_hash(expected_password_hash@, password_candidate@),
            Err(e) => !password_matches_hash(expected_password_hash@, password_candidate@) && e
                == UserStoreError::InvalidCredentials,
        },
{
    if argon2_verify(expected_password_hash, password_candidate.as_str()) {
        Ok(())
    } else {
        Err(UserStoreError::InvalidCredentials)
    }
}

} // verus!
