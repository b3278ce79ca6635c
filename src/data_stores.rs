use vstd::prelude::*;

use rand::Rng;

use crate::email::Email;
use crate::password::{password_matches_hash, Password};

verus! {

/// Failures of the user store and of credential parsing.
#[derive(Debug, Clone, Copy, PartialEq, Eq, Structural)]
pub enum UserStoreError {
    InvalidCredentials,
    InvalidEmail,
    UnexpectedError,
    UserAlreadyExists,
    UserNotFound,
}

/// Failures of the revoked-token store.
#[derive(Debug, Clone, Copy, PartialEq, Eq, Structural)]
pub enum BannedTokenStoreError {
    UnexpectedError,
}

/// Failures of the second-factor challenge store.
#[derive(Debug, Clone, Copy, PartialEq, Eq, Structural)]
pub enum TwoFACodeStoreError {
    LoginAttemptIdNotFound,
    UnexpectedError,
}

/// What a store knows of a user: the address, the password's one-way hash,
/// and whether login needs a second factor.
pub ghost struct UserRecord {
    pub email: Seq<char>,
    pub password_hash: Seq<char>,
    pub requires_2fa: bool,
}

/// A registered user. The password is held only as its hash.
#[derive(Debug, PartialEq)]
pub struct User {
    pub email: Email,
    pub password_hash: String,
    pub requires_2fa: bool,
}

impl View for User {
    type V = UserRecord;

    open spec fn view(&self) -> UserRecord {
        UserRecord {
            email: self.email@,
            password_hash: self.password_hash@,
            requires_2fa: self.requires_2fa,
        }
    }
}

impl Clone for User {
    fn clone(&self) -> (r: User)
        ensures
            r@ == self@,
    {
        User {
            email: self.email.clone(),
            password_hash: self.password_hash.clone(),
            requires_2fa: self.requires_2fa,
        }
    }
}

impl User {
    pub fn new(email: Email, password_hash: String, requires_2fa: bool) -> (r: User)
        ensures
            r.email@ == email@,
            r.password_hash@ == password_hash@,
            r.requires_2fa == requires_2fa,
    {
        User { email, password_hash, requires_2fa }
    }
}

/// What `add_user` may do: register a new address, or refuse a known one
/// and change nothing; on a backend failure the insert may or may not
/// have happened.
pub open spec fn add_user_outcome(
    before: Map<Seq<char>, UserRecord>,
    user: UserRecord,
    r: Result<(), UserStoreError>,
    after: Map<Seq<char>, UserRecord>,
) -> bool {
    match r {
        Ok(()) => !before.contains_key(user.email) && after == before.insert(user.email, user),
        Err(UserStoreError::UserAlreadyExists) => before.contains_key(user.email) && after == before,
        Err(UserStoreError::UnexpectedError) => after == before || (!before.contains_key(
            user.email,
        ) && after == before.insert(user.email, user)),
        Err(_) => false,
    }
}

/// What `get_user` may return for `email`.
pub open spec fn get_user_outcome(
    users: Map<Seq<char>, UserRecord>,
    email: Seq<char>,
    r: Result<UserRecord, UserStoreError>,
) -> bool {
    match r {
        Ok(u) => users.contains_key(email) && u == users[email] && u.email == email,
        Err(UserStoreError::UserNotFound) => !users.contains_key(email),
        Err(UserStoreError::UnexpectedError) => true,
        Err(_) => false,
    }
}

/// What `validate_user` may return for `email` and the cleartext `password`.
pub open spec fn validate_user_outcome(
    users: Map<Seq<char>, UserRecord>,
    email: Seq<char>,
    password: Seq<char>,
    r: Result<(), UserStoreError>,
) -> bool {
    match r {
        Ok(()) => users.contains_key(email) && password_matches_hash(
            users[email].password_hash,
            password,
        ),
        Err(UserStoreError::UserNotFound) => !users.contains_key(email),
        Err(UserStoreError::InvalidCredentials) => users.contains_key(email)
            && !password_matches_hash(users[email].password_hash, password),
        Err(UserStoreError::UnexpectedError) => true,
        Err(_) => false,
    }
}

/// The view of a `get_user` result.
pub open spec fn user_result_view(r: Result<User, UserStoreError>) -> Result<
    UserRecord,
    UserStoreError,
> {
    match r {
        Ok(u) => Ok(u@),
        Err(e) => Err(e),
    }
}

proof fn lemma_registered_stays(
    states: Seq<Map<Seq<char>, UserRecord>>,
    users: Seq<UserRecord>,
    results: Seq<Result<(), UserStoreError>>,
    email: Seq<char>,
    from: int,
    to: int,
)
    requires
        states.len() == results.len() + 1,
        users.len() == results.len(),
        forall|i: int| 0 <= i < results.len() ==> #[trigger] users[i].email == email,
        forall|i: int|
            0 <= i < results.len() ==> add_user_outcome(
                #[trigger] states[i],
                users[i],
                results[i],
                states[i + 1],
            ),
        0 <= from <= to < states.len(),
        states[from].contains_key(email),
    ensures
        states[to].contains_key(email),
    decreases to - from,
{
    if from < to {
        assert(add_user_outcome(states[from], users[from], results[from], states[from + 1]));
        assert(users[from].email == email);
        lemma_registered_stays(states, users, results, email, from + 1, to);
    }
}

/// Of any series of `add_user` calls for one address, at most one
/// succeeds; if the address was free and no call hit a backend failure,
/// the first succeeds and every later one fails with `UserAlreadyExists`.
pub proof fn lemma_one_registration_per_address(
    states: Seq<Map<Seq<char>, UserRecord>>,
    users: Seq<UserRecord>,
    results: Seq<Result<(), UserStoreError>>,
    email: Seq<char>,
)
    requires
        states.len() == results.len() + 1,
        users.len() == results.len(),
        forall|i: int| 0 <= i < results.len() ==> #[trigger] users[i].email == email,
        forall|i: int|
            0 <= i < results.len() ==> add_user_outcome(
                #[trigger] states[i],
                users[i],
                results[i],
                states[i + 1],
            ),
    ensures
        forall|i: int, j: int|
            0 <= i < results.len() && 0 <= j < results.len() && #[trigger] results[i] is Ok
                && #[trigger] results[j] is Ok ==> i == j,
        !states[0].contains_key(email) && results.len() > 0 && (forall|i: int|
            0 <= i < results.len() ==> !(#[trigger] results[i] matches Err(
                UserStoreError::UnexpectedError,
            ))) ==> {
            &&& results[0] is Ok
            &&& forall|i: int|
                1 <= i < results.len() ==> #[trigger] results[i] == Err::<(), UserStoreError>(
                    UserStoreError::UserAlreadyExists,
                )
        },
{
    assert forall|i: int, j: int|
        0 <= i < results.len() && 0 <= j < results.len() && #[trigger] results[i] is Ok
            && #[trigger] results[j] is Ok implies i == j by {
        assert(add_user_outcome(states[i], users[i], results[i], states[i + 1]));
        assert(add_user_outcome(states[j], users[j], results[j], states[j + 1]));
        assert(users[i].email == email && users[j].email == email);
        if i < j {
            lemma_registered_stays(states, users, results, email, i + 1, j);
        } else if j < i {
            lemma_registered_stays(states, users, results, email, j + 1, i);
        }
    }
    if !states[0].contains_key(email) && results.len() > 0 && (forall|i: int|
        0 <= i < results.len() ==> !(#[trigger] results[i] matches Err(
            UserStoreError::UnexpectedError,
        ))) {
        assert(add_user_outcome(states[0], users[0], results[0], states[1]));
        assert(users[0].email == email);
        assert forall|i: int| 1 <= i < results.len() implies #[trigger] results[i] == Err::<
            (),
            UserStoreError,
        >(UserStoreError::UserAlreadyExists) by {
            lemma_registered_stays(states, users, results, email, 1, i);
            assert(add_user_outcome(states[i], users[i], results[i], states[i + 1]));
            assert(users[i].email == email);
            assert(!(results[i] matches Err(UserStoreError::UnexpectedError)));
        }
    }
}

/// The abstract contents of a user store.
pub type UserModel = Map<Seq<char>, UserRecord>;

/// The abstract contents of a revoked-token store.
pub type TokenModel = Set<Seq<char>>;

/// The durable registry of users, keyed by email address.
pub trait UserStore {
    /// The registered users, by address.
    spec fn users(&self) -> UserModel;

    /// Registers `user`; fails with `UserAlreadyExists` if the address is
    /// taken. Check and insert are one atomic step of the store.
    fn add_user(&mut self, user: User) -> (r: Result<(), UserStoreError>)
        ensures
            add_user_outcome(old(self).users(), user@, r, final(self).users()),
    ;

    fn get_user(&self, email: &Email) -> (r: Result<User, UserStoreError>)
        ensures
            get_user_outcome(self.users(), email@, user_result_view(r)),
    ;

    /// Checks the cleartext `password` against the stored hash.
    fn validate_user(&self, email: &Email, password: &Password) -> (r: Result<(), UserStoreError>)
        ensures
            validate_user_outcome(self.users(), email@, password@, r),
    ;
}

/// The set of revoked session tokens.
pub trait BannedTokenStore {
    /// The revoked tokens.
    spec fn banned(&self) -> TokenModel;

    /// Revokes `token`; adding a token that is already there is no error.
    fn add_token(&mut self, token: String) -> (r: Result<(), BannedTokenStoreError>)
        ensures
            r is Ok ==> final(self).banned() == old(self).banned().insert(token@),
            r is Err ==> final(self).banned() == old(self).banned() || final(self).banned()
                == old(self).banned().insert(token@),
    ;

    fn contains_token(&self, token: &str) -> (r: Result<bool, BannedTokenStoreError>)
        ensures
            r matches Ok(b) ==> b == self.banned().contains(token@),
    ;
}

/// An outstanding challenge: the attempt id and the code.
pub type Challenge = (Seq<char>, Seq<char>);

/// What `add_code` may do: replace the challenge of `email`; on a backend
/// failure the write may or may not have happened.
pub open spec fn add_code_outcome(
    before: Map<Seq<char>, Challenge>,
    email: Seq<char>,
    challenge: Challenge,
    r: Result<(), TwoFACodeStoreError>,
    after: Map<Seq<char>, Challenge>,
) -> bool {
    match r {
        Ok(()) => after == before.insert(email, challenge),
        Err(TwoFACodeStoreError::UnexpectedError) => after == before || after == before.insert(
            email,
            challenge,
        ),
        Err(_) => false,
    }
}

/// What `remove_code` may do: consume the challenge of `email`, or fail
/// with `LoginAttemptIdNotFound` when there is none.
pub open spec fn remove_code_outcome(
    before: Map<Seq<char>, Challenge>,
    email: Seq<char>,
    r: Result<(), TwoFACodeStoreError>,
    after: Map<Seq<char>, Challenge>,
) -> bool {
    match r {
        Ok(()) => before.contains_key(email) && after == before.remove(email),
        Err(TwoFACodeStoreError::LoginAttemptIdNotFound) => !before.contains_key(email) && after
            == before,
        Err(TwoFACodeStoreError::UnexpectedError) => after == before || after == before.remove(
            email,
        ),
    }
}

/// What `get_code` may return for `email`.
pub open spec fn get_code_outcome(
    codes: Map<Seq<char>, Challenge>,
    email: Seq<char>,
    r: Result<Challenge, TwoFACodeStoreError>,
) -> bool {
    match r {
        Ok(c) => codes.contains_key(email) && c == codes[email],
        Err(TwoFACodeStoreError::LoginAttemptIdNotFound) => !codes.contains_key(email),
        Err(TwoFACodeStoreError::UnexpectedError) => true,
    }
}

/// The view of a `get_code` result.
pub open spec fn challenge_result_view(
    r: Result<(LoginAttemptId, TwoFACode), TwoFACodeStoreError>,
) -> Result<Challenge, TwoFACodeStoreError> {
    match r {
        Ok((id, code)) => Ok((id@, code@)),
        Err(e) => Err(e),
    }
}

/// A stored challenge reads back exactly; once consumed, reading it fails
/// with `LoginAttemptIdNotFound`. Holds for any backend whose calls do not
/// hit a backend failure.
pub proof fn lemma_challenge_round_trip(
    before: Map<Seq<char>, Challenge>,
    email: Seq<char>,
    challenge: Challenge,
    after_add: Map<Seq<char>, Challenge>,
    read: Result<Challenge, TwoFACodeStoreError>,
    removed: Result<(), TwoFACodeStoreError>,
    after_remove: Map<Seq<char>, Challenge>,
    read_again: Result<Challenge, TwoFACodeStoreError>,
)
    requires
        add_code_outcome(before, email, challenge, Ok(()), after_add),
        get_code_outcome(after_add, email, read),
        !(read matches Err(TwoFACodeStoreError::UnexpectedError)),
        remove_code_outcome(after_add, email, removed, after_remove),
        !(removed matches Err(TwoFACodeStoreError::UnexpectedError)),
        get_code_outcome(after_remove, email, read_again),
        !(read_again matches Err(TwoFACodeStoreError::UnexpectedError)),
    ensures
        read == Ok::<Challenge, TwoFACodeStoreError>(challenge),
        removed is Ok,
        read_again == Err::<Challenge, TwoFACodeStoreError>(
            TwoFACodeStoreError::LoginAttemptIdNotFound,
        ),
{
}

/// The abstract contents of a challenge store.
pub type ChallengeModel = Map<Seq<char>, Challenge>;

/// At most one live challenge per address.
pub trait TwoFACodeStore {
    /// The outstanding challenges, by address.
    spec fn codes(&self) -> ChallengeModel;

    /// Stores a challenge for `email`, replacing any earlier one.
    fn add_code(
        &mut self,
        email: Email,
        login_attempt_id: LoginAttemptId,
        code: TwoFACode,
    ) -> (r: Result<(), TwoFACodeStoreError>)
        ensures
            add_code_outcome(
                old(self).codes(),
                email@,
                (login_attempt_id@, code@),
                r,
                final(self).codes(),
            ),
    ;

    fn remove_code(&mut self, email: &Email) -> (r: Result<(), TwoFACodeStoreError>)
        ensures
            remove_code_outcome(old(self).codes(), email@, r, final(self).codes()),
    ;

    fn get_code(&self, email: &Email) -> (r: Result<(LoginAttemptId, TwoFACode), TwoFACodeStoreError>)
        ensures
            get_code_outcome(self.codes(), email@, challenge_result_view(r)),
    ;
}

pub open spec fn is_hex_digit(c: char) -> bool {
    ('0' <= c <= '9') || ('a' <= c <= 'f') || ('A' <= c <= 'F')
}

/// 32 hex digits.
pub open spec fn uuid_simple(s: Seq<char>) -> bool {
    s.len() == 32 && forall|i: int| 0 <= i < 32 ==> #[trigger] is_hex_digit(s[i])
}

/// Hex digits in groups of 8, 4, 4, 4 and 12, joined by hyphens.
pub open spec fn uuid_hyphenated(s: Seq<char>) -> bool {
    &&& s.len() == 36
    &&& forall|i: int|
        0 <= i < 36 ==> if i == 8 || i == 13 || i == 18 || i == 23 {
            s[i] == '-'
        } else {
            #[trigger] is_hex_digit(s[i])
        }
}

/// `urn:uuid:` in any mix of ASCII case.
pub open spec fn urn_uuid_prefix(p: Seq<char>) -> bool {
    &&& p.len() == 9
    &&& (p[0] == 'u' || p[0] == 'U') && (p[1] == 'r' || p[1] == 'R') && (p[2] == 'n' || p[2] == 'N')
    &&& p[3] == ':'
    &&& (p[4] == 'u' || p[4] == 'U') && (p[5] == 'u' || p[5] == 'U') && (p[6] == 'i' || p[6] == 'I')
    &&& (p[7] == 'd' || p[7] == 'D')
    &&& p[8] == ':'
}

/// The texts that `uuid::Uuid::parse_str` accepts: the simple form, the
/// hyphenated form, the hyphenated form in braces, or after `urn:uuid:`.
pub open spec fn uuid_text_accepted(s: Seq<char>) -> bool {
    ||| uuid_simple(s)
    ||| uuid_hyphenated(s)
    ||| (s.len() == 38 && s[0] == '{' && s[37] == '}' && uuid_hyphenated(s.subrange(1, 37)))
    ||| (s.len() == 45 && urn_uuid_prefix(s.take(9)) && uuid_hyphenated(s.skip(9)))
}

/// Relies on `uuid::Uuid::parse_str`: whether the text is a UUID. Every
/// accepted input is ASCII, so its length in bytes, on which the parser
/// dispatches, is its length in characters.
#[verifier::external_body]
fn is_uuid_text(s: &str) -> (r: bool)
    ensures
        r == uuid_text_accepted(s@),
{
    uuid::Uuid::parse_str(s).is_ok()
}

/// Relies on `uuid::Uuid::new_v4` and its `Display`: a fresh random UUID in
/// the hyphenated form.
#[verifier::external_body]
fn new_uuid_v4_text() -> (r: String)
    ensures
        uuid_hyphenated(r@),
{
    uuid::Uuid::new_v4().to_string()
}

/// The identifier of one outstanding second-factor challenge.
#[derive(Debug, PartialEq)]
pub struct LoginAttemptId(String);

impl View for LoginAttemptId {
    type V = Seq<char>;

    closed spec fn view(&self) -> Seq<char> {
        self.0@
    }
}

impl Clone for LoginAttemptId {
    fn clone(&self) -> (r: LoginAttemptId)
        ensures
            r@ == self@,
    {
        LoginAttemptId(self.0.clone())
    }
}

impl Default for LoginAttemptId {
    /// A fresh random identifier.
    fn default() -> (r: LoginAttemptId)
        ensures
            uuid_text_accepted(r@),
    {
        LoginAttemptId(new_uuid_v4_text())
    }
}

impl LoginAttemptId {
    /// Accepts `id` exactly when it is a UUID.
    pub fn parse(id: &str) -> (r: Result<LoginAttemptId, String>)
        ensures
            match r {
                Ok(l) => uuid_text_accepted(id@) && l@ == id@,
                Err(msg) => !uuid_text_accepted(id@) && msg@ == "Invalid UUID"@,
            },
    {
        if is_uuid_text(id) {
            Ok(LoginAttemptId(id.to_string()))
        } else {
            Err("Invalid UUID".to_string())
        }
    }

    pub fn as_str(&self) -> (r: &str)
        ensures
            r@ == self@,
    {
        self.0.as_str()
    }

    pub fn to_string(&self) -> (r: String)
        ensures
            r@ == self@,
    {
        self.0.clone()
    }

    /// Whether the two identifiers are the same text.
    pub fn same_as(&self, other: &LoginAttemptId) -> (r: bool)
        ensures
            r == (self@ == other@),
    {
        self.0 == other.0
    }
}

pub open spec fn is_ascii_digit(c: char) -> bool {
    '0' <= c <= '9'
}

/// A second-factor code: exactly six decimal digits.
pub open spec fn valid_two_fa_code(s: Seq<char>) -> bool {
    s.len() == 6 && forall|i: int| 0 <= i < 6 ==> #[trigger] is_ascii_digit(s[i])
}

/// The character of decimal digit `d`.
pub open spec fn digit_char(d: nat) -> char {
    if d == 0 {
        '0'
    } else if d == 1 {
        '1'
    } else if d == 2 {
        '2'
    } else if d == 3 {
        '3'
    } else if d == 4 {
        '4'
    } else if d == 5 {
        '5'
    } else if d == 6 {
        '6'
    } else if d == 7 {
        '7'
    } else if d == 8 {
        '8'
    } else {
        '9'
    }
}

/// The decimal text of `n`, without leading zeros.
pub open spec fn decimal_text(n: nat) -> Seq<char>
    decreases n,
{
    if n < 10 {
        seq![digit_char(n)]
    } else {
        decimal_text(n / 10).push(digit_char(n % 10))
    }
}

/// The one-character text of decimal digit `d`.
fn digit_text(d: u32) -> (r: &'static str)
    requires
        d < 10,
    ensures
        r@ == seq![digit_char(d as nat)],
{
    proof {
        reveal_strlit("0");
        reveal_strlit("1");
        reveal_strlit("2");
        reveal_strlit("3");
        reveal_strlit("4");
        reveal_strlit("5");
        reveal_strlit("6");
        reveal_strlit("7");
        reveal_strlit("8");
        reveal_strlit("9");
    }
    if d == 0 {
        "0"
    } else if d == 1 {
        "1"
    } else if d == 2 {
        "2"
    } else if d == 3 {
        "3"
    } else if d == 4 {
        "4"
    } else if d == 5 {
        "5"
    } else if d == 6 {
        "6"
    } else if d == 7 {
        "7"
    } else if d == 8 {
        "8"
    } else {
        "9"
    }
}

/// The decimal text of `n`.
fn u32_text(n: u32) -> (r: String)
    ensures
        r@ == decimal_text(n as nat),
    decreases n,
{
    if n < 10 {
        String::from_str(digit_text(n))
    } else {
        let mut text = u32_text(n / 10);
        text.append(digit_text(n % 10));
        text
    }
}

/// Relies on `rand::Rng::gen_range` over the thread-local generator: a
/// value in `low..high`, which must not be empty.
#[verifier::external_body]
fn random_in_range(low: u32, high: u32) -> (r: u32)
    requires
        low < high,
    ensures
        low <= r < high,
{
    rand::thread_rng().gen_range(low..high)
}

proof fn lemma_decimal_digits(n: nat)
    ensures
        forall|i: int|
            0 <= i < decimal_text(n).len() ==> #[trigger] is_ascii_digit(decimal_text(n)[i]),
    decreases n,
{
    let t = decimal_text(n);
    if n >= 10 {
        lemma_decimal_digits(n / 10);
        let p = decimal_text(n / 10);
        assert forall|i: int| 0 <= i < t.len() implies #[trigger] is_ascii_digit(t[i]) by {
            if i < p.len() {
                assert(t[i] == p[i]);
            }
        }
    }
}

proof fn lemma_six_digit_text(n: nat)
    requires
        100000 <= n < 1000000,
    ensures
        valid_two_fa_code(decimal_text(n)),
{
    lemma_decimal_digits(n);
    let n1 = n / 10;
    let n2 = n1 / 10;
    let n3 = n2 / 10;
    let n4 = n3 / 10;
    let n5 = n4 / 10;
    assert(1 <= n5 < 10);
    assert(decimal_text(n5).len() == 1);
    assert(decimal_text(n4).len() == 2);
    assert(decimal_text(n3).len() == 3);
    assert(decimal_text(n2).len() == 4);
    assert(decimal_text(n1).len() == 5);
    assert(decimal_text(n).len() == 6);
}

/// The smallest code that `TwoFACode::default` draws.
pub const CODE_LOW: u32 = 100000;

/// One past the largest code that `TwoFACode::default` draws.
pub const CODE_HIGH: u32 = 1000000;

/// A one-time second-factor code.
#[derive(Debug, PartialEq)]
pub struct TwoFACode(String);

impl View for TwoFACode {
    type V = Seq<char>;

    closed spec fn view(&self) -> Seq<char> {
        self.0@
    }
}

impl Clone for TwoFACode {
    fn clone(&self) -> (r: TwoFACode)
        ensures
            r@ == self@,
    {
        TwoFACode(self.0.clone())
    }
}

impl Default for TwoFACode {
    /// A fresh random six-digit code.
    fn default() -> (r: TwoFACode)
        ensures
            valid_two_fa_code(r@),
    {
        let n = random_in_range(CODE_LOW, CODE_HIGH);
        TwoFACode::from_number(n).unwrap()
    }
}

impl TwoFACode {
    /// The code whose digits are the decimal text of `n`, for `n` of six
    /// digits; `None` otherwise.
    pub fn from_number(n: u32) -> (r: Option<TwoFACode>)
        ensures
            r is Some <==> CODE_LOW <= n < CODE_HIGH,
            r matches Some(c) ==> c@ == decimal_text(n as nat) && valid_two_fa_code(c@),
    {
        if n < CODE_LOW || n >= CODE_HIGH {
            return None;
        }
        proof {
            lemma_six_digit_text(n as nat);
        }
        Some(TwoFACode(u32_text(n)))
    }

    /// Accepts `code` exactly when it is six decimal digits.
    pub fn parse(code: &str) -> (r: Result<TwoFACode, String>)
        ensures
            match r {
                Ok(c) => valid_two_fa_code(code@) && c@ == code@,
                Err(msg) => !valid_two_fa_code(code@) && msg@ == "Invalid 2FA code"@,
            },
    {
        if code.unicode_len() != 6 {
            return Err("Invalid 2FA code".to_string());
        }
        let mut i: usize = 0;
        while i < 6
            invariant
                code@.len() == 6,
                i <= 6,
                forall|k: int| 0 <= k < i ==> #[trigger] is_ascii_digit(code@[k]),
            decreases 6 - i,
        {
            let c = code.get_char(i);
            if !('0' <= c && c <= '9') {
                assert(!is_ascii_digit(code@[i as int]));
                return Err("Invalid 2FA code".to_string());
            }
            i = i + 1;
        }
        Ok(TwoFACode(code.to_string()))
    }

    pub fn as_str(&self) -> (r: &str)
        ensures
            r@ == self@,
    {
        self.0.as_str()
    }

    /// Whether the two codes are the same text.
    pub fn same_as(&self, other: &TwoFACode) -> (r: bool)
        ensures
            r == (self@ == other@),
    {
        self.0 == other.0
    }
}

} // verus!
