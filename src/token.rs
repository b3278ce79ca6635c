use vstd::prelude::*;

use crate::api_error::AuthAPIError;
use crate::data_stores::{BannedTokenStore, BannedTokenStoreError};
use crate::email::Email;

verus! {

/// The `sub` and `exp` claims that `jsonwebtoken::decode` yields for
/// `token` when its HS256 signature checks out under `secret`.
pub uninterp spec fn signed_claims(token: Seq<char>, secret: Seq<char>) -> Option<(Seq<char>, u64)>;

/// The HS256 token that `jsonwebtoken::encode` makes of the claims `sub`
/// and `exp` under `secret`.
pub uninterp spec fn hs256_token(sub: Seq<char>, exp: u64, secret: Seq<char>) -> Seq<char>;

/// The error of `jsonwebtoken::encode`, carried opaquely.
#[verifier::external_type_specification]
#[verifier::external_body]
pub struct ExJwtError(jsonwebtoken::errors::Error);

/// Relies on `jsonwebtoken::encode` with the default (HS256) header and
/// `EncodingKey::from_secret`: the token it returns carries the claims
/// `{"sub", "exp"}` and decodes to them under the same secret. An HMAC key
/// always fits HS256, HMAC takes a key of any length, and a JSON map always
/// serialises, so it does not fail.
#[verifier::external_body]
fn encode_hs256(sub: &str, exp: u64, secret: &str) -> (r: Result<String, jsonwebtoken::errors::Error>)
    ensures
        r is Ok,
        r matches Ok(t) ==> t@ == hs256_token(sub@, exp, secret@) && signed_claims(t@, secret@)
            == Some((sub@, exp)),
{
    let mut claims = serde_json::Map::new();
    claims.insert("sub".to_string(), serde_json::Value::from(sub));
    claims.insert("exp".to_string(), serde_json::Value::from(exp));
    let key = jsonwebtoken::EncodingKey::from_secret(secret.as_bytes());
    jsonwebtoken::encode(&jsonwebtoken::Header::default(), &claims, &key)
}

/// The view of a decoded pair of claims.
pub open spec fn claims_pair_view(r: Option<(String, u64)>) -> Option<(Seq<char>, u64)> {
    match r {
        Some((sub, exp)) => Some((sub@, exp)),
        None => None,
    }
}

/// Relies on `jsonwebtoken::decode` with `Validation::new(HS256)` and
/// `DecodingKey::from_secret`, its expiry check switched off (expiry is
/// judged by the caller): the `sub` and `exp` claims of a token whose
/// signature checks out.
#[verifier::external_body]
fn decode_hs256(token: &str, secret: &str) -> (r: Option<(String, u64)>)
    ensures
        claims_pair_view(r) == signed_claims(token@, secret@),
{
    let key = jsonwebtoken::DecodingKey::from_secret(secret.as_bytes());
    let mut validation = jsonwebtoken::Validation::new(jsonwebtoken::Algorithm::HS256);
    validation.validate_exp = false;
    let data = jsonwebtoken::decode::<serde_json::Map<String, serde_json::Value>>(token, &key, &validation).ok()?;
    Some((data.claims.get("sub")?.as_str()?.to_string(), data.claims.get("exp")?.as_u64()?))
}

/// How long a session token lives, in seconds.
pub const TOKEN_TTL_SECONDS: u64 = 600;

/// What a valid session token states: its subject (an email address) and
/// its expiry instant, in seconds since the Unix epoch.
#[derive(Debug, PartialEq)]
pub struct Claims {
    pub sub: String,
    pub exp: u64,
}

/// The claims of `token` that are accepted at instant `now` when the
/// revocation check says `revoked`: a good signature, an expiry still in
/// the future, and no revocation.
pub open spec fn accepted_claims(token: Seq<char>, secret: Seq<char>, now: u64, revoked: bool) -> Option<
    (Seq<char>, u64),
> {
    match signed_claims(token, secret) {
        Some((sub, exp)) => if !revoked && now < exp {
            Some((sub, exp))
        } else {
            None
        },
        None => None,
    }
}

/// Issues, signs and checks session tokens. Built once at start-up from
/// the configuration.
pub struct TokenService {
    pub jwt_secret: String,
    pub token_ttl_seconds: u64,
}

impl TokenService {
    /// A service that signs with `jwt_secret` and issues tokens that live
    /// `TOKEN_TTL_SECONDS`.
    pub fn new(jwt_secret: String) -> (r: TokenService)
        ensures
            r.jwt_secret@ == jwt_secret@,
            r.token_ttl_seconds == TOKEN_TTL_SECONDS,
    {
        TokenService { jwt_secret, token_ttl_seconds: TOKEN_TTL_SECONDS }
    }

    /// The expiry of a token issued at `now`.
    pub open spec fn expiry_for(&self, now: u64) -> int {
        now + self.token_ttl_seconds
    }

    /// `token` is the session token issued for `email` at `now`: signed
    /// over the address and the expiry `now + token_ttl_seconds`.
    pub open spec fn issued_token(&self, email: Seq<char>, now: u64, token: Seq<char>) -> bool {
        &&& self.expiry_for(now) <= u64::MAX
        &&& token == hs256_token(email, self.expiry_for(now) as u64, self.jwt_secret@)
        &&& signed_claims(token, self.jwt_secret@) == Some((email, self.expiry_for(now) as u64))
    }

    /// A signed token for `email` that expires a fixed time after `now`.
    pub fn issue(&self, email: &Email, now: u64) -> (r: Result<String, AuthAPIError>)
        ensures
            match r {
                Ok(t) => self.issued_token(email@, now, t@),
                Err(e) => e == AuthAPIError::UnexpectedError,
            },
            r is Ok <==> self.expiry_for(now) <= u64::MAX,
    {
        let exp = match now.checked_add(self.token_ttl_seconds) {
            Some(exp) => exp,
            None => return Err(AuthAPIError::UnexpectedError),
        };
        match encode_hs256(email.as_str(), exp, self.jwt_secret.as_str()) {
            Ok(t) => Ok(t),
            Err(_) => Err(AuthAPIError::UnexpectedError),
        }
    }

    /// Judges `token` at instant `now`, given the revocation check's
    /// answer `revoked`. The signature is checked whatever `revoked` says.
    pub fn check_claims(&self, token: &str, revoked: bool, now: u64) -> (r: Result<
        Claims,
        AuthAPIError,
    >)
        ensures
            match r {
                Ok(c) => accepted_claims(token@, self.jwt_secret@, now, revoked) == Some(
                    (c.sub@, c.exp),
                ),
                Err(e) => accepted_claims(token@, self.jwt_secret@, now, revoked) is None && e
                    == AuthAPIError::InvalidToken,
            },
    {
        match decode_hs256(token, self.jwt_secret.as_str()) {
            Some((sub, exp)) => {
                if !revoked && now < exp {
                    Ok(Claims { sub, exp })
                } else {
                    Err(AuthAPIError::InvalidToken)
                }
            },
            None => Err(AuthAPIError::InvalidToken),
        }
    }

    /// Validates `token` at instant `now`: signature, expiry, and the
    /// revoked-token store are all consulted on every call. A failure of
    /// the store rejects the token.
    pub fn validate<B: BannedTokenStore>(&self, token: &str, banned: &B, now: u64) -> (r: Result<
        Claims,
        AuthAPIError,
    >)
        ensures
            match r {
                Ok(c) => accepted_claims(
                    token@,
                    self.jwt_secret@,
                    now,
                    banned.banned().contains(token@),
                ) == Some((c.sub@, c.exp)),
                Err(e) => e == AuthAPIError::InvalidToken,
            },
            accepted_claims(token@, self.jwt_secret@, now, banned.banned().contains(token@))
                is None ==> r is Err,
    {
        let answer = banned.contains_token(token);
        self.judge(token, answer, now)
    }

    /// Judges `token` at instant `now` from the revoked-token store's answer:
    /// as `check_claims` does when the store answered, and rejected when the
    /// store failed.
    pub fn judge(&self, token: &str, answer: Result<bool, BannedTokenStoreError>, now: u64) -> (r:
        Result<Claims, AuthAPIError>)
        ensures
            match answer {
                Ok(revoked) => match r {
                    Ok(c) => accepted_claims(token@, self.jwt_secret@, now, revoked) == Some(
                        (c.sub@, c.exp),
                    ),
                    Err(e) => accepted_claims(token@, self.jwt_secret@, now, revoked) is None && e
                        == AuthAPIError::InvalidToken,
                },
                Err(_) => r == Err::<Claims, AuthAPIError>(AuthAPIError::InvalidToken),
            },
    {
        match answer {
            Ok(revoked) => self.check_claims(token, revoked, now),
            Err(_) => Err(AuthAPIError::InvalidToken),
        }
    }
}

/// A session token is accepted at every instant before its expiry until it
/// is revoked, and at no instant once it is revoked or expired.
pub proof fn lemma_issued_token_lifecycle(
    tokens: TokenService,
    email: Seq<char>,
    issued_at: u64,
    token: Seq<char>,
    revoked: Set<Seq<char>>,
    now: u64,
)
    requires
        tokens.issued_token(email, issued_at, token),
    ensures
        accepted_claims(token, tokens.jwt_secret@, now, revoked.contains(token)) == if now
            < tokens.expiry_for(issued_at) && !revoked.contains(token) {
            Some((email, tokens.expiry_for(issued_at) as u64))
        } else {
            None::<(Seq<char>, u64)>
        },
        accepted_claims(token, tokens.jwt_secret@, now, revoked.insert(token).contains(token))
            is None,
{
}

} // verus!
