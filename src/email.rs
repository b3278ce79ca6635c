use vstd::prelude::*;

use crate::data_stores::UserStoreError;

verus! {

/// Whether `s` is an address that `validator`'s email check accepts (the
/// HTML5 form of an address, with length limits on its two parts).
pub uninterp spec fn email_address_accepted(s: Seq<char>) -> bool;

/// Relies on `validator::ValidateEmail::validate_email` for `&str`: the
/// verdict depends on the text alone.
#[verifier::external_body]
fn validate_email_address(s: &str) -> (r: bool)
    ensures
        r == email_address_accepted(s@),
{
    validator::ValidateEmail::validate_email(&s)
}

/// A syntactically valid email address; the natural key of users and of
/// second-factor challenges.
#[derive(Debug, PartialEq, Eq, Hash)]
pub struct Email(String);

impl View for Email {
    type V = Seq<char>;

    closed spec fn view(&self) -> Seq<char> {
        self.0@
    }
}

impl Clone for Email {
    fn clone(&self) -> (r: Email)
        ensures
            r@ == self@,
    {
        Email(self.0.clone())
    }
}

impl Email {
    /// Accepts `email` exactly when it is a valid address.
    pub fn parse(email: &str) -> (r: Result<Email, UserStoreError>)
        ensures
            match r {
                Ok(e) => email_address_accepted(email@) && e@ == email@,
                Err(err) => !email_address_accepted(email@) && err == UserStoreError::InvalidEmail,
            },
    {
        if validate_email_address(email) {
            Ok(Email(email.to_string()))
        } else {
            Err(UserStoreError::InvalidEmail)
        }
    }

    /// The address's text.
    pub fn as_str(&self) -> (r: &str)
        ensures
            r@ == self@,
    {
        self.0.as_str()
    }

    /// A copy of the address's text.
    pub fn to_string(&self) -> (r: String)
        ensures
            r@ == self@,
    {
        self.0.clone()
    }

    /// Whether the two addresses are the same text.
    pub fn same_as(&self, other: &Email) -> (r: bool)
        ensures
            r == (self@ == other@),
    {
        self.0 == other.0
    }
}

} // verus!
