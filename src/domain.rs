use validator::ValidateEmail;
use vstd::prelude::*;
use vstd::string::*;

verus! {

/// Whether validator's e-mail check accepts the string.
pub uninterp spec fn valid_email(s: Seq<char>) -> bool;

/// Relies on validator's ValidateEmail::validate_email for String: a check of the local and
/// domain parts that depends on the string alone.
#[verifier::external_body]
fn email_is_valid(s: &String) -> (r: bool)
    ensures
        r == valid_email(s@),
{
    s.validate_email()
}

/// An e-mail address that passed validation.
pub struct SubscriberEmail {
    pub email_field: String,
}

pub const INVALID_EMAIL_SUFFIX: &'static str = " is not a valid subscriber email.";

impl SubscriberEmail {
    /// Accepts exactly the addresses that validator accepts; the error names the input.
    pub fn parse(s: String) -> (r: Result<SubscriberEmail, String>)
        ensures
            r is Ok <==> valid_email(s@),
            r is Ok ==> r->Ok_0.email_field@ == s@,
            r is Err ==> r->Err_0@ == s@ + INVALID_EMAIL_SUFFIX@,
    {
        if email_is_valid(&s) {
            Ok(SubscriberEmail { email_field: s })
        } else {
            let mut message = s;
            message.append(INVALID_EMAIL_SUFFIX);
            Err(message)
        }
    }

    pub fn as_ref(&self) -> (r: &str)
        ensures
            r@ == self.email_field@,
    {
        self.email_field.as_str()
    }

    pub fn to_string(&self) -> (r: String)
        ensures
            r@ == self.email_field@,
    {
        self.email_field.clone()
    }
}

/// A subscription request whose e-mail address has been validated.
pub struct NewSubscriber {
    pub email: SubscriberEmail,
    pub name: String,
}

} // verus!
