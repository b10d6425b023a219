//! Email addresses and the body of an outbound email.
use vstd::prelude::*;
use crate::ValidationError;

verus! {

/// Whether `s` is a syntactically valid email address (HTML5 address grammar).
pub uninterp spec fn is_valid_email(s: Seq<char>) -> bool;

/// Relies on `validator::validate_email`: the verdict depends on the text alone,
/// and an address without an `@` is always refused.
#[verifier::external_body]
fn validate_email(s: &str) -> (r: bool)
    ensures
        r == is_valid_email(s@),
        r ==> s@.contains('@'),
{
    validator::validate_email(s)
}

/// A syntactically valid email address.
pub struct EmailAdderess(String);

impl View for EmailAdderess {
    type V = Seq<char>;

    closed spec fn view(&self) -> Seq<char> {
        self.0@
    }
}

impl EmailAdderess {
    #[verifier::type_invariant]
    closed spec fn well_formed(self) -> bool {
        is_valid_email(self.0@)
    }

    /// Accepts `s` exactly when it is a valid address.
    pub fn new(s: String) -> (r: Result<EmailAdderess, ValidationError>)
        ensures
            r is Ok <==> is_valid_email(s@),
            r matches Ok(e) ==> e@ == s@,
            r matches Err(e) ==> e == ValidationError::InvalidEmail,
    {
        if validate_email(s.as_str()) {
            Ok(EmailAdderess(s))
        } else {
            Err(ValidationError::InvalidEmail)
        }
    }

    pub fn as_str(&self) -> (r: &str)
        ensures
            r@ == self@,
    {
        self.0.as_str()
    }

    pub fn to_string(&self) -> (r: String)
        ensures
            r@ == self@,
    {
        self.0.clone()
    }
}

impl Clone for EmailAdderess {
    fn clone(&self) -> (r: EmailAdderess)
        ensures
            r@ == self@,
    {
        proof {
            use_type_invariant(self);
        }
        EmailAdderess(self.0.clone())
    }
}

/// What is posted to the email provider for one message.
pub struct EmailRequestBody {
    pub from: String,
    pub to: String,
    pub subject: String,
    pub text_body: String,
    pub html_body: String,
}

impl EmailRequestBody {
    /// The request for one message from `from` to `to`.
    pub fn new(from: &EmailAdderess, to: &EmailAdderess, subject: &str, text_body: &str, html_body: &str) -> (r: EmailRequestBody)
        ensures
            r.from@ == from@,
            r.to@ == to@,
            r.subject@ == subject@,
            r.text_body@ == text_body@,
            r.html_body@ == html_body@,
    {
        EmailRequestBody {
            from: from.to_string(),
            to: to.to_string(),
            subject: String::from_str(subject),
            text_body: String::from_str(text_body),
            html_body: String::from_str(html_body),
        }
    }
}

} // verus!
