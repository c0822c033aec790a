//! Why an access token could not be obtained.

use vstd::prelude::*;
use vstd::string::*;

verus! {

/// Failure to obtain an access token.
#[derive(Debug)]
pub enum Oauth2Error {
    /// The failure is likely transient (network error, 5xx, timeout): the
    /// queue should retry.
    Temporary(String),
    /// The failure is permanent (bad credentials, rejected grant): retrying
    /// without operator action will not succeed.
    Permanent(String),
}

/// An error as contracts speak of it: its kind and its message.
#[verifier::ext_equal]
pub enum ErrorView {
    Temporary(Seq<char>),
    Permanent(Seq<char>),
}

impl View for Oauth2Error {
    type V = ErrorView;

    open spec fn view(&self) -> ErrorView {
        match self {
            Oauth2Error::Temporary(msg) => ErrorView::Temporary(msg@),
            Oauth2Error::Permanent(msg) => ErrorView::Permanent(msg@),
        }
    }
}

impl ErrorView {
    pub open spec fn message(self) -> Seq<char> {
        match self {
            ErrorView::Temporary(msg) => msg,
            ErrorView::Permanent(msg) => msg,
        }
    }
}

impl Clone for Oauth2Error {
    fn clone(&self) -> (r: Self)
        ensures
            r == *self,
    {
        match self {
            Oauth2Error::Temporary(msg) => Oauth2Error::Temporary(msg.clone()),
            Oauth2Error::Permanent(msg) => Oauth2Error::Permanent(msg.clone()),
        }
    }
}

impl PartialEq for Oauth2Error {
    fn eq(&self, other: &Self) -> (r: bool)
        ensures
            r <==> (match (self, other) {
                (Oauth2Error::Temporary(a), Oauth2Error::Temporary(b)) => a@ == b@,
                (Oauth2Error::Permanent(a), Oauth2Error::Permanent(b)) => a@ == b@,
                _ => false,
            }),
    {
        match (self, other) {
            (Oauth2Error::Temporary(a), Oauth2Error::Temporary(b)) => *a == *b,
            (Oauth2Error::Permanent(a), Oauth2Error::Permanent(b)) => *a == *b,
            _ => false,
        }
    }
}

impl vstd::std_specs::cmp::PartialEqSpecImpl for Oauth2Error {
    open spec fn obeys_eq_spec() -> bool {
        true
    }

    open spec fn eq_spec(&self, other: &Self) -> bool {
        self@ == other@
    }
}

impl Eq for Oauth2Error {

}

impl Oauth2Error {
    /// The error as shown to an operator.
    pub fn to_string(&self) -> (r: String)
        ensures
            r@ == "OAuth2 token error: "@ + self@.message(),
            r@ == "OAuth2 token error: "@ + (match self {
                Oauth2Error::Temporary(msg) => msg@,
                Oauth2Error::Permanent(msg) => msg@,
            }),
    {
        let msg = match self {
            Oauth2Error::Temporary(msg) => msg,
            Oauth2Error::Permanent(msg) => msg,
        };
        let mut out = "OAuth2 token error: ".to_owned();
        out.append(msg.as_str());
        out
    }
}

/// Errors are equal exactly when they are of the same kind and have the same
/// message.
pub proof fn law_errors_are_equal_by_kind_and_message(a: Oauth2Error, b: Oauth2Error)
    ensures
        vstd::std_specs::cmp::PartialEqSpec::eq_spec(&a, &b) <==> (match (a, b) {
            (Oauth2Error::Temporary(x), Oauth2Error::Temporary(y)) => x@ == y@,
            (Oauth2Error::Permanent(x), Oauth2Error::Permanent(y)) => x@ == y@,
            (Oauth2Error::Temporary(_), Oauth2Error::Permanent(_)) => false,
            (Oauth2Error::Permanent(_), Oauth2Error::Temporary(_)) => false,
        }),
{
}

/// Contracts see of an error its kind and its whole message.
pub proof fn law_error_view_is_faithful(err: Oauth2Error)
    ensures
        match err {
            Oauth2Error::Temporary(msg) => err@ == ErrorView::Temporary(msg@) && err@.message()
                == msg@,
            Oauth2Error::Permanent(msg) => err@ == ErrorView::Permanent(msg@) && err@.message()
                == msg@,
        },
{
}

} // verus!
