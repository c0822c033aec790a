//! HTTP status codes of token endpoint replies, and the errors they stand for.

use vstd::prelude::*;
use vstd::string::*;

use crate::error::{ErrorView, Oauth2Error};

verus! {

/// The numbers that are HTTP status codes.
pub open spec fn is_status_code(code: u16) -> bool {
    100 <= code <= 999
}

/// The status codes of success.
pub open spec fn is_success(code: u16) -> bool {
    200 <= code <= 299
}

/// The status codes that put the blame on the request.
pub open spec fn is_client_error(code: u16) -> bool {
    400 <= code <= 499
}

/// The three decimal digits of a status code.
pub open spec fn status_digits(code: u16) -> Seq<char> {
    seq![
        ('0' as int + code / 100) as char,
        ('0' as int + code / 10 % 10) as char,
        ('0' as int + code % 10) as char,
    ]
}

/// What `reqwest` writes for a status code: the code and its standard reason
/// phrase.
pub uninterp spec fn status_text(code: u16) -> Seq<char>;

/// Calls the `Display` formatting of `reqwest::StatusCode`. Claims that the
/// text is a function of the code alone, and that it begins with the three
/// digits of the code and a space; which reason phrase follows is not said.
#[verifier::external_body]
pub(crate) fn describe_status(code: u16) -> (text: String)
    requires
        is_status_code(code),
    ensures
        text@ == status_text(code),
        (status_digits(code) + " "@).is_prefix_of(text@),
{
    reqwest::StatusCode::from_u16(code).unwrap().to_string()
}

/// What a rejection message says before it gives the status.
pub open spec fn refusal_lead(code: u16) -> Seq<char> {
    if is_client_error(code) {
        "token endpoint rejected the grant ("@
    } else {
        "token endpoint failed ("@
    }
}

/// The error that a reply without success stands for: permanent for a client
/// error, temporary for anything else.
pub open spec fn refusal(code: u16, text: Seq<char>, body: Seq<char>) -> ErrorView {
    let msg = refusal_lead(code) + text + " "@ + body + ")"@;
    if is_client_error(code) {
        ErrorView::Permanent(msg)
    } else {
        ErrorView::Temporary(msg)
    }
}

/// Makes the error that a reply without success stands for, out of the status
/// code, the text that describes it, and the body of the reply.
pub fn refused(code: u16, text: &str, body: &str) -> (err: Oauth2Error)
    ensures
        err@ == refusal(code, text@, body@),
{
    let permanent = 400 <= code && code < 500;
    let mut msg = if permanent {
        "token endpoint rejected the grant (".to_owned()
    } else {
        "token endpoint failed (".to_owned()
    };
    msg.append(text);
    msg.append(" ");
    msg.append(body);
    msg.append(")");
    if permanent {
        Oauth2Error::Permanent(msg)
    } else {
        Oauth2Error::Temporary(msg)
    }
}

/// The error for a reply without success gives the number of its status, where
/// the text that describes the status begins with it.
pub proof fn law_refusal_names_status(code: u16, text: Seq<char>, body: Seq<char>)
    requires
        (status_digits(code) + " "@).is_prefix_of(text),
    ensures
        (refusal_lead(code) + status_digits(code) + " "@).is_prefix_of(
            refusal(code, text, body).message(),
        ),
{
    let lead = refusal_lead(code);
    let head = status_digits(code) + " "@;
    let msg = refusal(code, text, body).message();
    assert(msg.subrange(0, (lead.len() + text.len()) as int) =~= lead + text);
    assert(head =~= text.subrange(0, head.len() as int));
    let start = lead + status_digits(code) + " "@;
    assert(start =~= lead + head);
    assert(start =~= msg.subrange(0, start.len() as int)) by {
        assert forall|i: int| 0 <= i < start.len() implies start[i] == msg[i] by {
            assert(msg[i] == (lead + text)[i]);
            if i >= lead.len() {
                assert(head[i - lead.len()] == text[i - lead.len()]);
            }
        }
    }
}

/// The digits of a status code spell it in base ten.
pub proof fn law_status_digits_spell_the_code(code: u16)
    requires
        100 <= code <= 999,
    ensures
        ({
            let digits = status_digits(code);
            &&& digits.len() == 3
            &&& '0' <= digits[0] <= '9'
            &&& '0' <= digits[1] <= '9'
            &&& '0' <= digits[2] <= '9'
            &&& code == 100 * (digits[0] as int - '0' as int) + 10 * (digits[1] as int
                - '0' as int) + (digits[2] as int - '0' as int)
        }),
{
}

/// Refusals with a status from 400 to 499 are permanent and say that the grant
/// was rejected; all others are temporary and say that the endpoint failed.
/// Either way the description of the status and the reply follow in full.
pub proof fn law_refusal_by_status(code: u16, text: Seq<char>, body: Seq<char>)
    ensures
        400 <= code <= 499 ==> refusal(code, text, body) == ErrorView::Permanent(
            "token endpoint rejected the grant ("@ + text + " "@ + body + ")"@,
        ),
        !(400 <= code <= 499) ==> refusal(code, text, body) == ErrorView::Temporary(
            "token endpoint failed ("@ + text + " "@ + body + ")"@,
        ),
{
}

} // verus!
