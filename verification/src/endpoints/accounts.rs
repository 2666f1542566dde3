//! Account creation.

use vstd::prelude::*;
use vstd::string::{StrSliceExecFns, StringExecFns};
use vstd::utf8::encode_utf8;

use crate::chars::{all_name_chars, spec_ascii_word_char, spec_name_char, spec_word_char};
use crate::correlate::OperationKind;
use crate::encoding::{
    account_body, lemma_json_escape_plain, spec_account_body, spec_json_escape,
    spec_json_plain_char,
};
use crate::rate_limits::{account_creation_rate_limit, spec_account_creation_rate_limit};
use crate::request::{spec_write_headers, write_headers, EncodedRequest, Method, RequestView};
use crate::validate::{
    spec_email_error, spec_email_split, spec_password_error, spec_username_error, Email, Password,
    Username,
};
use crate::Error;

verus! {

/// The account-creation operation; its response decodes as
/// [`CreateAccountResponse`].
pub struct CreateAccountRequest;

/// Payload of a successful account creation.
#[derive(Debug, Clone, PartialEq, Eq)]
pub struct CreateAccountResponse {
    pub message: String,
}

/// The descriptor `create_account` builds.
pub open spec fn spec_create_account_descriptor(u: Seq<char>, p: Seq<char>, e: Seq<char>)
    -> RequestView {
    RequestView {
        method: Method::Post,
        path: "/accounts/create"@,
        headers: spec_write_headers(),
        content: encode_utf8(spec_account_body(u, p, e)),
        rate_limit: spec_account_creation_rate_limit(),
        kind: OperationKind::AccountCreate,
    }
}

/// Build the account creation: succeeds exactly when the username, password
/// and email each satisfy their constraint, and the body carries the three
/// fields JSON-encoded.
pub fn create_account(username: &str, password: &str, email: &str) -> (r: Result<
    EncodedRequest,
    Error,
>)
    ensures
        r is Ok <==> Username::valid(username@) && Password::valid(password@) && Email::valid(
            email@,
        ),
        r matches Ok(req) ==> req@ == spec_create_account_descriptor(
            username@,
            password@,
            email@,
        ),
        !Username::valid(username@) ==> (r matches Err(Error::InvalidInput(m)) && m@
            == spec_username_error(username@)),
        Username::valid(username@) && !Password::valid(password@) ==> (r matches Err(
            Error::InvalidInput(m),
        ) && m@ == spec_password_error(password@)),
        Username::valid(username@) && Password::valid(password@) && !Email::valid(email@) ==> (
        r matches Err(Error::InvalidInput(m)) && m@ == spec_email_error(email@)),
{
    let user = match Username::try_new(username) {
        Ok(v) => v,
        Err(err) => return Err(err),
    };
    let pass = match Password::try_new(password) {
        Ok(v) => v,
        Err(err) => return Err(err),
    };
    let mail = match Email::try_new(email) {
        Ok(v) => v,
        Err(err) => return Err(err),
    };
    let user_s = user.into_inner();
    let pass_s = pass.into_inner();
    let mail_s = mail.into_inner();
    let body = account_body(user_s.as_str(), pass_s.as_str(), mail_s.as_str());
    let content = body.as_str().as_bytes_vec();
    let req = EncodedRequest {
        method: Method::Post,
        path: String::from_str("/accounts/create"),
        headers: write_headers(),
        content,
        rate_limit: account_creation_rate_limit(),
        kind: OperationKind::AccountCreate,
    };
    proof {
        assert(req@ =~= spec_create_account_descriptor(username@, password@, email@));
    }
    Ok(req)
}

/// Law: for valid inputs the body embeds the three fields verbatim. The one
/// extra premise is that the password has no character JSON must escape
/// (quote, backslash, or a control character): those are carried escaped, not
/// verbatim.
pub proof fn lemma_account_body_verbatim(u: Seq<char>, p: Seq<char>, e: Seq<char>)
    requires
        Username::valid(u),
        Password::valid(p),
        Email::valid(e),
        forall|i: int| 0 <= i < p.len() ==> spec_json_plain_char(p[i]),
    ensures
        spec_account_body(u, p, e) == "{\"email\":\""@ + e + "\",\"password\":\""@ + p
            + "\",\"username\":\""@ + u + "\"}"@,
{
    assert forall|i: int| 0 <= i < u.len() implies spec_json_plain_char(u[i]) by {
        assert(spec_name_char(u[i]));
    }
    lemma_json_escape_plain(u);
    lemma_json_escape_plain(p);
    let (i0, j0) = choose|i0: int, j0: int| spec_email_split(e, i0, j0);
    assert forall|i: int| 0 <= i < e.len() implies spec_json_plain_char(e[i]) by {
        if i != i0 && i != j0 {
            assert(spec_word_char(e[i]));
            if (e[i] as u32) < 0x80 {
                assert(spec_ascii_word_char(e[i]));
            } else {
                assert(e[i] != '"' && e[i] != '\\') by {
                    assert('"' as u32 == 0x22 && '\\' as u32 == 0x5c);
                }
            }
        }
    }
    lemma_json_escape_plain(e);
}

} // verus!
