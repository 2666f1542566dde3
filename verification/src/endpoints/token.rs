//! The credential exchange that issues a bearer token.

use vstd::prelude::*;
use vstd::string::StringExecFns;

use crate::chars::{
    all_base64_chars, all_header_value_chars, lemma_base64_char_is_header_value_char,
    spec_base64_char, spec_header_value_char,
};
use crate::correlate::OperationKind;
use crate::encoding::{credentials, spec_credentials};
use crate::rate_limits::{spec_token_rate_limit, token_rate_limit};
use crate::request::{EncodedRequest, HeaderName, Method, RequestView, spec_headers_view};
use crate::wire::{base64_decode_str, base64_encode_str, base64_of, check_header_value};
use crate::Error;

verus! {

/// The descriptor `generate_token` builds: the Authorization header carries
/// the base64 of `<username>:<password>`.
pub open spec fn spec_token_descriptor(u: Seq<char>, p: Seq<char>) -> RequestView {
    RequestView {
        method: Method::Post,
        path: "/token/"@,
        headers: seq![
            (HeaderName::Accept, "application/json"@),
            (HeaderName::Authorization, base64_of(spec_credentials(u, p))),
        ],
        content: Seq::empty(),
        rate_limit: spec_token_rate_limit(),
        kind: OperationKind::TokenGenerate,
    }
}

/// Build the token exchange. Any credential pair can be carried, since the
/// base64 alphabet is always a legal header value, so this never fails.
pub fn generate_token(username: &str, password: &str) -> (r: Result<EncodedRequest, Error>)
    ensures
        r matches Ok(req) && req@ == spec_token_descriptor(username@, password@),
{
    let cred = credentials(username, password);
    let auth = base64_encode_str(cred.as_str());
    proof {
        assert forall|i: int|
            0 <= i < auth@.len() implies spec_header_value_char(auth@[i]) by {
            assert(spec_base64_char(auth@[i]));
            lemma_base64_char_is_header_value_char(auth@[i]);
        }
        assert(all_header_value_chars(auth@));
    }
    if !check_header_value(auth.as_str()) {
        return Err(Error::EncodingError(String::from_str("credentials not encodable")));
    }
    let mut headers: Vec<(HeaderName, String)> = Vec::new();
    headers.push((HeaderName::Accept, String::from_str("application/json")));
    headers.push((HeaderName::Authorization, auth));
    let req = EncodedRequest {
        method: Method::Post,
        path: String::from_str("/token/"),
        headers,
        content: Vec::new(),
        rate_limit: token_rate_limit(),
        kind: OperationKind::TokenGenerate,
    };
    proof {
        assert(req@.content =~= Seq::<u8>::empty());
        assert(req@.headers =~= spec_token_descriptor(username@, password@).headers);
        assert(req@ =~= spec_token_descriptor(username@, password@));
    }
    Ok(req)
}

/// Law: the credential encoding round-trips. Decoding the value that
/// `generate_token` places in the Authorization header yields exactly
/// `<username>:<password>`, for every credential pair.
pub fn credentials_round_trip(username: &str, password: &str) -> (r: Option<String>)
    ensures
        r matches Some(v) && v@ == spec_credentials(username@, password@),
{
    let cred = credentials(username, password);
    let auth = base64_encode_str(cred.as_str());
    base64_decode_str(auth.as_str())
}

} // verus!
