//! The only places where outside code is relied on: base64 for the credential
//! header, http's own validation of path-and-query strings and header values,
//! and std's Unicode character class and `String::push`. Each wrapper's
//! contract states no more than the called code's source or documentation
//! shows.

use vstd::prelude::*;

use base64::Engine;

use crate::chars::{all_base64_chars, all_header_value_chars, spec_valid_wire_path};

verus! {

/// What base64's standard engine returns for the UTF-8 bytes of a string. The
/// result is a function of the input alone; it is named rather than spelled
/// out.
pub uninterp spec fn base64_of(s: Seq<char>) -> Seq<char>;

/// Relies on base64's `Engine::encode` with `BASE64_STANDARD` (RFC 4648,
/// padded): the output is determined by the input bytes and is drawn from the
/// standard alphabet `A-Z a-z 0-9 + /` plus the `=` pad.
#[verifier::external_body]
pub(crate) fn base64_encode_str(s: &str) -> (r: String)
    ensures
        r@ == base64_of(s@),
        all_base64_chars(r@),
{
    base64::prelude::BASE64_STANDARD.encode(s)
}

/// Holds when `r` is the one string whose standard base64 encoding is `s`:
/// whenever `s` encodes some text, `r` carries exactly that text.
pub open spec fn decodes_base64_exactly(s: Seq<char>, r: Option<String>) -> bool {
    forall|t: Seq<char>| s == base64_of(t) ==> (r matches Some(v) && v@ == t)
}

/// Relies on base64's `Engine::decode` with `BASE64_STANDARD`: decoding
/// inverts encoding, and the engine requires canonical padding, so an input
/// that is the encoding of some string comes back as exactly that string (the
/// UTF-8 bytes of a `str` decode back to valid UTF-8, so rebuilding the
/// `String` succeeds on such input).
#[verifier::external_body]
pub(crate) fn base64_decode_str(s: &str) -> (r: Option<String>)
    ensures
        decodes_base64_exactly(s@, r),
{
    match base64::prelude::BASE64_STANDARD.decode(s) {
        Ok(bytes) => match String::from_utf8(bytes) {
            Ok(v) => Some(v),
            Err(_) => None,
        },
        Err(_) => None,
    }
}

/// Relies on `http::uri::PathAndQuery::from_str`: it accepts any string that
/// starts with `/`, stays within the unreserved path/query characters this
/// crate emits, and is at most 65534 bytes; it rejects any longer string.
#[verifier::external_body]
pub(crate) fn check_path_and_query(s: &str) -> (r: bool)
    ensures
        spec_valid_wire_path(s@) ==> r,
        s@.len() > 65534 ==> !r,
{
    <http::uri::PathAndQuery as core::str::FromStr>::from_str(s).is_ok()
}

/// Relies on `http::HeaderValue::from_str`: it succeeds exactly when every
/// byte is 32 or above and not 127, or a tab; seen char by char that is
/// every character except the controls below space (other than tab) and DEL,
/// since the bytes of a multi-byte character are all at least 0x80.
#[verifier::external_body]
pub(crate) fn check_header_value(s: &str) -> (r: bool)
    ensures
        r <==> all_header_value_chars(s@),
{
    http::HeaderValue::from_str(s).is_ok()
}

/// Relies on `char::is_alphanumeric`: true exactly for a character in the
/// Unicode `Alphabetic` class or one of the numeric classes (`Nd`, `Nl`,
/// `No`), as std documents. This is the word-character class the email
/// pattern admits beyond ASCII; the result depends on the character alone.
#[verifier::external_body]
pub(crate) fn is_alphanumeric_char(c: char) -> (b: bool)
    ensures
        b == crate::chars::alphanumeric_of(c),
{
    c.is_alphanumeric()
}

/// Relies on `String::push`: appends the one character.
#[verifier::external_body]
pub(crate) fn push_char(s: &mut String, c: char)
    ensures
        final(s)@ == old(s)@.push(c),
{
    s.push(c);
}

} // verus!
