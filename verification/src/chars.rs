//! Character classes used by the validated value types and by the
//! path-and-query encoder, with executable checks proved against them.

use vstd::prelude::*;

verus! {

/// Characters accepted in codes, names and usernames: ASCII letters, digits,
/// `_` and `-`.
pub open spec fn spec_name_char(c: char) -> bool {
    let u = c as u32;
    (0x61 <= u && u <= 0x7a) || (0x41 <= u && u <= 0x5a) || (0x30 <= u && u <= 0x39) || u == 0x5f
        || u == 0x2d
}

/// The reach of the word-character class beyond ASCII: what
/// `char::is_alphanumeric` returns. It is a function of the character alone;
/// the Unicode tables behind it would take pages, so it is named, and the
/// wire module ties the name to the callee.
pub uninterp spec fn alphanumeric_of(c: char) -> bool;

/// The ASCII word characters: letters, digits and `_`.
pub open spec fn spec_ascii_word_char(c: char) -> bool {
    let u = c as u32;
    (0x61 <= u && u <= 0x7a) || (0x41 <= u && u <= 0x5a) || (0x30 <= u && u <= 0x39) || u == 0x5f
}

/// Word characters for the email pattern: within ASCII the letters, digits
/// and `_`; beyond ASCII whatever the Unicode alphanumeric class admits.
pub open spec fn spec_word_char(c: char) -> bool {
    if (c as u32) < 0x80 {
        spec_ascii_word_char(c)
    } else {
        alphanumeric_of(c)
    }
}

/// Whitespace (the Unicode `White_Space` set), which passwords must not
/// contain.
pub open spec fn spec_whitespace_char(c: char) -> bool {
    let u = c as u32;
    (0x09 <= u && u <= 0x0d) || u == 0x20 || u == 0x85 || u == 0xa0 || u == 0x1680 || (0x2000 <= u
        && u <= 0x200a) || u == 0x2028 || u == 0x2029 || u == 0x202f || u == 0x205f || u == 0x3000
}

/// Every character this crate ever writes into a path-and-query string: name
/// characters plus `/`, `?`, `=` and `&`.
pub open spec fn spec_path_char(c: char) -> bool {
    let u = c as u32;
    spec_name_char(c) || u == 0x2f || u == 0x3f || u == 0x3d || u == 0x26
}

/// Characters legal in an HTTP header value: everything from space upward
/// except DEL, plus tab. (The bytes of a multi-byte character are all at
/// least 0x80, so this is exactly the byte-level rule seen char by char.)
pub open spec fn spec_header_value_char(c: char) -> bool {
    let u = c as u32;
    (32 <= u && u != 127) || u == 9
}

/// Characters base64's standard alphabet can produce: `A-Z a-z 0-9 + /` and
/// the `=` pad.
pub open spec fn spec_base64_char(c: char) -> bool {
    let u = c as u32;
    (0x41 <= u && u <= 0x5a) || (0x61 <= u && u <= 0x7a) || (0x30 <= u && u <= 0x39) || u == 0x2b
        || u == 0x2f || u == 0x3d
}

pub open spec fn all_name_chars(s: Seq<char>) -> bool {
    forall|i: int| 0 <= i < s.len() ==> spec_name_char(s[i])
}

pub open spec fn all_path_chars(s: Seq<char>) -> bool {
    forall|i: int| 0 <= i < s.len() ==> spec_path_char(s[i])
}

pub open spec fn all_header_value_chars(s: Seq<char>) -> bool {
    forall|i: int| 0 <= i < s.len() ==> spec_header_value_char(s[i])
}

pub open spec fn all_base64_chars(s: Seq<char>) -> bool {
    forall|i: int| 0 <= i < s.len() ==> spec_base64_char(s[i])
}

pub open spec fn no_whitespace(s: Seq<char>) -> bool {
    forall|i: int| 0 <= i < s.len() ==> !spec_whitespace_char(s[i])
}

/// A string the HTTP layer accepts as a path-and-query: rooted at `/`, made
/// of the characters this crate emits, and within the length the layer caps
/// at.
pub open spec fn spec_valid_wire_path(s: Seq<char>) -> bool {
    s.len() >= 1 && s[0] == '/' && all_path_chars(s) && s.len() <= 65534
}

pub fn name_char(c: char) -> (b: bool)
    ensures
        b == spec_name_char(c),
{
    let u = c as u32;
    (0x61 <= u && u <= 0x7a) || (0x41 <= u && u <= 0x5a) || (0x30 <= u && u <= 0x39) || u == 0x5f
        || u == 0x2d
}

pub fn word_char(c: char) -> (b: bool)
    ensures
        b == spec_word_char(c),
{
    let u = c as u32;
    if u < 0x80 {
        (0x61 <= u && u <= 0x7a) || (0x41 <= u && u <= 0x5a) || (0x30 <= u && u <= 0x39) || u
            == 0x5f
    } else {
        crate::wire::is_alphanumeric_char(c)
    }
}

pub fn whitespace_char(c: char) -> (b: bool)
    ensures
        b == spec_whitespace_char(c),
{
    let u = c as u32;
    (0x09 <= u && u <= 0x0d) || u == 0x20 || u == 0x85 || u == 0xa0 || u == 0x1680 || (0x2000 <= u
        && u <= 0x200a) || u == 0x2028 || u == 0x2029 || u == 0x202f || u == 0x205f || u == 0x3000
}

pub fn header_value_char(c: char) -> (b: bool)
    ensures
        b == spec_header_value_char(c),
{
    let u = c as u32;
    (32 <= u && u != 127) || u == 9
}

/// A name character is always legal in a path.
pub broadcast proof fn lemma_name_char_is_path_char(c: char)
    ensures
        #[trigger] spec_name_char(c) ==> spec_path_char(c),
{
}

/// A base64 character is always legal in a header value.
pub broadcast proof fn lemma_base64_char_is_header_value_char(c: char)
    ensures
        #[trigger] spec_base64_char(c) ==> spec_header_value_char(c),
{
}

/// Path-safety distributes over concatenation.
pub proof fn lemma_all_path_chars_concat(a: Seq<char>, b: Seq<char>)
    ensures
        all_path_chars(a + b) <==> (all_path_chars(a) && all_path_chars(b)),
{
    if all_path_chars(a) && all_path_chars(b) {
        assert forall|i: int| 0 <= i < (a + b).len() implies spec_path_char((a + b)[i]) by {
            if i < a.len() {
                assert(spec_path_char(a[i]));
            } else {
                assert(spec_path_char(b[i - a.len()]));
            }
        }
    }
    if all_path_chars(a + b) {
        assert forall|i: int| 0 <= i < a.len() implies spec_path_char(a[i]) by {
            assert((a + b)[i] == a[i]);
        }
        assert forall|i: int| 0 <= i < b.len() implies spec_path_char(b[i]) by {
            assert((a + b)[a.len() + i] == b[i]);
        }
    }
}

} // verus!
