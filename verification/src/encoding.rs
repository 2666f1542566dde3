//! JSON encoding of the request bodies this API sends: a character-level
//! escaper proved against its mathematical definition, and the two body
//! layouts built with it. The descriptor carries the UTF-8 bytes of what is
//! built here.

use vstd::prelude::*;
use vstd::string::{StrSliceExecFns, StringExecFns};

use crate::chars::spec_name_char;
use crate::wire::push_char;

verus! {

/// The character for one lower-case hex digit.
pub open spec fn spec_hex_digit(d: nat) -> char
    recommends
        d < 16,
{
    if d == 0 {
        '0'
    } else if d == 1 {
        '1'
    } else if d == 2 {
        '2'
    } else if d == 3 {
        '3'
    } else if d == 4 {
        '4'
    } else if d == 5 {
        '5'
    } else if d == 6 {
        '6'
    } else if d == 7 {
        '7'
    } else if d == 8 {
        '8'
    } else if d == 9 {
        '9'
    } else if d == 10 {
        'a'
    } else if d == 11 {
        'b'
    } else if d == 12 {
        'c'
    } else if d == 13 {
        'd'
    } else if d == 14 {
        'e'
    } else {
        'f'
    }
}

/// How one character appears inside a JSON string literal: quotes and
/// backslashes are escaped, the common control characters take their short
/// escapes, the remaining controls become `\u00XX`, and everything else
/// stands for itself.
pub open spec fn spec_json_escape_char(c: char) -> Seq<char> {
    if c == '"' {
        seq!['\\', '"']
    } else if c == '\\' {
        seq!['\\', '\\']
    } else if c as u32 == 0x08 {
        seq!['\\', 'b']
    } else if c as u32 == 0x09 {
        seq!['\\', 't']
    } else if c as u32 == 0x0a {
        seq!['\\', 'n']
    } else if c as u32 == 0x0c {
        seq!['\\', 'f']
    } else if c as u32 == 0x0d {
        seq!['\\', 'r']
    } else if (c as u32) < 0x20 {
        seq!['\\', 'u', '0', '0'] + seq![
            spec_hex_digit((c as u32 / 16) as nat),
            spec_hex_digit((c as u32 % 16) as nat),
        ]
    } else {
        seq![c]
    }
}

/// A whole string escaped for a JSON string literal.
pub open spec fn spec_json_escape(s: Seq<char>) -> Seq<char>
    decreases s.len(),
{
    if s.len() == 0 {
        Seq::empty()
    } else {
        spec_json_escape_char(s[0]) + spec_json_escape(s.drop_first())
    }
}

/// Escaping distributes over concatenation.
pub proof fn lemma_json_escape_concat(a: Seq<char>, b: Seq<char>)
    ensures
        spec_json_escape(a + b) == spec_json_escape(a) + spec_json_escape(b),
    decreases a.len(),
{
    if a.len() == 0 {
        assert(a + b =~= b);
        assert(spec_json_escape(a) + spec_json_escape(b) =~= spec_json_escape(b));
    } else {
        assert((a + b).drop_first() =~= a.drop_first() + b);
        lemma_json_escape_concat(a.drop_first(), b);
        assert(spec_json_escape(a + b) =~= spec_json_escape(a) + spec_json_escape(b));
    }
}

/// A character that needs no escaping.
pub open spec fn spec_json_plain_char(c: char) -> bool {
    c != '"' && c != '\\' && (c as u32) >= 0x20
}

/// A string of plain characters comes through the escaper verbatim.
pub proof fn lemma_json_escape_plain(s: Seq<char>)
    requires
        forall|i: int| 0 <= i < s.len() ==> spec_json_plain_char(s[i]),
    ensures
        spec_json_escape(s) == s,
    decreases s.len(),
{
    if s.len() == 0 {
        assert(spec_json_escape(s) =~= s);
    } else {
        assert(spec_json_plain_char(s[0]));
        lemma_json_escape_plain(s.drop_first());
        assert(spec_json_escape(s) =~= s);
    }
}

fn hex_digit_char(d: u32) -> (c: char)
    requires
        d < 16,
    ensures
        c == spec_hex_digit(d as nat),
{
    match d {
        0 => '0',
        1 => '1',
        2 => '2',
        3 => '3',
        4 => '4',
        5 => '5',
        6 => '6',
        7 => '7',
        8 => '8',
        9 => '9',
        10 => 'a',
        11 => 'b',
        12 => 'c',
        13 => 'd',
        14 => 'e',
        _ => 'f',
    }
}

/// Escape a string for inclusion in a JSON string literal.
pub fn json_escape(s: &str) -> (r: String)
    ensures
        r@ == spec_json_escape(s@),
{
    let n = s.unicode_len();
    let mut out = String::new();
    let mut i: usize = 0;
    while i < n
        invariant
            n == s@.len(),
            i <= n,
            out@ == spec_json_escape(s@.take(i as int)),
        decreases n - i,
    {
        let c = s.get_char(i);
        let u = c as u32;
        if c == '"' {
            push_char(&mut out, '\\');
            push_char(&mut out, '"');
        } else if c == '\\' {
            push_char(&mut out, '\\');
            push_char(&mut out, '\\');
        } else if u == 0x08 {
            push_char(&mut out, '\\');
            push_char(&mut out, 'b');
        } else if u == 0x09 {
            push_char(&mut out, '\\');
            push_char(&mut out, 't');
        } else if u == 0x0a {
            push_char(&mut out, '\\');
            push_char(&mut out, 'n');
        } else if u == 0x0c {
            push_char(&mut out, '\\');
            push_char(&mut out, 'f');
        } else if u == 0x0d {
            push_char(&mut out, '\\');
            push_char(&mut out, 'r');
        } else if u < 0x20 {
            push_char(&mut out, '\\');
            push_char(&mut out, 'u');
            push_char(&mut out, '0');
            push_char(&mut out, '0');
            push_char(&mut out, hex_digit_char(u / 16));
            push_char(&mut out, hex_digit_char(u % 16));
        } else {
            push_char(&mut out, c);
        }
        proof {
            assert(s@.take(i + 1).drop_last() =~= s@.take(i as int));
            assert(s@.take(i + 1).last() == s@[i as int]);
            lemma_json_escape_concat(s@.take(i as int), seq![s@[i as int]]);
            assert(s@.take(i as int) + seq![s@[i as int]] =~= s@.take(i + 1));
            let single = seq![s@[i as int]];
            assert(single.drop_first().len() == 0);
            assert(spec_json_escape(single) == spec_json_escape_char(s@[i as int])
                + spec_json_escape(single.drop_first()));
            assert(spec_json_escape(single) =~= spec_json_escape_char(s@[i as int]));
            assert(out@ =~= spec_json_escape(s@.take(i + 1)));
        }
        i += 1;
    }
    proof {
        assert(s@.take(n as int) =~= s@);
    }
    out
}

/// The account-creation body, keys in canonical sorted order:
/// `{"email":"<e>","password":"<p>","username":"<u>"}`, each field escaped.
pub open spec fn spec_account_body(u: Seq<char>, p: Seq<char>, e: Seq<char>) -> Seq<char> {
    "{\"email\":\""@ + spec_json_escape(e) + "\",\"password\":\""@ + spec_json_escape(p)
        + "\",\"username\":\""@ + spec_json_escape(u) + "\"}"@
}

/// The character-creation body: `{"name":"<n>","skin":"<s>"}`, each field
/// escaped.
pub open spec fn spec_character_body(name: Seq<char>, skin: Seq<char>) -> Seq<char> {
    "{\"name\":\""@ + spec_json_escape(name) + "\",\"skin\":\""@ + spec_json_escape(skin) + "\"}"@
}

/// Build the account-creation body.
pub fn account_body(username: &str, password: &str, email: &str) -> (r: String)
    ensures
        r@ == spec_account_body(username@, password@, email@),
{
    let mut b = String::from_str("{\"email\":\"");
    let part = json_escape(email);
    b.append(part.as_str());
    b.append("\",\"password\":\"");
    let part = json_escape(password);
    b.append(part.as_str());
    b.append("\",\"username\":\"");
    let part = json_escape(username);
    b.append(part.as_str());
    b.append("\"}");
    proof {
        assert(b@ =~= spec_account_body(username@, password@, email@));
    }
    b
}

/// Build the character-creation body.
pub fn character_body(name: &str, skin: &str) -> (r: String)
    ensures
        r@ == spec_character_body(name@, skin@),
{
    let mut b = String::from_str("{\"name\":\"");
    let part = json_escape(name);
    b.append(part.as_str());
    b.append("\",\"skin\":\"");
    let part = json_escape(skin);
    b.append(part.as_str());
    b.append("\"}");
    proof {
        assert(b@ =~= spec_character_body(name@, skin@));
    }
    b
}

/// The credential pair as it enters the Authorization header, before base64:
/// `<username>:<password>`.
pub open spec fn spec_credentials(u: Seq<char>, p: Seq<char>) -> Seq<char> {
    u + ":"@ + p
}

/// Build the `<username>:<password>` pair.
pub fn credentials(username: &str, password: &str) -> (r: String)
    ensures
        r@ == spec_credentials(username@, password@),
{
    let mut b = String::from_str(username);
    b.append(":");
    b.append(password);
    proof {
        assert(b@ =~= spec_credentials(username@, password@));
    }
    b
}

} // verus!
