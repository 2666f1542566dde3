//! Validated value types: wrappers around a primitive that are guaranteed, by
//! construction, to satisfy a named constraint. The factory function is the
//! only way to obtain an instance, and a type invariant keeps the constraint
//! true for the value's whole lifetime.

use vstd::prelude::*;
use vstd::string::{StrSliceExecFns, StringExecFns};

use crate::chars::{
    all_name_chars, name_char, no_whitespace, spec_name_char, spec_whitespace_char, spec_word_char,
    whitespace_char, word_char,
};
use crate::numtext::{dec_str, u32_to_string};
use crate::Error;

verus! {

/// Every character from `[a-zA-Z0-9_-]`?
fn all_chars_name(s: &str) -> (b: bool)
    ensures
        b == all_name_chars(s@),
{
    let n = s.unicode_len();
    let mut i: usize = 0;
    while i < n
        invariant
            n == s@.len(),
            i <= n,
            forall|j: int| 0 <= j < i ==> spec_name_char(s@[j]),
        decreases n - i,
    {
        if !name_char(s.get_char(i)) {
            return false;
        }
        i += 1;
    }
    true
}

/// No whitespace character anywhere?
fn no_whitespace_chars(s: &str) -> (b: bool)
    ensures
        b == no_whitespace(s@),
{
    let n = s.unicode_len();
    let mut i: usize = 0;
    while i < n
        invariant
            n == s@.len(),
            i <= n,
            forall|j: int| 0 <= j < i ==> !spec_whitespace_char(s@[j]),
        decreases n - i,
    {
        if whitespace_char(s.get_char(i)) {
            return false;
        }
        i += 1;
    }
    true
}

/// A username: 6 to 32 characters from `[a-zA-Z0-9_-]`.
#[derive(Debug)]
pub struct Username {
    value: String,
}

/// A password: 5 to 50 code points, none of them whitespace.
#[derive(Debug)]
pub struct Password {
    value: String,
}

/// An email in the simple shape `word+ '@' word+ '.' word+`, where a word
/// character is an ASCII letter, digit or `_`, or any Unicode alphanumeric.
#[derive(Debug)]
pub struct Email {
    value: String,
}

/// A character name: one or more characters from `[a-zA-Z0-9_-]`.
#[derive(Debug)]
pub struct Name {
    value: String,
}

/// A code naming an item, monster, resource or map content: one or more
/// characters from `[a-zA-Z0-9_-]`.
#[derive(Debug)]
pub struct Code {
    value: String,
}

/// A page number: at least 1.
#[derive(Debug)]
pub struct Page {
    value: u32,
}

/// A page size: between 1 and 100.
#[derive(Debug)]
pub struct Size {
    value: u32,
}

impl View for Username {
    type V = Seq<char>;

    closed spec fn view(&self) -> Seq<char> {
        self.value@
    }
}

impl View for Password {
    type V = Seq<char>;

    closed spec fn view(&self) -> Seq<char> {
        self.value@
    }
}

impl View for Email {
    type V = Seq<char>;

    closed spec fn view(&self) -> Seq<char> {
        self.value@
    }
}

impl View for Name {
    type V = Seq<char>;

    closed spec fn view(&self) -> Seq<char> {
        self.value@
    }
}

impl View for Code {
    type V = Seq<char>;

    closed spec fn view(&self) -> Seq<char> {
        self.value@
    }
}

/// The message reported when a username is rejected.
pub open spec fn spec_username_error(s: Seq<char>) -> Seq<char> {
    "username must be 6 to 32 characters from [a-zA-Z0-9_-]: "@ + s
}

/// The message reported when a password is rejected.
pub open spec fn spec_password_error(s: Seq<char>) -> Seq<char> {
    "password must be 5 to 50 code points without whitespace: "@ + s
}

/// The message reported when an email is rejected.
pub open spec fn spec_email_error(s: Seq<char>) -> Seq<char> {
    "email must look like word@word.word: "@ + s
}

/// The message reported when a name is rejected.
pub open spec fn spec_name_error(s: Seq<char>) -> Seq<char> {
    "name must be one or more characters from [a-zA-Z0-9_-]: "@ + s
}

/// The message reported when a code is rejected.
pub open spec fn spec_code_error(s: Seq<char>) -> Seq<char> {
    "code must be one or more characters from [a-zA-Z0-9_-]: "@ + s
}

/// The message reported when a page number is rejected.
pub open spec fn spec_page_error(page: u32) -> Seq<char> {
    "page must be at least 1: "@ + dec_str(page as nat)
}

/// The message reported when a page size is rejected.
pub open spec fn spec_size_error(size: u32) -> Seq<char> {
    "size must be between 1 and 100: "@ + dec_str(size as nat)
}

impl Username {
    pub open spec fn valid(s: Seq<char>) -> bool {
        6 <= s.len() <= 32 && all_name_chars(s)
    }

    #[verifier::type_invariant]
    closed spec fn inv(self) -> bool {
        Self::valid(self.value@)
    }

    /// Accepts exactly the valid usernames; rejection reports the constraint
    /// and the offending input.
    pub fn try_new(s: &str) -> (r: Result<Username, Error>)
        ensures
            Self::valid(s@) ==> (r matches Ok(v) && v@ == s@),
            !Self::valid(s@) ==> (r matches Err(Error::InvalidInput(m)) && m@
                == spec_username_error(s@)),
    {
        let n = s.unicode_len();
        if 6 <= n && n <= 32 && all_chars_name(s) {
            Ok(Username { value: String::from_str(s) })
        } else {
            let mut m = String::from_str("username must be 6 to 32 characters from [a-zA-Z0-9_-]: ");
            m.append(s);
            Err(Error::InvalidInput(m))
        }
    }

    /// The wrapped value; it always satisfies the constraint.
    pub fn into_inner(self) -> (r: String)
        ensures
            r@ == self@,
            Self::valid(r@),
    {
        proof {
            use_type_invariant(&self);
        }
        self.value
    }
}

impl Password {
    pub open spec fn valid(s: Seq<char>) -> bool {
        5 <= s.len() <= 50 && no_whitespace(s)
    }

    #[verifier::type_invariant]
    closed spec fn inv(self) -> bool {
        Self::valid(self.value@)
    }

    /// Accepts exactly the valid passwords; rejection reports the constraint
    /// and the offending input.
    pub fn try_new(s: &str) -> (r: Result<Password, Error>)
        ensures
            Self::valid(s@) ==> (r matches Ok(v) && v@ == s@),
            !Self::valid(s@) ==> (r matches Err(Error::InvalidInput(m)) && m@
                == spec_password_error(s@)),
    {
        let n = s.unicode_len();
        if 5 <= n && n <= 50 && no_whitespace_chars(s) {
            Ok(Password { value: String::from_str(s) })
        } else {
            let mut m = String::from_str(
                "password must be 5 to 50 code points without whitespace: ",
            );
            m.append(s);
            Err(Error::InvalidInput(m))
        }
    }

    /// The wrapped value; it always satisfies the constraint.
    pub fn into_inner(self) -> (r: String)
        ensures
            r@ == self@,
            Self::valid(r@),
    {
        proof {
            use_type_invariant(&self);
        }
        self.value
    }
}

/// The positions `i` and `j` split `s` into `word+ '@' word+ '.' word+`.
pub open spec fn spec_email_split(s: Seq<char>, i: int, j: int) -> bool {
    &&& 1 <= i
    &&& i + 2 <= j
    &&& j + 2 <= s.len()
    &&& s[i] == '@'
    &&& s[j] == '.'
    &&& forall|k: int| 0 <= k < s.len() && k != i && k != j ==> spec_word_char(s[k])
}

impl Email {
    pub open spec fn valid(s: Seq<char>) -> bool {
        exists|i: int, j: int| spec_email_split(s, i, j)
    }

    #[verifier::type_invariant]
    closed spec fn inv(self) -> bool {
        Self::valid(self.value@)
    }

    /// Accepts exactly the valid emails; rejection reports the constraint and
    /// the offending input.
    pub fn try_new(s: &str) -> (r: Result<Email, Error>)
        ensures
            Self::valid(s@) ==> (r matches Ok(v) && v@ == s@),
            !Self::valid(s@) ==> (r matches Err(Error::InvalidInput(m)) && m@ == spec_email_error(
                s@,
            )),
    {
        if check_email(s) {
            Ok(Email { value: String::from_str(s) })
        } else {
            let mut m = String::from_str("email must look like word@word.word: ");
            m.append(s);
            Err(Error::InvalidInput(m))
        }
    }

    /// The wrapped value; it always satisfies the constraint.
    pub fn into_inner(self) -> (r: String)
        ensures
            r@ == self@,
            Self::valid(r@),
    {
        proof {
            use_type_invariant(&self);
        }
        self.value
    }
}

/// Decide the email shape in one pass: the `@` and the `.` must each occur
/// exactly once, in that order, with word characters everywhere else and at
/// least one before, between and after them.
fn check_email(s: &str) -> (b: bool)
    ensures
        b == Email::valid(s@),
{
    let n = s.unicode_len();
    let mut at: Option<usize> = None;
    let mut dot: Option<usize> = None;
    let mut i: usize = 0;
    while i < n
        invariant
            n == s@.len(),
            i <= n,
            at is None ==> forall|k: int| 0 <= k < i ==> s@[k] != '@',
            at matches Some(p) ==> p < i && s@[p as int] == '@' && (forall|k: int|
                0 <= k < i && k != p ==> s@[k] != '@'),
            dot is None ==> forall|k: int| 0 <= k < i ==> s@[k] != '.',
            dot matches Some(q) ==> q < i && s@[q as int] == '.' && (forall|k: int|
                0 <= k < i && k != q ==> s@[k] != '.'),
            forall|k: int|
                0 <= k < i && !(at matches Some(p) && k == p) && !(dot matches Some(q) && k == q)
                    ==> spec_word_char(s@[k]),
        decreases n - i,
    {
        let c = s.get_char(i);
        if word_char(c) {
        } else if c == '@' {
            if at.is_some() {
                proof {
                    lemma_not_email_second_occurrence(s@, at->Some_0 as int, i as int, '@');
                }
                return false;
            }
            at = Some(i);
        } else if c == '.' {
            if dot.is_some() {
                proof {
                    lemma_not_email_second_occurrence(s@, dot->Some_0 as int, i as int, '.');
                }
                return false;
            }
            dot = Some(i);
        } else {
            proof {
                lemma_not_email_bad_char(s@, i as int);
            }
            return false;
        }
        i += 1;
    }
    match (at, dot) {
        (Some(p), Some(q)) => {
            let ok = 1 <= p && p < q && q - p >= 2 && n - q >= 2;
            proof {
                if ok {
                    assert(spec_email_split(s@, p as int, q as int));
                } else {
                    lemma_not_email_bad_positions(s@, p as int, q as int);
                }
            }
            ok
        },
        (None, _) => {
            proof {
                if Email::valid(s@) {
                    let (i0, j0) = choose|i0: int, j0: int| spec_email_split(s@, i0, j0);
                    assert(s@[i0] == '@');
                    assert(false);
                }
            }
            false
        },
        (_, None) => {
            proof {
                if Email::valid(s@) {
                    let (i0, j0) = choose|i0: int, j0: int| spec_email_split(s@, i0, j0);
                    assert(s@[j0] == '.');
                    assert(false);
                }
            }
            false
        },
    }
}

/// A string where `'@'` or `'.'` occurs twice is no email.
proof fn lemma_not_email_second_occurrence(s: Seq<char>, p: int, i: int, c: char)
    requires
        0 <= p < i < s.len(),
        s[p] == c,
        s[i] == c,
        c == '@' || c == '.',
    ensures
        !Email::valid(s),
{
    if Email::valid(s) {
        let (i0, j0) = choose|i0: int, j0: int| spec_email_split(s, i0, j0);
        assert(!spec_word_char('@'));
        assert(!spec_word_char('.'));
        assert(p == i0 || p == j0);
        assert(i == i0 || i == j0);
        assert(s[i0] == '@' && s[j0] == '.');
        assert(false);
    }
}

/// A character that is neither a word character nor `'@'` nor `'.'` rules the
/// string out.
proof fn lemma_not_email_bad_char(s: Seq<char>, i: int)
    requires
        0 <= i < s.len(),
        !spec_word_char(s[i]),
        s[i] != '@',
        s[i] != '.',
    ensures
        !Email::valid(s),
{
    if Email::valid(s) {
        let (i0, j0) = choose|i0: int, j0: int| spec_email_split(s, i0, j0);
        assert(i == i0 || i == j0);
        assert(false);
    }
}

/// Unique `'@'` at `p` and `'.'` at `q`, but with a word part missing or in
/// the wrong order: no email.
proof fn lemma_not_email_bad_positions(s: Seq<char>, p: int, q: int)
    requires
        0 <= p < s.len(),
        0 <= q < s.len(),
        s[p] == '@',
        s[q] == '.',
        forall|k: int| 0 <= k < s.len() && k != p ==> s[k] != '@',
        forall|k: int| 0 <= k < s.len() && k != q ==> s[k] != '.',
        !(1 <= p && p + 2 <= q && q + 2 <= s.len()),
    ensures
        !Email::valid(s),
{
    if Email::valid(s) {
        let (i0, j0) = choose|i0: int, j0: int| spec_email_split(s, i0, j0);
        assert(i0 == p);
        assert(j0 == q);
        assert(false);
    }
}

impl Name {
    pub open spec fn valid(s: Seq<char>) -> bool {
        s.len() >= 1 && all_name_chars(s)
    }

    #[verifier::type_invariant]
    closed spec fn inv(self) -> bool {
        Self::valid(self.value@)
    }

    /// Accepts exactly the valid names; rejection reports the constraint and
    /// the offending input.
    pub fn try_new(s: &str) -> (r: Result<Name, Error>)
        ensures
            Self::valid(s@) ==> (r matches Ok(v) && v@ == s@),
            !Self::valid(s@) ==> (r matches Err(Error::InvalidInput(m)) && m@ == spec_name_error(
                s@,
            )),
    {
        let n = s.unicode_len();
        if 1 <= n && all_chars_name(s) {
            Ok(Name { value: String::from_str(s) })
        } else {
            let mut m = String::from_str("name must be one or more characters from [a-zA-Z0-9_-]: ");
            m.append(s);
            Err(Error::InvalidInput(m))
        }
    }

    /// The wrapped value; it always satisfies the constraint.
    pub fn into_inner(self) -> (r: String)
        ensures
            r@ == self@,
            Self::valid(r@),
    {
        proof {
            use_type_invariant(&self);
        }
        self.value
    }
}

impl Code {
    pub open spec fn valid(s: Seq<char>) -> bool {
        s.len() >= 1 && all_name_chars(s)
    }

    #[verifier::type_invariant]
    closed spec fn inv(self) -> bool {
        Self::valid(self.value@)
    }

    /// Accepts exactly the valid codes; rejection reports the constraint and
    /// the offending input.
    pub fn try_new(s: &str) -> (r: Result<Code, Error>)
        ensures
            Self::valid(s@) ==> (r matches Ok(v) && v@ == s@),
            !Self::valid(s@) ==> (r matches Err(Error::InvalidInput(m)) && m@ == spec_code_error(
                s@,
            )),
    {
        let n = s.unicode_len();
        if 1 <= n && all_chars_name(s) {
            Ok(Code { value: String::from_str(s) })
        } else {
            let mut m = String::from_str("code must be one or more characters from [a-zA-Z0-9_-]: ");
            m.append(s);
            Err(Error::InvalidInput(m))
        }
    }

    /// The wrapped value; it always satisfies the constraint.
    pub fn into_inner(self) -> (r: String)
        ensures
            r@ == self@,
            Self::valid(r@),
    {
        proof {
            use_type_invariant(&self);
        }
        self.value
    }
}

impl Page {
    pub open spec fn valid(page: u32) -> bool {
        page >= 1
    }

    #[verifier::type_invariant]
    closed spec fn inv(self) -> bool {
        Self::valid(self.value)
    }

    /// Accepts exactly the valid page numbers.
    pub fn try_new(page: u32) -> (r: Result<Page, Error>)
        ensures
            Self::valid(page) ==> (r matches Ok(v) && v.spec_value() == page),
            !Self::valid(page) ==> (r matches Err(Error::InvalidInput(m)) && m@ == spec_page_error(
                page,
            )),
    {
        if page >= 1 {
            Ok(Page { value: page })
        } else {
            let mut m = String::from_str("page must be at least 1: ");
            let num = u32_to_string(page);
            m.append(num.as_str());
            Err(Error::InvalidInput(m))
        }
    }

    pub closed spec fn spec_value(self) -> u32 {
        self.value
    }

    /// The wrapped value; it always satisfies the constraint.
    pub fn into_inner(self) -> (r: u32)
        ensures
            r == self.spec_value(),
            Self::valid(r),
    {
        proof {
            use_type_invariant(&self);
        }
        self.value
    }
}

impl Size {
    pub open spec fn valid(size: u32) -> bool {
        1 <= size <= 100
    }

    #[verifier::type_invariant]
    closed spec fn inv(self) -> bool {
        Self::valid(self.value)
    }

    /// Accepts exactly the valid page sizes.
    pub fn try_new(size: u32) -> (r: Result<Size, Error>)
        ensures
            Self::valid(size) ==> (r matches Ok(v) && v.spec_value() == size),
            !Self::valid(size) ==> (r matches Err(Error::InvalidInput(m)) && m@ == spec_size_error(
                size,
            )),
    {
        if 1 <= size && size <= 100 {
            Ok(Size { value: size })
        } else {
            let mut m = String::from_str("size must be between 1 and 100: ");
            let num = u32_to_string(size);
            m.append(num.as_str());
            Err(Error::InvalidInput(m))
        }
    }

    pub closed spec fn spec_value(self) -> u32 {
        self.value
    }

    /// The wrapped value; it always satisfies the constraint.
    pub fn into_inner(self) -> (r: u32)
        ensures
            r == self.spec_value(),
            Self::valid(r),
    {
        proof {
            use_type_invariant(&self);
        }
        self.value
    }
}

} // verus!
