//! The request descriptor: an immutable, transport-agnostic description of
//! one HTTP request, fully determined by the builder inputs, plus the helpers
//! every builder shares for paths, query strings and header lists.

use vstd::prelude::*;
use vstd::string::StringExecFns;

use crate::chars::{
    all_name_chars, all_path_chars, lemma_name_char_is_path_char, spec_name_char, spec_path_char,
    spec_valid_wire_path,
};
use crate::correlate::OperationKind;
use crate::numtext::{dec_str, lemma_dec_str_chars, lemma_dec_str_len_u32, u32_to_string};
use crate::rate_limits::{
    data_rate_limit, spec_data_rate_limit, RateLimit, RateLimitView,
};

verus! {

/// The HTTP methods this API uses.
#[derive(Debug, Clone, Copy, PartialEq, Eq, Structural)]
pub enum Method {
    Get,
    Post,
}

/// The header names this API uses.
#[derive(Debug, Clone, Copy, PartialEq, Eq, Structural)]
pub enum HeaderName {
    Accept,
    ContentType,
    Authorization,
}

impl HeaderName {
    /// The lower-case wire form of the header name.
    pub open spec fn spec_str(self) -> Seq<char> {
        match self {
            HeaderName::Accept => "accept"@,
            HeaderName::ContentType => "content-type"@,
            HeaderName::Authorization => "authorization"@,
        }
    }

    pub fn as_str(&self) -> (r: &'static str)
        ensures
            r@ == self.spec_str(),
    {
        match self {
            HeaderName::Accept => "accept",
            HeaderName::ContentType => "content-type",
            HeaderName::Authorization => "authorization",
        }
    }
}

/// An immutable description of one HTTP request: method, path and query,
/// header pairs, opaque body bytes, the rate-limit category it is classified
/// under, and the operation tag that correlates it with a response shape.
/// It is pure data: it performs no I/O and assumes nothing about transport.
#[derive(Debug, Clone, PartialEq, Eq)]
pub struct EncodedRequest {
    pub method: Method,
    pub path: String,
    pub headers: Vec<(HeaderName, String)>,
    pub content: Vec<u8>,
    pub rate_limit: RateLimit,
    pub kind: OperationKind,
}

pub open spec fn spec_header_pair(p: (HeaderName, String)) -> (HeaderName, Seq<char>) {
    (p.0, p.1@)
}

pub open spec fn spec_headers_view(h: Seq<(HeaderName, String)>) -> Seq<(HeaderName, Seq<char>)> {
    h.map_values(|p: (HeaderName, String)| spec_header_pair(p))
}

/// The mathematical value of an [`EncodedRequest`].
#[verifier::ext_equal]
pub ghost struct RequestView {
    pub method: Method,
    pub path: Seq<char>,
    pub headers: Seq<(HeaderName, Seq<char>)>,
    pub content: Seq<u8>,
    pub rate_limit: RateLimitView,
    pub kind: OperationKind,
}

impl View for EncodedRequest {
    type V = RequestView;

    open spec fn view(&self) -> RequestView {
        RequestView {
            method: self.method,
            path: self.path@,
            headers: spec_headers_view(self.headers@),
            content: self.content@,
            rate_limit: self.rate_limit@,
            kind: self.kind,
        }
    }
}

/// The headers every read carries: `Accept: application/json`.
pub open spec fn spec_read_headers() -> Seq<(HeaderName, Seq<char>)> {
    seq![(HeaderName::Accept, "application/json"@)]
}

/// The headers every body-carrying write adds: `Accept` and `Content-Type`.
pub open spec fn spec_write_headers() -> Seq<(HeaderName, Seq<char>)> {
    seq![
        (HeaderName::Accept, "application/json"@),
        (HeaderName::ContentType, "application/json"@),
    ]
}

pub fn read_headers() -> (h: Vec<(HeaderName, String)>)
    ensures
        spec_headers_view(h@) == spec_read_headers(),
{
    let mut h: Vec<(HeaderName, String)> = Vec::new();
    h.push((HeaderName::Accept, String::from_str("application/json")));
    proof {
        assert(spec_headers_view(h@) =~= spec_read_headers());
    }
    h
}

pub fn write_headers() -> (h: Vec<(HeaderName, String)>)
    ensures
        spec_headers_view(h@) == spec_write_headers(),
{
    let mut h: Vec<(HeaderName, String)> = Vec::new();
    h.push((HeaderName::Accept, String::from_str("application/json")));
    h.push((HeaderName::ContentType, String::from_str("application/json")));
    proof {
        assert(spec_headers_view(h@) =~= spec_write_headers());
    }
    h
}

/// The Authorization value of an authenticated write: `Bearer <token>`.
pub open spec fn spec_bearer_value(token: Seq<char>) -> Seq<char> {
    "Bearer "@ + token
}

/// Build `Bearer <token>`.
pub fn bearer_value(token: &str) -> (s: String)
    ensures
        s@ == spec_bearer_value(token@),
{
    let mut s = String::from_str("Bearer ");
    s.append(token);
    s
}

/// The Bearer scheme never disturbs a header value: the prefixed value is
/// legal exactly when the token itself is.
pub proof fn lemma_bearer_value_chars(t: Seq<char>)
    ensures
        crate::chars::all_header_value_chars(spec_bearer_value(t))
            <==> crate::chars::all_header_value_chars(t),
{
    reveal_strlit("Bearer ");
    assert(crate::chars::all_header_value_chars("Bearer "@)) by {
        assert forall|i: int|
            0 <= i < "Bearer "@.len() implies crate::chars::spec_header_value_char(
            "Bearer "@[i],
        ) by {}
    }
    let s = "Bearer "@ + t;
    if crate::chars::all_header_value_chars(t) {
        assert forall|i: int|
            0 <= i < s.len() implies crate::chars::spec_header_value_char(s[i]) by {
            if i < 7 {
                assert(s[i] == "Bearer "@[i]);
            } else {
                assert(s[i] == t[i - 7]);
            }
        }
    }
    if crate::chars::all_header_value_chars(s) {
        assert forall|i: int|
            0 <= i < t.len() implies crate::chars::spec_header_value_char(t[i]) by {
            assert(t[i] == s[i + 7]);
        }
    }
}

/// The start of every paginated list path: `<base>?page=<page>&size=<size>`.
pub open spec fn spec_paged_query(base: Seq<char>, page: u32, size: u32) -> Seq<char> {
    base + "?page="@ + dec_str(page as nat) + "&size="@ + dec_str(size as nat)
}

/// One optional query fragment: `&<key>=<value>` when the value is supplied,
/// nothing at all when it is not.
pub open spec fn spec_opt_filter(key: Seq<char>, value: Option<Seq<char>>) -> Seq<char> {
    match value {
        Some(v) => "&"@ + key + "="@ + v,
        None => Seq::empty(),
    }
}

/// Name characters are path characters, sequence-wide.
pub proof fn lemma_name_chars_are_path_chars(s: Seq<char>)
    requires
        all_name_chars(s),
    ensures
        all_path_chars(s),
{
    assert forall|i: int| 0 <= i < s.len() implies spec_path_char(s[i]) by {
        assert(spec_name_char(s[i]));
        lemma_name_char_is_path_char(s[i]);
    }
}

/// The digits of a number are path characters.
pub proof fn lemma_dec_str_path_chars(n: nat)
    ensures
        all_path_chars(dec_str(n)),
{
    lemma_dec_str_chars(n);
    lemma_name_chars_are_path_chars(dec_str(n));
}

/// A paginated query over a safe base stays within the path characters and
/// within 32 characters of the base.
pub proof fn lemma_paged_query_chars(base: Seq<char>, page: u32, size: u32)
    requires
        all_path_chars(base),
    ensures
        all_path_chars(spec_paged_query(base, page, size)),
        spec_paged_query(base, page, size).len() <= base.len() + 32,
        spec_paged_query(base, page, size).len() >= base.len() + 14,
{
    reveal_strlit("?page=");
    reveal_strlit("&size=");
    assert(all_path_chars("?page="@)) by {
        assert forall|i: int| 0 <= i < "?page="@.len() implies spec_path_char("?page="@[i]) by {}
    }
    assert(all_path_chars("&size="@)) by {
        assert forall|i: int| 0 <= i < "&size="@.len() implies spec_path_char("&size="@[i]) by {}
    }
    lemma_dec_str_path_chars(page as nat);
    lemma_dec_str_path_chars(size as nat);
    lemma_dec_str_len_u32(page);
    lemma_dec_str_len_u32(size);
    lemma_dec_str_chars(page as nat);
    lemma_dec_str_chars(size as nat);
    crate::chars::lemma_all_path_chars_concat(base, "?page="@);
    crate::chars::lemma_all_path_chars_concat(base + "?page="@, dec_str(page as nat));
    crate::chars::lemma_all_path_chars_concat(base + "?page="@ + dec_str(page as nat), "&size="@);
    crate::chars::lemma_all_path_chars_concat(
        base + "?page="@ + dec_str(page as nat) + "&size="@,
        dec_str(size as nat),
    );
}

/// An optional filter over a safe key and value stays within the path
/// characters.
pub proof fn lemma_opt_filter_chars(key: Seq<char>, value: Option<Seq<char>>)
    requires
        all_path_chars(key),
        value matches Some(v) ==> all_path_chars(v),
    ensures
        all_path_chars(spec_opt_filter(key, value)),
        spec_opt_filter(key, value).len() <= 2 + key.len() + (match value {
            Some(v) => v.len(),
            None => 0,
        }),
{
    reveal_strlit("&");
    reveal_strlit("=");
    assert(all_path_chars("&"@)) by {
        assert forall|i: int| 0 <= i < "&"@.len() implies spec_path_char("&"@[i]) by {}
    }
    assert(all_path_chars("="@)) by {
        assert forall|i: int| 0 <= i < "="@.len() implies spec_path_char("="@[i]) by {}
    }
    match value {
        Some(v) => {
            crate::chars::lemma_all_path_chars_concat("&"@, key);
            crate::chars::lemma_all_path_chars_concat("&"@ + key, "="@);
            crate::chars::lemma_all_path_chars_concat("&"@ + key + "="@, v);
        },
        None => {},
    }
}

/// Law: builders are deterministic. Every builder's contract pins the view of
/// a successful result to a function of the inputs alone (one of the
/// `spec_*_descriptor` functions), so two calls with identical valid input
/// yield descriptors that agree on every field: method, path, headers, body
/// bytes, rate-limit category and operation tag. This lemma records the step
/// from the shared view to the field-for-field agreement.
pub proof fn lemma_builder_deterministic(r1: EncodedRequest, r2: EncodedRequest, v: RequestView)
    requires
        r1@ == v,
        r2@ == v,
    ensures
        r1.method == r2.method,
        r1.path@ == r2.path@,
        spec_headers_view(r1.headers@) == spec_headers_view(r2.headers@),
        r1.content@ == r2.content@,
        r1.rate_limit@ == r2.rate_limit@,
        r1.kind == r2.kind,
{
}

/// Build `<base><tail>`, as the by-code paths do.
pub fn code_path(base: &'static str, tail: &str) -> (s: String)
    ensures
        s@ == base@ + tail@,
{
    let mut s = String::from_str(base);
    s.append(tail);
    s
}

/// Build `<base>?page=<page>&size=<size>`.
pub fn paged_path(base: &'static str, page: u32, size: u32) -> (s: String)
    ensures
        s@ == spec_paged_query(base@, page, size),
{
    let mut s = String::from_str(base);
    s.append("?page=");
    let page_s = u32_to_string(page);
    s.append(page_s.as_str());
    s.append("&size=");
    let size_s = u32_to_string(size);
    s.append(size_s.as_str());
    proof {
        assert(s@ =~= spec_paged_query(base@, page, size));
    }
    s
}

/// A paginated query over a short, rooted, safe base is a path the HTTP
/// layer accepts.
pub proof fn lemma_paged_query_valid(base: Seq<char>, page: u32, size: u32)
    requires
        all_path_chars(base),
        1 <= base.len() <= 100,
        base[0] == '/',
    ensures
        spec_valid_wire_path(spec_paged_query(base, page, size)),
        spec_paged_query(base, page, size).len() <= base.len() + 32,
        spec_paged_query(base, page, size)[0] == '/',
{
    lemma_paged_query_chars(base, page, size);
    assert((base + "?page="@)[0] == base[0]);
    assert((base + "?page="@ + dec_str(page as nat))[0] == base[0]);
    assert((base + "?page="@ + dec_str(page as nat) + "&size="@)[0] == base[0]);
    assert(spec_paged_query(base, page, size)[0] == base[0]);
}

/// A path of the form `<base><code>` over a safe base and a name-character
/// code is accepted whenever it stays within the length cap.
pub proof fn lemma_code_path_valid(base: Seq<char>, code: Seq<char>)
    requires
        all_path_chars(base),
        1 <= base.len() <= 100,
        base[0] == '/',
        all_name_chars(code),
    ensures
        all_path_chars(base + code),
        (base + code)[0] == '/',
        (base + code).len() <= 65534 ==> spec_valid_wire_path(base + code),
{
    lemma_name_chars_are_path_chars(code);
    crate::chars::lemma_all_path_chars_concat(base, code);
    assert((base + code)[0] == base[0]);
}

/// An optional string input, seen as the value it would contribute.
pub open spec fn spec_opt_str(v: Option<String>) -> Option<Seq<char>> {
    match v {
        Some(s) => Some(s@),
        None => None,
    }
}

/// A numeric filter value, rendered in decimal when present.
pub open spec fn spec_opt_num(v: Option<u32>) -> Option<Seq<char>> {
    match v {
        Some(n) => Some(dec_str(n as nat)),
        None => None,
    }
}

/// A rendered numeric filter stays within the path characters and ten digits.
pub proof fn lemma_opt_num_chars(v: Option<u32>)
    ensures
        spec_opt_num(v) matches Some(s) ==> (all_path_chars(s) && s.len() <= 10),
{
    match v {
        Some(n) => {
            lemma_dec_str_path_chars(n as nat);
            lemma_dec_str_len_u32(n);
        },
        None => {},
    }
}

/// Appending one optional filter keeps a rooted, safe path rooted and safe,
/// growing it by at most the filter's own size.
pub proof fn lemma_extend_filter(p: Seq<char>, key: Seq<char>, value: Option<Seq<char>>)
    requires
        all_path_chars(p),
        p.len() >= 1,
        p[0] == '/',
        all_path_chars(key),
        value matches Some(v) ==> all_path_chars(v),
    ensures
        all_path_chars(p + spec_opt_filter(key, value)),
        (p + spec_opt_filter(key, value))[0] == '/',
        (p + spec_opt_filter(key, value)).len() <= p.len() + 2 + key.len() + (match value {
            Some(v) => v.len(),
            None => 0,
        }),
        (p + spec_opt_filter(key, value)).len() >= p.len(),
{
    lemma_opt_filter_chars(key, value);
    crate::chars::lemma_all_path_chars_concat(p, spec_opt_filter(key, value));
    assert((p + spec_opt_filter(key, value))[0] == p[0]);
}

/// The descriptor every data read produces: a GET of the given path with the
/// JSON accept header, no body, and the data rate-limit category.
pub open spec fn spec_data_get(path: Seq<char>, kind: OperationKind) -> RequestView {
    RequestView {
        method: Method::Get,
        path: path,
        headers: spec_read_headers(),
        content: Seq::empty(),
        rate_limit: spec_data_rate_limit(),
        kind: kind,
    }
}

/// Assemble the descriptor for a data read.
pub(crate) fn data_get_request(path: String, kind: OperationKind) -> (req: EncodedRequest)
    ensures
        req@ == spec_data_get(path@, kind),
{
    let ghost path_view = path@;
    let req = EncodedRequest {
        method: Method::Get,
        path: path,
        headers: read_headers(),
        content: Vec::new(),
        rate_limit: data_rate_limit(),
        kind: kind,
    };
    proof {
        assert(req@.content =~= Seq::<u8>::empty());
        assert(req@ =~= spec_data_get(path_view, kind));
    }
    req
}

/// Append `&<key>=<value>` to a query string being built.
pub fn append_filter(s: &mut String, key: &'static str, value: &str)
    ensures
        final(s)@ == old(s)@ + spec_opt_filter(key@, Some(value@)),
{
    s.append("&");
    s.append(key);
    s.append("=");
    s.append(value);
    proof {
        assert(s@ =~= old(s)@ + spec_opt_filter(key@, Some(value@)));
    }
}

} // verus!
