//! The playable characters.

use vstd::prelude::*;
use vstd::string::{StrSliceExecFns, StringExecFns};
use vstd::utf8::encode_utf8;

use crate::chars::{all_header_value_chars, all_path_chars, spec_path_char};
use crate::correlate::OperationKind;
use crate::encoding::{character_body, spec_character_body};
use crate::rate_limits::{data_rate_limit, spec_data_rate_limit};
use crate::request::{
    append_filter, bearer_value, code_path, data_get_request, lemma_bearer_value_chars,
    lemma_code_path_valid, lemma_extend_filter, lemma_name_chars_are_path_chars,
    lemma_paged_query_valid, paged_path, spec_bearer_value, spec_data_get, spec_opt_filter,
    spec_paged_query, EncodedRequest, HeaderName, Method, RequestView,
};
use crate::schemas::{lemma_skill_query_chars, BearerToken, SkillSchema};
use crate::validate::{spec_name_error, spec_page_error, spec_size_error, Name, Page, Size};
use crate::wire::{check_header_value, check_path_and_query};
use crate::Error;

verus! {

/// Inputs of the character creation.
pub struct CreateCharacterRequest {
    pub bearer_token: BearerToken,
    pub name: String,
    pub skin: String,
}

/// Inputs of the paginated character listing, with the documented defaults.
pub struct GetAllCharactersRequest {
    pub page: u32,
    pub size: u32,
    pub sort: Option<SkillSchema>,
}

impl GetAllCharactersRequest {
    /// The defaults: first page, fifty items, no sort.
    pub fn new() -> (r: Self)
        ensures
            r.page == 1,
            r.size == 50,
            r.sort is None,
    {
        GetAllCharactersRequest { page: 1, size: 50, sort: None }
    }
}

/// Input of the single character lookup.
pub struct GetCharacterRequest {
    pub name: String,
}

/// The sort filter's rendered value, when present.
pub open spec fn spec_opt_sort(s: Option<SkillSchema>) -> Option<Seq<char>> {
    match s {
        Some(v) => Some(v.spec_query_str()),
        None => None,
    }
}

/// The descriptor `create_character` builds: a POST whose body carries the
/// name and skin, authorized as `Bearer <token>`.
pub open spec fn spec_create_character_descriptor(
    token: Seq<char>,
    name: Seq<char>,
    skin: Seq<char>,
) -> RequestView {
    RequestView {
        method: Method::Post,
        path: "/characters/create"@,
        headers: seq![
            (HeaderName::Accept, "application/json"@),
            (HeaderName::ContentType, "application/json"@),
            (HeaderName::Authorization, spec_bearer_value(token)),
        ],
        content: encode_utf8(spec_character_body(name, skin)),
        rate_limit: spec_data_rate_limit(),
        kind: OperationKind::CharacterCreate,
    }
}

/// The path `get_all_characters` asks for: page and size always, then the
/// sort only when supplied.
pub open spec fn spec_characters_path(page: u32, size: u32, sort: Option<SkillSchema>) -> Seq<
    char,
> {
    spec_paged_query("/characters/"@, page, size) + spec_opt_filter("sort"@, spec_opt_sort(sort))
}

/// The descriptor `get_all_characters` builds.
pub open spec fn spec_characters_list_descriptor(
    page: u32,
    size: u32,
    sort: Option<SkillSchema>,
) -> RequestView {
    spec_data_get(spec_characters_path(page, size, sort), OperationKind::CharacterList)
}

/// The path `get_character` asks for.
pub open spec fn spec_character_path(name: Seq<char>) -> Seq<char> {
    "/characters/"@ + name
}

/// The descriptor `get_character` builds.
pub open spec fn spec_character_descriptor(name: Seq<char>) -> RequestView {
    spec_data_get(spec_character_path(name), OperationKind::CharacterGet)
}

/// Build the character creation: succeeds exactly on a valid name and a
/// bearer token that is a legal header value; the skin is carried as given,
/// JSON-escaped in the body.
pub fn create_character(req: CreateCharacterRequest) -> (r: Result<EncodedRequest, Error>)
    ensures
        r is Ok <==> Name::valid(req.name@) && all_header_value_chars(req.bearer_token.0@),
        r matches Ok(q) ==> q@ == spec_create_character_descriptor(
            req.bearer_token.0@,
            req.name@,
            req.skin@,
        ),
        !Name::valid(req.name@) ==> (r matches Err(Error::InvalidInput(m)) && m@ == spec_name_error(
            req.name@,
        )),
        Name::valid(req.name@) && !all_header_value_chars(req.bearer_token.0@) ==> r matches Err(
            Error::EncodingError(_),
        ),
{
    let name_v = match Name::try_new(req.name.as_str()) {
        Ok(v) => v,
        Err(err) => return Err(err),
    };
    let auth = bearer_value(req.bearer_token.0.as_str());
    proof {
        lemma_bearer_value_chars(req.bearer_token.0@);
    }
    if !check_header_value(auth.as_str()) {
        return Err(
            Error::EncodingError(String::from_str("bearer token is not a legal header value")),
        );
    }
    let name_s = name_v.into_inner();
    let body = character_body(name_s.as_str(), req.skin.as_str());
    let content = body.as_str().as_bytes_vec();
    let mut headers: Vec<(HeaderName, String)> = Vec::new();
    headers.push((HeaderName::Accept, String::from_str("application/json")));
    headers.push((HeaderName::ContentType, String::from_str("application/json")));
    headers.push((HeaderName::Authorization, auth));
    let q = EncodedRequest {
        method: Method::Post,
        path: String::from_str("/characters/create"),
        headers,
        content,
        rate_limit: data_rate_limit(),
        kind: OperationKind::CharacterCreate,
    };
    proof {
        assert(q@.headers =~= spec_create_character_descriptor(
            req.bearer_token.0@,
            req.name@,
            req.skin@,
        ).headers);
        assert(q@ =~= spec_create_character_descriptor(req.bearer_token.0@, req.name@, req.skin@));
    }
    Ok(q)
}

/// Build the paginated character listing: succeeds exactly on a valid page
/// and size, whatever sort is supplied.
pub fn get_all_characters(req: GetAllCharactersRequest) -> (r: Result<EncodedRequest, Error>)
    ensures
        r is Ok <==> Page::valid(req.page) && Size::valid(req.size),
        r matches Ok(q) ==> q@ == spec_characters_list_descriptor(req.page, req.size, req.sort),
        !Page::valid(req.page) ==> (r matches Err(Error::InvalidInput(m)) && m@ == spec_page_error(
            req.page,
        )),
        Page::valid(req.page) && !Size::valid(req.size) ==> (r matches Err(Error::InvalidInput(m))
            && m@ == spec_size_error(req.size)),
{
    let page_v = match Page::try_new(req.page) {
        Ok(v) => v,
        Err(err) => return Err(err),
    };
    let size_v = match Size::try_new(req.size) {
        Ok(v) => v,
        Err(err) => return Err(err),
    };
    let mut path = paged_path("/characters/", page_v.into_inner(), size_v.into_inner());
    if let Some(s) = req.sort {
        append_filter(&mut path, "sort", s.query_str());
    }
    proof {
        reveal_strlit("/characters/");
        reveal_strlit("sort");
        assert(all_path_chars("/characters/"@)) by {
            assert forall|i: int| 0 <= i < "/characters/"@.len() implies spec_path_char(
                "/characters/"@[i],
            ) by {}
        }
        assert(all_path_chars("sort"@)) by {
            assert forall|i: int| 0 <= i < "sort"@.len() implies spec_path_char("sort"@[i]) by {}
        }
        lemma_paged_query_valid("/characters/"@, req.page, req.size);
        match req.sort {
            Some(s) => {
                lemma_skill_query_chars(s);
                lemma_name_chars_are_path_chars(s.spec_query_str());
            },
            None => {},
        }
        let p0 = spec_paged_query("/characters/"@, req.page, req.size);
        lemma_extend_filter(p0, "sort"@, spec_opt_sort(req.sort));
        assert(path@ =~= spec_characters_path(req.page, req.size, req.sort));
    }
    if !check_path_and_query(path.as_str()) {
        return Err(Error::EncodingError(String::from_str("path rejected by the http layer")));
    }
    Ok(data_get_request(path, OperationKind::CharacterList))
}

/// Build the single character lookup: succeeds exactly on a valid name that
/// keeps the path within the HTTP layer's length cap.
pub fn get_character(req: GetCharacterRequest) -> (r: Result<EncodedRequest, Error>)
    ensures
        r is Ok <==> Name::valid(req.name@) && spec_character_path(req.name@).len() <= 65534,
        r matches Ok(q) ==> q@ == spec_character_descriptor(req.name@),
        !Name::valid(req.name@) ==> (r matches Err(Error::InvalidInput(m)) && m@ == spec_name_error(
            req.name@,
        )),
        Name::valid(req.name@) && spec_character_path(req.name@).len() > 65534 ==> r matches Err(
            Error::EncodingError(_),
        ),
{
    let name_v = match Name::try_new(req.name.as_str()) {
        Ok(v) => v,
        Err(err) => return Err(err),
    };
    let name_s = name_v.into_inner();
    let path = code_path("/characters/", name_s.as_str());
    proof {
        reveal_strlit("/characters/");
        assert(all_path_chars("/characters/"@)) by {
            assert forall|i: int| 0 <= i < "/characters/"@.len() implies spec_path_char(
                "/characters/"@[i],
            ) by {}
        }
        lemma_code_path_valid("/characters/"@, req.name@);
    }
    if !check_path_and_query(path.as_str()) {
        return Err(Error::EncodingError(String::from_str("path rejected by the http layer")));
    }
    Ok(data_get_request(path, OperationKind::CharacterGet))
}

} // verus!
