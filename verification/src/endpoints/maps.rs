//! The world map squares.

use vstd::prelude::*;
use vstd::string::StringExecFns;

use crate::chars::{all_path_chars, spec_path_char, spec_valid_wire_path};
use crate::correlate::OperationKind;
use crate::numtext::{dec_str, u32_to_string};
use crate::request::{
    append_filter, data_get_request, lemma_dec_str_path_chars, lemma_extend_filter,
    lemma_name_chars_are_path_chars, lemma_paged_query_valid, paged_path, spec_data_get,
    spec_opt_filter, spec_opt_str, spec_paged_query, EncodedRequest, RequestView,
};
use crate::schemas::{lemma_content_type_query_chars, MapContentTypeSchema};
use crate::validate::{spec_code_error, spec_page_error, spec_size_error, Code, Page, Size};
use crate::wire::check_path_and_query;
use crate::Error;

verus! {

/// Inputs of the paginated map listing, with the documented defaults.
pub struct GetAllMapsRequest {
    pub page: u32,
    pub size: u32,
    pub content_code: Option<String>,
    pub content_type: Option<MapContentTypeSchema>,
}

impl GetAllMapsRequest {
    /// The defaults: first page, fifty items, no filters.
    pub fn new() -> (r: Self)
        ensures
            r.page == 1,
            r.size == 50,
            r.content_code is None,
            r.content_type is None,
    {
        GetAllMapsRequest { page: 1, size: 50, content_code: None, content_type: None }
    }
}

/// Input of the single map lookup: the square's coordinates.
pub struct GetMapRequest {
    pub x: u32,
    pub y: u32,
}

/// The content-type filter's rendered value, when present.
pub open spec fn spec_opt_content_type(t: Option<MapContentTypeSchema>) -> Option<Seq<char>> {
    match t {
        Some(v) => Some(v.spec_query_str()),
        None => None,
    }
}

/// The path `get_all_maps` asks for: page and size always, then only the
/// filters actually supplied, in the order content code, content type.
pub open spec fn spec_maps_path(
    page: u32,
    size: u32,
    content_code: Option<Seq<char>>,
    content_type: Option<MapContentTypeSchema>,
) -> Seq<char> {
    spec_paged_query("/maps/"@, page, size) + spec_opt_filter("content_code"@, content_code)
        + spec_opt_filter("content_type"@, spec_opt_content_type(content_type))
}

/// The descriptor `get_all_maps` builds.
pub open spec fn spec_maps_list_descriptor(
    page: u32,
    size: u32,
    content_code: Option<Seq<char>>,
    content_type: Option<MapContentTypeSchema>,
) -> RequestView {
    spec_data_get(spec_maps_path(page, size, content_code, content_type), OperationKind::MapList)
}

/// The path `get_map` asks for: `/maps/<x>/<y>`.
pub open spec fn spec_map_path(x: u32, y: u32) -> Seq<char> {
    "/maps/"@ + dec_str(x as nat) + "/"@ + dec_str(y as nat)
}

/// The descriptor `get_map` builds.
pub open spec fn spec_map_descriptor(x: u32, y: u32) -> RequestView {
    spec_data_get(spec_map_path(x, y), OperationKind::MapGet)
}

/// Build the paginated map listing: succeeds exactly on a valid page, size
/// and content-code filter, as long as the content code keeps the path within
/// the HTTP layer's length cap.
pub fn get_all_maps(req: GetAllMapsRequest) -> (r: Result<EncodedRequest, Error>)
    ensures
        r is Ok <==> Page::valid(req.page) && Size::valid(req.size) && (req.content_code matches
            Some(c) ==> Code::valid(c@)) && spec_maps_path(
            req.page,
            req.size,
            spec_opt_str(req.content_code),
            req.content_type,
        ).len() <= 65534,
        Page::valid(req.page) && Size::valid(req.size) && req.content_code is None ==> r is Ok,
        r matches Ok(q) ==> q@ == spec_maps_list_descriptor(
            req.page,
            req.size,
            spec_opt_str(req.content_code),
            req.content_type,
        ),
        !Page::valid(req.page) ==> (r matches Err(Error::InvalidInput(m)) && m@ == spec_page_error(
            req.page,
        )),
        Page::valid(req.page) && !Size::valid(req.size) ==> (r matches Err(Error::InvalidInput(m))
            && m@ == spec_size_error(req.size)),
        Page::valid(req.page) && Size::valid(req.size) && (req.content_code matches Some(c)
            && !Code::valid(c@)) ==> (r matches Err(Error::InvalidInput(m)) && m@
            == spec_code_error(req.content_code->Some_0@)),
{
    let page_v = match Page::try_new(req.page) {
        Ok(v) => v,
        Err(err) => return Err(err),
    };
    let size_v = match Size::try_new(req.size) {
        Ok(v) => v,
        Err(err) => return Err(err),
    };
    let mut path = paged_path("/maps/", page_v.into_inner(), size_v.into_inner());
    match &req.content_code {
        Some(c) => {
            let code_v = match Code::try_new(c.as_str()) {
                Ok(v) => v,
                Err(err) => return Err(err),
            };
            let code_s = code_v.into_inner();
            append_filter(&mut path, "content_code", code_s.as_str());
        },
        None => {},
    }
    if let Some(t) = req.content_type {
        append_filter(&mut path, "content_type", t.query_str());
    }
    proof {
        reveal_strlit("/maps/");
        reveal_strlit("content_code");
        reveal_strlit("content_type");
        assert(all_path_chars("/maps/"@)) by {
            assert forall|i: int| 0 <= i < "/maps/"@.len() implies spec_path_char(
                "/maps/"@[i],
            ) by {}
        }
        assert(all_path_chars("content_code"@)) by {
            assert forall|i: int| 0 <= i < "content_code"@.len() implies spec_path_char(
                "content_code"@[i],
            ) by {}
        }
        assert(all_path_chars("content_type"@)) by {
            assert forall|i: int| 0 <= i < "content_type"@.len() implies spec_path_char(
                "content_type"@[i],
            ) by {}
        }
        lemma_paged_query_valid("/maps/"@, req.page, req.size);
        match req.content_code {
            Some(c) => {
                lemma_name_chars_are_path_chars(c@);
            },
            None => {},
        }
        match req.content_type {
            Some(t) => {
                lemma_content_type_query_chars(t);
                lemma_name_chars_are_path_chars(t.spec_query_str());
            },
            None => {},
        }
        let p0 = spec_paged_query("/maps/"@, req.page, req.size);
        let p1 = p0 + spec_opt_filter("content_code"@, spec_opt_str(req.content_code));
        let p2 = p1 + spec_opt_filter("content_type"@, spec_opt_content_type(req.content_type));
        lemma_extend_filter(p0, "content_code"@, spec_opt_str(req.content_code));
        lemma_extend_filter(p1, "content_type"@, spec_opt_content_type(req.content_type));
        assert(path@ =~= p2);
        assert(p2.len() <= 65534 ==> spec_valid_wire_path(p2));
    }
    if !check_path_and_query(path.as_str()) {
        return Err(Error::EncodingError(String::from_str("path rejected by the http layer")));
    }
    Ok(data_get_request(path, OperationKind::MapList))
}

/// Build the single map lookup. Coordinates render as decimal digits, so the
/// path is always accepted and this never fails.
pub fn get_map(req: GetMapRequest) -> (r: Result<EncodedRequest, Error>)
    ensures
        r matches Ok(q) && q@ == spec_map_descriptor(req.x, req.y),
{
    let mut path = String::from_str("/maps/");
    let num = u32_to_string(req.x);
    path.append(num.as_str());
    path.append("/");
    let num = u32_to_string(req.y);
    path.append(num.as_str());
    proof {
        reveal_strlit("/maps/");
        reveal_strlit("/");
        assert(all_path_chars("/maps/"@)) by {
            assert forall|i: int| 0 <= i < "/maps/"@.len() implies spec_path_char(
                "/maps/"@[i],
            ) by {}
        }
        assert(all_path_chars("/"@)) by {
            assert forall|i: int| 0 <= i < "/"@.len() implies spec_path_char("/"@[i]) by {}
        }
        lemma_dec_str_path_chars(req.x as nat);
        lemma_dec_str_path_chars(req.y as nat);
        crate::numtext::lemma_dec_str_len_u32(req.x);
        crate::numtext::lemma_dec_str_len_u32(req.y);
        crate::numtext::lemma_dec_str_chars(req.x as nat);
        crate::numtext::lemma_dec_str_chars(req.y as nat);
        crate::chars::lemma_all_path_chars_concat("/maps/"@, dec_str(req.x as nat));
        crate::chars::lemma_all_path_chars_concat("/maps/"@ + dec_str(req.x as nat), "/"@);
        crate::chars::lemma_all_path_chars_concat(
            "/maps/"@ + dec_str(req.x as nat) + "/"@,
            dec_str(req.y as nat),
        );
        assert(path@ =~= spec_map_path(req.x, req.y));
        assert(("/maps/"@ + dec_str(req.x as nat))[0] == '/');
        assert(("/maps/"@ + dec_str(req.x as nat) + "/"@)[0] == '/');
        assert(spec_map_path(req.x, req.y)[0] == '/');
        assert(spec_valid_wire_path(path@));
    }
    if !check_path_and_query(path.as_str()) {
        return Err(Error::EncodingError(String::from_str("path rejected by the http layer")));
    }
    Ok(data_get_request(path, OperationKind::MapGet))
}

} // verus!
