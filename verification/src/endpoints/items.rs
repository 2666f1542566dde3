//! The item catalogue.

use vstd::prelude::*;
use vstd::string::StringExecFns;

use crate::chars::{all_path_chars, spec_path_char, spec_valid_wire_path};
use crate::correlate::OperationKind;
use crate::numtext::u32_to_string;
use crate::request::{
    append_filter, code_path, data_get_request, lemma_code_path_valid, lemma_extend_filter,
    lemma_name_chars_are_path_chars, lemma_opt_num_chars, lemma_paged_query_valid, paged_path,
    spec_data_get, spec_opt_filter, spec_opt_num, spec_opt_str, spec_paged_query, EncodedRequest,
    RequestView,
};
use crate::validate::{spec_code_error, spec_page_error, spec_size_error, Code, Page, Size};
use crate::wire::check_path_and_query;
use crate::Error;

verus! {

/// Inputs of the paginated item listing, with the documented defaults.
pub struct GetAllItemsRequest {
    pub page: u32,
    pub size: u32,
    pub drop: Option<String>,
    pub max_level: Option<u32>,
    pub min_level: Option<u32>,
}

impl GetAllItemsRequest {
    /// The defaults: first page, fifty items, no filters.
    pub fn new() -> (r: Self)
        ensures
            r.page == 1,
            r.size == 50,
            r.drop is None,
            r.max_level is None,
            r.min_level is None,
    {
        GetAllItemsRequest { page: 1, size: 50, drop: None, max_level: None, min_level: None }
    }
}

/// Input of the single item lookup.
pub struct GetItemRequest {
    pub code: String,
}

/// The path `get_all_items` asks for: page and size always, then only the
/// filters actually supplied, in the order drop, max level, min level.
pub open spec fn spec_items_path(
    page: u32,
    size: u32,
    drop: Option<Seq<char>>,
    max_level: Option<u32>,
    min_level: Option<u32>,
) -> Seq<char> {
    spec_paged_query("/items/"@, page, size) + spec_opt_filter("drop"@, drop) + spec_opt_filter(
        "max_level"@,
        spec_opt_num(max_level),
    ) + spec_opt_filter("min_level"@, spec_opt_num(min_level))
}

/// The descriptor `get_all_items` builds.
pub open spec fn spec_items_list_descriptor(
    page: u32,
    size: u32,
    drop: Option<Seq<char>>,
    max_level: Option<u32>,
    min_level: Option<u32>,
) -> RequestView {
    spec_data_get(
        spec_items_path(page, size, drop, max_level, min_level),
        OperationKind::ItemList,
    )
}

/// The path `get_item` asks for.
pub open spec fn spec_item_path(code: Seq<char>) -> Seq<char> {
    "/items/"@ + code
}

/// The descriptor `get_item` builds.
pub open spec fn spec_item_descriptor(code: Seq<char>) -> RequestView {
    spec_data_get(spec_item_path(code), OperationKind::ItemGet)
}

/// Build the paginated item listing: succeeds exactly on a valid page, size
/// and drop filter, as long as the drop code keeps the path within the HTTP
/// layer's length cap.
pub fn get_all_items(req: GetAllItemsRequest) -> (r: Result<EncodedRequest, Error>)
    ensures
        r is Ok <==> Page::valid(req.page) && Size::valid(req.size) && (req.drop matches Some(d)
            ==> Code::valid(d@)) && spec_items_path(
            req.page,
            req.size,
            spec_opt_str(req.drop),
            req.max_level,
            req.min_level,
        ).len() <= 65534,
        Page::valid(req.page) && Size::valid(req.size) && req.drop is None ==> r is Ok,
        r matches Ok(q) ==> q@ == spec_items_list_descriptor(
            req.page,
            req.size,
            spec_opt_str(req.drop),
            req.max_level,
            req.min_level,
        ),
        !Page::valid(req.page) ==> (r matches Err(Error::InvalidInput(m)) && m@ == spec_page_error(
            req.page,
        )),
        Page::valid(req.page) && !Size::valid(req.size) ==> (r matches Err(Error::InvalidInput(m))
            && m@ == spec_size_error(req.size)),
        Page::valid(req.page) && Size::valid(req.size) && (req.drop matches Some(d)
            && !Code::valid(d@)) ==> (r matches Err(Error::InvalidInput(m)) && m@
            == spec_code_error(req.drop->Some_0@)),
{
    let page_v = match Page::try_new(req.page) {
        Ok(v) => v,
        Err(err) => return Err(err),
    };
    let size_v = match Size::try_new(req.size) {
        Ok(v) => v,
        Err(err) => return Err(err),
    };
    let mut path = paged_path("/items/", page_v.into_inner(), size_v.into_inner());
    match &req.drop {
        Some(d) => {
            let code_v = match Code::try_new(d.as_str()) {
                Ok(v) => v,
                Err(err) => return Err(err),
            };
            let code_s = code_v.into_inner();
            append_filter(&mut path, "drop", code_s.as_str());
        },
        None => {},
    }
    if let Some(v) = req.max_level {
        let num = u32_to_string(v);
        append_filter(&mut path, "max_level", num.as_str());
    }
    if let Some(v) = req.min_level {
        let num = u32_to_string(v);
        append_filter(&mut path, "min_level", num.as_str());
    }
    proof {
        reveal_strlit("/items/");
        reveal_strlit("drop");
        reveal_strlit("max_level");
        reveal_strlit("min_level");
        assert(all_path_chars("/items/"@)) by {
            assert forall|i: int| 0 <= i < "/items/"@.len() implies spec_path_char(
                "/items/"@[i],
            ) by {}
        }
        assert(all_path_chars("drop"@)) by {
            assert forall|i: int| 0 <= i < "drop"@.len() implies spec_path_char("drop"@[i]) by {}
        }
        assert(all_path_chars("max_level"@)) by {
            assert forall|i: int| 0 <= i < "max_level"@.len() implies spec_path_char(
                "max_level"@[i],
            ) by {}
        }
        assert(all_path_chars("min_level"@)) by {
            assert forall|i: int| 0 <= i < "min_level"@.len() implies spec_path_char(
                "min_level"@[i],
            ) by {}
        }
        lemma_paged_query_valid("/items/"@, req.page, req.size);
        lemma_opt_num_chars(req.max_level);
        lemma_opt_num_chars(req.min_level);
        match req.drop {
            Some(d) => {
                lemma_name_chars_are_path_chars(d@);
            },
            None => {},
        }
        let p0 = spec_paged_query("/items/"@, req.page, req.size);
        let p1 = p0 + spec_opt_filter("drop"@, spec_opt_str(req.drop));
        let p2 = p1 + spec_opt_filter("max_level"@, spec_opt_num(req.max_level));
        let p3 = p2 + spec_opt_filter("min_level"@, spec_opt_num(req.min_level));
        lemma_extend_filter(p0, "drop"@, spec_opt_str(req.drop));
        lemma_extend_filter(p1, "max_level"@, spec_opt_num(req.max_level));
        lemma_extend_filter(p2, "min_level"@, spec_opt_num(req.min_level));
        assert(path@ =~= p3);
        assert(p3.len() <= 65534 ==> spec_valid_wire_path(p3));
    }
    if !check_path_and_query(path.as_str()) {
        return Err(Error::EncodingError(String::from_str("path rejected by the http layer")));
    }
    Ok(data_get_request(path, OperationKind::ItemList))
}

/// Build the single item lookup: succeeds exactly on a valid code that keeps
/// the path within the HTTP layer's length cap.
pub fn get_item(req: GetItemRequest) -> (r: Result<EncodedRequest, Error>)
    ensures
        r is Ok <==> Code::valid(req.code@) && spec_item_path(req.code@).len() <= 65534,
        r matches Ok(q) ==> q@ == spec_item_descriptor(req.code@),
        !Code::valid(req.code@) ==> (r matches Err(Error::InvalidInput(m)) && m@
            == spec_code_error(req.code@)),
        Code::valid(req.code@) && spec_item_path(req.code@).len() > 65534 ==> r matches Err(
            Error::EncodingError(_),
        ),
{
    let code_v = match Code::try_new(req.code.as_str()) {
        Ok(v) => v,
        Err(err) => return Err(err),
    };
    let code_s = code_v.into_inner();
    let path = code_path("/items/", code_s.as_str());
    proof {
        reveal_strlit("/items/");
        assert(all_path_chars("/items/"@)) by {
            assert forall|i: int| 0 <= i < "/items/"@.len() implies spec_path_char(
                "/items/"@[i],
            ) by {}
        }
        lemma_code_path_valid("/items/"@, req.code@);
    }
    if !check_path_and_query(path.as_str()) {
        return Err(Error::EncodingError(String::from_str("path rejected by the http layer")));
    }
    Ok(data_get_request(path, OperationKind::ItemGet))
}

} // verus!
