//! The grand-exchange listings.

use vstd::prelude::*;
use vstd::string::StringExecFns;

use crate::chars::{all_path_chars, spec_path_char};
use crate::correlate::OperationKind;
use crate::request::{
    code_path, data_get_request, lemma_code_path_valid, lemma_paged_query_valid, paged_path,
    spec_data_get, spec_paged_query, EncodedRequest, RequestView,
};
use crate::validate::{spec_code_error, spec_page_error, spec_size_error, Code, Page, Size};
use crate::wire::check_path_and_query;
use crate::Error;

verus! {

/// The descriptor `get_all_ge_items` builds.
pub open spec fn spec_ge_list_descriptor(page: u32, size: u32) -> RequestView {
    spec_data_get(spec_paged_query("/ge/"@, page, size), OperationKind::GrandExchangeList)
}

/// The path `get_ge_item` asks for.
pub open spec fn spec_ge_item_path(code: Seq<char>) -> Seq<char> {
    "/ge/"@ + code
}

/// The descriptor `get_ge_item` builds.
pub open spec fn spec_ge_item_descriptor(code: Seq<char>) -> RequestView {
    spec_data_get(spec_ge_item_path(code), OperationKind::GrandExchangeGet)
}

/// Build the paginated grand-exchange listing: succeeds exactly on a valid
/// page and size.
pub fn get_all_ge_items(page: u32, size: u32) -> (r: Result<EncodedRequest, Error>)
    ensures
        r is Ok <==> Page::valid(page) && Size::valid(size),
        r matches Ok(req) ==> req@ == spec_ge_list_descriptor(page, size),
        !Page::valid(page) ==> (r matches Err(Error::InvalidInput(m)) && m@ == spec_page_error(
            page,
        )),
        Page::valid(page) && !Size::valid(size) ==> (r matches Err(Error::InvalidInput(m)) && m@
            == spec_size_error(size)),
{
    let page_v = match Page::try_new(page) {
        Ok(v) => v,
        Err(err) => return Err(err),
    };
    let size_v = match Size::try_new(size) {
        Ok(v) => v,
        Err(err) => return Err(err),
    };
    let path = paged_path("/ge/", page_v.into_inner(), size_v.into_inner());
    proof {
        reveal_strlit("/ge/");
        assert(all_path_chars("/ge/"@)) by {
            assert forall|i: int| 0 <= i < "/ge/"@.len() implies spec_path_char("/ge/"@[i]) by {}
        }
        lemma_paged_query_valid("/ge/"@, page, size);
    }
    if !check_path_and_query(path.as_str()) {
        return Err(Error::EncodingError(String::from_str("path rejected by the http layer")));
    }
    Ok(data_get_request(path, OperationKind::GrandExchangeList))
}

/// Build the single grand-exchange lookup: succeeds exactly on a valid code
/// that keeps the path within the HTTP layer's length cap.
pub fn get_ge_item(code: &str) -> (r: Result<EncodedRequest, Error>)
    ensures
        r is Ok <==> Code::valid(code@) && spec_ge_item_path(code@).len() <= 65534,
        r matches Ok(req) ==> req@ == spec_ge_item_descriptor(code@),
        !Code::valid(code@) ==> (r matches Err(Error::InvalidInput(m)) && m@ == spec_code_error(
            code@,
        )),
        Code::valid(code@) && spec_ge_item_path(code@).len() > 65534 ==> r matches Err(
            Error::EncodingError(_),
        ),
{
    let code_v = match Code::try_new(code) {
        Ok(v) => v,
        Err(err) => return Err(err),
    };
    let code_s = code_v.into_inner();
    let path = code_path("/ge/", code_s.as_str());
    proof {
        reveal_strlit("/ge/");
        assert(all_path_chars("/ge/"@)) by {
            assert forall|i: int| 0 <= i < "/ge/"@.len() implies spec_path_char("/ge/"@[i]) by {}
        }
        lemma_code_path_valid("/ge/"@, code@);
    }
    if !check_path_and_query(path.as_str()) {
        return Err(Error::EncodingError(String::from_str("path rejected by the http layer")));
    }
    Ok(data_get_request(path, OperationKind::GrandExchangeGet))
}

} // verus!
