//! The event listing.

use vstd::prelude::*;
use vstd::string::StringExecFns;

use crate::chars::{all_path_chars, spec_path_char};
use crate::correlate::OperationKind;
use crate::request::{
    data_get_request, lemma_paged_query_valid, paged_path, spec_data_get, spec_paged_query,
    EncodedRequest, RequestView,
};
use crate::validate::{spec_page_error, spec_size_error, Page, Size};
use crate::wire::check_path_and_query;
use crate::Error;

verus! {

/// The descriptor `get_all_events` builds.
pub open spec fn spec_events_descriptor(page: u32, size: u32) -> RequestView {
    spec_data_get(spec_paged_query("/events/"@, page, size), OperationKind::EventList)
}

/// Build the paginated event listing: succeeds exactly on a valid page and
/// size, and the query string carries exactly those two parameters.
pub fn get_all_events(page: u32, size: u32) -> (r: Result<EncodedRequest, Error>)
    ensures
        r is Ok <==> Page::valid(page) && Size::valid(size),
        r matches Ok(req) ==> req@ == spec_events_descriptor(page, size),
        !Page::valid(page) ==> (r matches Err(Error::InvalidInput(m)) && m@ == spec_page_error(
            page,
        )),
        Page::valid(page) && !Size::valid(size) ==> (r matches Err(Error::InvalidInput(m)) && m@
            == spec_size_error(size)),
{
    let page_v = match Page::try_new(page) {
        Ok(v) => v,
        Err(err) => return Err(err),
    };
    let size_v = match Size::try_new(size) {
        Ok(v) => v,
        Err(err) => return Err(err),
    };
    let path = paged_path("/events/", page_v.into_inner(), size_v.into_inner());
    proof {
        reveal_strlit("/events/");
        assert(all_path_chars("/events/"@)) by {
            assert forall|i: int| 0 <= i < "/events/"@.len() implies spec_path_char(
                "/events/"@[i],
            ) by {}
        }
        lemma_paged_query_valid("/events/"@, page, size);
    }
    if !check_path_and_query(path.as_str()) {
        return Err(Error::EncodingError(String::from_str("path rejected by the http layer")));
    }
    Ok(data_get_request(path, OperationKind::EventList))
}

} // verus!
