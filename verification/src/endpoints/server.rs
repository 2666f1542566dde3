//! The server liveness probe.

use vstd::prelude::*;
use vstd::string::StringExecFns;

use crate::correlate::OperationKind;
use crate::rate_limits::{no_rate_limit, spec_no_rate_limit};
use crate::request::{read_headers, spec_read_headers, EncodedRequest, Method, RequestView};

verus! {

/// The descriptor `get_status` builds.
pub open spec fn spec_status_descriptor() -> RequestView {
    RequestView {
        method: Method::Get,
        path: "/"@,
        headers: spec_read_headers(),
        content: Seq::empty(),
        rate_limit: spec_no_rate_limit(),
        kind: OperationKind::ServerStatus,
    }
}

/// Build the status probe. It takes no input, so it cannot fail.
pub fn get_status() -> (req: EncodedRequest)
    ensures
        req@ == spec_status_descriptor(),
{
    let req = EncodedRequest {
        method: Method::Get,
        path: String::from_str("/"),
        headers: read_headers(),
        content: Vec::new(),
        rate_limit: no_rate_limit(),
        kind: OperationKind::ServerStatus,
    };
    proof {
        assert(req@.content =~= Seq::<u8>::empty());
        assert(req@ =~= spec_status_descriptor());
    }
    req
}

} // verus!
