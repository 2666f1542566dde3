//! The gatherable resources.

use vstd::prelude::*;
use vstd::string::StringExecFns;

use crate::chars::{all_name_chars, all_path_chars, spec_path_char, spec_valid_wire_path};
use crate::correlate::OperationKind;
use crate::numtext::u32_to_string;
use crate::request::{
    append_filter, code_path, data_get_request, lemma_code_path_valid, lemma_extend_filter,
    lemma_opt_num_chars, lemma_paged_query_valid, paged_path, spec_data_get, spec_opt_filter,
    spec_opt_num, spec_paged_query, EncodedRequest, RequestView,
};
use crate::schemas::{lemma_skill_query_chars, SkillSchema};
use crate::validate::{spec_code_error, spec_page_error, spec_size_error, Code, Page, Size};
use crate::wire::check_path_and_query;
use crate::Error;

verus! {

/// The skill filter's rendered value, when present.
pub open spec fn spec_opt_skill(s: Option<SkillSchema>) -> Option<Seq<char>> {
    match s {
        Some(v) => Some(v.spec_query_str()),
        None => None,
    }
}

/// The path `get_all_resources` asks for: page and size always, then only the
/// filters actually supplied, in the order max level, min level, skill.
pub open spec fn spec_resources_path(
    max_level: Option<u32>,
    min_level: Option<u32>,
    skill: Option<SkillSchema>,
    page: u32,
    size: u32,
) -> Seq<char> {
    spec_paged_query("/resources/"@, page, size) + spec_opt_filter(
        "max_level"@,
        spec_opt_num(max_level),
    ) + spec_opt_filter("min_level"@, spec_opt_num(min_level)) + spec_opt_filter(
        "skill"@,
        spec_opt_skill(skill),
    )
}

/// The descriptor `get_all_resources` builds.
pub open spec fn spec_resources_list_descriptor(
    max_level: Option<u32>,
    min_level: Option<u32>,
    skill: Option<SkillSchema>,
    page: u32,
    size: u32,
) -> RequestView {
    spec_data_get(
        spec_resources_path(max_level, min_level, skill, page, size),
        OperationKind::ResourceList,
    )
}

/// The path `get_resource` asks for.
pub open spec fn spec_resource_path(code: Seq<char>) -> Seq<char> {
    "/resources/"@ + code
}

/// The descriptor `get_resource` builds.
pub open spec fn spec_resource_descriptor(code: Seq<char>) -> RequestView {
    spec_data_get(spec_resource_path(code), OperationKind::ResourceGet)
}

/// Build the paginated resource listing: succeeds exactly on a valid page and
/// size, whatever filters are supplied.
pub fn get_all_resources(
    max_level: Option<u32>,
    min_level: Option<u32>,
    skill: Option<SkillSchema>,
    page: u32,
    size: u32,
) -> (r: Result<EncodedRequest, Error>)
    ensures
        r is Ok <==> Page::valid(page) && Size::valid(size),
        r matches Ok(req) ==> req@ == spec_resources_list_descriptor(
            max_level,
            min_level,
            skill,
            page,
            size,
        ),
        !Page::valid(page) ==> (r matches Err(Error::InvalidInput(m)) && m@ == spec_page_error(
            page,
        )),
        Page::valid(page) && !Size::valid(size) ==> (r matches Err(Error::InvalidInput(m)) && m@
            == spec_size_error(size)),
{
    let page_v = match Page::try_new(page) {
        Ok(v) => v,
        Err(err) => return Err(err),
    };
    let size_v = match Size::try_new(size) {
        Ok(v) => v,
        Err(err) => return Err(err),
    };
    let mut path = paged_path("/resources/", page_v.into_inner(), size_v.into_inner());
    proof {
        reveal_strlit("/resources/");
        reveal_strlit("max_level");
        reveal_strlit("min_level");
        reveal_strlit("skill");
        assert(all_path_chars("/resources/"@)) by {
            assert forall|i: int| 0 <= i < "/resources/"@.len() implies spec_path_char(
                "/resources/"@[i],
            ) by {}
        }
        assert(all_path_chars("max_level"@)) by {
            assert forall|i: int| 0 <= i < "max_level"@.len() implies spec_path_char(
                "max_level"@[i],
            ) by {}
        }
        assert(all_path_chars("min_level"@)) by {
            assert forall|i: int| 0 <= i < "min_level"@.len() implies spec_path_char(
                "min_level"@[i],
            ) by {}
        }
        assert(all_path_chars("skill"@)) by {
            assert forall|i: int| 0 <= i < "skill"@.len() implies spec_path_char("skill"@[i]) by {}
        }
        lemma_paged_query_valid("/resources/"@, page, size);
        lemma_opt_num_chars(max_level);
        lemma_opt_num_chars(min_level);
        match skill {
            Some(s) => {
                lemma_skill_query_chars(s);
                crate::request::lemma_name_chars_are_path_chars(s.spec_query_str());
            },
            None => {},
        }
        let p0 = spec_paged_query("/resources/"@, page, size);
        let p1 = p0 + spec_opt_filter("max_level"@, spec_opt_num(max_level));
        let p2 = p1 + spec_opt_filter("min_level"@, spec_opt_num(min_level));
        let p3 = p2 + spec_opt_filter("skill"@, spec_opt_skill(skill));
        lemma_extend_filter(p0, "max_level"@, spec_opt_num(max_level));
        lemma_extend_filter(p1, "min_level"@, spec_opt_num(min_level));
        lemma_extend_filter(p2, "skill"@, spec_opt_skill(skill));
        assert(spec_valid_wire_path(p3));
    }
    if let Some(v) = max_level {
        let num = u32_to_string(v);
        append_filter(&mut path, "max_level", num.as_str());
    }
    if let Some(v) = min_level {
        let num = u32_to_string(v);
        append_filter(&mut path, "min_level", num.as_str());
    }
    if let Some(s) = skill {
        append_filter(&mut path, "skill", s.query_str());
    }
    proof {
        assert(path@ =~= spec_resources_path(max_level, min_level, skill, page, size));
    }
    if !check_path_and_query(path.as_str()) {
        return Err(Error::EncodingError(String::from_str("path rejected by the http layer")));
    }
    Ok(data_get_request(path, OperationKind::ResourceList))
}

/// Build the single resource lookup: succeeds exactly on a valid code that
/// keeps the path within the HTTP layer's length cap.
pub fn get_resource(code: &str) -> (r: Result<EncodedRequest, Error>)
    ensures
        r is Ok <==> Code::valid(code@) && spec_resource_path(code@).len() <= 65534,
        r matches Ok(req) ==> req@ == spec_resource_descriptor(code@),
        !Code::valid(code@) ==> (r matches Err(Error::InvalidInput(m)) && m@ == spec_code_error(
            code@,
        )),
        Code::valid(code@) && spec_resource_path(code@).len() > 65534 ==> r matches Err(
            Error::EncodingError(_),
        ),
{
    let code_v = match Code::try_new(code) {
        Ok(v) => v,
        Err(err) => return Err(err),
    };
    let code_s = code_v.into_inner();
    let path = code_path("/resources/", code_s.as_str());
    proof {
        reveal_strlit("/resources/");
        assert(all_path_chars("/resources/"@)) by {
            assert forall|i: int| 0 <= i < "/resources/"@.len() implies spec_path_char(
                "/resources/"@[i],
            ) by {}
        }
        lemma_code_path_valid("/resources/"@, code@);
    }
    if !check_path_and_query(path.as_str()) {
        return Err(Error::EncodingError(String::from_str("path rejected by the http layer")));
    }
    Ok(data_get_request(path, OperationKind::ResourceGet))
}

} // verus!
