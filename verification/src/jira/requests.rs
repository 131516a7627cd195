//! How requests to Jira and Zephyr are addressed: base URLs, endpoints and
//! query strings.
use crate::encoding;
use crate::error::JiraError;
use crate::text;
use crate::text::{append_signed_decimal, append_str, ends_with_char};
use crate::text::push_char;
use vstd::prelude::*;
use vstd::string::*;

verus! {

/// Whether a text parses as an absolute URL.
pub uninterp spec fn url_parses(s: Seq<char>) -> bool;

/// `url::Url::parse`: succeeds exactly when `url_parses(s)`; the error is
/// the parser's message.
#[verifier::external_body]
pub(crate) fn parse_url(s: &str) -> (r: Result<(), String>)
    ensures
        r is Ok <==> url_parses(s@),
{
    match url::Url::parse(s) {
        Ok(_) => Ok(()),
        Err(e) => Err(e.to_string()),
    }
}

/// The text of the URL that `endpoint` denotes relative to the URL `base`
/// (`url::Url::parse` of `base`, then `url::Url::join`), or `None` where
/// either fails.
pub uninterp spec fn url_join(base: Seq<char>, endpoint: Seq<char>) -> Option<Seq<char>>;

/// `url::Url::parse` of `base`, then `url::Url::join` of `endpoint` onto
/// it: the serialized URL, named by `url_join`, or the parser's message.
/// What the URL text is, for given texts, is left to the `url` crate.
#[verifier::external_body]
pub(crate) fn join_url(base: &str, endpoint: &str) -> (r: Result<String, String>)
    ensures
        r is Ok <==> url_join(base@, endpoint@) is Some,
        r matches Ok(t) ==> url_join(base@, endpoint@) == Some(t@),
{
    match url::Url::parse(base) {
        Ok(b) => match b.join(endpoint) {
            Ok(u) => Ok(String::from(u)),
            Err(e) => Err(e.to_string()),
        },
        Err(e) => Err(e.to_string()),
    }
}

/// The base URL as a directory: with a `/` at its end, so that endpoints
/// are placed below its last segment rather than in place of it.
pub open spec fn base_dir(base: Seq<char>) -> Seq<char> {
    if base.len() > 0 && base.last() == '/' {
        base
    } else {
        base.push('/')
    }
}

fn base_directory(base: &str) -> (r: String)
    ensures
        r@ == base_dir(base@),
{
    let mut out = String::from_str(base);
    if !ends_with_char(base, '/') {
        push_char(&mut out, '/');
    }
    out
}

/// The full URL of an endpoint below a base URL (the endpoint goes below
/// the base's last segment). An unparsable base is a configuration error
/// that names the base; a failed join is one that names the endpoint.
pub fn build_url(base: &str, endpoint: &str, what: &str) -> (r: Result<String, JiraError>)
    ensures
        !url_parses(base@) ==> (r matches Err(JiraError::ConfigError { message }) && text::has_prefix(
            message@,
            "Invalid "@ + what@ + " base URL: "@,
        )),
        url_parses(base@) ==> match url_join(base_dir(base@), endpoint@) {
            Some(t) => r matches Ok(u) && u@ == t,
            None => r matches Err(JiraError::ConfigError { message }) && text::has_prefix(
                message@,
                "Invalid "@ + what@ + " endpoint URL: "@,
            ),
        },
{
    if let Err(e) = parse_url(base) {
        let mut m = String::from_str("Invalid ");
        append_str(&mut m, what);
        append_str(&mut m, " base URL: ");
        let ghost head = m@;
        append_str(&mut m, e.as_str());
        assert(m@.subrange(0, head.len() as int) =~= head);
        return Err(JiraError::ConfigError { message: m });
    }
    let dir = base_directory(base);
    match join_url(dir.as_str(), endpoint) {
        Ok(u) => Ok(u),
        Err(e) => {
            let mut m = String::from_str("Invalid ");
            append_str(&mut m, what);
            append_str(&mut m, " endpoint URL: ");
            let ghost head = m@;
            append_str(&mut m, e.as_str());
            assert(m@.subrange(0, head.len() as int) =~= head);
            Err(JiraError::ConfigError { message: m })
        },
    }
}

/// The base URL of the Zephyr API: the Jira base URL followed by
/// `/rest/zapi/latest`.
pub fn zephyr_api_base_url(api_base_url: &str) -> (r: String)
    ensures
        r@ == api_base_url@ + "/rest/zapi/latest"@,
{
    let mut out = String::from_str(api_base_url);
    append_str(&mut out, "/rest/zapi/latest");
    out
}

/// One query parameter: its name and value.
pub open spec fn query_pair(name: Seq<char>, value: Seq<char>) -> Seq<char> {
    encoding::percent_encoding(vstd::utf8::encode_utf8(name)) + "="@ + encoding::percent_encoding(
        vstd::utf8::encode_utf8(value),
    )
}

/// A query string: the percent-encoded parameters joined with `&`.
pub open spec fn query_string(params: Seq<(Seq<char>, Seq<char>)>) -> Seq<char>
    decreases params.len(),
{
    if params.len() == 0 {
        Seq::empty()
    } else if params.len() == 1 {
        query_pair(params[0].0, params[0].1)
    } else {
        query_string(params.drop_last()) + "&"@ + query_pair(params.last().0, params.last().1)
    }
}

/// The views of the parameters.
pub open spec fn param_views(params: Seq<(String, String)>) -> Seq<(Seq<char>, Seq<char>)> {
    params.map_values(|p: (String, String)| (p.0@, p.1@))
}

/// Renders parameters as a query string.
pub fn encode_query(params: &Vec<(String, String)>) -> (r: String)
    ensures
        r@ == query_string(param_views(params@)),
{
    let mut out = String::new();
    let mut i: usize = 0;
    let ghost all = param_views(params@);
    while i < params.len()
        invariant
            all == param_views(params@),
            i <= params@.len(),
            out@ == query_string(all.take(i as int)),
        decreases params@.len() - i,
    {
        if i > 0 {
            append_str(&mut out, "&");
        }
        let k = encoding::url_encode(params[i].0.as_str());
        let v = encoding::url_encode(params[i].1.as_str());
        append_str(&mut out, k.as_str());
        append_str(&mut out, "=");
        append_str(&mut out, v.as_str());
        assert(all.take(i + 1).drop_last() =~= all.take(i as int));
        assert(all[i as int] == (params@[i as int].0@, params@[i as int].1@));
        i = i + 1;
    }
    assert(all.take(i as int) =~= all);
    out
}

/// The decimal text of an `i32`.
pub fn i32_text(v: i32) -> (r: String)
    ensures
        r@ == text::signed_decimal(v as int),
{
    let mut out = String::new();
    append_signed_decimal(&mut out, v as i64);
    assert(Seq::<char>::empty() + text::signed_decimal(v as int) =~= text::signed_decimal(v as int));
    out
}

/// The parameters of a JQL search: the query, then the start when given,
/// then the page size (the requested one, else the configured default).
pub open spec fn search_params(
    jql: Seq<char>,
    start_at: Option<i32>,
    max_results: Option<i32>,
    default_max: Option<u32>,
) -> Seq<(Seq<char>, Seq<char>)> {
    seq![("jql"@, jql)] + match start_at {
        Some(s) => seq![("startAt"@, text::signed_decimal(s as int))],
        None => Seq::empty(),
    } + match max_results {
        Some(m) => seq![("maxResults"@, text::signed_decimal(m as int))],
        None => match default_max {
            Some(d) => seq![("maxResults"@, text::decimal(d as nat))],
            None => Seq::empty(),
        },
    }
}

/// The endpoint of a JQL search.
pub fn search_endpoint(
    jql: &str,
    start_at: Option<i32>,
    max_results: Option<i32>,
    default_max: Option<u32>,
) -> (r: String)
    ensures
        r@ == "search?"@ + query_string(search_params(jql@, start_at, max_results, default_max)),
{
    let mut params: Vec<(String, String)> = Vec::new();
    params.push((String::from_str("jql"), String::from_str(jql)));
    if let Some(start) = start_at {
        params.push((String::from_str("startAt"), i32_text(start)));
    }
    if let Some(max) = max_results {
        params.push((String::from_str("maxResults"), i32_text(max)));
    } else if let Some(default_max) = default_max {
        params.push((String::from_str("maxResults"), text::u64_to_decimal(default_max as u64)));
    }
    assert(param_views(params@) =~= search_params(jql@, start_at, max_results, default_max));
    let query = encode_query(&params);
    let mut out = String::from_str("search?");
    append_str(&mut out, query.as_str());
    out
}

/// The parameters of a Zephyr test case search: the project, then the
/// start and the page size when given.
pub open spec fn test_case_search_params(
    project_key: Seq<char>,
    start_at: Option<i32>,
    max_results: Option<i32>,
) -> Seq<(Seq<char>, Seq<char>)> {
    seq![("projectKey"@, project_key)] + match start_at {
        Some(s) => seq![("startAt"@, text::signed_decimal(s as int))],
        None => Seq::empty(),
    } + match max_results {
        Some(m) => seq![("maxResults"@, text::signed_decimal(m as int))],
        None => Seq::empty(),
    }
}

/// The endpoint of a Zephyr test case search.
pub fn test_case_search_endpoint(project_key: &str, start_at: Option<i32>, max_results: Option<i32>) -> (r: String)
    ensures
        r@ == "testcase?"@ + query_string(test_case_search_params(project_key@, start_at, max_results)),
{
    let mut params: Vec<(String, String)> = Vec::new();
    params.push((String::from_str("projectKey"), String::from_str(project_key)));
    if let Some(start) = start_at {
        params.push((String::from_str("startAt"), i32_text(start)));
    }
    if let Some(max) = max_results {
        params.push((String::from_str("maxResults"), i32_text(max)));
    }
    assert(param_views(params@) =~= test_case_search_params(project_key@, start_at, max_results));
    let query = encode_query(&params);
    let mut out = String::from_str("testcase?");
    append_str(&mut out, query.as_str());
    out
}

/// An endpoint made of a fixed head, one path segment and a fixed tail,
/// as in `issue/{key}/comment`.
pub fn endpoint_with(head: &str, segment: &str, tail: &str) -> (r: String)
    ensures
        r@ == head@ + segment@ + tail@,
{
    let mut out = String::from_str(head);
    append_str(&mut out, segment);
    append_str(&mut out, tail);
    out
}

/// The address of the Jira web pages: the API base URL with its
/// `/rest/api/2` taken out, under which `/browse/{key}` shows an issue.
pub fn browse_base_url(api_base_url: &str) -> (r: String)
    ensures
        r@ == text::replaced(api_base_url@, "/rest/api/2"@, ""@),
{
    proof {
        reveal_strlit("/rest/api/2");
    }
    text::replace_all(api_base_url, "/rest/api/2", "")
}

/// The base URL of the Jira Agile API: the API base URL with its
/// `/rest/api/2` replaced by `/rest/agile/1.0`.
pub fn agile_api_base_url(api_base_url: &str) -> (r: String)
    ensures
        r@ == text::replaced(api_base_url@, "/rest/api/2"@, "/rest/agile/1.0"@),
{
    proof {
        reveal_strlit("/rest/api/2");
    }
    text::replace_all(api_base_url, "/rest/api/2", "/rest/agile/1.0")
}

/// A page argument given as `snake` or, failing that, as `camel` (each:
/// absent, present but not an integer, or its value): the value when it
/// fits an `i32`, else 0. A present `snake` decides even when it is not an
/// integer.
pub open spec fn page_value_of(snake: Option<Option<i64>>, camel: Option<Option<i64>>) -> Option<i32> {
    let given = if snake is Some {
        snake->0
    } else {
        match camel {
            Some(v) => v,
            None => None,
        }
    };
    match given {
        Some(v) => if i32::MIN <= v <= i32::MAX {
            Some(v as i32)
        } else {
            Some(0i32)
        },
        None => None,
    }
}

/// Reads a page argument (`start_at`/`startAt`, `max_results`/`maxResults`).
pub fn page_value(snake: Option<Option<i64>>, camel: Option<Option<i64>>) -> (r: Option<i32>)
    ensures
        r == page_value_of(snake, camel),
{
    let given = match snake {
        Some(v) => v,
        None => match camel {
            Some(v) => v,
            None => None,
        },
    };
    match given {
        Some(v) => {
            if v < -2147483648i64 || v > 2147483647i64 {
                Some(0)
            } else {
                Some(v as i32)
            }
        },
        None => None,
    }
}

/// The parameters of a page of a sprint's issues: the start and the page
/// size when given.
pub open spec fn page_params(start_at: Option<i32>, max_results: Option<i32>) -> Seq<(Seq<char>, Seq<char>)> {
    (match start_at {
        Some(s) => seq![("startAt"@, text::signed_decimal(s as int))],
        None => Seq::empty(),
    }) + match max_results {
        Some(m) => seq![("maxResults"@, text::signed_decimal(m as int))],
        None => Seq::empty(),
    }
}

/// The endpoint of a page of a sprint's issues: `sprint/{id}/issue`, with a
/// query string when a start or a page size is given.
pub fn sprint_issues_endpoint(sprint_id: i32, start_at: Option<i32>, max_results: Option<i32>) -> (r: String)
    ensures
        r@ == "sprint/"@ + text::signed_decimal(sprint_id as int) + "/issue"@ + if page_params(
            start_at,
            max_results,
        ).len() == 0 {
            Seq::<char>::empty()
        } else {
            "?"@ + query_string(page_params(start_at, max_results))
        },
{
    let mut params: Vec<(String, String)> = Vec::new();
    if let Some(start) = start_at {
        params.push((String::from_str("startAt"), i32_text(start)));
    }
    if let Some(max) = max_results {
        params.push((String::from_str("maxResults"), i32_text(max)));
    }
    assert(param_views(params@) =~= page_params(start_at, max_results));
    let id = i32_text(sprint_id);
    let mut out = endpoint_with("sprint/", id.as_str(), "/issue");
    if params.len() > 0 {
        let query = encode_query(&params);
        append_str(&mut out, "?");
        append_str(&mut out, query.as_str());
        assert(out@ =~= "sprint/"@ + text::signed_decimal(sprint_id as int) + "/issue"@ + ("?"@
            + query_string(page_params(start_at, max_results))));
    } else {
        assert(out@ =~= out@ + Seq::<char>::empty());
    }
    out
}

/// An endpoint with one query parameter: `{path}?{name}={value}`, both
/// percent-encoded.
pub fn endpoint_with_param(path: &str, name: &str, value: &str) -> (r: String)
    ensures
        r@ == path@ + "?"@ + query_pair(name@, value@),
{
    let mut params: Vec<(String, String)> = Vec::new();
    params.push((String::from_str(name), String::from_str(value)));
    assert(param_views(params@) =~= seq![(name@, value@)]);
    let query = encode_query(&params);
    let mut out = String::from_str(path);
    append_str(&mut out, "?");
    append_str(&mut out, query.as_str());
    out
}

proof fn lemma_query_ends_with_last(params: Seq<(Seq<char>, Seq<char>)>)
    requires
        params.len() >= 2,
    ensures
        text::has_suffix(query_string(params), "&"@ + query_pair(params.last().0, params.last().1)),
{
    let tail = "&"@ + query_pair(params.last().0, params.last().1);
    let q = query_string(params);
    assert(q == query_string(params.drop_last()) + tail);
    assert(q.subrange(q.len() - tail.len(), q.len() as int) =~= tail);
}

/// A requested page size always decides the search's `maxResults`; the
/// configured default is used only when none is requested, and without
/// either there is none. The query names the JQL first, and `maxResults`
/// can only be its last parameter.
pub proof fn law_requested_page_size_wins(
    jql: Seq<char>,
    start_at: Option<i32>,
    max_results: Option<i32>,
    default_max: Option<u32>,
)
    ensures
        search_params(jql, start_at, max_results, default_max)[0] == ("jql"@, jql),
        max_results matches Some(m) ==> text::has_suffix(
            query_string(search_params(jql, start_at, max_results, default_max)),
            "&"@ + query_pair("maxResults"@, text::signed_decimal(m as int)),
        ),
        max_results is None && default_max is Some ==> text::has_suffix(
            query_string(search_params(jql, start_at, max_results, default_max)),
            "&"@ + query_pair("maxResults"@, text::decimal(default_max->0 as nat)),
        ),
        forall|i: int|
            0 <= i < search_params(jql, start_at, max_results, default_max).len() && (
            #[trigger] search_params(jql, start_at, max_results, default_max)[i]).0 == "maxResults"@
                ==> i == search_params(jql, start_at, max_results, default_max).len() - 1 && (
            max_results is Some || default_max is Some),
        start_at matches Some(s) ==> search_params(jql, start_at, max_results, default_max)[1] == (
            "startAt"@,
            text::signed_decimal(s as int),
        ),
{
    reveal_strlit("jql");
    reveal_strlit("startAt");
    reveal_strlit("maxResults");
    let p = search_params(jql, start_at, max_results, default_max);
    assert("jql"@[0] == 'j' && "startAt"@[0] == 's' && "maxResults"@[0] == 'm');
    assert("jql"@ != "maxResults"@);
    assert("startAt"@ != "maxResults"@);
    if max_results is Some || default_max is Some {
        lemma_query_ends_with_last(p);
    }
}

/// A test case search keeps the page it asks for: the project comes first,
/// then `startAt` whenever a start is given, then `maxResults` whenever a
/// page size is given; neither appears when not given.
pub proof fn law_test_case_search_keeps_its_page(
    project_key: Seq<char>,
    start_at: Option<i32>,
    max_results: Option<i32>,
)
    ensures
        test_case_search_params(project_key, start_at, max_results)[0] == ("projectKey"@, project_key),
        start_at matches Some(s) ==> test_case_search_params(project_key, start_at, max_results)[1] == (
            "startAt"@,
            text::signed_decimal(s as int),
        ),
        start_at matches Some(s) ==> text::has_prefix(
            query_string(test_case_search_params(project_key, start_at, max_results)),
            query_pair("projectKey"@, project_key) + "&"@ + query_pair("startAt"@, text::signed_decimal(s as int)),
        ),
        max_results matches Some(m) ==> text::has_suffix(
            query_string(test_case_search_params(project_key, start_at, max_results)),
            "&"@ + query_pair("maxResults"@, text::signed_decimal(m as int)),
        ),
        forall|i: int|
            0 <= i < test_case_search_params(project_key, start_at, max_results).len() ==> ((
            #[trigger] test_case_search_params(project_key, start_at, max_results)[i]).0 == "startAt"@
                ==> start_at is Some) && (test_case_search_params(project_key, start_at, max_results)[i].0
                == "maxResults"@ ==> max_results is Some),
{
    reveal_strlit("projectKey");
    reveal_strlit("startAt");
    reveal_strlit("maxResults");
    let p = test_case_search_params(project_key, start_at, max_results);
    assert("projectKey"@[0] == 'p' && "startAt"@[0] == 's' && "maxResults"@[0] == 'm');
    assert("projectKey"@ != "maxResults"@);
    assert("projectKey"@ != "startAt"@);
    assert("startAt"@ != "maxResults"@);
    if max_results is Some {
        lemma_query_ends_with_last(p);
    }
    if let Some(s) = start_at {
        let head = seq![("projectKey"@, project_key), ("startAt"@, text::signed_decimal(s as int))];
        let prefix = query_pair("projectKey"@, project_key) + "&"@ + query_pair("startAt"@, text::signed_decimal(s as int));
        assert(head.drop_last() =~= seq![("projectKey"@, project_key)]);
        assert(query_string(head.drop_last()) == query_pair("projectKey"@, project_key));
        assert(head.last() == ("startAt"@, text::signed_decimal(s as int)));
        assert(query_string(head) == prefix);
        if max_results is Some {
            assert(p.drop_last() =~= head);
            let q = query_string(p);
            assert(q == prefix + ("&"@ + query_pair(p.last().0, p.last().1)));
            assert(q.subrange(0, prefix.len() as int) =~= prefix);
        } else {
            assert(p =~= head);
            assert(query_string(p).subrange(0, prefix.len() as int) =~= prefix);
        }
    }
}

} // verus!
