//! Pure logic of the protocol client: header extraction with its
//! fallback policy, the trace-propagation value, and construction of the
//! versioned request paths of the four Runtime-API operations.
//!
//! Headers are modelled as a list of name/value string pairs, in response
//! order. Name matching ignores ASCII case, as HTTP header names are
//! case-insensitive. When a header is absent, extraction returns the
//! header name itself: a documented sentinel policy of this runtime.

use vstd::prelude::*;
use vstd::string::StrSliceExecFns;
use vstd::string::StringExecFns;

use crate::context::ContextView;

verus! {

/// ASCII case folding on a single character, as a character code:
/// `A`..`Z` map to the codes of `a`..`z`, all else is unchanged.
pub open spec fn lower_code(c: char) -> u32 {
    if 65 <= c as u32 && c as u32 <= 90 {
        ((c as u32) + 32) as u32
    } else {
        c as u32
    }
}

/// Header names are equal when they agree letter for letter up to ASCII
/// case.
pub open spec fn name_eq(a: Seq<char>, b: Seq<char>) -> bool {
    a.len() == b.len() && forall|i: int|
        0 <= i < a.len() ==> #[trigger] lower_code(a[i]) == lower_code(b[i])
}

/// The value of the first header at or after position `i` whose name
/// matches `name`, if any.
pub open spec fn lookup_header_from(
    headers: Seq<(String, String)>,
    name: Seq<char>,
    i: int,
) -> Option<Seq<char>>
    decreases headers.len() - i,
{
    if i < 0 || i >= headers.len() {
        None
    } else if name_eq(headers[i].0@, name) {
        Some(headers[i].1@)
    } else {
        lookup_header_from(headers, name, i + 1)
    }
}

/// The value of the first header whose name matches `name`, if any.
pub open spec fn lookup_header(headers: Seq<(String, String)>, name: Seq<char>) -> Option<
    Seq<char>,
> {
    lookup_header_from(headers, name, 0)
}

/// The extraction policy: the matched header's value when the header is
/// present, and the header name itself when it is absent.
pub open spec fn extract_header(headers: Seq<(String, String)>, name: Seq<char>) -> Seq<char> {
    match lookup_header(headers, name) {
        Some(value) => value,
        None => name,
    }
}

pub open spec fn request_id_header() -> Seq<char> {
    "Lambda-Runtime-Aws-Request-Id"@
}

pub open spec fn function_arn_header() -> Seq<char> {
    "Lambda-Runtime-Invoked-Function-Arn"@
}

pub open spec fn identity_header() -> Seq<char> {
    "Lambda-Runtime-Cognito-Identity"@
}

pub open spec fn client_context_header() -> Seq<char> {
    "Lambda-Runtime-Client-Context"@
}

pub open spec fn trace_id_header() -> Seq<char> {
    "Lambda-Runtime-Trace-Id"@
}

/// The invocation context that a poll response's headers determine: the
/// four identifying headers, each extracted under the fallback policy.
pub open spec fn context_of(headers: Seq<(String, String)>) -> ContextView {
    ContextView {
        aws_request_id: extract_header(headers, request_id_header()),
        invoked_function_arn: extract_header(headers, function_arn_header()),
        identity: extract_header(headers, identity_header()),
        client_context: extract_header(headers, client_context_header()),
    }
}

/// For any header present in a response, extraction captures its value
/// verbatim, also when the value is empty.
pub proof fn lemma_present_header_extracted_verbatim(
    headers: Seq<(String, String)>,
    name: Seq<char>,
    value: Seq<char>,
)
    requires
        lookup_header(headers, name) == Some(value),
    ensures
        extract_header(headers, name) == value,
{
}

/// For all poll responses, the invocation context captures the four
/// identifying header values verbatim whenever they are present,
/// including empty-but-present values.
pub proof fn lemma_context_captures_header_values(headers: Seq<(String, String)>)
    ensures
        lookup_header(headers, request_id_header()) matches Some(value) ==> context_of(
            headers,
        ).aws_request_id == value,
        lookup_header(headers, function_arn_header()) matches Some(value) ==> context_of(
            headers,
        ).invoked_function_arn == value,
        lookup_header(headers, identity_header()) matches Some(value) ==> context_of(
            headers,
        ).identity == value,
        lookup_header(headers, client_context_header()) matches Some(value) ==> context_of(
            headers,
        ).client_context == value,
{
}

/// For any header absent from a response, extraction returns the literal
/// header name.
pub proof fn lemma_absent_header_yields_name(headers: Seq<(String, String)>, name: Seq<char>)
    requires
        lookup_header(headers, name) is None,
    ensures
        extract_header(headers, name) == name,
{
}

fn lower_char(c: char) -> (code: u32)
    ensures
        code == lower_code(c),
{
    let k = c as u32;
    if 65 <= k && k <= 90 {
        k + 32
    } else {
        k
    }
}

fn names_match(a: &str, b: &str) -> (eq: bool)
    ensures
        eq == name_eq(a@, b@),
{
    let la = a.unicode_len();
    let lb = b.unicode_len();
    if la != lb {
        return false;
    }
    let mut i: usize = 0;
    while i < la
        invariant
            la == a@.len(),
            la == b@.len(),
            0 <= i <= la,
            forall|j: int| 0 <= j < i ==> #[trigger] lower_code(a@[j]) == lower_code(b@[j]),
        decreases la - i,
    {
        let ca = a.get_char(i);
        let cb = b.get_char(i);
        if lower_char(ca) != lower_char(cb) {
            assert(lower_code(a@[i as int]) != lower_code(b@[i as int]));
            return false;
        }
        i += 1;
    }
    true
}

/// The first header whose name matches `key`, if one is present.
fn find_header(headers: &Vec<(String, String)>, key: &str) -> (found: Option<String>)
    ensures
        match found {
            Some(value) => lookup_header(headers@, key@) == Some(value@),
            None => lookup_header(headers@, key@) is None,
        },
{
    let n = headers.len();
    let mut i: usize = 0;
    while i < n
        invariant
            n == headers@.len(),
            0 <= i <= n,
            lookup_header_from(headers@, key@, i as int) == lookup_header(headers@, key@),
        decreases n - i,
    {
        if names_match(headers[i].0.as_str(), key) {
            return Some(headers[i].1.clone());
        }
        i += 1;
    }
    None
}

/// Header extraction: the decoded value of the header named `key`, or,
/// when no such header is present, the literal header name itself.
pub fn get_header(headers: &Vec<(String, String)>, key: &str) -> (value: String)
    ensures
        value@ == extract_header(headers@, key@),
{
    match find_header(headers, key) {
        Some(value) => value,
        None => key.to_owned(),
    }
}

/// The trace-propagation value of a poll response: the trace header's
/// value when it is present, and nothing otherwise. The caller threads
/// this value to the tracing collaborator instead of the runtime keeping
/// hidden global state.
pub fn trace_header_value(headers: &Vec<(String, String)>) -> (trace: Option<String>)
    ensures
        match trace {
            Some(value) => lookup_header(headers@, trace_id_header()) == Some(value@),
            None => lookup_header(headers@, trace_id_header()) is None,
        },
{
    find_header(headers, "Lambda-Runtime-Trace-Id")
}

/// Prefixes a Runtime-API path with the fixed API version.
pub fn versioned_path(path: &str) -> (full: String)
    ensures
        full@ == "/2018-06-01"@ + path@,
{
    let mut full = String::from_str("/2018-06-01");
    full.append(path);
    full
}

/// The path polled for the next invocation event.
pub fn next_invocation_path() -> (path: String)
    ensures
        path@ == "/2018-06-01/runtime/invocation/next"@,
{
    let path = versioned_path("/runtime/invocation/next");
    proof {
        reveal_strlit("/2018-06-01");
        reveal_strlit("/runtime/invocation/next");
        reveal_strlit("/2018-06-01/runtime/invocation/next");
        assert(path@ =~= "/2018-06-01/runtime/invocation/next"@);
    }
    path
}

/// The path a successful result for `request_id` is posted to.
pub fn invocation_response_path(request_id: &str) -> (path: String)
    ensures
        path@ == "/2018-06-01/runtime/invocation/"@ + request_id@ + "/response"@,
{
    let mut inner = String::from_str("/runtime/invocation/");
    inner.append(request_id);
    inner.append("/response");
    let path = versioned_path(inner.as_str());
    proof {
        reveal_strlit("/2018-06-01");
        reveal_strlit("/runtime/invocation/");
        reveal_strlit("/2018-06-01/runtime/invocation/");
        assert(path@ =~= "/2018-06-01/runtime/invocation/"@ + request_id@ + "/response"@);
    }
    path
}

/// The path an invocation error for `request_id` is posted to.
pub fn invocation_error_path(request_id: &str) -> (path: String)
    ensures
        path@ == "/2018-06-01/runtime/invocation/"@ + request_id@ + "/error"@,
{
    let mut inner = String::from_str("/runtime/invocation/");
    inner.append(request_id);
    inner.append("/error");
    let path = versioned_path(inner.as_str());
    proof {
        reveal_strlit("/2018-06-01");
        reveal_strlit("/runtime/invocation/");
        reveal_strlit("/2018-06-01/runtime/invocation/");
        assert(path@ =~= "/2018-06-01/runtime/invocation/"@ + request_id@ + "/error"@);
    }
    path
}

/// The path an initialization error is posted to.
pub fn init_error_path() -> (path: String)
    ensures
        path@ == "/2018-06-01/runtime/init/error"@,
{
    let path = versioned_path("/runtime/init/error");
    proof {
        reveal_strlit("/2018-06-01");
        reveal_strlit("/runtime/init/error");
        reveal_strlit("/2018-06-01/runtime/init/error");
        assert(path@ =~= "/2018-06-01/runtime/init/error"@);
    }
    path
}

} // verus!
