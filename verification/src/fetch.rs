//! The HTTP host operation, as far as it decides anything: which request a
//! script's options ask for, and what a script is told of the response.

use vstd::prelude::*;
use crate::text::same_text;

verus! {

/// The request methods that a script may ask for.
#[derive(Clone, Copy, Debug, PartialEq, Eq, Structural)]
pub enum HttpMethod {
    Get,
    Post,
    Put,
    Delete,
    Patch,
    Head,
}

/// The upper-case form of a text, as the standard library computes it.
pub uninterp spec fn uppercased(text: Seq<char>) -> Seq<char>;

/// The standard reason phrase of a status code, where it has one.
pub uninterp spec fn reason_phrase(status: u16) -> Option<Seq<char>>;

/// Calls `str::to_uppercase`. Nothing is proved of it: the result is known
/// only as the upper-case form of the argument.
#[verifier::external_body]
fn to_uppercase(text: &str) -> (upper: String)
    ensures
        upper@ == uppercased(text@),
{
    text.to_uppercase()
}

/// Calls `reqwest::StatusCode::from_u16` and, on the code that it gives,
/// `canonical_reason`. Nothing is proved of it: the result is known only as
/// the reason phrase of the status, and a number that is no status code,
/// one below 100 or above 999, has none.
#[verifier::external_body]
fn status_reason(status: u16) -> (reason: Option<String>)
    ensures
        reason is Some <==> reason_phrase(status) is Some,
        reason is Some ==> reason->Some_0@ == reason_phrase(status)->Some_0,
        !(100 <= status <= 999) ==> reason is None,
{
    match reqwest::StatusCode::from_u16(status) {
        Ok(code) => code.canonical_reason().map(str::to_string),
        Err(_) => None,
    }
}

/// The method that an upper-case name stands for.
pub open spec fn method_of_upper(upper: Seq<char>) -> Option<HttpMethod> {
    if upper == "GET"@ {
        Some(HttpMethod::Get)
    } else if upper == "POST"@ {
        Some(HttpMethod::Post)
    } else if upper == "PUT"@ {
        Some(HttpMethod::Put)
    } else if upper == "DELETE"@ {
        Some(HttpMethod::Delete)
    } else if upper == "PATCH"@ {
        Some(HttpMethod::Patch)
    } else if upper == "HEAD"@ {
        Some(HttpMethod::Head)
    } else {
        None
    }
}

/// A status in the range 200 to 299 counts as success.
pub open spec fn is_success(status: u16) -> bool {
    200 <= status < 300
}

/// The method that an upper-case name stands for, or `None` for a name
/// that is none of the six.
pub fn method_from_upper(upper: &str) -> (method: Option<HttpMethod>)
    ensures
        method == method_of_upper(upper@),
{
    if same_text(upper, "GET") {
        Some(HttpMethod::Get)
    } else if same_text(upper, "POST") {
        Some(HttpMethod::Post)
    } else if same_text(upper, "PUT") {
        Some(HttpMethod::Put)
    } else if same_text(upper, "DELETE") {
        Some(HttpMethod::Delete)
    } else if same_text(upper, "PATCH") {
        Some(HttpMethod::Patch)
    } else if same_text(upper, "HEAD") {
        Some(HttpMethod::Head)
    } else {
        None
    }
}

/// The method that a name stands for, whatever its casing.
pub fn parse_method(name: &str) -> (method: Option<HttpMethod>)
    ensures
        method == method_of_upper(uppercased(name@)),
{
    let upper = to_uppercase(name);
    method_from_upper(upper.as_str())
}

/// One entry of the `headers` option. The value is `None` where the script
/// gave something that is not a string.
#[derive(Clone, Debug, PartialEq, Eq)]
pub struct HeaderField {
    pub name: String,
    pub value: Option<String>,
}

/// The options of a request, as a script gives them.
#[derive(Clone, Debug, PartialEq, Eq)]
pub struct FetchOptions {
    /// The method's name, where the script gave a string.
    pub method: Option<String>,
    /// The entries of `headers`, in the order in which they are to be set.
    pub headers: Vec<HeaderField>,
    /// The body, where the script gave a string.
    pub body: Option<String>,
}

/// A request that is ready to be sent.
#[derive(Clone, Debug, PartialEq, Eq)]
pub struct FetchRequest {
    pub method: HttpMethod,
    pub url: String,
    pub headers: Vec<(String, String)>,
    pub body: Option<String>,
}

/// Why no request can be made of a script's options.
#[derive(Clone, Copy, Debug, PartialEq, Eq, Structural)]
pub enum FetchError {
    /// The options name a method that is none of the six.
    UnsupportedMethod,
}

/// What a script is told of a response.
#[derive(Clone, Debug, PartialEq, Eq)]
pub struct FetchResponse {
    pub status: u16,
    pub ok: bool,
    pub status_text: String,
    pub headers: Vec<(String, String)>,
    pub body: String,
}

/// Name and value of each pair, as texts.
pub open spec fn pairs_text(pairs: Seq<(String, String)>) -> Seq<(Seq<char>, Seq<char>)> {
    Seq::new(pairs.len(), |i: int| (pairs[i].0@, pairs[i].1@))
}

/// The headers that are set: the entries whose value is a string, in order.
pub open spec fn kept_headers(fields: Seq<HeaderField>) -> Seq<(Seq<char>, Seq<char>)>
    decreases fields.len(),
{
    if fields.len() == 0 {
        Seq::empty()
    } else {
        let rest = kept_headers(fields.drop_last());
        match fields.last().value {
            Some(value) => rest.push((fields.last().name@, value@)),
            None => rest,
        }
    }
}

/// The method of a request: `GET` where the options name none.
pub open spec fn method_for(name: Option<Seq<char>>) -> Result<HttpMethod, FetchError> {
    match name {
        None => Ok(HttpMethod::Get),
        Some(text) => match method_of_upper(uppercased(text)) {
            Some(method) => Ok(method),
            None => Err(FetchError::UnsupportedMethod),
        },
    }
}

/// The text of an optional string.
pub open spec fn text_of(value: Option<String>) -> Option<Seq<char>> {
    match value {
        Some(text) => Some(text@),
        None => None,
    }
}

/// Whether a status counts as success.
pub fn status_ok(status: u16) -> (ok: bool)
    ensures
        ok == is_success(status),
{
    200 <= status && status < 300
}

/// Picks the headers that are set: the entries whose value is a string.
pub fn string_headers(fields: &Vec<HeaderField>) -> (kept: Vec<(String, String)>)
    ensures
        pairs_text(kept@) == kept_headers(fields@),
{
    let mut kept: Vec<(String, String)> = Vec::new();
    let mut i: usize = 0;
    assert(fields@.take(0) =~= Seq::<HeaderField>::empty());
    assert(pairs_text(kept@) =~= kept_headers(fields@.take(0)));
    while i < fields.len()
        invariant
            i <= fields.len(),
            pairs_text(kept@) == kept_headers(fields@.take(i as int)),
        decreases fields.len() - i,
    {
        let field = &fields[i];
        let ghost before = kept@;
        assert(fields@.take(i + 1).drop_last() =~= fields@.take(i as int));
        match &field.value {
            Some(value) => {
                kept.push((field.name.clone(), value.clone()));
                assert(pairs_text(kept@) =~= pairs_text(before).push((field.name@, value@)));
            },
            None => {},
        }
        i += 1;
    }
    assert(fields@.take(fields.len() as int) =~= fields@);
    kept
}

/// Makes a request of a URL and a script's options.
///
/// Without options, or without a method among them, the method is `GET`.
/// A method is named in any casing; a name that is none of the six is
/// refused. Of the headers, those whose value is a string are set, in
/// order. The body is set where the script gave a string.
pub fn build_request(url: String, options: Option<FetchOptions>) -> (r: Result<
    FetchRequest,
    FetchError,
>)
    ensures
        match options {
            None => r is Ok && r->Ok_0.method == HttpMethod::Get && r->Ok_0.url == url
                && r->Ok_0.headers@.len() == 0 && r->Ok_0.body is None,
            Some(given) => match method_for(text_of(given.method)) {
                Ok(method) => r is Ok && r->Ok_0.method == method && r->Ok_0.url == url
                    && pairs_text(r->Ok_0.headers@) == kept_headers(given.headers@) && r->Ok_0.body
                    == given.body,
                Err(error) => r == Err::<FetchRequest, FetchError>(error),
            },
        },
{
    match options {
        None => Ok(FetchRequest { method: HttpMethod::Get, url, headers: Vec::new(), body: None }),
        Some(given) => {
            let method = match &given.method {
                None => HttpMethod::Get,
                Some(name) => match parse_method(name.as_str()) {
                    Some(method) => method,
                    None => {
                        return Err(FetchError::UnsupportedMethod);
                    },
                },
            };
            let headers = string_headers(&given.headers);
            Ok(FetchRequest { method, url, headers, body: given.body })
        },
    }
}

/// What a script is told of a response with the given reason phrase: the
/// status, whether it counts as success, the phrase or the empty text, the
/// headers and the body.
pub fn response_with(
    status: u16,
    reason: Option<String>,
    headers: Vec<(String, String)>,
    body: String,
) -> (response: FetchResponse)
    ensures
        response.status == status,
        response.ok == is_success(status),
        response.status_text@ == match reason {
            Some(text) => text@,
            None => Seq::<char>::empty(),
        },
        response.headers == headers,
        response.body == body,
{
    let status_text = match reason {
        Some(text) => text,
        None => String::new(),
    };
    FetchResponse { status, ok: status_ok(status), status_text, headers, body }
}

/// What a script is told of a response: as `response_with`, with the
/// standard reason phrase of the status.
pub fn build_response(status: u16, headers: Vec<(String, String)>, body: String) -> (response:
    FetchResponse)
    ensures
        response.status == status,
        response.ok == is_success(status),
        response.status_text@ == match reason_phrase(status) {
            Some(text) => text,
            None => Seq::<char>::empty(),
        },
        response.headers == headers,
        response.body == body,
{
    response_with(status, status_reason(status), headers, body)
}

} // verus!
