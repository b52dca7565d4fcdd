//! Building authenticated requests: which token is used, and which headers
//! go on the wire.

use crate::error::{ClientError, ClientErrorView, ConfigurationFault};
use crate::http::{header_bytes_ok, header_value_accepts, is_success};
use vstd::prelude::*;
use vstd::string::*;

verus! {

/// The root of the service's addresses.
pub const API_URL: &'static str = "https://api.llm.ngc.nvidia.com/v1";

/// The HTTP methods this client uses.
#[derive(Debug, Clone, Copy, PartialEq, Eq, Structural)]
pub enum Method {
    Get,
    Post,
}

/// One header line.
#[derive(Debug, Clone, PartialEq, Eq)]
pub struct Header {
    pub name: String,
    pub value: String,
}

/// A request that is ready to be sent. The JSON payload, if any, travels
/// beside it as a typed value.
#[derive(Debug, Clone, PartialEq, Eq)]
pub struct HttpRequest {
    pub method: Method,
    pub url: String,
    pub headers: Vec<Header>,
}

/// The mathematical content of a [`Header`].
pub struct HeaderView {
    pub name: Seq<char>,
    pub value: Seq<char>,
}

/// The mathematical content of an [`HttpRequest`].
pub struct HttpRequestView {
    pub method: Method,
    pub url: Seq<char>,
    pub headers: Seq<HeaderView>,
}

impl View for Header {
    type V = HeaderView;

    open spec fn view(&self) -> HeaderView {
        HeaderView { name: self.name@, value: self.value@ }
    }
}

impl View for HttpRequest {
    type V = HttpRequestView;

    open spec fn view(&self) -> HttpRequestView {
        HttpRequestView {
            method: self.method,
            url: self.url@,
            headers: self.headers@.map_values(|h: Header| h@),
        }
    }
}

/// The text of an optional string.
pub open spec fn text_of(s: Option<String>) -> Option<Seq<char>> {
    match s {
        Some(t) => Some(t@),
        None => None,
    }
}

/// The token a call uses: the explicit one if given, else the fallback.
pub open spec fn resolved_token(
    explicit: Option<Seq<char>>,
    fallback: Option<Seq<char>>,
) -> Option<Seq<char>> {
    match explicit {
        Some(t) => Some(t),
        None => fallback,
    }
}

/// The value of the `Authorization` header for `token`.
pub open spec fn bearer(token: Seq<char>) -> Seq<char> {
    "Bearer "@ + token
}

/// Whether `token` can be sent: its `Authorization` value must be a legal
/// header value.
pub open spec fn token_usable(token: Seq<char>) -> bool {
    header_bytes_ok(vstd::utf8::encode_utf8(bearer(token)))
}

/// The headers of an authenticated JSON POST.
pub open spec fn post_headers(token: Seq<char>) -> Seq<HeaderView> {
    seq![
        HeaderView { name: "Content-Type"@, value: "application/json"@ },
        HeaderView { name: "Authorization"@, value: bearer(token) },
        HeaderView { name: "x-stream"@, value: "false"@ },
    ]
}

/// The headers of an authenticated GET.
pub open spec fn get_headers(token: Seq<char>) -> Seq<HeaderView> {
    seq![
        HeaderView { name: "Content-Type"@, value: "application/json"@ },
        HeaderView { name: "Authorization"@, value: bearer(token) },
    ]
}

/// The first header of `headers` named `name`, if there is one.
pub open spec fn header_value(headers: Seq<HeaderView>, name: Seq<char>) -> Option<Seq<char>>
    decreases headers.len(),
{
    if headers.len() == 0 {
        None
    } else if headers[0].name == name {
        Some(headers[0].value)
    } else {
        header_value(headers.drop_first(), name)
    }
}

/// Picks the token for a call. An explicit token always wins; the fallback
/// (typically read from the environment by the caller) is used only when no
/// explicit token is given.
pub fn resolve_token(explicit: Option<String>, fallback: Option<String>) -> (r: Result<
    String,
    ClientError,
>)
    ensures
        match resolved_token(text_of(explicit), text_of(fallback)) {
            Some(t) => r matches Ok(s) && s@ == t,
            None => r matches Err(e) && e@ == (ClientErrorView::Configuration {
                reason: ConfigurationFault::MissingToken,
            }),
        },
{
    match explicit {
        Some(t) => Ok(t),
        None => match fallback {
            Some(t) => Ok(t),
            None => Err(ClientError::Configuration { reason: ConfigurationFault::MissingToken }),
        },
    }
}

/// Builds the `Authorization` header for `token`, or reports that the token
/// cannot be sent.
pub fn authorization(token: &str) -> (r: Result<Header, ClientError>)
    ensures
        token_usable(token@) ==> (r matches Ok(h) && h@ == (HeaderView {
            name: "Authorization"@,
            value: bearer(token@),
        })),
        !token_usable(token@) ==> (r matches Err(e) && e@ == (ClientErrorView::Configuration {
            reason: ConfigurationFault::UnusableToken,
        })),
{
    let mut value = String::from_str("Bearer ");
    value.append(token);
    if header_value_accepts(value.as_str()) {
        Ok(Header { name: String::from_str("Authorization"), value })
    } else {
        Err(ClientError::Configuration { reason: ConfigurationFault::UnusableToken })
    }
}

/// Builds an authenticated JSON POST to `endpoint`.
pub fn post(endpoint: String, token: &str) -> (r: Result<HttpRequest, ClientError>)
    ensures
        token_usable(token@) ==> (r matches Ok(req) && req@ == (HttpRequestView {
            method: Method::Post,
            url: endpoint@,
            headers: post_headers(token@),
        })),
        !token_usable(token@) ==> (r matches Err(e) && e@ == (ClientErrorView::Configuration {
            reason: ConfigurationFault::UnusableToken,
        })),
{
    match authorization(token) {
        Ok(auth) => {
            let mut headers: Vec<Header> = Vec::new();
            headers.push(header("Content-Type", "application/json"));
            headers.push(auth);
            headers.push(header("x-stream", "false"));
            let req = HttpRequest { method: Method::Post, url: endpoint, headers };
            assert(req@.headers =~= post_headers(token@));
            Ok(req)
        },
        Err(e) => Err(e),
    }
}

/// Builds an authenticated GET of `endpoint`.
pub fn get(endpoint: String, token: &str) -> (r: Result<HttpRequest, ClientError>)
    ensures
        token_usable(token@) ==> (r matches Ok(req) && req@ == (HttpRequestView {
            method: Method::Get,
            url: endpoint@,
            headers: get_headers(token@),
        })),
        !token_usable(token@) ==> (r matches Err(e) && e@ == (ClientErrorView::Configuration {
            reason: ConfigurationFault::UnusableToken,
        })),
{
    match authorization(token) {
        Ok(auth) => {
            let mut headers: Vec<Header> = Vec::new();
            headers.push(header("Content-Type", "application/json"));
            headers.push(auth);
            let req = HttpRequest { method: Method::Get, url: endpoint, headers };
            assert(req@.headers =~= get_headers(token@));
            Ok(req)
        },
        Err(e) => Err(e),
    }
}

/// Makes a header line.
pub fn header(name: &str, value: &str) -> (h: Header)
    ensures
        h@ == (HeaderView { name: name@, value: value@ }),
{
    Header { name: String::from_str(name), value: String::from_str(value) }
}

/// The detail of a failure answer: the structured message where the body
/// held one, else the raw body.
pub open spec fn failure_detail(body: Seq<char>, message: Option<Seq<char>>) -> Seq<char> {
    match message {
        Some(m) => m,
        None => body,
    }
}

/// The error for a failure answer of the service.
pub fn remote_failure(status: u16, body: String, message: Option<String>) -> (e: ClientError)
    ensures
        e@ == (ClientErrorView::Remote {
            status,
            detail: failure_detail(body@, text_of(message)),
        }),
{
    match message {
        Some(m) => ClientError::Remote { status, detail: m },
        None => ClientError::Remote { status, detail: body },
    }
}

/// Sorts an answer by its status: the body of a success answer is handed
/// on, any other answer becomes a remote error that carries the status and
/// the body. Nothing is retried.
pub fn accept(status: u16, body: String) -> (r: Result<String, ClientError>)
    ensures
        200 <= status < 300 ==> r == Ok::<String, ClientError>(body),
        !(200 <= status < 300) ==> (r matches Err(e) && e@ == (ClientErrorView::Remote {
            status,
            detail: body@,
        })),
{
    if is_success(status) {
        Ok(body)
    } else {
        Err(ClientError::Remote { status, detail: body })
    }
}

/// An explicit token always overrides the fallback, whatever the fallback
/// is, and it is the explicit token that the `Authorization` header of the
/// request then carries.
pub proof fn law_explicit_token_wins(explicit: Seq<char>, fallback: Option<Seq<char>>)
    ensures
        resolved_token(Some(explicit), fallback) == Some(explicit),
        header_value(post_headers(resolved_token(Some(explicit), fallback).unwrap()), "Authorization"@)
            == Some(bearer(explicit)),
        header_value(get_headers(resolved_token(Some(explicit), fallback).unwrap()), "Authorization"@)
            == Some(bearer(explicit)),
{
    reveal_strlit("Authorization");
    reveal_strlit("Content-Type");
    reveal_with_fuel(header_value, 3);
    let post = post_headers(explicit);
    assert(post[0].name.len() != "Authorization"@.len());
    assert(post.drop_first()[0] == post[1]);
    let get = get_headers(explicit);
    assert(get[0].name.len() != "Authorization"@.len());
    assert(get.drop_first()[0] == get[1]);
}

/// The fallback token is used exactly when no explicit token is given.
pub proof fn law_fallback_only_without_explicit(fallback: Option<Seq<char>>)
    ensures
        resolved_token(None, fallback) == fallback,
{
}

} // verus!
