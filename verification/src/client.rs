//! The control plane's HTTP interface: where a request goes, what it carries,
//! and what its exchange amounts to.

use crate::error::{ErrorView, GatewayError, GatewayResult};
use crate::json::{Json, JsonView};
use crate::text::{
    joined, text_if_any, trim_end_matches, trim_start_matches, without_leading, without_trailing,
    Edge,
};
use vstd::prelude::*;

verus! {

broadcast use vstd::string::group_string_axioms;

/// How long the control plane has to answer a request, in seconds.
pub const REQUEST_TIMEOUT_SECONDS: u64 = 30;

/// A client of the Honeycomb control plane: where it is, and the key that the
/// requests show, if any.
#[derive(Debug)]
pub struct HoneycombClient {
    base_url: String,
    api_key: Option<String>,
}

/// What a client is made with.
pub struct ClientView {
    pub base_url: Seq<char>,
    pub api_key: Option<Seq<char>>,
}

impl View for HoneycombClient {
    type V = ClientView;

    closed spec fn view(&self) -> ClientView {
        ClientView { base_url: self.base_url@, api_key: self.api_key.deep_view() }
    }
}

/// What a request asks for.
#[derive(Clone, Copy, Debug, PartialEq, Eq, Structural)]
pub enum Method {
    Get,
    Post,
}

impl Method {
    /// The method's name.
    pub open spec fn name(self) -> Seq<char> {
        match self {
            Method::Get => "GET"@,
            Method::Post => "POST"@,
        }
    }
}

/// A request to send.
#[derive(Debug)]
pub struct HttpRequest {
    pub method: Method,
    pub url: String,
    /// The value of the header `x-api-key`, where it is sent.
    pub api_key: Option<String>,
    pub body: Option<Json>,
}

/// What a request is.
pub struct HttpRequestView {
    pub method: Method,
    pub url: Seq<char>,
    pub api_key: Option<Seq<char>>,
    pub body: Option<JsonView>,
}

impl View for HttpRequest {
    type V = HttpRequestView;

    open spec fn view(&self) -> HttpRequestView {
        HttpRequestView {
            method: self.method,
            url: self.url@,
            api_key: self.api_key.deep_view(),
            body: match self.body {
                Some(json) => Some(json@),
                None => None,
            },
        }
    }
}

/// What came of a request that asks for a `T`.
#[derive(Debug)]
pub enum Exchange<T> {
    /// No answer came; the text is that of the transport's error.
    Unreachable(String),
    /// The answer has a status other than success, which reads so.
    Refused(String),
    /// The answer is no `T`; the text is that of the decoder's error.
    Garbled(String),
    /// The answer.
    Decoded(T),
}

/// The URL of `path` under `base`: one slash between the two, however many
/// `base` ends with and `path` starts with.
pub open spec fn url_of(base: Seq<char>, path: Seq<char>) -> Seq<char> {
    without_trailing(base, Edge::Only('/')) + "/"@ + without_leading(path, Edge::Only('/'))
}

impl ClientView {
    /// The request for what is at `path`.
    pub open spec fn get(self, path: Seq<char>) -> HttpRequestView {
        HttpRequestView {
            method: Method::Get,
            url: url_of(self.base_url, path),
            api_key: self.api_key,
            body: None,
        }
    }

    /// The request that hands `body` to `path`.
    pub open spec fn post(self, path: Seq<char>, body: JsonView) -> HttpRequestView {
        HttpRequestView {
            method: Method::Post,
            url: url_of(self.base_url, path),
            api_key: self.api_key,
            body: Some(body),
        }
    }
}

/// What an exchange amounts to: the answer, or the control plane's failure.
pub open spec fn settled<T>(method: Method, path: Seq<char>, exchange: Exchange<T>) -> Result<
    T,
    ErrorView,
> {
    match exchange {
        Exchange::Unreachable(message) => Err(ErrorView::ControlPlane(message@)),
        Exchange::Refused(status) => Err(
            ErrorView::ControlPlane("HTTP "@ + status@ + " for "@ + method.name() + " "@ + path),
        ),
        Exchange::Garbled(message) => Err(ErrorView::ControlPlane(message@)),
        Exchange::Decoded(answer) => Ok(answer),
    }
}

impl HoneycombClient {
    /// A client of the control plane at `base_url`.
    pub fn new(base_url: String, api_key: Option<String>) -> (client: HoneycombClient)
        ensures
            client@.base_url == base_url@,
            client@.api_key == api_key.deep_view(),
    {
        HoneycombClient { base_url, api_key }
    }

    /// The URL of `path` under the base.
    pub fn url(&self, path: &str) -> (url: String)
        ensures
            url@ == url_of(self@.base_url, path@),
    {
        let mut url = joined(trim_end_matches(&self.base_url, '/'), "/");
        url.append(trim_start_matches(path, '/'));
        url
    }

    /// The request for what is at `path`.
    pub fn get_request(&self, path: &str) -> (request: HttpRequest)
        ensures
            request@ == self@.get(path@),
    {
        HttpRequest {
            method: Method::Get,
            url: self.url(path),
            api_key: self.api_key.clone(),
            body: None,
        }
    }

    /// The request that hands `body` to `path`.
    pub fn post_request(&self, path: &str, body: Json) -> (request: HttpRequest)
        ensures
            request@ == self@.post(path@, body@),
    {
        HttpRequest {
            method: Method::Post,
            url: self.url(path),
            api_key: self.api_key.clone(),
            body: Some(body),
        }
    }
}

/// Whether a status says that a request succeeded.
pub fn is_success(status: u16) -> (answer: bool)
    ensures
        answer == (200 <= status < 300),
{
    200 <= status && status < 300
}

/// What an exchange amounts to: the answer, or the control plane's failure.
pub fn settle<T>(method: Method, path: &str, exchange: Exchange<T>) -> (result: GatewayResult<T>)
    ensures
        (match result {
            Ok(answer) => Ok(answer),
            Err(error) => Err(error@),
        }) == settled(method, path@, exchange),
{
    match exchange {
        Exchange::Unreachable(message) => Err(GatewayError::ControlPlane(message)),
        Exchange::Refused(status) => {
            let name = match method {
                Method::Get => "GET",
                Method::Post => "POST",
            };
            let mut message = joined("HTTP ", &status);
            message.append(" for ");
            message.append(name);
            message.append(" ");
            message.append(path);
            Err(GatewayError::ControlPlane(message))
        },
        Exchange::Garbled(message) => Err(GatewayError::ControlPlane(message)),
        Exchange::Decoded(answer) => Ok(answer),
    }
}

/// A slash at the end of the base, or at the start of the path, makes no
/// difference to the URL.
pub proof fn law_slashes_make_no_difference(base: Seq<char>, path: Seq<char>)
    ensures
        url_of(base.push('/'), path) == url_of(base, path),
        url_of(base, seq!['/'] + path) == url_of(base, path),
{
    assert(base.push('/').drop_last() =~= base);
    assert((seq!['/'] + path).drop_first() =~= path);
}

/// Between a base that ends in no slash and a path that starts with none stands
/// one slash.
pub proof fn law_url_is_base_slash_path(base: Seq<char>, path: Seq<char>)
    requires
        base.len() > 0 ==> base.last() != '/',
        path.len() > 0 ==> path[0] != '/',
    ensures
        url_of(base, path) == base + seq!['/'] + path,
{
    reveal_strlit("/");
    assert("/"@ =~= seq!['/']);
}

/// A request for a path goes to that path's URL, shows the client's key if it has
/// one, and carries a body only where one is handed over.
pub proof fn law_requests_show_the_key(client: ClientView, path: Seq<char>, body: JsonView)
    ensures
        client.get(path).method == Method::Get,
        client.get(path).url == url_of(client.base_url, path),
        client.get(path).api_key == client.api_key,
        client.get(path).body is None,
        client.post(path, body).method == Method::Post,
        client.post(path, body).url == url_of(client.base_url, path),
        client.post(path, body).api_key == client.api_key,
        client.post(path, body).body == Some(body),
{
}

/// A request that is made is the request that is sent.
pub proof fn law_request_is_its_parts(request: HttpRequest)
    ensures
        request@.method == request.method,
        request@.url == request.url@,
        request@.api_key == text_if_any(request.api_key),
        request.body matches Some(json) ==> request@.body == Some(json@),
        request.body is None ==> request@.body is None,
{
}

/// An answer that was decoded is the result; any other exchange is a failure of
/// the control plane, which a refusal gives with its status, the method and the
/// path.
pub proof fn law_only_decoded_answers_are_results<T>(
    path: Seq<char>,
    answer: T,
    text: String,
    method: Method,
)
    ensures
        settled(method, path, Exchange::Decoded(answer)) == Ok::<T, ErrorView>(answer),
        settled(method, path, Exchange::<T>::Unreachable(text)) == Err::<T, ErrorView>(
            ErrorView::ControlPlane(text@),
        ),
        settled(method, path, Exchange::<T>::Garbled(text)) == Err::<T, ErrorView>(
            ErrorView::ControlPlane(text@),
        ),
        settled(Method::Get, path, Exchange::<T>::Refused(text)) == Err::<T, ErrorView>(
            ErrorView::ControlPlane("HTTP "@ + text@ + " for GET "@ + path),
        ),
        settled(Method::Post, path, Exchange::<T>::Refused(text)) == Err::<T, ErrorView>(
            ErrorView::ControlPlane("HTTP "@ + text@ + " for POST "@ + path),
        ),
{
    reveal_strlit(" for ");
    reveal_strlit("GET");
    reveal_strlit("POST");
    reveal_strlit(" ");
    reveal_strlit(" for GET ");
    reveal_strlit(" for POST ");
    assert("HTTP "@ + text@ + " for "@ + "GET"@ + " "@ + path =~= "HTTP "@ + text@ + " for GET "@
        + path);
    assert("HTTP "@ + text@ + " for "@ + "POST"@ + " "@ + path =~= "HTTP "@ + text@ + " for POST "@
        + path);
}

} // verus!
