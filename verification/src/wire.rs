//! The requests that a guest sends to the cluster and the responses that it
//! gets back, as they cross the boundary between guest and host.

use crate::text::ascii_lower;
use vstd::prelude::*;
use vstd::string::*;
use vstd::utf8::encode_utf8;

verus! {

/// The method of a request.
#[derive(Clone, Copy, Debug, PartialEq, Eq, Structural)]
pub enum HttpMethod {
    Get,
    Post,
    Put,
    Delete,
    Patch,
}

/// One header of a request.
#[derive(Debug)]
pub struct Header {
    pub name: String,
    pub value: String,
}

/// A request as a guest hands it to the host.
#[derive(Debug)]
pub struct HttpRequest {
    pub method: HttpMethod,
    pub uri: String,
    pub headers: Vec<Header>,
    pub body: Vec<u8>,
}

/// A response as the host hands it to a guest. The body holds the resource
/// as JSON, or, where the cluster refused the request, its status document.
#[derive(Debug)]
pub struct HttpResponse {
    pub body: Vec<u8>,
}

/// Why a request brought no response.
#[derive(Debug)]
pub enum RequestError {
    /// The URI is not one; the text says why.
    InvalidUri(String),
    /// The method is not one.
    InvalidMethod(String),
    /// The request could not be put together.
    Build(String),
    /// The cluster could not be reached.
    Transport(String),
    /// The response could not be written as JSON.
    Encode(String),
}

/// The name of a method as it stands in a request.
pub open spec fn method_name(method: HttpMethod) -> Seq<char> {
    match method {
        HttpMethod::Get => "GET"@,
        HttpMethod::Post => "POST"@,
        HttpMethod::Put => "PUT"@,
        HttpMethod::Delete => "DELETE"@,
        HttpMethod::Patch => "PATCH"@,
    }
}

/// The text that a guest is given in place of a response.
pub open spec fn error_text(error: RequestError) -> Seq<char> {
    match error {
        RequestError::InvalidUri(detail) => "Invalid URI: "@ + detail@,
        RequestError::InvalidMethod(detail) => "Invalid method: "@ + detail@,
        RequestError::Build(detail) => "Failed to build request: "@ + detail@,
        RequestError::Transport(detail) => "Failed to send request: "@ + detail@,
        RequestError::Encode(detail) => "Failed to serialize response: "@ + detail@,
    }
}

impl HttpMethod {
    /// The name of the method as it stands in a request.
    pub fn as_str(&self) -> (name: &'static str)
        ensures
            name@ == method_name(*self),
    {
        match self {
            HttpMethod::Get => "GET",
            HttpMethod::Post => "POST",
            HttpMethod::Put => "PUT",
            HttpMethod::Delete => "DELETE",
            HttpMethod::Patch => "PATCH",
        }
    }
}

impl RequestError {
    /// The text that a guest is given in place of a response.
    pub fn message(&self) -> (text: String)
        ensures
            text@ == error_text(*self),
    {
        match self {
            RequestError::InvalidUri(detail) => {
                let mut text = String::from_str("Invalid URI: ");
                text.append(detail.as_str());
                text
            },
            RequestError::InvalidMethod(detail) => {
                let mut text = String::from_str("Invalid method: ");
                text.append(detail.as_str());
                text
            },
            RequestError::Build(detail) => {
                let mut text = String::from_str("Failed to build request: ");
                text.append(detail.as_str());
                text
            },
            RequestError::Transport(detail) => {
                let mut text = String::from_str("Failed to send request: ");
                text.append(detail.as_str());
                text
            },
            RequestError::Encode(detail) => {
                let mut text = String::from_str("Failed to serialize response: ");
                text.append(detail.as_str());
                text
            },
        }
    }
}

/// The URI type of the `http` crate.
#[verifier::external_type_specification]
#[verifier::external_body]
pub struct ExUri(http::Uri);

/// The method type of the `http` crate.
#[verifier::external_type_specification]
#[verifier::external_body]
pub struct ExMethod(http::Method);

/// The request builder of the `http` crate.
#[verifier::external_type_specification]
#[verifier::external_body]
pub struct ExBuilder(http::request::Builder);

/// The request type of the `http` crate.
#[verifier::external_type_specification]
#[verifier::external_body]
#[verifier::reject_recursive_types(T)]
pub struct ExRequest<T>(http::Request<T>);

/// The JSON value of the `serde_json` crate.
#[verifier::external_type_specification]
#[verifier::external_body]
pub struct ExValue(serde_json::Value);

/// What `http::Uri`'s parser makes of a text: the URI that the text spells,
/// written out, or the parser's message.
pub uninterp spec fn uri_read(uri: Seq<char>) -> Result<Seq<char>, Seq<char>>;

/// A URI of the `http` crate, written out.
pub uninterp spec fn uri_text(uri: http::Uri) -> Seq<char>;

/// Whether `http::Method`'s parser takes a text for a method.
pub uninterp spec fn method_accepted(name: Seq<char>) -> bool;

/// The name of a method of the `http` crate.
pub uninterp spec fn method_text(method: http::Method) -> Seq<char>;

/// The headers that a request holds: the names in the order in which they
/// first came, each with its values in the order in which they came.
pub type HeaderList = Seq<(Seq<char>, Seq<Seq<u8>>)>;

/// What a request holds besides its body.
pub struct HeadView {
    pub method: Seq<char>,
    pub uri: Seq<char>,
    pub headers: HeaderList,
}

/// What a request holds.
pub struct RequestView {
    pub head: HeadView,
    pub body: Seq<u8>,
}

/// What a request builder holds: the head of the request so far, or the
/// message of the first thing that went wrong.
pub uninterp spec fn builder_state(builder: http::request::Builder) -> Result<
    HeadView,
    Seq<char>,
>;

/// What `http::request::Builder::header` says against one more header, with
/// this name and this value, for a request that holds the headers `held`:
/// nothing, or its message. It refuses a name that is none, a value that is
/// none, and a header for which the request has no room.
pub uninterp spec fn header_complaint(held: HeaderList, name: Seq<char>, value: Seq<char>)
    -> Option<Seq<char>>;

/// What a request of the `http` crate with a body of bytes holds.
pub uninterp spec fn request_parts(request: http::Request<Vec<u8>>) -> RequestView;

/// A value of the `serde_json` crate written as JSON.
pub uninterp spec fn json_bytes(value: serde_json::Value) -> Seq<u8>;

/// The name under which a header is kept: in lower case.
pub open spec fn stored_name(name: Seq<char>) -> Seq<char> {
    name.map_values(|c: char| ascii_lower(c))
}

/// The headers of a request once it has taken one more value for `name`:
/// the value joins those that the name has already, and a name that is new
/// comes last.
pub open spec fn headers_with(held: HeaderList, name: Seq<char>, value: Seq<u8>) -> HeaderList {
    if exists|at: int| 0 <= at < held.len() && (#[trigger] held[at]).0 == name {
        let at = choose|at: int| 0 <= at < held.len() && (#[trigger] held[at]).0 == name;
        held.update(at, (name, held[at].1.push(value)))
    } else {
        held.push((name, seq![value]))
    }
}

/// A builder's state once it was given a method.
pub open spec fn state_with_method(state: Result<HeadView, Seq<char>>, method: Seq<char>)
    -> Result<HeadView, Seq<char>> {
    match state {
        Ok(head) => Ok(HeadView { method, ..head }),
        Err(message) => Err(message),
    }
}

/// A builder's state once it was given a URI.
pub open spec fn state_with_uri(state: Result<HeadView, Seq<char>>, uri: Seq<char>) -> Result<
    HeadView,
    Seq<char>,
> {
    match state {
        Ok(head) => Ok(HeadView { uri, ..head }),
        Err(message) => Err(message),
    }
}

/// A builder's state once it was given a header: the first complaint
/// stays; else the header is refused with a complaint of its own, or taken.
pub open spec fn state_with_header(
    state: Result<HeadView, Seq<char>>,
    name: Seq<char>,
    value: Seq<char>,
) -> Result<HeadView, Seq<char>> {
    match state {
        Ok(head) => match header_complaint(head.headers, name, value) {
            Some(message) => Err(message),
            None => Ok(
                HeadView {
                    headers: headers_with(head.headers, stored_name(name), encode_utf8(value)),
                    ..head
                },
            ),
        },
        Err(message) => Err(message),
    }
}

/// What a list of headers holds, each header as its name and its value.
pub open spec fn header_texts(headers: Seq<Header>) -> Seq<(Seq<char>, Seq<char>)> {
    headers.map_values(|h: Header| (h.name@, h.value@))
}

/// A builder's state once it was given these headers, one after the other.
pub open spec fn state_with_headers(
    state: Result<HeadView, Seq<char>>,
    headers: Seq<(Seq<char>, Seq<char>)>,
) -> Result<HeadView, Seq<char>>
    decreases headers.len(),
{
    if headers.len() == 0 {
        state
    } else {
        state_with_header(
            state_with_headers(state, headers.drop_last()),
            headers.last().0,
            headers.last().1,
        )
    }
}

/// The head of the request that is built from a method, a URI and a list
/// of headers, or the builder's complaint about the first header that it
/// refuses.
pub open spec fn head_built(
    method: Seq<char>,
    uri: Seq<char>,
    headers: Seq<(Seq<char>, Seq<char>)>,
) -> Result<HeadView, Seq<char>> {
    state_with_headers(Ok(HeadView { method, uri, headers: Seq::empty() }), headers)
}

/// The names of the methods that a guest can ask for.
pub open spec fn is_guest_method(name: Seq<char>) -> bool {
    name == "GET"@ || name == "POST"@ || name == "PUT"@ || name == "DELETE"@ || name == "PATCH"@
}

/// `http::Uri::from_str`: the URI that `uri` spells, or the parser's message.
#[verifier::external_body]
fn parse_uri(uri: &str) -> (parsed: Result<http::Uri, String>)
    ensures
        parsed is Ok == (uri_read(uri@) is Ok),
        parsed matches Ok(read) ==> uri_read(uri@)->Ok_0 == uri_text(read),
        parsed matches Err(message) ==> uri_read(uri@)->Err_0 == message@,
{
    match <http::Uri as std::str::FromStr>::from_str(uri) {
        Ok(parsed) => Ok(parsed),
        Err(error) => Err(error.to_string()),
    }
}

/// `http::Method::from_str`: the method that `name` spells, whose name is
/// `name` again, or the parser's message, which is always the same. The
/// standard methods GET, POST, PUT, DELETE and PATCH are among those that
/// it takes.
#[verifier::external_body]
fn parse_method(name: &str) -> (parsed: Result<http::Method, String>)
    ensures
        parsed is Ok == method_accepted(name@),
        is_guest_method(name@) ==> parsed is Ok,
        parsed matches Ok(method) ==> method_text(method) == name@,
        parsed matches Err(message) ==> message@ == "invalid HTTP method"@,
{
    match <http::Method as std::str::FromStr>::from_str(name) {
        Ok(parsed) => Ok(parsed),
        Err(error) => Err(error.to_string()),
    }
}

/// `http::Request::builder`: a builder that nothing has gone wrong with
/// and that holds no header.
#[verifier::external_body]
fn new_builder() -> (builder: http::request::Builder)
    ensures
        builder_state(builder) is Ok,
        builder_state(builder)->Ok_0.headers.len() == 0,
{
    http::Request::builder()
}

/// `http::request::Builder::method`, given a method: the builder holds the
/// method, unless something went wrong with it before.
#[verifier::external_body]
fn with_method(builder: http::request::Builder, method: http::Method) -> (next:
    http::request::Builder)
    ensures
        builder_state(next) == state_with_method(builder_state(builder), method_text(method)),
{
    builder.method(method)
}

/// `http::request::Builder::uri`, given a URI: the builder holds the URI,
/// unless something went wrong with it before.
#[verifier::external_body]
fn with_uri(builder: http::request::Builder, uri: http::Uri) -> (next: http::request::Builder)
    ensures
        builder_state(next) == state_with_uri(builder_state(builder), uri_text(uri)),
{
    builder.uri(uri)
}

/// `http::request::Builder::header`: what went wrong before stays; else the
/// header is refused, with the builder's complaint, or joins the headers
/// that the builder holds, its name in lower case and its value as bytes.
#[verifier::external_body]
fn with_header(builder: http::request::Builder, name: &str, value: &str) -> (next:
    http::request::Builder)
    ensures
        builder_state(next) == state_with_header(builder_state(builder), name@, value@),
        builder_state(builder) matches Ok(head) ==> (builder_state(next) is Ok) == (
        header_complaint(head.headers, name@, value@) is None),
{
    builder.header(name, value)
}

/// `http::request::Builder::body`: the request that holds what the builder
/// held and the body, or the message of the first thing that went wrong
/// while it was put together.
#[verifier::external_body]
fn with_body(builder: http::request::Builder, body: Vec<u8>) -> (built: Result<
    http::Request<Vec<u8>>,
    String,
>)
    ensures
        built is Ok == (builder_state(builder) is Ok),
        built matches Ok(request) ==> request_parts(request).head == builder_state(builder)->Ok_0,
        built matches Ok(request) ==> request_parts(request).body == body@,
        built matches Err(message) ==> builder_state(builder)->Err_0 == message@,
{
    match builder.body(body) {
        Ok(request) => Ok(request),
        Err(error) => Err(error.to_string()),
    }
}

/// `serde_json::to_vec`: the value written as JSON. Writing a value of
/// `serde_json` into memory does not fail.
#[verifier::external_body]
fn encode_json(value: &serde_json::Value) -> (encoded: Result<Vec<u8>, String>)
    ensures
        encoded is Ok,
        encoded matches Ok(bytes) ==> bytes@ == json_bytes(*value),
{
    match serde_json::to_vec(value) {
        Ok(bytes) => Ok(bytes),
        Err(error) => Err(error.to_string()),
    }
}

/// Takes what came of putting a request together.
pub fn built_request(built: Result<http::Request<Vec<u8>>, String>) -> (r: Result<
    http::Request<Vec<u8>>,
    RequestError,
>)
    ensures
        built matches Ok(request) ==> r matches Ok(out) && out == request,
        built matches Err(detail) ==> r matches Err(RequestError::Build(d)) && d == detail,
{
    match built {
        Ok(request) => Ok(request),
        Err(detail) => Err(RequestError::Build(detail)),
    }
}

/// Turns a guest's request into one that can be sent: with the guest's
/// method, the URI that its text spells, its headers, taken one after the
/// other, and its body.
///
/// A URI that is none is refused with the parser's message. A request
/// whose URI is one is built unless the builder refuses one of its
/// headers, and is then refused with the complaint about the first such
/// header. The method of a guest is always one.
pub fn prepare_request(request: &HttpRequest) -> (r: Result<http::Request<Vec<u8>>, RequestError>)
    ensures
        uri_read(request.uri@) matches Err(message) ==> (r matches Err(
            RequestError::InvalidUri(detail),
        ) && detail@ == message),
        uri_read(request.uri@) matches Ok(uri) ==> match head_built(
            method_name(request.method),
            uri,
            header_texts(request.headers@),
        ) {
            Ok(head) => r matches Ok(out) && request_parts(out) == (RequestView {
                head,
                body: request.body@,
            }),
            Err(complaint) => r matches Err(RequestError::Build(detail)) && detail@ == complaint,
        },
{
    let uri = match parse_uri(request.uri.as_str()) {
        Ok(uri) => uri,
        Err(detail) => {
            return Err(RequestError::InvalidUri(detail));
        },
    };
    let method = match parse_method(request.method.as_str()) {
        Ok(method) => method,
        Err(detail) => {
            return Err(RequestError::InvalidMethod(detail));
        },
    };
    let ghost texts = header_texts(request.headers@);
    let ghost start: Result<HeadView, Seq<char>> = Ok(
        HeadView {
            method: method_name(request.method),
            uri: uri_read(request.uri@)->Ok_0,
            headers: Seq::empty(),
        },
    );
    let mut builder = with_uri(with_method(new_builder(), method), uri);
    proof {
        assert(builder_state(builder)->Ok_0.headers =~= Seq::empty());
        assert(builder_state(builder) == start);
        assert(texts.take(0) =~= Seq::empty());
    }
    let mut i: usize = 0;
    while i < request.headers.len()
        invariant
            i <= request.headers.len(),
            texts == header_texts(request.headers@),
            builder_state(builder) == state_with_headers(start, texts.take(i as int)),
        decreases request.headers.len() - i,
    {
        proof {
            assert(texts.take(i + 1).drop_last() =~= texts.take(i as int));
            assert(texts.take(i + 1).last() == (
                request.headers@[i as int].name@,
                request.headers@[i as int].value@,
            ));
        }
        builder = with_header(
            builder,
            request.headers[i].name.as_str(),
            request.headers[i].value.as_str(),
        );
        i += 1;
    }
    proof {
        assert(texts.take(request.headers.len() as int) =~= texts);
    }
    let body = request.body.clone();
    built_request(with_body(builder, body))
}

/// What came of sending a request.
#[derive(Debug)]
pub enum SendOutcome {
    /// The cluster answered with the resource.
    Document(serde_json::Value),
    /// The cluster refused the request and answered with a status document.
    Status(serde_json::Value),
    /// The cluster could not be reached.
    Transport(String),
}

/// Takes what came of writing a response as JSON.
pub fn encoded_response(encoded: Result<Vec<u8>, String>) -> (r: Result<
    HttpResponse,
    RequestError,
>)
    ensures
        encoded matches Ok(bytes) ==> r matches Ok(response) && response.body == bytes,
        encoded matches Err(detail) ==> r matches Err(RequestError::Encode(d)) && d == detail,
{
    match encoded {
        Ok(bytes) => Ok(HttpResponse { body: bytes }),
        Err(detail) => Err(RequestError::Encode(detail)),
    }
}

/// Turns what came of sending a request into what the guest is given.
///
/// A status document is a response like any other: the guest tells the two
/// apart by their shape. Both are handed on as they are, written as JSON.
/// Only a cluster that could not be reached is an error.
pub fn complete_request(sent: SendOutcome) -> (r: Result<HttpResponse, RequestError>)
    ensures
        sent matches SendOutcome::Document(value) ==> (r matches Ok(response) && response.body@
            == json_bytes(value)),
        sent matches SendOutcome::Status(value) ==> (r matches Ok(response) && response.body@
            == json_bytes(value)),
        sent matches SendOutcome::Transport(detail) ==> (r matches Err(
            RequestError::Transport(d),
        ) && d == detail),
{
    match sent {
        SendOutcome::Document(value) => encoded_response(encode_json(&value)),
        SendOutcome::Status(value) => encoded_response(encode_json(&value)),
        SendOutcome::Transport(detail) => Err(RequestError::Transport(detail)),
    }
}

} // verus!
