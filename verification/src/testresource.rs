//! A guest that mirrors resources of kind `TestResource` from one namespace
//! into another: what it asks the cluster, and what it does with the answers.
//!
//! The guest itself sends the requests and reads the responses; here stand
//! the requests that it makes and the decisions that it takes.

use crate::supervisor::opt_text;
use crate::text::contains;
use crate::text::has_substring;
use crate::wire::{Header, HttpMethod, HttpRequest};
use vstd::prelude::*;
use vstd::string::*;

verus! {

/// The part of a resource that says what is wanted.
#[derive(Debug)]
pub struct TestResourceSpec {
    pub nonce: i64,
    pub updated_at: Option<String>,
}

/// The part of a resource that names it.
#[derive(Debug)]
pub struct ObjectMeta {
    pub name: String,
    pub namespace: Option<String>,
    pub resource_version: Option<String>,
}

/// A resource of kind `TestResource`.
#[derive(Debug)]
pub struct TestResource {
    pub api_version: String,
    pub kind: String,
    pub metadata: ObjectMeta,
    pub spec: TestResourceSpec,
}

/// The resources of a namespace.
#[derive(Debug)]
pub struct TestResourceList {
    pub items: Vec<TestResource>,
}

/// What a resource's spec holds.
pub struct TestResourceSpecView {
    pub nonce: i64,
    pub updated_at: Option<Seq<char>>,
}

/// What a resource's metadata hold.
pub struct ObjectMetaView {
    pub name: Seq<char>,
    pub namespace: Option<Seq<char>>,
    pub resource_version: Option<Seq<char>>,
}

/// What a resource holds.
pub struct TestResourceView {
    pub api_version: Seq<char>,
    pub kind: Seq<char>,
    pub metadata: ObjectMetaView,
    pub spec: TestResourceSpecView,
}

impl View for TestResourceSpec {
    type V = TestResourceSpecView;

    open spec fn view(&self) -> TestResourceSpecView {
        TestResourceSpecView { nonce: self.nonce, updated_at: opt_text(self.updated_at) }
    }
}

impl View for ObjectMeta {
    type V = ObjectMetaView;

    open spec fn view(&self) -> ObjectMetaView {
        ObjectMetaView {
            name: self.name@,
            namespace: opt_text(self.namespace),
            resource_version: opt_text(self.resource_version),
        }
    }
}

impl View for TestResource {
    type V = TestResourceView;

    open spec fn view(&self) -> TestResourceView {
        TestResourceView {
            api_version: self.api_version@,
            kind: self.kind@,
            metadata: self.metadata@,
            spec: self.spec@,
        }
    }
}

/// A copy of a text that may be absent.
pub fn clone_opt(o: &Option<String>) -> (r: Option<String>)
    ensures
        opt_text(r) == opt_text(*o),
{
    match o {
        Some(s) => Some(s.clone()),
        None => None,
    }
}

impl Clone for TestResourceSpec {
    fn clone(&self) -> (r: Self)
        ensures
            r@ == self@,
    {
        TestResourceSpec { nonce: self.nonce, updated_at: clone_opt(&self.updated_at) }
    }
}

impl Clone for ObjectMeta {
    fn clone(&self) -> (r: Self)
        ensures
            r@ == self@,
    {
        ObjectMeta {
            name: self.name.clone(),
            namespace: clone_opt(&self.namespace),
            resource_version: clone_opt(&self.resource_version),
        }
    }
}

impl Clone for TestResource {
    fn clone(&self) -> (r: Self)
        ensures
            r@ == self@,
    {
        TestResource {
            api_version: self.api_version.clone(),
            kind: self.kind.clone(),
            metadata: self.metadata.clone(),
            spec: self.spec.clone(),
        }
    }
}

/// The URI of the resources of a namespace.
pub open spec fn collection_uri_text(namespace: Seq<char>) -> Seq<char> {
    "/apis/amurant.io/v1/namespaces/"@ + namespace + "/testresources"@
}

/// The URI of one resource of a namespace.
pub open spec fn resource_uri_text(namespace: Seq<char>, name: Seq<char>) -> Seq<char> {
    "/apis/amurant.io/v1/namespaces/"@ + namespace + "/testresources/"@ + name
}

/// The URI of the resources of `namespace`.
pub fn collection_uri(namespace: &str) -> (uri: String)
    ensures
        uri@ == collection_uri_text(namespace@),
{
    let mut uri = String::from_str("/apis/amurant.io/v1/namespaces/");
    uri.append(namespace);
    uri.append("/testresources");
    uri
}

/// The URI of the resource `name` of `namespace`.
pub fn resource_uri(namespace: &str, name: &str) -> (uri: String)
    ensures
        uri@ == resource_uri_text(namespace@, name@),
{
    let mut uri = String::from_str("/apis/amurant.io/v1/namespaces/");
    uri.append(namespace);
    uri.append("/testresources/");
    uri.append(name);
    uri
}

/// The bytes of `body`, or none where there is no body.
pub open spec fn body_or_empty(body: Option<Vec<u8>>) -> Seq<u8> {
    match body {
        Some(bytes) => bytes@,
        None => Seq::empty(),
    }
}

/// A request that carries JSON: its one header says so, and a request
/// without a body has an empty one.
pub fn json_request(method: HttpMethod, uri: String, body: Option<Vec<u8>>) -> (request:
    HttpRequest)
    ensures
        request.method == method,
        request.uri == uri,
        request.body@ == body_or_empty(body),
        request.headers@.len() == 1,
        request.headers@[0].name@ == "Content-Type"@,
        request.headers@[0].value@ == "application/json"@,
{
    let mut headers: Vec<Header> = Vec::new();
    headers.push(
        Header {
            name: String::from_str("Content-Type"),
            value: String::from_str("application/json"),
        },
    );
    let body = match body {
        Some(bytes) => bytes,
        None => Vec::new(),
    };
    HttpRequest { method, uri, headers, body }
}

/// The request that lists the resources of `in_namespace`, with which the
/// guest starts.
pub fn list_request(in_namespace: &str) -> (request: HttpRequest)
    ensures
        request.method == HttpMethod::Get,
        request.uri@ == collection_uri_text(in_namespace@),
        request.body@.len() == 0,
        request.headers@.len() == 1,
        request.headers@[0].name@ == "Content-Type"@,
        request.headers@[0].value@ == "application/json"@,
{
    json_request(HttpMethod::Get, collection_uri(in_namespace), None)
}

/// The request that asks for the mirror of `in_resource` in `out_namespace`.
pub fn lookup_request(in_resource: &TestResource, out_namespace: &str) -> (request: HttpRequest)
    ensures
        request.method == HttpMethod::Get,
        request.uri@ == resource_uri_text(out_namespace@, in_resource.metadata.name@),
        request.body@.len() == 0,
        request.headers@.len() == 1,
        request.headers@[0].name@ == "Content-Type"@,
        request.headers@[0].value@ == "application/json"@,
{
    json_request(
        HttpMethod::Get,
        resource_uri(out_namespace, in_resource.metadata.name.as_str()),
        None,
    )
}

/// What is to be done about one resource.
#[derive(Debug)]
pub enum Decision {
    /// The mirror is behind: bring it up to the resource's nonce.
    Update { current: TestResource },
    /// There is no mirror: make one.
    Create,
    /// The mirror is as new as the resource: nothing to do.
    UpToDate,
    /// The cluster could not say: leave it, with the error.
    GiveUp(String),
}

/// Whether an error says that a resource does not exist.
pub open spec fn is_not_found(error: Seq<char>) -> bool {
    has_substring(error, "404"@)
}

/// Decides what is to be done about `in_resource`, given what the cluster
/// said of its mirror: the mirror, or the error.
///
/// A mirror with a smaller nonce is updated and any other left alone; where
/// the error speaks of 404 the mirror is created, and on any other error
/// nothing is done.
pub fn reconcile_resource(in_resource: &TestResource, found: Result<TestResource, String>) -> (d:
    Decision)
    ensures
        match found {
            Ok(mirror) => if in_resource.spec.nonce > mirror.spec.nonce {
                d matches Decision::Update { current } && current == mirror
            } else {
                d is UpToDate
            },
            Err(error) => if is_not_found(error@) {
                d is Create
            } else {
                d matches Decision::GiveUp(e) && e == error
            },
        },
{
    match found {
        Ok(mirror) => {
            if in_resource.spec.nonce > mirror.spec.nonce {
                Decision::Update { current: mirror }
            } else {
                Decision::UpToDate
            }
        },
        Err(error) => {
            if contains(error.as_str(), "404") {
                Decision::Create
            } else {
                Decision::GiveUp(error)
            }
        },
    }
}

/// The mirror that is made of `in_resource` in `out_namespace` at the time
/// `now`.
pub open spec fn created(in_resource: TestResourceView, out_namespace: Seq<char>, now: Seq<char>)
    -> TestResourceView {
    TestResourceView {
        api_version: "amurant.io/v1"@,
        kind: "TestResource"@,
        metadata: ObjectMetaView {
            name: in_resource.metadata.name,
            namespace: Some(out_namespace),
            resource_version: None,
        },
        spec: TestResourceSpecView { nonce: in_resource.spec.nonce, updated_at: Some(now) },
    }
}

/// The mirror `current` brought up to `in_resource` at the time `now`.
pub open spec fn updated(in_resource: TestResourceView, current: TestResourceView, now: Seq<char>)
    -> TestResourceView {
    TestResourceView {
        spec: TestResourceSpecView { nonce: in_resource.spec.nonce, updated_at: Some(now) },
        ..current
    }
}

/// The mirror that is made of `in_resource` in `out_namespace` at the time
/// `now`.
pub fn new_mirror(in_resource: &TestResource, out_namespace: &str, now: String) -> (mirror:
    TestResource)
    ensures
        mirror@ == created(in_resource@, out_namespace@, now@),
{
    TestResource {
        api_version: String::from_str("amurant.io/v1"),
        kind: String::from_str("TestResource"),
        metadata: ObjectMeta {
            name: in_resource.metadata.name.clone(),
            namespace: Some(String::from_str(out_namespace)),
            resource_version: None,
        },
        spec: TestResourceSpec { nonce: in_resource.spec.nonce, updated_at: Some(now) },
    }
}

/// The mirror `current` brought up to `in_resource` at the time `now`.
pub fn updated_mirror(in_resource: &TestResource, current: &TestResource, now: String) -> (mirror:
    TestResource)
    ensures
        mirror@ == updated(in_resource@, current@, now@),
{
    let mut mirror = current.clone();
    mirror.spec.nonce = in_resource.spec.nonce;
    mirror.spec.updated_at = Some(now);
    mirror
}

/// `chrono::Utc::now`, written as RFC 3339: the time at which it is called.
/// Nothing is known of it beforehand.
#[verifier::external_body]
fn timestamp_now() -> String {
    chrono::Utc::now().to_rfc3339()
}

/// A resource to be written and the URI to write it to.
#[derive(Debug)]
pub struct Write {
    pub method: HttpMethod,
    pub uri: String,
    pub resource: TestResource,
}

/// What is written to make the mirror of `in_resource` in `out_namespace`:
/// the new mirror, stamped with the time of the call, posted to the
/// namespace's resources.
pub fn create_resource(in_resource: &TestResource, out_namespace: &str) -> (write: Write)
    ensures
        write.method == HttpMethod::Post,
        write.uri@ == collection_uri_text(out_namespace@),
        write.resource.spec.updated_at is Some,
        write.resource@ == created(
            in_resource@,
            out_namespace@,
            write.resource.spec.updated_at->0@,
        ),
{
    let now = timestamp_now();
    Write {
        method: HttpMethod::Post,
        uri: collection_uri(out_namespace),
        resource: new_mirror(in_resource, out_namespace, now),
    }
}

/// What is written to bring the mirror `out_resource` up to `in_resource`:
/// the mirror with the resource's nonce, stamped with the time of the call,
/// put to the mirror's URI.
pub fn update_resource(in_resource: &TestResource, out_resource: &TestResource, out_namespace: &str)
    -> (write: Write)
    ensures
        write.method == HttpMethod::Put,
        write.uri@ == resource_uri_text(out_namespace@, out_resource.metadata.name@),
        write.resource.spec.updated_at is Some,
        write.resource@ == updated(
            in_resource@,
            out_resource@,
            write.resource.spec.updated_at->0@,
        ),
{
    let now = timestamp_now();
    Write {
        method: HttpMethod::Put,
        uri: resource_uri(out_namespace, out_resource.metadata.name.as_str()),
        resource: updated_mirror(in_resource, out_resource, now),
    }
}

/// The request that carries out a write, given the resource as JSON.
pub fn write_request(write: Write, body: Vec<u8>) -> (request: HttpRequest)
    ensures
        request.method == write.method,
        request.uri == write.uri,
        request.body@ == body@,
        request.headers@.len() == 1,
        request.headers@[0].name@ == "Content-Type"@,
        request.headers@[0].value@ == "application/json"@,
{
    let Write { method, uri, resource } = write;
    json_request(method, uri, Some(body))
}

} // verus!
