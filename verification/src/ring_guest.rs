//! A guest that sends each ring on to the namespace that the ring names as
//! its target, with the ring's own namespace as the next target.

use crate::config::pair_texts;
use crate::supervisor::{WatchRequest, WatchRequestView};
use crate::text::same_text;
use crate::wire::{Header, HttpMethod, HttpRequest};
use vstd::prelude::*;
use vstd::string::*;

verus! {

/// The part of a ring that names it.
#[derive(Debug)]
pub struct RingMeta {
    pub name: String,
    pub namespace: String,
}

/// The part of a ring that says where it is to go.
#[derive(Debug)]
pub struct RingTarget {
    pub target_namespace: String,
}

/// A ring.
#[derive(Debug)]
pub struct RingResource {
    pub api_version: String,
    pub kind: String,
    pub metadata: RingMeta,
    pub spec: RingTarget,
}

/// What a ring holds.
pub struct RingResourceView {
    pub api_version: Seq<char>,
    pub kind: Seq<char>,
    pub name: Seq<char>,
    pub namespace: Seq<char>,
    pub target_namespace: Seq<char>,
}

impl View for RingResource {
    type V = RingResourceView;

    open spec fn view(&self) -> RingResourceView {
        RingResourceView {
            api_version: self.api_version@,
            kind: self.kind@,
            name: self.metadata.name@,
            namespace: self.metadata.namespace@,
            target_namespace: self.spec.target_namespace@,
        }
    }
}

/// How a reconcile ended, as the guest tells the host.
#[derive(Debug)]
pub enum ReconcileResult {
    Done,
    Failed(String),
}

/// The value of the first variable named `name`, if there is one.
pub open spec fn lookup(env: Seq<(Seq<char>, Seq<char>)>, name: Seq<char>) -> Option<Seq<char>>
    decreases env.len(),
{
    if env.len() == 0 {
        None
    } else if env[0].0 == name {
        Some(env[0].1)
    } else {
        lookup(env.drop_first(), name)
    }
}

/// Looks up the first variable named `name` in an environment.
pub fn lookup_env<'a>(env: &'a Vec<(String, String)>, name: &str) -> (value: Option<&'a String>)
    ensures
        match value {
            Some(v) => lookup(pair_texts(env@), name@) == Some(v@),
            None => lookup(pair_texts(env@), name@) is None,
        },
{
    let ghost all = pair_texts(env@);
    let mut i: usize = 0;
    assert(all.skip(0) =~= all);
    while i < env.len()
        invariant
            i <= env.len(),
            all == pair_texts(env@),
            lookup(all, name@) == lookup(all.skip(i as int), name@),
        decreases env.len() - i,
    {
        assert(all.skip(i as int)[0] == all[i as int]);
        assert(all[i as int] == (env@[i as int].0@, env@[i as int].1@));
        assert(all.skip(i as int).drop_first() =~= all.skip(i + 1));
        if same_text(env[i].0.as_str(), name) {
            return Some(&env[i].1);
        }
        i += 1;
    }
    assert(all.skip(i as int).len() == 0);
    None
}

/// The watches that the guest asks for: rings in the namespace that the
/// variable `IN_NAMESPACE` names, or none where it is not set.
pub fn get_watch_requests(env: &Vec<(String, String)>) -> (requests: Vec<WatchRequest>)
    ensures
        match lookup(pair_texts(env@), "IN_NAMESPACE"@) {
            Some(namespace) => requests@.len() == 1 && requests@[0]@ == (WatchRequestView {
                kind: "Ring"@,
                namespace,
            }),
            None => requests@.len() == 0,
        },
{
    let mut requests: Vec<WatchRequest> = Vec::new();
    match lookup_env(env, "IN_NAMESPACE") {
        Some(namespace) => {
            requests.push(
                WatchRequest { kind: String::from_str("Ring"), namespace: namespace.clone() },
            );
        },
        None => {},
    }
    requests
}

/// The ring that follows `incoming`: of the same name, in the namespace that
/// `incoming` names as its target, and with the namespace of `incoming` as
/// its own target.
pub open spec fn following(incoming: RingResourceView) -> RingResourceView {
    RingResourceView {
        api_version: "example.com/v1"@,
        kind: "Ring"@,
        name: incoming.name,
        namespace: incoming.target_namespace,
        target_namespace: incoming.namespace,
    }
}

/// The ring that follows `incoming`.
pub fn next_ring(incoming: RingResource) -> (next: RingResource)
    ensures
        next@ == following(incoming@),
{
    let RingResource { api_version, kind, metadata, spec } = incoming;
    RingResource {
        api_version: String::from_str("example.com/v1"),
        kind: String::from_str("Ring"),
        metadata: RingMeta { name: metadata.name, namespace: spec.target_namespace },
        spec: RingTarget { target_namespace: metadata.namespace },
    }
}

/// The URI of the rings of a namespace.
pub open spec fn rings_uri_text(namespace: Seq<char>) -> Seq<char> {
    "/apis/example.com/v1/namespaces/"@ + namespace + "/rings"@
}

/// The request that creates `ring`, given the ring as JSON: a POST to the
/// rings of the ring's namespace.
pub fn create_request(ring: &RingResource, body: Vec<u8>) -> (request: HttpRequest)
    ensures
        request.method == HttpMethod::Post,
        request.uri@ == rings_uri_text(ring@.namespace),
        request.body == body,
        request.headers@.len() == 1,
        request.headers@[0].name@ == "Content-Type"@,
        request.headers@[0].value@ == "application/json"@,
{
    let mut uri = String::from_str("/apis/example.com/v1/namespaces/");
    uri.append(ring.metadata.namespace.as_str());
    uri.append("/rings");
    let mut headers: Vec<Header> = Vec::new();
    headers.push(
        Header {
            name: String::from_str("Content-Type"),
            value: String::from_str("application/json"),
        },
    );
    HttpRequest { method: HttpMethod::Post, uri, headers, body }
}

/// The stage of a reconcile at which something went wrong.
#[derive(Clone, Copy, Debug)]
pub enum Stage {
    /// Reading the ring from its JSON.
    Parse,
    /// Writing the next ring as JSON.
    Marshal,
    /// Creating the next ring.
    Create,
}

/// What the guest says of a failure at `stage`.
pub open spec fn failure_text(stage: Stage, cause: Seq<char>) -> Seq<char> {
    match stage {
        Stage::Parse => "Error parsing resource JSON: "@ + cause,
        Stage::Marshal => "Error marshalling new ring to JSON: "@ + cause,
        Stage::Create => "Error creating resource: "@ + cause,
    }
}

/// The result of a reconcile that failed at `stage` for the reason `cause`.
pub fn failed(stage: Stage, cause: &str) -> (result: ReconcileResult)
    ensures
        result matches ReconcileResult::Failed(text) && text@ == failure_text(stage, cause@),
{
    let mut text = match stage {
        Stage::Parse => String::from_str("Error parsing resource JSON: "),
        Stage::Marshal => String::from_str("Error marshalling new ring to JSON: "),
        Stage::Create => String::from_str("Error creating resource: "),
    };
    text.append(cause);
    ReconcileResult::Failed(text)
}

} // verus!
