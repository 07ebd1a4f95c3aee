//! An operator that passes a ring on along its chain: each operator takes
//! the rings whose chain begins with its own name and creates, for each, the
//! ring of the next link.

use crate::text::{clone_texts, same_text, texts};
use vstd::prelude::*;
use vstd::string::*;

verus! {

/// What a ring asks for.
#[derive(Debug)]
pub struct RingSpec {
    pub replicas: i32,
    pub nonce: String,
    /// The links that the ring has yet to pass, the next one first.
    pub chain: Vec<String>,
    /// How many links the ring has passed.
    pub hop: i32,
}

/// What a ring's spec holds.
pub struct RingSpecView {
    pub replicas: i32,
    pub nonce: Seq<char>,
    pub chain: Seq<Seq<char>>,
    pub hop: i32,
}

impl View for RingSpec {
    type V = RingSpecView;

    open spec fn view(&self) -> RingSpecView {
        RingSpecView {
            replicas: self.replicas,
            nonce: self.nonce@,
            chain: texts(self.chain@),
            hop: self.hop,
        }
    }
}

impl Clone for RingSpec {
    fn clone(&self) -> (r: Self)
        ensures
            r@ == self@,
    {
        RingSpec {
            replicas: self.replicas,
            nonce: self.nonce.clone(),
            chain: clone_texts(&self.chain),
            hop: self.hop,
        }
    }
}

/// When the controller is to look at a ring again.
#[derive(Clone, Copy, Debug, PartialEq, Eq, Structural)]
pub enum Action {
    /// When the ring changes.
    AwaitChange,
    /// After so many seconds.
    Requeue { seconds: u64 },
}

/// Why a ring could not be reconciled.
#[derive(Debug)]
pub enum ReconcileError {
    /// The ring lacks a part of its key.
    MissingObjectKey(String),
    /// The ring of the next link could not be created.
    RingCreationFailed(String),
    /// The cluster failed otherwise.
    KubeError(String),
}

/// The error as text.
pub open spec fn reconcile_error_text(error: ReconcileError) -> Seq<char> {
    match error {
        ReconcileError::MissingObjectKey(key) => "MissingObjectKey: "@ + key@,
        ReconcileError::RingCreationFailed(cause) => "Failed to create ring: "@ + cause@,
        ReconcileError::KubeError(cause) => "A kube error occurred: "@ + cause@,
    }
}

impl ReconcileError {
    /// The error as text.
    pub fn message(&self) -> (text: String)
        ensures
            text@ == reconcile_error_text(*self),
    {
        match self {
            ReconcileError::MissingObjectKey(key) => {
                let mut text = String::from_str("MissingObjectKey: ");
                text.append(key.as_str());
                text
            },
            ReconcileError::RingCreationFailed(cause) => {
                let mut text = String::from_str("Failed to create ring: ");
                text.append(cause.as_str());
                text
            },
            ReconcileError::KubeError(cause) => {
                let mut text = String::from_str("A kube error occurred: ");
                text.append(cause.as_str());
                text
            },
        }
    }
}

/// The ring of the next link: to be created under `name` in `namespace`.
#[derive(Debug)]
pub struct NextRing {
    pub namespace: String,
    pub name: String,
    pub spec: RingSpec,
}

/// What the controller does about a ring.
#[derive(Debug)]
pub enum Step {
    /// Nothing is to be created.
    Rest(Action),
    /// Create this ring, then see `after_create`.
    Create(NextRing),
}

/// The spec of a ring once it has passed a link: one hop more, and the
/// chain without its first link.
pub open spec fn passed_on(spec: RingSpecView) -> RingSpecView {
    RingSpecView { hop: (spec.hop + 1) as i32, chain: spec.chain.drop_first(), ..spec }
}

/// Whether a ring is this operator's to pass on.
pub open spec fn is_current_link(spec: RingSpecView, operator_name: Seq<char>) -> bool {
    spec.chain.len() > 0 && spec.chain[0] == operator_name
}

/// How long the controller rests after a reconcile, in seconds.
pub const REQUEUE_SECONDS: u64 = 300;

/// How long the controller rests after a failed reconcile, in seconds.
pub const RETRY_SECONDS: u64 = 5;

/// The chain without its first link.
fn rest_of(chain: &Vec<String>) -> (rest: Vec<String>)
    requires
        chain.len() > 0,
    ensures
        texts(rest@) == texts(chain@).drop_first(),
{
    let mut rest: Vec<String> = Vec::new();
    let mut i: usize = 1;
    while i < chain.len()
        invariant
            1 <= i <= chain.len(),
            rest@.len() == i - 1,
            forall|k: int| 0 <= k < i - 1 ==> rest@[k]@ == chain@[k + 1]@,
        decreases chain.len() - i,
    {
        rest.push(chain[i].clone());
        i += 1;
    }
    assert(texts(rest@) =~= texts(chain@).drop_first());
    rest
}

/// Decides what is done about the ring `name` of `namespace`.
///
/// A ring without a namespace is an error. A ring whose chain is empty
/// rests until it changes. A ring whose chain begins with this operator's
/// name is passed on: unless this was the last link, the ring of the next
/// link is created in the namespace that the next link names, with one hop
/// more and the chain without its first link. In every other case the
/// controller rests for the requeue time.
pub fn reconcile(name: &str, namespace: Option<&str>, spec: &RingSpec, operator_name: &str) -> (r:
    Result<Step, ReconcileError>)
    requires
        namespace is Some && is_current_link(spec@, operator_name@) ==> spec.hop < i32::MAX,
    ensures
        namespace is None ==> (r matches Err(ReconcileError::MissingObjectKey(key)) && key@
            == "namespace"@),
        namespace is Some ==> r is Ok,
        r matches Ok(step) ==> (if spec@.chain.len() == 0 {
            step == Step::Rest(Action::AwaitChange)
        } else if is_current_link(spec@, operator_name@) && spec@.chain.len() > 1 {
            step matches Step::Create(next) && next.name@ == name@ && next.namespace@
                == spec@.chain[1] && next.spec@ == passed_on(spec@)
        } else {
            step == Step::Rest(Action::Requeue { seconds: REQUEUE_SECONDS })
        }),
{
    if namespace.is_none() {
        return Err(ReconcileError::MissingObjectKey(String::from_str("namespace")));
    }
    if spec.chain.len() == 0 {
        assert(spec@.chain.len() == 0);
        return Ok(Step::Rest(Action::AwaitChange));
    }
    assert(spec@.chain.len() == spec.chain.len());
    assert(spec@.chain[0] == spec.chain@[0]@);
    if same_text(spec.chain[0].as_str(), operator_name) {
        let rest = rest_of(&spec.chain);
        assert(texts(rest@).len() == rest.len());
        assert(texts(rest@).len() == spec@.chain.len() - 1);
        if rest.len() > 0 {
            assert(texts(rest@)[0] == rest@[0]@);
            assert(texts(rest@)[0] == spec@.chain[1]);
            let next = NextRing {
                namespace: rest[0].clone(),
                name: String::from_str(name),
                spec: RingSpec {
                    replicas: spec.replicas,
                    nonce: spec.nonce.clone(),
                    chain: rest,
                    hop: spec.hop + 1,
                },
            };
            return Ok(Step::Create(next));
        }
    }
    Ok(Step::Rest(Action::Requeue { seconds: REQUEUE_SECONDS }))
}

/// What follows the creation of the next ring: the requeue time, or the
/// error that says why the ring could not be created.
pub fn after_create(created: Result<(), String>) -> (r: Result<Action, ReconcileError>)
    ensures
        match created {
            Ok(_) => r matches Ok(action) && action == (Action::Requeue {
                seconds: REQUEUE_SECONDS,
            }),
            Err(cause) => r matches Err(ReconcileError::RingCreationFailed(c)) && c == cause,
        },
{
    match created {
        Ok(_) => Ok(Action::Requeue { seconds: REQUEUE_SECONDS }),
        Err(cause) => Err(ReconcileError::RingCreationFailed(cause)),
    }
}

/// What follows a failed reconcile: another try after the retry time.
pub fn error_policy(error: &ReconcileError) -> (action: Action)
    ensures
        action == (Action::Requeue { seconds: RETRY_SECONDS }),
{
    Action::Requeue { seconds: RETRY_SECONDS }
}

} // verus!
