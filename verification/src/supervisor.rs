//! The watch supervisor: what is done with each item that a watch yields.
//!
//! One supervisor serves one watch request of one tenant. The caller owns the
//! watch itself: it hands each item of the stream to `on_item` and carries
//! out the action that comes back.

use crate::clock::WATCH_BACKOFF_MS;
use vstd::prelude::*;
use vstd::string::*;

verus! {

/// What happened to a resource, as the guest is told.
#[derive(Clone, Copy, Debug, PartialEq, Eq, Structural)]
pub enum EventKind {
    Added,
    Deleted,
}

/// A kind of resource in a namespace that a guest asks to be told about.
#[derive(Debug)]
pub struct WatchRequest {
    pub kind: String,
    pub namespace: String,
}

/// What a watch request holds.
pub struct WatchRequestView {
    pub kind: Seq<char>,
    pub namespace: Seq<char>,
}

impl View for WatchRequest {
    type V = WatchRequestView;

    open spec fn view(&self) -> WatchRequestView {
        WatchRequestView { kind: self.kind@, namespace: self.namespace@ }
    }
}

impl Clone for WatchRequest {
    fn clone(&self) -> (r: Self)
        ensures
            r@ == self@,
    {
        WatchRequest { kind: self.kind.clone(), namespace: self.namespace.clone() }
    }
}

/// One event as it is delivered to the guest's `reconcile`.
#[derive(Debug)]
pub struct ReconcileRequest {
    pub event_kind: EventKind,
    pub name: String,
    pub namespace: String,
    pub resource_json: String,
}

/// What a reconcile request holds.
pub struct ReconcileRequestView {
    pub event_kind: EventKind,
    pub name: Seq<char>,
    pub namespace: Seq<char>,
    pub resource_json: Seq<char>,
}

impl View for ReconcileRequest {
    type V = ReconcileRequestView;

    open spec fn view(&self) -> ReconcileRequestView {
        ReconcileRequestView {
            event_kind: self.event_kind,
            name: self.name@,
            namespace: self.namespace@,
            resource_json: self.resource_json@,
        }
    }
}

/// A resource as a watch reports it: the name and namespace from its
/// metadata, where it has them, and the resource written as JSON, or the
/// reason why it could not be written.
#[derive(Debug)]
pub struct WatchedObject {
    pub name: Option<String>,
    pub namespace: Option<String>,
    pub json: Result<String, String>,
}

/// What a watched object holds.
pub struct WatchedObjectView {
    pub name: Option<Seq<char>>,
    pub namespace: Option<Seq<char>>,
    pub json: Result<Seq<char>, Seq<char>>,
}

/// The characters of a text that may be absent.
pub open spec fn opt_text(o: Option<String>) -> Option<Seq<char>> {
    match o {
        Some(s) => Some(s@),
        None => None,
    }
}

/// The characters of a text or of the message given in its place.
pub open spec fn result_text(r: Result<String, String>) -> Result<Seq<char>, Seq<char>> {
    match r {
        Ok(s) => Ok(s@),
        Err(e) => Err(e@),
    }
}

impl View for WatchedObject {
    type V = WatchedObjectView;

    open spec fn view(&self) -> WatchedObjectView {
        WatchedObjectView {
            name: opt_text(self.name),
            namespace: opt_text(self.namespace),
            json: result_text(self.json),
        }
    }
}

/// An event of a watch.
#[derive(Debug)]
pub enum WatchEvent {
    /// A resource was added or modified.
    Apply(WatchedObject),
    /// A resource that exists as the watch (re)starts.
    InitApply(WatchedObject),
    /// A resource was deleted.
    Delete(WatchedObject),
    /// The watch (re)starts.
    Init,
    /// All resources that exist have been reported.
    InitDone,
}

/// What a watch event holds.
pub enum WatchEventView {
    Apply(WatchedObjectView),
    InitApply(WatchedObjectView),
    Delete(WatchedObjectView),
    Init,
    InitDone,
}

impl View for WatchEvent {
    type V = WatchEventView;

    open spec fn view(&self) -> WatchEventView {
        match *self {
            WatchEvent::Apply(o) => WatchEventView::Apply(o@),
            WatchEvent::InitApply(o) => WatchEventView::InitApply(o@),
            WatchEvent::Delete(o) => WatchEventView::Delete(o@),
            WatchEvent::Init => WatchEventView::Init,
            WatchEvent::InitDone => WatchEventView::InitDone,
        }
    }
}

/// What a watch yields when it is asked for its next item.
#[derive(Debug)]
pub enum WatchItem {
    /// An event.
    Event(WatchEvent),
    /// A passing failure; the watch goes on.
    Failure(String),
    /// The stream has ended.
    Closed,
}

/// What a watch item holds.
pub enum WatchItemView {
    Event(WatchEventView),
    Failure(Seq<char>),
    Closed,
}

impl View for WatchItem {
    type V = WatchItemView;

    open spec fn view(&self) -> WatchItemView {
        match *self {
            WatchItem::Event(e) => WatchItemView::Event(e@),
            WatchItem::Failure(m) => WatchItemView::Failure(m@),
            WatchItem::Closed => WatchItemView::Closed,
        }
    }
}

/// What the supervisor's caller is to do next.
#[derive(Debug)]
pub enum SupervisorAction {
    /// Hand the request to the tenant's `reconcile`, through the registry.
    Dispatch(ReconcileRequest),
    /// Nothing: go on with the next item.
    Ignore,
    /// Log the message and go on with the next item.
    Report(String),
    /// Wait for `after_ms`, then open the watch again.
    Restart { after_ms: u64 },
    /// The supervisor is not watching: stop handing it items.
    Stop,
}

/// What an action holds.
pub enum SupervisorActionView {
    Dispatch(ReconcileRequestView),
    Ignore,
    Report(Seq<char>),
    Restart { after_ms: u64 },
    Stop,
}

impl View for SupervisorAction {
    type V = SupervisorActionView;

    open spec fn view(&self) -> SupervisorActionView {
        match *self {
            SupervisorAction::Dispatch(r) => SupervisorActionView::Dispatch(r@),
            SupervisorAction::Ignore => SupervisorActionView::Ignore,
            SupervisorAction::Report(m) => SupervisorActionView::Report(m@),
            SupervisorAction::Restart { after_ms } => SupervisorActionView::Restart { after_ms },
            SupervisorAction::Stop => SupervisorActionView::Stop,
        }
    }
}

/// The text, or the empty text where there is none.
pub open spec fn text_or_empty(o: Option<Seq<char>>) -> Seq<char> {
    match o {
        Some(s) => s,
        None => Seq::empty(),
    }
}

/// The kind of reconcile that an event asks for and the object it is about;
/// nothing for the events that only mark the (re)start of a watch.
pub open spec fn mapped(event: WatchEventView) -> Option<(EventKind, WatchedObjectView)> {
    match event {
        WatchEventView::Apply(o) => Some((EventKind::Added, o)),
        WatchEventView::InitApply(o) => Some((EventKind::Added, o)),
        WatchEventView::Delete(o) => Some((EventKind::Deleted, o)),
        WatchEventView::Init => None,
        WatchEventView::InitDone => None,
    }
}

/// The message for a resource that could not be written as JSON.
pub open spec fn serialize_failure(cause: Seq<char>) -> Seq<char> {
    "Failed to serialize resource to JSON: "@ + cause
}

/// The request that tells a guest of `object`, or the message to log when the
/// object could not be written as JSON.
pub open spec fn request_for(kind: EventKind, object: WatchedObjectView) -> Result<
    ReconcileRequestView,
    Seq<char>,
> {
    match object.json {
        Ok(json) => Ok(
            ReconcileRequestView {
                event_kind: kind,
                name: text_or_empty(object.name),
                namespace: text_or_empty(object.namespace),
                resource_json: json,
            },
        ),
        Err(cause) => Err(serialize_failure(cause)),
    }
}

/// The message for a failure that a watch reports.
pub open spec fn watch_failure(request: WatchRequestView, cause: Seq<char>) -> Seq<char> {
    "Watcher for kind '"@ + request.kind + "' in namespace '"@ + request.namespace
        + "' encountered an error: "@ + cause
}

/// What a watching supervisor does with one item of its watch.
pub open spec fn reaction(request: WatchRequestView, item: WatchItemView)
    -> SupervisorActionView {
    match item {
        WatchItemView::Event(event) => match mapped(event) {
            Some((kind, object)) => match request_for(kind, object) {
                Ok(r) => SupervisorActionView::Dispatch(r),
                Err(message) => SupervisorActionView::Report(message),
            },
            None => SupervisorActionView::Ignore,
        },
        WatchItemView::Failure(cause) => SupervisorActionView::Report(
            watch_failure(request, cause),
        ),
        WatchItemView::Closed => SupervisorActionView::Restart { after_ms: WATCH_BACKOFF_MS },
    }
}

/// The requests that a watching supervisor dispatches for a run of items, in
/// the order in which it dispatches them.
pub open spec fn dispatched(request: WatchRequestView, items: Seq<WatchItemView>) -> Seq<
    ReconcileRequestView,
>
    decreases items.len(),
{
    if items.len() == 0 {
        Seq::empty()
    } else {
        let earlier = dispatched(request, items.drop_last());
        match reaction(request, items.last()) {
            SupervisorActionView::Dispatch(r) => earlier.push(r),
            _ => earlier,
        }
    }
}

/// The text of `o`, or the empty text where there is none.
pub fn unwrap_or_empty(o: Option<String>) -> (s: String)
    ensures
        s@ == text_or_empty(opt_text(o)),
{
    match o {
        Some(s) => s,
        None => String::new(),
    }
}

/// Builds the request that tells a guest of `object`, or the message to log
/// when the object could not be written as JSON.
pub fn reconcile_request(kind: EventKind, object: WatchedObject) -> (r: Result<
    ReconcileRequest,
    String,
>)
    ensures
        r is Ok == (request_for(kind, object@) is Ok),
        r matches Ok(request) ==> request_for(kind, object@)->Ok_0 == request@,
        r matches Err(message) ==> request_for(kind, object@)->Err_0 == message@,
{
    let WatchedObject { name, namespace, json } = object;
    match json {
        Ok(resource_json) => Ok(
            ReconcileRequest {
                event_kind: kind,
                name: unwrap_or_empty(name),
                namespace: unwrap_or_empty(namespace),
                resource_json,
            },
        ),
        Err(cause) => {
            let mut message = String::from_str("Failed to serialize resource to JSON: ");
            message.append(cause.as_str());
            Err(message)
        },
    }
}

/// The supervisor of one watch of one tenant.
pub struct WatchSupervisor {
    tenant: String,
    request: WatchRequest,
    watching: bool,
}

/// What becomes of a supervisor once the kind it is to watch has been looked
/// up.
#[derive(Debug)]
pub enum StartAction {
    /// Open the watch.
    Watch,
    /// The kind is not known: log the message; the supervisor ends.
    GiveUp(String),
}

/// The message for a kind that discovery does not know.
pub open spec fn discovery_failure(kind: Seq<char>, cause: Seq<char>) -> Seq<char> {
    "Failed to find API resource for kind '"@ + kind + "': "@ + cause
}

/// The message for a reconcile that failed.
pub open spec fn reconcile_failure(tenant: Seq<char>, cause: Seq<char>) -> Seq<char> {
    "Reconciliation for operator '"@ + tenant + "' failed: "@ + cause
}

impl WatchSupervisor {
    /// The tenant that this supervisor serves.
    pub closed spec fn tenant(&self) -> Seq<char> {
        self.tenant@
    }

    /// The watch request that this supervisor serves.
    pub closed spec fn request(&self) -> WatchRequestView {
        self.request@
    }

    /// Whether the supervisor is watching.
    pub closed spec fn watching(&self) -> bool {
        self.watching
    }

    /// A supervisor for `request` of `tenant` that has not started to watch.
    pub fn new(tenant: String, request: WatchRequest) -> (s: Self)
        ensures
            s.tenant() == tenant@,
            s.request() == request@,
            !s.watching(),
    {
        WatchSupervisor { tenant, request, watching: false }
    }

    /// The name of the tenant that this supervisor serves.
    pub fn tenant_id(&self) -> (id: &String)
        ensures
            id@ == self.tenant(),
    {
        &self.tenant
    }

    /// The watch request that this supervisor serves.
    pub fn watch_request(&self) -> (r: &WatchRequest)
        ensures
            r@ == self.request(),
    {
        &self.request
    }

    /// Whether the supervisor is watching.
    pub fn is_watching(&self) -> (w: bool)
        ensures
            w == self.watching(),
    {
        self.watching
    }

    /// Takes the outcome of looking up the requested kind: `Ok` when it is
    /// known, else the reason. A supervisor whose kind is known watches from
    /// now on; the other one ends.
    pub fn start(&mut self, discovery: Result<(), String>) -> (action: StartAction)
        ensures
            final(self).tenant() == old(self).tenant(),
            final(self).request() == old(self).request(),
            final(self).watching() == (discovery is Ok),
            match discovery {
                Ok(_) => action is Watch,
                Err(cause) => action matches StartAction::GiveUp(message) && message@
                    == discovery_failure(old(self).request().kind, cause@),
            },
    {
        match discovery {
            Ok(_) => {
                self.watching = true;
                StartAction::Watch
            },
            Err(cause) => {
                self.watching = false;
                let mut message = String::from_str("Failed to find API resource for kind '");
                message.append(self.request.kind.as_str());
                message.append("': ");
                message.append(cause.as_str());
                StartAction::GiveUp(message)
            },
        }
    }

    /// Decides what is done with the next item of the watch.
    ///
    /// An applied resource is reconciled as added, a deleted one as deleted;
    /// the markers of a (re)start are passed over; a failure is reported and
    /// the watch goes on; a stream that has ended is opened again after the
    /// backoff. A supervisor that is not watching answers `Stop`.
    pub fn on_item(&self, item: WatchItem) -> (action: SupervisorAction)
        ensures
            self.watching() ==> action@ == reaction(self.request(), item@),
            !self.watching() ==> action is Stop,
    {
        if !self.watching {
            return SupervisorAction::Stop;
        }
        match item {
            WatchItem::Event(event) => {
                let (kind, object) = match event {
                    WatchEvent::Apply(o) => (EventKind::Added, o),
                    WatchEvent::InitApply(o) => (EventKind::Added, o),
                    WatchEvent::Delete(o) => (EventKind::Deleted, o),
                    WatchEvent::Init => {
                        return SupervisorAction::Ignore;
                    },
                    WatchEvent::InitDone => {
                        return SupervisorAction::Ignore;
                    },
                };
                match reconcile_request(kind, object) {
                    Ok(request) => SupervisorAction::Dispatch(request),
                    Err(message) => SupervisorAction::Report(message),
                }
            },
            WatchItem::Failure(cause) => {
                let mut message = String::from_str("Watcher for kind '");
                message.append(self.request.kind.as_str());
                message.append("' in namespace '");
                message.append(self.request.namespace.as_str());
                message.append("' encountered an error: ");
                message.append(cause.as_str());
                SupervisorAction::Report(message)
            },
            WatchItem::Closed => SupervisorAction::Restart { after_ms: WATCH_BACKOFF_MS },
        }
    }

    /// Takes the outcome of a dispatched reconcile. A failure gives the
    /// message to log; the event is not tried again.
    pub fn on_reconciled(&self, outcome: Result<(), String>) -> (report: Option<String>)
        ensures
            match outcome {
                Ok(_) => report is None,
                Err(cause) => report matches Some(message) && message@ == reconcile_failure(
                    self.tenant(),
                    cause@,
                ),
            },
    {
        match outcome {
            Ok(_) => None,
            Err(cause) => {
                let mut message = String::from_str("Reconciliation for operator '");
                message.append(self.tenant.as_str());
                message.append("' failed: ");
                message.append(cause.as_str());
                Some(message)
            },
        }
    }
}

/// A watch that has ended is opened again after one backoff, and the
/// supervisor goes on watching: the answer to a closed stream is always a
/// restart after the backoff time, and nothing else is.
pub proof fn closed_watch_restarts_after_backoff(request: WatchRequestView, item: WatchItemView)
    ensures
        item is Closed <==> reaction(request, item) is Restart,
        item is Closed ==> reaction(request, item) == (SupervisorActionView::Restart {
            after_ms: WATCH_BACKOFF_MS,
        }),
{
}

/// Whether an item leads to a reconcile.
pub open spec fn delivers(request: WatchRequestView, item: WatchItemView) -> bool {
    reaction(request, item) is Dispatch
}

/// Events reach the guest in the order of the watch: the requests dispatched
/// for one run of items followed by another are those of the first run
/// followed by those of the second; an item that leads to a reconcile
/// contributes exactly its request, and every other item contributes
/// nothing.
pub proof fn events_keep_their_order(
    request: WatchRequestView,
    first: Seq<WatchItemView>,
    second: Seq<WatchItemView>,
    item: WatchItemView,
)
    ensures
        dispatched(request, first + second) == dispatched(request, first) + dispatched(
            request,
            second,
        ),
        dispatched(request, seq![item]) == (match reaction(request, item) {
            SupervisorActionView::Dispatch(r) => seq![r],
            _ => Seq::empty(),
        }),
    decreases second.len(),
{
    let one = seq![item];
    assert(one.drop_last() =~= Seq::<WatchItemView>::empty());
    assert(dispatched(request, one.drop_last()) =~= Seq::<ReconcileRequestView>::empty());
    assert(one.last() == item);
    assert(dispatched(request, one) =~= (match reaction(request, item) {
        SupervisorActionView::Dispatch(r) => seq![r],
        _ => Seq::empty(),
    }));
    if second.len() == 0 {
        assert(first + second =~= first);
        assert(dispatched(request, second) =~= Seq::<ReconcileRequestView>::empty());
        assert(dispatched(request, first) + dispatched(request, second) =~= dispatched(
            request,
            first,
        ));
    } else {
        events_keep_their_order(request, first, second.drop_last(), item);
        assert((first + second).drop_last() =~= first + second.drop_last());
        assert((first + second).last() == second.last());
        match reaction(request, second.last()) {
            SupervisorActionView::Dispatch(r) => {
                assert(dispatched(request, first + second) =~= (dispatched(request, first)
                    + dispatched(request, second.drop_last())).push(r));
                assert(dispatched(request, first) + dispatched(request, second) =~= (dispatched(
                    request,
                    first,
                ) + dispatched(request, second.drop_last())).push(r));
            },
            _ => {},
        }
    }
}

} // verus!
