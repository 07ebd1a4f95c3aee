//! The host's side of the calls that a guest makes while one of its entry
//! points runs: the handles of the requests that it has sent and whose
//! responses it has not yet asked for.
//!
//! A request is sent without waiting for the cluster. The guest gets a
//! handle, asks for the response when it wants it, and only then waits. The
//! caller owns the channels on which responses arrive, one for each handle;
//! the bridge says which of them a guest may wait on.

use crate::text::same_text;
use vstd::prelude::*;
use vstd::string::*;
use wasmtime::component::{Resource, ResourceTable};

verus! {

/// What the table keeps for one request on its way: whether the guest has
/// asked for its response already. A response can be had once.
#[derive(Clone, Copy, Debug)]
pub struct FutureResponse {
    pub taken: bool,
}

/// The guest-visible identity of a request on its way.
#[derive(Debug)]
pub struct AsyncHandle {
    /// The tenant whose guest sent the request.
    pub tenant: String,
    /// The key of the request in that tenant's table.
    pub rep: u32,
}

/// What a handle holds.
pub struct AsyncHandleView {
    pub tenant: Seq<char>,
    pub rep: u32,
}

impl View for AsyncHandle {
    type V = AsyncHandleView;

    open spec fn view(&self) -> AsyncHandleView {
        AsyncHandleView { tenant: self.tenant@, rep: self.rep }
    }
}

/// What a guest that asks for a response is to do.
#[derive(Clone, Copy, Debug)]
pub enum Claim {
    /// Wait for the response of the request with this key.
    Await { rep: u32 },
    /// The response was asked for before: there is nothing to wait for.
    Closed,
}

/// The text of the error for a response that was asked for before.
pub open spec fn channel_closed() -> Seq<char> {
    "channel closed"@
}

impl Claim {
    /// What a guest that is to wait for nothing is told: a response that was
    /// asked for before is refused with "channel closed"; a guest that is to
    /// wait is told nothing yet.
    pub fn refusal(&self) -> (text: Option<String>)
        ensures
            match *self {
                Claim::Closed => text matches Some(message) && message@ == channel_closed(),
                Claim::Await { .. } => text is None,
            },
    {
        match self {
            Claim::Closed => Some(String::from_str("channel closed")),
            Claim::Await { .. } => None,
        }
    }
}

/// The resource table of the `wasmtime` crate.
#[verifier::external_type_specification]
#[verifier::external_body]
pub struct ExResourceTable(ResourceTable);

/// What a table holds: for each key in use, the entry that stands under it.
pub uninterp spec fn pending(table: ResourceTable) -> Map<u32, FutureResponse>;

/// Whether all that a table holds was entered by `table_push`.
pub uninterp spec fn plain(table: ResourceTable) -> bool;

/// A table without entries.
pub open spec fn nothing_pending() -> Map<u32, FutureResponse> {
    Map::empty()
}

/// Whether a key is left for one more request: some key is not in use.
pub open spec fn has_free_key(calls: Map<u32, FutureResponse>) -> bool {
    exists|rep: u32| !calls.contains_key(rep)
}

/// The text of the error for a table in which every key is in use.
pub open spec fn no_free_keys() -> Seq<char> {
    "resource table has no free keys"@
}

/// The text of the error for a key under which the table holds nothing.
pub open spec fn not_present() -> Seq<char> {
    "resource not present"@
}

/// `ResourceTable::new`: a table that holds nothing.
#[verifier::external_body]
fn table_new() -> (table: ResourceTable)
    ensures
        pending(table) == nothing_pending(),
        plain(table),
{
    ResourceTable::new()
}

/// `ResourceTable::push`: enters `entry` under a key that was not in use and
/// returns the key. It fails only when the table has no free key, that is,
/// when every key is in use; the error is then "resource table has no free
/// keys" and the table is left as it was.
#[verifier::external_body]
fn table_push(table: &mut ResourceTable, entry: FutureResponse) -> (r: Result<u32, String>)
    requires
        plain(*old(table)),
    ensures
        plain(*final(table)),
        r is Ok == has_free_key(pending(*old(table))),
        r matches Ok(rep) ==> !pending(*old(table)).contains_key(rep) && pending(*final(table))
            == pending(*old(table)).insert(rep, entry),
        r matches Err(message) ==> message@ == no_free_keys() && pending(*final(table))
            == pending(*old(table)),
    no_unwind
{
    match table.push(entry) {
        Ok(resource) => Ok(resource.rep()),
        Err(error) => Err(error.to_string()),
    }
}

/// `ResourceTable::get_mut`: the entry under `rep`, to be read and changed
/// in place, or, where the table holds nothing under `rep`, the error
/// "resource not present".
#[verifier::external_body]
fn table_get_mut(table: &mut ResourceTable, rep: u32) -> (r: Result<&mut FutureResponse, String>)
    requires
        plain(*old(table)),
    ensures
        plain(*final(table)),
        r is Ok == pending(*old(table)).contains_key(rep),
        r matches Ok(entry) ==> *entry == pending(*old(table))[rep] && pending(*final(table))
            == pending(*old(table)).insert(rep, *final(entry)),
        r matches Err(message) ==> message@ == not_present() && pending(*final(table)) == pending(
            *old(table),
        ),
    no_unwind
{
    match table.get_mut(&Resource::<FutureResponse>::new_own(rep)) {
        Ok(entry) => Ok(entry),
        Err(error) => Err(error.to_string()),
    }
}

/// `ResourceTable::delete`: takes the entry under `rep` out of the table and
/// returns it, or, where the table holds nothing under `rep`, fails with
/// "resource not present" and leaves the table as it was.
#[verifier::external_body]
fn table_delete(table: &mut ResourceTable, rep: u32) -> (r: Result<FutureResponse, String>)
    requires
        plain(*old(table)),
    ensures
        plain(*final(table)),
        r is Ok == pending(*old(table)).contains_key(rep),
        r matches Ok(entry) ==> entry == pending(*old(table))[rep] && pending(*final(table))
            == pending(*old(table)).remove(rep),
        r matches Err(message) ==> message@ == not_present() && pending(*final(table)) == pending(
            *old(table),
        ),
    no_unwind
{
    match table.delete(Resource::<FutureResponse>::new_own(rep)) {
        Ok(entry) => Ok(entry),
        Err(error) => Err(error.to_string()),
    }
}

/// The state of a bridge: the tenant that it serves and the requests of
/// that tenant's guest that are on their way.
pub struct BridgeView {
    pub tenant: Seq<char>,
    pub calls: Map<u32, FutureResponse>,
}

/// Whether a bridge knows a handle: the handle is of the bridge's tenant and
/// its key is in use.
pub open spec fn knows(bridge: BridgeView, handle: AsyncHandleView) -> bool {
    handle.tenant == bridge.tenant && bridge.calls.contains_key(handle.rep)
}

/// The host's side of one guest's calls.
pub struct HostBridge {
    tenant: String,
    resources: ResourceTable,
}

impl View for HostBridge {
    type V = BridgeView;

    closed spec fn view(&self) -> BridgeView {
        BridgeView { tenant: self.tenant@, calls: pending(self.resources) }
    }
}

impl HostBridge {
    #[verifier::type_invariant]
    spec fn inv(self) -> bool {
        plain(self.resources)
    }

    /// The bridge of the tenant `tenant`, with no request on its way.
    pub fn new(tenant: String) -> (bridge: Self)
        ensures
            bridge@ == (BridgeView { tenant: tenant@, calls: nothing_pending() }),
    {
        HostBridge { tenant, resources: table_new() }
    }

    /// Takes a request of the guest. Gives the handle under which the
    /// response can be asked for later; the request itself is to be sent
    /// by the caller, without making the guest wait.
    ///
    /// A handle is given whenever a key is left for it: the handle is of
    /// this bridge's tenant, its key was not in use, and the request stands
    /// under it as not yet asked for. Only when every key is in use does
    /// the call fail, with "resource table has no free keys", and change
    /// nothing.
    pub fn send_request(&mut self) -> (r: Result<AsyncHandle, String>)
        ensures
            final(self)@.tenant == old(self)@.tenant,
            r is Ok == has_free_key(old(self)@.calls),
            r matches Ok(handle) ==> handle@.tenant == old(self)@.tenant && !old(
                self,
            )@.calls.contains_key(handle.rep) && final(self)@.calls == old(self)@.calls.insert(
                handle.rep,
                FutureResponse { taken: false },
            ),
            r matches Err(message) ==> message@ == no_free_keys() && final(self)@ == old(self)@,
    {
        proof {
            use_type_invariant(&*self);
        }
        match table_push(&mut self.resources, FutureResponse { taken: false }) {
            Ok(rep) => Ok(AsyncHandle { tenant: self.tenant.clone(), rep }),
            Err(message) => Err(message),
        }
    }

    /// Takes a guest's demand for the response that belongs to `handle`.
    ///
    /// A handle that the bridge does not know is refused with "resource not
    /// present", and nothing changes. The first demand for a known handle
    /// tells the guest to wait for the response and marks it as asked for;
    /// a later one finds it closed.
    pub fn get_response(&mut self, handle: &AsyncHandle) -> (r: Result<Claim, String>)
        ensures
            final(self)@.tenant == old(self)@.tenant,
            r is Ok == knows(old(self)@, handle@),
            r matches Err(message) ==> message@ == not_present() && final(self)@ == old(self)@,
            r matches Ok(claim) ==> claim == (if old(self)@.calls[handle.rep].taken {
                Claim::Closed
            } else {
                Claim::Await { rep: handle.rep }
            }) && final(self)@.calls == old(self)@.calls.insert(
                handle.rep,
                FutureResponse { taken: true },
            ),
    {
        proof {
            use_type_invariant(&*self);
        }
        if !same_text(handle.tenant.as_str(), self.tenant.as_str()) {
            return Err(String::from_str("resource not present"));
        }
        match table_get_mut(&mut self.resources, handle.rep) {
            Ok(entry) => {
                let claim = if entry.taken {
                    Claim::Closed
                } else {
                    Claim::Await { rep: handle.rep }
                };
                entry.taken = true;
                Ok(claim)
            },
            Err(message) => Err(message),
        }
    }

    /// Gives up the handle without waiting for the response. A handle that
    /// the bridge does not know is refused with "resource not present", and
    /// nothing changes.
    pub fn drop_handle(&mut self, handle: AsyncHandle) -> (r: Result<(), String>)
        ensures
            final(self)@.tenant == old(self)@.tenant,
            r is Ok == knows(old(self)@, handle@),
            r is Ok ==> final(self)@.calls == old(self)@.calls.remove(handle.rep),
            r matches Err(message) ==> message@ == not_present() && final(self)@ == old(self)@,
    {
        proof {
            use_type_invariant(&*self);
        }
        if !same_text(handle.tenant.as_str(), self.tenant.as_str()) {
            return Err(String::from_str("resource not present"));
        }
        match table_delete(&mut self.resources, handle.rep) {
            Ok(_) => Ok(()),
            Err(message) => Err(message),
        }
    }
}

/// What a guest gets for its claim on a response. A response that was
/// asked for before is refused with "channel closed". Else the guest gets
/// what the wait brought: the response, the error of the request, or,
/// where the task that sent the request is gone, the text that says so;
/// and where there was nothing to wait on, "channel closed" again.
pub fn received<T>(claim: Claim, outcome: Option<Result<Result<T, String>, String>>) -> (r: Result<
    T,
    String,
>)
    ensures
        match (claim, outcome) {
            (Claim::Await { .. }, Some(Ok(answer))) => r == answer,
            (Claim::Await { .. }, Some(Err(gone))) => r matches Err(message) && message == gone,
            _ => r matches Err(message) && message@ == channel_closed(),
        },
{
    match claim.refusal() {
        Some(message) => Err(message),
        None => match outcome {
            Some(Ok(answer)) => answer,
            Some(Err(gone)) => Err(gone),
            None => Err(String::from_str("channel closed")),
        },
    }
}

/// A handle is good only for the tenant whose guest got it: a bridge knows
/// no handle of another tenant, whatever its key.
pub proof fn handles_stay_with_their_tenant(
    issuer: BridgeView,
    other: BridgeView,
    handle: AsyncHandleView,
)
    requires
        handle.tenant == issuer.tenant,
        issuer.tenant != other.tenant,
    ensures
        !knows(other, handle),
{
}

} // verus!
