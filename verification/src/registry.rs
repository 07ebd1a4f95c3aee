//! The registry of tenants: which guests are loaded, which are swapped out to
//! disk, who holds a guest at the moment and who waits for it.
//!
//! Every entry point of a guest runs between an `acquire` that grants access
//! and the `complete` that gives it back; the work itself (running the guest,
//! reading and writing its snapshot) is done by the caller in between.

use crate::clock::{is_idle, is_idle_at};
use crate::config::{WasmComponentMetadata, WasmComponentMetadataView};
use crate::text::join2;
use dashmap::DashMap;
use std::collections::hash_map::RandomState;
use vstd::prelude::*;
use vstd::string::*;

verus! {

/// Why a caller wants a tenant.
#[derive(Clone, Copy, Debug)]
pub enum Purpose {
    /// To run one of the guest's entry points.
    Call,
    /// To move the guest's memory to disk.
    Swap,
}

/// What the holder of a tenant is doing with it.
#[derive(Clone, Copy, Debug)]
pub enum Phase {
    /// Bringing a swapped guest back from its snapshot.
    Reloading,
    /// Running an entry point of the guest.
    Calling,
    /// Writing the guest's snapshot.
    Swapping,
}

/// The caller that holds a tenant.
#[derive(Clone, Copy, Debug)]
pub struct Holder {
    pub caller: u64,
    pub phase: Phase,
}

/// Where a tenant's guest is.
#[derive(Debug)]
pub enum TenantSlot {
    /// The guest is instantiated and holds live memory.
    Loaded { last_active: u64, config: WasmComponentMetadata },
    /// The guest's memory is in a file and no sandbox resources are held.
    Swapped { state_path: String, config: WasmComponentMetadata },
}

/// What a slot holds.
pub enum TenantSlotView {
    Loaded { last_active: u64, config: WasmComponentMetadataView },
    Swapped { state_path: Seq<char>, config: WasmComponentMetadataView },
}

impl View for TenantSlot {
    type V = TenantSlotView;

    open spec fn view(&self) -> TenantSlotView {
        match *self {
            TenantSlot::Loaded { last_active, config } => TenantSlotView::Loaded {
                last_active,
                config: config@,
            },
            TenantSlot::Swapped { state_path, config } => TenantSlotView::Swapped {
                state_path: state_path@,
                config: config@,
            },
        }
    }
}

impl TenantSlotView {
    /// The configuration that the slot carries.
    pub open spec fn config(self) -> WasmComponentMetadataView {
        match self {
            TenantSlotView::Loaded { config, .. } => config,
            TenantSlotView::Swapped { config, .. } => config,
        }
    }
}

/// One tenant as the registry keeps it: its slot, who holds it, and the
/// callers that wait for it in the order in which they came.
#[derive(Debug)]
pub struct TenantEntry {
    pub slot: TenantSlot,
    pub holder: Option<Holder>,
    pub waiting: Vec<u64>,
}

/// What an entry holds.
pub struct TenantEntryView {
    pub slot: TenantSlotView,
    pub holder: Option<Holder>,
    pub waiting: Seq<u64>,
}

impl View for TenantEntry {
    type V = TenantEntryView;

    open spec fn view(&self) -> TenantEntryView {
        TenantEntryView { slot: self.slot@, holder: self.holder, waiting: self.waiting@ }
    }
}

/// What `acquire` answers, without what it hands over.
pub enum GrantKind {
    Unknown,
    Wait,
    Run,
    Reload,
    Serialize,
    AlreadySwapped,
}

/// The answer to a request for a tenant.
#[derive(Debug)]
pub enum Grant {
    /// The registry has no tenant of that name.
    Unknown,
    /// Another caller holds the tenant, or others came first: wait to be woken.
    Wait,
    /// The guest is loaded: run the entry point, then complete with `CallDone`.
    Run,
    /// The guest is swapped out: instantiate it from `config`, hand it the
    /// bytes at `state_path`, then complete with `Reloaded` or `ReloadFailed`.
    Reload { state_path: String, config: WasmComponentMetadata },
    /// Ask the guest for its snapshot, write it to `temp_path` and rename
    /// that file to `state_path`, so that the snapshot appears whole or not
    /// at all; then complete with `Swapped` or `SwapFailed`.
    Serialize { state_path: String, temp_path: String },
    /// Swap-out of a tenant that is swapped out already: nothing to do.
    AlreadySwapped,
}

impl Grant {
    /// The kind of this answer.
    pub open spec fn kind(self) -> GrantKind {
        match self {
            Grant::Unknown => GrantKind::Unknown,
            Grant::Wait => GrantKind::Wait,
            Grant::Run => GrantKind::Run,
            Grant::Reload { .. } => GrantKind::Reload,
            Grant::Serialize { .. } => GrantKind::Serialize,
            Grant::AlreadySwapped => GrantKind::AlreadySwapped,
        }
    }
}

/// How the work that a grant asked for ended.
#[derive(Clone, Copy, Debug)]
pub enum Completion {
    /// The guest was instantiated and has taken its snapshot back.
    Reloaded,
    /// Instantiating the guest or restoring its snapshot failed.
    ReloadFailed,
    /// The entry point returned (or trapped) at the time `now`.
    CallDone { now: u64 },
    /// The snapshot was written and the guest dropped.
    Swapped,
    /// Taking or writing the snapshot failed.
    SwapFailed,
}

/// What `complete` answers.
#[derive(Clone, Copy, Debug)]
pub enum Settled {
    /// The caller does not hold the tenant in the phase that the completion
    /// belongs to: nothing changed.
    Rejected,
    /// The guest is back: run the entry point, then complete with `CallDone`.
    Continue,
    /// The tenant is at rest again; `wake` is the caller that waited longest.
    Released { wake: Option<u64> },
}

/// The file that holds a tenant's snapshot: `<state_dir>/<id>.mem`.
pub open spec fn snapshot_path(state_dir: Seq<char>, id: Seq<char>) -> Seq<char> {
    state_dir + "/"@ + id + ".mem"@
}

/// The file next to a snapshot in which the snapshot is written before it
/// takes the snapshot's place: `<state_dir>/<id>.mem.tmp`.
pub open spec fn snapshot_temp_path(state_dir: Seq<char>, id: Seq<char>) -> Seq<char> {
    snapshot_path(state_dir, id) + ".tmp"@
}

/// A caller may take the tenant when nobody holds it and nobody came before.
pub open spec fn may_enter(e: TenantEntryView, caller: u64) -> bool {
    e.holder is None && (e.waiting.len() == 0 || e.waiting[0] == caller)
}

/// The waiting line once `caller` has been turned away.
pub open spec fn line_after_wait(waiting: Seq<u64>, caller: u64) -> Seq<u64> {
    if waiting.contains(caller) {
        waiting
    } else {
        waiting.push(caller)
    }
}

/// The waiting line once `caller` has been let in.
pub open spec fn line_after_entry(waiting: Seq<u64>) -> Seq<u64> {
    if waiting.len() > 0 {
        waiting.drop_first()
    } else {
        waiting
    }
}

/// The answer that `acquire` gives for a tenant in the state `e`.
pub open spec fn grant_kind(e: TenantEntryView, caller: u64, purpose: Purpose) -> GrantKind {
    if !may_enter(e, caller) {
        GrantKind::Wait
    } else {
        match (e.slot, purpose) {
            (TenantSlotView::Loaded { .. }, Purpose::Call) => GrantKind::Run,
            (TenantSlotView::Swapped { .. }, Purpose::Call) => GrantKind::Reload,
            (TenantSlotView::Loaded { .. }, Purpose::Swap) => GrantKind::Serialize,
            (TenantSlotView::Swapped { .. }, Purpose::Swap) => GrantKind::AlreadySwapped,
        }
    }
}

/// The phase in which a grant leaves the tenant's holder, if it leaves one.
pub open spec fn phase_of(kind: GrantKind) -> Option<Phase> {
    match kind {
        GrantKind::Run => Some(Phase::Calling),
        GrantKind::Reload => Some(Phase::Reloading),
        GrantKind::Serialize => Some(Phase::Swapping),
        _ => None,
    }
}

/// The tenant after `acquire`.
pub open spec fn after_acquire(e: TenantEntryView, caller: u64, purpose: Purpose)
    -> TenantEntryView {
    if !may_enter(e, caller) {
        TenantEntryView { waiting: line_after_wait(e.waiting, caller), ..e }
    } else {
        TenantEntryView {
            slot: e.slot,
            holder: match phase_of(grant_kind(e, caller, purpose)) {
                Some(phase) => Some(Holder { caller, phase }),
                None => None,
            },
            waiting: line_after_entry(e.waiting),
        }
    }
}

/// Whether a completion belongs to the phase in which the tenant is held.
pub open spec fn fits(phase: Phase, done: Completion) -> bool {
    match (phase, done) {
        (Phase::Reloading, Completion::Reloaded) => true,
        (Phase::Reloading, Completion::ReloadFailed) => true,
        (Phase::Calling, Completion::CallDone { .. }) => true,
        (Phase::Swapping, Completion::Swapped) => true,
        (Phase::Swapping, Completion::SwapFailed) => true,
        _ => false,
    }
}

/// Whether `caller` holds the tenant in a phase that `done` can end.
pub open spec fn settles(e: TenantEntryView, caller: u64, done: Completion) -> bool {
    e.holder matches Some(h) && h.caller == caller && fits(h.phase, done)
}

/// The later of the recorded activity and a new reading of the clock.
pub open spec fn later(recorded: u64, now: u64) -> u64 {
    if now >= recorded {
        now
    } else {
        recorded
    }
}

/// The slot after a completion that settles.
pub open spec fn slot_after(slot: TenantSlotView, done: Completion, path: Seq<char>)
    -> TenantSlotView {
    match done {
        Completion::CallDone { now } => match slot {
            TenantSlotView::Loaded { last_active, config } => TenantSlotView::Loaded {
                last_active: later(last_active, now),
                config,
            },
            TenantSlotView::Swapped { config, .. } => TenantSlotView::Loaded {
                last_active: now,
                config,
            },
        },
        Completion::Swapped => TenantSlotView::Swapped { state_path: path, config: slot.config() },
        _ => slot,
    }
}

/// The tenant after `complete`; `path` is where its snapshot goes.
pub open spec fn after_completion(
    e: TenantEntryView,
    caller: u64,
    done: Completion,
    path: Seq<char>,
) -> TenantEntryView {
    if !settles(e, caller, done) {
        e
    } else {
        TenantEntryView {
            slot: slot_after(e.slot, done, path),
            holder: match done {
                Completion::Reloaded => Some(Holder { caller, phase: Phase::Calling }),
                _ => None,
            },
            waiting: e.waiting,
        }
    }
}

/// The answer that `complete` gives for a tenant in the state `e`.
pub open spec fn settled(e: TenantEntryView, caller: u64, done: Completion) -> Settled {
    if !settles(e, caller, done) {
        Settled::Rejected
    } else {
        match done {
            Completion::Reloaded => Settled::Continue,
            _ => Settled::Released {
                wake: if e.waiting.len() > 0 {
                    Some(e.waiting[0])
                } else {
                    None
                },
            },
        }
    }
}

/// A tenant that is loaded, held by nobody, and idle at `now`.
pub open spec fn idle_at_rest(e: TenantEntryView, now: u64) -> bool {
    e.holder is None && (e.slot matches TenantSlotView::Loaded { last_active, .. } && is_idle_at(
        last_active,
        now,
    ))
}

/// A tenant as it enters the registry at cold start.
pub open spec fn fresh_entry(config: WasmComponentMetadataView, now: u64) -> TenantEntryView {
    TenantEntryView {
        slot: TenantSlotView::Loaded { last_active: now, config },
        holder: None,
        waiting: Seq::empty(),
    }
}

/// The concurrent map of the `dashmap` crate, which holds the registry's
/// entries.
#[verifier::external_type_specification]
#[verifier::external_body]
#[verifier::reject_recursive_types(K)]
#[verifier::reject_recursive_types(V)]
#[verifier::reject_recursive_types(S)]
pub struct ExDashMap<K, V, S>(DashMap<K, V, S>);

/// The map from a tenant's name to its entry.
pub type SlotMap = DashMap<String, TenantEntry, RandomState>;

/// What a map of tenants holds: for each name in it, what its entry holds.
pub uninterp spec fn slot_views(m: SlotMap) -> Map<Seq<char>, TenantEntryView>;

/// A registry without tenants.
pub open spec fn no_tenants() -> Map<Seq<char>, TenantEntryView> {
    Map::empty()
}

/// `DashMap::new`: a map that holds nothing.
#[verifier::external_body]
fn slots_new() -> (m: SlotMap)
    ensures
        slot_views(m) == no_tenants(),
{
    DashMap::new()
}

/// `DashMap::insert`: afterwards the map holds `value` under `key`, in place
/// of what it held under that key before, and everything else as before.
#[verifier::external_body]
fn slots_insert(m: &mut SlotMap, key: String, value: TenantEntry)
    ensures
        slot_views(*final(m)) == slot_views(*old(m)).insert(key@, value@),
{
    m.insert(key, value);
}

/// `DashMap::remove`: takes the entry under `key` out of the map and returns
/// it with its key; returns nothing, and leaves the map as it was, when the
/// map holds no such key.
#[verifier::external_body]
fn slots_remove(m: &mut SlotMap, key: &str) -> (taken: Option<(String, TenantEntry)>)
    ensures
        slot_views(*final(m)) == slot_views(*old(m)).remove(key@),
        taken is Some == slot_views(*old(m)).contains_key(key@),
        taken matches Some((k, entry)) ==> k@ == key@ && entry@ == slot_views(*old(m))[key@],
{
    m.remove(key)
}

/// `DashMap::iter`, each item mapped to a copy of its key: every key of the
/// map once, in an order that is not fixed.
#[verifier::external_body]
fn slots_keys(m: &SlotMap) -> (keys: Vec<String>)
    ensures
        forall|i: int| 0 <= i < keys.len() ==> slot_views(*m).contains_key(#[trigger] keys[i]@),
        forall|k: Seq<char>|
            slot_views(*m).contains_key(k) ==> exists|i: int|
                0 <= i < keys.len() && #[trigger] keys[i]@ == k,
        forall|i: int, j: int| 0 <= i < j < keys.len() ==> keys[i]@ != keys[j]@,
{
    m.iter().map(|item| item.key().clone()).collect()
}

/// Whether `caller` stands in the waiting line.
fn in_line(waiting: &Vec<u64>, caller: u64) -> (found: bool)
    ensures
        found == waiting@.contains(caller),
{
    let mut i: usize = 0;
    while i < waiting.len()
        invariant
            i <= waiting.len(),
            forall|k: int| 0 <= k < i ==> waiting@[k] != caller,
        decreases waiting.len() - i,
    {
        if waiting[i] == caller {
            return true;
        }
        i += 1;
    }
    false
}

/// The registry of tenants.
pub struct InstanceRegistry {
    slots: SlotMap,
    state_dir: String,
}

impl View for InstanceRegistry {
    type V = Map<Seq<char>, TenantEntryView>;

    closed spec fn view(&self) -> Map<Seq<char>, TenantEntryView> {
        slot_views(self.slots)
    }
}

impl InstanceRegistry {
    /// The directory in which snapshots are kept.
    pub closed spec fn state_dir(&self) -> Seq<char> {
        self.state_dir@
    }

    /// A registry without tenants that keeps its snapshots under `state_dir`.
    pub fn new(state_dir: String) -> (r: Self)
        ensures
            r@ == no_tenants(),
            r.state_dir() == state_dir@,
    {
        InstanceRegistry { slots: slots_new(), state_dir }
    }

    /// Enters a freshly loaded tenant under the name of its configuration.
    /// A tenant of that name that is held or waited for stays as it is, and
    /// the answer is `false`; one at rest is replaced.
    pub fn insert(&mut self, config: WasmComponentMetadata, now: u64) -> (entered: bool)
        ensures
            final(self).state_dir() == old(self).state_dir(),
            entered == !(old(self)@.contains_key(config.name@) && (old(self)@[config.name@].holder
                is Some || old(self)@[config.name@].waiting.len() > 0)),
            entered ==> final(self)@ == old(self)@.insert(
                config.name@,
                fresh_entry(config@, now),
            ),
            !entered ==> final(self)@ == old(self)@,
    {
        let key = config.name.clone();
        match slots_remove(&mut self.slots, key.as_str()) {
            Some((k, entry)) => {
                if entry.holder.is_some() || entry.waiting.len() > 0 {
                    slots_insert(&mut self.slots, k, entry);
                    assert(self@ =~= old(self)@);
                    return false;
                }
            },
            None => {},
        }
        let entry = TenantEntry {
            slot: TenantSlot::Loaded { last_active: now, config },
            holder: None,
            waiting: Vec::new(),
        };
        slots_insert(&mut self.slots, key, entry);
        assert(self@ =~= old(self)@.insert(config.name@, fresh_entry(config@, now)));
        true
    }

    /// The path of the file that holds the snapshot of the tenant `id`.
    pub fn snapshot_path_of(&self, id: &str) -> (path: String)
        ensures
            path@ == snapshot_path(self.state_dir(), id@),
    {
        let mut path = self.state_dir.clone();
        path.append("/");
        path.append(id);
        path.append(".mem");
        path
    }

    /// Asks for the tenant `id` on behalf of `caller`.
    ///
    /// Access is granted when nobody holds the tenant and no other caller has
    /// waited longer; otherwise the caller joins the waiting line, once, and
    /// is told to wait.
    pub fn acquire(&mut self, id: &str, caller: u64, purpose: Purpose) -> (grant: Grant)
        ensures
            final(self).state_dir() == old(self).state_dir(),
            !old(self)@.contains_key(id@) ==> grant is Unknown && final(self)@ == old(self)@,
            old(self)@.contains_key(id@) ==> final(self)@ == old(self)@.insert(
                id@,
                after_acquire(old(self)@[id@], caller, purpose),
            ) && grant.kind() == grant_kind(old(self)@[id@], caller, purpose),
            grant matches Grant::Reload { state_path, config } ==> old(self)@[id@].slot
                == (TenantSlotView::Swapped { state_path: state_path@, config: config@ }),
            grant matches Grant::Serialize { state_path, temp_path } ==> state_path@
                == snapshot_path(old(self).state_dir(), id@) && temp_path@ == snapshot_temp_path(
                old(self).state_dir(),
                id@,
            ),
    {
        let path = self.snapshot_path_of(id);
        match slots_remove(&mut self.slots, id) {
            None => {
                assert(self@ =~= old(self)@);
                Grant::Unknown
            },
            Some((key, entry)) => {
                let ghost before = entry@;
                let TenantEntry { slot, holder, mut waiting } = entry;
                let free = holder.is_none() && (waiting.len() == 0 || waiting[0] == caller);
                if !free {
                    if !in_line(&waiting, caller) {
                        waiting.push(caller);
                    }
                    let entry = TenantEntry { slot, holder, waiting };
                    assert(entry@ == after_acquire(before, caller, purpose));
                    slots_insert(&mut self.slots, key, entry);
                    assert(self@ =~= old(self)@.insert(
                        id@,
                        after_acquire(before, caller, purpose),
                    ));
                    Grant::Wait
                } else {
                    if waiting.len() > 0 {
                        let _ = waiting.remove(0);
                        assert(waiting@ =~= before.waiting.drop_first());
                    }
                    let (grant, holder) = match (&slot, purpose) {
                        (TenantSlot::Loaded { .. }, Purpose::Call) => (
                            Grant::Run,
                            Some(Holder { caller, phase: Phase::Calling }),
                        ),
                        (TenantSlot::Swapped { state_path, config }, Purpose::Call) => (
                            Grant::Reload { state_path: state_path.clone(), config: config.clone() },
                            Some(Holder { caller, phase: Phase::Reloading }),
                        ),
                        (TenantSlot::Loaded { .. }, Purpose::Swap) => (
                            Grant::Serialize {
                                temp_path: join2(path.as_str(), ".tmp"),
                                state_path: path,
                            },
                            Some(Holder { caller, phase: Phase::Swapping }),
                        ),
                        (TenantSlot::Swapped { .. }, Purpose::Swap) => (Grant::AlreadySwapped, None),
                    };
                    let entry = TenantEntry { slot, holder, waiting };
                    assert(entry@ == after_acquire(before, caller, purpose));
                    slots_insert(&mut self.slots, key, entry);
                    assert(self@ =~= old(self)@.insert(
                        id@,
                        after_acquire(before, caller, purpose),
                    ));
                    grant
                }
            },
        }
    }

    /// Reports how the work that a grant asked for ended.
    ///
    /// A completion that does not come from the tenant's holder, or does not
    /// belong to the phase of the holder, changes nothing.
    pub fn complete(&mut self, id: &str, caller: u64, done: Completion) -> (answer: Settled)
        ensures
            final(self).state_dir() == old(self).state_dir(),
            !old(self)@.contains_key(id@) ==> answer is Rejected && final(self)@ == old(self)@,
            old(self)@.contains_key(id@) ==> final(self)@ == old(self)@.insert(
                id@,
                after_completion(
                    old(self)@[id@],
                    caller,
                    done,
                    snapshot_path(old(self).state_dir(), id@),
                ),
            ) && answer == settled(old(self)@[id@], caller, done),
    {
        let path = self.snapshot_path_of(id);
        match slots_remove(&mut self.slots, id) {
            None => {
                assert(self@ =~= old(self)@);
                Settled::Rejected
            },
            Some((key, entry)) => {
                let ghost before = entry@;
                let ghost goal = after_completion(before, caller, done, path@);
                let TenantEntry { slot, holder, waiting } = entry;
                let phase = match holder {
                    Some(h) => if h.caller == caller {
                        Some(h.phase)
                    } else {
                        None
                    },
                    None => None,
                };
                let wake = if waiting.len() > 0 {
                    Some(waiting[0])
                } else {
                    None
                };
                let (slot, holder, answer) = match (phase, done) {
                    (Some(Phase::Reloading), Completion::Reloaded) => (
                        slot,
                        Some(Holder { caller, phase: Phase::Calling }),
                        Settled::Continue,
                    ),
                    (Some(Phase::Reloading), Completion::ReloadFailed) => (
                        slot,
                        None,
                        Settled::Released { wake },
                    ),
                    (Some(Phase::Calling), Completion::CallDone { now }) => {
                        let slot = match slot {
                            TenantSlot::Loaded { last_active, config } => TenantSlot::Loaded {
                                last_active: if now >= last_active {
                                    now
                                } else {
                                    last_active
                                },
                                config,
                            },
                            TenantSlot::Swapped { state_path, config } => TenantSlot::Loaded {
                                last_active: now,
                                config,
                            },
                        };
                        (slot, None, Settled::Released { wake })
                    },
                    (Some(Phase::Swapping), Completion::Swapped) => {
                        let slot = match slot {
                            TenantSlot::Loaded { last_active, config } => TenantSlot::Swapped {
                                state_path: path,
                                config,
                            },
                            TenantSlot::Swapped { state_path, config } => TenantSlot::Swapped {
                                state_path: path,
                                config,
                            },
                        };
                        (slot, None, Settled::Released { wake })
                    },
                    (Some(Phase::Swapping), Completion::SwapFailed) => (
                        slot,
                        None,
                        Settled::Released { wake },
                    ),
                    _ => (slot, holder, Settled::Rejected),
                };
                let entry = TenantEntry { slot, holder, waiting };
                assert(entry@ == goal);
                slots_insert(&mut self.slots, key, entry);
                assert(self@ =~= old(self)@.insert(id@, goal));
                answer
            },
        }
    }

    /// The tenants that are loaded, held by nobody, and have been inactive
    /// for more than the idle threshold at `now`, each once, in no fixed
    /// order. The registry is left as it was.
    pub fn idle_tenants(&mut self, now: u64) -> (idle: Vec<String>)
        ensures
            final(self)@ == old(self)@,
            final(self).state_dir() == old(self).state_dir(),
            forall|i: int|
                0 <= i < idle.len() ==> old(self)@.contains_key(#[trigger] idle[i]@)
                    && idle_at_rest(old(self)@[idle[i]@], now),
            forall|k: Seq<char>|
                old(self)@.contains_key(k) && idle_at_rest(old(self)@[k], now) ==> exists|i: int|
                    0 <= i < idle.len() && #[trigger] idle[i]@ == k,
            forall|i: int, j: int| 0 <= i < j < idle.len() ==> idle[i]@ != idle[j]@,
    {
        let keys = slots_keys(&self.slots);
        let mut idle: Vec<String> = Vec::new();
        let ghost picked: Seq<int> = Seq::empty();
        let mut n: usize = 0;
        while n < keys.len()
            invariant
                n <= keys.len(),
                self@ == old(self)@,
                self.state_dir() == old(self).state_dir(),
                forall|i: int| 0 <= i < keys.len() ==> self@.contains_key(#[trigger] keys[i]@),
                forall|i: int, j: int| 0 <= i < j < keys.len() ==> keys[i]@ != keys[j]@,
                picked.len() == idle.len(),
                forall|i: int|
                    0 <= i < idle.len() ==> 0 <= #[trigger] picked[i] < n && idle[i]@
                        == keys[picked[i]]@ && idle_at_rest(self@[idle[i]@], now),
                forall|i: int, j: int| 0 <= i < j < idle.len() ==> picked[i] < picked[j],
                forall|m: int|
                    0 <= m < n && idle_at_rest(self@[keys[m]@], now) ==> exists|i: int|
                        0 <= i < idle.len() && #[trigger] idle[i]@ == keys[m]@,
            decreases keys.len() - n,
        {
            let ghost before = self@;
            let ghost listed = idle@;
            match slots_remove(&mut self.slots, keys[n].as_str()) {
                Some((key, entry)) => {
                    let at_rest = entry.holder.is_none() && match &entry.slot {
                        TenantSlot::Loaded { last_active, .. } => is_idle(*last_active, now),
                        TenantSlot::Swapped { .. } => false,
                    };
                    slots_insert(&mut self.slots, key, entry);
                    assert(self@ =~= before);
                    if at_rest {
                        idle.push(keys[n].clone());
                        proof {
                            picked = picked.push(n as int);
                            assert forall|m: int|
                                0 <= m < n + 1 && idle_at_rest(
                                    self@[keys[m]@],
                                    now,
                                ) implies exists|i: int|
                                0 <= i < idle.len() && #[trigger] idle[i]@ == keys[m]@ by {
                                if m < n {
                                    let i = choose|i: int|
                                        0 <= i < listed.len() && #[trigger] listed[i]@ == keys[m]@;
                                    assert(idle[i]@ == keys[m]@);
                                } else {
                                    assert(idle[idle.len() - 1]@ == keys[m]@);
                                }
                            }
                        }
                    }
                },
                None => {},
            }
            n += 1;
        }
        proof {
            assert forall|k: Seq<char>|
                old(self)@.contains_key(k) && idle_at_rest(old(self)@[k], now) implies exists|
                i: int,
            |
                0 <= i < idle.len() && #[trigger] idle[i]@ == k by {
                let m = choose|m: int| 0 <= m < keys.len() && #[trigger] keys[m]@ == k;
                assert(idle_at_rest(self@[keys[m]@], now));
            }
            assert forall|i: int| 0 <= i < idle.len() implies old(self)@.contains_key(
                #[trigger] idle[i]@,
            ) && idle_at_rest(old(self)@[idle[i]@], now) by {
                assert(self@.contains_key(keys[picked[i]]@));
            }
            assert forall|i: int, j: int| 0 <= i < j < idle.len() implies idle[i]@ != idle[j]@ by {
                assert(picked[i] < picked[j]);
            }
        }
        idle
    }

    /// What the registry knows of the tenant `id`, if it knows it. The
    /// registry is left as it was.
    pub fn status(&mut self, id: &str) -> (status: Option<TenantStatus>)
        ensures
            final(self)@ == old(self)@,
            final(self).state_dir() == old(self).state_dir(),
            status is Some == old(self)@.contains_key(id@),
            status matches Some(s) ==> s == status_of(old(self)@[id@]),
    {
        match slots_remove(&mut self.slots, id) {
            None => {
                assert(self@ =~= old(self)@);
                None
            },
            Some((key, entry)) => {
                let status = TenantStatus {
                    state: match &entry.slot {
                        TenantSlot::Loaded { last_active, .. } => TenantState::Loaded {
                            last_active: *last_active,
                        },
                        TenantSlot::Swapped { .. } => TenantState::Swapped,
                    },
                    holder: entry.holder,
                    waiting: entry.waiting.len(),
                };
                slots_insert(&mut self.slots, key, entry);
                assert(self@ =~= old(self)@);
                Some(status)
            },
        }
    }
}

/// Whether a tenant's guest is loaded, and since when it has been inactive.
#[derive(Clone, Copy, Debug)]
pub enum TenantState {
    Loaded { last_active: u64 },
    Swapped,
}

/// A tenant as `status` reports it.
#[derive(Clone, Copy, Debug)]
pub struct TenantStatus {
    pub state: TenantState,
    pub holder: Option<Holder>,
    /// How many callers wait for the tenant.
    pub waiting: usize,
}

/// The report on a tenant in the state `e`.
pub open spec fn status_of(e: TenantEntryView) -> TenantStatus {
    TenantStatus {
        state: match e.slot {
            TenantSlotView::Loaded { last_active, .. } => TenantState::Loaded { last_active },
            TenantSlotView::Swapped { .. } => TenantState::Swapped,
        },
        holder: e.holder,
        waiting: e.waiting.len() as usize,
    }
}

/// At most one caller is inside a tenant. Whenever `acquire` lets a caller
/// in, the tenant was held by nobody; while a tenant is held, every request
/// for it is told to wait and leaves slot and holder as they are; and only a
/// completion by the holder itself changes slot or holder.
pub proof fn single_in_flight(
    e: TenantEntryView,
    caller: u64,
    purpose: Purpose,
    done: Completion,
    path: Seq<char>,
)
    ensures
        phase_of(grant_kind(e, caller, purpose)) is Some ==> e.holder is None && after_acquire(
            e,
            caller,
            purpose,
        ).holder == Some(
            Holder { caller, phase: phase_of(grant_kind(e, caller, purpose))->0 },
        ),
        e.holder is Some ==> grant_kind(e, caller, purpose) == GrantKind::Wait && after_acquire(
            e,
            caller,
            purpose,
        ).holder == e.holder && after_acquire(e, caller, purpose).slot == e.slot,
        !(e.holder matches Some(h) && h.caller == caller) ==> after_completion(
            e,
            caller,
            done,
            path,
        ) == e,
{
}

/// The time of a loaded tenant's last activity never goes back: whatever
/// `acquire` or `complete` does to a tenant that is loaded before and after,
/// the recorded time afterwards is at least the one before.
pub proof fn activity_is_monotone(
    e: TenantEntryView,
    caller: u64,
    purpose: Purpose,
    done: Completion,
    path: Seq<char>,
)
    ensures
        after_acquire(e, caller, purpose).slot == e.slot,
        e.slot is Loaded && after_completion(e, caller, done, path).slot is Loaded
            ==> after_completion(e, caller, done, path).slot->last_active >= e.slot->last_active,
{
}

/// One thing that a caller does to a tenant.
pub enum Move {
    Acquire { caller: u64, purpose: Purpose },
    Complete { caller: u64, done: Completion },
}

/// The tenant after one move; `path` is where its snapshot goes.
pub open spec fn moved(e: TenantEntryView, m: Move, path: Seq<char>) -> TenantEntryView {
    match m {
        Move::Acquire { caller, purpose } => after_acquire(e, caller, purpose),
        Move::Complete { caller, done } => after_completion(e, caller, done, path),
    }
}

/// The tenant after a run of moves.
pub open spec fn after_moves(e: TenantEntryView, moves: Seq<Move>, path: Seq<char>)
    -> TenantEntryView
    decreases moves.len(),
{
    if moves.len() == 0 {
        e
    } else {
        moved(after_moves(e, moves.drop_last(), path), moves.last(), path)
    }
}

/// Whether a move lets its caller into the tenant.
pub open spec fn lets_in(e: TenantEntryView, m: Move) -> bool {
    m matches Move::Acquire { caller, purpose } && phase_of(grant_kind(e, caller, purpose))
        is Some
}

/// Whether the tenant is loaded before, after and all through a run of moves.
pub open spec fn stays_loaded(e: TenantEntryView, moves: Seq<Move>, path: Seq<char>) -> bool {
    forall|n: int| 0 <= n <= moves.len() ==> (#[trigger] after_moves(e, moves.take(n), path)).slot
        is Loaded
}

/// Through the whole time for which a tenant stays loaded, whatever its
/// callers do, the time of its last activity never goes back.
pub proof fn activity_never_goes_back(e: TenantEntryView, moves: Seq<Move>, path: Seq<char>)
    requires
        stays_loaded(e, moves, path),
    ensures
        after_moves(e, moves, path).slot is Loaded,
        e.slot is Loaded,
        after_moves(e, moves, path).slot->last_active >= e.slot->last_active,
    decreases moves.len(),
{
    assert(moves.take(moves.len() as int) =~= moves);
    assert(moves.take(0) =~= Seq::<Move>::empty());
    assert(after_moves(e, moves.take(0), path) == e);
    assert(after_moves(e, moves.take(moves.len() as int), path).slot is Loaded);
    if moves.len() > 0 {
        let earlier = moves.drop_last();
        assert forall|n: int| 0 <= n <= earlier.len() implies (#[trigger] after_moves(
            e,
            earlier.take(n),
            path,
        )).slot is Loaded by {
            assert(earlier.take(n) =~= moves.take(n));
        }
        activity_never_goes_back(e, earlier, path);
    }
}

/// Whoever holds a tenant keeps it until it gives it back: through a run of
/// moves in which the holder completes nothing, no caller is let in and the
/// tenant is held, in the end, by the same caller in the same phase. So no
/// two calls into a guest are ever in flight at once.
pub proof fn holder_keeps_the_tenant(e: TenantEntryView, moves: Seq<Move>, path: Seq<char>)
    requires
        e.holder is Some,
        forall|n: int|
            0 <= n < moves.len() ==> !(#[trigger] moves[n] matches Move::Complete { caller, .. }
                && caller == e.holder->0.caller),
    ensures
        after_moves(e, moves, path).holder == e.holder,
        after_moves(e, moves, path).slot == e.slot,
        forall|n: int|
            0 <= n < moves.len() ==> !lets_in(
                after_moves(e, moves.take(n), path),
                #[trigger] moves[n],
            ),
    decreases moves.len(),
{
    if moves.len() > 0 {
        let earlier = moves.drop_last();
        assert forall|n: int| 0 <= n < earlier.len() implies !(#[trigger] earlier[n] matches Move::Complete {
            caller,
            ..
        } && caller == e.holder->0.caller) by {
            assert(earlier[n] == moves[n]);
        }
        holder_keeps_the_tenant(e, earlier, path);
        let last = moves.len() - 1;
        assert(moves[last] == moves.last());
        assert forall|n: int| 0 <= n < moves.len() implies !lets_in(
            after_moves(e, moves.take(n), path),
            #[trigger] moves[n],
        ) by {
            if n < last {
                assert(moves.take(n) =~= earlier.take(n));
                assert(earlier[n] == moves[n]);
            } else {
                assert(moves.take(n) =~= earlier);
            }
        }
    }
}

/// Callers are served in the order in which they came: a caller is let in
/// only when the waiting line is empty or it stands at its head, the line
/// loses at most its head and gains at most the caller at its end, and a
/// release names the head of the line as the one to wake.
pub proof fn first_come_first_served(
    e: TenantEntryView,
    caller: u64,
    purpose: Purpose,
    done: Completion,
    path: Seq<char>,
)
    ensures
        e.waiting.len() > 0 && e.waiting[0] != caller ==> grant_kind(e, caller, purpose)
            == GrantKind::Wait,
        after_acquire(e, caller, purpose).waiting == e.waiting || after_acquire(
            e,
            caller,
            purpose,
        ).waiting == e.waiting.push(caller) || (e.waiting.len() > 0 && e.waiting[0] == caller
            && after_acquire(e, caller, purpose).waiting == e.waiting.drop_first()),
        after_completion(e, caller, done, path).waiting == e.waiting,
        settled(e, caller, done) matches Settled::Released { wake } ==> wake == (if e.waiting.len()
            > 0 {
            Some(e.waiting[0])
        } else {
            None
        }),
{
}

/// A swap-out and the reload that follows it agree on the snapshot: the
/// tenant that was swapped out to `path` is, at the next call, reloaded from
/// `path` with the configuration it had, and is loaded again once that call
/// is done.
pub proof fn reload_reads_what_swap_wrote(
    e: TenantEntryView,
    reaper: u64,
    caller: u64,
    path: Seq<char>,
    now: u64,
)
    requires
        e.slot is Loaded,
        e.holder is None,
        e.waiting.len() == 0,
    ensures
        ({
            let serializing = after_acquire(e, reaper, Purpose::Swap);
            let swapped = after_completion(serializing, reaper, Completion::Swapped, path);
            let reloading = after_acquire(swapped, caller, Purpose::Call);
            let calling = after_completion(reloading, caller, Completion::Reloaded, path);
            let done = after_completion(calling, caller, Completion::CallDone { now }, path);
            &&& grant_kind(e, reaper, Purpose::Swap) == GrantKind::Serialize
            &&& swapped.slot == (TenantSlotView::Swapped {
                state_path: path,
                config: e.slot.config(),
            })
            &&& swapped.holder is None
            &&& grant_kind(swapped, caller, Purpose::Call) == GrantKind::Reload
            &&& reloading.slot == swapped.slot
            &&& settled(reloading, caller, Completion::Reloaded) == Settled::Continue
            &&& done.slot == (TenantSlotView::Loaded { last_active: now, config: e.slot.config() })
            &&& done.holder is None
        }),
{
}

/// To swap out a tenant that is swapped out already is to do nothing: the
/// caller is not made the holder, and slot and holder stay as they are.
pub proof fn swap_out_of_swapped_is_no_op(e: TenantEntryView, caller: u64)
    ensures
        grant_kind(e, caller, Purpose::Swap) is AlreadySwapped <==> may_enter(e, caller)
            && e.slot is Swapped,
        grant_kind(e, caller, Purpose::Swap) is AlreadySwapped ==> after_acquire(
            e,
            caller,
            Purpose::Swap,
        ).slot == e.slot && after_acquire(e, caller, Purpose::Swap).holder is None,
{
}

/// A failure leaves a tenant where it was: a reload that fails leaves it
/// swapped out, a swap-out that fails leaves it loaded, and a call that
/// ends, however it ends, leaves it loaded. In each case nobody holds it
/// afterwards.
pub proof fn failures_restore_the_slot(
    e: TenantEntryView,
    caller: u64,
    now: u64,
    path: Seq<char>,
)
    ensures
        settles(e, caller, Completion::ReloadFailed) ==> after_completion(
            e,
            caller,
            Completion::ReloadFailed,
            path,
        ) == (TenantEntryView { holder: None, ..e }),
        settles(e, caller, Completion::SwapFailed) ==> after_completion(
            e,
            caller,
            Completion::SwapFailed,
            path,
        ) == (TenantEntryView { holder: None, ..e }),
        settles(e, caller, Completion::CallDone { now }) ==> after_completion(
            e,
            caller,
            Completion::CallDone { now },
            path,
        ).slot is Loaded && after_completion(
            e,
            caller,
            Completion::CallDone { now },
            path,
        ).holder is None,
{
}

} // verus!
