//! The scheduler: the order in which a host brings its tenants up.
//!
//! The caller carries out each action and reports how it ended; the
//! scheduler answers with the next one. Tenants are started one after the
//! other, each after a pause, so that a host with many tenants does not fall
//! upon the cluster all at once.

use crate::clock::STAGGER_MS;
use crate::config::{WasmComponentMetadata, WasmComponentMetadataView};
use crate::supervisor::{WatchRequest, WatchRequestView};
use vstd::prelude::*;
use vstd::string::*;

verus! {

/// Where the scheduler stands.
#[derive(Clone, Copy, Debug)]
pub enum Step {
    /// Between two tenants, or before the first.
    Idle,
    /// Pausing before the next tenant is loaded.
    Sleeping,
    /// The tenant's guest is being instantiated and entered in the registry.
    Loading,
    /// The guest's `start` is running.
    Starting,
    /// The guest is asked for its watch requests.
    Querying,
    /// The tenant's supervisors are being spawned.
    Spawning,
    /// The idle reaper is being started.
    Reaping,
    /// Everything runs; the scheduler has nothing left to do.
    Parked,
}

/// How the last action ended.
#[derive(Debug)]
pub enum Outcome {
    /// It was carried out.
    Done,
    /// It failed, for the given reason.
    Failed(String),
    /// The guest returned these watch requests.
    Watches(Vec<WatchRequest>),
}

/// What a list of watch requests holds.
pub open spec fn watch_views(v: Seq<WatchRequest>) -> Seq<WatchRequestView> {
    v.map_values(|w: WatchRequest| w@)
}

/// What an outcome holds.
pub enum OutcomeView {
    Done,
    Failed(Seq<char>),
    Watches(Seq<WatchRequestView>),
}

impl View for Outcome {
    type V = OutcomeView;

    open spec fn view(&self) -> OutcomeView {
        match *self {
            Outcome::Done => OutcomeView::Done,
            Outcome::Failed(m) => OutcomeView::Failed(m@),
            Outcome::Watches(w) => OutcomeView::Watches(watch_views(w@)),
        }
    }
}

/// What the caller is to do next.
#[derive(Debug)]
pub enum SchedulerAction {
    /// Pause for `millis`.
    Sleep { millis: u64 },
    /// Instantiate the guest of `config` and enter it in the registry.
    Load { config: WasmComponentMetadata },
    /// Run the guest's `start`.
    Start { tenant: String },
    /// Ask the guest for its watch requests.
    QueryWatches { tenant: String },
    /// Spawn one supervisor for each of `requests`.
    Supervise { tenant: String, requests: Vec<WatchRequest> },
    /// Start the idle reaper.
    StartReaper,
    /// Nothing is left to do: stay alive.
    Park,
}

/// What an action holds.
pub enum SchedulerActionView {
    Sleep { millis: u64 },
    Load { config: WasmComponentMetadataView },
    Start { tenant: Seq<char> },
    QueryWatches { tenant: Seq<char> },
    Supervise { tenant: Seq<char>, requests: Seq<WatchRequestView> },
    StartReaper,
    Park,
}

impl View for SchedulerAction {
    type V = SchedulerActionView;

    open spec fn view(&self) -> SchedulerActionView {
        match *self {
            SchedulerAction::Sleep { millis } => SchedulerActionView::Sleep { millis },
            SchedulerAction::Load { config } => SchedulerActionView::Load { config: config@ },
            SchedulerAction::Start { tenant } => SchedulerActionView::Start { tenant: tenant@ },
            SchedulerAction::QueryWatches { tenant } => SchedulerActionView::QueryWatches {
                tenant: tenant@,
            },
            SchedulerAction::Supervise { tenant, requests } => SchedulerActionView::Supervise {
                tenant: tenant@,
                requests: watch_views(requests@),
            },
            SchedulerAction::StartReaper => SchedulerActionView::StartReaper,
            SchedulerAction::Park => SchedulerActionView::Park,
        }
    }
}

/// What a list of configurations holds.
pub open spec fn config_views(v: Seq<WasmComponentMetadata>) -> Seq<WasmComponentMetadataView> {
    v.map_values(|c: WasmComponentMetadata| c@)
}

/// The scheduler's state: the tenants to start, the index of the one in
/// hand, and the step it is at.
pub struct SchedulerView {
    pub configs: Seq<WasmComponentMetadataView>,
    pub next: nat,
    pub step: Step,
}

/// Whether the scheduler has a tenant in hand at this step.
pub open spec fn in_hand(step: Step) -> bool {
    step is Sleeping || step is Loading || step is Starting || step is Querying || step
        is Spawning
}

/// Takes up the tenant with index `next`, or, when there is none, goes on to
/// the reaper.
pub open spec fn take_up(s: SchedulerView, next: nat) -> (SchedulerView, SchedulerActionView) {
    if next < s.configs.len() {
        (
            SchedulerView { next, step: Step::Sleeping, ..s },
            SchedulerActionView::Sleep { millis: STAGGER_MS },
        )
    } else {
        (SchedulerView { next, step: Step::Reaping, ..s }, SchedulerActionView::StartReaper)
    }
}

/// The scheduler's next state and action, given how the last action ended.
pub open spec fn step_of(s: SchedulerView, outcome: OutcomeView) -> (
    SchedulerView,
    SchedulerActionView,
) {
    let tenant = s.configs[s.next as int].name;
    match s.step {
        Step::Idle => take_up(s, s.next),
        Step::Sleeping => (
            SchedulerView { step: Step::Loading, ..s },
            SchedulerActionView::Load { config: s.configs[s.next as int] },
        ),
        Step::Loading => if outcome is Failed {
            take_up(s, s.next + 1)
        } else {
            (SchedulerView { step: Step::Starting, ..s }, SchedulerActionView::Start { tenant })
        },
        Step::Starting => if outcome is Failed {
            take_up(s, s.next + 1)
        } else {
            (
                SchedulerView { step: Step::Querying, ..s },
                SchedulerActionView::QueryWatches { tenant },
            )
        },
        Step::Querying => match outcome {
            OutcomeView::Failed(_) => take_up(s, s.next + 1),
            OutcomeView::Watches(requests) => (
                SchedulerView { step: Step::Spawning, ..s },
                SchedulerActionView::Supervise { tenant, requests },
            ),
            OutcomeView::Done => (
                SchedulerView { step: Step::Spawning, ..s },
                SchedulerActionView::Supervise { tenant, requests: Seq::empty() },
            ),
        },
        Step::Spawning => take_up(s, s.next + 1),
        Step::Reaping => (SchedulerView { step: Step::Parked, ..s }, SchedulerActionView::Park),
        Step::Parked => (s, SchedulerActionView::Park),
    }
}

/// A state that the scheduler can be in: while it has a tenant in hand, the
/// tenant's index lies within the list.
pub open spec fn well_formed(s: SchedulerView) -> bool {
    in_hand(s.step) ==> s.next < s.configs.len()
}

/// The scheduler.
pub struct Scheduler {
    configs: Vec<WasmComponentMetadata>,
    next: usize,
    step: Step,
}

impl View for Scheduler {
    type V = SchedulerView;

    closed spec fn view(&self) -> SchedulerView {
        SchedulerView { configs: config_views(self.configs@), next: self.next as nat, step: self.step }
    }
}

impl Scheduler {
    #[verifier::type_invariant]
    spec fn inv(self) -> bool {
        in_hand(self.step) ==> self.next < self.configs.len()
    }

    /// A scheduler that is to start the tenants of `configs`, in this order.
    pub fn new(configs: Vec<WasmComponentMetadata>) -> (s: Self)
        ensures
            s@ == (SchedulerView { configs: config_views(configs@), next: 0, step: Step::Idle }),
    {
        Scheduler { configs, next: 0, step: Step::Idle }
    }

    /// The step at which the scheduler stands.
    pub fn step(&self) -> (step: Step)
        ensures
            step == self@.step,
    {
        self.step
    }

    /// Takes up the tenant with index `next`, or goes on to the reaper.
    fn take_up(&mut self, next: usize) -> (action: SchedulerAction)
        requires
            next <= old(self).configs.len(),
        ensures
            final(self)@ == take_up(old(self)@, next as nat).0,
            action@ == take_up(old(self)@, next as nat).1,
    {
        proof {
            use_type_invariant(&*self);
        }
        if next < self.configs.len() {
            self.step = Step::Idle;
            self.next = next;
            self.step = Step::Sleeping;
            SchedulerAction::Sleep { millis: STAGGER_MS }
        } else {
            self.step = Step::Reaping;
            self.next = next;
            SchedulerAction::StartReaper
        }
    }

    /// Takes the outcome of the last action and answers with the next one.
    /// The first call, which has no action before it, takes any outcome.
    pub fn next(&mut self, outcome: Outcome) -> (action: SchedulerAction)
        ensures
            well_formed(old(self)@),
            well_formed(final(self)@),
            final(self)@ == step_of(old(self)@, outcome@).0,
            action@ == step_of(old(self)@, outcome@).1,
    {
        proof {
            use_type_invariant(&*self);
        }
        match self.step {
            Step::Idle => {
                let next = self.next;
                if next <= self.configs.len() {
                    self.take_up(next)
                } else {
                    self.step = Step::Reaping;
                    SchedulerAction::StartReaper
                }
            },
            Step::Sleeping => {
                self.step = Step::Loading;
                SchedulerAction::Load { config: self.configs[self.next].clone() }
            },
            Step::Loading => match outcome {
                Outcome::Failed(_) => {
                    let next = self.next + 1;
                    self.take_up(next)
                },
                _ => {
                    self.step = Step::Starting;
                    SchedulerAction::Start { tenant: self.configs[self.next].name.clone() }
                },
            },
            Step::Starting => match outcome {
                Outcome::Failed(_) => {
                    let next = self.next + 1;
                    self.take_up(next)
                },
                _ => {
                    self.step = Step::Querying;
                    SchedulerAction::QueryWatches { tenant: self.configs[self.next].name.clone() }
                },
            },
            Step::Querying => match outcome {
                Outcome::Failed(_) => {
                    let next = self.next + 1;
                    self.take_up(next)
                },
                Outcome::Watches(requests) => {
                    self.step = Step::Spawning;
                    SchedulerAction::Supervise {
                        tenant: self.configs[self.next].name.clone(),
                        requests,
                    }
                },
                Outcome::Done => {
                    self.step = Step::Spawning;
                    let requests: Vec<WatchRequest> = Vec::new();
                    assert(watch_views(requests@) =~= Seq::empty());
                    SchedulerAction::Supervise {
                        tenant: self.configs[self.next].name.clone(),
                        requests,
                    }
                },
            },
            Step::Spawning => {
                let next = self.next + 1;
                self.take_up(next)
            },
            Step::Reaping => {
                self.step = Step::Parked;
                SchedulerAction::Park
            },
            Step::Parked => SchedulerAction::Park,
        }
    }
}

/// Cold starts are staggered: a tenant is loaded only as the answer to the
/// end of a pause, and the scheduler pauses only for the stagger delay and
/// only to load, next, the tenant that it has in hand.
pub proof fn cold_starts_are_staggered(s: SchedulerView, outcome: OutcomeView)
    requires
        well_formed(s),
    ensures
        well_formed(step_of(s, outcome).0),
        step_of(s, outcome).1 is Load ==> s.step is Sleeping && step_of(s, outcome).1
            == (SchedulerActionView::Load { config: s.configs[s.next as int] }),
        step_of(s, outcome).0.step is Sleeping <==> step_of(s, outcome).1
            == (SchedulerActionView::Sleep { millis: STAGGER_MS }),
        step_of(s, outcome).0.configs == s.configs,
        step_of(s, outcome).0.next >= s.next,
{
}

/// Every tenant gets as many supervisors as its guest asked for and no
/// other: the requests to supervise are exactly those that the guest
/// returned, for the tenant in hand; a guest that returned none gets none.
pub proof fn supervisors_follow_the_requests(s: SchedulerView, outcome: OutcomeView)
    requires
        well_formed(s),
    ensures
        step_of(s, outcome).1 matches SchedulerActionView::Supervise { tenant, requests } ==> {
            &&& s.step is Querying
            &&& tenant == s.configs[s.next as int].name
            &&& requests == (match outcome {
                OutcomeView::Watches(asked) => asked,
                _ => Seq::empty(),
            })
        },
{
}

} // verus!
