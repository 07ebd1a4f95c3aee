use operator_host::clock::STAGGER_MS;
use operator_host::config::WasmComponentMetadata;
use operator_host::scheduler::{Outcome, Scheduler, SchedulerAction, Step};
use operator_host::supervisor::WatchRequest;

fn config(name: &str) -> WasmComponentMetadata {
    WasmComponentMetadata {
        name: name.to_string(),
        wasm: format!("{}.wasm", name),
        env: Vec::new(),
        args: Vec::new(),
    }
}

fn watch(kind: &str, namespace: &str) -> WatchRequest {
    WatchRequest { kind: kind.to_string(), namespace: namespace.to_string() }
}

#[test]
fn scheduler_without_tenants_starts_the_reaper_and_parks() {
    let mut scheduler = Scheduler::new(Vec::new());
    assert!(matches!(scheduler.step(), Step::Idle));
    assert!(matches!(scheduler.next(Outcome::Done), SchedulerAction::StartReaper));
    assert!(matches!(scheduler.step(), Step::Reaping));
    assert!(matches!(scheduler.next(Outcome::Done), SchedulerAction::Park));
    assert!(matches!(scheduler.step(), Step::Parked));
    assert!(matches!(scheduler.next(Outcome::Done), SchedulerAction::Park));
    assert!(matches!(scheduler.next(Outcome::Failed("x".to_string())), SchedulerAction::Park));
    assert!(matches!(scheduler.step(), Step::Parked));
}

#[test]
fn cold_start_of_one_tenant() {
    let mut scheduler = Scheduler::new(vec![config("t1")]);
    match scheduler.next(Outcome::Done) {
        SchedulerAction::Sleep { millis } => assert_eq!(millis, 125),
        other => panic!("unexpected action {:?}", other),
    }
    match scheduler.next(Outcome::Done) {
        SchedulerAction::Load { config } => {
            assert_eq!(config.name, "t1");
            assert_eq!(config.wasm, "t1.wasm");
        }
        other => panic!("unexpected action {:?}", other),
    }
    match scheduler.next(Outcome::Done) {
        SchedulerAction::Start { tenant } => assert_eq!(tenant, "t1"),
        other => panic!("unexpected action {:?}", other),
    }
    match scheduler.next(Outcome::Done) {
        SchedulerAction::QueryWatches { tenant } => assert_eq!(tenant, "t1"),
        other => panic!("unexpected action {:?}", other),
    }
    match scheduler.next(Outcome::Watches(vec![watch("Ring", "ns-a")])) {
        SchedulerAction::Supervise { tenant, requests } => {
            assert_eq!(tenant, "t1");
            assert_eq!(requests.len(), 1);
            assert_eq!(requests[0].kind, "Ring");
            assert_eq!(requests[0].namespace, "ns-a");
        }
        other => panic!("unexpected action {:?}", other),
    }
    assert!(matches!(scheduler.next(Outcome::Done), SchedulerAction::StartReaper));
    assert!(matches!(scheduler.next(Outcome::Done), SchedulerAction::Park));
}

#[test]
fn zero_watch_requests_spawn_no_supervisor() {
    let mut scheduler = Scheduler::new(vec![config("t1")]);
    let _ = scheduler.next(Outcome::Done);
    let _ = scheduler.next(Outcome::Done);
    let _ = scheduler.next(Outcome::Done);
    let _ = scheduler.next(Outcome::Done);
    match scheduler.next(Outcome::Watches(Vec::new())) {
        SchedulerAction::Supervise { tenant, requests } => {
            assert_eq!(tenant, "t1");
            assert!(requests.is_empty());
        }
        other => panic!("unexpected action {:?}", other),
    }
    assert!(matches!(scheduler.next(Outcome::Done), SchedulerAction::StartReaper));
}

#[test]
fn eight_tenants_are_each_loaded_after_the_stagger_delay() {
    let names = ["a", "b", "c", "d", "e", "f", "g", "h"];
    let mut scheduler = Scheduler::new(names.iter().map(|n| config(n)).collect());
    let mut clock: u64 = 0;
    let mut loads: Vec<(String, u64)> = Vec::new();
    let mut outcome = Outcome::Done;
    loop {
        match scheduler.next(outcome) {
            SchedulerAction::Sleep { millis } => {
                assert_eq!(millis, STAGGER_MS);
                clock += millis;
                outcome = Outcome::Done;
            }
            SchedulerAction::Load { config } => {
                loads.push((config.name, clock));
                outcome = Outcome::Done;
            }
            SchedulerAction::QueryWatches { .. } => {
                outcome = Outcome::Watches(vec![watch("Ring", "ns-a")]);
            }
            SchedulerAction::StartReaper => break,
            SchedulerAction::Park => panic!("parked before the reaper was started"),
            _ => outcome = Outcome::Done,
        }
    }
    assert_eq!(loads.len(), 8);
    for (i, (name, at)) in loads.iter().enumerate() {
        assert_eq!(name, names[i]);
        assert_eq!(*at, 125 * (i as u64 + 1));
    }
    for pair in loads.windows(2) {
        assert!(pair[1].1 - pair[0].1 >= STAGGER_MS);
    }
}

#[test]
fn tenant_that_fails_to_load_is_passed_over() {
    let mut scheduler = Scheduler::new(vec![config("bad"), config("good")]);
    assert!(matches!(scheduler.next(Outcome::Done), SchedulerAction::Sleep { millis: 125 }));
    assert!(matches!(scheduler.next(Outcome::Done), SchedulerAction::Load { .. }));
    assert!(matches!(
        scheduler.next(Outcome::Failed("no such file".to_string())),
        SchedulerAction::Sleep { millis: 125 }
    ));
    match scheduler.next(Outcome::Done) {
        SchedulerAction::Load { config } => assert_eq!(config.name, "good"),
        other => panic!("unexpected action {:?}", other),
    }
}

#[test]
fn tenant_whose_start_or_query_fails_gets_no_supervisor() {
    let mut scheduler = Scheduler::new(vec![config("t1"), config("t2")]);
    let _ = scheduler.next(Outcome::Done);
    let _ = scheduler.next(Outcome::Done);
    assert!(matches!(scheduler.next(Outcome::Done), SchedulerAction::Start { .. }));
    assert!(matches!(
        scheduler.next(Outcome::Failed("trap".to_string())),
        SchedulerAction::Sleep { millis: 125 }
    ));
    assert!(matches!(scheduler.next(Outcome::Done), SchedulerAction::Load { .. }));
    assert!(matches!(scheduler.next(Outcome::Done), SchedulerAction::Start { .. }));
    assert!(matches!(scheduler.next(Outcome::Done), SchedulerAction::QueryWatches { .. }));
    assert!(matches!(
        scheduler.next(Outcome::Failed("trap".to_string())),
        SchedulerAction::StartReaper
    ));
}

#[test]
fn query_that_ends_without_requests_counts_as_none() {
    let mut scheduler = Scheduler::new(vec![config("t1")]);
    let _ = scheduler.next(Outcome::Done);
    let _ = scheduler.next(Outcome::Done);
    let _ = scheduler.next(Outcome::Done);
    assert!(matches!(scheduler.next(Outcome::Done), SchedulerAction::QueryWatches { .. }));
    assert!(matches!(scheduler.step(), Step::Querying));
    match scheduler.next(Outcome::Done) {
        SchedulerAction::Supervise { requests, .. } => assert!(requests.is_empty()),
        other => panic!("unexpected action {:?}", other),
    }
    assert!(matches!(scheduler.step(), Step::Spawning));
}

#[test]
fn outcome_that_does_not_fit_the_step_counts_as_done() {
    let mut scheduler = Scheduler::new(vec![config("t1")]);
    assert!(matches!(
        scheduler.next(Outcome::Failed("nothing was asked yet".to_string())),
        SchedulerAction::Sleep { millis: 125 }
    ));
    assert!(matches!(
        scheduler.next(Outcome::Failed("a pause cannot fail".to_string())),
        SchedulerAction::Load { .. }
    ));
    assert!(matches!(
        scheduler.next(Outcome::Watches(vec![watch("Ring", "ns-a")])),
        SchedulerAction::Start { .. }
    ));
    assert!(matches!(
        scheduler.next(Outcome::Watches(Vec::new())),
        SchedulerAction::QueryWatches { .. }
    ));
    assert!(matches!(
        scheduler.next(Outcome::Watches(vec![watch("Ring", "ns-a")])),
        SchedulerAction::Supervise { .. }
    ));
    assert!(matches!(
        scheduler.next(Outcome::Failed("spawned all the same".to_string())),
        SchedulerAction::StartReaper
    ));
    assert!(matches!(
        scheduler.next(Outcome::Failed("started all the same".to_string())),
        SchedulerAction::Park
    ));
}
