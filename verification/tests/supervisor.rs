use operator_host::clock::WATCH_BACKOFF_MS;
use operator_host::supervisor::{
    reconcile_request, unwrap_or_empty, EventKind, ReconcileRequest, StartAction,
    SupervisorAction, WatchEvent, WatchItem, WatchRequest, WatchSupervisor, WatchedObject,
};

fn ring(name: &str, namespace: &str) -> WatchedObject {
    WatchedObject {
        name: Some(name.to_string()),
        namespace: Some(namespace.to_string()),
        json: Ok(format!(
            "{{\"metadata\":{{\"name\":\"{}\",\"namespace\":\"{}\"}}}}",
            name, namespace
        )),
    }
}

fn watching() -> WatchSupervisor {
    let mut supervisor = WatchSupervisor::new(
        "t1".to_string(),
        WatchRequest { kind: "Ring".to_string(), namespace: "ns-a".to_string() },
    );
    assert!(matches!(supervisor.start(Ok(())), StartAction::Watch));
    supervisor
}

fn dispatched(action: SupervisorAction) -> ReconcileRequest {
    match action {
        SupervisorAction::Dispatch(request) => request,
        other => panic!("unexpected action {:?}", other),
    }
}

#[test]
fn new_supervisor_is_not_watching() {
    let supervisor = WatchSupervisor::new(
        "t1".to_string(),
        WatchRequest { kind: "Ring".to_string(), namespace: "ns-a".to_string() },
    );
    assert!(!supervisor.is_watching());
    assert_eq!(supervisor.tenant_id(), "t1");
    assert_eq!(supervisor.watch_request().kind, "Ring");
    assert_eq!(supervisor.watch_request().namespace, "ns-a");
    assert!(matches!(supervisor.on_item(WatchItem::Closed), SupervisorAction::Stop));
    assert!(matches!(
        supervisor.on_item(WatchItem::Event(WatchEvent::Apply(ring("r1", "ns-a")))),
        SupervisorAction::Stop
    ));
}

#[test]
fn unknown_kind_ends_the_supervisor() {
    let mut supervisor = WatchSupervisor::new(
        "t1".to_string(),
        WatchRequest { kind: "Rong".to_string(), namespace: "ns-a".to_string() },
    );
    match supervisor.start(Err("Kind 'Rong' not found in discovered API resources".to_string()))
    {
        StartAction::GiveUp(message) => assert_eq!(
            message,
            "Failed to find API resource for kind 'Rong': Kind 'Rong' not found in discovered API resources"
        ),
        other => panic!("unexpected action {:?}", other),
    }
    assert!(!supervisor.is_watching());
    assert!(matches!(supervisor.on_item(WatchItem::Closed), SupervisorAction::Stop));
}

#[test]
fn apply_is_reconciled_as_added() {
    let supervisor = watching();
    assert!(supervisor.is_watching());
    let request =
        dispatched(supervisor.on_item(WatchItem::Event(WatchEvent::Apply(ring("r1", "ns-a")))));
    assert_eq!(request.event_kind, EventKind::Added);
    assert_eq!(request.name, "r1");
    assert_eq!(request.namespace, "ns-a");
    assert_eq!(request.resource_json, "{\"metadata\":{\"name\":\"r1\",\"namespace\":\"ns-a\"}}");
}

#[test]
fn init_apply_is_reconciled_as_added() {
    let supervisor = watching();
    let request = dispatched(
        supervisor.on_item(WatchItem::Event(WatchEvent::InitApply(ring("r2", "ns-a")))),
    );
    assert_eq!(request.event_kind, EventKind::Added);
    assert_eq!(request.name, "r2");
}

#[test]
fn delete_is_reconciled_as_deleted() {
    let supervisor = watching();
    let request =
        dispatched(supervisor.on_item(WatchItem::Event(WatchEvent::Delete(ring("r3", "ns-a")))));
    assert_eq!(request.event_kind, EventKind::Deleted);
    assert_eq!(request.name, "r3");
}

#[test]
fn init_markers_are_ignored() {
    let supervisor = watching();
    assert!(matches!(
        supervisor.on_item(WatchItem::Event(WatchEvent::Init)),
        SupervisorAction::Ignore
    ));
    assert!(matches!(
        supervisor.on_item(WatchItem::Event(WatchEvent::InitDone)),
        SupervisorAction::Ignore
    ));
}

#[test]
fn missing_name_and_namespace_become_empty() {
    let supervisor = watching();
    let object = WatchedObject { name: None, namespace: None, json: Ok("{}".to_string()) };
    let request = dispatched(supervisor.on_item(WatchItem::Event(WatchEvent::Apply(object))));
    assert_eq!(request.name, "");
    assert_eq!(request.namespace, "");
    assert_eq!(request.resource_json, "{}");
    assert_eq!(unwrap_or_empty(None), "");
    assert_eq!(unwrap_or_empty(Some("x".to_string())), "x");
}

#[test]
fn object_that_cannot_be_serialized_is_reported_not_dispatched() {
    let supervisor = watching();
    let object = WatchedObject {
        name: Some("r1".to_string()),
        namespace: Some("ns-a".to_string()),
        json: Err("key must be a string".to_string()),
    };
    match supervisor.on_item(WatchItem::Event(WatchEvent::Apply(object))) {
        SupervisorAction::Report(message) => {
            assert_eq!(message, "Failed to serialize resource to JSON: key must be a string")
        }
        other => panic!("unexpected action {:?}", other),
    }
    let again = WatchedObject { name: None, namespace: None, json: Err("e".to_string()) };
    match reconcile_request(EventKind::Deleted, again) {
        Err(message) => assert_eq!(message, "Failed to serialize resource to JSON: e"),
        Ok(request) => panic!("unexpected request {:?}", request),
    }
}

#[test]
fn watch_failure_is_reported_and_the_watch_goes_on() {
    let supervisor = watching();
    match supervisor.on_item(WatchItem::Failure("connection reset".to_string())) {
        SupervisorAction::Report(message) => assert_eq!(
            message,
            "Watcher for kind 'Ring' in namespace 'ns-a' encountered an error: connection reset"
        ),
        other => panic!("unexpected action {:?}", other),
    }
    assert!(supervisor.is_watching());
    let request =
        dispatched(supervisor.on_item(WatchItem::Event(WatchEvent::Apply(ring("r1", "ns-a")))));
    assert_eq!(request.name, "r1");
}

#[test]
fn closed_stream_restarts_after_one_backoff() {
    let supervisor = watching();
    match supervisor.on_item(WatchItem::Closed) {
        SupervisorAction::Restart { after_ms } => {
            assert_eq!(after_ms, WATCH_BACKOFF_MS);
            assert_eq!(after_ms, 1_000);
        }
        other => panic!("unexpected action {:?}", other),
    }
    assert!(supervisor.is_watching());
}

#[test]
fn reconciles_follow_the_order_of_the_watch() {
    let supervisor = watching();
    let items = vec![
        WatchItem::Event(WatchEvent::Init),
        WatchItem::Event(WatchEvent::InitApply(ring("a", "ns-a"))),
        WatchItem::Event(WatchEvent::InitApply(ring("b", "ns-a"))),
        WatchItem::Event(WatchEvent::InitDone),
        WatchItem::Failure("hiccup".to_string()),
        WatchItem::Event(WatchEvent::Apply(ring("a", "ns-a"))),
        WatchItem::Event(WatchEvent::Delete(ring("b", "ns-a"))),
        WatchItem::Closed,
        WatchItem::Event(WatchEvent::Apply(ring("c", "ns-a"))),
    ];
    let mut delivered = Vec::new();
    for item in items {
        if let SupervisorAction::Dispatch(request) = supervisor.on_item(item) {
            delivered.push((request.event_kind, request.name));
        }
    }
    assert_eq!(
        delivered,
        vec![
            (EventKind::Added, "a".to_string()),
            (EventKind::Added, "b".to_string()),
            (EventKind::Added, "a".to_string()),
            (EventKind::Deleted, "b".to_string()),
            (EventKind::Added, "c".to_string()),
        ]
    );
}

#[test]
fn failed_reconcile_is_logged_and_not_retried() {
    let supervisor = watching();
    assert!(supervisor.on_reconciled(Ok(())).is_none());
    assert_eq!(
        supervisor.on_reconciled(Err("guest trapped".to_string())),
        Some("Reconciliation for operator 't1' failed: guest trapped".to_string())
    );
    let request =
        dispatched(supervisor.on_item(WatchItem::Event(WatchEvent::Apply(ring("r1", "ns-a")))));
    assert_eq!(request.name, "r1");
}

#[test]
fn watch_request_clone_keeps_its_fields() {
    let request = WatchRequest { kind: "Ring".to_string(), namespace: "ns-a".to_string() };
    let copy = request.clone();
    assert_eq!(copy.kind, "Ring");
    assert_eq!(copy.namespace, "ns-a");
}
