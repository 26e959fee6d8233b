use qervon::events::{EventEnvelope, InMemoryEventBus};
use qervon::runtime::{
    FoundationRuntime, ModuleManifest, PolicyDefinition, RuleDefinition, WorkflowDefinition,
    WorkflowTransition,
};
use uuid::Uuid;

fn s(x: &str) -> String {
    x.to_string()
}

fn delivery_workflow() -> WorkflowDefinition {
    WorkflowDefinition {
        id: s("delivery"),
        states: vec![s("created"), s("picked"), s("delivered")],
        transitions: vec![
            WorkflowTransition { from: s("created"), to: s("picked"), event: s("pickup") },
            WorkflowTransition { from: s("picked"), to: s("delivered"), event: s("drop") },
            WorkflowTransition { from: s("picked"), to: s("created"), event: s("drop") },
        ],
    }
}

#[test]
fn workflow_instance_starts_in_first_state_and_follows_transitions() {
    let mut rt = FoundationRuntime::new();
    rt.register_workflow(delivery_workflow());
    let aggregate = Uuid::now_v7().as_u128();
    let inst = rt.start_workflow_instance("delivery", aggregate).expect("started");
    assert_eq!(inst.current_state, "created");
    assert_eq!(inst.aggregate_id, aggregate);
    assert_eq!(inst.workflow_id, "delivery");

    assert!(rt.transition_workflow_instance(inst.id, "drop").is_none());
    let moved = rt.transition_workflow_instance(inst.id, "pickup").expect("pickup");
    assert_eq!(moved.current_state, "picked");
    let done = rt.transition_workflow_instance(inst.id, "drop").expect("drop");
    assert_eq!(done.current_state, "delivered");
    assert!(rt.transition_workflow_instance(inst.id, "drop").is_none());

    let snap = rt.snapshot();
    assert_eq!(snap.workflow_instances.len(), 1);
    assert_eq!(snap.workflow_instances[0].current_state, "delivered");
}

#[test]
fn unknown_or_empty_workflows_do_not_start() {
    let mut rt = FoundationRuntime::new();
    assert!(rt.start_workflow_instance("missing", 1).is_none());
    rt.register_workflow(WorkflowDefinition { id: s("empty"), states: vec![], transitions: vec![] });
    assert!(rt.start_workflow_instance("empty", 1).is_none());
    assert!(rt.transition_workflow_instance(12345, "go").is_none());
    assert_eq!(rt.snapshot().workflow_instances.len(), 0);
}

#[test]
fn registries_replace_entries_with_the_same_id() {
    let mut rt = FoundationRuntime::new();
    rt.register_module(ModuleManifest { id: s("billing"), version: s("1"), capabilities: vec![s("invoice")] });
    rt.register_module(ModuleManifest { id: s("dispatch"), version: s("1"), capabilities: vec![] });
    rt.register_module(ModuleManifest { id: s("billing"), version: s("2"), capabilities: vec![] });
    rt.register_rule(RuleDefinition { id: s("r1"), version: 1, expression: s("x > 1") });
    rt.register_policy(PolicyDefinition { id: s("p1"), tenant_id: 9, allowed_rule_ids: vec![s("r1")] });
    let snap = rt.snapshot();
    assert_eq!(snap.modules.len(), 2);
    let billing = snap.modules.iter().find(|m| m.id == "billing").unwrap();
    assert_eq!(billing.version, "2");
    assert_eq!(snap.rules.len(), 1);
    assert_eq!(snap.policies[0].allowed_rule_ids, vec![s("r1")]);
    assert_eq!(snap.event_log_size, 0);
}

#[test]
fn published_events_are_counted() {
    let mut rt = FoundationRuntime::new();
    let a = rt.publish_event("order.created", serde_json::Value::Null);
    let b = rt.publish_event("order.created", serde_json::Value::Bool(true));
    assert_ne!(a, b);
    assert_eq!(rt.snapshot().event_log_size, 2);
}

#[test]
fn in_memory_bus_stores_events() {
    let mut bus = InMemoryEventBus::new();
    assert!(bus.is_empty());
    let envelope = EventEnvelope::new(
        "courier.assigned",
        Uuid::now_v7().as_u128(),
        "order",
        0,
        serde_json::Value::String("payload".into()),
    );
    bus.publish(&envelope).expect("publish");
    assert_eq!(bus.len(), 1);
    assert_eq!(bus.events()[0].event_type, "courier.assigned");
    assert_eq!(bus.events()[0].payload, envelope.payload);
    assert_eq!(bus.events()[0].id, envelope.id);
}
