use eve::plan::{
    conversation_identity, derive_wire_plan, valid_id, valid_sha256, EvePlan, PlanError, PreparedPlan,
    WireOperation, COMPACT_WIRE_FORMAT, PLAN_FORMAT,
};
use eve::{Conversation, FailureDefinition, GlobalState, Module, Role, StrMap, TypeDefinition};
use std::sync::Arc;

fn map(pairs: &[(&str, &str)]) -> StrMap {
    let mut m = StrMap::new();
    for (k, v) in pairs {
        m.insert(k.to_string(), v.to_string());
    }
    m
}

fn role(id: &str) -> Role {
    Role { id: id.to_string(), placement: Vec::new(), capabilities: Vec::new() }
}

fn record_type(id: &str) -> TypeDefinition {
    TypeDefinition { id: id.to_string(), definition: map(&[("kind", "\"record\"")]) }
}

fn failure(id: &str) -> FailureDefinition {
    FailureDefinition { id: id.to_string(), description: None, retryable: false }
}

fn failures() -> StrMap {
    map(&[
        ("transport.closed", "transport-failed"),
        ("transport.timeout", "transport-timeout"),
        ("transport.uncertain", "transport-uncertain"),
    ])
}

/// The request/stream/cancel generation conversation.
fn conversation() -> Conversation {
    Conversation {
        schema: Some("../spec/eve-conversation-v0.schema.json".to_string()),
        eve_conversation: "0.1.0".to_string(),
        module: Module { id: "example.generate".to_string(), semantic_version: Some("0.1.0".to_string()) },
        roles: vec![role("client"), role("server")],
        types: vec![record_type("prompt"), record_type("token")],
        failures: vec![failure("transport.closed"), failure("transport.timeout"), failure("transport.uncertain")],
        initial: "start".to_string(),
        states: vec![
            GlobalState::Send {
                id: "start".to_string(),
                from: "client".to_string(),
                to: "server".to_string(),
                message: "prompt".to_string(),
                next: "decide".to_string(),
                deadline: None,
                on_failure: failures(),
            },
            GlobalState::Choice {
                id: "decide".to_string(),
                chooser: "server".to_string(),
                branches: map(&[("token", "emit"), ("done", "end")]),
                on_failure: failures(),
            },
            GlobalState::Send {
                id: "emit".to_string(),
                from: "server".to_string(),
                to: "client".to_string(),
                message: "token".to_string(),
                next: "review".to_string(),
                deadline: None,
                on_failure: failures(),
            },
            GlobalState::Choice {
                id: "review".to_string(),
                chooser: "client".to_string(),
                branches: map(&[("continue", "decide"), ("cancel", "cancel")]),
                on_failure: failures(),
            },
            GlobalState::Cancel {
                id: "cancel".to_string(),
                from: "client".to_string(),
                to: "server".to_string(),
                scope: "generation".to_string(),
                next: "end".to_string(),
                on_failure: failures(),
            },
            GlobalState::End { id: "end".to_string() },
            GlobalState::Fail { id: "transport-failed".to_string(), failure: "transport.closed".to_string() },
            GlobalState::Fail { id: "transport-timeout".to_string(), failure: "transport.timeout".to_string() },
            GlobalState::Fail { id: "transport-uncertain".to_string(), failure: "transport.uncertain".to_string() },
        ],
        annotations: StrMap::new(),
    }
}

#[test]
fn compiled_plan_round_trips_and_verifies() {
    let plan = EvePlan::compile(&conversation()).unwrap();
    let decoded = plan.clone();
    decoded.verify().unwrap();
    let prepared = decoded.prepare().unwrap();
    assert_eq!(decoded.plan_identity, plan.plan_identity);
    assert_eq!(decoded.endpoints.len(), 2);
    assert_eq!(prepared.plan_identity(), plan.plan_identity);
    assert!(Arc::ptr_eq(&decoded.endpoints[0], &prepared.endpoints()[0]));
}

#[test]
fn plan_identity_rejects_tampering() {
    let mut plan = EvePlan::compile(&conversation()).unwrap();
    Arc::make_mut(&mut plan.endpoints[0]).initial = "end".to_string();
    let error = plan.verify().unwrap_err();
    assert!(matches!(error, PlanError::IdentityMismatch { .. }));
}

#[test]
fn plan_identity_is_stable_across_projection_metadata() {
    let unedited = conversation();
    let mut edited = unedited.clone();
    edited.schema = Some("different/schema.json".to_string());
    edited.annotations.insert("editor".to_string(), "\"human\"".to_string());
    assert_eq!(
        EvePlan::compile(&unedited).unwrap().plan_identity,
        EvePlan::compile(&edited).unwrap().plan_identity
    );
}

#[test]
fn compact_transition_ids_are_deterministic_and_dense() {
    let first = EvePlan::compile(&conversation()).unwrap();
    let second = EvePlan::compile(&conversation()).unwrap();
    let first_wire = first.wire.as_ref().unwrap();
    assert_eq!(first_wire, second.wire.as_ref().unwrap());
    assert_eq!(first_wire.encoding, COMPACT_WIRE_FORMAT);
    assert_eq!(first_wire.transitions.len(), 7);
    assert_eq!(
        first_wire.transitions.iter().map(|transition| transition.id).collect::<Vec<_>>(),
        (1..=7).collect::<Vec<_>>()
    );
}

#[test]
fn prepared_legacy_plan_derives_the_compact_dictionary() {
    let mut legacy = EvePlan::compile(&conversation()).unwrap();
    legacy.wire = None;
    legacy.plan_identity = legacy.calculate_identity().unwrap();
    legacy.verify().unwrap();
    let prepared = legacy.prepare().unwrap();
    assert_eq!(prepared.wire_plan().encoding, COMPACT_WIRE_FORMAT);
    assert_eq!(prepared.wire_plan().transitions.len(), 7);
}

#[test]
fn compact_dictionary_rejects_a_recalculated_noncanonical_table() {
    let mut plan = EvePlan::compile(&conversation()).unwrap();
    plan.wire.as_mut().unwrap().transitions.swap(0, 1);
    plan.plan_identity = plan.calculate_identity().unwrap();
    let error = plan.verify().unwrap_err();
    assert!(matches!(error, PlanError::Invalid(_)));
}

#[test]
fn transition_seven_is_the_prompt() {
    let plan = EvePlan::compile(&conversation()).unwrap();
    let wire = plan.wire.unwrap();
    let t = &wire.transitions[6];
    assert_eq!(t.id, 7);
    assert_eq!(t.state, "start");
    assert_eq!(
        t.operation,
        WireOperation::Data { from: "client".to_string(), to: "server".to_string(), message: "prompt".to_string() }
    );
    assert_eq!(wire.transitions[0].state, "cancel");
    assert_eq!(
        wire.transitions[1].operation,
        WireOperation::Select { by: "server".to_string(), label: "done".to_string() }
    );
}

#[test]
fn compiled_plan_records_its_identities_and_sorted_endpoints() {
    let c = conversation();
    let plan = EvePlan::compile(&c).unwrap();
    assert_eq!(plan.eve_plan, PLAN_FORMAT);
    assert_eq!(plan.conversation, "example.generate");
    assert_eq!(plan.conversation_identity, conversation_identity(&c).unwrap());
    assert_eq!(plan.endpoints[0].role, "client");
    assert_eq!(plan.endpoints[1].role, "server");
    assert!(valid_sha256(&plan.plan_identity));
    assert_eq!(plan.plan_identity, plan.calculate_identity().unwrap());
    assert_eq!(plan.endpoint("server").unwrap().role, "server");
    assert!(plan.endpoint("auditor").is_none());
    assert_eq!(derive_wire_plan(&plan.endpoints).unwrap(), plan.wire.clone().unwrap());
}

#[test]
fn invalid_conversation_does_not_compile() {
    let mut invalid = conversation();
    invalid.initial = "nowhere".to_string();
    match EvePlan::compile(&invalid).unwrap_err() {
        PlanError::InvalidConversation(errors) => assert_eq!(errors.diagnostics[0].code, "EVE0005"),
        other => panic!("unexpected error {other:?}"),
    }
    assert!(matches!(PreparedPlan::compile(&invalid), Err(PlanError::InvalidConversation(_))));
    assert!(matches!(conversation_identity(&invalid), Err(PlanError::InvalidConversation(_))));
}

#[test]
fn uppercase_state_ids_validate_but_do_not_compile() {
    let mut c = conversation();
    if let GlobalState::Fail { id, .. } = &mut c.states[8] {
        *id = "Transport-Uncertain".to_string();
    }
    for state in c.states.iter_mut() {
        let edges = match state {
            GlobalState::Send { on_failure, .. } | GlobalState::Choice { on_failure, .. } | GlobalState::Cancel { on_failure, .. } => on_failure,
            _ => continue,
        };
        edges.insert("transport.uncertain".to_string(), "Transport-Uncertain".to_string());
    }
    eve::validate(&c).unwrap();
    match EvePlan::compile(&c).unwrap_err() {
        PlanError::Invalid(message) => {
            assert_eq!(message, "endpoint client contains invalid state ID Transport-Uncertain")
        }
        other => panic!("unexpected error {other:?}"),
    }
}

#[test]
fn verify_reports_version_and_shape_errors() {
    let plan = EvePlan::compile(&conversation()).unwrap();
    let mut old = plan.clone();
    old.eve_plan = "0.0.9".to_string();
    assert!(matches!(old.verify(), Err(PlanError::Version { ref actual, expected }) if actual == "0.0.9" && expected == PLAN_FORMAT));
    let mut bad_identity = plan.clone();
    bad_identity.conversation_identity = "sha256:ABC".to_string();
    assert!(matches!(bad_identity.verify(), Err(PlanError::Invalid(ref m)) if m == "conversation or conversation_identity has an invalid representation"));
    let mut one = plan.clone();
    one.endpoints.pop();
    assert!(matches!(one.verify(), Err(PlanError::Invalid(ref m)) if m == "Eve Plan v0 requires exactly two endpoints"));
    let mut twins = plan.clone();
    twins.endpoints[1] = twins.endpoints[0].clone();
    assert!(matches!(twins.verify(), Err(PlanError::Invalid(ref m)) if m == "endpoint roles must be unique"));
    let mut elsewhere = plan.clone();
    Arc::make_mut(&mut elsewhere.endpoints[1]).conversation = "other".to_string();
    assert!(matches!(elsewhere.verify(), Err(PlanError::Invalid(ref m)) if m == "endpoint server names conversation other; expected example.generate"));
}

#[test]
fn id_and_digest_syntax() {
    assert!(valid_id("transport-failed"));
    assert!(valid_id("a.b_c-9"));
    assert!(!valid_id(""));
    assert!(!valid_id("9lives"));
    assert!(!valid_id("Start"));
    assert!(!valid_id("start state"));
    let digest = format!("sha256:{}", "0123456789abcdef".repeat(4));
    assert!(valid_sha256(&digest));
    assert!(!valid_sha256(&digest.to_uppercase()));
    assert!(!valid_sha256(&digest[..70]));
    assert!(!valid_sha256(&digest.replace("sha256:", "sha512:")));
}

#[test]
fn conversation_identity_is_a_sha256_digest() {
    let id = conversation_identity(&conversation()).unwrap();
    assert!(id.starts_with("sha256:"));
    assert_eq!(id.len(), 71);
    assert!(valid_sha256(&id));
}
