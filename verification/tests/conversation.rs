use eve::{
    describe_frame, project, validate, verify_trace, Conversation, EndpointState, FailureDefinition,
    Frame, GlobalState, Module, Role, StrMap, TraceFailure, TypeDefinition,
};

fn map(pairs: &[(&str, &str)]) -> StrMap {
    let mut m = StrMap::new();
    for (k, v) in pairs {
        m.insert(k.to_string(), v.to_string());
    }
    m
}

fn role(id: &str) -> Role {
    Role { id: id.to_string(), placement: Vec::new(), capabilities: Vec::new() }
}

fn record_type(id: &str) -> TypeDefinition {
    TypeDefinition { id: id.to_string(), definition: map(&[("kind", "\"record\"")]) }
}

fn failure(id: &str) -> FailureDefinition {
    FailureDefinition { id: id.to_string(), description: None, retryable: false }
}

fn failures() -> StrMap {
    map(&[
        ("transport.closed", "transport-failed"),
        ("transport.timeout", "transport-timeout"),
        ("transport.uncertain", "transport-uncertain"),
    ])
}

/// The request/stream/cancel generation conversation.
fn conversation() -> Conversation {
    Conversation {
        schema: Some("../spec/eve-conversation-v0.schema.json".to_string()),
        eve_conversation: "0.1.0".to_string(),
        module: Module { id: "example.generate".to_string(), semantic_version: Some("0.1.0".to_string()) },
        roles: vec![role("client"), role("server")],
        types: vec![record_type("prompt"), record_type("token")],
        failures: vec![failure("transport.closed"), failure("transport.timeout"), failure("transport.uncertain")],
        initial: "start".to_string(),
        states: vec![
            GlobalState::Send {
                id: "start".to_string(),
                from: "client".to_string(),
                to: "server".to_string(),
                message: "prompt".to_string(),
                next: "decide".to_string(),
                deadline: None,
                on_failure: failures(),
            },
            GlobalState::Choice {
                id: "decide".to_string(),
                chooser: "server".to_string(),
                branches: map(&[("token", "emit"), ("done", "end")]),
                on_failure: failures(),
            },
            GlobalState::Send {
                id: "emit".to_string(),
                from: "server".to_string(),
                to: "client".to_string(),
                message: "token".to_string(),
                next: "review".to_string(),
                deadline: None,
                on_failure: failures(),
            },
            GlobalState::Choice {
                id: "review".to_string(),
                chooser: "client".to_string(),
                branches: map(&[("continue", "decide"), ("cancel", "cancel")]),
                on_failure: failures(),
            },
            GlobalState::Cancel {
                id: "cancel".to_string(),
                from: "client".to_string(),
                to: "server".to_string(),
                scope: "generation".to_string(),
                next: "end".to_string(),
                on_failure: failures(),
            },
            GlobalState::End { id: "end".to_string() },
            GlobalState::Fail { id: "transport-failed".to_string(), failure: "transport.closed".to_string() },
            GlobalState::Fail { id: "transport-timeout".to_string(), failure: "transport.timeout".to_string() },
            GlobalState::Fail { id: "transport-uncertain".to_string(), failure: "transport.uncertain".to_string() },
        ],
        annotations: StrMap::new(),
    }
}

fn data(from: &str, to: &str, message: &str, payload: Option<&str>) -> Frame {
    Frame::Data {
        from: from.to_string(),
        to: to.to_string(),
        message: message.to_string(),
        payload: payload.map(str::to_string),
    }
}

fn select(by: &str, label: &str) -> Frame {
    Frame::Select { by: by.to_string(), label: label.to_string() }
}

#[test]
fn example_is_valid() {
    validate(&conversation()).unwrap();
}

#[test]
fn projects_dual_endpoint_actions() {
    let endpoints = project(&conversation()).unwrap();
    let client = endpoints.iter().find(|item| item.role == "client").unwrap();
    let server = endpoints.iter().find(|item| item.role == "server").unwrap();

    assert!(matches!(
        &client.states[0],
        EndpointState::Send { to, message, .. }
            if to == "server" && message == "prompt"
    ));
    assert!(matches!(
        &server.states[0],
        EndpointState::Receive { from, message, .. }
            if from == "client" && message == "prompt"
    ));
    assert!(matches!(&server.states[1], EndpointState::Select { .. }));
    assert!(matches!(&client.states[1], EndpointState::Branch { .. }));
}

#[test]
fn accepts_complete_conversation_trace() {
    let frames = vec![
        data("client", "server", "prompt", Some("{\"text\":\"hello\"}")),
        select("server", "token"),
        data("server", "client", "token", Some("{\"id\":1}")),
        select("client", "cancel"),
        Frame::Cancel { from: "client".to_string(), to: "server".to_string(), scope: "generation".to_string() },
    ];
    let report = verify_trace(&conversation(), &frames).unwrap();
    assert!(report.complete);
    assert_eq!(report.final_state, "end");
    assert!(report.successful);
    assert_eq!(report.failure, None);
}

#[test]
fn accepts_declared_terminal_failure_trace() {
    let frames = vec![
        data("client", "server", "prompt", Some("{\"text\":\"hello\"}")),
        Frame::Fault { observer: "server".to_string(), failure: "transport.closed".to_string() },
    ];
    let report = verify_trace(&conversation(), &frames).unwrap();
    assert!(report.complete);
    assert!(!report.successful);
    assert_eq!(report.final_state, "transport-failed");
    assert_eq!(report.failure.as_deref(), Some("transport.closed"));
}

#[test]
fn rejects_message_in_wrong_protocol_state() {
    let frames = vec![
        data("client", "server", "prompt", Some("{\"text\":\"hello\"}")),
        data("server", "client", "token", Some("{\"id\":1}")),
    ];
    let error = verify_trace(&conversation(), &frames).unwrap_err();
    let message = error.to_string();
    assert!(message.contains("state decide"));
    assert!(message.contains("expected select by server"));
}

#[test]
fn rejects_unknown_transition_target() {
    let mut invalid = conversation();
    if let GlobalState::Send { next, .. } = &mut invalid.states[0] {
        *next = "missing".to_string();
    }
    let errors = validate(&invalid).unwrap_err();
    assert!(errors.diagnostics.iter().any(|diagnostic| diagnostic.code == "EVE0016"));
}

#[test]
fn rejects_failure_edge_to_a_non_failure_state() {
    let mut invalid = conversation();
    if let GlobalState::Send { on_failure, .. } = &mut invalid.states[0] {
        on_failure.insert("transport.closed".to_string(), "decide".to_string());
    }
    let errors = validate(&invalid).unwrap_err();
    assert!(errors.diagnostics.iter().any(|diagnostic| diagnostic.code == "EVE0020"));
}

#[test]
fn wrong_order_trace_reports_the_refused_frame_exactly() {
    let frames = vec![
        data("client", "server", "prompt", None),
        data("server", "client", "token", None),
    ];
    match verify_trace(&conversation(), &frames).unwrap_err() {
        TraceFailure::Trace(e) => {
            assert_eq!(e.step, 1);
            assert_eq!(e.state, "decide");
            assert_eq!(e.expected, "select by server: done | token");
            assert_eq!(e.received, "data server -> client: token");
            assert_eq!(
                e.to_string(),
                "invalid frame at step 1 in state decide: expected select by server: done | token; received data server -> client: token"
            );
        }
        TraceFailure::Conversation(_) => panic!("the conversation is valid"),
    }
}

#[test]
fn trace_of_an_invalid_conversation_reports_its_diagnostics() {
    let mut invalid = conversation();
    invalid.eve_conversation = "9.9.9".to_string();
    match verify_trace(&invalid, &[]).unwrap_err() {
        TraceFailure::Conversation(errors) => {
            assert_eq!(errors.diagnostics.len(), 1);
            assert_eq!(errors.diagnostics[0].code, "EVE0001");
            assert_eq!(
                errors.to_string(),
                "EVE0001 at $.eve_conversation: unsupported format 9.9.9; expected 0.1.0"
            );
        }
        TraceFailure::Trace(_) => panic!("the conversation is invalid"),
    }
}

#[test]
fn empty_trace_stays_at_the_initial_state() {
    let report = verify_trace(&conversation(), &[]).unwrap();
    assert_eq!(report.steps, 0);
    assert_eq!(report.final_state, "start");
    assert!(!report.complete);
    assert!(!report.successful);
}

#[test]
fn undeclared_observer_cannot_take_a_failure_edge() {
    let frames = vec![Frame::Fault { observer: "auditor".to_string(), failure: "transport.closed".to_string() }];
    let error = verify_trace(&conversation(), &frames).unwrap_err();
    assert!(matches!(error, TraceFailure::Trace(ref e) if e.step == 0 && e.state == "start"));
}

#[test]
fn validation_reports_each_structural_problem_in_order() {
    let mut invalid = conversation();
    invalid.roles.push(role("auditor"));
    invalid.roles.push(role("client"));
    let errors = validate(&invalid).unwrap_err();
    let codes: Vec<&str> = errors.diagnostics.iter().map(|d| d.code).collect();
    assert_eq!(codes, vec!["EVE0012", "EVE0002"]);
    assert_eq!(errors.diagnostics[0].path, "$.roles[3].id");
    assert_eq!(errors.diagnostics[0].message, "duplicate role id client");
}

#[test]
fn unreachable_state_is_reported() {
    let mut invalid = conversation();
    invalid.states.push(GlobalState::End { id: "orphan".to_string() });
    let errors = validate(&invalid).unwrap_err();
    assert_eq!(errors.diagnostics.len(), 1);
    assert_eq!(errors.diagnostics[0].code, "EVE0017");
    assert_eq!(errors.diagnostics[0].path, "$.states[id=orphan]");
}

#[test]
fn describes_each_frame_kind() {
    assert_eq!(describe_frame(&data("a", "b", "m", None)), "data a -> b: m");
    assert_eq!(describe_frame(&select("a", "l")), "select by a: l");
    assert_eq!(
        describe_frame(&Frame::Cancel { from: "a".to_string(), to: "b".to_string(), scope: "s".to_string() }),
        "cancel a -> b: s"
    );
    assert_eq!(
        describe_frame(&Frame::Fault { observer: "a".to_string(), failure: "f".to_string() }),
        "fault observed by a: f"
    );
}

#[test]
fn global_state_helpers_follow_the_graph() {
    let c = conversation();
    assert_eq!(c.states[1].id(), "decide");
    assert_eq!(c.states[1].successors(), vec!["end", "emit", "transport-failed", "transport-timeout", "transport-uncertain"]);
    assert_eq!(c.states[0].failure_target("transport.timeout"), Some("transport-timeout"));
    assert_eq!(c.states[5].failure_target("transport.timeout"), None);
    assert_eq!(c.states[3].expected_frame(), "select by client: cancel | continue");
    assert_eq!(c.states[6].expected_frame(), "terminal failure transport.closed");
}

#[test]
fn projection_keeps_failure_edges_for_each_role() {
    let endpoints = project(&conversation()).unwrap();
    assert_eq!(endpoints.len(), 2);
    assert_eq!(endpoints[0].role, "client");
    assert_eq!(endpoints[0].initial, "start");
    assert_eq!(endpoints[0].states[2].id(), "emit");
    assert!(matches!(&endpoints[0].states[2], EndpointState::Receive { from, .. } if from == "server"));
    assert_eq!(endpoints[0].states[2].failure_target("transport.uncertain"), Some("transport-uncertain"));
    assert!(matches!(&endpoints[1].states[4], EndpointState::ReceiveCancel { from, scope, .. } if from == "client" && scope == "generation"));
}
