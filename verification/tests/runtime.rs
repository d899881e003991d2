use eve::plan::{EvePlan, PreparedPlan};
use eve::runtime::{
    check_fault_plan, check_peer_status, conversation_identity, demo_report, fault_demo_report, encode_envelope, encode_session_preface,
    local_session_preface, prompt_payload, run_generate_client_plan, run_generate_server_plan,
    token_payload, trace_identity, unfired_fault, client_action, client_cancels, server_turn, server_reply,
    server_cancellation, ClientAction, ServerTurn, ServerReply, CompactEnvelope, EndpointMachine, EnvelopeCodec,
    FaultInjectingTransport, FaultOperation, FaultPlan, IoErrorKind, IoFailure, RuntimeError,
    SessionPreface, Transport, WireEncoding, WireEnvelope, MAX_ENVELOPE_BYTES, WIRE_FORMAT,
};
use eve::{Conversation, FailureDefinition, Frame, GlobalState, Module, Role, StrMap, TypeDefinition};
use std::collections::VecDeque;
use std::cell::RefCell;
use std::rc::Rc;
use std::sync::atomic::{AtomicBool, Ordering};
use std::sync::Arc;

fn map(pairs: &[(&str, &str)]) -> StrMap {
    let mut m = StrMap::new();
    for (k, v) in pairs {
        m.insert(k.to_string(), v.to_string());
    }
    m
}

fn role(id: &str) -> Role {
    Role { id: id.to_string(), placement: Vec::new(), capabilities: Vec::new() }
}

fn record_type(id: &str) -> TypeDefinition {
    TypeDefinition { id: id.to_string(), definition: map(&[("kind", "\"record\"")]) }
}

fn failure(id: &str) -> FailureDefinition {
    FailureDefinition { id: id.to_string(), description: None, retryable: false }
}

fn failures() -> StrMap {
    map(&[
        ("transport.closed", "transport-failed"),
        ("transport.timeout", "transport-timeout"),
        ("transport.uncertain", "transport-uncertain"),
    ])
}

/// The request/stream/cancel generation conversation.
fn conversation() -> Conversation {
    Conversation {
        schema: Some("../spec/eve-conversation-v0.schema.json".to_string()),
        eve_conversation: "0.1.0".to_string(),
        module: Module { id: "example.generate".to_string(), semantic_version: Some("0.1.0".to_string()) },
        roles: vec![role("client"), role("server")],
        types: vec![record_type("prompt"), record_type("token")],
        failures: vec![failure("transport.closed"), failure("transport.timeout"), failure("transport.uncertain")],
        initial: "start".to_string(),
        states: vec![
            GlobalState::Send {
                id: "start".to_string(),
                from: "client".to_string(),
                to: "server".to_string(),
                message: "prompt".to_string(),
                next: "decide".to_string(),
                deadline: None,
                on_failure: failures(),
            },
            GlobalState::Choice {
                id: "decide".to_string(),
                chooser: "server".to_string(),
                branches: map(&[("token", "emit"), ("done", "end")]),
                on_failure: failures(),
            },
            GlobalState::Send {
                id: "emit".to_string(),
                from: "server".to_string(),
                to: "client".to_string(),
                message: "token".to_string(),
                next: "review".to_string(),
                deadline: None,
                on_failure: failures(),
            },
            GlobalState::Choice {
                id: "review".to_string(),
                chooser: "client".to_string(),
                branches: map(&[("continue", "decide"), ("cancel", "cancel")]),
                on_failure: failures(),
            },
            GlobalState::Cancel {
                id: "cancel".to_string(),
                from: "client".to_string(),
                to: "server".to_string(),
                scope: "generation".to_string(),
                next: "end".to_string(),
                on_failure: failures(),
            },
            GlobalState::End { id: "end".to_string() },
            GlobalState::Fail { id: "transport-failed".to_string(), failure: "transport.closed".to_string() },
            GlobalState::Fail { id: "transport-timeout".to_string(), failure: "transport.timeout".to_string() },
            GlobalState::Fail { id: "transport-uncertain".to_string(), failure: "transport.uncertain".to_string() },
        ],
        annotations: StrMap::new(),
    }
}

fn text_payload(text: &str) -> String {
    format!("{{\"text\":\"{text}\"}}")
}

enum Policy {
    Server { limit: usize },
    Client { cancel_after: Option<usize> },
}

/// A transport whose far end is an endpoint machine of the other role, answering at once.
struct Peer {
    machine: EndpointMachine,
    queue: VecDeque<WireEnvelope>,
    tokens: usize,
    policy: Policy,
    finished: Option<String>,
    aborted: bool,
    replies: bool,
    name: &'static str,
    codec: Option<EnvelopeCodec>,
    log: Rc<RefCell<Vec<WireEnvelope>>>,
}

impl Peer {
    fn new(plan: &PreparedPlan, role: &str, policy: Policy) -> Self {
        Peer::with_prompt(plan, role, "hello", policy)
    }

    fn with_prompt(plan: &PreparedPlan, role: &str, prompt: &str, policy: Policy) -> Self {
        let mut peer = Peer {
            machine: EndpointMachine::from_plan(plan, role).unwrap(),
            queue: VecDeque::new(),
            tokens: 0,
            policy,
            finished: None,
            aborted: false,
            replies: true,
            name: "loopback",
            codec: None,
            log: Rc::new(RefCell::new(Vec::new())),
        };
        if role == "client" {
            let prompt = peer.machine.emit_data(text_payload(prompt)).unwrap();
            peer.queue.push_back(prompt);
        }
        peer
    }

    /// The same peer, reporting `name` as its transport plan.
    fn named(mut self, name: &'static str) -> Self {
        self.name = name;
        self
    }

    /// The same peer, passing every envelope through the plan's compact wire form.
    fn compact(mut self, plan: &PreparedPlan) -> Self {
        self.codec = Some(EnvelopeCodec::for_plan(WireEncoding::Compact, plan));
        self
    }

    fn react(&mut self, frame: &Frame) {
        if !self.replies {
            return;
        }
        match (&self.policy, frame) {
            (Policy::Server { limit }, Frame::Data { .. }) | (Policy::Server { limit }, Frame::Select { .. })
                if !matches!(frame, Frame::Select { label, .. } if label == "cancel") =>
            {
                if self.tokens < *limit {
                    let selection = self.machine.emit_select("token").unwrap();
                    self.tokens += 1;
                    let token = self.machine.emit_data(format!("{{\"id\":{}}}", self.tokens)).unwrap();
                    self.queue.push_back(selection);
                    self.queue.push_back(token);
                } else {
                    let done = self.machine.emit_select("done").unwrap();
                    self.queue.push_back(done);
                }
            }
            (Policy::Client { cancel_after }, Frame::Data { .. }) => {
                self.tokens += 1;
                if cancel_after.is_some_and(|n| self.tokens >= n) {
                    let selection = self.machine.emit_select("cancel").unwrap();
                    let cancellation = self.machine.emit_cancel().unwrap();
                    self.queue.push_back(selection);
                    self.queue.push_back(cancellation);
                } else {
                    let selection = self.machine.emit_select("continue").unwrap();
                    self.queue.push_back(selection);
                }
            }
            _ => {}
        }
    }
}

impl Transport for Peer {
    fn plan(&self) -> &'static str {
        self.name
    }

    fn send(&mut self, envelope: &WireEnvelope) -> Result<(), RuntimeError> {
        let envelope = match &self.codec {
            Some(codec) => through_compact(codec, envelope)?,
            None => envelope.clone(),
        };
        let frame = self.machine.accept(envelope.clone())?;
        self.log.borrow_mut().push(envelope);
        self.react(&frame);
        Ok(())
    }

    fn receive(&mut self) -> Result<WireEnvelope, RuntimeError> {
        let envelope = self.queue.pop_front().ok_or(RuntimeError::TransportClosed("loopback"))?;
        match &self.codec {
            Some(codec) => through_compact(codec, &envelope),
            None => Ok(envelope),
        }
    }

    fn finish(&mut self, role: &str) -> Result<(), RuntimeError> {
        self.finished = Some(role.to_string());
        Ok(())
    }

    fn abort(&mut self) {
        self.aborted = true;
    }
}

/// Encodes an envelope in the compact wire form, reads the bytes back as JSON and decodes
/// them.
fn through_compact(codec: &EnvelopeCodec, envelope: &WireEnvelope) -> Result<WireEnvelope, RuntimeError> {
    let bytes = codec.encode(envelope)?;
    let parsed: serde_json::Value = serde_json::from_slice(&bytes).unwrap();
    let compact = CompactEnvelope {
        transition: parsed["t"].as_u64().unwrap() as u16,
        sequence: parsed["q"].as_u64().unwrap(),
        payload: parsed.get("p").map(|p| p.to_string()),
    };
    let EnvelopeCodec::Compact(compact_codec) = codec else { panic!("compact codec") };
    compact_codec.decode(compact)
}

/// A transport that delivers, in order, the envelopes the other role sent in its own run,
/// and is closed after the last of them.
struct Replay {
    incoming: VecDeque<WireEnvelope>,
}

impl Transport for Replay {
    fn plan(&self) -> &'static str {
        "memory"
    }

    fn send(&mut self, _envelope: &WireEnvelope) -> Result<(), RuntimeError> {
        Ok(())
    }

    fn receive(&mut self) -> Result<WireEnvelope, RuntimeError> {
        self.incoming.pop_front().ok_or(RuntimeError::TransportClosed("memory"))
    }

    fn finish(&mut self, _role: &str) -> Result<(), RuntimeError> {
        Ok(())
    }

    fn abort(&mut self) {}
}

/// Both roles of the generation workload, each against a peer that plays the other role
/// by the same rules, combined into one report.
fn memory_session(
    conversation: &Conversation,
    prompt: &str,
    token_limit: usize,
    cancel_after: Option<usize>,
    compact: bool,
) -> Result<eve::runtime::DemoReport, RuntimeError> {
    let plan = PreparedPlan::compile(conversation).map_err(RuntimeError::Plan)?;
    let name = if compact { "memory+compact" } else { "memory" };
    let mut server_side = Peer::new(&plan, "server", Policy::Server { limit: token_limit }).named(name);
    let mut client_side = Peer::with_prompt(&plan, "client", prompt, Policy::Client { cancel_after }).named(name);
    if compact {
        server_side = server_side.compact(&plan);
        client_side = client_side.compact(&plan);
    }
    let client = run_generate_client_plan(&plan, &mut server_side, prompt, cancel_after)?;
    let server = run_generate_server_plan(&plan, &mut client_side, token_limit)?;
    Ok(demo_report(name, client, server))
}

/// A session with an injected fault: the faulting role runs first against a peer playing
/// the other role; the other role then receives what the first sent, after which its
/// transport is closed. Both wrappers share one flag; a fault that never fired is an
/// error.
fn fault_session(
    conversation: &Conversation,
    prompt: &str,
    token_limit: usize,
    cancel_after: Option<usize>,
    fault: FaultPlan,
) -> Result<eve::runtime::DemoReport, RuntimeError> {
    let plan = PreparedPlan::compile(conversation).map_err(RuntimeError::Plan)?;
    check_fault_plan(&plan, &fault)?;
    let fired = Arc::new(AtomicBool::new(false));
    let (client, server) = if fault.role == "client" {
        let peer = Peer::with_prompt(&plan, "server", prompt, Policy::Server { limit: token_limit }).named("memory");
        let log = Rc::clone(&peer.log);
        let mut first = FaultInjectingTransport::with_fired(peer, "client", fault.clone(), Arc::clone(&fired))?;
        let client = run_generate_client_plan(&plan, &mut first, prompt, cancel_after)?;
        let replay = Replay { incoming: log.borrow().iter().cloned().collect() };
        let mut second = FaultInjectingTransport::with_fired(replay, "server", fault.clone(), Arc::clone(&fired))?;
        let server = run_generate_server_plan(&plan, &mut second, token_limit)?;
        (client, server)
    } else {
        let peer = Peer::with_prompt(&plan, "client", prompt, Policy::Client { cancel_after }).named("memory");
        let log = Rc::clone(&peer.log);
        let mut first = FaultInjectingTransport::with_fired(peer, "server", fault.clone(), Arc::clone(&fired))?;
        let server = run_generate_server_plan(&plan, &mut first, token_limit)?;
        let replay = Replay { incoming: log.borrow().iter().cloned().collect() };
        let mut second = FaultInjectingTransport::with_fired(replay, "client", fault.clone(), Arc::clone(&fired))?;
        let client = run_generate_client_plan(&plan, &mut second, prompt, cancel_after)?;
        (client, server)
    };
    if !fired.load(Ordering::Relaxed) {
        return Err(unfired_fault(&fault));
    }
    Ok(fault_demo_report(client, server, fault))
}

fn plan() -> PreparedPlan {
    PreparedPlan::compile(&conversation()).unwrap()
}

#[test]
fn semantic_identity_ignores_projection_metadata() {
    let unedited = conversation();
    let mut edited = unedited.clone();
    edited.schema = Some("somewhere-else.json".to_string());
    edited.annotations.insert("editor".to_string(), "\"human\"".to_string());
    assert_eq!(conversation_identity(&unedited).unwrap(), conversation_identity(&edited).unwrap());
}

#[test]
fn semantic_identity_changes_with_the_conversation() {
    let unedited = conversation();
    let mut edited = unedited.clone();
    if let GlobalState::Send { deadline, .. } = &mut edited.states[0] {
        *deadline = Some("25ms".to_string());
    }
    assert_ne!(conversation_identity(&unedited).unwrap(), conversation_identity(&edited).unwrap());
}

#[test]
fn plan_sessions_share_the_projected_endpoint_graph() {
    let artifact = EvePlan::compile(&conversation()).unwrap();
    let plan = artifact.prepare().unwrap();
    let first = EndpointMachine::from_plan(&plan, "client").unwrap();
    let second = EndpointMachine::from_plan(&plan, "client").unwrap();
    assert!(Arc::ptr_eq(first.endpoint(), second.endpoint()));
    assert_eq!(first.plan_identity(), plan.plan_identity());
}

#[test]
fn compact_envelope_round_trips_to_the_same_semantic_frame() {
    let plan = plan();
    let mut client = EndpointMachine::from_plan(&plan, "client").unwrap();
    let envelope = client.emit_data(text_payload("hello")).unwrap();
    let codec = EnvelopeCodec::for_plan(WireEncoding::Compact, &plan);
    let compact = codec.encode(&envelope).unwrap();
    assert_eq!(
        serde_json::from_slice::<serde_json::Value>(&compact).unwrap(),
        serde_json::from_str::<serde_json::Value>(r#"{ "t": 7, "q": 0, "p": { "text": "hello" } }"#).unwrap()
    );
    assert!(compact.len() < encode_envelope(&envelope).unwrap().len());
    let parsed: serde_json::Value = serde_json::from_slice(&compact).unwrap();
    let decoded = CompactEnvelope {
        transition: parsed["t"].as_u64().unwrap() as u16,
        sequence: parsed["q"].as_u64().unwrap(),
        payload: parsed.get("p").map(|p| p.to_string()),
    };
    let EnvelopeCodec::Compact(compact_codec) = &codec else { panic!("compact codec") };
    assert_eq!(compact_codec.decode(decoded).unwrap(), envelope);
}

#[test]
fn compact_codec_rejects_an_unknown_transition_id() {
    let plan = plan();
    let codec = EnvelopeCodec::for_plan(WireEncoding::Compact, &plan);
    let EnvelopeCodec::Compact(compact_codec) = &codec else { panic!("compact codec") };
    let error = compact_codec.decode(CompactEnvelope { transition: 65535, sequence: 0, payload: None }).unwrap_err();
    assert!(matches!(error, RuntimeError::CompactWire(_)));
}

#[test]
fn session_preface_rejects_plan_role_and_wire_mismatches() {
    let plan = plan();
    let mut peer = SessionPreface::for_plan(&plan, "server", WireEncoding::Compact).unwrap();

    peer.plan_identity = "sha256:ffffffffffffffffffffffffffffffffffffffffffffffffffffffffffffffff".to_string();
    let error = peer.verify_peer(&plan, "server", WireEncoding::Compact).unwrap_err();
    assert!(matches!(error, RuntimeError::SessionMismatch { field: "plan_identity", .. }));

    let peer = SessionPreface::for_plan(&plan, "client", WireEncoding::Compact).unwrap();
    let error = peer.verify_peer(&plan, "server", WireEncoding::Compact).unwrap_err();
    assert!(matches!(error, RuntimeError::SessionMismatch { field: "role", .. }));

    let peer = SessionPreface::for_plan(&plan, "server", WireEncoding::Reference).unwrap();
    let error = peer.verify_peer(&plan, "server", WireEncoding::Compact).unwrap_err();
    assert!(matches!(error, RuntimeError::SessionMismatch { field: "wire", .. }));
}

#[test]
fn session_preface_fixture_matches_the_compiled_plan() {
    let plan = plan();
    let fixture = SessionPreface {
        eve_session: "0.1.0".to_string(),
        conversation: "example.generate".to_string(),
        conversation_identity: plan.conversation_identity().to_string(),
        plan_identity: plan.plan_identity().to_string(),
        role: "client".to_string(),
        wire: WireEncoding::Compact,
    };
    assert_eq!(fixture, SessionPreface::for_plan(&plan, "client", WireEncoding::Compact).unwrap());
    assert_eq!(encode_session_preface(&fixture).unwrap().len(), 278);
}

#[test]
fn io_errors_map_to_specific_declared_failures() {
    let cases = [
        (IoErrorKind::TimedOut, "transport.timeout"),
        (IoErrorKind::ConnectionReset, "transport.reset"),
        (IoErrorKind::ConnectionRefused, "transport.unreachable"),
        (IoErrorKind::UnexpectedEof, "transport.closed"),
    ];
    for (kind, expected) in cases {
        let error = RuntimeError::Io(IoFailure { kind, message: String::new() });
        assert_eq!(error.transport_failure(), Some(expected));
    }
    assert_eq!(RuntimeError::TransportClosed("memory").transport_failure(), Some("transport.closed"));
    assert_eq!(RuntimeError::Application("x".to_string()).transport_failure(), None);
}

#[test]
fn endpoint_rejects_a_different_semantic_graph() {
    let conversation = conversation();
    let mut client = EndpointMachine::for_role(&conversation, "client").unwrap();
    let mut server = EndpointMachine::for_role(&conversation, "server").unwrap();
    let mut envelope = client.emit_data(text_payload("hello")).unwrap();
    envelope.conversation_identity = "sha256:different".to_string();
    let error = server.accept(envelope).unwrap_err();
    assert!(matches!(error, RuntimeError::IdentityMismatch { .. }));
}

#[test]
fn endpoint_rejects_a_frame_for_the_wrong_state() {
    let conversation = conversation();
    let mut client = EndpointMachine::for_role(&conversation, "client").unwrap();
    let mut server = EndpointMachine::for_role(&conversation, "server").unwrap();
    let prompt = client.emit_data(text_payload("hello")).unwrap();
    server.accept(prompt).unwrap();
    let wrong = WireEnvelope {
        eve_wire: WIRE_FORMAT.to_string(),
        conversation: server.conversation().to_string(),
        conversation_identity: server.identity().to_string(),
        state: server.current_state().to_string(),
        sequence: server.sequence(),
        frame: Frame::Data {
            from: "client".to_string(),
            to: "server".to_string(),
            message: "token".to_string(),
            payload: Some("{\"id\":1}".to_string()),
        },
    };
    let error = server.accept(wrong).unwrap_err();
    assert!(matches!(error, RuntimeError::Protocol { .. }));
}

#[test]
fn emitted_envelopes_are_accepted_by_the_peer_in_step() {
    let plan = plan();
    let mut client = EndpointMachine::from_plan(&plan, "client").unwrap();
    let mut server = EndpointMachine::from_plan(&plan, "server").unwrap();
    let prompt = client.emit_data(text_payload("hi")).unwrap();
    assert_eq!(prompt.state, "start");
    assert_eq!(prompt.sequence, 0);
    server.accept(prompt).unwrap();
    let token = server.emit_select("token").unwrap();
    client.accept(token).unwrap();
    let data = server.emit_data("{\"id\":1}".to_string()).unwrap();
    client.accept(data).unwrap();
    assert_eq!(client.current_state(), "review");
    assert_eq!(server.current_state(), "review");
    assert_eq!(client.sequence(), 3);
    assert_eq!(server.sequence(), 3);
    let cancel = client.emit_select("cancel").unwrap();
    server.accept(cancel).unwrap();
    let cancellation = client.emit_cancel().unwrap();
    server.accept(cancellation).unwrap();
    assert!(client.is_complete() && client.is_successful());
    assert!(server.is_complete() && server.is_successful());
    assert_eq!(client.current_state(), "end");
}

#[test]
fn machine_refuses_actions_of_other_states() {
    let plan = plan();
    let mut client = EndpointMachine::from_plan(&plan, "client").unwrap();
    match client.emit_select("token").unwrap_err() {
        RuntimeError::Protocol { role, state, action, detail } => {
            assert_eq!(role, "client");
            assert_eq!(state, "start");
            assert_eq!(action, "select branch");
            assert_eq!(
                detail,
                "local action is Send { id: \"start\", to: \"server\", message: \"prompt\", next: \"decide\", deadline: None, on_failure: {\"transport.closed\": \"transport-failed\", \"transport.timeout\": \"transport-timeout\", \"transport.uncertain\": \"transport-uncertain\"} }"
            );
        }
        other => panic!("unexpected {other:?}"),
    }
    assert!(matches!(client.emit_cancel(), Err(RuntimeError::Protocol { action: "send cancellation", .. })));
    assert_eq!(client.current_state(), "start");
    assert_eq!(client.sequence(), 0);
    assert!(matches!(EndpointMachine::from_plan(&plan, "auditor"), Err(RuntimeError::UnknownRole(ref r)) if r == "auditor"));
}

#[test]
fn unknown_branch_lists_the_labels() {
    let plan = plan();
    let mut client = EndpointMachine::from_plan(&plan, "client").unwrap();
    let mut server = EndpointMachine::from_plan(&plan, "server").unwrap();
    server.accept(client.emit_data(text_payload("x")).unwrap()).unwrap();
    match server.emit_select("maybe").unwrap_err() {
        RuntimeError::Protocol { detail, .. } => {
            assert_eq!(detail, "unknown branch maybe; expected one of [\"done\", \"token\"]")
        }
        other => panic!("unexpected {other:?}"),
    }
}

#[test]
fn observed_failures_follow_declared_edges() {
    let plan = plan();
    let mut client = EndpointMachine::from_plan(&plan, "client").unwrap();
    let fault = client.observe_failure("transport.timeout").unwrap();
    assert_eq!(fault, Frame::Fault { observer: "client".to_string(), failure: "transport.timeout".to_string() });
    assert_eq!(client.current_state(), "transport-timeout");
    assert_eq!(client.sequence(), 1);
    assert!(client.is_complete());
    assert!(!client.is_successful());
    assert_eq!(client.failure(), Some("transport.timeout"));
    let error = client.observe_failure("transport.closed").unwrap_err();
    assert!(matches!(error, RuntimeError::Protocol { action: "observe failure", ref detail, .. } if detail == "failure transport.closed is not declared at this state"));
}

#[test]
fn envelope_checks_come_in_order() {
    let plan = plan();
    let mut client = EndpointMachine::from_plan(&plan, "client").unwrap();
    let mut server = EndpointMachine::from_plan(&plan, "server").unwrap();
    let prompt = client.emit_data(text_payload("x")).unwrap();
    let mut old = prompt.clone();
    old.eve_wire = "0.0.1".to_string();
    assert!(matches!(server.accept(old), Err(RuntimeError::WireVersion { .. })));
    let mut late = prompt.clone();
    late.sequence = 4;
    assert!(matches!(server.accept(late), Err(RuntimeError::SequenceMismatch { expected: 0, actual: 4, .. })));
    let mut elsewhere = prompt.clone();
    elsewhere.state = "decide".to_string();
    assert!(matches!(server.accept(elsewhere), Err(RuntimeError::StateMismatch { .. })));
    assert_eq!(server.sequence(), 0);
    server.accept(prompt).unwrap();
    assert_eq!(server.sequence(), 1);
}

#[test]
fn client_and_server_drivers_complete_with_cancellation() {
    let plan = plan();
    let mut server_side = Peer::new(&plan, "server", Policy::Server { limit: 5 });
    let client = run_generate_client_plan(&plan, &mut server_side, "hello", Some(2)).unwrap();
    assert_eq!(client.tokens, vec![1, 2]);
    assert!(client.completed && client.successful);
    assert_eq!(client.final_state, "end");
    assert_eq!(client.transport, "loopback");
    assert_eq!(client.semantic_trace.len(), 8);
    assert_eq!(client.frames, 8);
    assert_eq!(server_side.finished.as_deref(), Some("client"));

    let mut client_side = Peer::new(&plan, "client", Policy::Client { cancel_after: Some(2) });
    let server = run_generate_server_plan(&plan, &mut client_side, 5).unwrap();
    assert_eq!(server.tokens, vec![1, 2]);
    assert!(server.completed && server.successful);
    assert_eq!(server.final_state, "end");

    let demo = demo_report("loopback", client, server);
    assert!(demo.semantic_trace_equivalent);
    assert!(demo.outcome_equivalent);
    assert_eq!(demo.client.semantic_trace_identity, demo.server.semantic_trace_identity);
}

#[test]
fn server_driver_stops_at_its_token_limit() {
    let plan = plan();
    let mut client_side = Peer::new(&plan, "client", Policy::Client { cancel_after: None });
    let server = run_generate_server_plan(&plan, &mut client_side, 3).unwrap();
    assert_eq!(server.tokens, vec![1, 2, 3]);
    assert!(server.successful);
    assert_eq!(server.semantic_trace.len(), 1 + 3 * 3 + 1);
}

#[test]
fn closed_transport_ends_the_client_in_a_declared_failure() {
    let plan = plan();
    let mut server_side = Peer::new(&plan, "server", Policy::Server { limit: 5 });
    server_side.replies = false;
    let client = run_generate_client_plan(&plan, &mut server_side, "hello", None).unwrap();
    assert!(client.completed);
    assert!(!client.successful);
    assert_eq!(client.failure.as_deref(), Some("transport.closed"));
    assert_eq!(client.final_state, "transport-failed");
    assert!(server_side.aborted);
    assert!(matches!(client.semantic_trace.last(), Some(Frame::Fault { failure, .. }) if failure == "transport.closed"));
}

#[test]
fn client_driver_refuses_a_zero_cancellation_limit() {
    let plan = plan();
    let mut server_side = Peer::new(&plan, "server", Policy::Server { limit: 1 });
    let error = run_generate_client_plan(&plan, &mut server_side, "hello", Some(0)).unwrap_err();
    assert!(matches!(error, RuntimeError::Application(ref m) if m == "cancel_after must be at least one token"));
}

#[test]
fn payloads_are_read_from_json_text() {
    let token = Frame::Data {
        from: "server".to_string(),
        to: "client".to_string(),
        message: "token".to_string(),
        payload: Some("{\"id\": 42}".to_string()),
    };
    assert_eq!(token_payload(&token).unwrap(), 42);
    let prompt = Frame::Data {
        from: "client".to_string(),
        to: "server".to_string(),
        message: "prompt".to_string(),
        payload: Some(text_payload("say \\\"hi\\\"")),
    };
    assert_eq!(prompt_payload(&prompt).unwrap(), "say \"hi\"");
    let missing = Frame::Data {
        from: "server".to_string(),
        to: "client".to_string(),
        message: "token".to_string(),
        payload: Some("{\"id\":-1}".to_string()),
    };
    assert!(matches!(token_payload(&missing), Err(RuntimeError::Application(ref m)) if m == "token payload is missing u64 id"));
    let select = Frame::Select { by: "server".to_string(), label: "done".to_string() };
    assert!(matches!(token_payload(&select), Err(RuntimeError::Application(ref m)) if m == "expected token data, received Select { by: \"server\", label: \"done\" }"));
    assert!(matches!(prompt_payload(&token), Err(RuntimeError::Application(ref m)) if m == "expected prompt data, received Data { from: \"server\", to: \"client\", message: \"token\", payload: Some(Object {\"id\": Number(42)}) }"));
}

#[test]
fn fault_injection_fires_once_on_the_planned_operation() {
    let plan = plan();
    let fault = FaultPlan {
        role: "server".to_string(),
        operation: FaultOperation::Send,
        occurrence: 2,
        failure: "transport.closed".to_string(),
        peer_failure: None,
    };
    check_fault_plan(&plan, &fault).unwrap();
    let inner = Peer::new(&plan, "client", Policy::Client { cancel_after: None });
    let mut transport = FaultInjectingTransport::new(inner, "server", fault.clone()).unwrap();
    let fired = transport.fired();
    let server = run_generate_server_plan(&plan, &mut transport, 5).unwrap();
    assert!(fired.load(Ordering::Relaxed));
    assert!(server.completed);
    assert!(!server.successful);
    assert_eq!(server.failure.as_deref(), Some("transport.closed"));
    assert_eq!(server.tokens, Vec::<u64>::new());

    let zero = FaultPlan { occurrence: 0, ..fault.clone() };
    let inner = Peer::new(&plan, "client", Policy::Client { cancel_after: None });
    assert!(matches!(FaultInjectingTransport::new(inner, "server", zero), Err(RuntimeError::Application(_))));
    let unknown = FaultPlan { failure: "disk.full".to_string(), ..fault.clone() };
    assert!(matches!(check_fault_plan(&plan, &unknown), Err(RuntimeError::Application(ref m)) if m == "fault plan references undeclared failure disk.full"));
    let stranger = FaultPlan { role: "auditor".to_string(), ..fault.clone() };
    assert!(matches!(check_fault_plan(&plan, &stranger), Err(RuntimeError::UnknownRole(_))));
    let RuntimeError::Application(message) = unfired_fault(&FaultPlan { occurrence: 99, ..fault }) else { panic!() };
    assert_eq!(message, "fault plan did not fire: server send occurrence 99 was not reached");
}

#[test]
fn local_preface_requires_distinct_known_roles() {
    let plan = plan();
    let codec = EnvelopeCodec::for_plan(WireEncoding::Compact, &plan);
    let preface = local_session_preface(&codec, &plan, "client", "server").unwrap();
    assert_eq!(preface.role, "client");
    assert_eq!(preface.wire, WireEncoding::Compact);
    assert!(matches!(local_session_preface(&codec, &plan, "client", "client"), Err(RuntimeError::SessionMismatch { field: "role_pair", .. })));
    assert!(matches!(local_session_preface(&codec, &plan, "client", "auditor"), Err(RuntimeError::UnknownRole(_))));
    let mut edited = conversation();
    edited.module.id = "example.other".to_string();
    let other = PreparedPlan::compile(&edited).unwrap();
    assert!(matches!(local_session_preface(&codec, &other, "client", "server"), Err(RuntimeError::SessionMismatch { field: "conversation", .. })));
}

#[test]
fn reference_envelope_is_self_describing_json() {
    let plan = plan();
    let mut client = EndpointMachine::from_plan(&plan, "client").unwrap();
    let envelope = client.emit_data(text_payload("hello")).unwrap();
    let bytes = encode_envelope(&envelope).unwrap();
    assert_eq!(bytes.len(), 279);
    let value: serde_json::Value = serde_json::from_slice(&bytes).unwrap();
    assert_eq!(value["state"], "start");
    assert_eq!(value["frame"]["op"], "data");
    assert_eq!(value["frame"]["payload"]["text"], "hello");
    assert!(bytes.len() <= MAX_ENVELOPE_BYTES);
    assert_eq!(trace_identity(&vec![envelope.frame.clone()]), trace_identity(&vec![envelope.frame]));
}

#[test]
fn session_traces_are_traces_of_the_conversation() {
    let plan = plan();
    let mut server_side = Peer::new(&plan, "server", Policy::Server { limit: 4 });
    let client = run_generate_client_plan(&plan, &mut server_side, "hello", Some(3)).unwrap();
    let checked = eve::verify_trace(&conversation(), &client.semantic_trace).unwrap();
    assert_eq!(checked.final_state, client.final_state);
    assert_eq!(checked.steps, client.semantic_trace.len());
    assert!(checked.successful);

    let mut silent = Peer::new(&plan, "server", Policy::Server { limit: 4 });
    silent.replies = false;
    let failed = run_generate_client_plan(&plan, &mut silent, "hello", None).unwrap();
    let checked = eve::verify_trace(&conversation(), &failed.semantic_trace).unwrap();
    assert_eq!(checked.final_state, "transport-failed");
    assert_eq!(checked.failure.as_deref(), Some("transport.closed"));
}

#[test]
fn refused_frames_are_quoted_as_debug_prints_them() {
    let plan = plan();
    let mut client = EndpointMachine::from_plan(&plan, "client").unwrap();
    let mut server = EndpointMachine::from_plan(&plan, "server").unwrap();
    server.accept(client.emit_data(text_payload("x")).unwrap()).unwrap();
    let wrong = WireEnvelope {
        eve_wire: WIRE_FORMAT.to_string(),
        conversation: server.conversation().to_string(),
        conversation_identity: server.identity().to_string(),
        state: server.current_state().to_string(),
        sequence: server.sequence(),
        frame: Frame::Select { by: "cli\"ent".to_string(), label: "done".to_string() },
    };
    match server.accept(wrong).unwrap_err() {
        RuntimeError::Protocol { detail, .. } => assert_eq!(
            detail,
            "local action is Select { id: \"decide\", branches: {\"done\": \"end\", \"token\": \"emit\"}, on_failure: {\"transport.closed\": \"transport-failed\", \"transport.timeout\": \"transport-timeout\", \"transport.uncertain\": \"transport-uncertain\"} }; received Select { by: \"cli\\\"ent\", label: \"done\" }"
        ),
        other => panic!("unexpected {other:?}"),
    }
}

#[test]
fn peer_status_accepts_only_the_accepting_byte() {
    assert!(check_peer_status(eve::runtime::SESSION_ACCEPTED, "TCP").is_ok());
    assert!(matches!(
        check_peer_status(eve::runtime::SESSION_REJECTED, "QUIC"),
        Err(RuntimeError::SessionRejected("QUIC"))
    ));
}

#[test]
fn receive_fault_ends_the_client_in_the_declared_failure() {
    let plan = plan();
    let fault = FaultPlan {
        role: "client".to_string(),
        operation: FaultOperation::Receive,
        occurrence: 2,
        failure: "transport.closed".to_string(),
        peer_failure: None,
    };
    check_fault_plan(&plan, &fault).unwrap();
    let inner = Peer::new(&plan, "server", Policy::Server { limit: 5 });
    let mut transport = FaultInjectingTransport::new(inner, "client", fault).unwrap();
    let client = run_generate_client_plan(&plan, &mut transport, "hello", None).unwrap();
    assert!(transport.fired().load(Ordering::Relaxed));
    assert!(client.completed);
    assert!(!client.successful);
    assert_eq!(client.failure.as_deref(), Some("transport.closed"));
    assert_eq!(client.final_state, "transport-failed");
    assert!(client.tokens.is_empty());
}

#[test]
fn asymmetric_fault_gives_each_side_its_own_failure() {
    let plan = plan();
    let fault = FaultPlan {
        role: "server".to_string(),
        operation: FaultOperation::Send,
        occurrence: 2,
        failure: "transport.timeout".to_string(),
        peer_failure: Some("transport.uncertain".to_string()),
    };
    let inner = Peer::new(&plan, "client", Policy::Client { cancel_after: None });
    let mut server_side = FaultInjectingTransport::new(inner, "server", fault.clone()).unwrap();
    let server = run_generate_server_plan(&plan, &mut server_side, 5).unwrap();
    assert_eq!(server.failure.as_deref(), Some("transport.timeout"));
    assert_eq!(server.final_state, "transport-timeout");

    let mut closed = Peer::new(&plan, "server", Policy::Server { limit: 5 });
    closed.replies = false;
    let mut client_side = FaultInjectingTransport::with_fired(closed, "client", fault, server_side.fired()).unwrap();
    let client = run_generate_client_plan(&plan, &mut client_side, "hello", None).unwrap();
    assert_eq!(client.failure.as_deref(), Some("transport.uncertain"));
    assert_eq!(client.final_state, "transport-uncertain");
    let demo = demo_report("memory+fault", client, server);
    assert!(!demo.outcome_equivalent);
    assert!(!demo.semantic_trace_equivalent);
}

#[test]
fn errors_read_as_messages() {
    let fault = FaultPlan {
        role: "server".to_string(),
        operation: FaultOperation::Send,
        occurrence: 99,
        failure: "transport.closed".to_string(),
        peer_failure: None,
    };
    let message = unfired_fault(&fault).to_string();
    assert!(message.contains("fault plan did not fire"));
    assert_eq!(
        message,
        "reference workload error: fault plan did not fire: server send occurrence 99 was not reached"
    );
    assert_eq!(
        RuntimeError::EnvelopeTooLarge { actual: 20000000, limit: MAX_ENVELOPE_BYTES }.to_string(),
        "wire envelope is 20000000 bytes; the limit is 16777216 bytes"
    );
    assert_eq!(
        RuntimeError::SequenceMismatch { role: "server".to_string(), expected: 3, actual: 5 }.to_string(),
        "endpoint server expected sequence 3, received 5"
    );
    assert_eq!(
        RuntimeError::Plan(eve::plan::PlanError::Invalid("x".to_string())).to_string(),
        "invalid Eve Plan: x"
    );
}

#[test]
fn memory_plan_completes_through_explicit_cancellation() {
    let report = memory_session(&conversation(), "hello", 5, Some(2), false).unwrap();
    assert_eq!(report.transport_plan, "memory");
    assert_eq!(report.client.tokens, vec![1, 2]);
    assert_eq!(report.server.tokens, vec![1, 2]);
    assert!(report.client.completed);
    assert!(report.server.completed);
    assert!(report.semantic_trace_equivalent);
    assert_eq!(report.client.conversation_identity, report.server.conversation_identity);
}

#[test]
fn compact_memory_preserves_explicit_cancellation() {
    let report = memory_session(&conversation(), "cancel compactly", 5, Some(2), true).unwrap();
    assert_eq!(report.transport_plan, "memory+compact");
    assert_eq!(report.client.tokens, vec![1, 2]);
    assert_eq!(report.server.tokens, vec![1, 2]);
    assert!(report.semantic_trace_equivalent);
    assert!(report.outcome_equivalent);
}

#[test]
fn deterministic_transport_fault_reaches_typed_failure_on_both_roles() {
    let report = fault_session(
        &conversation(),
        "hello",
        5,
        None,
        FaultPlan {
            role: "server".to_string(),
            operation: FaultOperation::Send,
            occurrence: 2,
            failure: "transport.closed".to_string(),
            peer_failure: None,
        },
    )
    .unwrap();
    assert!(report.client.completed);
    assert!(report.server.completed);
    assert!(!report.client.successful);
    assert!(!report.server.successful);
    assert_eq!(report.client.failure.as_deref(), Some("transport.closed"));
    assert_eq!(report.server.failure.as_deref(), Some("transport.closed"));
    assert!(report.outcome_equivalent);
    assert!(!report.semantic_trace_equivalent);
    assert_eq!(report.fault_plan.as_ref().map(|plan| plan.occurrence), Some(2));
}

#[test]
fn deterministic_receive_fault_reaches_typed_failure_on_both_roles() {
    let report = fault_session(
        &conversation(),
        "hello",
        5,
        None,
        FaultPlan {
            role: "client".to_string(),
            operation: FaultOperation::Receive,
            occurrence: 2,
            failure: "transport.closed".to_string(),
            peer_failure: None,
        },
    )
    .unwrap();
    assert!(report.client.completed);
    assert!(report.server.completed);
    assert!(report.outcome_equivalent);
    assert_eq!(report.client.failure, report.server.failure);
}

#[test]
fn asymmetric_fault_preserves_each_endpoints_local_truth() {
    let report = fault_session(
        &conversation(),
        "hello",
        5,
        None,
        FaultPlan {
            role: "server".to_string(),
            operation: FaultOperation::Send,
            occurrence: 2,
            failure: "transport.timeout".to_string(),
            peer_failure: Some("transport.uncertain".to_string()),
        },
    )
    .unwrap();
    assert_eq!(report.server.failure.as_deref(), Some("transport.timeout"));
    assert_eq!(report.client.failure.as_deref(), Some("transport.uncertain"));
    assert_eq!(report.server.final_state, "transport-timeout");
    assert_eq!(report.client.final_state, "transport-uncertain");
    assert!(!report.outcome_equivalent);
    assert!(!report.semantic_trace_equivalent);
}

#[test]
fn fault_demo_rejects_an_unreached_occurrence() {
    let error = fault_session(
        &conversation(),
        "hello",
        1,
        None,
        FaultPlan {
            role: "server".to_string(),
            operation: FaultOperation::Send,
            occurrence: 99,
            failure: "transport.closed".to_string(),
            peer_failure: None,
        },
    )
    .unwrap_err();
    assert!(error.to_string().contains("fault plan did not fire"));
}

#[test]
fn step_functions_decide_on_each_frame() {
    let select = |by: &str, label: &str| Frame::Select { by: by.to_string(), label: label.to_string() };
    assert!(matches!(client_action(&select("server", "done")), ClientAction::Wait));
    assert!(matches!(client_action(&select("server", "token")), ClientAction::ReceiveToken));
    assert!(matches!(client_action(&select("server", "later")), ClientAction::Refuse(RuntimeError::Application(ref m)) if m == "client received unexpected frame Select { by: \"server\", label: \"later\" }"));
    assert!(client_cancels(2, Some(2)));
    assert!(!client_cancels(1, Some(2)));
    assert!(!client_cancels(7, None));
    assert!(matches!(server_turn(3, 3), ServerTurn::SelectDone));
    assert!(matches!(server_turn(2, 3), ServerTurn::SendToken(3)));
    assert!(matches!(server_reply(&select("client", "continue")), ServerReply::Continue));
    assert!(matches!(server_reply(&select("client", "cancel")), ServerReply::AwaitCancel));
    assert!(matches!(server_reply(&select("client", "stop")), ServerReply::Refuse(RuntimeError::Application(ref m)) if m == "server received unexpected frame Select { by: \"client\", label: \"stop\" }"));
    let cancel = Frame::Cancel { from: "client".to_string(), to: "server".to_string(), scope: "generation".to_string() };
    assert!(server_cancellation(&cancel).is_ok());
    assert!(matches!(server_cancellation(&select("client", "continue")), Err(RuntimeError::Application(ref m)) if m == "server expected cancellation, received Select { by: \"client\", label: \"continue\" }"));
}
