//! Endpoint machines: one role of a prepared plan executing its local protocol, and the
//! errors a session can end with.
use vstd::prelude::*;
use std::sync::Arc;
use crate::conversation::{Conversation};
use crate::debug::{state_debug, state_text, frame_debug, frame_debug_text, list_debug, keys_text};
use crate::map::{TextPairs, lookup, keys_of, values_of, lemma_lookup_index};
use crate::plan::{
    PlanError, PreparedPlan, EvePlan, endpoint_is_closed, endpoint_state_ids, is_first_with_role,
    is_compilation_of, plan_is_sound, prepared_from, role_ordered_projection, shared_value, compile_failure,
};
use crate::identity::conversation_identity_of;
use crate::projection::{Endpoint, EndpointState, endpoint_failure_edges, endpoint_projects};
use crate::text::{decimal, push_decimal, push_text, same_text, text_from};
use crate::trace::Frame;
use crate::validate::{is_valid, diagnostics_view, validation_diagnostics};

pub use crate::plan::conversation_identity;
pub use crate::wire::{
    WireEncoding, SessionPreface, CompactEnvelope, CompactWireCodec, EnvelopeCodec,
    MAX_ENVELOPE_BYTES, MAX_SESSION_PREFACE_BYTES, SESSION_ACCEPTED, SESSION_REJECTED,
    check_envelope_size, check_peer_status, check_preface_size, encode_envelope, encode_session_preface,
    local_session_preface, require_session_field, transition_matches,
};
pub use crate::fault::{FaultOperation, FaultPlan, FaultInjectingTransport};
pub use crate::driver::{
    ExecutionReport, DemoReport, run_generate_client, run_generate_client_plan,
    run_generate_server, run_generate_server_plan, token_payload, prompt_payload,
    trace_identity, report, demo_report, check_fault_plan, unfired_fault, fault_demo_report,
    ClientAction, ServerTurn, ServerReply, client_action, client_cancels, server_turn, server_reply,
    server_cancellation,
};

verus! {

pub const WIRE_FORMAT: &'static str = "0.1.0";

pub const SESSION_FORMAT: &'static str = "0.1.0";

/// What kind of I/O failure a transport met, as far as the runtime tells them apart.
#[derive(Debug, Clone, Copy, PartialEq, Eq)]
pub enum IoErrorKind {
    TimedOut,
    WouldBlock,
    ConnectionReset,
    ConnectionRefused,
    AddrNotAvailable,
    NotConnected,
    UnexpectedEof,
    Other,
}

/// An I/O failure of a transport: its kind and its message.
#[derive(Debug, Clone)]
pub struct IoFailure {
    pub kind: IoErrorKind,
    pub message: String,
}

/// Why a session, a codec or a transport failed.
#[derive(Debug)]
pub enum RuntimeError {
    Plan(PlanError),
    UnknownRole(String),
    Codec(String),
    CompactWire(String),
    SessionRequired(&'static str),
    SessionMismatch { field: &'static str, expected: String, actual: String },
    SessionRejected(&'static str),
    Io(IoFailure),
    TransportClosed(&'static str),
    EnvelopeTooLarge { actual: usize, limit: usize },
    SessionPrefaceTooLarge { actual: usize, limit: usize },
    WireVersion { actual: String, expected: &'static str },
    ConversationMismatch { role: String, expected: String, actual: String },
    IdentityMismatch { role: String, expected: String, actual: String },
    StateMismatch { role: String, expected: String, actual: String },
    SequenceMismatch { role: String, expected: u64, actual: u64 },
    Protocol { role: String, state: String, action: &'static str, detail: String },
    Application(String),
    WorkerPanicked,
    Quic(String),
    InjectedFailure { role: String, operation: &'static str, occurrence: usize, failure: String },
}

/// The declared failure a transport error stands for: timeouts, resets and unreachable
/// peers have their own, every other I/O failure and every closed transport is
/// `transport.closed`, and an injected failure names its own.
pub open spec fn failure_of(e: RuntimeError) -> Option<Seq<char>> {
    match e {
        RuntimeError::Io(io) => Some(
            match io.kind {
                IoErrorKind::TimedOut | IoErrorKind::WouldBlock => "transport.timeout"@,
                IoErrorKind::ConnectionReset => "transport.reset"@,
                IoErrorKind::ConnectionRefused | IoErrorKind::AddrNotAvailable
                | IoErrorKind::NotConnected => "transport.unreachable"@,
                _ => "transport.closed"@,
            },
        ),
        RuntimeError::TransportClosed(_) | RuntimeError::Quic(_) => Some("transport.closed"@),
        RuntimeError::InjectedFailure { failure, .. } => Some(failure@),
        _ => None,
    }
}

impl RuntimeError {
    /// The declared failure this error stands for, if it is a transport failure.
    pub fn transport_failure(&self) -> (r: Option<&str>)
        ensures
            match r {
                Some(f) => failure_of(*self) == Some(f@),
                None => failure_of(*self) is None,
            },
    {
        match self {
            RuntimeError::Io(io) => Some(
                match io.kind {
                    IoErrorKind::TimedOut | IoErrorKind::WouldBlock => "transport.timeout",
                    IoErrorKind::ConnectionReset => "transport.reset",
                    IoErrorKind::ConnectionRefused | IoErrorKind::AddrNotAvailable
                    | IoErrorKind::NotConnected => "transport.unreachable",
                    _ => "transport.closed",
                },
            ),
            RuntimeError::TransportClosed(_) | RuntimeError::Quic(_) => Some("transport.closed"),
            RuntimeError::InjectedFailure { failure, .. } => Some(failure.as_str()),
            _ => None,
        }
    }
}

/// The message of a runtime error.
pub open spec fn runtime_error_text(e: RuntimeError) -> Seq<char> {
    match e {
        RuntimeError::Plan(p) => crate::plan::plan_error_text(p),
        RuntimeError::UnknownRole(r) => "conversation has no projected endpoint for role "@ + r@,
        RuntimeError::Codec(m) => "wire codec error: "@ + m@,
        RuntimeError::CompactWire(m) => "compact Eve Wire error: "@ + m@,
        RuntimeError::SessionRequired(t) => t@ + " compact transport requires a verified Eve session preface"@,
        RuntimeError::SessionMismatch { field, expected, actual } => "Eve session mismatch for "@ + field@
            + ": expected "@ + expected@ + ", received "@ + actual@,
        RuntimeError::SessionRejected(t) => t@ + " peer rejected the Eve session preface"@,
        RuntimeError::Io(f) => "transport I/O error: "@ + f.message@,
        RuntimeError::TransportClosed(t) => t@ + " transport closed before the conversation completed"@,
        RuntimeError::EnvelopeTooLarge { actual, limit } => "wire envelope is "@ + decimal(actual as nat)
            + " bytes; the limit is "@ + decimal(limit as nat) + " bytes"@,
        RuntimeError::SessionPrefaceTooLarge { actual, limit } => "Eve session preface is "@ + decimal(actual as nat)
            + " bytes; the limit is "@ + decimal(limit as nat) + " bytes"@,
        RuntimeError::WireVersion { actual, expected } => "unsupported Eve Wire version "@ + actual@ + "; expected "@
            + expected@,
        RuntimeError::ConversationMismatch { role, expected, actual } => "endpoint "@ + role@ + " expected conversation "@
            + expected@ + ", received "@ + actual@,
        RuntimeError::IdentityMismatch { role, expected, actual } => "endpoint "@ + role@
            + " expected semantic identity "@ + expected@ + ", received "@ + actual@,
        RuntimeError::StateMismatch { role, expected, actual } => "endpoint "@ + role@ + " is at state "@ + expected@
            + ", received frame for state "@ + actual@,
        RuntimeError::SequenceMismatch { role, expected, actual } => "endpoint "@ + role@ + " expected sequence "@
            + decimal(expected as nat) + ", received "@ + decimal(actual as nat),
        RuntimeError::Protocol { role, state, action, detail } => "endpoint "@ + role@ + " cannot "@ + action@
            + " in state "@ + state@ + ": "@ + detail@,
        RuntimeError::Application(m) => "reference workload error: "@ + m@,
        RuntimeError::WorkerPanicked => "runtime worker panicked"@,
        RuntimeError::Quic(m) => "QUIC transport error: "@ + m@,
        RuntimeError::InjectedFailure { role, operation, occurrence, failure } => "injected failure "@ + failure@
            + " for "@ + role@ + " on "@ + operation@ + " operation "@ + decimal(occurrence as nat),
    }
}

fn usize_decimal(n: usize) -> (r: String)
    ensures
        r@ == decimal(n as nat),
{
    let mut s = String::new();
    push_decimal(&mut s, n as u64);
    assert(s@ =~= decimal(n as nat));
    s
}

impl RuntimeError {
    /// The message of the error.
    pub fn to_string(&self) -> (s: String)
        ensures
            s@ == runtime_error_text(*self),
    {
        match self {
            RuntimeError::Plan(p) => p.to_string(),
            RuntimeError::UnknownRole(r) => {
                let mut s = text_from("conversation has no projected endpoint for role ");
                push_text(&mut s, r.as_str());
                s
            },
            RuntimeError::Codec(m) => {
                let mut s = text_from("wire codec error: ");
                push_text(&mut s, m.as_str());
                s
            },
            RuntimeError::CompactWire(m) => {
                let mut s = text_from("compact Eve Wire error: ");
                push_text(&mut s, m.as_str());
                s
            },
            RuntimeError::SessionRequired(t) => {
                let mut s = text_from(t);
                push_text(&mut s, " compact transport requires a verified Eve session preface");
                s
            },
            RuntimeError::SessionMismatch { field, expected, actual } => {
                let mut s = text_from("Eve session mismatch for ");
                push_text(&mut s, field);
                push_text(&mut s, ": expected ");
                push_text(&mut s, expected.as_str());
                push_text(&mut s, ", received ");
                push_text(&mut s, actual.as_str());
                s
            },
            RuntimeError::SessionRejected(t) => {
                let mut s = text_from(t);
                push_text(&mut s, " peer rejected the Eve session preface");
                s
            },
            RuntimeError::Io(f) => {
                let mut s = text_from("transport I/O error: ");
                push_text(&mut s, f.message.as_str());
                s
            },
            RuntimeError::TransportClosed(t) => {
                let mut s = text_from(t);
                push_text(&mut s, " transport closed before the conversation completed");
                s
            },
            RuntimeError::EnvelopeTooLarge { actual, limit } => {
                let mut s = text_from("wire envelope is ");
                push_text(&mut s, usize_decimal(*actual).as_str());
                push_text(&mut s, " bytes; the limit is ");
                push_text(&mut s, usize_decimal(*limit).as_str());
                push_text(&mut s, " bytes");
                s
            },
            RuntimeError::SessionPrefaceTooLarge { actual, limit } => {
                let mut s = text_from("Eve session preface is ");
                push_text(&mut s, usize_decimal(*actual).as_str());
                push_text(&mut s, " bytes; the limit is ");
                push_text(&mut s, usize_decimal(*limit).as_str());
                push_text(&mut s, " bytes");
                s
            },
            RuntimeError::WireVersion { actual, expected } => {
                let mut s = text_from("unsupported Eve Wire version ");
                push_text(&mut s, actual.as_str());
                push_text(&mut s, "; expected ");
                push_text(&mut s, expected);
                s
            },
            RuntimeError::ConversationMismatch { role, expected, actual } => {
                let mut s = text_from("endpoint ");
                push_text(&mut s, role.as_str());
                push_text(&mut s, " expected conversation ");
                push_text(&mut s, expected.as_str());
                push_text(&mut s, ", received ");
                push_text(&mut s, actual.as_str());
                s
            },
            RuntimeError::IdentityMismatch { role, expected, actual } => {
                let mut s = text_from("endpoint ");
                push_text(&mut s, role.as_str());
                push_text(&mut s, " expected semantic identity ");
                push_text(&mut s, expected.as_str());
                push_text(&mut s, ", received ");
                push_text(&mut s, actual.as_str());
                s
            },
            RuntimeError::StateMismatch { role, expected, actual } => {
                let mut s = text_from("endpoint ");
                push_text(&mut s, role.as_str());
                push_text(&mut s, " is at state ");
                push_text(&mut s, expected.as_str());
                push_text(&mut s, ", received frame for state ");
                push_text(&mut s, actual.as_str());
                s
            },
            RuntimeError::SequenceMismatch { role, expected, actual } => {
                let mut s = text_from("endpoint ");
                push_text(&mut s, role.as_str());
                push_text(&mut s, " expected sequence ");
                push_decimal(&mut s, *expected);
                push_text(&mut s, ", received ");
                push_decimal(&mut s, *actual);
                s
            },
            RuntimeError::Protocol { role, state, action, detail } => {
                let mut s = text_from("endpoint ");
                push_text(&mut s, role.as_str());
                push_text(&mut s, " cannot ");
                push_text(&mut s, action);
                push_text(&mut s, " in state ");
                push_text(&mut s, state.as_str());
                push_text(&mut s, ": ");
                push_text(&mut s, detail.as_str());
                s
            },
            RuntimeError::Application(m) => {
                let mut s = text_from("reference workload error: ");
                push_text(&mut s, m.as_str());
                s
            },
            RuntimeError::WorkerPanicked => text_from("runtime worker panicked"),
            RuntimeError::Quic(m) => {
                let mut s = text_from("QUIC transport error: ");
                push_text(&mut s, m.as_str());
                s
            },
            RuntimeError::InjectedFailure { role, operation, occurrence, failure } => {
                let mut s = text_from("injected failure ");
                push_text(&mut s, failure.as_str());
                push_text(&mut s, " for ");
                push_text(&mut s, role.as_str());
                push_text(&mut s, " on ");
                push_text(&mut s, operation);
                push_text(&mut s, " operation ");
                push_text(&mut s, usize_decimal(*occurrence).as_str());
                s
            },
        }
    }
}

/// The self-describing reference envelope of one transition.
#[derive(Debug, Clone, PartialEq, Eq)]
pub struct WireEnvelope {
    pub eve_wire: String,
    pub conversation: String,
    pub conversation_identity: String,
    pub state: String,
    pub sequence: u64,
    pub frame: Frame,
}

/// The position of the first entry equal to `t`, or -1.
pub open spec fn first_index(ids: Seq<Seq<char>>, t: Seq<char>) -> int
    decreases ids.len(),
{
    if ids.len() == 0 {
        -1
    } else if ids[0] == t {
        0
    } else {
        let r = first_index(ids.drop_first(), t);
        if r < 0 {
            -1
        } else {
            r + 1
        }
    }
}

pub proof fn lemma_first_index(ids: Seq<Seq<char>>, t: Seq<char>)
    ensures
        ids.contains(t) ==> {
            let i = first_index(ids, t);
            0 <= i < ids.len() && ids[i] == t && forall|j: int| 0 <= j < i ==> ids[j] != t
        },
        !ids.contains(t) ==> first_index(ids, t) == -1,
    decreases ids.len(),
{
    if ids.len() > 0 {
        lemma_first_index(ids.drop_first(), t);
        if ids[0] != t {
            if ids.contains(t) {
                let k = choose|k: int| 0 <= k < ids.len() && ids[k] == t;
                assert(ids.drop_first()[k - 1] == t);
                let i = first_index(ids.drop_first(), t);
                assert forall|j: int| 0 <= j < i + 1 implies ids[j] != t by {
                    if j > 0 {
                        assert(ids[j] == ids.drop_first()[j - 1]);
                    }
                }
            } else {
                assert(!ids.drop_first().contains(t)) by {
                    if ids.drop_first().contains(t) {
                        let k = choose|k: int| 0 <= k < ids.drop_first().len() && ids.drop_first()[k] == t;
                        assert(ids[k + 1] == t);
                    }
                }
            }
        } else {
            assert(ids.contains(t)) by {
                assert(ids[0] == t);
            }
        }
    }
}

/// The state of an endpoint that carries the id `id` (the first such state).
pub open spec fn state_named(e: Endpoint, id: Seq<char>) -> EndpointState {
    e.states@[first_index(endpoint_state_ids(e.states@), id)]
}

/// Where a state moves on an incoming frame, or `None` when it does not take it: a
/// receive takes data from its peer to this role with its message type, a branch takes
/// a selection by its peer of one of its labels, a cancellation receive takes the
/// cancellation from its peer to this role in its scope.
pub open spec fn accept_step(s: EndpointState, role: Seq<char>, frame: Frame) -> Option<Seq<char>> {
    match (s, frame) {
        (
            EndpointState::Receive { from, message, next, .. },
            Frame::Data { from: f, to: t, message: m, .. },
        ) => if from@ == f@ && role == t@ && message@ == m@ {
            Some(next@)
        } else {
            None
        },
        (EndpointState::Branch { from, branches, .. }, Frame::Select { by, label }) => if from@ == by@
            && lookup(branches@, label@) is Some {
            lookup(branches@, label@)
        } else {
            None
        },
        (
            EndpointState::ReceiveCancel { from, scope, next, .. },
            Frame::Cancel { from: f, to: t, scope: sc },
        ) => if from@ == f@ && role == t@ && scope@ == sc@ {
            Some(next@)
        } else {
            None
        },
        _ => None,
    }
}

/// `frame` is what `role` emits in state `s`, moving to `next`: data to its peer with its
/// message type, a selection of one of its labels, or a cancellation in its scope.
pub open spec fn emits(s: EndpointState, role: Seq<char>, frame: Frame, next: Seq<char>) -> bool {
    match s {
        EndpointState::Send { to, message, next: n, .. } => frame matches Frame::Data {
            from: f,
            to: t,
            message: m,
            ..
        } && f@ == role && t@ == to@ && m@ == message@ && next == n@,
        EndpointState::Select { branches, .. } => frame matches Frame::Select { by, label } && by@
            == role && lookup(branches@, label@) == Some(next),
        EndpointState::SendCancel { to, scope, next: n, .. } => frame matches Frame::Cancel {
            from: f,
            to: t,
            scope: sc,
        } && f@ == role && t@ == to@ && sc@ == scope@ && next == n@,
        _ => false,
    }
}

/// Where a state moves when `role` emits the frame, or `None` when it cannot emit it.
pub open spec fn emit_step(s: EndpointState, role: Seq<char>, frame: Frame) -> Option<Seq<char>> {
    match (s, frame) {
        (EndpointState::Send { to, message, next, .. }, Frame::Data { from: f, to: t, message: m, .. }) => if f@
            == role && t@ == to@ && m@ == message@ {
            Some(next@)
        } else {
            None
        },
        (EndpointState::Select { branches, .. }, Frame::Select { by, label }) => if by@ == role {
            lookup(branches@, label@)
        } else {
            None
        },
        (EndpointState::SendCancel { to, scope, next, .. }, Frame::Cancel { from: f, to: t, scope: sc }) => if f@
            == role && t@ == to@ && sc@ == scope@ {
            Some(next@)
        } else {
            None
        },
        _ => None,
    }
}

/// Where a state of the endpoint of `role` moves on a frame of one of its runs: a fault
/// that role observed follows a declared failure edge; any other frame is one the state
/// receives or one it emits.
pub open spec fn endpoint_step(s: EndpointState, role: Seq<char>, frame: Frame) -> Option<Seq<char>> {
    match frame {
        Frame::Fault { observer, failure } => if observer@ == role {
            lookup(endpoint_failure_edges(s), failure@)
        } else {
            None
        },
        _ => if accept_step(s, role, frame) is Some {
            accept_step(s, role, frame)
        } else {
            emit_step(s, role, frame)
        },
    }
}

/// The state the endpoint of `role` reaches through `frames` from its initial state, or
/// `None` when some frame is not a step of it.
pub open spec fn endpoint_run(e: Endpoint, role: Seq<char>, frames: Seq<Frame>) -> Option<Seq<char>>
    decreases frames.len(),
{
    if frames.len() == 0 {
        Some(e.initial@)
    } else {
        match endpoint_run(e, role, frames.drop_last()) {
            Some(cur) => endpoint_step(state_named(e, cur), role, frames.last()),
            None => None,
        }
    }
}

/// A run extended by one step.
pub proof fn lemma_run_push(e: Endpoint, role: Seq<char>, frames: Seq<Frame>, frame: Frame, cur: Seq<char>)
    requires
        endpoint_run(e, role, frames) == Some(cur),
    ensures
        endpoint_run(e, role, frames.push(frame)) == endpoint_step(state_named(e, cur), role, frame),
{
    assert(frames.push(frame).drop_last() =~= frames);
}

/// An emitted frame is a step of the emitting state.
pub proof fn lemma_emits_step(s: EndpointState, role: Seq<char>, frame: Frame, next: Seq<char>)
    requires
        emits(s, role, frame, next),
    ensures
        endpoint_step(s, role, frame) == Some(next),
{
}

/// One call of a machine's transition method: a successful call takes one step of the
/// same session, a refused one leaves the machine as it was.
pub open spec fn one_call(before: EndpointMachine, after: EndpointMachine, ok: bool) -> bool {
    if ok {
        after.same_session(before) && after.sequence_view() == before.sequence_view() + 1
    } else {
        after == before
    }
}

/// How many of the calls succeeded.
pub open spec fn successes(oks: Seq<bool>) -> nat
    decreases oks.len(),
{
    if oks.len() == 0 {
        0
    } else {
        successes(oks.drop_last()) + if oks.last() {
            1nat
        } else {
            0nat
        }
    }
}

/// Over any series of calls of a machine's transition methods, its sequence number
/// grows by the number of calls that succeeded, and never decreases.
pub proof fn law_sequence_counts_successful_calls(ms: Seq<EndpointMachine>, oks: Seq<bool>)
    requires
        ms.len() == oks.len() + 1,
        forall|i: int| 0 <= i < oks.len() ==> one_call(#[trigger] ms[i], ms[i + 1], oks[i]),
    ensures
        ms.last().sequence_view() == ms[0].sequence_view() + successes(oks),
        forall|i: int, j: int| 0 <= i <= j < ms.len() ==> ms[i].sequence_view() <= ms[j].sequence_view(),
    decreases oks.len(),
{
    if oks.len() > 0 {
        let n = oks.len() as int;
        law_sequence_counts_successful_calls(ms.drop_last(), oks.drop_last());
        assert(one_call(ms[n - 1], ms[n], oks[n - 1]));
        assert(ms.drop_last().last() == ms[n - 1]);
        assert forall|i: int, j: int| 0 <= i <= j < ms.len() implies ms[i].sequence_view() <= ms[j].sequence_view() by {
            if j == n && i < n {
                assert(ms.drop_last()[i] == ms[i]);
                assert(ms.drop_last()[n - 1] == ms[n - 1]);
            } else if j < n {
                assert(ms.drop_last()[i] == ms[i]);
                assert(ms.drop_last()[j] == ms[j]);
            }
        }
    }
}

/// One role of a prepared plan executing its endpoint machine.
#[derive(Debug)]
pub struct EndpointMachine {
    endpoint: Arc<Endpoint>,
    conversation_identity: String,
    plan_identity: String,
    current: String,
    sequence: u64,
}

impl EndpointMachine {
    /// The endpoint is closed and the current state is one of its states.
    #[verifier::type_invariant]
    spec fn at_known_state(&self) -> bool {
        &&& endpoint_is_closed(*self.endpoint)
        &&& endpoint_state_ids(self.endpoint.states@).contains(self.current@)
    }

    pub closed spec fn endpoint_view(&self) -> Endpoint {
        *self.endpoint
    }

    pub closed spec fn identity_view(&self) -> Seq<char> {
        self.conversation_identity@
    }

    pub closed spec fn plan_identity_view(&self) -> Seq<char> {
        self.plan_identity@
    }

    pub closed spec fn current_view(&self) -> Seq<char> {
        self.current@
    }

    pub closed spec fn sequence_view(&self) -> u64 {
        self.sequence
    }

    /// The local state the machine is in.
    pub open spec fn state_view(&self) -> EndpointState {
        state_named(self.endpoint_view(), self.current_view())
    }

    /// The machine is still the same session: same endpoint and identities.
    pub open spec fn same_session(&self, other: EndpointMachine) -> bool {
        &&& self.endpoint_view() == other.endpoint_view()
        &&& self.identity_view() == other.identity_view()
        &&& self.plan_identity_view() == other.plan_identity_view()
    }
}

/// The position of the value that `lookup` finds.
pub proof fn lemma_lookup_value(m: TextPairs, key: Seq<char>) -> (q: int)
    requires
        lookup(m, key) is Some,
    ensures
        0 <= q < m.len(),
        values_of(m)[q] == lookup(m, key)->0,
{
    lemma_lookup_index(m, key);
    let q = choose|q: int|
        0 <= q < m.len() && #[trigger] m[q].0 == key && lookup(m, key) == Some(m[q].1)
            && forall|j: int| 0 <= j < q ==> m[j].0 != key;
    q
}

/// A declared failure of a state of a closed endpoint leads to one of its states.
proof fn lemma_failure_target_known(e: Endpoint, i: int, failure: Seq<char>)
    requires
        endpoint_is_closed(e),
        0 <= i < e.states.len(),
        lookup(endpoint_failure_edges(e.states@[i]), failure) is Some,
    ensures
        endpoint_state_ids(e.states@).contains(lookup(endpoint_failure_edges(e.states@[i]), failure)->0),
{
    let s = e.states@[i];
    let succ = crate::projection::endpoint_successors(s);
    let q = lemma_lookup_value(endpoint_failure_edges(s), failure);
    match s {
        EndpointState::Select { branches, .. } | EndpointState::Branch { branches, .. } => {
            assert(succ[values_of(branches@).len() + q] == values_of(endpoint_failure_edges(s))[q]);
            assert(endpoint_state_ids(e.states@).contains(succ[values_of(branches@).len() + q]));
        },
        EndpointState::End { .. } | EndpointState::Fail { .. } => {},
        _ => {
            assert(succ[1 + q] == values_of(endpoint_failure_edges(s))[q]);
            assert(endpoint_state_ids(e.states@).contains(succ[1 + q]));
        },
    }
}

/// A label of a selection or branch state of a closed endpoint leads to one of its
/// states.
proof fn lemma_branch_target_known(e: Endpoint, i: int, branches: TextPairs, label: Seq<char>)
    requires
        endpoint_is_closed(e),
        0 <= i < e.states.len(),
        (e.states@[i] matches EndpointState::Select { branches: b, .. } && b@ == branches)
            || (e.states@[i] matches EndpointState::Branch { branches: b, .. } && b@ == branches),
        lookup(branches, label) is Some,
    ensures
        endpoint_state_ids(e.states@).contains(lookup(branches, label)->0),
{
    let succ = crate::projection::endpoint_successors(e.states@[i]);
    let q = lemma_lookup_value(branches, label);
    assert(succ[q] == values_of(branches)[q]);
    assert(endpoint_state_ids(e.states@).contains(succ[q]));
}

/// The continuation of a send, receive or cancellation state of a closed endpoint is one
/// of its states.
proof fn lemma_next_known(e: Endpoint, i: int)
    requires
        endpoint_is_closed(e),
        0 <= i < e.states.len(),
    ensures
        match e.states@[i] {
            EndpointState::Send { next, .. } | EndpointState::Receive { next, .. }
            | EndpointState::SendCancel { next, .. } | EndpointState::ReceiveCancel { next, .. } =>
                endpoint_state_ids(e.states@).contains(next@),
            _ => true,
        },
{
    let succ = crate::projection::endpoint_successors(e.states@[i]);
    match e.states@[i] {
        EndpointState::Send { next, .. } | EndpointState::Receive { next, .. }
        | EndpointState::SendCancel { next, .. } | EndpointState::ReceiveCancel { next, .. } => {
            assert(succ[0] == next@);
        },
        _ => {},
    }
}

/// The first state of `states` whose id is `id`.
fn find_state(states: &Vec<EndpointState>, id: &str) -> (r: Option<usize>)
    ensures
        match r {
            Some(i) => i == first_index(endpoint_state_ids(states@), id@) && i < states.len(),
            None => !endpoint_state_ids(states@).contains(id@),
        },
{
    let ghost ids = endpoint_state_ids(states@);
    proof {
        lemma_first_index(ids, id@);
    }
    let mut i: usize = 0;
    while i < states.len()
        invariant
            ids == endpoint_state_ids(states@),
            i <= states.len(),
            forall|j: int| 0 <= j < i ==> ids[j] != id@,
            ids.contains(id@) ==> {
                let k = first_index(ids, id@);
                0 <= k < ids.len() && ids[k] == id@ && forall|j: int| 0 <= j < k ==> ids[j] != id@
            },
        decreases states.len() - i,
    {
        if same_text(states[i].id(), id) {
            assert(ids[i as int] == id@);
            return Some(i);
        }
        i = i + 1;
    }
    None
}

/// `r` is the protocol refusal of machine `m` for `action`, in state `state`, with
/// `detail`.
pub open spec fn protocol_refusal<T>(m: EndpointMachine, state: Seq<char>, r: Result<T, RuntimeError>, action: &'static str, detail: Seq<char>) -> bool {
    r matches Err(RuntimeError::Protocol { role, state: st, action: a, detail: d }) && role@
        == m.endpoint_view().role@ && st@ == state && a == action && d@ == detail
}

/// `after` is `before` having emitted `env`: the envelope carries the wire format, the
/// conversation, its identity, the state left and the sequence number; the machine
/// moved to the state the frame leads to and counted one transition.
pub open spec fn emitted(before: EndpointMachine, after: EndpointMachine, env: WireEnvelope) -> bool {
    &&& after.same_session(before)
    &&& env.eve_wire@ == WIRE_FORMAT@
    &&& env.conversation@ == before.endpoint_view().conversation@
    &&& env.conversation_identity@ == before.identity_view()
    &&& env.state@ == before.current_view()
    &&& env.sequence == before.sequence_view()
    &&& after.sequence_view() == before.sequence_view() + 1
    &&& emits(before.state_view(), before.endpoint_view().role@, env.frame, after.current_view())
    &&& endpoint_state_ids(before.endpoint_view().states@).contains(env.state@)
}

/// The envelope is for this machine: the wire format, the conversation, its identity,
/// the current state and the next sequence number all agree.
pub open spec fn envelope_fits(m: EndpointMachine, env: WireEnvelope) -> bool {
    &&& env.eve_wire@ == WIRE_FORMAT@
    &&& env.conversation@ == m.endpoint_view().conversation@
    &&& env.conversation_identity@ == m.identity_view()
    &&& env.state@ == m.current_view()
    &&& env.sequence == m.sequence_view()
}

/// The error for the first check an envelope fails, in the order: wire format,
/// conversation, identity, state, sequence.
pub open spec fn envelope_refusal<T>(m: EndpointMachine, env: WireEnvelope, r: Result<T, RuntimeError>) -> bool {
    let role = m.endpoint_view().role@;
    if env.eve_wire@ != WIRE_FORMAT@ {
        r matches Err(RuntimeError::WireVersion { actual, expected }) && actual@ == env.eve_wire@ && expected == WIRE_FORMAT
    } else if env.conversation@ != m.endpoint_view().conversation@ {
        r matches Err(RuntimeError::ConversationMismatch { role: ro, expected, actual }) && ro@ == role
            && expected@ == m.endpoint_view().conversation@ && actual@ == env.conversation@
    } else if env.conversation_identity@ != m.identity_view() {
        r matches Err(RuntimeError::IdentityMismatch { role: ro, expected, actual }) && ro@ == role
            && expected@ == m.identity_view() && actual@ == env.conversation_identity@
    } else if env.state@ != m.current_view() {
        r matches Err(RuntimeError::StateMismatch { role: ro, expected, actual }) && ro@ == role
            && expected@ == m.current_view() && actual@ == env.state@
    } else {
        r matches Err(RuntimeError::SequenceMismatch { role: ro, expected, actual }) && ro@ == role
            && expected == m.sequence_view() && actual == env.sequence
    }
}

/// `before` took `env` and became `after`, with result `r`: an envelope that does not fit
/// is refused by the first check it fails and leaves the machine as it was; one that fits
/// gives its frame and moves the machine where its state takes that frame, counting one
/// transition; a frame the state does not take is refused as a protocol error and leaves
/// the machine as it was.
pub open spec fn accepts(before: EndpointMachine, env: WireEnvelope, after: EndpointMachine, r: Result<Frame, RuntimeError>) -> bool {
    &&& one_call(before, after, r is Ok)
    &&& !envelope_fits(before, env) ==> after == before && envelope_refusal(before, env, r)
    &&& envelope_fits(before, env) ==> match accept_step(before.state_view(), before.endpoint_view().role@, env.frame) {
        Some(next) => r == Ok::<Frame, RuntimeError>(env.frame) && after.same_session(before)
            && after.current_view() == next && after.sequence_view() == before.sequence_view() + 1,
        None => after == before && protocol_refusal(before, before.current_view(), r, "receive frame",
            "local action is "@ + state_debug(before.state_view()) + "; received "@ + frame_debug(env.frame)),
    }
}

/// Accepting an envelope either changes nothing and fails, or gives exactly the
/// envelope's frame, which was sent from the machine's current state with its next
/// sequence number, and counts one transition. The checks go in a fixed order: wire
/// format, conversation, identity, state, sequence, and last whether the state takes the
/// frame.
pub proof fn law_accept_outcome(before: EndpointMachine, env: WireEnvelope, after: EndpointMachine, r: Result<Frame, RuntimeError>)
    requires
        accepts(before, env, after, r),
    ensures
        r is Err ==> after.current_view() == before.current_view() && after.sequence_view() == before.sequence_view(),
        r matches Ok(f) ==> f == env.frame && env.state@ == before.current_view() && env.sequence == before.sequence_view()
            && after.sequence_view() == before.sequence_view() + 1 && after.same_session(before),
        env.eve_wire@ != WIRE_FORMAT@ ==> r matches Err(RuntimeError::WireVersion { .. }),
        env.eve_wire@ == WIRE_FORMAT@ && env.conversation@ != before.endpoint_view().conversation@ ==> r matches Err(
            RuntimeError::ConversationMismatch { .. },
        ),
        env.eve_wire@ == WIRE_FORMAT@ && env.conversation@ == before.endpoint_view().conversation@
            && env.conversation_identity@ != before.identity_view() ==> r matches Err(RuntimeError::IdentityMismatch { .. }),
        env.eve_wire@ == WIRE_FORMAT@ && env.conversation@ == before.endpoint_view().conversation@
            && env.conversation_identity@ == before.identity_view() && env.state@ != before.current_view() ==> r matches Err(
            RuntimeError::StateMismatch { .. },
        ),
        env.eve_wire@ == WIRE_FORMAT@ && env.conversation@ == before.endpoint_view().conversation@
            && env.conversation_identity@ == before.identity_view() && env.state@ == before.current_view()
            && env.sequence != before.sequence_view() ==> r matches Err(RuntimeError::SequenceMismatch { .. }),
        envelope_fits(before, env) && accept_step(before.state_view(), before.endpoint_view().role@, env.frame) is None
            ==> r matches Err(RuntimeError::Protocol { .. }),
{
}

impl EndpointMachine {
    /// Starts the session of `role` on a prepared plan, at its initial state.
    pub fn from_plan(plan: &PreparedPlan, role: &str) -> (r: Result<EndpointMachine, RuntimeError>)
        ensures
            match r {
                Ok(m) => exists|i: int| #[trigger] is_first_with_role(plan.endpoints_view(), role@, i)
                    && m.endpoint_view() == shared_value(plan.endpoints_view()[i])
                    && m.current_view() == m.endpoint_view().initial@
                    && m.sequence_view() == 0
                    && m.identity_view() == plan.conversation_identity_view()
                    && m.plan_identity_view() == plan.plan_identity_view(),
                Err(e) => (forall|i: int| 0 <= i < plan.endpoints_view().len() ==> plan.endpoints_view()[i].role@ != role@)
                    && (e matches RuntimeError::UnknownRole(x) && x@ == role@),
            },
    {
        let endpoint = match plan.endpoint(role) {
            Some(e) => crate::plan::share(e),
            None => {
                return Err(RuntimeError::UnknownRole(text_from(role)));
            },
        };
        let current = endpoint.initial.clone();
        Ok(EndpointMachine {
            endpoint,
            conversation_identity: text_from(plan.conversation_identity()),
            plan_identity: text_from(plan.plan_identity()),
            current,
            sequence: 0,
        })
    }

    /// The role this machine plays.
    pub fn role(&self) -> (r: &str)
        ensures
            r@ == self.endpoint_view().role@,
    {
        self.endpoint.role.as_str()
    }

    /// The conversation this machine belongs to.
    pub fn conversation(&self) -> (r: &str)
        ensures
            r@ == self.endpoint_view().conversation@,
    {
        self.endpoint.conversation.as_str()
    }

    /// The semantic identity of the conversation.
    pub fn identity(&self) -> (r: &str)
        ensures
            r@ == self.identity_view(),
    {
        self.conversation_identity.as_str()
    }

    pub fn plan_identity(&self) -> (r: &str)
        ensures
            r@ == self.plan_identity_view(),
    {
        self.plan_identity.as_str()
    }

    pub fn current_state(&self) -> (r: &str)
        ensures
            r@ == self.current_view(),
    {
        self.current.as_str()
    }

    /// How many transitions the machine has taken.
    pub fn sequence(&self) -> (r: u64)
        ensures
            r == self.sequence_view(),
    {
        self.sequence
    }

    /// The shared endpoint graph this machine executes.
    pub fn endpoint(&self) -> (r: &Arc<Endpoint>)
        ensures
            shared_value(*r) == self.endpoint_view(),
    {
        &self.endpoint
    }

    fn state(&self) -> (r: &EndpointState)
        ensures
            *r == self.state_view(),
            0 <= first_index(endpoint_state_ids(self.endpoint_view().states@), self.current_view())
                < self.endpoint_view().states.len(),
            endpoint_is_closed(self.endpoint_view()),
    {
        proof {
            use_type_invariant(self);
        }
        let i = find_state(&self.endpoint.states, self.current.as_str());
        match i {
            Some(i) => &self.endpoint.states[i],
            None => {
                proof {
                    assert(false);
                }
                &self.endpoint.states[0]
            },
        }
    }

    /// The machine reached an end or a failure state.
    pub fn is_complete(&self) -> (r: bool)
        ensures
            r == (self.state_view() is End || self.state_view() is Fail),
    {
        match self.state() {
            EndpointState::End { .. } | EndpointState::Fail { .. } => true,
            _ => false,
        }
    }

    /// The machine reached an end state.
    pub fn is_successful(&self) -> (r: bool)
        ensures
            r == self.state_view() is End,
    {
        match self.state() {
            EndpointState::End { .. } => true,
            _ => false,
        }
    }

    /// The failure of the failure state the machine reached, if it did.
    pub fn failure(&self) -> (r: Option<&str>)
        ensures
            match self.state_view() {
                EndpointState::Fail { failure, .. } => r matches Some(f) && f@ == failure@,
                _ => r is None,
            },
    {
        match self.state() {
            EndpointState::Fail { failure, .. } => Some(failure.as_str()),
            _ => None,
        }
    }

    fn protocol_error(&self, action: &'static str, detail: String) -> (r: RuntimeError)
        ensures
            protocol_refusal(*self, self.current_view(), Err::<(), RuntimeError>(r), action, detail@),
    {
        RuntimeError::Protocol { role: text_from(self.role()), state: self.current.clone(), action, detail }
    }
}

impl EndpointMachine {
    fn emit(&mut self, frame: Frame, next: String) -> (env: WireEnvelope)
        requires
            old(self).sequence_view() < u64::MAX,
            endpoint_state_ids(old(self).endpoint_view().states@).contains(next@),
        ensures
            final(self).same_session(*old(self)),
            final(self).current_view() == next@,
            final(self).sequence_view() == old(self).sequence_view() + 1,
            env.eve_wire@ == WIRE_FORMAT@,
            env.conversation@ == old(self).endpoint_view().conversation@,
            env.conversation_identity@ == old(self).identity_view(),
            env.state@ == old(self).current_view(),
            env.sequence == old(self).sequence_view(),
            env.frame == frame,
    {
        proof {
            use_type_invariant(&*self);
        }
        let envelope = WireEnvelope {
            eve_wire: text_from(WIRE_FORMAT),
            conversation: text_from(self.conversation()),
            conversation_identity: text_from(self.identity()),
            state: self.current.clone(),
            sequence: self.sequence,
            frame,
        };
        self.current = next;
        self.sequence = self.sequence + 1;
        envelope
    }

    fn local_action_text(&self) -> (r: String)
        ensures
            r@ == "local action is "@ + state_debug(self.state_view()),
    {
        let mut d = text_from("local action is ");
        push_text(&mut d, state_text(self.state()).as_str());
        d
    }

    /// Sends data with `payload` (compact JSON text) from a send state.
    pub fn emit_data(&mut self, payload: String) -> (r: Result<WireEnvelope, RuntimeError>)
        requires
            old(self).state_view() is Send ==> old(self).sequence_view() < u64::MAX,
        ensures
            one_call(*old(self), *final(self), r is Ok),
            match old(self).state_view() {
                EndpointState::Send { .. } => r matches Ok(env) && emitted(*old(self), *final(self), env)
                    && (env.frame matches Frame::Data { payload: Some(p), .. } && p@ == payload@),
                _ => *final(self) == *old(self) && protocol_refusal(*old(self), old(self).current_view(), r,
                    "send data", "local action is "@ + state_debug(old(self).state_view())),
            },
    {
        proof {
            use_type_invariant(&*self);
        }
        let (to, message, next) = match self.state() {
            EndpointState::Send { to, message, next, .. } => (to.clone(), message.clone(), next.clone()),
            _ => {
                let detail = self.local_action_text();
                return Err(self.protocol_error("send data", detail));
            },
        };
        proof {
            lemma_next_known(self.endpoint_view(), first_index(endpoint_state_ids(self.endpoint_view().states@), self.current_view()));
        }
        let frame = Frame::Data { from: text_from(self.role()), to, message, payload: Some(payload) };
        Ok(self.emit(frame, next))
    }

    /// Selects the branch `label` from a selection state.
    pub fn emit_select(&mut self, label: &str) -> (r: Result<WireEnvelope, RuntimeError>)
        requires
            old(self).state_view() is Select ==> old(self).sequence_view() < u64::MAX,
        ensures
            one_call(*old(self), *final(self), r is Ok),
            match old(self).state_view() {
                EndpointState::Select { branches, .. } => if lookup(branches@, label@) is Some {
                    r matches Ok(env) && emitted(*old(self), *final(self), env)
                        && (env.frame matches Frame::Select { label: l, .. } && l@ == label@)
                } else {
                    *final(self) == *old(self) && protocol_refusal(*old(self), old(self).current_view(), r,
                        "select branch", "unknown branch "@ + label@ + "; expected one of "@ + list_debug(keys_of(branches@)))
                },
                _ => *final(self) == *old(self) && protocol_refusal(*old(self), old(self).current_view(), r,
                    "select branch", "local action is "@ + state_debug(old(self).state_view())),
            },
    {
        proof {
            use_type_invariant(&*self);
        }
        let next = match self.state() {
            EndpointState::Select { branches, .. } => match branches.get(label) {
                Some(next) => {
                    proof {
                        lemma_branch_target_known(self.endpoint_view(), first_index(endpoint_state_ids(self.endpoint_view().states@), self.current_view()), branches@, label@);
                    }
                    next.clone()
                },
                None => {
                    let mut detail = text_from("unknown branch ");
                    push_text(&mut detail, label);
                    push_text(&mut detail, "; expected one of ");
                    push_text(&mut detail, keys_text(branches).as_str());
                    return Err(self.protocol_error("select branch", detail));
                },
            },
            _ => {
                let detail = self.local_action_text();
                return Err(self.protocol_error("select branch", detail));
            },
        };
        let frame = Frame::Select { by: text_from(self.role()), label: text_from(label) };
        Ok(self.emit(frame, next))
    }

    /// Sends the cancellation of a cancellation state.
    pub fn emit_cancel(&mut self) -> (r: Result<WireEnvelope, RuntimeError>)
        requires
            old(self).state_view() is SendCancel ==> old(self).sequence_view() < u64::MAX,
        ensures
            one_call(*old(self), *final(self), r is Ok),
            match old(self).state_view() {
                EndpointState::SendCancel { .. } => r matches Ok(env) && emitted(*old(self), *final(self), env),
                _ => *final(self) == *old(self) && protocol_refusal(*old(self), old(self).current_view(), r,
                    "send cancellation", "local action is "@ + state_debug(old(self).state_view())),
            },
    {
        proof {
            use_type_invariant(&*self);
        }
        let (to, scope, next) = match self.state() {
            EndpointState::SendCancel { to, scope, next, .. } => (to.clone(), scope.clone(), next.clone()),
            _ => {
                let detail = self.local_action_text();
                return Err(self.protocol_error("send cancellation", detail));
            },
        };
        proof {
            lemma_next_known(self.endpoint_view(), first_index(endpoint_state_ids(self.endpoint_view().states@), self.current_view()));
        }
        let frame = Frame::Cancel { from: text_from(self.role()), to, scope };
        Ok(self.emit(frame, next))
    }
}

impl EndpointMachine {
    fn validate_envelope(&self, envelope: &WireEnvelope) -> (r: Result<(), RuntimeError>)
        ensures
            envelope_fits(*self, *envelope) ==> r is Ok,
            !envelope_fits(*self, *envelope) ==> envelope_refusal(*self, *envelope, r),
    {
        if !same_text(envelope.eve_wire.as_str(), WIRE_FORMAT) {
            return Err(RuntimeError::WireVersion { actual: envelope.eve_wire.clone(), expected: WIRE_FORMAT });
        }
        if !same_text(envelope.conversation.as_str(), self.conversation()) {
            return Err(RuntimeError::ConversationMismatch {
                role: text_from(self.role()),
                expected: text_from(self.conversation()),
                actual: envelope.conversation.clone(),
            });
        }
        if !same_text(envelope.conversation_identity.as_str(), self.identity()) {
            return Err(RuntimeError::IdentityMismatch {
                role: text_from(self.role()),
                expected: text_from(self.identity()),
                actual: envelope.conversation_identity.clone(),
            });
        }
        if !same_text(envelope.state.as_str(), self.current.as_str()) {
            return Err(RuntimeError::StateMismatch {
                role: text_from(self.role()),
                expected: self.current.clone(),
                actual: envelope.state.clone(),
            });
        }
        if envelope.sequence != self.sequence {
            return Err(RuntimeError::SequenceMismatch {
                role: text_from(self.role()),
                expected: self.sequence,
                actual: envelope.sequence,
            });
        }
        Ok(())
    }

    /// Takes an incoming envelope: it must be for this session, state and sequence
    /// number, and its frame must be what the current state receives.
    pub fn accept(&mut self, envelope: WireEnvelope) -> (r: Result<Frame, RuntimeError>)
        requires
            envelope_fits(*old(self), envelope) && accept_step(
                old(self).state_view(),
                old(self).endpoint_view().role@,
                envelope.frame,
            ) is Some ==> old(self).sequence_view() < u64::MAX,
        ensures
            accepts(*old(self), envelope, *final(self), r),
    {
        proof {
            use_type_invariant(&*self);
        }
        match self.validate_envelope(&envelope) {
            Ok(()) => {},
            Err(e) => {
                return Err(e);
            },
        }
        let frame = envelope.frame;
        let role = self.role();
        let ghost k = first_index(endpoint_state_ids(self.endpoint_view().states@), self.current_view());
        let next: Option<String> = match (self.state(), &frame) {
            (
                EndpointState::Receive { from, message, next, .. },
                Frame::Data { from: actual_from, to, message: actual_message, .. },
            ) => if same_text(from.as_str(), actual_from.as_str()) && same_text(role, to.as_str())
                && same_text(message.as_str(), actual_message.as_str()) {
                proof {
                    lemma_next_known(self.endpoint_view(), k);
                }
                Some(next.clone())
            } else {
                None
            },
            (EndpointState::Branch { from, branches, .. }, Frame::Select { by, label }) => if same_text(
                from.as_str(),
                by.as_str(),
            ) {
                match branches.get(label.as_str()) {
                    Some(next) => {
                        proof {
                            lemma_branch_target_known(self.endpoint_view(), k, branches@, label@);
                        }
                        Some(next.clone())
                    },
                    None => None,
                }
            } else {
                None
            },
            (
                EndpointState::ReceiveCancel { from, scope, next, .. },
                Frame::Cancel { from: actual_from, to, scope: actual_scope },
            ) => if same_text(from.as_str(), actual_from.as_str()) && same_text(role, to.as_str())
                && same_text(scope.as_str(), actual_scope.as_str()) {
                proof {
                    lemma_next_known(self.endpoint_view(), k);
                }
                Some(next.clone())
            } else {
                None
            },
            _ => None,
        };
        match next {
            Some(next) => {
                self.current = next;
                self.sequence = self.sequence + 1;
                Ok(frame)
            },
            None => {
                let mut detail = self.local_action_text();
                push_text(&mut detail, "; received ");
                push_text(&mut detail, frame_debug_text(&frame).as_str());
                Err(self.protocol_error("receive frame", detail))
            },
        }
    }

    /// Records that `failure` was observed in the current state: the machine follows the
    /// state's failure edge and counts one transition.
    pub fn observe_failure(&mut self, failure: &str) -> (r: Result<Frame, RuntimeError>)
        requires
            lookup(endpoint_failure_edges(old(self).state_view()), failure@) is Some ==> old(self).sequence_view() < u64::MAX,
        ensures
            one_call(*old(self), *final(self), r is Ok),
            match lookup(endpoint_failure_edges(old(self).state_view()), failure@) {
                Some(next) => (r matches Ok(Frame::Fault { observer, failure: f }) && observer@
                    == old(self).endpoint_view().role@ && f@ == failure@) && final(self).same_session(*old(self))
                    && final(self).current_view() == next && final(self).sequence_view() == old(self).sequence_view() + 1,
                None => *final(self) == *old(self) && protocol_refusal(*old(self), old(self).current_view(), r,
                    "observe failure", "failure "@ + failure@ + " is not declared at this state"@),
            },
    {
        proof {
            use_type_invariant(&*self);
        }
        let state = self.current.clone();
        self.observe_failure_at(state.as_str(), failure)
    }

    /// Records that `failure` was observed in the state `state_id`, which need not be the
    /// current one: the machine follows that state's failure edge, and counts a
    /// transition only when it was the current state.
    pub(crate) fn observe_failure_at(&mut self, state_id: &str, failure: &str) -> (r: Result<Frame, RuntimeError>)
        requires
            endpoint_state_ids(old(self).endpoint_view().states@).contains(state_id@),
            lookup(endpoint_failure_edges(state_named(old(self).endpoint_view(), state_id@)), failure@) is Some
                && state_id@ == old(self).current_view() ==> old(self).sequence_view() < u64::MAX,
        ensures
            match lookup(endpoint_failure_edges(state_named(old(self).endpoint_view(), state_id@)), failure@) {
                Some(next) => (r matches Ok(Frame::Fault { observer, failure: f }) && observer@
                    == old(self).endpoint_view().role@ && f@ == failure@) && final(self).same_session(*old(self))
                    && final(self).current_view() == next && final(self).sequence_view() == if state_id@
                    == old(self).current_view() {
                    old(self).sequence_view() + 1
                } else {
                    old(self).sequence_view() as int
                },
                None => *final(self) == *old(self) && protocol_refusal(*old(self), state_id@, r,
                    "observe failure", "failure "@ + failure@ + " is not declared at this state"@),
            },
    {
        proof {
            use_type_invariant(&*self);
        }
        let was_current = same_text(self.current.as_str(), state_id);
        let i = match find_state(&self.endpoint.states, state_id) {
            Some(i) => i,
            None => {
                proof {
                    assert(false);
                }
                0
            },
        };
        let next = match self.endpoint.states[i].failure_target(failure) {
            Some(next) => {
                proof {
                    lemma_failure_target_known(self.endpoint_view(), i as int, failure@);
                }
                text_from(next)
            },
            None => {
                let mut detail = text_from("failure ");
                push_text(&mut detail, failure);
                push_text(&mut detail, " is not declared at this state");
                return Err(RuntimeError::Protocol {
                    role: text_from(self.role()),
                    state: text_from(state_id),
                    action: "observe failure",
                    detail,
                });
            },
        };
        let observer = text_from(self.role());
        self.current = next;
        if was_current {
            self.sequence = self.sequence + 1;
        }
        Ok(Frame::Fault { observer, failure: text_from(failure) })
    }
}

impl EndpointMachine {
    /// Compiles a conversation and starts the session of `role` on it.
    #[verifier::spinoff_prover]
    pub fn for_role(conversation: &Conversation, role: &str) -> (r: Result<EndpointMachine, RuntimeError>)
        ensures
            !is_valid(*conversation) ==> (r matches Err(RuntimeError::Plan(PlanError::InvalidConversation(e)))
                && diagnostics_view(e.diagnostics@) == validation_diagnostics(*conversation)),
            r matches Ok(m) ==> endpoint_projects(*conversation, role@, m.endpoint_view())
                && m.current_view() == conversation.initial@ && m.sequence_view() == 0
                && m.identity_view() == conversation_identity_of(*conversation),
            is_valid(*conversation) ==> match r {
                Ok(_) => true,
                Err(RuntimeError::Plan(e)) => compile_failure(*conversation, e),
                Err(RuntimeError::UnknownRole(x)) => x@ == role@ && forall|k: int|
                    0 <= k < conversation.roles.len() ==> conversation.roles@[k].id@ != role@,
                Err(_) => false,
            },
    {
        let plan = match PreparedPlan::compile(conversation) {
            Ok(plan) => plan,
            Err(e) => {
                return Err(RuntimeError::Plan(e));
            },
        };
        let r = EndpointMachine::from_plan(&plan, role);
        proof {
            let p = choose|p: EvePlan| #[trigger] is_compilation_of(*conversation, p) && plan_is_sound(p) && prepared_from(plan, p);
            let c = *conversation;
            let eps = p.endpoints@;
            let first: int = if crate::text::text_lt(c.roles@[1].id@, c.roles@[0].id@) {
                1
            } else {
                0
            };
            assert(role_ordered_projection(c, eps));
            assert(endpoint_projects(c, c.roles@[first].id@, shared_value(eps[0])));
            assert(endpoint_projects(c, c.roles@[1 - first].id@, shared_value(eps[1])));
            if r is Ok {
                let m = r->Ok_0;
                {
                    let i = choose|i: int| #[trigger] is_first_with_role(plan.endpoints_view(), role@, i)
                        && m.endpoint_view() == shared_value(plan.endpoints_view()[i])
                        && m.current_view() == m.endpoint_view().initial@;
                    assert(i == 0 || i == 1);
                }
            } else {
                assert(eps[0].role@ != role@);
                assert(eps[1].role@ != role@);
            }
        }
        r
    }
}

/// A carrier of envelopes between the two roles of a session.
pub trait Transport {
    /// The name of the transport plan, for reports.
    fn plan(&self) -> &'static str;

    fn send(&mut self, envelope: &WireEnvelope) -> Result<(), RuntimeError>;

    fn receive(&mut self) -> Result<WireEnvelope, RuntimeError>;

    /// Closes the session cleanly once `role` completed successfully.
    fn finish(&mut self, role: &str) -> Result<(), RuntimeError> {
        Ok(())
    }

    /// Tears the transport down after a failure.
    fn abort(&mut self) {
    }
}

} // verus!
