//! The reference generation workload: a client that sends a prompt and receives tokens
//! until it cancels or the server is done, a server that streams tokens up to a limit,
//! and the reports both sides produce.
use vstd::prelude::*;
use crate::encode::{frame_json, frames_json, frames_text};
use crate::debug::{state_debug, frame_debug, frame_debug_text};
use crate::identity::{text_identity, text_identity_of};
use crate::plan::{PlanError, PreparedPlan};
use crate::validate::{is_valid, diagnostics_view, validation_diagnostics};
use crate::projection::{EndpointState, endpoint_failure_edges, opt_text};
use crate::map::lookup;
use crate::fault::{FaultPlan, operation_name};
use crate::runtime::{
    EndpointMachine, RuntimeError, Transport, WireEnvelope, state_named, emits, endpoint_run,
    lemma_emits_step, lemma_run_push, failure_of, envelope_fits, envelope_refusal, accept_step,
    protocol_refusal, emit_step,
};
use crate::text::{decimal, json_string, push_decimal, push_json_string, push_text, same_text, text_from};
use crate::trace::Frame;
use crate::wire::{plan_has_role, same_frame};
use crate::conversation::Conversation;

verus! {

/// What one role observed in a session.
#[derive(Debug, Clone)]
pub struct ExecutionReport {
    pub role: String,
    pub transport: String,
    pub conversation: String,
    pub conversation_identity: String,
    pub plan_identity: String,
    pub semantic_trace_identity: String,
    pub frames: u64,
    pub tokens: Vec<u64>,
    pub completed: bool,
    pub successful: bool,
    pub failure: Option<String>,
    pub final_state: String,
    pub semantic_trace: Vec<Frame>,
}

/// Both roles' reports of one session, and whether they agree.
#[derive(Debug, Clone)]
pub struct DemoReport {
    pub transport_plan: String,
    pub conversation_identity: String,
    pub plan_identity: String,
    pub semantic_trace_equivalent: bool,
    pub outcome_equivalent: bool,
    pub fault_plan: Option<crate::fault::FaultPlan>,
    pub client: ExecutionReport,
    pub server: ExecutionReport,
}

/// What `serde_json` reads as the member `key` of the JSON text `text`, where the text is
/// an object and that member a string.
pub uninterp spec fn json_text_member(text: Seq<char>, key: Seq<char>) -> Option<Seq<char>>;

/// What `serde_json` reads as the member `key` of the JSON text `text`, where the text is
/// an object and that member an integer that fits `u64`.
pub uninterp spec fn json_u64_member(text: Seq<char>, key: Seq<char>) -> Option<u64>;

/// Calls `serde_json::from_str` to read `text` as a JSON value, and returns its member
/// `key` where the value is an object whose member is a string. The result is a function
/// of the text and the key alone.
#[verifier::external_body]
fn text_member(text: &str, key: &str) -> (r: Option<String>)
    ensures
        opt_text(r) == json_text_member(text@, key@),
{
    match serde_json::from_str::<serde_json::Value>(text) {
        Ok(value) => value.get(key).and_then(serde_json::Value::as_str).map(str::to_owned),
        Err(_) => None,
    }
}

/// Calls `serde_json::from_str` to read `text` as a JSON value, and returns its member
/// `key` where the value is an object whose member is an integer that fits `u64`. The
/// result is a function of the text and the key alone.
#[verifier::external_body]
fn u64_member(text: &str, key: &str) -> (r: Option<u64>)
    ensures
        r == json_u64_member(text@, key@),
{
    match serde_json::from_str::<serde_json::Value>(text) {
        Ok(value) => value.get(key).and_then(serde_json::Value::as_u64),
        Err(_) => None,
    }
}

/// The prompt payload `{"text":...}`.
pub open spec fn prompt_json(prompt: Seq<char>) -> Seq<char> {
    "{\"text\":"@ + json_string(prompt) + "}"@
}

/// The token payload `{"id":...}`.
pub open spec fn token_json(id: u64) -> Seq<char> {
    "{\"id\":"@ + decimal(id as nat) + "}"@
}

fn prompt_text(prompt: &str) -> (r: String)
    ensures
        r@ == prompt_json(prompt@),
{
    let mut out = text_from("{\"text\":");
    push_json_string(&mut out, prompt);
    push_text(&mut out, "}");
    out
}

fn token_text(id: u64) -> (r: String)
    ensures
        r@ == token_json(id),
{
    let mut out = text_from("{\"id\":");
    push_decimal(&mut out, id);
    push_text(&mut out, "}");
    out
}

/// `m` is why the frame `f` is no token: it is not token data, or its payload has no
/// `u64` member `id`.
pub open spec fn token_refusal(f: Frame, m: Seq<char>) -> bool {
    match f {
        Frame::Data { message, payload: Some(p), .. } if message@ == "token"@ => json_u64_member(p@, "id"@) is None
            && m == "token payload is missing u64 id"@,
        _ => m == "expected token data, received "@ + frame_debug(f),
    }
}

/// `m` is why the frame `f` is no prompt: it is not prompt data, or its payload has no
/// string member `text`.
pub open spec fn prompt_refusal(f: Frame, m: Seq<char>) -> bool {
    match f {
        Frame::Data { message, payload: Some(p), .. } if message@ == "prompt"@ => json_text_member(p@, "text"@) is None
            && m == "prompt payload is missing text"@,
        _ => m == "expected prompt data, received "@ + frame_debug(f),
    }
}

/// The token id a token data frame carries.
pub fn token_payload(frame: &Frame) -> (r: Result<u64, RuntimeError>)
    ensures
        r matches Err(e) ==> (e matches RuntimeError::Application(m) && token_refusal(*frame, m@)),
        match *frame {
            Frame::Data { message, payload: Some(p), .. } if message@ == "token"@ => match json_u64_member(p@, "id"@) {
                Some(id) => r == Ok::<u64, RuntimeError>(id),
                None => r matches Err(RuntimeError::Application(m)) && m@ == "token payload is missing u64 id"@,
            },
            _ => r matches Err(RuntimeError::Application(m)) && m@ == "expected token data, received "@ + frame_debug(*frame),
        },
{
    match frame {
        Frame::Data { message, payload: Some(p), .. } => {
            if same_text(message.as_str(), "token") {
                return match u64_member(p.as_str(), "id") {
                    Some(id) => Ok(id),
                    None => Err(RuntimeError::Application(text_from("token payload is missing u64 id"))),
                };
            }
        },
        _ => {},
    }
    let mut m = text_from("expected token data, received ");
    push_text(&mut m, frame_debug_text(frame).as_str());
    Err(RuntimeError::Application(m))
}

/// The prompt text a prompt data frame carries.
pub fn prompt_payload(frame: &Frame) -> (r: Result<String, RuntimeError>)
    ensures
        r matches Err(e) ==> (e matches RuntimeError::Application(m) && prompt_refusal(*frame, m@)),
        match *frame {
            Frame::Data { message, payload: Some(p), .. } if message@ == "prompt"@ => match json_text_member(p@, "text"@) {
                Some(t) => r matches Ok(s) && s@ == t,
                None => r matches Err(RuntimeError::Application(m)) && m@ == "prompt payload is missing text"@,
            },
            _ => r matches Err(RuntimeError::Application(m)) && m@ == "expected prompt data, received "@ + frame_debug(*frame),
        },
{
    match frame {
        Frame::Data { message, payload: Some(p), .. } => {
            if same_text(message.as_str(), "prompt") {
                return match text_member(p.as_str(), "text") {
                    Some(t) => Ok(t),
                    None => Err(RuntimeError::Application(text_from("prompt payload is missing text"))),
                };
            }
        },
        _ => {},
    }
    let mut m = text_from("expected prompt data, received ");
    push_text(&mut m, frame_debug_text(frame).as_str());
    Err(RuntimeError::Application(m))
}

/// The identity of a semantic trace: the identity of its JSON array text.
pub fn trace_identity(trace: &Vec<Frame>) -> (r: String)
    ensures
        r@ == text_identity_of(frames_json(trace@)),
{
    text_identity(frames_text(trace).as_str())
}

/// `r` reports machine `m` after a session over `transport` that produced `tokens` and
/// `trace`.
pub open spec fn reports(m: EndpointMachine, transport: Seq<char>, tokens: Seq<u64>, trace: Seq<Frame>, r: ExecutionReport) -> bool {
    let s = m.state_view();
    &&& r.role@ == m.endpoint_view().role@
    &&& r.transport@ == transport
    &&& r.conversation@ == m.endpoint_view().conversation@
    &&& r.conversation_identity@ == m.identity_view()
    &&& r.plan_identity@ == m.plan_identity_view()
    &&& r.semantic_trace_identity@ == text_identity_of(frames_json(trace))
    &&& r.frames == m.sequence_view()
    &&& r.tokens@ == tokens
    &&& r.completed == (s is End || s is Fail)
    &&& r.successful == s is End
    &&& opt_text(r.failure) == match s {
        EndpointState::Fail { failure, .. } => Some(failure@),
        _ => None,
    }
    &&& r.final_state@ == m.current_view()
    &&& r.semantic_trace@ == trace
}

/// The report of a machine at the end of a session.
pub fn report(machine: &EndpointMachine, transport: String, tokens: Vec<u64>, semantic_trace: Vec<Frame>) -> (r: ExecutionReport)
    ensures
        reports(*machine, transport@, tokens@, semantic_trace@, r),
{
    let failure = match machine.failure() {
        Some(f) => Some(text_from(f)),
        None => None,
    };
    ExecutionReport {
        role: text_from(machine.role()),
        transport,
        conversation: text_from(machine.conversation()),
        conversation_identity: text_from(machine.identity()),
        plan_identity: text_from(machine.plan_identity()),
        semantic_trace_identity: trace_identity(&semantic_trace),
        frames: machine.sequence(),
        tokens,
        completed: machine.is_complete(),
        successful: machine.is_successful(),
        failure,
        final_state: text_from(machine.current_state()),
        semantic_trace,
    }
}

fn same_frames(a: &Vec<Frame>, b: &Vec<Frame>) -> (r: bool)
    ensures
        r == (a.len() == b.len() && forall|i: int| 0 <= i < a.len() ==> same_frame(#[trigger] a@[i], b@[i])),
{
    if a.len() != b.len() {
        return false;
    }
    let mut i: usize = 0;
    while i < a.len()
        invariant
            a.len() == b.len(),
            i <= a.len(),
            forall|j: int| 0 <= j < i ==> same_frame(#[trigger] a@[j], b@[j]),
        decreases a.len() - i,
    {
        if !frames_agree(&a[i], &b[i]) {
            return false;
        }
        i = i + 1;
    }
    true
}

fn same_option_text(a: &Option<String>, b: &Option<String>) -> (r: bool)
    ensures
        r == (opt_text(*a) == opt_text(*b)),
{
    match (a, b) {
        (Some(x), Some(y)) => same_text(x.as_str(), y.as_str()),
        (None, None) => true,
        _ => false,
    }
}

fn frames_agree(a: &Frame, b: &Frame) -> (r: bool)
    ensures
        r == same_frame(*a, *b),
{
    match (a, b) {
        (Frame::Data { from, to, message, payload }, Frame::Data { from: f, to: t, message: m, payload: p }) => same_text(
            from.as_str(),
            f.as_str(),
        ) && same_text(to.as_str(), t.as_str()) && same_text(message.as_str(), m.as_str()) && same_option_text(payload, p),
        (Frame::Select { by, label }, Frame::Select { by: b2, label: l }) => same_text(by.as_str(), b2.as_str())
            && same_text(label.as_str(), l.as_str()),
        (Frame::Cancel { from, to, scope }, Frame::Cancel { from: f, to: t, scope: sc }) => same_text(from.as_str(), f.as_str())
            && same_text(to.as_str(), t.as_str()) && same_text(scope.as_str(), sc.as_str()),
        (Frame::Fault { observer, failure }, Frame::Fault { observer: o, failure: fl }) => same_text(
            observer.as_str(),
            o.as_str(),
        ) && same_text(failure.as_str(), fl.as_str()),
        _ => false,
    }
}

/// Both sides recorded the same semantic trace.
pub open spec fn traces_agree(client: ExecutionReport, server: ExecutionReport) -> bool {
    client.semantic_trace.len() == server.semantic_trace.len() && forall|i: int|
        0 <= i < client.semantic_trace.len() ==> same_frame(#[trigger] client.semantic_trace@[i], server.semantic_trace@[i])
}

/// Both sides completed with the same result, failure and final state.
pub open spec fn outcomes_agree(client: ExecutionReport, server: ExecutionReport) -> bool {
    &&& client.completed
    &&& server.completed
    &&& client.successful == server.successful
    &&& opt_text(client.failure) == opt_text(server.failure)
    &&& client.final_state@ == server.final_state@
}

/// The combined report of a session's two sides; its identities are the client's.
pub fn demo_report(transport_plan: &str, client: ExecutionReport, server: ExecutionReport) -> (r: DemoReport)
    ensures
        r.transport_plan@ == transport_plan@,
        r.conversation_identity@ == client.conversation_identity@,
        r.plan_identity@ == client.plan_identity@,
        r.semantic_trace_equivalent == traces_agree(client, server),
        r.outcome_equivalent == outcomes_agree(client, server),
        r.fault_plan is None,
        r.client == client,
        r.server == server,
{
    let semantic_trace_equivalent = same_frames(&client.semantic_trace, &server.semantic_trace);
    let outcome_equivalent = client.completed && server.completed && client.successful == server.successful
        && same_option_text(&client.failure, &server.failure) && same_text(
        client.final_state.as_str(),
        server.final_state.as_str(),
    );
    DemoReport {
        transport_plan: text_from(transport_plan),
        conversation_identity: client.conversation_identity.clone(),
        plan_identity: client.plan_identity.clone(),
        semantic_trace_equivalent,
        outcome_equivalent,
        fault_plan: None,
        client,
        server,
    }
}

fn clone_text_option(o: &Option<String>) -> (r: Option<String>)
    ensures
        r == *o,
{
    match o {
        Some(s) => Some(s.clone()),
        None => None,
    }
}

/// A copy of a frame.
fn clone_frame(f: &Frame) -> (r: Frame)
    ensures
        r == *f,
{
    match f {
        Frame::Data { from, to, message, payload } => Frame::Data {
            from: from.clone(),
            to: to.clone(),
            message: message.clone(),
            payload: clone_text_option(payload),
        },
        Frame::Select { by, label } => Frame::Select { by: by.clone(), label: label.clone() },
        Frame::Cancel { from, to, scope } => Frame::Cancel { from: from.clone(), to: to.clone(), scope: scope.clone() },
        Frame::Fault { observer, failure } => Frame::Fault { observer: observer.clone(), failure: failure.clone() },
    }
}

/// Sends an emitted envelope and records its frame. A transport failure is recorded
/// instead as the fault the sender observed in the state it left, and ends the session
/// (`false`); any other error is returned.
fn send_and_record<T: Transport>(
    machine: &mut EndpointMachine,
    transport: &mut T,
    envelope: &WireEnvelope,
    trace: &mut Vec<Frame>,
) -> (r: Result<bool, RuntimeError>)
    requires
        crate::plan::endpoint_state_ids(old(machine).endpoint_view().states@).contains(envelope.state@),
        old(machine).sequence_view() < u64::MAX,
        endpoint_run(old(machine).endpoint_view(), old(machine).endpoint_view().role@, old(trace)@) == Some(envelope.state@),
        emits(
            state_named(old(machine).endpoint_view(), envelope.state@),
            old(machine).endpoint_view().role@,
            envelope.frame,
            old(machine).current_view(),
        ),
    ensures
        r is Ok ==> endpoint_run(final(machine).endpoint_view(), final(machine).endpoint_view().role@, final(trace)@)
            == Some(final(machine).current_view()),
        exists|m: &mut T, sent: Result<(), RuntimeError>| #[trigger] call_ensures(T::send, (m, envelope), sent)
            && mut_ref_current(m) == *old(transport) && match sent {
            Ok(()) => mut_ref_future(m) == *final(transport) && r == Ok::<bool, RuntimeError>(true),
            Err(e) => match failure_of(e) {
                None => mut_ref_future(m) == *final(transport) && r == Err::<bool, RuntimeError>(e),
                Some(f) => (exists|a: &mut T| #[trigger] call_ensures(T::abort, (a,), ()) && mut_ref_current(a)
                    == mut_ref_future(m) && mut_ref_future(a) == *final(transport)) && if lookup(
                    endpoint_failure_edges(state_named(old(machine).endpoint_view(), envelope.state@)),
                    f,
                ) is Some {
                    r == Ok::<bool, RuntimeError>(false)
                } else {
                    protocol_refusal(*old(machine), envelope.state@, r, "observe failure", "failure "@ + f
                        + " is not declared at this state"@)
                },
            },
        },
        final(machine).same_session(*old(machine)),
        old(machine).sequence_view() <= final(machine).sequence_view() <= old(machine).sequence_view() + 1,
        r == Ok::<bool, RuntimeError>(true) ==> final(trace)@ == old(trace)@.push(envelope.frame) && *final(machine) == *old(machine),
        r == Ok::<bool, RuntimeError>(false) ==> final(trace)@.len() == old(trace)@.len() + 1
            && final(trace)@.drop_last() == old(trace)@ && final(trace)@.last() is Fault,
        r is Err ==> final(trace)@ == old(trace)@,
        r matches Err(e) ==> transport_error::<T>(e) || own_refusal(e),
        r == Ok::<bool, RuntimeError>(true) ==> carried::<T>(envelope.sequence),
{
    let ghost e = machine.endpoint_view();
    let ghost role = e.role@;
    let ghost before = trace@;
    match transport.send(envelope) {
        Ok(()) => {
            assert(carried::<T>(envelope.sequence));
            trace.push(clone_frame(&envelope.frame));
            proof {
                lemma_emits_step(state_named(e, envelope.state@), role, envelope.frame, machine.current_view());
                lemma_run_push(e, role, before, envelope.frame, envelope.state@);
            }
            Ok(true)
        },
        Err(error) => {
            let failure = match error.transport_failure() {
                Some(f) => text_from(f),
                None => {
                    return Err(error);
                },
            };
            transport.abort();
            match machine.observe_failure_at(envelope.state.as_str(), failure.as_str()) {
                Ok(fault) => {
                    trace.push(fault);
                    assert(trace@.drop_last() =~= before);
                    proof {
                        lemma_run_push(e, role, before, fault, envelope.state@);
                    }
                    Ok(false)
                },
                Err(e) => Err(e),
            }
        },
    }
}

/// Receives an envelope, has the machine accept it and records its frame. A transport
/// failure is recorded instead as the fault observed in the current state, and ends the
/// session (`None`); any other error is returned.
fn receive_and_record<T: Transport>(
    machine: &mut EndpointMachine,
    transport: &mut T,
    trace: &mut Vec<Frame>,
) -> (r: Result<Option<Frame>, RuntimeError>)
    requires
        old(machine).sequence_view() < u64::MAX,
        endpoint_run(old(machine).endpoint_view(), old(machine).endpoint_view().role@, old(trace)@) == Some(old(machine).current_view()),
    ensures
        final(machine).same_session(*old(machine)),
        r is Ok ==> endpoint_run(final(machine).endpoint_view(), final(machine).endpoint_view().role@, final(trace)@)
            == Some(final(machine).current_view()),
        r is Ok ==> final(machine).sequence_view() == old(machine).sequence_view() + 1,
        r matches Ok(Some(f)) ==> accept_step(old(machine).state_view(), old(machine).endpoint_view().role@, f) is Some,
        r matches Ok(Some(f)) ==> delivered::<T>(f) && carried::<T>(old(machine).sequence_view()),
        r matches Err(e) ==> transport_error::<T>(e) || refused_delivery::<T>(e) || own_refusal(e),
        exists|m: &mut T, got: Result<WireEnvelope, RuntimeError>| #[trigger] call_ensures(T::receive, (m,), got)
            && mut_ref_current(m) == *old(transport) && match got {
            Ok(env) => mut_ref_future(m) == *final(transport) && if !envelope_fits(*old(machine), env) {
                envelope_refusal(*old(machine), env, r)
            } else if accept_step(old(machine).state_view(), old(machine).endpoint_view().role@, env.frame) is Some {
                r == Ok::<Option<Frame>, RuntimeError>(Some(env.frame))
            } else {
                protocol_refusal(*old(machine), old(machine).current_view(), r, "receive frame", "local action is "@
                    + state_debug(old(machine).state_view()) + "; received "@ + frame_debug(env.frame))
            },
            Err(e) => match failure_of(e) {
                None => mut_ref_future(m) == *final(transport) && r == Err::<Option<Frame>, RuntimeError>(e),
                Some(f) => (exists|a: &mut T| #[trigger] call_ensures(T::abort, (a,), ()) && mut_ref_current(a)
                    == mut_ref_future(m) && mut_ref_future(a) == *final(transport)) && if lookup(
                    endpoint_failure_edges(old(machine).state_view()),
                    f,
                ) is Some {
                    r == Ok::<Option<Frame>, RuntimeError>(None)
                } else {
                    protocol_refusal(*old(machine), old(machine).current_view(), r, "observe failure", "failure "@ + f
                        + " is not declared at this state"@)
                },
            },
        },
        r is Err ==> *final(machine) == *old(machine),
        r matches Ok(Some(f)) ==> final(trace)@ == old(trace)@.push(f),
        r matches Ok(None) ==> final(trace)@.len() == old(trace)@.len() + 1
            && final(trace)@.drop_last() == old(trace)@ && final(trace)@.last() is Fault,
        r is Err ==> final(trace)@ == old(trace)@,
{
    let ghost e = machine.endpoint_view();
    let ghost role = e.role@;
    let ghost before = trace@;
    let ghost cur = machine.current_view();
    match transport.receive() {
        Ok(envelope) => {
            match machine.accept(envelope) {
                Ok(frame) => {
                    trace.push(clone_frame(&frame));
                    proof {
                        lemma_run_push(e, role, before, frame, cur);
                    }
                    Ok(Some(frame))
                },
                Err(e) => Err(e),
            }
        },
        Err(error) => {
            let failure = match error.transport_failure() {
                Some(f) => text_from(f),
                None => {
                    return Err(error);
                },
            };
            transport.abort();
            match machine.observe_failure(failure.as_str()) {
                Ok(fault) => {
                    trace.push(fault);
                    assert(trace@.drop_last() =~= before);
                    proof {
                        lemma_run_push(e, role, before, fault, cur);
                    }
                    Ok(None)
                },
                Err(e) => Err(e),
            }
        },
    }
}

/// The state the endpoint of `role` is in before the `i`-th frame of `trace`.
pub open spec fn state_before(e: crate::projection::Endpoint, role: Seq<char>, trace: Seq<Frame>, i: int) -> Option<Seq<char>> {
    endpoint_run(e, role, trace.subrange(0, i))
}

/// The `i`-th frame of `trace` is one that `role` emitted.
pub open spec fn emitted_at(e: crate::projection::Endpoint, role: Seq<char>, trace: Seq<Frame>, i: int) -> bool {
    match state_before(e, role, trace, i) {
        Some(cur) => emit_step(state_named(e, cur), role, trace[i]) is Some,
        None => false,
    }
}

/// The `i`-th frame of `trace` is one that `role` received.
pub open spec fn accepted_at(e: crate::projection::Endpoint, role: Seq<char>, trace: Seq<Frame>, i: int) -> bool {
    match state_before(e, role, trace, i) {
        Some(cur) => accept_step(state_named(e, cur), role, trace[i]) is Some,
        None => false,
    }
}

/// How many data frames `role` emitted among the first `n` frames of `trace`.
pub open spec fn emitted_data(e: crate::projection::Endpoint, role: Seq<char>, trace: Seq<Frame>, n: nat) -> nat
    decreases n,
{
    if n == 0 {
        0
    } else {
        emitted_data(e, role, trace, (n - 1) as nat) + if emitted_at(e, role, trace, n - 1) && trace[n - 1] is Data {
            1nat
        } else {
            0nat
        }
    }
}

/// How many data frames `role` received among the first `n` frames of `trace`.
pub open spec fn accepted_data(e: crate::projection::Endpoint, role: Seq<char>, trace: Seq<Frame>, n: nat) -> nat
    decreases n,
{
    if n == 0 {
        0
    } else {
        accepted_data(e, role, trace, (n - 1) as nat) + if accepted_at(e, role, trace, n - 1) && trace[n - 1] is Data {
            1nat
        } else {
            0nat
        }
    }
}

/// Each selection the server made is `token` while it had sent fewer than `limit`
/// tokens, and `done` once it had sent `limit`.
pub open spec fn server_selections(e: crate::projection::Endpoint, role: Seq<char>, trace: Seq<Frame>, limit: nat) -> bool {
    forall|i: int|
        0 <= i < trace.len() && #[trigger] emitted_at(e, role, trace, i) ==> match trace[i] {
            Frame::Select { label, .. } => (label@ == "token"@ && emitted_data(e, role, trace, i as nat) < limit)
                || (label@ == "done"@ && emitted_data(e, role, trace, i as nat) == limit),
            _ => true,
        }
}

/// Each selection the client made after a token is `cancel` once it had received
/// `cancel_after` tokens, and `continue` before that or without a limit.
pub open spec fn client_selections(
    e: crate::projection::Endpoint,
    role: Seq<char>,
    trace: Seq<Frame>,
    cancel_after: Option<usize>,
) -> bool {
    forall|i: int|
        0 <= i < trace.len() && #[trigger] emitted_at(e, role, trace, i) ==> match trace[i] {
            Frame::Select { label, .. } => label@ == if cancel_after matches Some(k) && accepted_data(
                e,
                role,
                trace,
                i as nat,
            ) >= k {
                "cancel"@
            } else {
                "continue"@
            },
            _ => true,
        }
}

/// Extending a run by one frame keeps what the earlier frames were, and counts the new
/// one as emitted or received by the step its state takes.
proof fn lemma_push_counts(e: crate::projection::Endpoint, role: Seq<char>, trace: Seq<Frame>, f: Frame, cur: Seq<char>)
    requires
        endpoint_run(e, role, trace) == Some(cur),
    ensures
        forall|i: int| 0 <= i < trace.len() ==> emitted_at(e, role, trace.push(f), i) == emitted_at(e, role, trace, i)
            && accepted_at(e, role, trace.push(f), i) == accepted_at(e, role, trace, i) && trace.push(f)[i] == trace[i],
        emitted_at(e, role, trace.push(f), trace.len() as int) == (emit_step(state_named(e, cur), role, f) is Some),
        accepted_at(e, role, trace.push(f), trace.len() as int) == (accept_step(state_named(e, cur), role, f) is Some),
        emitted_data(e, role, trace.push(f), trace.len() as nat + 1) == emitted_data(e, role, trace, trace.len() as nat)
            + if emit_step(state_named(e, cur), role, f) is Some && f is Data {
            1nat
        } else {
            0nat
        },
        accepted_data(e, role, trace.push(f), trace.len() as nat + 1) == accepted_data(e, role, trace, trace.len() as nat)
            + if accept_step(state_named(e, cur), role, f) is Some && f is Data {
            1nat
        } else {
            0nat
        },
        forall|n: nat| n <= trace.len() ==> emitted_data(e, role, trace.push(f), n) == emitted_data(e, role, trace, n)
            && accepted_data(e, role, trace.push(f), n) == accepted_data(e, role, trace, n),
{
    let t = trace.push(f);
    assert forall|i: int| 0 <= i <= trace.len() implies #[trigger] t.subrange(0, i) == trace.subrange(0, i) by {
        assert(t.subrange(0, i) =~= trace.subrange(0, i));
    }
    assert(trace.subrange(0, trace.len() as int) =~= trace);
    assert forall|n: nat| n <= trace.len() implies emitted_data(e, role, t, n) == emitted_data(e, role, trace, n)
        && accepted_data(e, role, t, n) == accepted_data(e, role, trace, n) by {
        lemma_counts_prefix(e, role, trace, f, n);
    }
}

proof fn lemma_counts_prefix(e: crate::projection::Endpoint, role: Seq<char>, trace: Seq<Frame>, f: Frame, n: nat)
    requires
        n <= trace.len(),
    ensures
        emitted_data(e, role, trace.push(f), n) == emitted_data(e, role, trace, n),
        accepted_data(e, role, trace.push(f), n) == accepted_data(e, role, trace, n),
    decreases n,
{
    if n > 0 {
        lemma_counts_prefix(e, role, trace, f, (n - 1) as nat);
        assert(trace.push(f).subrange(0, n - 1) =~= trace.subrange(0, n - 1));
    }
}

/// The server's choices stay as they were when its trace grows by one frame, provided
/// a selection it emitted then follows its rule.
proof fn lemma_server_push(
    e: crate::projection::Endpoint,
    role: Seq<char>,
    trace: Seq<Frame>,
    f: Frame,
    cur: Seq<char>,
    limit: nat,
)
    requires
        endpoint_run(e, role, trace) == Some(cur),
        server_selections(e, role, trace, limit),
        emit_step(state_named(e, cur), role, f) is Some ==> match f {
            Frame::Select { label, .. } => (label@ == "token"@ && emitted_data(e, role, trace, trace.len() as nat) < limit)
                || (label@ == "done"@ && emitted_data(e, role, trace, trace.len() as nat) == limit),
            _ => true,
        },
    ensures
        server_selections(e, role, trace.push(f), limit),
        emitted_data(e, role, trace.push(f), trace.len() as nat + 1) == emitted_data(e, role, trace, trace.len() as nat)
            + if emit_step(state_named(e, cur), role, f) is Some && f is Data {
            1nat
        } else {
            0nat
        },
{
    lemma_push_counts(e, role, trace, f, cur);
    let t = trace.push(f);
    assert forall|i: int| 0 <= i < t.len() && #[trigger] emitted_at(e, role, t, i) implies match t[i] {
        Frame::Select { label, .. } => (label@ == "token"@ && emitted_data(e, role, t, i as nat) < limit)
            || (label@ == "done"@ && emitted_data(e, role, t, i as nat) == limit),
        _ => true,
    } by {
        if i < trace.len() {
            assert(emitted_at(e, role, trace, i));
        }
    }
}

/// The client's choices stay as they were when its trace grows by one frame, provided a
/// selection it emitted then follows its rule.
proof fn lemma_client_push(
    e: crate::projection::Endpoint,
    role: Seq<char>,
    trace: Seq<Frame>,
    f: Frame,
    cur: Seq<char>,
    cancel_after: Option<usize>,
)
    requires
        endpoint_run(e, role, trace) == Some(cur),
        client_selections(e, role, trace, cancel_after),
        emit_step(state_named(e, cur), role, f) is Some ==> match f {
            Frame::Select { label, .. } => label@ == if cancel_after matches Some(k) && accepted_data(
                e,
                role,
                trace,
                trace.len() as nat,
            ) >= k {
                "cancel"@
            } else {
                "continue"@
            },
            _ => true,
        },
    ensures
        client_selections(e, role, trace.push(f), cancel_after),
        accepted_data(e, role, trace.push(f), trace.len() as nat + 1) == accepted_data(e, role, trace, trace.len() as nat)
            + if accept_step(state_named(e, cur), role, f) is Some && f is Data {
            1nat
        } else {
            0nat
        },
{
    lemma_push_counts(e, role, trace, f, cur);
    let t = trace.push(f);
    assert forall|i: int| 0 <= i < t.len() && #[trigger] emitted_at(e, role, t, i) implies match t[i] {
        Frame::Select { label, .. } => label@ == if cancel_after matches Some(k) && accepted_data(e, role, t, i as nat) >= k {
            "cancel"@
        } else {
            "continue"@
        },
        _ => true,
    } by {
        if i < trace.len() {
            assert(emitted_at(e, role, trace, i));
        }
    }
}

/// `e` is an error that a call of the transport returned.
pub open spec fn transport_error<T: Transport>(e: RuntimeError) -> bool {
    ||| exists|m: &mut T, env: &WireEnvelope| #[trigger] call_ensures(T::send, (m, env), Err::<(), RuntimeError>(e))
    ||| exists|m: &mut T| #[trigger] call_ensures(T::receive, (m,), Err::<WireEnvelope, RuntimeError>(e))
    ||| exists|m: &mut T, role: &str| #[trigger] call_ensures(T::finish, (m, role), Err::<(), RuntimeError>(e))
}

/// `e` is how the machine refuses an envelope that the transport delivered: one of the
/// envelope's fields is not what the machine expects, or its frame is not what the
/// current state takes.
pub open spec fn refused_delivery<T: Transport>(e: RuntimeError) -> bool {
    exists|m: &mut T, env: WireEnvelope| #[trigger] call_ensures(T::receive, (m,), Ok::<WireEnvelope, RuntimeError>(env))
        && refusal_of(env, e)
}

/// `e` is a refusal of the envelope `env`.
pub open spec fn refusal_of(env: WireEnvelope, e: RuntimeError) -> bool {
    match e {
        RuntimeError::WireVersion { actual, .. } => actual@ == env.eve_wire@,
        RuntimeError::ConversationMismatch { actual, .. } => actual@ == env.conversation@,
        RuntimeError::IdentityMismatch { actual, .. } => actual@ == env.conversation_identity@,
        RuntimeError::StateMismatch { actual, .. } => actual@ == env.state@,
        RuntimeError::SequenceMismatch { actual, .. } => actual == env.sequence,
        RuntimeError::Protocol { action, detail, .. } => action == "receive frame" && exists|s: EndpointState|
            detail@ == "local action is "@ + #[trigger] state_debug(s) + "; received "@ + frame_debug(env.frame),
        _ => false,
    }
}

/// `e` is the machine refusing one of its own actions: data, a selection or a
/// cancellation its state does not send, or a failure its state does not declare.
pub open spec fn own_refusal(e: RuntimeError) -> bool {
    e matches RuntimeError::Protocol { action, .. } && (action == "send data" || action == "select branch"
        || action == "send cancellation" || action == "observe failure")
}

/// The sequence number `sequence` was carried by an envelope that a call of the
/// transport sent or delivered.
pub open spec fn carried<T: Transport>(sequence: u64) -> bool {
    ||| exists|m: &mut T, env: &WireEnvelope, sent: Result<(), RuntimeError>| #[trigger] call_ensures(T::send, (m, env), sent)
        && sent is Ok && env.sequence == sequence
    ||| exists|m: &mut T, got: Result<WireEnvelope, RuntimeError>| #[trigger] call_ensures(T::receive, (m,), got)
        && (got matches Ok(env) && env.sequence == sequence)
}

/// The frame `f` came in an envelope that a call of the transport delivered.
pub open spec fn delivered<T: Transport>(f: Frame) -> bool {
    exists|m: &mut T, got: Result<WireEnvelope, RuntimeError>| #[trigger] call_ensures(T::receive, (m,), got)
        && (got matches Ok(env) && env.frame == f)
}

/// `m` is a message with which the generation workload stops on a frame the transport
/// delivered: a payload is missing its member, or the frame is not the one the workload
/// expects.
pub open spec fn workload_refusal<T: Transport>(m: Seq<char>) -> bool {
    exists|f: Frame| #[trigger] delivered::<T>(f) && {
        ||| prompt_refusal(f, m)
        ||| token_refusal(f, m)
        ||| client_refusal(f, m)
        ||| reply_refusal(f, m)
        ||| cancellation_refusal(f, m)
    }
}

/// The message with which a driver stops where one more transition would overflow the
/// sequence number.
pub open spec fn exhaustion_message() -> Seq<char> {
    "sequence numbers are exhausted"@
}

/// Why a driver that plays its role can stop with `e`: the transport failed with it, the
/// machine refused what the transport delivered or one of its own actions, the workload
/// refused a delivered frame, or the sequence numbers ran out after the transport carried
/// the envelope numbered `u64::MAX - 2` or `u64::MAX - 1`.
pub open spec fn driver_error<T: Transport>(e: RuntimeError) -> bool {
    ||| transport_error::<T>(e)
    ||| refused_delivery::<T>(e)
    ||| own_refusal(e)
    ||| e matches RuntimeError::Application(m) && workload_refusal::<T>(m@)
    ||| e matches RuntimeError::Application(m) && m@ == exhaustion_message() && (carried::<T>((u64::MAX - 2) as u64)
        || carried::<T>((u64::MAX - 1) as u64))
}

/// Refuses to go on where the machine's sequence number has fewer than `room` successors:
/// a receive takes one, an emit two, one for itself and one for a failure its send may
/// bring.
fn check_sequence(machine: &EndpointMachine, room: u64) -> (r: Result<(), RuntimeError>)
    requires
        1 <= room <= 2,
    ensures
        r is Ok <==> machine.sequence_view() + room <= u64::MAX,
        r matches Err(e) ==> (e matches RuntimeError::Application(m) && m@ == exhaustion_message()),
{
    if machine.sequence() > u64::MAX - room {
        Err(RuntimeError::Application(text_from("sequence numbers are exhausted")))
    } else {
        Ok(())
    }
}

/// What the client does with the frame that follows its prompt or its selection.
#[derive(Debug)]
pub enum ClientAction {
    /// The server selected `done`: nothing to send; the session is at its end.
    Wait,
    /// The server selected `token`: a token follows.
    ReceiveToken,
    /// The frame is not one the client expects.
    Refuse(RuntimeError),
}

/// `m` is the client's refusal of `f`, a frame that selects neither `done` nor `token`.
pub open spec fn client_refusal(f: Frame, m: Seq<char>) -> bool {
    &&& !(f matches Frame::Select { label, .. } && (label@ == "done"@ || label@ == "token"@))
    &&& m == "client received unexpected frame "@ + frame_debug(f)
}

/// The client's decision on a frame it received where it waits for the server's choice.
pub fn client_action(frame: &Frame) -> (a: ClientAction)
    ensures
        match *frame {
            Frame::Select { label, .. } if label@ == "done"@ => a is Wait,
            Frame::Select { label, .. } if label@ == "token"@ => a is ReceiveToken,
            _ => a matches ClientAction::Refuse(RuntimeError::Application(m)) && client_refusal(*frame, m@),
        },
{
    match frame {
        Frame::Select { label, .. } => {
            if same_text(label.as_str(), "done") {
                return ClientAction::Wait;
            }
            if same_text(label.as_str(), "token") {
                return ClientAction::ReceiveToken;
            }
        },
        _ => {},
    }
    let mut m = text_from("client received unexpected frame ");
    push_text(&mut m, frame_debug_text(frame).as_str());
    ClientAction::Refuse(RuntimeError::Application(m))
}

/// Whether the client cancels once it has received `received` tokens.
pub fn client_cancels(received: usize, cancel_after: Option<usize>) -> (r: bool)
    ensures
        r == (cancel_after matches Some(k) && received >= k),
{
    match cancel_after {
        Some(limit) => received >= limit,
        None => false,
    }
}

/// What the server does next, having sent some tokens.
#[derive(Debug)]
pub enum ServerTurn {
    /// The limit is reached: select `done`.
    SelectDone,
    /// Select `token` and send the token with this id.
    SendToken(u64),
}

/// The server's decision after `sent` tokens under `token_limit`: `done` at the limit,
/// else the next token, numbered from one.
pub fn server_turn(sent: usize, token_limit: usize) -> (t: ServerTurn)
    ensures
        sent >= token_limit ==> t is SelectDone,
        sent < token_limit ==> t == ServerTurn::SendToken((sent + 1) as u64),
{
    if sent >= token_limit {
        ServerTurn::SelectDone
    } else {
        ServerTurn::SendToken(sent as u64 + 1)
    }
}

/// What the server does with the client's reply to a token.
#[derive(Debug)]
pub enum ServerReply {
    /// The client selected `continue`.
    Continue,
    /// The client selected `cancel`: its cancellation follows.
    AwaitCancel,
    /// The frame is not one the server expects.
    Refuse(RuntimeError),
}

/// `m` is the server's refusal of `f` as a reply: a frame that selects neither
/// `continue` nor `cancel`.
pub open spec fn reply_refusal(f: Frame, m: Seq<char>) -> bool {
    &&& !(f matches Frame::Select { label, .. } && (label@ == "continue"@ || label@ == "cancel"@))
    &&& m == "server received unexpected frame "@ + frame_debug(f)
}

/// The server's decision on the client's reply to a token.
pub fn server_reply(frame: &Frame) -> (a: ServerReply)
    ensures
        match *frame {
            Frame::Select { label, .. } if label@ == "continue"@ => a is Continue,
            Frame::Select { label, .. } if label@ == "cancel"@ => a is AwaitCancel,
            _ => a matches ServerReply::Refuse(RuntimeError::Application(m)) && reply_refusal(*frame, m@),
        },
{
    match frame {
        Frame::Select { label, .. } => {
            if same_text(label.as_str(), "continue") {
                return ServerReply::Continue;
            }
            if same_text(label.as_str(), "cancel") {
                return ServerReply::AwaitCancel;
            }
        },
        _ => {},
    }
    let mut m = text_from("server received unexpected frame ");
    push_text(&mut m, frame_debug_text(frame).as_str());
    ServerReply::Refuse(RuntimeError::Application(m))
}

/// `m` is the server's refusal of `f`, which is no cancellation, after `cancel`.
pub open spec fn cancellation_refusal(f: Frame, m: Seq<char>) -> bool {
    &&& !(f is Cancel)
    &&& m == "server expected cancellation, received "@ + frame_debug(f)
}

/// The server's check of the frame that follows the client's `cancel`.
pub fn server_cancellation(frame: &Frame) -> (r: Result<(), RuntimeError>)
    ensures
        frame is Cancel ==> r is Ok,
        !(frame is Cancel) ==> (r matches Err(RuntimeError::Application(m)) && cancellation_refusal(*frame, m@)),
{
    match frame {
        Frame::Cancel { .. } => Ok(()),
        _ => {
            let mut m = text_from("server expected cancellation, received ");
            push_text(&mut m, frame_debug_text(frame).as_str());
            Err(RuntimeError::Application(m))
        },
    }
}

/// `r` is what a driver of `role` on `plan` reports: the report of the machine that
/// played the plan's endpoint of `role`, whose semantic trace is a run of that endpoint
/// from its initial state to the final state reported.
pub open spec fn driver_report(plan: PreparedPlan, role: Seq<char>, transport: Seq<char>, r: ExecutionReport) -> bool {
    exists|m: EndpointMachine| #[trigger] reports(m, transport, r.tokens@, r.semantic_trace@, r)
        && m.endpoint_view().role@ == role && m.identity_view() == plan.conversation_identity_view()
        && m.plan_identity_view() == plan.plan_identity_view()
        && plays(plan, role, m.endpoint_view())
        && endpoint_run(m.endpoint_view(), role, r.semantic_trace@) == Some(m.current_view())
}

/// `e` is the endpoint of `role` in the plan.
pub open spec fn plays(plan: PreparedPlan, role: Seq<char>, e: crate::projection::Endpoint) -> bool {
    exists|i: int| #[trigger] crate::plan::is_first_with_role(plan.endpoints_view(), role, i)
        && e == crate::plan::shared_value(plan.endpoints_view()[i])
}

/// What the client driver gives on `plan`, starting from the transport `before`: a zero
/// cancellation limit and a missing role are refused at once; otherwise its first act is
/// to send the prompt (unless its initial state sends no data). A report is a run of the
/// client's endpoint whose selections follow the cancellation limit, and which ends in an
/// end or failure state or with an observed fault; an error is a transport's, a refusal
/// of the machine, the workload refusing a delivered frame, or the sequence numbers
/// running out.
pub open spec fn client_outcome<T: Transport>(
    plan: PreparedPlan,
    before: T,
    prompt: Seq<char>,
    cancel_after: Option<usize>,
    r: Result<ExecutionReport, RuntimeError>,
) -> bool {
    &&& cancel_after == Some(0usize) ==> (r matches Err(RuntimeError::Application(m)) && m@
        == "cancel_after must be at least one token"@)
    &&& cancel_after != Some(0usize) && !plan_has_role(plan, "client"@) ==> (r matches Err(RuntimeError::UnknownRole(x))
        && x@ == "client"@)
    &&& cancel_after != Some(0usize) && plan_has_role(plan, "client"@) ==> (exists|m: &mut T, env: &WireEnvelope, sent: Result<(), RuntimeError>|
        #[trigger] call_ensures(T::send, (m, env), sent) && mut_ref_current(m) == before
            && (env.frame matches Frame::Data { payload: Some(p), .. } && p@ == prompt_json(prompt)))
        || (r matches Err(RuntimeError::Protocol { action, .. }) && action == "send data")
    &&& r matches Ok(report) ==> driver_report(plan, "client"@, report.transport@, report)
    &&& r matches Ok(report) ==> exists|m: EndpointMachine| #[trigger] reports(m, report.transport@, report.tokens@, report.semantic_trace@, report)
        && m.endpoint_view().role@ == "client"@
        && client_selections(m.endpoint_view(), "client"@, report.semantic_trace@, cancel_after)
        && report.tokens@.len() == accepted_data(m.endpoint_view(), "client"@, report.semantic_trace@, report.semantic_trace@.len() as nat)
    &&& r matches Ok(report) ==> report.completed || (report.semantic_trace@.len() > 0 && report.semantic_trace@.last() is Fault)
    &&& r matches Err(e) ==> cancel_after == Some(0usize) || !plan_has_role(plan, "client"@) || driver_error::<T>(e)
}

/// What the server driver gives on `plan`, starting from the transport `before`: a
/// missing role is refused at once; otherwise its first act is to receive. A report is a
/// run of the server's endpoint that streams at most `token_limit` tokens numbered from
/// one, choosing `token` below the limit and `done` at it, and which ends in an end or
/// failure state or with an observed fault; an error is a transport's, a refusal of the
/// machine, the workload refusing a delivered frame, or the sequence numbers running out.
pub open spec fn server_outcome<T: Transport>(
    plan: PreparedPlan,
    before: T,
    token_limit: usize,
    r: Result<ExecutionReport, RuntimeError>,
) -> bool {
    &&& !plan_has_role(plan, "server"@) ==> (r matches Err(RuntimeError::UnknownRole(x)) && x@ == "server"@)
    &&& plan_has_role(plan, "server"@) ==> exists|m: &mut T, got: Result<WireEnvelope, RuntimeError>|
        #[trigger] call_ensures(T::receive, (m,), got) && mut_ref_current(m) == before
    &&& r matches Ok(report) ==> driver_report(plan, "server"@, report.transport@, report)
        && report.tokens@.len() <= token_limit
        && forall|i: int| 0 <= i < report.tokens@.len() ==> report.tokens@[i] == i + 1
    &&& r matches Ok(report) ==> exists|m: EndpointMachine| #[trigger] reports(m, report.transport@, report.tokens@, report.semantic_trace@, report)
        && m.endpoint_view().role@ == "server"@
        && server_selections(m.endpoint_view(), "server"@, report.semantic_trace@, token_limit as nat)
        && report.tokens@.len() == emitted_data(m.endpoint_view(), "server"@, report.semantic_trace@, report.semantic_trace@.len() as nat)
    &&& r matches Ok(report) ==> report.completed || (report.semantic_trace@.len() > 0 && report.semantic_trace@.last() is Fault)
    &&& r matches Err(e) ==> !plan_has_role(plan, "server"@) || driver_error::<T>(e)
}

/// Runs the client of the generation workload on a prepared plan: it sends `prompt`, then
/// receives tokens while the server selects `token`, and after each token selects
/// `continue`, or `cancel` and cancels once `cancel_after` tokens arrived.
#[verifier::spinoff_prover]
#[verifier::rlimit(100)]
pub fn run_generate_client_plan<T: Transport>(
    plan: &PreparedPlan,
    transport: &mut T,
    prompt: &str,
    cancel_after: Option<usize>,
) -> (r: Result<ExecutionReport, RuntimeError>)
    ensures
        client_outcome(*plan, *old(transport), prompt@, cancel_after, r),
{
    let ghost t_start = *transport;
    if cancel_after == Some(0usize) {
        return Err(RuntimeError::Application(text_from("cancel_after must be at least one token")));
    }
    let transport_plan = text_from(transport.plan());
    let mut machine = match EndpointMachine::from_plan(plan, "client") {
        Ok(m) => m,
        Err(e) => {
            proof {
                reveal_strlit("client");
            }
            return Err(e);
        },
    };
    proof {
        reveal_strlit("client");
    }
    let ghost role = machine.endpoint_view().role@;
    let ghost e0 = machine.endpoint_view();
    assert(role == "client"@);
    assert(plays(*plan, role, e0));
    assert(plan_has_role(*plan, "client"@)) by {
        let i = choose|i: int| #[trigger] crate::plan::is_first_with_role(plan.endpoints_view(), "client"@, i)
            && machine.endpoint_view() == crate::plan::shared_value(plan.endpoints_view()[i]);
        assert(plan.endpoints_view()[i].role@ == "client"@);
    }
    let mut trace: Vec<Frame> = Vec::new();
    let mut tokens: Vec<u64> = Vec::new();
    let ghost c0 = machine.current_view();
    let prompt_envelope = match machine.emit_data(prompt_text(prompt)) {
        Ok(env) => env,
        Err(e) => {
            return Err(e);
        },
    };
    match send_and_record(&mut machine, transport, &prompt_envelope, &mut trace) {
        Ok(true) => {
            proof {
                lemma_client_push(e0, role, Seq::empty(), prompt_envelope.frame, c0, cancel_after);
            }
            assert(trace@ =~= Seq::<Frame>::empty().push(prompt_envelope.frame));
        },
        Ok(false) => {
            proof {
                assert(trace@ =~= Seq::<Frame>::empty().push(trace@.last()));
                lemma_client_push(e0, role, Seq::empty(), trace@.last(), c0, cancel_after);
            }
            let r = report(&machine, transport_plan, tokens, trace);
            return Ok(r);
        },
        Err(e) => {
            return Err(e);
        },
    }
    while !machine.is_complete()
        invariant_except_break
            machine.sequence_view() > 0 && carried::<T>((machine.sequence_view() - 1) as u64),
        invariant
            machine.endpoint_view().role@ == role,
            role == "client"@,
            machine.identity_view() == plan.conversation_identity_view(),
            machine.plan_identity_view() == plan.plan_identity_view(),
            cancel_after != Some(0usize),
            endpoint_run(machine.endpoint_view(), role, trace@) == Some(machine.current_view()),
            machine.endpoint_view() == e0,
            plays(*plan, role, e0),
            plan_has_role(*plan, "client"@),
            accepted_data(e0, role, trace@, trace@.len() as nat) == tokens@.len(),
            client_selections(e0, role, trace@, cancel_after),
            exists|m: &mut T, env: &WireEnvelope, sent: Result<(), RuntimeError>|
                #[trigger] call_ensures(T::send, (m, env), sent) && mut_ref_current(m) == t_start
                    && (env.frame matches Frame::Data { payload: Some(p), .. } && p@ == prompt_json(prompt@)),
            t_start == *old(transport),
        ensures
            machine.state_view() is End || machine.state_view() is Fail || (trace@.len() > 0 && trace@.last() is Fault),
        decreases u64::MAX - machine.sequence_view(),
    {
        match check_sequence(&machine, 1) {
            Ok(()) => {},
            Err(e) => {
                return Err(e);
            },
        }
        let ghost t0 = trace@;
        let ghost c1 = machine.current_view();
        let frame = match receive_and_record(&mut machine, transport, &mut trace) {
            Ok(Some(frame)) => {
                proof {
                    lemma_client_push(e0, role, t0, frame, c1, cancel_after);
                }
                frame
            },
            Ok(None) => {
                proof {
                    assert(trace@ =~= t0.push(trace@.last()));
                    lemma_client_push(e0, role, t0, trace@.last(), c1, cancel_after);
                }
                break;
            },
            Err(e) => {
                return Err(e);
            },
        };
        match client_action(&frame) {
            ClientAction::Wait => {},
            ClientAction::ReceiveToken => {
                match check_sequence(&machine, 1) {
                    Ok(()) => {},
                    Err(e) => {
                        return Err(e);
                    },
                }
                let ghost t1 = trace@;
                let ghost c2 = machine.current_view();
                let token = match receive_and_record(&mut machine, transport, &mut trace) {
                    Ok(Some(token)) => {
                        proof {
                            lemma_client_push(e0, role, t1, token, c2, cancel_after);
                        }
                        token
                    },
                    Ok(None) => {
                        proof {
                            assert(trace@ =~= t1.push(trace@.last()));
                            lemma_client_push(e0, role, t1, trace@.last(), c2, cancel_after);
                        }
                        break;
                    },
                    Err(e) => {
                        return Err(e);
                    },
                };
                let token_id = match token_payload(&token) {
                    Ok(id) => id,
                    Err(e) => {
                        return Err(e);
                    },
                };
                tokens.push(token_id);
                let cancel = client_cancels(tokens.len(), cancel_after);
                match check_sequence(&machine, 2) {
                    Ok(()) => {},
                    Err(e) => {
                        return Err(e);
                    },
                }
                let ghost t2 = trace@;
                let ghost c3 = machine.current_view();
                let selection = match machine.emit_select(if cancel { "cancel" } else { "continue" }) {
                    Ok(env) => env,
                    Err(e) => {
                        return Err(e);
                    },
                };
                match send_and_record(&mut machine, transport, &selection, &mut trace) {
                    Ok(true) => {
                        proof {
                            lemma_client_push(e0, role, t2, selection.frame, c3, cancel_after);
                        }
                    },
                    Ok(false) => {
                        proof {
                            assert(trace@ =~= t2.push(trace@.last()));
                            lemma_client_push(e0, role, t2, trace@.last(), c3, cancel_after);
                        }
                        break;
                    },
                    Err(e) => {
                        return Err(e);
                    },
                }
                if cancel {
                    match check_sequence(&machine, 2) {
                        Ok(()) => {},
                        Err(e) => {
                            return Err(e);
                        },
                    }
                    let ghost t3 = trace@;
                    let ghost c4 = machine.current_view();
                    let cancellation = match machine.emit_cancel() {
                        Ok(env) => env,
                        Err(e) => {
                            return Err(e);
                        },
                    };
                    match send_and_record(&mut machine, transport, &cancellation, &mut trace) {
                        Ok(true) => {
                            proof {
                                lemma_client_push(e0, role, t3, cancellation.frame, c4, cancel_after);
                            }
                        },
                        Ok(false) => {
                            proof {
                                assert(trace@ =~= t3.push(trace@.last()));
                                lemma_client_push(e0, role, t3, trace@.last(), c4, cancel_after);
                            }
                            break;
                        },
                        Err(e) => {
                            return Err(e);
                        },
                    }
                }
            },
            ClientAction::Refuse(e) => {
                return Err(e);
            },
        }
    }
    if machine.is_successful() {
        match transport.finish(machine.role()) {
            Ok(()) => {},
            Err(e) => {
                return Err(e);
            },
        }
    }
    Ok(report(&machine, transport_plan, tokens, trace))
}

/// Runs the server of the generation workload on a prepared plan: it receives the prompt,
/// then while it has sent fewer than `token_limit` tokens selects `token`, sends the next
/// token id and waits for `continue` or `cancel` and the cancellation; at the limit it
/// selects `done`.
#[verifier::spinoff_prover]
#[verifier::rlimit(100)]
pub fn run_generate_server_plan<T: Transport>(
    plan: &PreparedPlan,
    transport: &mut T,
    token_limit: usize,
) -> (r: Result<ExecutionReport, RuntimeError>)
    ensures
        server_outcome(*plan, *old(transport), token_limit, r),
{
    let ghost t_start = *transport;
    let ghost limit = token_limit as nat;
    let transport_plan = text_from(transport.plan());
    let mut machine = match EndpointMachine::from_plan(plan, "server") {
        Ok(m) => m,
        Err(e) => {
            proof {
                reveal_strlit("server");
            }
            return Err(e);
        },
    };
    proof {
        reveal_strlit("server");
    }
    let ghost role = machine.endpoint_view().role@;
    let ghost e0 = machine.endpoint_view();
    assert(role == "server"@);
    assert(plays(*plan, role, e0));
    assert(plan_has_role(*plan, "server"@)) by {
        let i = choose|i: int| #[trigger] crate::plan::is_first_with_role(plan.endpoints_view(), "server"@, i)
            && machine.endpoint_view() == crate::plan::shared_value(plan.endpoints_view()[i]);
        assert(plan.endpoints_view()[i].role@ == "server"@);
    }
    let mut trace: Vec<Frame> = Vec::new();
    let mut tokens: Vec<u64> = Vec::new();
    let ghost c0 = machine.current_view();
    let prompt = match receive_and_record(&mut machine, transport, &mut trace) {
        Ok(Some(prompt)) => {
            proof {
                lemma_server_push(e0, role, Seq::empty(), prompt, c0, limit);
                assert(trace@ =~= Seq::<Frame>::empty().push(prompt));
            }
            prompt
        },
        Ok(None) => {
            proof {
                assert(trace@ =~= Seq::<Frame>::empty().push(trace@.last()));
                lemma_server_push(e0, role, Seq::empty(), trace@.last(), c0, limit);
            }
            return Ok(report(&machine, transport_plan, tokens, trace));
        },
        Err(e) => {
            return Err(e);
        },
    };
    match prompt_payload(&prompt) {
        Ok(_) => {},
        Err(e) => {
            return Err(e);
        },
    }
    while !machine.is_complete()
        invariant_except_break
            machine.sequence_view() > 0 && carried::<T>((machine.sequence_view() - 1) as u64),
        invariant
            machine.endpoint_view().role@ == role,
            role == "server"@,
            machine.identity_view() == plan.conversation_identity_view(),
            machine.plan_identity_view() == plan.plan_identity_view(),
            plan_has_role(*plan, "server"@),
            tokens@.len() <= token_limit,
            limit == token_limit as nat,
            endpoint_run(machine.endpoint_view(), role, trace@) == Some(machine.current_view()),
            machine.endpoint_view() == e0,
            plays(*plan, role, e0),
            forall|i: int| 0 <= i < tokens@.len() ==> tokens@[i] == i + 1,
            emitted_data(e0, role, trace@, trace@.len() as nat) == tokens@.len(),
            server_selections(e0, role, trace@, limit),
            exists|m: &mut T, got: Result<WireEnvelope, RuntimeError>| #[trigger] call_ensures(T::receive, (m,), got)
                && mut_ref_current(m) == t_start,
            t_start == *old(transport),
        ensures
            machine.state_view() is End || machine.state_view() is Fail || (trace@.len() > 0 && trace@.last() is Fault),
        decreases u64::MAX - machine.sequence_view(),
    {
        match check_sequence(&machine, 2) {
            Ok(()) => {},
            Err(e) => {
                return Err(e);
            },
        }
        let token_id = match server_turn(tokens.len(), token_limit) {
            ServerTurn::SelectDone => {
                let ghost t0 = trace@;
                let ghost c1 = machine.current_view();
                let done = match machine.emit_select("done") {
                    Ok(env) => env,
                    Err(e) => {
                        return Err(e);
                    },
                };
                match send_and_record(&mut machine, transport, &done, &mut trace) {
                    Ok(true) => {
                        proof {
                            lemma_server_push(e0, role, t0, done.frame, c1, limit);
                        }
                    },
                    Ok(false) => {
                        proof {
                            assert(trace@ =~= t0.push(trace@.last()));
                            lemma_server_push(e0, role, t0, trace@.last(), c1, limit);
                        }
                        break;
                    },
                    Err(e) => {
                        return Err(e);
                    },
                }
                continue;
            },
            ServerTurn::SendToken(id) => id,
        };
        let ghost t0 = trace@;
        let ghost c1 = machine.current_view();
        let selection = match machine.emit_select("token") {
            Ok(env) => env,
            Err(e) => {
                return Err(e);
            },
        };
        match send_and_record(&mut machine, transport, &selection, &mut trace) {
            Ok(true) => {
                proof {
                    lemma_server_push(e0, role, t0, selection.frame, c1, limit);
                }
            },
            Ok(false) => {
                proof {
                    assert(trace@ =~= t0.push(trace@.last()));
                    lemma_server_push(e0, role, t0, trace@.last(), c1, limit);
                }
                break;
            },
            Err(e) => {
                return Err(e);
            },
        }
        match check_sequence(&machine, 2) {
            Ok(()) => {},
            Err(e) => {
                return Err(e);
            },
        }
        let ghost t1 = trace@;
        let ghost c2 = machine.current_view();
        let token = match machine.emit_data(token_text(token_id)) {
            Ok(env) => env,
            Err(e) => {
                return Err(e);
            },
        };
        match send_and_record(&mut machine, transport, &token, &mut trace) {
            Ok(true) => {
                proof {
                    lemma_server_push(e0, role, t1, token.frame, c2, limit);
                }
            },
            Ok(false) => {
                proof {
                    assert(trace@ =~= t1.push(trace@.last()));
                    lemma_server_push(e0, role, t1, trace@.last(), c2, limit);
                }
                break;
            },
            Err(e) => {
                return Err(e);
            },
        }
        tokens.push(token_id);
        match check_sequence(&machine, 1) {
            Ok(()) => {},
            Err(e) => {
                return Err(e);
            },
        }
        let ghost t2 = trace@;
        let ghost c3 = machine.current_view();
        let frame = match receive_and_record(&mut machine, transport, &mut trace) {
            Ok(Some(frame)) => {
                proof {
                    lemma_server_push(e0, role, t2, frame, c3, limit);
                }
                frame
            },
            Ok(None) => {
                proof {
                    assert(trace@ =~= t2.push(trace@.last()));
                    lemma_server_push(e0, role, t2, trace@.last(), c3, limit);
                }
                break;
            },
            Err(e) => {
                return Err(e);
            },
        };
        match server_reply(&frame) {
            ServerReply::Continue => {},
            ServerReply::AwaitCancel => {
                match check_sequence(&machine, 1) {
                    Ok(()) => {},
                    Err(e) => {
                        return Err(e);
                    },
                }
                let ghost t3 = trace@;
                let ghost c4 = machine.current_view();
                let next = match receive_and_record(&mut machine, transport, &mut trace) {
                    Ok(Some(next)) => {
                        proof {
                            lemma_server_push(e0, role, t3, next, c4, limit);
                        }
                        next
                    },
                    Ok(None) => {
                        proof {
                            assert(trace@ =~= t3.push(trace@.last()));
                            lemma_server_push(e0, role, t3, trace@.last(), c4, limit);
                        }
                        break;
                    },
                    Err(e) => {
                        return Err(e);
                    },
                };
                match server_cancellation(&next) {
                    Ok(()) => {},
                    Err(e) => {
                        return Err(e);
                    },
                }
            },
            ServerReply::Refuse(e) => {
                return Err(e);
            },
        }
    }
    if machine.is_successful() {
        match transport.finish(machine.role()) {
            Ok(()) => {},
            Err(e) => {
                return Err(e);
            },
        }
    }
    Ok(report(&machine, transport_plan, tokens, trace))
}

/// The endpoint a compiled plan has for a role is that role's projection.
proof fn lemma_compiled_role_projects(c: Conversation, p: crate::plan::EvePlan, plan: PreparedPlan, role: Seq<char>, e: crate::projection::Endpoint)
    requires
        crate::plan::is_compilation_of(c, p),
        crate::plan::prepared_from(plan, p),
        plays(plan, role, e),
    ensures
        crate::projection::endpoint_projects(c, role, e),
        crate::validate::role_ids(c).contains(role),
{
    let eps = p.endpoints@;
    let first: int = if crate::text::text_lt(c.roles@[1].id@, c.roles@[0].id@) {
        1
    } else {
        0
    };
    assert(crate::plan::role_ordered_projection(c, eps));
    let i = choose|i: int| #[trigger] crate::plan::is_first_with_role(plan.endpoints_view(), role, i)
        && e == crate::plan::shared_value(plan.endpoints_view()[i]);
    assert(i == 0 || i == 1);
    assert(crate::projection::endpoint_projects(c, c.roles@[first].id@, crate::plan::shared_value(eps[0])));
    assert(crate::projection::endpoint_projects(c, c.roles@[1 - first].id@, crate::plan::shared_value(eps[1])));
    assert(crate::validate::role_ids(c)[first] == c.roles@[first].id@);
    assert(crate::validate::role_ids(c)[1 - first] == c.roles@[1 - first].id@);
}

/// A session report of a plan compiled from `c` holds a trace of `c`, which the
/// conversation follows from its initial state to the reported final state; where the
/// trace ends with an observed fault, that state is a failure state.
proof fn lemma_report_is_conversation_trace(c: Conversation, plan: PreparedPlan, role: Seq<char>, r: ExecutionReport)
    requires
        is_valid(c),
        exists|p: crate::plan::EvePlan| #[trigger] crate::plan::is_compilation_of(c, p) && crate::plan::plan_is_sound(p)
            && crate::plan::prepared_from(plan, p),
        driver_report(plan, role, r.transport@, r),
    ensures
        crate::trace::trace_state(c, r.semantic_trace@, r.semantic_trace@.len() as nat) == Some(r.final_state@),
        r.semantic_trace@.len() > 0 && r.semantic_trace@.last() is Fault ==> r.completed,
{
    let p = choose|p: crate::plan::EvePlan| #[trigger] crate::plan::is_compilation_of(c, p) && crate::plan::plan_is_sound(p)
        && crate::plan::prepared_from(plan, p);
    let m = choose|m: EndpointMachine| #[trigger] reports(m, r.transport@, r.tokens@, r.semantic_trace@, r)
        && m.endpoint_view().role@ == role && m.identity_view() == plan.conversation_identity_view()
        && m.plan_identity_view() == plan.plan_identity_view()
        && plays(plan, role, m.endpoint_view())
        && endpoint_run(m.endpoint_view(), role, r.semantic_trace@) == Some(m.current_view());
    lemma_compiled_role_projects(c, p, plan, role, m.endpoint_view());
    crate::duality::law_endpoint_runs_are_conversation_traces(c, role, m.endpoint_view(), r.semantic_trace@);
    if r.semantic_trace@.len() > 0 && r.semantic_trace@.last() is Fault {
        crate::duality::law_fault_runs_end_in_failure(c, role, m.endpoint_view(), r.semantic_trace@);
    }
}

/// Compiles a conversation and runs the client of the generation workload on it; a report
/// is of a session played to an end or failure state.
pub fn run_generate_client<T: Transport>(
    conversation: &Conversation,
    transport: &mut T,
    prompt: &str,
    cancel_after: Option<usize>,
) -> (r: Result<ExecutionReport, RuntimeError>)
    ensures
        !is_valid(*conversation) ==> (r matches Err(RuntimeError::Plan(PlanError::InvalidConversation(e)))
            && diagnostics_view(e.diagnostics@) == validation_diagnostics(*conversation)),
        r matches Ok(report) ==> exists|plan: PreparedPlan| driver_report(plan, "client"@, report.transport@, report),
        r matches Ok(report) ==> report.completed,
        r matches Ok(report) ==> crate::trace::trace_state(*conversation, report.semantic_trace@, report.semantic_trace@.len() as nat)
            == Some(report.final_state@),
        is_valid(*conversation) ==> (r matches Err(RuntimeError::Plan(e)) && crate::plan::compile_failure(*conversation, e))
            || exists|p: crate::plan::EvePlan, plan: PreparedPlan| #[trigger] crate::plan::prepared_from(plan, p)
                && crate::plan::is_compilation_of(*conversation, p) && crate::plan::plan_is_sound(p)
                && client_outcome(plan, *old(transport), prompt@, cancel_after, r),
{
    let plan = match PreparedPlan::compile(conversation) {
        Ok(plan) => plan,
        Err(e) => {
            return Err(RuntimeError::Plan(e));
        },
    };
    let r = run_generate_client_plan(&plan, transport, prompt, cancel_after);
    proof {
        if r is Ok {
            lemma_report_is_conversation_trace(*conversation, plan, "client"@, r->Ok_0);
        }
    }
    r
}

/// Compiles a conversation and runs the server of the generation workload on it; a report
/// is of a session played to an end or failure state.
pub fn run_generate_server<T: Transport>(
    conversation: &Conversation,
    transport: &mut T,
    token_limit: usize,
) -> (r: Result<ExecutionReport, RuntimeError>)
    ensures
        !is_valid(*conversation) ==> (r matches Err(RuntimeError::Plan(PlanError::InvalidConversation(e)))
            && diagnostics_view(e.diagnostics@) == validation_diagnostics(*conversation)),
        r matches Ok(report) ==> exists|plan: PreparedPlan| driver_report(plan, "server"@, report.transport@, report),
        r matches Ok(report) ==> report.completed,
        r matches Ok(report) ==> report.tokens@.len() <= token_limit,
        r matches Ok(report) ==> crate::trace::trace_state(*conversation, report.semantic_trace@, report.semantic_trace@.len() as nat)
            == Some(report.final_state@),
        is_valid(*conversation) ==> (r matches Err(RuntimeError::Plan(e)) && crate::plan::compile_failure(*conversation, e))
            || exists|p: crate::plan::EvePlan, plan: PreparedPlan| #[trigger] crate::plan::prepared_from(plan, p)
                && crate::plan::is_compilation_of(*conversation, p) && crate::plan::plan_is_sound(p)
                && server_outcome(plan, *old(transport), token_limit, r),
{
    let plan = match PreparedPlan::compile(conversation) {
        Ok(plan) => plan,
        Err(e) => {
            return Err(RuntimeError::Plan(e));
        },
    };
    let r = run_generate_server_plan(&plan, transport, token_limit);
    proof {
        if r is Ok {
            lemma_report_is_conversation_trace(*conversation, plan, "server"@, r->Ok_0);
        }
    }
    r
}

/// Some state of some endpoint of the plan declares the failure.
pub open spec fn plan_declares_failure(plan: PreparedPlan, failure: Seq<char>) -> bool {
    exists|i: int, j: int|
        0 <= i < plan.endpoints_view().len() && 0 <= j < plan.endpoints_view()[i].states.len()
            && lookup(endpoint_failure_edges(#[trigger] plan.endpoints_view()[i].states@[j]), failure) is Some
}

fn declares_failure(plan: &PreparedPlan, failure: &str) -> (r: bool)
    ensures
        r == plan_declares_failure(*plan, failure@),
{
    let endpoints = plan.endpoints();
    let mut i: usize = 0;
    while i < endpoints.len()
        invariant
            endpoints@ == plan.endpoints_view(),
            i <= endpoints.len(),
            forall|a: int, j: int|
                0 <= a < i && 0 <= j < endpoints@[a].states.len() ==> lookup(
                    endpoint_failure_edges(#[trigger] endpoints@[a].states@[j]),
                    failure@,
                ) is None,
        decreases endpoints.len() - i,
    {
        let states = &endpoints[i].states;
        let mut j: usize = 0;
        while j < states.len()
            invariant
                endpoints@ == plan.endpoints_view(),
                i < endpoints.len(),
                states@ == endpoints@[i as int].states@,
                j <= states.len(),
                forall|a: int, k: int|
                    0 <= a < i && 0 <= k < endpoints@[a].states.len() ==> lookup(
                        endpoint_failure_edges(#[trigger] endpoints@[a].states@[k]),
                        failure@,
                    ) is None,
                forall|k: int| 0 <= k < j ==> lookup(endpoint_failure_edges(#[trigger] states@[k]), failure@) is None,
            decreases states.len() - j,
        {
            if states[j].failure_target(failure).is_some() {
                assert(lookup(endpoint_failure_edges(plan.endpoints_view()[i as int].states@[j as int]), failure@) is Some);
                return true;
            }
            j = j + 1;
        }
        i = i + 1;
    }
    false
}

/// Checks a fault plan against a prepared plan: its role must be one of the plan's, and
/// its failure, and its peer failure where it has one, must be declared somewhere.
pub fn check_fault_plan(plan: &PreparedPlan, fault: &FaultPlan) -> (r: Result<(), RuntimeError>)
    ensures
        if !plan_has_role(*plan, fault.role@) {
            r matches Err(RuntimeError::UnknownRole(x)) && x@ == fault.role@
        } else if !plan_declares_failure(*plan, fault.failure@) {
            r matches Err(RuntimeError::Application(m)) && m@ == "fault plan references undeclared failure "@ + fault.failure@
        } else if fault.peer_failure matches Some(p) && !plan_declares_failure(*plan, p@) {
            r matches Err(RuntimeError::Application(m)) && m@ == "fault plan references undeclared peer failure "@ + fault.peer_failure->0@
        } else {
            r is Ok
        },
{
    if plan.endpoint(fault.role.as_str()).is_none() {
        return Err(RuntimeError::UnknownRole(fault.role.clone()));
    }
    proof {
        let i = choose|i: int| crate::plan::is_first_with_role(plan.endpoints_view(), fault.role@, i);
        assert(plan.endpoints_view()[i].role@ == fault.role@);
    }
    if !declares_failure(plan, fault.failure.as_str()) {
        let mut m = text_from("fault plan references undeclared failure ");
        push_text(&mut m, fault.failure.as_str());
        return Err(RuntimeError::Application(m));
    }
    match &fault.peer_failure {
        Some(peer_failure) => {
            if !declares_failure(plan, peer_failure.as_str()) {
                let mut m = text_from("fault plan references undeclared peer failure ");
                push_text(&mut m, peer_failure.as_str());
                return Err(RuntimeError::Application(m));
            }
        },
        None => {},
    }
    Ok(())
}

/// The error of a fault plan whose occurrence the session never reached.
pub fn unfired_fault(fault: &FaultPlan) -> (r: RuntimeError)
    ensures
        r matches RuntimeError::Application(m) && m@ == "fault plan did not fire: "@ + fault.role@ + " "@
            + operation_name(fault.operation) + " occurrence "@ + decimal(fault.occurrence as nat) + " was not reached"@,
{
    let mut m = text_from("fault plan did not fire: ");
    push_text(&mut m, fault.role.as_str());
    push_text(&mut m, " ");
    push_text(&mut m, fault.operation.as_str());
    push_text(&mut m, " occurrence ");
    push_decimal(&mut m, fault.occurrence as u64);
    push_text(&mut m, " was not reached");
    RuntimeError::Application(m)
}

/// The combined report of a session with an injected fault.
pub fn fault_demo_report(client: ExecutionReport, server: ExecutionReport, fault: FaultPlan) -> (r: DemoReport)
    ensures
        r.transport_plan@ == "memory+fault"@,
        r.conversation_identity@ == client.conversation_identity@,
        r.plan_identity@ == client.plan_identity@,
        r.semantic_trace_equivalent == traces_agree(client, server),
        r.outcome_equivalent == outcomes_agree(client, server),
        r.fault_plan == Some(fault),
        r.client == client,
        r.server == server,
{
    let mut r = demo_report("memory+fault", client, server);
    r.fault_plan = Some(fault);
    r
}

/// Frames with the same text in every field encode alike.
proof fn lemma_same_frame_json(a: Frame, b: Frame)
    requires
        same_frame(a, b),
    ensures
        frame_json(a) == frame_json(b),
{
}

/// The semantic trace identity depends only on the frames: two traces that hold the
/// same frames in the same order have the same identity, whichever side recorded them.
pub proof fn law_equal_traces_have_equal_identities(a: Seq<Frame>, b: Seq<Frame>)
    requires
        a.len() == b.len(),
        forall|i: int| 0 <= i < a.len() ==> same_frame(#[trigger] a[i], b[i]),
    ensures
        text_identity_of(frames_json(a)) == text_identity_of(frames_json(b)),
{
    assert forall|i: int| 0 <= i < a.len() implies frame_json(#[trigger] a[i]) == frame_json(b[i]) by {
        lemma_same_frame_json(a[i], b[i]);
    }
    assert(crate::encode::frames_items(a) =~= crate::encode::frames_items(b));
}

/// Where both sides of a session recorded the same trace, the combined report says so,
/// and their trace identities agree.
pub proof fn law_agreeing_traces_agree_in_identity(client: ExecutionReport, server: ExecutionReport)
    requires
        traces_agree(client, server),
        client.semantic_trace_identity@ == text_identity_of(frames_json(client.semantic_trace@)),
        server.semantic_trace_identity@ == text_identity_of(frames_json(server.semantic_trace@)),
    ensures
        client.semantic_trace_identity@ == server.semantic_trace_identity@,
{
    law_equal_traces_have_equal_identities(client.semantic_trace@, server.semantic_trace@);
}

} // verus!
