//! Eve Wire encodings: the self-describing reference envelope, the plan-backed compact
//! envelope, and the session preface two peers exchange before compact frames.
use vstd::prelude::*;
use std::sync::Arc;
use crate::encode::{frame_json, frame_text};
use crate::debug::{frame_debug, frame_debug_text};
use crate::plan::{CompactWirePlan, PreparedPlan, WireOperation, WireTransition, wire_ids_dense, is_first_with_role};
use crate::runtime::{RuntimeError, WireEnvelope, WIRE_FORMAT, SESSION_FORMAT};
use crate::text::{decimal, json_string, push_decimal, push_json_string, push_text, same_text, text_from};
use crate::trace::Frame;
use crate::projection::opt_text;

verus! {

/// The largest wire envelope a transport accepts, in bytes.
pub const MAX_ENVELOPE_BYTES: usize = 16777216;

/// The largest session preface a transport accepts, in bytes.
pub const MAX_SESSION_PREFACE_BYTES: usize = 65536;

/// The status byte that refuses a peer's session preface.
pub const SESSION_REJECTED: u8 = 0;

/// The status byte that accepts a peer's session preface.
pub const SESSION_ACCEPTED: u8 = 1;

/// Selects between the self-describing reference envelope and the plan-backed compact
/// envelope.
#[derive(Debug, Clone, Copy, PartialEq, Eq)]
pub enum WireEncoding {
    Reference,
    Compact,
}

pub open spec fn encoding_name(e: WireEncoding) -> Seq<char> {
    match e {
        WireEncoding::Reference => "reference"@,
        WireEncoding::Compact => "compact"@,
    }
}

impl WireEncoding {
    pub fn as_str(self) -> (r: &'static str)
        ensures
            r@ == encoding_name(self),
    {
        match self {
            WireEncoding::Reference => "reference",
            WireEncoding::Compact => "compact",
        }
    }
}

/// The contract two network peers bind before exchanging Eve frames.
#[derive(Debug, Clone, PartialEq, Eq)]
pub struct SessionPreface {
    pub eve_session: String,
    pub conversation: String,
    pub conversation_identity: String,
    pub plan_identity: String,
    pub role: String,
    pub wire: WireEncoding,
}

/// A compact envelope: a transition id of the plan's dictionary, the sequence number and,
/// for data, the payload as compact JSON text.
#[derive(Debug, Clone, PartialEq, Eq)]
pub struct CompactEnvelope {
    pub transition: u16,
    pub sequence: u64,
    pub payload: Option<String>,
}

/// `r` fails with a session mismatch on `field`.
pub open spec fn session_mismatch<T>(r: Result<T, RuntimeError>, field: &'static str, expected: Seq<char>, actual: Seq<char>) -> bool {
    r matches Err(RuntimeError::SessionMismatch { field: f, expected: e, actual: a }) && f == field && e@
        == expected && a@ == actual
}

/// Requires `actual` to be what the session expects in `field`.
pub fn require_session_field(field: &'static str, expected: &str, actual: &str) -> (r: Result<(), RuntimeError>)
    ensures
        expected@ == actual@ ==> r is Ok,
        expected@ != actual@ ==> session_mismatch(r, field, expected@, actual@),
{
    if !same_text(expected, actual) {
        return Err(RuntimeError::SessionMismatch { field, expected: text_from(expected), actual: text_from(actual) });
    }
    Ok(())
}

/// The plan has an endpoint for `role`.
pub open spec fn plan_has_role(plan: PreparedPlan, role: Seq<char>) -> bool {
    exists|i: int| 0 <= i < plan.endpoints_view().len() && plan.endpoints_view()[i].role@ == role
}

fn plan_knows_role(plan: &PreparedPlan, role: &str) -> (r: bool)
    ensures
        r == plan_has_role(*plan, role@),
{
    match plan.endpoint(role) {
        Some(_) => {
            proof {
                let i = choose|i: int| is_first_with_role(plan.endpoints_view(), role@, i);
                assert(plan.endpoints_view()[i].role@ == role@);
            }
            true
        },
        None => false,
    }
}

/// What checking a peer's preface answers: the expected role must be one of the plan's,
/// then the format, the conversation, its identity, the plan identity, the role and the
/// encoding must be what this side expects, in that order.
pub open spec fn peer_outcome(
    p: SessionPreface,
    plan: PreparedPlan,
    role: Seq<char>,
    wire: WireEncoding,
    r: Result<(), RuntimeError>,
) -> bool {
    if !plan_has_role(plan, role) {
        r matches Err(RuntimeError::UnknownRole(x)) && x@ == role
    } else if p.eve_session@ != SESSION_FORMAT@ {
        session_mismatch(r, "eve_session", SESSION_FORMAT@, p.eve_session@)
    } else if p.conversation@ != plan.conversation_view() {
        session_mismatch(r, "conversation", plan.conversation_view(), p.conversation@)
    } else if p.conversation_identity@ != plan.conversation_identity_view() {
        session_mismatch(r, "conversation_identity", plan.conversation_identity_view(), p.conversation_identity@)
    } else if p.plan_identity@ != plan.plan_identity_view() {
        session_mismatch(r, "plan_identity", plan.plan_identity_view(), p.plan_identity@)
    } else if p.role@ != role {
        session_mismatch(r, "role", role, p.role@)
    } else if p.wire != wire {
        session_mismatch(r, "wire", encoding_name(wire), encoding_name(p.wire))
    } else {
        r is Ok
    }
}

/// The preface of `role` on `plan`.
pub open spec fn is_preface_of(p: SessionPreface, plan: PreparedPlan, role: Seq<char>, wire: WireEncoding) -> bool {
    &&& p.eve_session@ == SESSION_FORMAT@
    &&& p.conversation@ == plan.conversation_view()
    &&& p.conversation_identity@ == plan.conversation_identity_view()
    &&& p.plan_identity@ == plan.plan_identity_view()
    &&& p.role@ == role
    &&& p.wire == wire
}

impl SessionPreface {
    /// The preface this side sends for `role` on `plan`.
    pub fn for_plan(plan: &PreparedPlan, role: &str, wire: WireEncoding) -> (r: Result<SessionPreface, RuntimeError>)
        ensures
            plan_has_role(*plan, role@) ==> (r matches Ok(p) && is_preface_of(p, *plan, role@, wire)),
            !plan_has_role(*plan, role@) ==> (r matches Err(RuntimeError::UnknownRole(x)) && x@ == role@),
    {
        if !plan_knows_role(plan, role) {
            return Err(RuntimeError::UnknownRole(text_from(role)));
        }
        Ok(SessionPreface {
            eve_session: text_from(SESSION_FORMAT),
            conversation: text_from(plan.conversation()),
            conversation_identity: text_from(plan.conversation_identity()),
            plan_identity: text_from(plan.plan_identity()),
            role: text_from(role),
            wire,
        })
    }

    /// Checks the preface a peer sent against what this side expects of it.
    pub fn verify_peer(&self, plan: &PreparedPlan, expected_role: &str, expected_wire: WireEncoding) -> (r: Result<(), RuntimeError>)
        ensures
            peer_outcome(*self, *plan, expected_role@, expected_wire, r),
    {
        if !plan_knows_role(plan, expected_role) {
            return Err(RuntimeError::UnknownRole(text_from(expected_role)));
        }
        match require_session_field("eve_session", SESSION_FORMAT, self.eve_session.as_str()) {
            Ok(()) => {},
            Err(e) => {
                return Err(e);
            },
        }
        match require_session_field("conversation", plan.conversation(), self.conversation.as_str()) {
            Ok(()) => {},
            Err(e) => {
                return Err(e);
            },
        }
        match require_session_field("conversation_identity", plan.conversation_identity(), self.conversation_identity.as_str()) {
            Ok(()) => {},
            Err(e) => {
                return Err(e);
            },
        }
        match require_session_field("plan_identity", plan.plan_identity(), self.plan_identity.as_str()) {
            Ok(()) => {},
            Err(e) => {
                return Err(e);
            },
        }
        match require_session_field("role", expected_role, self.role.as_str()) {
            Ok(()) => {},
            Err(e) => {
                return Err(e);
            },
        }
        proof {
            if self.wire != expected_wire {
                assert(encoding_name(self.wire) != encoding_name(expected_wire)) by {
                    reveal_strlit("reference");
                    reveal_strlit("compact");
                    assert(encoding_name(WireEncoding::Reference)[0] != encoding_name(WireEncoding::Compact)[0]);
                }
            }
        }
        require_session_field("wire", expected_wire.as_str(), self.wire.as_str())
    }
}

/// The JSON text of a session preface.
pub open spec fn preface_json(p: SessionPreface) -> Seq<char> {
    "{\"eve_session\":"@ + json_string(p.eve_session@) + ",\"conversation\":"@ + json_string(p.conversation@)
        + ",\"conversation_identity\":"@ + json_string(p.conversation_identity@) + ",\"plan_identity\":"@
        + json_string(p.plan_identity@) + ",\"role\":"@ + json_string(p.role@) + ",\"wire\":"@ + json_string(
        encoding_name(p.wire),
    ) + "}"@
}

fn preface_text(p: &SessionPreface) -> (r: String)
    ensures
        r@ == preface_json(*p),
{
    let mut out = text_from("{\"eve_session\":");
    push_json_string(&mut out, p.eve_session.as_str());
    push_text(&mut out, ",\"conversation\":");
    push_json_string(&mut out, p.conversation.as_str());
    push_text(&mut out, ",\"conversation_identity\":");
    push_json_string(&mut out, p.conversation_identity.as_str());
    push_text(&mut out, ",\"plan_identity\":");
    push_json_string(&mut out, p.plan_identity.as_str());
    push_text(&mut out, ",\"role\":");
    push_json_string(&mut out, p.role.as_str());
    push_text(&mut out, ",\"wire\":");
    push_json_string(&mut out, p.wire.as_str());
    push_text(&mut out, "}");
    out
}

/// Refuses a session preface longer than the limit.
pub fn check_preface_size(len: usize) -> (r: Result<(), RuntimeError>)
    ensures
        len <= MAX_SESSION_PREFACE_BYTES ==> r is Ok,
        len > MAX_SESSION_PREFACE_BYTES ==> (r matches Err(RuntimeError::SessionPrefaceTooLarge { actual, limit })
            && actual == len && limit == MAX_SESSION_PREFACE_BYTES),
{
    if len > MAX_SESSION_PREFACE_BYTES {
        return Err(RuntimeError::SessionPrefaceTooLarge { actual: len, limit: MAX_SESSION_PREFACE_BYTES });
    }
    Ok(())
}

/// Accepts the status byte a peer answered a session preface with only where it accepts
/// the session; otherwise the peer rejected it on `transport`.
pub fn check_peer_status(status: u8, transport: &'static str) -> (r: Result<(), RuntimeError>)
    ensures
        status == SESSION_ACCEPTED ==> r is Ok,
        status != SESSION_ACCEPTED ==> r == Err::<(), RuntimeError>(RuntimeError::SessionRejected(transport)),
{
    if status != SESSION_ACCEPTED {
        return Err(RuntimeError::SessionRejected(transport));
    }
    Ok(())
}

/// Refuses an envelope longer than the limit.
pub fn check_envelope_size(len: usize) -> (r: Result<(), RuntimeError>)
    ensures
        len <= MAX_ENVELOPE_BYTES ==> r is Ok,
        len > MAX_ENVELOPE_BYTES ==> (r matches Err(RuntimeError::EnvelopeTooLarge { actual, limit })
            && actual == len && limit == MAX_ENVELOPE_BYTES),
{
    if len > MAX_ENVELOPE_BYTES {
        return Err(RuntimeError::EnvelopeTooLarge { actual: len, limit: MAX_ENVELOPE_BYTES });
    }
    Ok(())
}

/// The UTF-8 bytes of a JSON text, refused when longer than `limit`.
fn sized_bytes(text: String, preface: bool) -> (r: Result<Vec<u8>, RuntimeError>)
    ensures
        match r {
            Ok(b) => b@ == vstd::utf8::encode_utf8(text@) && b.len() <= if preface {
                MAX_SESSION_PREFACE_BYTES
            } else {
                MAX_ENVELOPE_BYTES
            },
            Err(e) => vstd::utf8::encode_utf8(text@).len() > if preface {
                MAX_SESSION_PREFACE_BYTES
            } else {
                MAX_ENVELOPE_BYTES
            } && if preface {
                e matches RuntimeError::SessionPrefaceTooLarge { actual, limit } && actual
                    == vstd::utf8::encode_utf8(text@).len() && limit == MAX_SESSION_PREFACE_BYTES
            } else {
                e matches RuntimeError::EnvelopeTooLarge { actual, limit } && actual
                    == vstd::utf8::encode_utf8(text@).len() && limit == MAX_ENVELOPE_BYTES
            },
        },
{
    let bytes = text.as_str().as_bytes_vec();
    let checked = if preface {
        check_preface_size(bytes.len())
    } else {
        check_envelope_size(bytes.len())
    };
    match checked {
        Ok(()) => Ok(bytes),
        Err(e) => Err(e),
    }
}

/// The encoded preface: its JSON text as UTF-8, refused when longer than the limit.
pub fn encode_session_preface(preface: &SessionPreface) -> (r: Result<Vec<u8>, RuntimeError>)
    ensures
        match r {
            Ok(b) => b@ == vstd::utf8::encode_utf8(preface_json(*preface)) && b.len() <= MAX_SESSION_PREFACE_BYTES,
            Err(e) => vstd::utf8::encode_utf8(preface_json(*preface)).len() > MAX_SESSION_PREFACE_BYTES
                && (e matches RuntimeError::SessionPrefaceTooLarge { actual, limit } && actual
                == vstd::utf8::encode_utf8(preface_json(*preface)).len() && limit == MAX_SESSION_PREFACE_BYTES),
        },
{
    sized_bytes(preface_text(preface), true)
}

/// The JSON text of a reference envelope.
pub open spec fn envelope_json(e: WireEnvelope) -> Seq<char> {
    "{\"eve_wire\":"@ + json_string(e.eve_wire@) + ",\"conversation\":"@ + json_string(e.conversation@)
        + ",\"conversation_identity\":"@ + json_string(e.conversation_identity@) + ",\"state\":"@
        + json_string(e.state@) + ",\"sequence\":"@ + decimal(e.sequence as nat) + ",\"frame\":"@
        + frame_json(e.frame) + "}"@
}

fn envelope_text(e: &WireEnvelope) -> (r: String)
    ensures
        r@ == envelope_json(*e),
{
    let mut out = text_from("{\"eve_wire\":");
    push_json_string(&mut out, e.eve_wire.as_str());
    push_text(&mut out, ",\"conversation\":");
    push_json_string(&mut out, e.conversation.as_str());
    push_text(&mut out, ",\"conversation_identity\":");
    push_json_string(&mut out, e.conversation_identity.as_str());
    push_text(&mut out, ",\"state\":");
    push_json_string(&mut out, e.state.as_str());
    push_text(&mut out, ",\"sequence\":");
    push_decimal(&mut out, e.sequence);
    push_text(&mut out, ",\"frame\":");
    push_text(&mut out, frame_text(&e.frame).as_str());
    push_text(&mut out, "}");
    out
}

/// The encoded reference envelope: its JSON text as UTF-8, refused when longer than the
/// limit.
pub fn encode_envelope(envelope: &WireEnvelope) -> (r: Result<Vec<u8>, RuntimeError>)
    ensures
        match r {
            Ok(b) => b@ == vstd::utf8::encode_utf8(envelope_json(*envelope)) && b.len() <= MAX_ENVELOPE_BYTES,
            Err(e) => vstd::utf8::encode_utf8(envelope_json(*envelope)).len() > MAX_ENVELOPE_BYTES
                && (e matches RuntimeError::EnvelopeTooLarge { actual, limit } && actual
                == vstd::utf8::encode_utf8(envelope_json(*envelope)).len() && limit == MAX_ENVELOPE_BYTES),
        },
{
    sized_bytes(envelope_text(envelope), false)
}

/// The JSON text of a compact envelope: `t`, `q`, and `p` only when there is a payload.
pub open spec fn compact_json(c: CompactEnvelope) -> Seq<char> {
    "{\"t\":"@ + decimal(c.transition as nat) + ",\"q\":"@ + decimal(c.sequence as nat) + match c.payload {
        Some(p) => ",\"p\":"@ + p@,
        None => Seq::empty(),
    } + "}"@
}

fn compact_text(c: &CompactEnvelope) -> (r: String)
    ensures
        r@ == compact_json(*c),
{
    let mut out = text_from("{\"t\":");
    push_decimal(&mut out, c.transition as u64);
    push_text(&mut out, ",\"q\":");
    push_decimal(&mut out, c.sequence);
    let ghost before = out@;
    match &c.payload {
        Some(p) => {
            push_text(&mut out, ",\"p\":");
            push_text(&mut out, p.as_str());
        },
        None => {},
    }
    assert(out@ =~= before + match c.payload {
        Some(p) => ",\"p\":"@ + p@,
        None => Seq::empty(),
    });
    push_text(&mut out, "}");
    out
}

/// The encoded compact envelope: its JSON text as UTF-8, refused when longer than the
/// limit.
pub fn encode_compact_envelope(envelope: &CompactEnvelope) -> (r: Result<Vec<u8>, RuntimeError>)
    ensures
        match r {
            Ok(b) => b@ == vstd::utf8::encode_utf8(compact_json(*envelope)) && b.len() <= MAX_ENVELOPE_BYTES,
            Err(e) => vstd::utf8::encode_utf8(compact_json(*envelope)).len() > MAX_ENVELOPE_BYTES
                && (e matches RuntimeError::EnvelopeTooLarge { actual, limit } && actual
                == vstd::utf8::encode_utf8(compact_json(*envelope)).len() && limit == MAX_ENVELOPE_BYTES),
        },
{
    sized_bytes(compact_text(envelope), false)
}

/// A transition of the dictionary describes the envelope: same state, and the frame
/// has the transition's kind and fields.
pub open spec fn transition_fits(t: WireTransition, env: WireEnvelope) -> bool {
    &&& t.state@ == env.state@
    &&& match (t.operation, env.frame) {
        (WireOperation::Data { from, to, message }, Frame::Data { from: f, to: tt, message: m, .. }) => from@
            == f@ && to@ == tt@ && message@ == m@,
        (WireOperation::Select { by, label }, Frame::Select { by: b, label: l }) => by@ == b@ && label@ == l@,
        (WireOperation::Cancel { from, to, scope }, Frame::Cancel { from: f, to: tt, scope: sc }) => from@ == f@
            && to@ == tt@ && scope@ == sc@,
        _ => false,
    }
}

/// The position of the first transition that describes the envelope, or -1.
pub open spec fn first_fitting(ts: Seq<WireTransition>, env: WireEnvelope) -> int
    decreases ts.len(),
{
    if ts.len() == 0 {
        -1
    } else if transition_fits(ts[0], env) {
        0
    } else {
        let r = first_fitting(ts.drop_first(), env);
        if r < 0 {
            -1
        } else {
            r + 1
        }
    }
}

proof fn lemma_first_fitting(ts: Seq<WireTransition>, env: WireEnvelope)
    ensures
        first_fitting(ts, env) >= 0 ==> first_fitting(ts, env) < ts.len() && transition_fits(ts[first_fitting(ts, env)], env),
        first_fitting(ts, env) < 0 ==> forall|i: int| 0 <= i < ts.len() ==> !transition_fits(#[trigger] ts[i], env),
        first_fitting(ts, env) >= -1,
    decreases ts.len(),
{
    if ts.len() > 0 {
        lemma_first_fitting(ts.drop_first(), env);
        if !transition_fits(ts[0], env) && first_fitting(ts, env) < 0 {
            assert forall|i: int| 0 <= i < ts.len() implies !transition_fits(#[trigger] ts[i], env) by {
                if i > 0 {
                    assert(ts[i] == ts.drop_first()[i - 1]);
                }
            }
        }
    }
}

/// Whether the transition describes the envelope.
pub fn transition_matches(transition: &WireTransition, envelope: &WireEnvelope) -> (r: bool)
    ensures
        r == transition_fits(*transition, *envelope),
{
    if !same_text(transition.state.as_str(), envelope.state.as_str()) {
        return false;
    }
    match (&transition.operation, &envelope.frame) {
        (WireOperation::Data { from, to, message }, Frame::Data { from: f, to: t, message: m, .. }) => same_text(
            from.as_str(),
            f.as_str(),
        ) && same_text(to.as_str(), t.as_str()) && same_text(message.as_str(), m.as_str()),
        (WireOperation::Select { by, label }, Frame::Select { by: b, label: l }) => same_text(by.as_str(), b.as_str())
            && same_text(label.as_str(), l.as_str()),
        (WireOperation::Cancel { from, to, scope }, Frame::Cancel { from: f, to: t, scope: sc }) => same_text(
            from.as_str(),
            f.as_str(),
        ) && same_text(to.as_str(), t.as_str()) && same_text(scope.as_str(), sc.as_str()),
        _ => false,
    }
}

/// The compact codec of a prepared plan: the plan's identities and its transition
/// dictionary.
#[derive(Debug)]
pub struct CompactWireCodec {
    conversation: String,
    conversation_identity: String,
    plan_identity: String,
    wire: Arc<CompactWirePlan>,
}

/// `r` fails with a compact wire error whose message is `m`.
pub open spec fn compact_error<T>(r: Result<T, RuntimeError>, m: Seq<char>) -> bool {
    r matches Err(RuntimeError::CompactWire(x)) && x@ == m
}

/// What compacting an envelope gives: the envelope must carry the wire format and the
/// codec's conversation and identity, and a transition must describe it; then the
/// compact envelope holds the first such transition's id, the sequence number and a data
/// frame's payload. Fault frames are never transmitted.
pub open spec fn compact_outcome(codec: CompactWireCodec, env: WireEnvelope, r: Result<CompactEnvelope, RuntimeError>) -> bool {
    let ts = codec.wire_view().transitions@;
    let k = first_fitting(ts, env);
    if env.eve_wire@ != WIRE_FORMAT@ {
        r matches Err(RuntimeError::WireVersion { actual, expected }) && actual@ == env.eve_wire@ && expected == WIRE_FORMAT
    } else if env.conversation@ != codec.conversation_view() {
        compact_error(r, "codec is prepared for conversation "@ + codec.conversation_view() + ", received "@ + env.conversation@)
    } else if env.conversation_identity@ != codec.conversation_identity_view() {
        compact_error(r, "codec is prepared for identity "@ + codec.conversation_identity_view() + ", received "@ + env.conversation_identity@)
    } else if k < 0 {
        compact_error(r, "state "@ + env.state@ + " and frame "@ + frame_debug(env.frame) + " have no transition ID in the prepared plan"@)
    } else {
        match env.frame {
            Frame::Fault { .. } => compact_error(r, "local fault observations are not transmitted"@),
            Frame::Data { payload, .. } => r matches Ok(c) && c.transition == ts[k].id && c.sequence == env.sequence
                && opt_text(c.payload) == opt_text(payload),
            _ => r matches Ok(c) && c.transition == ts[k].id && c.sequence == env.sequence && c.payload is None,
        }
    }
}

/// The frame a transition stands for, with the given payload for data.
pub open spec fn frame_of(op: WireOperation, payload: Option<Seq<char>>, f: Frame) -> bool {
    match op {
        WireOperation::Data { from, to, message } => f matches Frame::Data { from: a, to: b, message: m, payload: p }
            && a@ == from@ && b@ == to@ && m@ == message@ && opt_text(p) == payload,
        WireOperation::Select { by, label } => f matches Frame::Select { by: b, label: l } && b@ == by@ && l@ == label@,
        WireOperation::Cancel { from, to, scope } => f matches Frame::Cancel { from: a, to: b, scope: sc } && a@
            == from@ && b@ == to@ && sc@ == scope@,
    }
}

/// What expanding a compact envelope gives: its id must name a transition of the
/// dictionary, and selections and cancellations carry no payload; then the envelope is
/// the transition's state and frame in the codec's conversation.
pub open spec fn decode_outcome(codec: CompactWireCodec, c: CompactEnvelope, r: Result<WireEnvelope, RuntimeError>) -> bool {
    let ts = codec.wire_view().transitions@;
    let t = c.transition as int;
    if t == 0 || t > ts.len() || ts[t - 1].id != c.transition {
        compact_error(r, "unknown transition ID "@ + decimal(c.transition as nat))
    } else if !(ts[t - 1].operation is Data) && c.payload is Some {
        compact_error(r, "select and cancel transitions cannot carry a payload"@)
    } else {
        r matches Ok(env) && env.eve_wire@ == WIRE_FORMAT@ && env.conversation@ == codec.conversation_view()
            && env.conversation_identity@ == codec.conversation_identity_view() && env.state@ == ts[t - 1].state@
            && env.sequence == c.sequence && frame_of(ts[t - 1].operation, opt_text(c.payload), env.frame)
    }
}

impl CompactWireCodec {
    /// The dictionary numbers its transitions densely from one.
    #[verifier::type_invariant]
    spec fn dense(&self) -> bool {
        wire_ids_dense(*self.wire)
    }

    pub closed spec fn conversation_view(&self) -> Seq<char> {
        self.conversation@
    }

    pub closed spec fn conversation_identity_view(&self) -> Seq<char> {
        self.conversation_identity@
    }

    pub closed spec fn plan_identity_view(&self) -> Seq<char> {
        self.plan_identity@
    }

    pub closed spec fn wire_view(&self) -> CompactWirePlan {
        *self.wire
    }

    /// The codec of a prepared plan.
    pub fn for_plan(plan: &PreparedPlan) -> (r: CompactWireCodec)
        ensures
            r.conversation_view() == plan.conversation_view(),
            r.conversation_identity_view() == plan.conversation_identity_view(),
            r.plan_identity_view() == plan.plan_identity_view(),
            r.wire_view() == plan.wire_view(),
            wire_ids_dense(r.wire_view()),
    {
        CompactWireCodec {
            conversation: text_from(plan.conversation()),
            conversation_identity: text_from(plan.conversation_identity()),
            plan_identity: text_from(plan.plan_identity()),
            wire: plan.shared_wire_plan(),
        }
    }

    /// The compact form of an envelope.
    pub fn compact(&self, envelope: &WireEnvelope) -> (r: Result<CompactEnvelope, RuntimeError>)
        ensures
            compact_outcome(*self, *envelope, r),
    {
        if !same_text(envelope.eve_wire.as_str(), WIRE_FORMAT) {
            return Err(RuntimeError::WireVersion { actual: envelope.eve_wire.clone(), expected: WIRE_FORMAT });
        }
        if !same_text(envelope.conversation.as_str(), self.conversation.as_str()) {
            let mut m = text_from("codec is prepared for conversation ");
            push_text(&mut m, self.conversation.as_str());
            push_text(&mut m, ", received ");
            push_text(&mut m, envelope.conversation.as_str());
            return Err(RuntimeError::CompactWire(m));
        }
        if !same_text(envelope.conversation_identity.as_str(), self.conversation_identity.as_str()) {
            let mut m = text_from("codec is prepared for identity ");
            push_text(&mut m, self.conversation_identity.as_str());
            push_text(&mut m, ", received ");
            push_text(&mut m, envelope.conversation_identity.as_str());
            return Err(RuntimeError::CompactWire(m));
        }
        let ts = &self.wire.transitions;
        let ghost all = ts@;
        let mut i: usize = 0;
        assert(all.skip(0) =~= all);
        while i < ts.len() && !transition_matches(&ts[i], envelope)
            invariant
                all == ts@,
                i <= ts.len(),
                first_fitting(all, *envelope) == if first_fitting(all.skip(i as int), *envelope) < 0 {
                    -1
                } else {
                    first_fitting(all.skip(i as int), *envelope) + i
                },
            decreases ts.len() - i,
        {
            assert(all.skip(i as int).drop_first() =~= all.skip(i + 1));
            i = i + 1;
        }
        if i == ts.len() {
            let mut m = text_from("state ");
            push_text(&mut m, envelope.state.as_str());
            push_text(&mut m, " and frame ");
            push_text(&mut m, frame_debug_text(&envelope.frame).as_str());
            push_text(&mut m, " have no transition ID in the prepared plan");
            return Err(RuntimeError::CompactWire(m));
        }
        let transition = &ts[i];
        let payload = match &envelope.frame {
            Frame::Data { payload, .. } => match payload {
                Some(p) => Some(p.clone()),
                None => None,
            },
            Frame::Select { .. } | Frame::Cancel { .. } => None,
            Frame::Fault { .. } => {
                return Err(RuntimeError::CompactWire(text_from("local fault observations are not transmitted")));
            },
        };
        Ok(CompactEnvelope { transition: transition.id, sequence: envelope.sequence, payload })
    }

    /// The encoded compact form of an envelope.
    pub fn encode(&self, envelope: &WireEnvelope) -> (r: Result<Vec<u8>, RuntimeError>)
        ensures
            match r {
                Ok(b) => exists|c: CompactEnvelope| compact_outcome(*self, *envelope, Ok(c)) && b@ == vstd::utf8::encode_utf8(compact_json(c)),
                Err(e) => (exists|c: CompactEnvelope| compact_outcome(*self, *envelope, Ok(c)) && vstd::utf8::encode_utf8(compact_json(c)).len() > MAX_ENVELOPE_BYTES)
                    || compact_outcome(*self, *envelope, Err(e)),
            },
    {
        let compact = match self.compact(envelope) {
            Ok(c) => c,
            Err(e) => {
                return Err(e);
            },
        };
        encode_compact_envelope(&compact)
    }

    /// The envelope a compact envelope stands for.
    pub fn decode(&self, compact: CompactEnvelope) -> (r: Result<WireEnvelope, RuntimeError>)
        ensures
            decode_outcome(*self, compact, r),
    {
        let ts = &self.wire.transitions;
        if compact.transition == 0 || compact.transition as usize > ts.len() || ts[(compact.transition - 1) as usize].id != compact.transition {
            let mut m = text_from("unknown transition ID ");
            push_decimal(&mut m, compact.transition as u64);
            return Err(RuntimeError::CompactWire(m));
        }
        let transition = &ts[(compact.transition - 1) as usize];
        let frame = match &transition.operation {
            WireOperation::Data { from, to, message } => Frame::Data {
                from: from.clone(),
                to: to.clone(),
                message: message.clone(),
                payload: compact.payload,
            },
            WireOperation::Select { by, label } => {
                match reject_control_payload(&compact) {
                    Ok(()) => {},
                    Err(e) => {
                        return Err(e);
                    },
                }
                Frame::Select { by: by.clone(), label: label.clone() }
            },
            WireOperation::Cancel { from, to, scope } => {
                match reject_control_payload(&compact) {
                    Ok(()) => {},
                    Err(e) => {
                        return Err(e);
                    },
                }
                Frame::Cancel { from: from.clone(), to: to.clone(), scope: scope.clone() }
            },
        };
        Ok(WireEnvelope {
            eve_wire: text_from(WIRE_FORMAT),
            conversation: self.conversation.clone(),
            conversation_identity: self.conversation_identity.clone(),
            state: transition.state.clone(),
            sequence: compact.sequence,
            frame,
        })
    }
}

impl Clone for CompactWireCodec {
    fn clone(&self) -> (r: Self)
        ensures
            r.conversation_view() == self.conversation_view(),
            r.conversation_identity_view() == self.conversation_identity_view(),
            r.plan_identity_view() == self.plan_identity_view(),
            r.wire_view() == self.wire_view(),
    {
        proof {
            use_type_invariant(self);
        }
        CompactWireCodec {
            conversation: self.conversation.clone(),
            conversation_identity: self.conversation_identity.clone(),
            plan_identity: self.plan_identity.clone(),
            wire: crate::plan::share(&self.wire),
        }
    }
}

/// Selections and cancellations carry no payload.
fn reject_control_payload(compact: &CompactEnvelope) -> (r: Result<(), RuntimeError>)
    ensures
        compact.payload is None ==> r is Ok,
        compact.payload is Some ==> compact_error(r, "select and cancel transitions cannot carry a payload"@),
{
    if compact.payload.is_some() {
        return Err(RuntimeError::CompactWire(text_from("select and cancel transitions cannot carry a payload")));
    }
    Ok(())
}

/// Two envelopes hold the same text in every field and the same frame.
pub open spec fn same_envelope(a: WireEnvelope, b: WireEnvelope) -> bool {
    &&& a.eve_wire@ == b.eve_wire@
    &&& a.conversation@ == b.conversation@
    &&& a.conversation_identity@ == b.conversation_identity@
    &&& a.state@ == b.state@
    &&& a.sequence == b.sequence
    &&& same_frame(a.frame, b.frame)
}

/// Two frames of the same kind with the same text in every field.
pub open spec fn same_frame(a: Frame, b: Frame) -> bool {
    match (a, b) {
        (Frame::Data { from, to, message, payload }, Frame::Data { from: f, to: t, message: m, payload: p }) => from@
            == f@ && to@ == t@ && message@ == m@ && opt_text(payload) == opt_text(p),
        (Frame::Select { by, label }, Frame::Select { by: b2, label: l }) => by@ == b2@ && label@ == l@,
        (Frame::Cancel { from, to, scope }, Frame::Cancel { from: f, to: t, scope: sc }) => from@ == f@ && to@ == t@
            && scope@ == sc@,
        (Frame::Fault { observer, failure }, Frame::Fault { observer: o, failure: fl }) => observer@ == o@
            && failure@ == fl@,
        _ => false,
    }
}

/// Compact encoding loses nothing: expanding the compact form of an envelope gives the
/// same envelope back, with the same state and the same semantic frame.
pub proof fn law_compact_round_trip(
    codec: CompactWireCodec,
    env: WireEnvelope,
    c: CompactEnvelope,
    r: Result<WireEnvelope, RuntimeError>,
)
    requires
        wire_ids_dense(codec.wire_view()),
        compact_outcome(codec, env, Ok(c)),
        decode_outcome(codec, c, r),
    ensures
        r matches Ok(back) && same_envelope(back, env),
{
    let ts = codec.wire_view().transitions@;
    lemma_first_fitting(ts, env);
    let k = first_fitting(ts, env);
    assert(ts[k].id == k + 1);
}

/// The encoding a codec writes.
pub open spec fn codec_encoding(c: EnvelopeCodec) -> WireEncoding {
    match c {
        EnvelopeCodec::Reference => WireEncoding::Reference,
        EnvelopeCodec::Compact(_) => WireEncoding::Compact,
    }
}

/// The codec can serve sessions of the plan: a compact codec was prepared for the same
/// conversation, identity and plan identity.
pub open spec fn codec_fits(c: EnvelopeCodec, plan: PreparedPlan) -> bool {
    match c {
        EnvelopeCodec::Reference => true,
        EnvelopeCodec::Compact(k) => k.conversation_view() == plan.conversation_view()
            && k.conversation_identity_view() == plan.conversation_identity_view()
            && k.plan_identity_view() == plan.plan_identity_view(),
    }
}

/// The mismatch of the first of those three that differs.
pub open spec fn codec_refusal<T>(c: EnvelopeCodec, plan: PreparedPlan, r: Result<T, RuntimeError>) -> bool {
    match c {
        EnvelopeCodec::Reference => false,
        EnvelopeCodec::Compact(k) => if k.conversation_view() != plan.conversation_view() {
            session_mismatch(r, "conversation", k.conversation_view(), plan.conversation_view())
        } else if k.conversation_identity_view() != plan.conversation_identity_view() {
            session_mismatch(r, "conversation_identity", k.conversation_identity_view(), plan.conversation_identity_view())
        } else {
            session_mismatch(r, "plan_identity", k.plan_identity_view(), plan.plan_identity_view())
        },
    }
}

/// How envelopes are encoded on a session.
#[derive(Debug, Clone)]
pub enum EnvelopeCodec {
    Reference,
    Compact(CompactWireCodec),
}

impl EnvelopeCodec {
    /// The codec of `encoding` for a prepared plan.
    pub fn for_plan(encoding: WireEncoding, plan: &PreparedPlan) -> (r: EnvelopeCodec)
        ensures
            match encoding {
                WireEncoding::Reference => r is Reference,
                WireEncoding::Compact => r matches EnvelopeCodec::Compact(c)
                    && c.conversation_view() == plan.conversation_view()
                    && c.conversation_identity_view() == plan.conversation_identity_view()
                    && c.plan_identity_view() == plan.plan_identity_view()
                    && c.wire_view() == plan.wire_view(),
            },
    {
        match encoding {
            WireEncoding::Reference => EnvelopeCodec::Reference,
            WireEncoding::Compact => EnvelopeCodec::Compact(CompactWireCodec::for_plan(plan)),
        }
    }

    pub fn encoding(&self) -> (r: WireEncoding)
        ensures
            r == codec_encoding(*self),
    {
        match self {
            EnvelopeCodec::Reference => WireEncoding::Reference,
            EnvelopeCodec::Compact(_) => WireEncoding::Compact,
        }
    }

    /// A compact codec must have been prepared for the same plan: conversation, identity
    /// and plan identity, in that order.
    pub fn verify_plan(&self, plan: &PreparedPlan) -> (r: Result<(), RuntimeError>)
        ensures
            codec_fits(*self, *plan) ==> r is Ok,
            !codec_fits(*self, *plan) ==> codec_refusal(*self, *plan, r),
    {
        match self {
            EnvelopeCodec::Reference => Ok(()),
            EnvelopeCodec::Compact(c) => {
                match require_session_field("conversation", c.conversation.as_str(), plan.conversation()) {
                    Ok(()) => {},
                    Err(e) => {
                        return Err(e);
                    },
                }
                match require_session_field("conversation_identity", c.conversation_identity.as_str(), plan.conversation_identity()) {
                    Ok(()) => {},
                    Err(e) => {
                        return Err(e);
                    },
                }
                require_session_field("plan_identity", c.plan_identity.as_str(), plan.plan_identity())
            },
        }
    }

    /// The bytes of an envelope in this codec.
    pub fn encode(&self, envelope: &WireEnvelope) -> (r: Result<Vec<u8>, RuntimeError>)
        ensures
            match self {
                EnvelopeCodec::Reference => match r {
                    Ok(b) => b@ == vstd::utf8::encode_utf8(envelope_json(*envelope)),
                    Err(e) => vstd::utf8::encode_utf8(envelope_json(*envelope)).len() > MAX_ENVELOPE_BYTES
                        && (e matches RuntimeError::EnvelopeTooLarge { actual, limit } && actual
                        == vstd::utf8::encode_utf8(envelope_json(*envelope)).len() && limit == MAX_ENVELOPE_BYTES),
                },
                EnvelopeCodec::Compact(c) => match r {
                    Ok(b) => exists|ce: CompactEnvelope| compact_outcome(*c, *envelope, Ok(ce)) && b@ == vstd::utf8::encode_utf8(compact_json(ce)),
                    Err(e) => (exists|ce: CompactEnvelope| compact_outcome(*c, *envelope, Ok(ce)) && vstd::utf8::encode_utf8(compact_json(ce)).len() > MAX_ENVELOPE_BYTES)
                        || compact_outcome(*c, *envelope, Err(e)),
                },
            },
    {
        match self {
            EnvelopeCodec::Reference => encode_envelope(envelope),
            EnvelopeCodec::Compact(c) => c.encode(envelope),
        }
    }
}

/// The preface this side sends, after checking that the codec belongs to the plan, that
/// the peer's role is one of the plan's, and that the two roles differ.
pub fn local_session_preface(codec: &EnvelopeCodec, plan: &PreparedPlan, local_role: &str, peer_role: &str) -> (r: Result<SessionPreface, RuntimeError>)
    ensures
        if !codec_fits(*codec, *plan) {
            codec_refusal(*codec, *plan, r)
        } else if !plan_has_role(*plan, peer_role@) {
            r matches Err(RuntimeError::UnknownRole(x)) && x@ == peer_role@
        } else if local_role@ == peer_role@ {
            session_mismatch(r, "role_pair", "distinct local and peer roles"@, local_role@)
        } else if !plan_has_role(*plan, local_role@) {
            r matches Err(RuntimeError::UnknownRole(x)) && x@ == local_role@
        } else {
            r matches Ok(p) && is_preface_of(p, *plan, local_role@, codec_encoding(*codec))
        },
{
    match codec.verify_plan(plan) {
        Ok(()) => {},
        Err(e) => {
            return Err(e);
        },
    }
    if !plan_knows_role(plan, peer_role) {
        return Err(RuntimeError::UnknownRole(text_from(peer_role)));
    }
    if same_text(local_role, peer_role) {
        return Err(RuntimeError::SessionMismatch {
            field: "role_pair",
            expected: text_from("distinct local and peer roles"),
            actual: text_from(local_role),
        });
    }
    SessionPreface::for_plan(plan, local_role, codec.encoding())
}

} // verus!
