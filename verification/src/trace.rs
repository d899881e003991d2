//! Eve Wire frames and checking a frame trace against the global conversation.
use vstd::prelude::*;
use crate::conversation::{Conversation, GlobalState, expected_frame_text, global_failure_edges, global_successors};
use crate::map::{lookup, values_of};
use crate::projection::opt_text;
use crate::text::{push_text, push_decimal, decimal, same_text};
use crate::validate::{
    validate, is_valid, ValidationErrors, diagnostics_view, validation_diagnostics, state_ids,
    role_ids, last_index, last_state, state_list, lemma_structurally_sound, has_state,
    targets_exist, structural_diagnostics,
};
use crate::conversation::str_views;

verus! {

/// One observable conversation transition. Data payloads are carried as compact JSON
/// text.
#[derive(Debug, Clone, PartialEq, Eq)]
pub enum Frame {
    Data { from: String, to: String, message: String, payload: Option<String> },
    Select { by: String, label: String },
    Cancel { from: String, to: String, scope: String },
    Fault { observer: String, failure: String },
}

/// The outcome of a trace that follows the conversation.
#[derive(Debug, Clone)]
pub struct TraceReport {
    pub steps: usize,
    pub final_state: String,
    pub complete: bool,
    pub successful: bool,
    pub failure: Option<String>,
}

/// The first frame that the conversation does not permit.
#[derive(Debug, Clone)]
pub struct TraceError {
    pub step: usize,
    pub state: String,
    pub expected: String,
    pub received: String,
}

/// Why a trace was not accepted.
#[derive(Debug, Clone)]
pub enum TraceFailure {
    Conversation(ValidationErrors),
    Trace(TraceError),
}

/// The human-readable description of a frame.
pub open spec fn frame_text(f: Frame) -> Seq<char> {
    match f {
        Frame::Data { from, to, message, .. } => "data "@ + from@ + " -> "@ + to@ + ": "@ + message@,
        Frame::Select { by, label } => "select by "@ + by@ + ": "@ + label@,
        Frame::Cancel { from, to, scope } => "cancel "@ + from@ + " -> "@ + to@ + ": "@ + scope@,
        Frame::Fault { observer, failure } => "fault observed by "@ + observer@ + ": "@ + failure@,
    }
}

pub open spec fn trace_error_text(e: TraceError) -> Seq<char> {
    "invalid frame at step "@ + decimal(e.step as nat) + " in state "@ + e.state@ + ": expected "@
        + e.expected@ + "; received "@ + e.received@
}

impl TraceError {
    /// The error message.
    pub fn to_string(&self) -> (s: String)
        ensures
            s@ == trace_error_text(*self),
    {
        let mut s = String::new();
        push_text(&mut s, "invalid frame at step ");
        push_decimal(&mut s, self.step as u64);
        push_text(&mut s, " in state ");
        push_text(&mut s, self.state.as_str());
        push_text(&mut s, ": expected ");
        push_text(&mut s, self.expected.as_str());
        push_text(&mut s, "; received ");
        push_text(&mut s, self.received.as_str());
        s
    }
}

impl TraceFailure {
    /// The message: the validator's findings, or the refused frame.
    pub fn to_string(&self) -> (s: String)
        ensures
            s@ == match *self {
                TraceFailure::Conversation(e) => crate::validate::validation_text(diagnostics_view(e.diagnostics@)),
                TraceFailure::Trace(e) => trace_error_text(e),
            },
    {
        match self {
            TraceFailure::Conversation(e) => e.to_string(),
            TraceFailure::Trace(e) => e.to_string(),
        }
    }
}

/// Describes a frame.
pub fn describe_frame(frame: &Frame) -> (s: String)
    ensures
        s@ == frame_text(*frame),
{
    let mut s = String::new();
    match frame {
        Frame::Data { from, to, message, .. } => {
            push_text(&mut s, "data ");
            push_text(&mut s, from.as_str());
            push_text(&mut s, " -> ");
            push_text(&mut s, to.as_str());
            push_text(&mut s, ": ");
            push_text(&mut s, message.as_str());
        },
        Frame::Select { by, label } => {
            push_text(&mut s, "select by ");
            push_text(&mut s, by.as_str());
            push_text(&mut s, ": ");
            push_text(&mut s, label.as_str());
        },
        Frame::Cancel { from, to, scope } => {
            push_text(&mut s, "cancel ");
            push_text(&mut s, from.as_str());
            push_text(&mut s, " -> ");
            push_text(&mut s, to.as_str());
            push_text(&mut s, ": ");
            push_text(&mut s, scope.as_str());
        },
        Frame::Fault { observer, failure } => {
            push_text(&mut s, "fault observed by ");
            push_text(&mut s, observer.as_str());
            push_text(&mut s, ": ");
            push_text(&mut s, failure.as_str());
        },
    }
    s
}

/// The state with id `id` (the last one, as a map by id keeps it).
pub open spec fn state_named(c: Conversation, id: Seq<char>) -> GlobalState {
    c.states@[last_index(state_ids(c), id)]
}

/// Where the global state `s` moves on `frame`, or `None` when it does not permit it.
/// A fault observed by a role of the conversation takes a declared failure edge; data,
/// selection and cancellation frames must match the state's sender, receiver and label.
pub open spec fn global_step(c: Conversation, s: GlobalState, frame: Frame) -> Option<Seq<char>> {
    match frame {
        Frame::Fault { observer, failure } if role_ids(c).contains(observer@) && lookup(
            global_failure_edges(s),
            failure@,
        ) is Some => lookup(global_failure_edges(s), failure@),
        _ => match (s, frame) {
            (
                GlobalState::Send { from, to, message, next, .. },
                Frame::Data { from: f2, to: t2, message: m2, .. },
            ) => if from@ == f2@ && to@ == t2@ && message@ == m2@ {
                Some(next@)
            } else {
                None
            },
            (GlobalState::Choice { chooser, branches, .. }, Frame::Select { by, label }) => if chooser@
                == by@ && lookup(branches@, label@) is Some {
                lookup(branches@, label@)
            } else {
                None
            },
            (
                GlobalState::Cancel { from, to, scope, next, .. },
                Frame::Cancel { from: f2, to: t2, scope: s2 },
            ) => if from@ == f2@ && to@ == t2@ && scope@ == s2@ {
                Some(next@)
            } else {
                None
            },
            _ => None,
        },
    }
}

/// The state reached after the first `n` frames, or `None` once a frame was refused.
pub open spec fn trace_state(c: Conversation, frames: Seq<Frame>, n: nat) -> Option<Seq<char>>
    decreases n,
{
    if n == 0 {
        Some(c.initial@)
    } else {
        match trace_state(c, frames, (n - 1) as nat) {
            Some(cur) => global_step(c, state_named(c, cur), frames[n - 1]),
            None => None,
        }
    }
}

/// The report of a trace that ends in state `fin`.
pub open spec fn trace_report_for(c: Conversation, frames: Seq<Frame>, fin: Seq<char>, r: TraceReport) -> bool {
    let s = state_named(c, fin);
    &&& r.steps == frames.len()
    &&& r.final_state@ == fin
    &&& r.complete == (s is End || s is Fail)
    &&& r.successful == (s is End)
    &&& opt_text(r.failure) == match s {
        GlobalState::Fail { failure, .. } => Some(failure@),
        _ => None,
    }
}

/// The error for a trace whose frame `k` is refused.
pub open spec fn trace_error_for(c: Conversation, frames: Seq<Frame>, e: TraceError) -> bool {
    let k = e.step as nat;
    &&& k < frames.len()
    &&& trace_state(c, frames, k) == Some(e.state@)
    &&& trace_state(c, frames, k + 1) is None
    &&& e.expected@ == expected_frame_text(state_named(c, e.state@))
    &&& e.received@ == frame_text(frames[k as int])
}

pub proof fn lemma_trace_state_valid(c: Conversation, frames: Seq<Frame>, n: nat)
    requires
        targets_exist(c),
        has_state(c, c.initial@),
        n <= frames.len(),
    ensures
        trace_state(c, frames, n) matches Some(cur) ==> has_state(c, cur),
    decreases n,
{
    if n > 0 {
        lemma_trace_state_valid(c, frames, (n - 1) as nat);
        if let Some(cur) = trace_state(c, frames, (n - 1) as nat) {
            crate::validate::lemma_last_index(state_ids(c), cur);
            let k = last_index(state_ids(c), cur);
            let s = c.states@[k];
            if let Some(next) = global_step(c, s, frames[n - 1]) {
                assert(global_successors(s).contains(next)) by {
                    match frames[n - 1] {
                        Frame::Fault { observer, failure } if role_ids(c).contains(observer@) && lookup(
                            global_failure_edges(s),
                            failure@,
                        ) is Some => {
                            crate::map::lemma_lookup_index(global_failure_edges(s), failure@);
                            let q = choose|q: int|
                                0 <= q < global_failure_edges(s).len() && #[trigger] global_failure_edges(s)[q].0 == failure@
                                    && lookup(global_failure_edges(s), failure@) == Some(global_failure_edges(s)[q].1)
                                    && forall|j: int| 0 <= j < q ==> global_failure_edges(s)[j].0 != failure@;
                            assert(values_of(global_failure_edges(s))[q] == next);
                            match s {
                                GlobalState::Choice { branches, .. } => {
                                    assert(global_successors(s)[values_of(branches@).len() + q] == next);
                                },
                                _ => {
                                    assert(global_successors(s)[1 + q] == next);
                                },
                            }
                        },
                        _ => {
                            match s {
                                GlobalState::Choice { branches, .. } => {
                                    crate::map::lemma_lookup_index(branches@, frames[n - 1]->label@);
                                    let q = choose|q: int|
                                        0 <= q < branches@.len() && #[trigger] branches@[q].0 == frames[n - 1]->label@
                                            && lookup(branches@, frames[n - 1]->label@) == Some(branches@[q].1)
                                            && forall|j: int| 0 <= j < q ==> branches@[j].0 != frames[n - 1]->label@;
                                    assert(global_successors(s)[q] == next);
                                },
                                _ => {
                                    assert(global_successors(s)[0] == next);
                                },
                            }
                        },
                    }
                }
            }
        }
    }
}

proof fn lemma_refusal_persists(c: Conversation, frames: Seq<Frame>, k: nat, n: nat)
    requires
        trace_state(c, frames, k) is None,
        k <= n,
    ensures
        trace_state(c, frames, n) is None,
    decreases n - k,
{
    if k < n {
        lemma_refusal_persists(c, frames, k, (n - 1) as nat);
    }
}

/// Checks that `frames` follow the conversation. The conversation is checked first;
/// then each frame must be permitted by the state the previous frames reached.
pub fn verify_trace(conversation: &Conversation, frames: &[Frame]) -> (r: Result<TraceReport, TraceFailure>)
    ensures
        !is_valid(*conversation) ==> (r matches Err(TraceFailure::Conversation(e))
            && diagnostics_view(e.diagnostics@) == validation_diagnostics(*conversation)),
        is_valid(*conversation) ==> match trace_state(*conversation, frames@, frames@.len()) {
            Some(fin) => r matches Ok(report) && trace_report_for(*conversation, frames@, fin, report),
            None => r matches Err(TraceFailure::Trace(e)) && trace_error_for(*conversation, frames@, e),
        },
{
    let c = conversation;
    match validate(c) {
        Ok(()) => {},
        Err(e) => {
            return Err(TraceFailure::Conversation(e));
        },
    }
    proof {
        if structural_diagnostics(*c).len() == 0 {
            lemma_structurally_sound(*c);
        }
    }
    assert(structural_diagnostics(*c).len() == 0);
    let ids = state_list(c);
    let roles = crate::validate::role_list(c);
    let mut current: String = c.initial.clone();
    let mut step: usize = 0;
    while step < frames.len()
        invariant
            c == conversation,
            is_valid(*c),
            targets_exist(*c),
            has_state(*c, c.initial@),
            str_views(ids@) == state_ids(*c),
            str_views(roles@) == role_ids(*c),
            step <= frames.len(),
            trace_state(*c, frames@, step as nat) == Some(current@),
        decreases frames.len() - step,
    {
        proof {
            lemma_trace_state_valid(*c, frames@, step as nat);
        }
        let k = last_state(&ids, current.as_str()).unwrap();
        let state = &c.states[k];
        let frame = &frames[step];
        let next = step_state(c, &roles, state, frame);
        match next {
            Some(t) => {
                current = t;
            },
            None => {
                proof {
                    lemma_refusal_persists(*c, frames@, (step + 1) as nat, frames@.len());
                }
                return Err(TraceFailure::Trace(TraceError {
                    step,
                    state: current,
                    expected: state.expected_frame(),
                    received: describe_frame(frame),
                }));
            },
        }
        step = step + 1;
    }
    proof {
        lemma_trace_state_valid(*c, frames@, step as nat);
    }
    let k = last_state(&ids, current.as_str()).unwrap();
    let terminal = &c.states[k];
    let complete = match terminal {
        GlobalState::End { .. } | GlobalState::Fail { .. } => true,
        _ => false,
    };
    let successful = match terminal {
        GlobalState::End { .. } => true,
        _ => false,
    };
    let failure = match terminal {
        GlobalState::Fail { failure, .. } => Some(failure.clone()),
        _ => None,
    };
    Ok(TraceReport { steps: frames.len(), final_state: current, complete, successful, failure })
}

/// Where `state` moves on `frame`.
fn step_state(c: &Conversation, roles: &Vec<&str>, state: &GlobalState, frame: &Frame) -> (r: Option<String>)
    requires
        str_views(roles@) == role_ids(*c),
    ensures
        opt_text(r) == global_step(*c, *state, *frame),
{
    if let Frame::Fault { observer, failure } = frame {
        if crate::validate::contains_str(roles, observer.as_str()) {
            if let Some(t) = state.failure_target(failure.as_str()) {
                return Some(t.to_owned());
            }
        }
    }
    match (state, frame) {
        (
            GlobalState::Send { from, to, message, next, .. },
            Frame::Data { from: f2, to: t2, message: m2, .. },
        ) => {
            if same_text(from.as_str(), f2.as_str()) && same_text(to.as_str(), t2.as_str())
                && same_text(message.as_str(), m2.as_str()) {
                Some(next.clone())
            } else {
                None
            }
        },
        (GlobalState::Choice { chooser, branches, .. }, Frame::Select { by, label }) => {
            if same_text(chooser.as_str(), by.as_str()) {
                match branches.get(label.as_str()) {
                    Some(t) => Some(t.clone()),
                    None => None,
                }
            } else {
                None
            }
        },
        (
            GlobalState::Cancel { from, to, scope, next, .. },
            Frame::Cancel { from: f2, to: t2, scope: s2 },
        ) => {
            if same_text(from.as_str(), f2.as_str()) && same_text(to.as_str(), t2.as_str())
                && same_text(scope.as_str(), s2.as_str()) {
                Some(next.clone())
            } else {
                None
            }
        },
        _ => None,
    }
}

/// The state a trace reaches after `k` frames depends only on those frames.
pub proof fn lemma_trace_prefix(c: Conversation, a: Seq<Frame>, b: Seq<Frame>, k: nat)
    requires
        k <= a.len(),
        k <= b.len(),
        forall|i: int| 0 <= i < k ==> a[i] == b[i],
    ensures
        trace_state(c, a, k) == trace_state(c, b, k),
    decreases k,
{
    if k > 0 {
        lemma_trace_prefix(c, a, b, (k - 1) as nat);
    }
}

/// A refused frame stays refused: every extension of a trace that the conversation
/// refuses at step `k` is refused at the same step, in the same state, with the same
/// expected and received frame, and the trace up to that step is followed.
pub proof fn law_refusal_survives_extension(c: Conversation, frames: Seq<Frame>, more: Seq<Frame>, e: TraceError)
    requires
        trace_error_for(c, frames, e),
    ensures
        trace_error_for(c, frames + more, e),
        trace_state(c, frames.subrange(0, e.step as int), e.step as nat) == Some(e.state@),
{
    let k = e.step as nat;
    assert forall|i: int| 0 <= i < k + 1 implies frames[i] == (frames + more)[i] by {}
    lemma_trace_prefix(c, frames, frames + more, k);
    lemma_trace_prefix(c, frames, frames + more, k + 1);
    lemma_trace_prefix(c, frames, frames.subrange(0, k as int), k);
    assert((frames + more)[k as int] == frames[k as int]);
}

/// A conversation moves only on the frame its state names, and only where that state
/// says: data goes from the declared sender to the declared receiver with the declared
/// message type, to the continuation; a selection is made by the chooser, with one of
/// its labels, to that branch's target; a cancellation goes from the declared canceller
/// to the declared peer in the declared scope, to the continuation; a fault observed by
/// a role of the conversation follows the state's failure edge. Each such frame is
/// accepted, and no other frame is.
pub proof fn law_global_step_follows_the_state(c: Conversation, s: GlobalState, f: Frame)
    ensures
        match f {
            Frame::Fault { observer, failure } => global_step(c, s, f) == if role_ids(c).contains(observer@) {
                lookup(global_failure_edges(s), failure@)
            } else {
                None
            },
            Frame::Data { from, to, message, .. } => global_step(c, s, f) == match s {
                GlobalState::Send { from: sf, to: st, message: sm, next, .. } => if sf@ == from@ && st@ == to@ && sm@
                    == message@ {
                    Some(next@)
                } else {
                    None
                },
                _ => None,
            },
            Frame::Select { by, label } => global_step(c, s, f) == match s {
                GlobalState::Choice { chooser, branches, .. } => if chooser@ == by@ {
                    lookup(branches@, label@)
                } else {
                    None
                },
                _ => None,
            },
            Frame::Cancel { from, to, scope } => global_step(c, s, f) == match s {
                GlobalState::Cancel { from: cf, to: ct, scope: cs, next, .. } => if cf@ == from@ && ct@ == to@ && cs@
                    == scope@ {
                    Some(next@)
                } else {
                    None
                },
                _ => None,
            },
        },
        global_step(c, s, f) is Some && f is Select ==> (s matches GlobalState::Choice { chooser, .. } && chooser@
            == f->Select_by@),
{
}

/// In a trace the conversation accepts, every selection is made by the role that chooses
/// at the state where it is made, and every data frame is sent by the state's sender.
pub proof fn law_accepted_traces_respect_the_actors(c: Conversation, frames: Seq<Frame>)
    requires
        trace_state(c, frames, frames.len() as nat) is Some,
    ensures
        forall|i: int| 0 <= i < frames.len() ==> (trace_state(c, frames, i as nat) is Some && match #[trigger] frames[i] {
            Frame::Select { by, .. } => state_named(c, trace_state(c, frames, i as nat)->0) matches GlobalState::Choice {
                chooser,
                ..
            } && chooser@ == by@,
            Frame::Data { from, .. } => state_named(c, trace_state(c, frames, i as nat)->0) matches GlobalState::Send {
                from: sender,
                ..
            } && sender@ == from@,
            _ => true,
        }),
{
    assert forall|i: int| 0 <= i < frames.len() implies (trace_state(c, frames, i as nat) is Some && match #[trigger] frames[i] {
        Frame::Select { by, .. } => state_named(c, trace_state(c, frames, i as nat)->0) matches GlobalState::Choice {
            chooser,
            ..
        } && chooser@ == by@,
        Frame::Data { from, .. } => state_named(c, trace_state(c, frames, i as nat)->0) matches GlobalState::Send {
            from: sender,
            ..
        } && sender@ == from@,
        _ => true,
    }) by {
        lemma_accepted_prefix(c, frames, (i + 1) as nat, frames.len() as nat);
        law_global_step_follows_the_state(c, state_named(c, trace_state(c, frames, i as nat)->0), frames[i]);
    }
}

/// A trace accepted up to `n` frames is accepted up to every `k <= n`.
proof fn lemma_accepted_prefix(c: Conversation, frames: Seq<Frame>, k: nat, n: nat)
    requires
        k <= n,
        trace_state(c, frames, n) is Some,
    ensures
        trace_state(c, frames, k) is Some,
    decreases n - k,
{
    if k < n {
        lemma_accepted_prefix(c, frames, (k + 1) as nat, n);
    }
}

} // verus!
