//! The two endpoint machines of a conversation are dual: at every global state, what the
//! acting role emits is what the other role accepts.
use vstd::prelude::*;
use crate::conversation::{Conversation, GlobalState};
use crate::projection::{EndpointState, projects_to};
use crate::plan::endpoint_state_ids;
use crate::projection::{Endpoint, endpoint_projects};
use crate::runtime::{
    EndpointMachine, WireEnvelope, accept_step, emits, emitted, envelope_fits, first_index, lemma_first_index,
};
use crate::validate::{
    state_ids, role_ids, has_state, is_valid, last_index, lemma_last_index, structural_diagnostics,
    lemma_structurally_sound, lemma_roles_sound,
};
use crate::trace::{trace_state, lemma_trace_state_valid, lemma_trace_prefix};
use crate::runtime::{endpoint_run, endpoint_step, state_named};
use crate::trace::state_named as global_named;
use crate::trace::{Frame, global_step};

verus! {

/// In global state `g`, `actor` is the role that acts (the sender, the chooser or the
/// canceller) and `peer` the role that takes the action.
pub open spec fn acts_in(g: GlobalState, actor: Seq<char>, peer: Seq<char>) -> bool {
    &&& actor != peer
    &&& match g {
        GlobalState::Send { from, to, .. } => from@ == actor && to@ == peer,
        GlobalState::Cancel { from, to, .. } => from@ == actor && to@ == peer,
        GlobalState::Choice { chooser, .. } => chooser@ == actor,
        _ => false,
    }
}

/// Projection makes the two roles dual at each global state: a frame the acting role
/// emits there is accepted by the other role, both move to the same next state, and that
/// is the state the global conversation moves to on the frame; meanwhile the other role
/// has nothing to emit and the acting role nothing to accept.
pub proof fn law_projection_duality(
    c: Conversation,
    i: int,
    actor: Seq<char>,
    peer: Seq<char>,
    s1: EndpointState,
    s2: EndpointState,
    frame: Frame,
    next: Seq<char>,
)
    requires
        0 <= i < c.states.len(),
        acts_in(c.states@[i], actor, peer),
        projects_to(c.states@[i], actor, s1),
        projects_to(c.states@[i], peer, s2),
        emits(s1, actor, frame, next),
    ensures
        accept_step(s2, peer, frame) == Some(next),
        global_step(c, c.states@[i], frame) == Some(next),
        forall|f: Frame, n: Seq<char>| !emits(s2, peer, f, n),
        forall|f: Frame| accept_step(s1, actor, f) is None,
{
    match c.states@[i] {
        GlobalState::Send { .. } => {
            assert(s2 is Receive);
        },
        GlobalState::Cancel { .. } => {
            assert(s2 is ReceiveCancel);
        },
        GlobalState::Choice { .. } => {
            assert(s2 is Branch);
        },
        _ => {},
    }
}

/// The global state of a conversation that carries `id` (the first such state).
pub open spec fn global_state_named(c: Conversation, id: Seq<char>) -> GlobalState {
    c.states@[first_index(state_ids(c), id)]
}

/// A projection keeps the states' ids, in order.
pub proof fn lemma_projection_ids(c: Conversation, role: Seq<char>, e: Endpoint)
    requires
        endpoint_projects(c, role, e),
    ensures
        endpoint_state_ids(e.states@) == state_ids(c),
{
    assert forall|i: int| 0 <= i < e.states.len() implies endpoint_state_ids(e.states@)[i] == state_ids(c)[i] by {
        assert(projects_to(c.states@[i], role, e.states@[i]));
    }
    assert(endpoint_state_ids(e.states@) =~= state_ids(c));
}

/// What one role's machine emits is accepted by the other role's machine: where both
/// play projections of one conversation, stand at the same state with the same
/// sequence number and identity, and the first is the role that acts there, the
/// envelope it emits fits the second machine, whose current state takes its frame to
/// the state the first machine moved to.
pub proof fn law_emitted_envelope_is_accepted(
    c: Conversation,
    sender: EndpointMachine,
    sent: EndpointMachine,
    env: WireEnvelope,
    receiver: EndpointMachine,
)
    requires
        endpoint_projects(c, sender.endpoint_view().role@, sender.endpoint_view()),
        endpoint_projects(c, receiver.endpoint_view().role@, receiver.endpoint_view()),
        state_ids(c).contains(sender.current_view()),
        receiver.current_view() == sender.current_view(),
        receiver.sequence_view() == sender.sequence_view(),
        receiver.identity_view() == sender.identity_view(),
        acts_in(global_state_named(c, sender.current_view()), sender.endpoint_view().role@, receiver.endpoint_view().role@),
        emitted(sender, sent, env),
    ensures
        envelope_fits(receiver, env),
        accept_step(receiver.state_view(), receiver.endpoint_view().role@, env.frame) == Some(sent.current_view()),
{
    let cur = sender.current_view();
    lemma_projection_ids(c, sender.endpoint_view().role@, sender.endpoint_view());
    lemma_projection_ids(c, receiver.endpoint_view().role@, receiver.endpoint_view());
    lemma_first_index(state_ids(c), cur);
    let k = first_index(state_ids(c), cur);
    assert(projects_to(c.states@[k], sender.endpoint_view().role@, sender.endpoint_view().states@[k]));
    assert(projects_to(c.states@[k], receiver.endpoint_view().role@, receiver.endpoint_view().states@[k]));
    law_projection_duality(
        c,
        k,
        sender.endpoint_view().role@,
        receiver.endpoint_view().role@,
        sender.state_view(),
        receiver.state_view(),
        env.frame,
        sent.current_view(),
    );
}

proof fn lemma_first_is_last(ids: Seq<Seq<char>>, t: Seq<char>)
    requires
        ids.contains(t),
        forall|a: int, b: int| 0 <= a < b < ids.len() ==> #[trigger] ids[a] != #[trigger] ids[b],
    ensures
        first_index(ids, t) == last_index(ids, t),
{
    lemma_first_index(ids, t);
    lemma_last_index(ids, t);
    let f = first_index(ids, t);
    let l = last_index(ids, t);
    if f < l {
        assert(ids[f] != ids[l]);
    } else if l < f {
        assert(ids[l] != ids[f]);
    }
}

/// Each step of a projected endpoint of a valid conversation is the same step of the
/// conversation at the state of the same id.
proof fn lemma_step_agrees(c: Conversation, role: Seq<char>, e: Endpoint, cur: Seq<char>, f: Frame)
    requires
        structural_diagnostics(c).len() == 0,
        role_ids(c).contains(role),
        endpoint_projects(c, role, e),
        has_state(c, cur),
        endpoint_step(state_named(e, cur), role, f) is Some,
    ensures
        global_step(c, global_named(c, cur), f) == endpoint_step(state_named(e, cur), role, f),
{
    lemma_structurally_sound(c);
    lemma_roles_sound(c);
    lemma_projection_ids(c, role, e);
    lemma_first_is_last(state_ids(c), cur);
    lemma_first_index(state_ids(c), cur);
    let k = first_index(state_ids(c), cur);
    assert(0 <= k < c.states.len());
    let g = c.states@[k];
    assert(projects_to(g, role, e.states@[k]));
    let ids = role_ids(c);
    assert(forall|x: Seq<char>| ids.contains(x) ==> x == ids[0] || x == ids[1]);
    match g {
        GlobalState::Send { from, to, .. } | GlobalState::Cancel { from, to, .. } => {
            assert(ids.contains(from@) && ids.contains(to@));
            if from@ != role {
                assert(to@ == role);
            }
        },
        _ => {},
    }
}

/// Every run of a projected endpoint of a valid conversation is a trace of the
/// conversation: following its frames from the initial state, the conversation reaches
/// the state the endpoint reached.
pub proof fn law_endpoint_runs_are_conversation_traces(c: Conversation, role: Seq<char>, e: Endpoint, frames: Seq<Frame>)
    requires
        is_valid(c),
        role_ids(c).contains(role),
        endpoint_projects(c, role, e),
        endpoint_run(e, role, frames) is Some,
    ensures
        trace_state(c, frames, frames.len() as nat) == endpoint_run(e, role, frames),
    decreases frames.len(),
{
    assert(structural_diagnostics(c).len() == 0);
    lemma_structurally_sound(c);
    if frames.len() > 0 {
        let n = frames.len() as nat;
        let prev = frames.drop_last();
        law_endpoint_runs_are_conversation_traces(c, role, e, prev);
        lemma_trace_prefix(c, frames, prev, (n - 1) as nat);
        let cur = endpoint_run(e, role, prev)->0;
        lemma_trace_state_valid(c, prev, (n - 1) as nat);
        lemma_step_agrees(c, role, e, cur, frames.last());
    }
}

/// A run of a projected endpoint of a valid conversation that ends with an observed fault
/// ends in a failure state: every declared failure edge leads to one.
pub proof fn law_fault_runs_end_in_failure(c: Conversation, role: Seq<char>, e: Endpoint, frames: Seq<Frame>)
    requires
        is_valid(c),
        role_ids(c).contains(role),
        endpoint_projects(c, role, e),
        endpoint_run(e, role, frames) is Some,
        frames.len() > 0,
        frames.last() is Fault,
    ensures
        state_named(e, endpoint_run(e, role, frames)->0) is Fail,
{
    crate::validate::law_valid_conversation_is_well_formed(c);
    law_endpoint_runs_are_conversation_traces(c, role, e, frames);
    let n = frames.len() as nat;
    let fin = endpoint_run(e, role, frames)->0;
    let cur = trace_state(c, frames, (n - 1) as nat)->0;
    lemma_trace_state_valid(c, frames, (n - 1) as nat);
    let i = last_index(state_ids(c), cur);
    lemma_last_index(state_ids(c), cur);
    let g = c.states@[i];
    let failure = frames.last()->Fault_failure;
    assert(global_step(c, g, frames.last()) == Some(fin));
    let edges = crate::conversation::global_failure_edges(g);
    crate::map::lemma_lookup_index(edges, failure@);
    let q = choose|q: int| 0 <= q < edges.len() && #[trigger] edges[q].0 == failure@
        && crate::map::lookup(edges, failure@) == Some(edges[q].1) && forall|j: int| 0 <= j < q ==> edges[j].0 != failure@;
    assert(crate::validate::failure_edge_reaches_fail(c, edges[q].1, edges[q].0));
    assert(fin == edges[q].1);
    lemma_trace_state_valid(c, frames, n);
    let k = last_index(state_ids(c), fin);
    lemma_last_index(state_ids(c), fin);
    lemma_projection_ids(c, role, e);
    lemma_first_is_last(state_ids(c), fin);
    assert(projects_to(c.states@[k], role, e.states@[k]));
}

} // verus!
