//! What compiled plans promise as a whole: their identity and their wire dictionary
//! depend only on the conversation's semantic content, and a valid conversation whose
//! names are ids compiles into a plan that passes its check.
use vstd::prelude::*;
use std::sync::Arc;
use crate::conversation::{Conversation, GlobalState};
use crate::encode::{endpoint_json, endpoint_state_json, endpoint_states_items};
use crate::identity::law_identity_ignores_metadata;
use crate::plan::{
    CompactWirePlan, WireOperation, WireTransition, EvePlan, is_compilation_of, role_ordered_projection,
    state_keys, endpoint_keys, plan_keys, all_plan_keys, wire_keys, wire_ids, transition_key,
    wire_transition_json, wire_transitions_items, wire_plan_json, is_wire_plan_of, same_wire_plan,
    lemma_sorted_keys_unique, plan_endpoints_items, semantic_plan_json,
};
use crate::projection::{Endpoint, EndpointState, projects_to, endpoint_projects};
use crate::conversation::{global_id, global_successors};
use crate::plan::{
    PlanError, is_valid_id, first_absent, state_problem, states_problem, endpoint_problem, endpoints_problem,
    endpoint_state_ids, plan_roles, plan_is_sound, verify_outcome, compile_failure, distinct_transition_count,
};
use crate::validate::{
    is_valid, structural_diagnostics, lemma_structurally_sound, lemma_roles_sound, role_ids, state_ids,
};
use crate::duality::lemma_projection_ids;
use crate::plan::TransitionKey;

verus! {

spec fn endpoint_at(eps: Seq<Arc<Endpoint>>, i: int) -> Endpoint {
    *eps[i]
}

proof fn lemma_state_projection_same(g: GlobalState, role: Seq<char>, s1: EndpointState, s2: EndpointState)
    requires
        projects_to(g, role, s1),
        projects_to(g, role, s2),
    ensures
        endpoint_state_json(s1) == endpoint_state_json(s2),
        state_keys(role, s1) == state_keys(role, s2),
{
}

proof fn lemma_endpoint_keys_same(c: Conversation, role: Seq<char>, e1: Endpoint, e2: Endpoint, n: nat)
    requires
        endpoint_projects(c, role, e1),
        endpoint_projects(c, role, e2),
    ensures
        endpoint_keys(e1, n) == endpoint_keys(e2, n),
    decreases n,
{
    if n > 0 && n <= e1.states.len() {
        lemma_endpoint_keys_same(c, role, e1, e2, (n - 1) as nat);
        lemma_state_projection_same(c.states@[n - 1], role, e1.states@[n - 1], e2.states@[n - 1]);
    }
}

/// Two projections of one conversation for one role encode alike and have the same
/// transitions.
proof fn lemma_endpoint_projection_same(c: Conversation, role: Seq<char>, e1: Endpoint, e2: Endpoint)
    requires
        endpoint_projects(c, role, e1),
        endpoint_projects(c, role, e2),
    ensures
        endpoint_json(e1) == endpoint_json(e2),
        endpoint_keys(e1, e1.states.len() as nat) == endpoint_keys(e2, e2.states.len() as nat),
{
    assert forall|i: int| 0 <= i < e1.states.len() implies endpoint_state_json(#[trigger] e1.states@[i])
        == endpoint_state_json(e2.states@[i]) by {
        lemma_state_projection_same(c.states@[i], role, e1.states@[i], e2.states@[i]);
    }
    assert(endpoint_states_items(e1.states@) =~= endpoint_states_items(e2.states@));
    lemma_endpoint_keys_same(c, role, e1, e2, e1.states.len() as nat);
}

/// A transition's encoding depends only on its id and its key.
proof fn lemma_transition_json_same(t1: WireTransition, t2: WireTransition)
    requires
        t1.id == t2.id,
        transition_key(t1) == transition_key(t2),
    ensures
        wire_transition_json(t1) == wire_transition_json(t2),
{
    match t1.operation {
        WireOperation::Data { .. } => {
            assert(t2.operation is Data);
        },
        WireOperation::Select { .. } => {
            assert(t2.operation is Select);
        },
        WireOperation::Cancel { .. } => {
            assert(t2.operation is Cancel);
        },
    }
}

/// Two dictionaries that hold the same transitions encode alike.
proof fn lemma_wire_json_same(w1: CompactWirePlan, w2: CompactWirePlan)
    requires
        same_wire_plan(w1, w2),
    ensures
        wire_plan_json(w1) == wire_plan_json(w2),
{
    assert(wire_keys(w1).len() == w1.transitions.len());
    assert(wire_keys(w2).len() == w2.transitions.len());
    assert forall|i: int| 0 <= i < w1.transitions.len() implies wire_transition_json(#[trigger] w1.transitions@[i])
        == wire_transition_json(w2.transitions@[i]) by {
        assert(wire_ids(w1)[i] == wire_ids(w2)[i]);
        assert(wire_keys(w1)[i] == wire_keys(w2)[i]);
        lemma_transition_json_same(w1.transitions@[i], w2.transitions@[i]);
    }
    assert(wire_transitions_items(w1.transitions@) =~= wire_transitions_items(w2.transitions@));
}

/// The role-ordered projections of two conversations with the same roles, initial
/// state and states encode alike and have the same transitions.
proof fn lemma_ordered_projections_same(a: Conversation, b: Conversation, ep: Seq<Arc<Endpoint>>, eq: Seq<Arc<Endpoint>>)
    requires
        a.module == b.module,
        a.roles == b.roles,
        a.initial == b.initial,
        a.states == b.states,
        role_ordered_projection(a, ep),
        role_ordered_projection(b, eq),
    ensures
        plan_endpoints_items(ep) == plan_endpoints_items(eq),
        all_plan_keys(ep) == all_plan_keys(eq),
{
    let first: int = if crate::text::text_lt(a.roles@[1].id@, a.roles@[0].id@) {
        1
    } else {
        0
    };
    let r0 = a.roles@[first].id@;
    let r1 = a.roles@[1 - first].id@;
    lemma_projects_in_same_conversation(a, b, r0, endpoint_at(eq, 0));
    lemma_projects_in_same_conversation(a, b, r1, endpoint_at(eq, 1));
    lemma_endpoint_projection_same(a, r0, endpoint_at(ep, 0), endpoint_at(eq, 0));
    lemma_endpoint_projection_same(a, r1, endpoint_at(ep, 1), endpoint_at(eq, 1));
    lemma_two_endpoints_same(ep, eq);
}

proof fn lemma_projects_in_same_conversation(a: Conversation, b: Conversation, role: Seq<char>, e: Endpoint)
    requires
        a.module == b.module,
        a.initial == b.initial,
        a.states == b.states,
        endpoint_projects(b, role, e),
    ensures
        endpoint_projects(a, role, e),
{
}

proof fn lemma_two_endpoints_same(ep: Seq<Arc<Endpoint>>, eq: Seq<Arc<Endpoint>>)
    requires
        ep.len() == 2,
        eq.len() == 2,
        endpoint_json(endpoint_at(ep, 0)) == endpoint_json(endpoint_at(eq, 0)),
        endpoint_json(endpoint_at(ep, 1)) == endpoint_json(endpoint_at(eq, 1)),
        endpoint_keys(endpoint_at(ep, 0), ep[0].states.len() as nat) == endpoint_keys(endpoint_at(eq, 0), eq[0].states.len() as nat),
        endpoint_keys(endpoint_at(ep, 1), ep[1].states.len() as nat) == endpoint_keys(endpoint_at(eq, 1), eq[1].states.len() as nat),
    ensures
        plan_endpoints_items(ep) == plan_endpoints_items(eq),
        all_plan_keys(ep) == all_plan_keys(eq),
{
    lemma_two_items_same(ep, eq);
    lemma_two_keys_same(ep, eq);
}

proof fn lemma_two_items_same(ep: Seq<Arc<Endpoint>>, eq: Seq<Arc<Endpoint>>)
    requires
        ep.len() == 2,
        eq.len() == 2,
        endpoint_json(endpoint_at(ep, 0)) == endpoint_json(endpoint_at(eq, 0)),
        endpoint_json(endpoint_at(ep, 1)) == endpoint_json(endpoint_at(eq, 1)),
    ensures
        plan_endpoints_items(ep) == plan_endpoints_items(eq),
{
    let x = plan_endpoints_items(ep);
    let y = plan_endpoints_items(eq);
    assert(x[0] == endpoint_json(endpoint_at(ep, 0)));
    assert(y[0] == endpoint_json(endpoint_at(eq, 0)));
    assert(x[1] == endpoint_json(endpoint_at(ep, 1)));
    assert(y[1] == endpoint_json(endpoint_at(eq, 1)));
    assert(x =~= y);
}

proof fn lemma_two_keys_same(ep: Seq<Arc<Endpoint>>, eq: Seq<Arc<Endpoint>>)
    requires
        ep.len() == 2,
        eq.len() == 2,
        endpoint_keys(endpoint_at(ep, 0), ep[0].states.len() as nat) == endpoint_keys(endpoint_at(eq, 0), eq[0].states.len() as nat),
        endpoint_keys(endpoint_at(ep, 1), ep[1].states.len() as nat) == endpoint_keys(endpoint_at(eq, 1), eq[1].states.len() as nat),
    ensures
        all_plan_keys(ep) == all_plan_keys(eq),
{
    assert(plan_keys(ep, 0) == plan_keys(eq, 0));
    assert(plan_keys(ep, 1) == plan_keys(ep, 0) + endpoint_keys(endpoint_at(ep, 0), ep[0].states.len() as nat));
    assert(plan_keys(eq, 1) == plan_keys(eq, 0) + endpoint_keys(endpoint_at(eq, 0), eq[0].states.len() as nat));
    assert(plan_keys(ep, 2) == plan_keys(ep, 1) + endpoint_keys(endpoint_at(ep, 1), ep[1].states.len() as nat));
    assert(plan_keys(eq, 2) == plan_keys(eq, 1) + endpoint_keys(endpoint_at(eq, 1), eq[1].states.len() as nat));
}

/// Dictionaries of endpoints with the same transitions are the same and encode alike.
proof fn lemma_wire_plans_same(wp: CompactWirePlan, wq: CompactWirePlan, ep: Seq<Arc<Endpoint>>, eq: Seq<Arc<Endpoint>>)
    requires
        is_wire_plan_of(wp, ep),
        is_wire_plan_of(wq, eq),
        all_plan_keys(ep) == all_plan_keys(eq),
    ensures
        same_wire_plan(wp, wq),
        wire_plan_json(wp) == wire_plan_json(wq),
{
    lemma_sorted_keys_unique(wire_keys(wp), wire_keys(wq));
    assert(wire_keys(wp).len() == wp.transitions.len());
    assert(wire_keys(wq).len() == wq.transitions.len());
    assert forall|i: int| 0 <= i < wp.transitions.len() implies wire_ids(wp)[i] == wire_ids(wq)[i] by {
        assert(wp.transitions@[i].id == i + 1);
        assert(wq.transitions@[i].id == i + 1);
    }
    assert(wire_ids(wp) =~= wire_ids(wq));
    lemma_wire_json_same(wp, wq);
}

/// Compiling two conversations that differ at most in their schema reference and their
/// annotations gives plans with the same identity and the same wire dictionary; in
/// particular, compiling one conversation twice gives the same plan identity and the
/// same transition ids.
pub proof fn law_plan_identity_ignores_metadata(a: Conversation, b: Conversation, p: EvePlan, q: EvePlan)
    requires
        a.eve_conversation == b.eve_conversation,
        a.module == b.module,
        a.roles == b.roles,
        a.types == b.types,
        a.failures == b.failures,
        a.initial == b.initial,
        a.states == b.states,
        is_compilation_of(a, p),
        is_compilation_of(b, q),
    ensures
        p.plan_identity@ == q.plan_identity@,
        same_wire_plan(p.wire->0, q.wire->0),
{
    law_identity_ignores_metadata(a, b);
    lemma_ordered_projections_same(a, b, p.endpoints@, q.endpoints@);
    lemma_wire_plans_same(p.wire->0, q.wire->0, p.endpoints@, q.endpoints@);
    assert(semantic_plan_json(p) == semantic_plan_json(q));
}

/// The names of a conversation are ids: its module, its roles and its states.
pub open spec fn names_are_ids(c: Conversation) -> bool {
    &&& is_valid_id(c.module.id@)
    &&& forall|i: int| 0 <= i < c.roles.len() ==> is_valid_id(#[trigger] c.roles@[i].id@)
    &&& forall|i: int| 0 <= i < c.states.len() ==> is_valid_id(global_id(#[trigger] c.states@[i]))
}

proof fn lemma_first_absent_all_known(targets: Seq<Seq<char>>, known: Seq<Seq<char>>)
    requires
        forall|k: int| 0 <= k < targets.len() ==> known.contains(#[trigger] targets[k]),
    ensures
        first_absent(targets, known) is None,
    decreases targets.len(),
{
    if targets.len() > 0 {
        assert(known.contains(targets[0]));
        assert forall|k: int| 0 <= k < targets.drop_first().len() implies known.contains(
            #[trigger] targets.drop_first()[k],
        ) by {
            assert(targets.drop_first()[k] == targets[k + 1]);
        }
        lemma_first_absent_all_known(targets.drop_first(), known);
    }
}

proof fn lemma_states_problem_all_none(
    role: Seq<char>,
    ids: Seq<Seq<char>>,
    roles: Seq<Seq<char>>,
    states: Seq<EndpointState>,
)
    requires
        forall|i: int| 0 <= i < states.len() ==> (#[trigger] state_problem(role, ids, roles, states[i])) is None,
    ensures
        states_problem(role, ids, roles, states) is None,
    decreases states.len(),
{
    if states.len() > 0 {
        assert(state_problem(role, ids, roles, states[0]) is None);
        assert forall|i: int| 0 <= i < states.drop_first().len() implies (#[trigger] state_problem(
            role,
            ids,
            roles,
            states.drop_first()[i],
        )) is None by {
            assert(states.drop_first()[i] == states[i + 1]);
        }
        lemma_states_problem_all_none(role, ids, roles, states.drop_first());
    }
}

/// A state of the projection of a valid conversation whose names are ids has no
/// problem: its id is an id, its targets are states, and its peer is a role.
proof fn lemma_projected_state_sound(c: Conversation, role: Seq<char>, e: Endpoint, roles: Seq<Seq<char>>, i: int)
    requires
        structural_diagnostics(c).len() == 0,
        names_are_ids(c),
        endpoint_projects(c, role, e),
        forall|x: Seq<char>| role_ids(c).contains(x) ==> roles.contains(x),
        0 <= i < c.states.len(),
    ensures
        state_problem(role, endpoint_state_ids(e.states@), roles, e.states@[i]) is None,
{
    lemma_structurally_sound(c);
    lemma_roles_sound(c);
    lemma_projection_ids(c, role, e);
    let g = c.states@[i];
    let s = e.states@[i];
    assert(projects_to(g, role, s));
    assert(is_valid_id(global_id(g)));
    assert(crate::projection::endpoint_successors(s) == global_successors(g));
    assert forall|k: int| 0 <= k < global_successors(g).len() implies state_ids(c).contains(
        #[trigger] global_successors(g)[k],
    ) by {
        assert(global_successors(g).contains(global_successors(g)[k]));
    }
    lemma_first_absent_all_known(global_successors(g), state_ids(c));
    match g {
        GlobalState::Send { from, to, .. } | GlobalState::Cancel { from, to, .. } => {
            assert(role_ids(c).contains(from@) && role_ids(c).contains(to@));
        },
        GlobalState::Choice { chooser, .. } => {
            assert(role_ids(c).contains(chooser@));
        },
        _ => {},
    }
}

/// The projection of a valid conversation whose names are ids, for one of its roles, has
/// no problem among endpoints whose roles include the conversation's.
proof fn lemma_projection_sound(c: Conversation, role: Seq<char>, e: Endpoint, roles: Seq<Seq<char>>)
    requires
        structural_diagnostics(c).len() == 0,
        names_are_ids(c),
        role_ids(c).contains(role),
        endpoint_projects(c, role, e),
        forall|x: Seq<char>| role_ids(c).contains(x) ==> roles.contains(x),
    ensures
        endpoint_problem(e, c.module.id@, roles) is None,
{
    lemma_structurally_sound(c);
    lemma_projection_ids(c, role, e);
    let ids = endpoint_state_ids(e.states@);
    let k = choose|k: int| 0 <= k < role_ids(c).len() && role_ids(c)[k] == role;
    assert(c.roles@[k].id@ == role);
    let j = choose|j: int| 0 <= j < state_ids(c).len() && state_ids(c)[j] == c.initial@;
    assert(is_valid_id(global_id(c.states@[j])));
    assert(ids.no_duplicates()) by {
        assert forall|a: int, b: int| 0 <= a < ids.len() && 0 <= b < ids.len() && a != b implies ids[a] != ids[b] by {
            if a < b {
                assert(state_ids(c)[a] != state_ids(c)[b]);
            } else {
                assert(state_ids(c)[b] != state_ids(c)[a]);
            }
        }
    }
    assert forall|i: int| 0 <= i < e.states.len() implies (#[trigger] state_problem(role, ids, roles, e.states@[i])) is None by {
        lemma_projected_state_sound(c, role, e, roles, i);
    }
    lemma_states_problem_all_none(role, ids, roles, e.states@);
}

proof fn lemma_two_endpoints_sound(eps: Seq<Arc<Endpoint>>, conversation: Seq<char>, roles: Seq<Seq<char>>)
    requires
        eps.len() == 2,
        endpoint_problem(endpoint_at(eps, 0), conversation, roles) is None,
        endpoint_problem(endpoint_at(eps, 1), conversation, roles) is None,
    ensures
        endpoints_problem(eps, conversation, roles) is None,
{
    let t = eps.drop_first();
    assert(t[0] == eps[1]);
    assert(t.drop_first().len() == 0);
    assert(endpoints_problem(t.drop_first(), conversation, roles) is None);
    assert(endpoint_problem(endpoint_at(t, 0), conversation, roles) is None);
    assert(endpoints_problem(t, conversation, roles) is None);
}

proof fn lemma_sound_from_checks(p: EvePlan)
    requires
        p.eve_plan@ == crate::plan::PLAN_FORMAT@,
        is_valid_id(p.conversation@),
        crate::identity::is_sha256_text(p.conversation_identity@),
        p.endpoints.len() == 2,
        plan_roles(p.endpoints@).no_duplicates(),
        endpoints_problem(p.endpoints@, p.conversation@, plan_roles(p.endpoints@)) is None,
        p.plan_identity@ == crate::plan::plan_identity_of(p),
        p.wire matches Some(w) && is_wire_plan_of(w, p.endpoints@),
        distinct_transition_count(p.endpoints@) <= 65535,
    ensures
        plan_is_sound(p),
{
}

/// The roles of the role-ordered projection are the conversation's, each once, and each
/// endpoint has no problem among them.
proof fn lemma_ordered_projection_sound(c: Conversation, eps: Seq<Arc<Endpoint>>)
    requires
        is_valid(c),
        names_are_ids(c),
        role_ordered_projection(c, eps),
    ensures
        plan_roles(eps).no_duplicates(),
        endpoints_problem(eps, c.module.id@, plan_roles(eps)) is None,
{
    assert(structural_diagnostics(c).len() == 0);
    lemma_roles_sound(c);
    let first: int = if crate::text::text_lt(c.roles@[1].id@, c.roles@[0].id@) {
        1
    } else {
        0
    };
    let r0 = c.roles@[first].id@;
    let r1 = c.roles@[1 - first].id@;
    assert(role_ids(c)[first] == r0 && role_ids(c)[1 - first] == r1);
    let roles = plan_roles(eps);
    assert(endpoint_projects(c, r0, endpoint_at(eps, 0)));
    assert(endpoint_projects(c, r1, endpoint_at(eps, 1)));
    assert(roles[0] == r0 && roles[1] == r1);
    assert(roles.no_duplicates());
    assert forall|x: Seq<char>| role_ids(c).contains(x) implies roles.contains(x) by {
        if x == r0 {
            assert(roles[0] == x);
        } else {
            assert(roles[1] == x);
        }
    }
    assert(role_ids(c).contains(r0));
    assert(role_ids(c).contains(r1));
    lemma_projection_sound(c, r0, endpoint_at(eps, 0), roles);
    lemma_projection_sound(c, r1, endpoint_at(eps, 1), roles);
    lemma_two_endpoints_sound(eps, c.module.id@, roles);
}

/// Compiling a valid conversation whose names are ids builds a plan that passes its
/// check.
pub proof fn law_compilation_is_sound(c: Conversation, p: EvePlan)
    requires
        is_valid(c),
        names_are_ids(c),
        is_compilation_of(c, p),
    ensures
        plan_is_sound(p),
{
    lemma_ordered_projection_sound(c, p.endpoints@);
    lemma_sound_from_checks(p);
}

/// Compiling a valid conversation whose names are ids fails only where its endpoints have
/// more transitions than the compact dictionary can number.
pub proof fn law_valid_conversations_compile(c: Conversation, e: PlanError)
    requires
        is_valid(c),
        names_are_ids(c),
        compile_failure(c, e),
    ensures
        exists|eps: Seq<Arc<Endpoint>>| #[trigger] role_ordered_projection(c, eps) && distinct_transition_count(eps) > 65535,
{
    if exists|p: EvePlan| #[trigger] is_compilation_of(c, p) && verify_outcome(p, Err(e)) {
        let p = choose|p: EvePlan| #[trigger] is_compilation_of(c, p) && verify_outcome(p, Err(e));
        law_compilation_is_sound(c, p);
    }
}

/// `k` is a transition of some state of some of the endpoints.
pub open spec fn is_endpoint_transition(eps: Seq<Arc<Endpoint>>, k: TransitionKey) -> bool {
    exists|i: int, j: int|
        0 <= i < eps.len() && 0 <= j < eps[i].states.len() && #[trigger] state_keys(eps[i].role@, eps[i].states@[j]).contains(k)
}

proof fn lemma_endpoint_keys_members(e: Endpoint, n: nat, k: TransitionKey)
    requires
        n <= e.states.len(),
    ensures
        endpoint_keys(e, n).contains(k) <==> exists|j: int| 0 <= j < n && #[trigger] state_keys(e.role@, e.states@[j]).contains(k),
    decreases n,
{
    if n > 0 {
        lemma_endpoint_keys_members(e, (n - 1) as nat, k);
        crate::plan::lemma_concat_contains(endpoint_keys(e, (n - 1) as nat), state_keys(e.role@, e.states@[n - 1]), k);
    }
}

proof fn lemma_plan_keys_members(eps: Seq<Arc<Endpoint>>, n: nat, k: TransitionKey)
    requires
        n <= eps.len(),
    ensures
        plan_keys(eps, n).contains(k) <==> exists|i: int, j: int|
            0 <= i < n && 0 <= j < eps[i].states.len() && #[trigger] state_keys(eps[i].role@, eps[i].states@[j]).contains(k),
    decreases n,
{
    if n > 0 {
        lemma_plan_keys_members(eps, (n - 1) as nat, k);
        let e = endpoint_at(eps, n - 1);
        lemma_endpoint_keys_members(e, e.states.len() as nat, k);
        crate::plan::lemma_concat_contains(plan_keys(eps, (n - 1) as nat), endpoint_keys(e, e.states.len() as nat), k);
        if endpoint_keys(e, e.states.len() as nat).contains(k) {
            let j = choose|j: int| 0 <= j < e.states.len() && #[trigger] state_keys(e.role@, e.states@[j]).contains(k);
            assert(state_keys(eps[n - 1].role@, eps[n - 1].states@[j]).contains(k));
        }
        if exists|i: int, j: int|
            0 <= i < n && 0 <= j < eps[i].states.len() && #[trigger] state_keys(eps[i].role@, eps[i].states@[j]).contains(k) {
            let (i, j) = choose|i: int, j: int|
                0 <= i < n && 0 <= j < eps[i].states.len() && #[trigger] state_keys(eps[i].role@, eps[i].states@[j]).contains(k);
            if i == n - 1 {
                assert(state_keys(e.role@, e.states@[j]).contains(k));
            }
        }
    }
}

/// The compact dictionary holds exactly the transitions of the endpoints' states: every
/// data, selection and cancellation transition of some state of some endpoint, and
/// nothing else.
pub proof fn law_wire_plan_holds_every_transition(w: CompactWirePlan, eps: Seq<Arc<Endpoint>>)
    requires
        is_wire_plan_of(w, eps),
    ensures
        forall|k: TransitionKey| wire_keys(w).contains(k) <==> is_endpoint_transition(eps, k),
{
    assert forall|k: TransitionKey| wire_keys(w).contains(k) <==> is_endpoint_transition(eps, k) by {
        lemma_plan_keys_members(eps, eps.len() as nat, k);
    }
}

/// The compact dictionary does not depend on the order of the endpoints, nor on how
/// often one occurs: endpoints with the same members give the same dictionary.
pub proof fn law_wire_plan_ignores_endpoint_order(
    w1: CompactWirePlan,
    w2: CompactWirePlan,
    eps1: Seq<Arc<Endpoint>>,
    eps2: Seq<Arc<Endpoint>>,
)
    requires
        is_wire_plan_of(w1, eps1),
        is_wire_plan_of(w2, eps2),
        forall|e: Arc<Endpoint>| eps1.contains(e) <==> eps2.contains(e),
    ensures
        same_wire_plan(w1, w2),
{
    law_wire_plan_holds_every_transition(w1, eps1);
    law_wire_plan_holds_every_transition(w2, eps2);
    assert forall|k: TransitionKey| all_plan_keys(eps1).contains(k) <==> all_plan_keys(eps2).contains(k) by {
        if is_endpoint_transition(eps1, k) {
            let (i, j) = choose|i: int, j: int|
                0 <= i < eps1.len() && 0 <= j < eps1[i].states.len() && #[trigger] state_keys(eps1[i].role@, eps1[i].states@[j]).contains(k);
            assert(eps1.contains(eps1[i]));
            let i2 = choose|i2: int| 0 <= i2 < eps2.len() && eps2[i2] == eps1[i];
            assert(state_keys(eps2[i2].role@, eps2[i2].states@[j]).contains(k));
        }
        if is_endpoint_transition(eps2, k) {
            let (i, j) = choose|i: int, j: int|
                0 <= i < eps2.len() && 0 <= j < eps2[i].states.len() && #[trigger] state_keys(eps2[i].role@, eps2[i].states@[j]).contains(k);
            assert(eps2.contains(eps2[i]));
            let i1 = choose|i1: int| 0 <= i1 < eps1.len() && eps1[i1] == eps2[i];
            assert(state_keys(eps1[i1].role@, eps1[i1].states@[j]).contains(k));
        }
    }
    lemma_sorted_keys_unique(wire_keys(w1), wire_keys(w2));
    assert(wire_keys(w1).len() == w1.transitions.len());
    assert(wire_keys(w2).len() == w2.transitions.len());
    assert forall|i: int| 0 <= i < w1.transitions.len() implies wire_ids(w1)[i] == wire_ids(w2)[i] by {
        assert(w1.transitions@[i].id == i + 1);
        assert(w2.transitions@[i].id == i + 1);
    }
    assert(wire_ids(w1) =~= wire_ids(w2));
}

/// A plan passes its check exactly when it has the current format, a valid
/// conversation id and identity, two endpoints with distinct roles, none with a
/// problem, the identity of its semantic form, and no wire dictionary or the one its
/// endpoints give.
pub proof fn law_verify_accepts_exactly(p: EvePlan)
    ensures
        plan_is_sound(p) <==> {
            &&& p.eve_plan@ == crate::plan::PLAN_FORMAT@
            &&& is_valid_id(p.conversation@)
            &&& crate::identity::is_sha256_text(p.conversation_identity@)
            &&& p.endpoints.len() == 2
            &&& plan_roles(p.endpoints@).no_duplicates()
            &&& forall|i: int| 0 <= i < p.endpoints.len() ==> endpoint_problem(
                crate::plan::shared_value(#[trigger] p.endpoints@[i]),
                p.conversation@,
                plan_roles(p.endpoints@),
            ) is None
            &&& p.plan_identity@ == crate::plan::plan_identity_of(p)
            &&& p.wire matches Some(w) ==> is_wire_plan_of(w, p.endpoints@) && distinct_transition_count(p.endpoints@) <= 65535
        },
{
    let eps = p.endpoints@;
    let roles = plan_roles(eps);
    if eps.len() == 2 {
        let t = eps.drop_first();
        assert(t[0] == eps[1]);
        assert(t.drop_first().len() == 0);
        assert(endpoints_problem(t.drop_first(), p.conversation@, roles) is None);
        if endpoints_problem(eps, p.conversation@, roles) is None {
            assert(endpoint_problem(endpoint_at(eps, 0), p.conversation@, roles) is None);
            assert(endpoints_problem(t, p.conversation@, roles) is None);
            assert(endpoint_problem(endpoint_at(t, 0), p.conversation@, roles) is None);
            assert forall|i: int| 0 <= i < eps.len() implies endpoint_problem(
                crate::plan::shared_value(#[trigger] eps[i]),
                p.conversation@,
                roles,
            ) is None by {
                if i == 1 {
                    assert(endpoint_at(eps, 1) == endpoint_at(t, 0));
                }
            }
        }
        if forall|i: int| 0 <= i < eps.len() ==> endpoint_problem(crate::plan::shared_value(#[trigger] eps[i]), p.conversation@, roles) is None {
            assert(endpoint_problem(crate::plan::shared_value(eps[0]), p.conversation@, roles) is None);
            assert(endpoint_problem(crate::plan::shared_value(eps[1]), p.conversation@, roles) is None);
            assert(endpoint_problem(endpoint_at(eps, 1), p.conversation@, roles) is None);
            assert(endpoint_problem(endpoint_at(t, 0), p.conversation@, roles) is None);
            lemma_two_endpoints_sound(eps, p.conversation@, roles);
        }
    }
}

} // verus!
