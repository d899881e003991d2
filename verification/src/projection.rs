//! Endpoint projection: one local protocol machine per role.
use vstd::prelude::*;
use crate::conversation::{Conversation, GlobalState, ENDPOINT_FORMAT};
use crate::map::{StrMap, TextPairs, lookup, values_of};
use crate::validate::{validate, is_valid, ValidationErrors, diagnostics_view, validation_diagnostics};

verus! {

/// The local machine of one role.
#[derive(Debug, Clone)]
pub struct Endpoint {
    pub eve_endpoint: String,
    pub conversation: String,
    pub role: String,
    pub initial: String,
    pub states: Vec<EndpointState>,
}

/// One state of an endpoint machine: the local action of its role.
#[derive(Debug, Clone)]
pub enum EndpointState {
    Send {
        id: String,
        to: String,
        message: String,
        next: String,
        deadline: Option<String>,
        on_failure: StrMap,
    },
    Receive {
        id: String,
        from: String,
        message: String,
        next: String,
        deadline: Option<String>,
        on_failure: StrMap,
    },
    Select { id: String, branches: StrMap, on_failure: StrMap },
    Branch { id: String, from: String, branches: StrMap, on_failure: StrMap },
    SendCancel { id: String, to: String, scope: String, next: String, on_failure: StrMap },
    ReceiveCancel { id: String, from: String, scope: String, next: String, on_failure: StrMap },
    End { id: String },
    Fail { id: String, failure: String },
}

pub open spec fn opt_text(o: Option<String>) -> Option<Seq<char>> {
    match o {
        Some(s) => Some(s@),
        None => None,
    }
}

pub open spec fn endpoint_id(s: EndpointState) -> Seq<char> {
    match s {
        EndpointState::Send { id, .. } => id@,
        EndpointState::Receive { id, .. } => id@,
        EndpointState::Select { id, .. } => id@,
        EndpointState::Branch { id, .. } => id@,
        EndpointState::SendCancel { id, .. } => id@,
        EndpointState::ReceiveCancel { id, .. } => id@,
        EndpointState::End { id } => id@,
        EndpointState::Fail { id, .. } => id@,
    }
}

pub open spec fn endpoint_failure_edges(s: EndpointState) -> TextPairs {
    match s {
        EndpointState::Send { on_failure, .. } => on_failure@,
        EndpointState::Receive { on_failure, .. } => on_failure@,
        EndpointState::Select { on_failure, .. } => on_failure@,
        EndpointState::Branch { on_failure, .. } => on_failure@,
        EndpointState::SendCancel { on_failure, .. } => on_failure@,
        EndpointState::ReceiveCancel { on_failure, .. } => on_failure@,
        _ => Seq::empty(),
    }
}

/// The ids an endpoint state may move to: the continuation or branch targets, then the
/// failure targets.
pub open spec fn endpoint_successors(s: EndpointState) -> Seq<Seq<char>> {
    match s {
        EndpointState::Send { next, on_failure, .. } => seq![next@] + values_of(on_failure@),
        EndpointState::Receive { next, on_failure, .. } => seq![next@] + values_of(on_failure@),
        EndpointState::SendCancel { next, on_failure, .. } => seq![next@] + values_of(on_failure@),
        EndpointState::ReceiveCancel { next, on_failure, .. } => seq![next@] + values_of(
            on_failure@,
        ),
        EndpointState::Select { branches, on_failure, .. } => values_of(branches@) + values_of(
            on_failure@,
        ),
        EndpointState::Branch { branches, on_failure, .. } => values_of(branches@) + values_of(
            on_failure@,
        ),
        _ => Seq::empty(),
    }
}

/// The role an endpoint state exchanges with, if any.
pub open spec fn endpoint_peer(s: EndpointState) -> Option<Seq<char>> {
    match s {
        EndpointState::Send { to, .. } => Some(to@),
        EndpointState::SendCancel { to, .. } => Some(to@),
        EndpointState::Receive { from, .. } => Some(from@),
        EndpointState::Branch { from, .. } => Some(from@),
        EndpointState::ReceiveCancel { from, .. } => Some(from@),
        _ => None,
    }
}

/// `e` is the view `role` has of the global state `g`: the sender sends and the other
/// role receives, the chooser selects and the other role branches, the canceller
/// cancels and the other role receives the cancellation. Ids, payload types, targets,
/// deadlines and failure edges are kept.
pub open spec fn projects_to(g: GlobalState, role: Seq<char>, e: EndpointState) -> bool {
    match g {
        GlobalState::Send { id, from, to, message, next, deadline, on_failure } => if from@ == role {
            e matches EndpointState::Send { id: i, to: t, message: m, next: n, deadline: d, on_failure: f }
                && i@ == id@ && t@ == to@ && m@ == message@ && n@ == next@ && opt_text(d) == opt_text(
                deadline,
            ) && f@ == on_failure@
        } else {
            e matches EndpointState::Receive {
                id: i,
                from: fr,
                message: m,
                next: n,
                deadline: d,
                on_failure: f,
            } && i@ == id@ && fr@ == from@ && m@ == message@ && n@ == next@ && opt_text(d)
                == opt_text(deadline) && f@ == on_failure@
        },
        GlobalState::Choice { id, chooser, branches, on_failure } => if chooser@ == role {
            e matches EndpointState::Select { id: i, branches: b, on_failure: f } && i@ == id@ && b@
                == branches@ && f@ == on_failure@
        } else {
            e matches EndpointState::Branch { id: i, from: fr, branches: b, on_failure: f } && i@
                == id@ && fr@ == chooser@ && b@ == branches@ && f@ == on_failure@
        },
        GlobalState::Cancel { id, from, to, scope, next, on_failure } => if from@ == role {
            e matches EndpointState::SendCancel { id: i, to: t, scope: sc, next: n, on_failure: f }
                && i@ == id@ && t@ == to@ && sc@ == scope@ && n@ == next@ && f@ == on_failure@
        } else {
            e matches EndpointState::ReceiveCancel {
                id: i,
                from: fr,
                scope: sc,
                next: n,
                on_failure: f,
            } && i@ == id@ && fr@ == from@ && sc@ == scope@ && n@ == next@ && f@ == on_failure@
        },
        GlobalState::End { id } => e matches EndpointState::End { id: i } && i@ == id@,
        GlobalState::Fail { id, failure } => e matches EndpointState::Fail { id: i, failure: fl }
            && i@ == id@ && fl@ == failure@,
    }
}

/// `ep` is the projection of the conversation for `role`.
pub open spec fn endpoint_projects(c: Conversation, role: Seq<char>, ep: Endpoint) -> bool {
    &&& ep.eve_endpoint@ == ENDPOINT_FORMAT@
    &&& ep.conversation@ == c.module.id@
    &&& ep.role@ == role
    &&& ep.initial@ == c.initial@
    &&& ep.states.len() == c.states.len()
    &&& forall|i: int| 0 <= i < c.states.len() ==> projects_to(c.states@[i], role, #[trigger] ep.states@[i])
}

/// The endpoints are the projections for the conversation's roles, in role order.
pub open spec fn projection_of(c: Conversation, eps: Seq<Endpoint>) -> bool {
    &&& eps.len() == c.roles.len()
    &&& forall|i: int| 0 <= i < c.roles.len() ==> endpoint_projects(c, c.roles@[i].id@, #[trigger] eps[i])
}

fn clone_opt(o: &Option<String>) -> (r: Option<String>)
    ensures
        opt_text(r) == opt_text(*o),
{
    match o {
        Some(s) => Some(s.clone()),
        None => None,
    }
}

impl EndpointState {
    pub fn id(&self) -> (r: &str)
        ensures
            r@ == endpoint_id(*self),
    {
        match self {
            EndpointState::Send { id, .. } => id.as_str(),
            EndpointState::Receive { id, .. } => id.as_str(),
            EndpointState::Select { id, .. } => id.as_str(),
            EndpointState::Branch { id, .. } => id.as_str(),
            EndpointState::SendCancel { id, .. } => id.as_str(),
            EndpointState::ReceiveCancel { id, .. } => id.as_str(),
            EndpointState::End { id } => id.as_str(),
            EndpointState::Fail { id, .. } => id.as_str(),
        }
    }

    /// The state a declared failure leads to.
    pub fn failure_target(&self, failure: &str) -> (r: Option<&str>)
        ensures
            match r {
                Some(t) => lookup(endpoint_failure_edges(*self), failure@) == Some(t@),
                None => lookup(endpoint_failure_edges(*self), failure@) is None,
            },
    {
        let edges = match self {
            EndpointState::Send { on_failure, .. } => on_failure,
            EndpointState::Receive { on_failure, .. } => on_failure,
            EndpointState::Select { on_failure, .. } => on_failure,
            EndpointState::Branch { on_failure, .. } => on_failure,
            EndpointState::SendCancel { on_failure, .. } => on_failure,
            EndpointState::ReceiveCancel { on_failure, .. } => on_failure,
            EndpointState::End { .. } | EndpointState::Fail { .. } => {
                return None;
            },
        };
        match edges.get(failure) {
            Some(t) => Some(t.as_str()),
            None => None,
        }
    }
}

/// The local view `role` has of one global state.
pub fn project_state(state: &GlobalState, role: &str) -> (e: EndpointState)
    ensures
        projects_to(*state, role@, e),
{
    match state {
        GlobalState::Send { id, from, to, message, next, deadline, on_failure } => {
            if crate::text::same_text(from.as_str(), role) {
                EndpointState::Send {
                    id: id.clone(),
                    to: to.clone(),
                    message: message.clone(),
                    next: next.clone(),
                    deadline: clone_opt(deadline),
                    on_failure: on_failure.duplicate(),
                }
            } else {
                EndpointState::Receive {
                    id: id.clone(),
                    from: from.clone(),
                    message: message.clone(),
                    next: next.clone(),
                    deadline: clone_opt(deadline),
                    on_failure: on_failure.duplicate(),
                }
            }
        },
        GlobalState::Choice { id, chooser, branches, on_failure } => {
            if crate::text::same_text(chooser.as_str(), role) {
                EndpointState::Select {
                    id: id.clone(),
                    branches: branches.duplicate(),
                    on_failure: on_failure.duplicate(),
                }
            } else {
                EndpointState::Branch {
                    id: id.clone(),
                    from: chooser.clone(),
                    branches: branches.duplicate(),
                    on_failure: on_failure.duplicate(),
                }
            }
        },
        GlobalState::Cancel { id, from, to, scope, next, on_failure } => {
            if crate::text::same_text(from.as_str(), role) {
                EndpointState::SendCancel {
                    id: id.clone(),
                    to: to.clone(),
                    scope: scope.clone(),
                    next: next.clone(),
                    on_failure: on_failure.duplicate(),
                }
            } else {
                EndpointState::ReceiveCancel {
                    id: id.clone(),
                    from: from.clone(),
                    scope: scope.clone(),
                    next: next.clone(),
                    on_failure: on_failure.duplicate(),
                }
            }
        },
        GlobalState::End { id } => EndpointState::End { id: id.clone() },
        GlobalState::Fail { id, failure } => EndpointState::Fail {
            id: id.clone(),
            failure: failure.clone(),
        },
    }
}

/// The endpoint machine of `role`.
pub fn project_role(c: &Conversation, role: &str) -> (ep: Endpoint)
    ensures
        endpoint_projects(*c, role@, ep),
{
    let mut states: Vec<EndpointState> = Vec::new();
    let mut i: usize = 0;
    while i < c.states.len()
        invariant
            i <= c.states.len(),
            states.len() == i,
            forall|k: int| 0 <= k < i ==> projects_to(c.states@[k], role@, #[trigger] states@[k]),
        decreases c.states.len() - i,
    {
        states.push(project_state(&c.states[i], role));
        i = i + 1;
    }
    Endpoint {
        eve_endpoint: ENDPOINT_FORMAT.to_owned(),
        conversation: c.module.id.clone(),
        role: role.to_owned(),
        initial: c.initial.clone(),
        states,
    }
}

/// Projects a conversation that has already been checked: one endpoint per role, in
/// role order.
pub fn project_validated(c: &Conversation) -> (eps: Vec<Endpoint>)
    ensures
        projection_of(*c, eps@),
{
    let mut eps: Vec<Endpoint> = Vec::new();
    let mut i: usize = 0;
    while i < c.roles.len()
        invariant
            i <= c.roles.len(),
            eps.len() == i,
            forall|k: int| 0 <= k < i ==> endpoint_projects(*c, c.roles@[k].id@, #[trigger] eps@[k]),
        decreases c.roles.len() - i,
    {
        eps.push(project_role(c, c.roles[i].id.as_str()));
        i = i + 1;
    }
    eps
}

/// Checks the conversation and projects it into one endpoint machine per role.
pub fn project(conversation: &Conversation) -> (r: Result<Vec<Endpoint>, ValidationErrors>)
    ensures
        r is Ok <==> is_valid(*conversation),
        r matches Ok(eps) ==> projection_of(*conversation, eps@),
        r matches Err(e) ==> diagnostics_view(e.diagnostics@) == validation_diagnostics(*conversation),
{
    validate(conversation)?;
    Ok(project_validated(conversation))
}

/// The deadline of a sending or receiving endpoint state.
pub open spec fn endpoint_deadline(s: EndpointState) -> Option<Seq<char>> {
    match s {
        EndpointState::Send { deadline, .. } => opt_text(deadline),
        EndpointState::Receive { deadline, .. } => opt_text(deadline),
        _ => None,
    }
}

/// The deadline of a global send state.
pub open spec fn global_deadline(g: GlobalState) -> Option<Seq<char>> {
    match g {
        GlobalState::Send { deadline, .. } => opt_text(deadline),
        _ => None,
    }
}

/// The message type an endpoint state sends or receives.
pub open spec fn endpoint_message(s: EndpointState) -> Option<Seq<char>> {
    match s {
        EndpointState::Send { message, .. } => Some(message@),
        EndpointState::Receive { message, .. } => Some(message@),
        _ => None,
    }
}

/// The message type a global state carries.
pub open spec fn global_message(g: GlobalState) -> Option<Seq<char>> {
    match g {
        GlobalState::Send { message, .. } => Some(message@),
        _ => None,
    }
}

/// The cancellation scope of an endpoint state.
pub open spec fn endpoint_scope(s: EndpointState) -> Option<Seq<char>> {
    match s {
        EndpointState::SendCancel { scope, .. } => Some(scope@),
        EndpointState::ReceiveCancel { scope, .. } => Some(scope@),
        _ => None,
    }
}

/// The cancellation scope of a global state.
pub open spec fn global_scope(g: GlobalState) -> Option<Seq<char>> {
    match g {
        GlobalState::Cancel { scope, .. } => Some(scope@),
        _ => None,
    }
}

/// The labelled branches of an endpoint state.
pub open spec fn endpoint_branches(s: EndpointState) -> Option<TextPairs> {
    match s {
        EndpointState::Select { branches, .. } => Some(branches@),
        EndpointState::Branch { branches, .. } => Some(branches@),
        _ => None,
    }
}

/// The labelled branches of a global state.
pub open spec fn global_branches(g: GlobalState) -> Option<TextPairs> {
    match g {
        GlobalState::Choice { branches, .. } => Some(branches@),
        _ => None,
    }
}

/// The endpoint state acts: it sends, selects or cancels.
pub open spec fn endpoint_acts(s: EndpointState) -> bool {
    s is Send || s is Select || s is SendCancel
}

/// The role that acts at a global state: the sender, the chooser or the canceller.
pub open spec fn global_actor(g: GlobalState) -> Option<Seq<char>> {
    match g {
        GlobalState::Send { from, .. } => Some(from@),
        GlobalState::Choice { chooser, .. } => Some(chooser@),
        GlobalState::Cancel { from, .. } => Some(from@),
        _ => None,
    }
}

/// The role a global state's action goes to, where it names one.
pub open spec fn global_receiver(g: GlobalState) -> Option<Seq<char>> {
    match g {
        GlobalState::Send { to, .. } => Some(to@),
        GlobalState::Cancel { to, .. } => Some(to@),
        _ => None,
    }
}

/// The failure a terminal failure state records.
pub open spec fn endpoint_failure(s: EndpointState) -> Option<Seq<char>> {
    match s {
        EndpointState::Fail { failure, .. } => Some(failure@),
        _ => None,
    }
}

/// The failure a global failure state records.
pub open spec fn global_failure(g: GlobalState) -> Option<Seq<char>> {
    match g {
        GlobalState::Fail { failure, .. } => Some(failure@),
        _ => None,
    }
}

/// A role's view of a global state loses nothing: the id, the message type, the
/// deadline, the scope, the branches, the successors and the failure edges are those of
/// the global state; the role acts exactly where it is the global state's actor, and then
/// addresses the global receiver, and otherwise takes the action from the actor; end and
/// failure states stay what they are, with the same failure.
pub proof fn law_projection_keeps_the_state(g: GlobalState, role: Seq<char>, e: EndpointState)
    requires
        projects_to(g, role, e),
    ensures
        endpoint_id(e) == crate::conversation::global_id(g),
        endpoint_message(e) == global_message(g),
        endpoint_deadline(e) == global_deadline(g),
        endpoint_scope(e) == global_scope(g),
        endpoint_branches(e) == global_branches(g),
        endpoint_successors(e) == crate::conversation::global_successors(g),
        endpoint_failure_edges(e) == crate::conversation::global_failure_edges(g),
        endpoint_acts(e) == (global_actor(g) == Some(role)),
        endpoint_acts(e) && !(g is Choice) ==> endpoint_peer(e) == global_receiver(g),
        !endpoint_acts(e) && global_actor(g) is Some ==> endpoint_peer(e) == global_actor(g),
        (e is End) == (g is End),
        (e is Fail) == (g is Fail),
        endpoint_failure(e) == global_failure(g),
{
}

/// Every state of a projected endpoint is the role's view of the global state at the
/// same position, and keeps its id, message type, deadline, scope, branches, successors
/// and failure edges.
pub proof fn law_projection_keeps_every_state(c: Conversation, role: Seq<char>, ep: Endpoint)
    requires
        endpoint_projects(c, role, ep),
    ensures
        ep.states.len() == c.states.len(),
        forall|i: int| 0 <= i < c.states.len() ==> {
            &&& endpoint_id(#[trigger] ep.states@[i]) == crate::conversation::global_id(c.states@[i])
            &&& endpoint_message(ep.states@[i]) == global_message(c.states@[i])
            &&& endpoint_deadline(ep.states@[i]) == global_deadline(c.states@[i])
            &&& endpoint_scope(ep.states@[i]) == global_scope(c.states@[i])
            &&& endpoint_branches(ep.states@[i]) == global_branches(c.states@[i])
            &&& endpoint_successors(ep.states@[i]) == crate::conversation::global_successors(c.states@[i])
            &&& endpoint_failure_edges(ep.states@[i]) == crate::conversation::global_failure_edges(c.states@[i])
            &&& endpoint_acts(ep.states@[i]) == (global_actor(c.states@[i]) == Some(role))
            &&& endpoint_failure(ep.states@[i]) == global_failure(c.states@[i])
        },
{
    assert forall|i: int| 0 <= i < c.states.len() implies {
        &&& endpoint_id(#[trigger] ep.states@[i]) == crate::conversation::global_id(c.states@[i])
        &&& endpoint_message(ep.states@[i]) == global_message(c.states@[i])
        &&& endpoint_deadline(ep.states@[i]) == global_deadline(c.states@[i])
        &&& endpoint_scope(ep.states@[i]) == global_scope(c.states@[i])
        &&& endpoint_branches(ep.states@[i]) == global_branches(c.states@[i])
        &&& endpoint_successors(ep.states@[i]) == crate::conversation::global_successors(c.states@[i])
        &&& endpoint_failure_edges(ep.states@[i]) == crate::conversation::global_failure_edges(c.states@[i])
        &&& endpoint_acts(ep.states@[i]) == (global_actor(c.states@[i]) == Some(role))
        &&& endpoint_failure(ep.states@[i]) == global_failure(c.states@[i])
    } by {
        law_projection_keeps_the_state(c.states@[i], role, ep.states@[i]);
    }
}

} // verus!
