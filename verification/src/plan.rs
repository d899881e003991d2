//! Compiled, reusable execution plans for Eve conversations.
use vstd::prelude::*;
use std::sync::Arc;
use crate::conversation::{Conversation, join_with, push_values, str_views, ENDPOINT_FORMAT};
use crate::map::{StrMap, keys_of, values_of};
use crate::projection::{Endpoint, EndpointState, endpoint_id, opt_text};
use crate::text::{
    chars_of, text_lt, text_less, same_text, lemma_text_lt_irreflexive, lemma_text_lt_total,
    lemma_text_lt_transitive, decimal, push_decimal, push_text, text_from, json_string,
    push_json_string,
};
use crate::json::{json_array, lemma_join_push};
use crate::encode::{endpoint_json, endpoint_text};
use crate::identity::{text_identity, text_identity_of, conversation_identity_of, is_lower_hex, is_sha256_text};
use crate::encode::semantic_conversation_text;
use crate::projection::{endpoint_projects, project_validated};
use crate::validate::{validate, is_valid, diagnostics_view, validation_diagnostics, lemma_structurally_sound};
use crate::validate::{ValidationErrors, contains_str};

verus! {

pub const PLAN_FORMAT: &'static str = "0.1.0";

pub const COMPACT_WIRE_FORMAT: &'static str = "compact-json-v0";

/// Why a plan could not be compiled, verified or prepared.
#[derive(Debug, Clone)]
pub enum PlanError {
    InvalidConversation(ValidationErrors),
    Codec(String),
    Version { actual: String, expected: &'static str },
    IdentityMismatch { declared: String, calculated: String },
    Invalid(String),
}

/// The message of a plan error.
pub open spec fn plan_error_text(e: PlanError) -> Seq<char> {
    match e {
        PlanError::InvalidConversation(errors) => crate::validate::validation_text(diagnostics_view(errors.diagnostics@)),
        PlanError::Codec(m) => "plan codec error: "@ + m@,
        PlanError::Version { actual, expected } => "unsupported Eve Plan version "@ + actual@ + "; expected "@ + expected@,
        PlanError::IdentityMismatch { declared, calculated } => "plan identity mismatch: declared "@ + declared@
            + ", calculated "@ + calculated@,
        PlanError::Invalid(m) => "invalid Eve Plan: "@ + m@,
    }
}

impl PlanError {
    /// The message: the validator's findings, or what the plan gets wrong.
    pub fn to_string(&self) -> (s: String)
        ensures
            s@ == plan_error_text(*self),
    {
        match self {
            PlanError::InvalidConversation(errors) => errors.to_string(),
            PlanError::Codec(m) => {
                let mut s = text_from("plan codec error: ");
                push_text(&mut s, m.as_str());
                s
            },
            PlanError::Version { actual, expected } => {
                let mut s = text_from("unsupported Eve Plan version ");
                push_text(&mut s, actual.as_str());
                push_text(&mut s, "; expected ");
                push_text(&mut s, expected);
                s
            },
            PlanError::IdentityMismatch { declared, calculated } => {
                let mut s = text_from("plan identity mismatch: declared ");
                push_text(&mut s, declared.as_str());
                push_text(&mut s, ", calculated ");
                push_text(&mut s, calculated.as_str());
                s
            },
            PlanError::Invalid(m) => {
                let mut s = text_from("invalid Eve Plan: ");
                push_text(&mut s, m.as_str());
                s
            },
        }
    }
}

/// One semantic transition of the compact wire dictionary.
#[derive(Debug, Clone, PartialEq, Eq)]
pub enum WireOperation {
    Data { from: String, to: String, message: String },
    Select { by: String, label: String },
    Cancel { from: String, to: String, scope: String },
}

/// A transition of the compact wire dictionary: its dense id, the state it leaves and
/// its operation.
#[derive(Debug, Clone, PartialEq, Eq)]
pub struct WireTransition {
    pub id: u16,
    pub state: String,
    pub operation: WireOperation,
}

/// The deterministic transition dictionary used by compact Eve Wire sessions.
#[derive(Debug, Clone, PartialEq, Eq)]
pub struct CompactWirePlan {
    pub encoding: String,
    pub transitions: Vec<WireTransition>,
}

/// A transition as a comparable key: the state id, the operation kind (0 data,
/// 1 select, 2 cancel) and the operation's fields in order, a selection having an
/// empty third field.
pub type TransitionKey = (Seq<char>, nat, Seq<char>, Seq<char>, Seq<char>);

pub open spec fn operation_key(state: Seq<char>, op: WireOperation) -> TransitionKey {
    match op {
        WireOperation::Data { from, to, message } => (state, 0, from@, to@, message@),
        WireOperation::Select { by, label } => (state, 1, by@, label@, Seq::empty()),
        WireOperation::Cancel { from, to, scope } => (state, 2, from@, to@, scope@),
    }
}

pub open spec fn transition_key(t: WireTransition) -> TransitionKey {
    operation_key(t.state@, t.operation)
}

/// The order of `(state, operation)` pairs: by state, then by operation kind, then by
/// the operation's fields.
pub open spec fn key_lt(a: TransitionKey, b: TransitionKey) -> bool {
    ||| text_lt(a.0, b.0)
    ||| a.0 == b.0 && a.1 < b.1
    ||| a.0 == b.0 && a.1 == b.1 && text_lt(a.2, b.2)
    ||| a.0 == b.0 && a.1 == b.1 && a.2 == b.2 && text_lt(a.3, b.3)
    ||| a.0 == b.0 && a.1 == b.1 && a.2 == b.2 && a.3 == b.3 && text_lt(a.4, b.4)
}

pub proof fn lemma_key_lt_order(a: TransitionKey, b: TransitionKey, c: TransitionKey)
    ensures
        !key_lt(a, a),
        a != b ==> key_lt(a, b) || key_lt(b, a),
        !(key_lt(a, b) && key_lt(b, a)),
        key_lt(a, b) && key_lt(b, c) ==> key_lt(a, c),
{
    lemma_text_lt_irreflexive(a.0);
    lemma_text_lt_irreflexive(a.2);
    lemma_text_lt_irreflexive(a.3);
    lemma_text_lt_irreflexive(a.4);
    lemma_text_lt_total(a.0, b.0);
    lemma_text_lt_total(a.2, b.2);
    lemma_text_lt_total(a.3, b.3);
    lemma_text_lt_total(a.4, b.4);
    lemma_text_lt_total(b.0, c.0);
    lemma_text_lt_total(b.2, c.2);
    lemma_text_lt_total(b.3, c.3);
    lemma_text_lt_total(b.4, c.4);
    if key_lt(a, b) && key_lt(b, c) {
        if text_lt(a.0, b.0) && text_lt(b.0, c.0) {
            lemma_text_lt_transitive(a.0, b.0, c.0);
        }
        if text_lt(a.2, b.2) && text_lt(b.2, c.2) {
            lemma_text_lt_transitive(a.2, b.2, c.2);
        }
        if text_lt(a.3, b.3) && text_lt(b.3, c.3) {
            lemma_text_lt_transitive(a.3, b.3, c.3);
        }
        if text_lt(a.4, b.4) && text_lt(b.4, c.4) {
            lemma_text_lt_transitive(a.4, b.4, c.4);
        }
    }
    if a != b {
        assert(a.0 != b.0 || a.1 != b.1 || a.2 != b.2 || a.3 != b.3 || a.4 != b.4);
    }
}

/// Keys strictly increase.
pub open spec fn keys_sorted(k: Seq<TransitionKey>) -> bool {
    forall|i: int, j: int| 0 <= i < j < k.len() ==> key_lt(#[trigger] k[i], #[trigger] k[j])
}

/// The transitions one endpoint state contributes: a send or receive gives one data
/// transition, a selection or branch gives one selection per label, a cancellation one
/// cancel transition; terminals give none. Sender and receiver come from the endpoint's
/// role and its peer.
pub open spec fn state_keys(role: Seq<char>, s: EndpointState) -> Seq<TransitionKey> {
    match s {
        EndpointState::Send { id, to, message, .. } => seq![(id@, 0nat, role, to@, message@)],
        EndpointState::Receive { id, from, message, .. } => seq![(id@, 0nat, from@, role, message@)],
        EndpointState::Select { id, branches, .. } => label_keys(id@, role, keys_of(branches@)),
        EndpointState::Branch { id, from, branches, .. } => label_keys(id@, from@, keys_of(branches@)),
        EndpointState::SendCancel { id, to, scope, .. } => seq![(id@, 2nat, role, to@, scope@)],
        EndpointState::ReceiveCancel { id, from, scope, .. } => seq![(id@, 2nat, from@, role, scope@)],
        _ => Seq::empty(),
    }
}

/// The transitions of the first `n` states of an endpoint.
pub open spec fn endpoint_keys(e: Endpoint, n: nat) -> Seq<TransitionKey>
    decreases n,
{
    if n == 0 || n > e.states.len() {
        Seq::empty()
    } else {
        endpoint_keys(e, (n - 1) as nat) + state_keys(e.role@, e.states@[n - 1])
    }
}

/// The transitions of the first `n` endpoints.
pub open spec fn plan_keys(eps: Seq<Arc<Endpoint>>, n: nat) -> Seq<TransitionKey>
    decreases n,
{
    if n == 0 || n > eps.len() {
        Seq::empty()
    } else {
        plan_keys(eps, (n - 1) as nat) + endpoint_keys(*eps[n - 1], eps[n - 1].states.len() as nat)
    }
}

/// Every transition the endpoints perform.
pub open spec fn all_plan_keys(eps: Seq<Arc<Endpoint>>) -> Seq<TransitionKey> {
    plan_keys(eps, eps.len())
}

pub open spec fn wire_keys(w: CompactWirePlan) -> Seq<TransitionKey> {
    w.transitions@.map_values(|t: WireTransition| transition_key(t))
}

/// The compact dictionary of the endpoints: every distinct transition once, in key
/// order, numbered densely from one.
pub open spec fn is_wire_plan_of(w: CompactWirePlan, eps: Seq<Arc<Endpoint>>) -> bool {
    &&& w.encoding@ == COMPACT_WIRE_FORMAT@
    &&& keys_sorted(wire_keys(w))
    &&& forall|k: TransitionKey| wire_keys(w).contains(k) <==> all_plan_keys(eps).contains(k)
    &&& forall|i: int| 0 <= i < w.transitions.len() ==> #[trigger] w.transitions@[i].id == i + 1
}

/// The number of distinct transitions of the endpoints.
pub open spec fn distinct_transition_count(eps: Seq<Arc<Endpoint>>) -> nat {
    all_plan_keys(eps).to_set().len()
}

fn clone_operation(op: &WireOperation) -> (r: WireOperation)
    ensures
        r == *op,
{
    match op {
        WireOperation::Data { from, to, message } => WireOperation::Data {
            from: from.clone(),
            to: to.clone(),
            message: message.clone(),
        },
        WireOperation::Select { by, label } => WireOperation::Select {
            by: by.clone(),
            label: label.clone(),
        },
        WireOperation::Cancel { from, to, scope } => WireOperation::Cancel {
            from: from.clone(),
            to: to.clone(),
            scope: scope.clone(),
        },
    }
}

fn text_order(a: &str, b: &str) -> (r: u8)
    ensures
        r == 0 <==> text_lt(a@, b@),
        r == 1 <==> a@ == b@,
        r == 2 <==> text_lt(b@, a@),
        r <= 2,
{
    proof {
        lemma_text_lt_total(a@, b@);
        lemma_text_lt_irreflexive(a@);
    }
    if text_less(a, b) {
        0
    } else if same_text(a, b) {
        1
    } else {
        2
    }
}

fn operation_kind(op: &WireOperation) -> (r: u8)
    ensures
        r as nat == operation_key(Seq::empty(), *op).1,
{
    match op {
        WireOperation::Data { .. } => 0,
        WireOperation::Select { .. } => 1,
        WireOperation::Cancel { .. } => 2,
    }
}

/// Whether `(s1, o1)` orders before `(s2, o2)`.
fn pair_less(s1: &str, o1: &WireOperation, s2: &str, o2: &WireOperation) -> (r: bool)
    ensures
        r == key_lt(operation_key(s1@, *o1), operation_key(s2@, *o2)),
{
    let a = operation_key_fields(o1);
    let b = operation_key_fields(o2);
    let st = text_order(s1, s2);
    if st != 1 {
        return st == 0;
    }
    let k1 = operation_kind(o1);
    let k2 = operation_kind(o2);
    if k1 != k2 {
        return k1 < k2;
    }
    let f = text_order(a.0, b.0);
    if f != 1 {
        return f == 0;
    }
    let g = text_order(a.1, b.1);
    if g != 1 {
        return g == 0;
    }
    text_order(a.2, b.2) == 0
}

/// Whether `(s1, o1)` and `(s2, o2)` are the same transition.
fn pair_same(s1: &str, o1: &WireOperation, s2: &str, o2: &WireOperation) -> (r: bool)
    ensures
        r == (operation_key(s1@, *o1) == operation_key(s2@, *o2)),
{
    let a = operation_key_fields(o1);
    let b = operation_key_fields(o2);
    same_text(s1, s2) && operation_kind(o1) == operation_kind(o2) && same_text(a.0, b.0)
        && same_text(a.1, b.1) && same_text(a.2, b.2)
}

fn operation_key_fields(op: &WireOperation) -> (r: (&str, &str, &str))
    ensures
        r.0@ == operation_key(Seq::empty(), *op).2,
        r.1@ == operation_key(Seq::empty(), *op).3,
        r.2@ == operation_key(Seq::empty(), *op).4,
{
    match op {
        WireOperation::Data { from, to, message } => (from.as_str(), to.as_str(), message.as_str()),
        WireOperation::Select { by, label } => {
            proof {
                reveal_strlit("");
            }
            (by.as_str(), label.as_str(), "")
        },
        WireOperation::Cancel { from, to, scope } => (from.as_str(), to.as_str(), scope.as_str()),
    }
}

pub open spec fn pair_key(p: (String, WireOperation)) -> TransitionKey {
    operation_key(p.0@, p.1)
}

pub open spec fn pair_keys(v: Seq<(String, WireOperation)>) -> Seq<TransitionKey> {
    v.map_values(|p: (String, WireOperation)| pair_key(p))
}

/// Adds `(state, op)` to a strictly sorted list unless it is already there.
fn insert_sorted(v: &mut Vec<(String, WireOperation)>, state: &str, op: &WireOperation)
    requires
        keys_sorted(pair_keys(old(v)@)),
    ensures
        keys_sorted(pair_keys(final(v)@)),
        forall|k: TransitionKey| pair_keys(final(v)@).contains(k) <==> (pair_keys(old(v)@).contains(k) || k == operation_key(state@, *op)),
{
    let ghost before = pair_keys(v@);
    let ghost key = operation_key(state@, *op);
    let mut i: usize = 0;
    while i < v.len() && pair_less(v[i].0.as_str(), &v[i].1, state, op)
        invariant
            before == pair_keys(v@),
            key == operation_key(state@, *op),
            keys_sorted(before),
            i <= v.len(),
            forall|j: int| 0 <= j < i ==> key_lt(#[trigger] before[j], key),
        decreases v.len() - i,
    {
        assert(before[i as int] == operation_key(v@[i as int].0@, v@[i as int].1));
        i = i + 1;
    }
    if i < v.len() && pair_same(v[i].0.as_str(), &v[i].1, state, op) {
        assert(before[i as int] == key);
        assert forall|k: TransitionKey| pair_keys(v@).contains(k) <==> (before.contains(k) || k == key) by {}
        return;
    }
    proof {
        if i < v.len() {
            lemma_key_lt_order(before[i as int], key, key);
        }
    }
    v.insert(i, (state.to_owned(), clone_operation(op)));
    let ghost after = pair_keys(v@);
    assert(after =~= before.insert(i as int, key));
    assert forall|a: int, b: int| 0 <= a < b < after.len() implies key_lt(#[trigger] after[a], #[trigger] after[b]) by {
        if b < i {
        } else if a < i && b == i {
        } else if a < i && b > i {
            assert(after[b] == before[b - 1]);
            lemma_key_lt_order(before[a], key, before[b - 1]);
            if b - 1 > i {
                lemma_key_lt_order(key, before[i as int], before[b - 1]);
            }
        } else if a == i {
            assert(after[b] == before[b - 1]);
            lemma_key_lt_order(before[i as int], key, key);
            if b - 1 > i {
                lemma_key_lt_order(key, before[i as int], before[b - 1]);
            }
        } else {
            assert(after[a] == before[a - 1]);
            assert(after[b] == before[b - 1]);
        }
    }
    assert forall|k: TransitionKey| after.contains(k) <==> (before.contains(k) || k == key) by {
        if after.contains(k) {
            let j = choose|j: int| 0 <= j < after.len() && after[j] == k;
            if j < i {
                assert(before[j] == k);
            } else if j > i {
                assert(before[j - 1] == k);
            }
        }
        if before.contains(k) {
            let j = choose|j: int| 0 <= j < before.len() && before[j] == k;
            if j < i {
                assert(after[j] == k);
            } else {
                assert(after[j + 1] == k);
            }
        }
        if k == key {
            assert(after[i as int] == k);
        }
    }
}

pub proof fn lemma_concat_contains<A>(a: Seq<A>, b: Seq<A>, x: A)
    ensures
        (a + b).contains(x) <==> (a.contains(x) || b.contains(x)),
{
    if a.contains(x) {
        let j = choose|j: int| 0 <= j < a.len() && a[j] == x;
        assert((a + b)[j] == x);
    }
    if b.contains(x) {
        let j = choose|j: int| 0 <= j < b.len() && b[j] == x;
        assert((a + b)[a.len() + j] == x);
    }
    if (a + b).contains(x) {
        let j = choose|j: int| 0 <= j < (a + b).len() && (a + b)[j] == x;
        if j < a.len() {
            assert(a[j] == x);
        } else {
            assert(b[j - a.len()] == x);
        }
    }
}

fn collect_state(v: &mut Vec<(String, WireOperation)>, role: &str, s: &EndpointState)
    requires
        keys_sorted(pair_keys(old(v)@)),
    ensures
        keys_sorted(pair_keys(final(v)@)),
        forall|k: TransitionKey| pair_keys(final(v)@).contains(k) <==> (pair_keys(old(v)@).contains(k) || state_keys(role@, *s).contains(k)),
{
    let ghost start = pair_keys(v@);
    match s {
        EndpointState::Send { id, to, message, .. } => {
            let op = WireOperation::Data { from: role.to_owned(), to: to.clone(), message: message.clone() };
            insert_sorted(v, id.as_str(), &op);
            assert(state_keys(role@, *s)[0] == operation_key(id@, op));
        },
        EndpointState::Receive { id, from, message, .. } => {
            let op = WireOperation::Data { from: from.clone(), to: role.to_owned(), message: message.clone() };
            insert_sorted(v, id.as_str(), &op);
            assert(state_keys(role@, *s)[0] == operation_key(id@, op));
        },
        EndpointState::SendCancel { id, to, scope, .. } => {
            let op = WireOperation::Cancel { from: role.to_owned(), to: to.clone(), scope: scope.clone() };
            insert_sorted(v, id.as_str(), &op);
            assert(state_keys(role@, *s)[0] == operation_key(id@, op));
        },
        EndpointState::ReceiveCancel { id, from, scope, .. } => {
            let op = WireOperation::Cancel { from: from.clone(), to: role.to_owned(), scope: scope.clone() };
            insert_sorted(v, id.as_str(), &op);
            assert(state_keys(role@, *s)[0] == operation_key(id@, op));
        },
        EndpointState::Select { id, branches, .. } => {
            collect_labels(v, id.as_str(), role, branches);
        },
        EndpointState::Branch { id, from, branches, .. } => {
            collect_labels(v, id.as_str(), from.as_str(), branches);
        },
        EndpointState::End { .. } | EndpointState::Fail { .. } => {},
    }
}

/// The selection keys of a state's labels, chosen by `by`.
pub open spec fn label_keys(id: Seq<char>, by: Seq<char>, labels: Seq<Seq<char>>) -> Seq<TransitionKey> {
    labels.map_values(|l: Seq<char>| (id, 1nat, by, l, Seq::<char>::empty()))
}

fn collect_labels(v: &mut Vec<(String, WireOperation)>, id: &str, by: &str, branches: &StrMap)
    requires
        keys_sorted(pair_keys(old(v)@)),
    ensures
        keys_sorted(pair_keys(final(v)@)),
        forall|k: TransitionKey| pair_keys(final(v)@).contains(k) <==> (pair_keys(old(v)@).contains(k) || label_keys(id@, by@, keys_of(branches@)).contains(k)),
{
    let ghost start = pair_keys(v@);
    let ghost all = label_keys(id@, by@, keys_of(branches@));
    let n = branches.len();
    let mut i: usize = 0;
    while i < n
        invariant
            n == branches@.len(),
            all == label_keys(id@, by@, keys_of(branches@)),
            i <= n,
            keys_sorted(pair_keys(v@)),
            forall|k: TransitionKey| pair_keys(v@).contains(k) <==> (start.contains(k) || all.subrange(0, i as int).contains(k)),
        decreases n - i,
    {
        let label = branches.key_at(i).clone();
        let op = WireOperation::Select { by: by.to_owned(), label };
        insert_sorted(v, id, &op);
        let ghost next = all.subrange(0, i + 1);
        proof {
            assert(keys_of(branches@)[i as int] == branches@[i as int].0);
            assert(all[i as int] == operation_key(id@, op));
            assert(next =~= all.subrange(0, i as int).push(all[i as int]));
            assert forall|k: TransitionKey| pair_keys(v@).contains(k) <==> (start.contains(k) || next.contains(k)) by {
                crate::validate::lemma_push_contains_pub(all.subrange(0, i as int), all[i as int], k);
            }
        }
        i = i + 1;
        assert(next == all.subrange(0, i as int));
    }
    assert(all.subrange(0, n as int) =~= all);
}

fn collect_endpoint(v: &mut Vec<(String, WireOperation)>, e: &Endpoint)
    requires
        keys_sorted(pair_keys(old(v)@)),
    ensures
        keys_sorted(pair_keys(final(v)@)),
        forall|k: TransitionKey| pair_keys(final(v)@).contains(k) <==> (pair_keys(old(v)@).contains(k) || endpoint_keys(*e, e.states.len() as nat).contains(k)),
{
    let ghost start = pair_keys(v@);
    let mut i: usize = 0;
    while i < e.states.len()
        invariant
            i <= e.states.len(),
            keys_sorted(pair_keys(v@)),
            forall|k: TransitionKey| pair_keys(v@).contains(k) <==> (start.contains(k) || endpoint_keys(*e, i as nat).contains(k)),
        decreases e.states.len() - i,
    {
        collect_state(v, e.role.as_str(), &e.states[i]);
        let ghost next = endpoint_keys(*e, (i + 1) as nat);
        proof {
            assert(next == endpoint_keys(*e, i as nat) + state_keys(e.role@, e.states@[i as int]));
            assert forall|k: TransitionKey| pair_keys(v@).contains(k) <==> (start.contains(k) || next.contains(k)) by {
                lemma_concat_contains(endpoint_keys(*e, i as nat), state_keys(e.role@, e.states@[i as int]), k);
            }
        }
        i = i + 1;
        assert(next == endpoint_keys(*e, i as nat));
    }
}

/// Builds the compact wire dictionary of the endpoints. It fails when there are more
/// distinct transitions than `u16` ids.
pub fn derive_wire_plan(endpoints: &Vec<Arc<Endpoint>>) -> (r: Result<CompactWirePlan, PlanError>)
    ensures
        match r {
            Ok(w) => is_wire_plan_of(w, endpoints@) && distinct_transition_count(endpoints@) <= 65535,
            Err(e) => distinct_transition_count(endpoints@) > 65535 && (e matches PlanError::Invalid(m)
                && m@ == "compact wire supports at most 65535 semantic transitions"@),
        },
        r matches Ok(w) ==> forall|k: TransitionKey|
            wire_keys(w).contains(k) <==> crate::plan_laws::is_endpoint_transition(endpoints@, k),
{
    let mut v: Vec<(String, WireOperation)> = Vec::new();
    assert(pair_keys(v@) =~= Seq::<TransitionKey>::empty());
    let mut i: usize = 0;
    while i < endpoints.len()
        invariant
            i <= endpoints.len(),
            keys_sorted(pair_keys(v@)),
            forall|k: TransitionKey| pair_keys(v@).contains(k) <==> plan_keys(endpoints@, i as nat).contains(k),
        decreases endpoints.len() - i,
    {
        let e: &Endpoint = &endpoints[i];
        collect_endpoint(&mut v, e);
        proof {
            assert forall|k: TransitionKey| pair_keys(v@).contains(k) <==> plan_keys(endpoints@, (i + 1) as nat).contains(k) by {
                lemma_concat_contains(plan_keys(endpoints@, i as nat), endpoint_keys(*endpoints@[i as int], endpoints@[i as int].states.len() as nat), k);
            }
        }
        i = i + 1;
    }
    let ghost keys = pair_keys(v@);
    proof {
        assert(keys.no_duplicates()) by {
            assert forall|a: int, b: int| 0 <= a < keys.len() && 0 <= b < keys.len() && a != b implies keys[a] != keys[b] by {
                if a < b {
                    lemma_key_lt_order(keys[a], keys[b], keys[b]);
                } else {
                    lemma_key_lt_order(keys[b], keys[a], keys[a]);
                }
            }
        }
        keys.unique_seq_to_set();
        assert(keys.to_set() =~= all_plan_keys(endpoints@).to_set());
        assert(keys.len() == distinct_transition_count(endpoints@));
    }
    let mut transitions: Vec<WireTransition> = Vec::new();
    let mut j: usize = 0;
    while j < v.len()
        invariant
            keys == pair_keys(v@),
            keys.len() == distinct_transition_count(endpoints@),
            keys_sorted(keys),
            forall|k: TransitionKey| keys.contains(k) <==> all_plan_keys(endpoints@).contains(k),
            j <= v.len(),
            j <= 65535,
            transitions.len() == j,
            forall|q: int| 0 <= q < j ==> (#[trigger] transitions@[q]).id == q + 1 && transition_key(transitions@[q]) == keys[q],
        decreases v.len() - j,
    {
        if j >= 65535 {
            return Err(PlanError::Invalid(text_from("compact wire supports at most 65535 semantic transitions")));
        }
        let id: u16 = (j + 1) as u16;
        let state = v[j].0.clone();
        let operation = clone_operation(&v[j].1);
        let t = WireTransition { id, state, operation };
        assert(transition_key(t) == keys[j as int]);
        transitions.push(t);
        j = j + 1;
    }
    let w = CompactWirePlan { encoding: text_from(COMPACT_WIRE_FORMAT), transitions };
    assert(wire_keys(w) =~= keys);
    proof {
        crate::plan_laws::law_wire_plan_holds_every_transition(w, endpoints@);
    }
    Ok(w)
}

/// A character allowed after the first one of an id.
pub open spec fn is_id_char(c: char) -> bool {
    ||| 97 <= c as u32 <= 122
    ||| 48 <= c as u32 <= 57
    ||| c == '_'
    ||| c == '.'
    ||| c == '-'
}

/// An id: a lower-case ASCII letter, then lower-case letters, digits, `_`, `.` or `-`.
pub open spec fn is_valid_id(s: Seq<char>) -> bool {
    &&& s.len() > 0
    &&& 97 <= s[0] as u32 <= 122
    &&& forall|i: int| 1 <= i < s.len() ==> is_id_char(#[trigger] s[i])
}

/// Whether `value` is a valid id.
pub fn valid_id(value: &str) -> (r: bool)
    ensures
        r == is_valid_id(value@),
{
    let v = chars_of(value);
    if v.len() == 0 {
        return false;
    }
    let first = v[0] as u32;
    if !(97 <= first && first <= 122) {
        return false;
    }
    let mut i: usize = 1;
    while i < v.len()
        invariant
            v@ == value@,
            1 <= i <= v.len(),
            forall|j: int| 1 <= j < i ==> is_id_char(#[trigger] v@[j]),
        decreases v.len() - i,
    {
        let c = v[i];
        let n = c as u32;
        if !((97 <= n && n <= 122) || (48 <= n && n <= 57) || c == '_' || c == '.' || c == '-') {
            return false;
        }
        i = i + 1;
    }
    true
}

/// Whether `value` is a `sha256:` identity with a lower-case hex digest.
pub fn valid_sha256(value: &str) -> (r: bool)
    ensures
        r == is_sha256_text(value@),
{
    let v = chars_of(value);
    let prefix = chars_of("sha256:");
    proof {
        reveal_strlit("sha256:");
    }
    if v.len() != 71 {
        return false;
    }
    assert(prefix.len() == 7);
    let mut i: usize = 0;
    while i < 7
        invariant
            v@ == value@,
            prefix@ == "sha256:"@,
            prefix.len() == 7,
            v.len() == 71,
            i <= 7,
            v@.subrange(0, i as int) == prefix@.subrange(0, i as int),
        decreases 7 - i,
    {
        if v[i] != prefix[i] {
            assert(v@.subrange(0, 7)[i as int] != prefix@[i as int]);
            return false;
        }
        assert(v@.subrange(0, i + 1) =~= v@.subrange(0, i as int).push(v@[i as int]));
        assert(prefix@.subrange(0, i + 1) =~= prefix@.subrange(0, i as int).push(prefix@[i as int]));
        i = i + 1;
    }
    assert(prefix@.subrange(0, 7) =~= prefix@);
    while i < 71
        invariant
            v@ == value@,
            v.len() == 71,
            7 <= i <= 71,
            forall|j: int| 7 <= j < i ==> is_lower_hex(#[trigger] v@[j]),
        decreases 71 - i,
    {
        let n = v[i] as u32;
        if !((48 <= n && n <= 57) || (97 <= n && n <= 102)) {
            return false;
        }
        i = i + 1;
    }
    true
}

/// The ids of endpoint states, in order.
pub open spec fn endpoint_state_ids(states: Seq<EndpointState>) -> Seq<Seq<char>> {
    states.map_values(|s: EndpointState| endpoint_id(s))
}

/// The first of `targets` that is not among `known`.
pub open spec fn first_absent(targets: Seq<Seq<char>>, known: Seq<Seq<char>>) -> Option<Seq<char>>
    decreases targets.len(),
{
    if targets.len() == 0 {
        None
    } else if !known.contains(targets[0]) {
        Some(targets[0])
    } else {
        first_absent(targets.drop_first(), known)
    }
}

/// What is wrong with one state of the endpoint of `role`, if anything: an invalid id,
/// then the first target that is not a state, then a peer that is not a role.
pub open spec fn state_problem(
    role: Seq<char>,
    ids: Seq<Seq<char>>,
    roles: Seq<Seq<char>>,
    s: EndpointState,
) -> Option<Seq<char>> {
    let id = endpoint_id(s);
    if !is_valid_id(id) {
        Some("endpoint "@ + role + " contains invalid state ID "@ + id)
    } else {
        match first_absent(crate::projection::endpoint_successors(s), ids) {
            Some(t) => Some("endpoint "@ + role + " state "@ + id + " targets unknown state "@ + t),
            None => match crate::projection::endpoint_peer(s) {
                Some(p) => if roles.contains(p) {
                    None
                } else {
                    Some("endpoint "@ + role + " state "@ + id + " references unknown role "@ + p)
                },
                None => None,
            },
        }
    }
}

/// The problem of the first state that has one.
pub open spec fn states_problem(
    role: Seq<char>,
    ids: Seq<Seq<char>>,
    roles: Seq<Seq<char>>,
    states: Seq<EndpointState>,
) -> Option<Seq<char>>
    decreases states.len(),
{
    if states.len() == 0 {
        None
    } else {
        match state_problem(role, ids, roles, states[0]) {
            Some(m) => Some(m),
            None => states_problem(role, ids, roles, states.drop_first()),
        }
    }
}

/// Why an endpoint of a plan for `conversation`, among endpoints of `roles`, cannot be
/// used, checked in this order: its format, its role and initial ids, its
/// conversation, that it has states, that their ids are unique, that the initial state
/// exists, and then each state.
pub open spec fn endpoint_problem(e: Endpoint, conversation: Seq<char>, roles: Seq<Seq<char>>) -> Option<Seq<char>> {
    let role = e.role@;
    let ids = endpoint_state_ids(e.states@);
    if e.eve_endpoint@ != ENDPOINT_FORMAT@ {
        Some("endpoint "@ + role + " uses unsupported format "@ + e.eve_endpoint@)
    } else if !is_valid_id(role) || !is_valid_id(e.initial@) {
        Some("endpoint "@ + role + " has an invalid role or initial state ID"@)
    } else if e.conversation@ != conversation {
        Some("endpoint "@ + role + " names conversation "@ + e.conversation@ + "; expected "@ + conversation)
    } else if e.states.len() == 0 {
        Some("endpoint "@ + role + " has no states"@)
    } else if !ids.no_duplicates() {
        Some("endpoint "@ + role + " contains duplicate state IDs"@)
    } else if !ids.contains(e.initial@) {
        Some("endpoint "@ + role + " initial state "@ + e.initial@ + " does not exist"@)
    } else {
        states_problem(role, ids, roles, e.states@)
    }
}

/// The states an endpoint state may move to: the continuation or branch targets, then
/// the failure targets.
fn endpoint_successors(state: &EndpointState) -> (r: Vec<&str>)
    ensures
        str_views(r@) == crate::projection::endpoint_successors(*state),
{
    let mut r: Vec<&str> = Vec::new();
    assert(str_views(r@) =~= Seq::<Seq<char>>::empty());
    match state {
        EndpointState::Send { next, on_failure, .. }
        | EndpointState::Receive { next, on_failure, .. }
        | EndpointState::SendCancel { next, on_failure, .. }
        | EndpointState::ReceiveCancel { next, on_failure, .. } => {
            r.push(next.as_str());
            assert(str_views(r@) =~= seq![next@]);
            push_values(&mut r, on_failure);
        },
        EndpointState::Select { branches, on_failure, .. }
        | EndpointState::Branch { branches, on_failure, .. } => {
            push_values(&mut r, branches);
            assert(str_views(r@) =~= Seq::<Seq<char>>::empty() + values_of(branches@));
            push_values(&mut r, on_failure);
        },
        EndpointState::End { .. } | EndpointState::Fail { .. } => {},
    }
    r
}

/// The role an endpoint state exchanges with, if any.
fn endpoint_peer(state: &EndpointState) -> (r: Option<&str>)
    ensures
        match r {
            Some(p) => crate::projection::endpoint_peer(*state) == Some(p@),
            None => crate::projection::endpoint_peer(*state) is None,
        },
{
    match state {
        EndpointState::Send { to, .. } | EndpointState::SendCancel { to, .. } => Some(to.as_str()),
        EndpointState::Receive { from, .. }
        | EndpointState::Branch { from, .. }
        | EndpointState::ReceiveCancel { from, .. } => Some(from.as_str()),
        EndpointState::Select { .. } | EndpointState::End { .. } | EndpointState::Fail { .. } => None,
    }
}

/// Whether two of the ids are the same.
fn has_duplicate(ids: &Vec<&str>) -> (r: bool)
    ensures
        r == !str_views(ids@).no_duplicates(),
{
    let ghost views = str_views(ids@);
    let mut i: usize = 0;
    while i < ids.len()
        invariant
            views == str_views(ids@),
            i <= ids.len(),
            forall|a: int, b: int| 0 <= a < b < i ==> views[a] != views[b],
        decreases ids.len() - i,
    {
        let mut j: usize = 0;
        while j < i
            invariant
                views == str_views(ids@),
                i < ids.len(),
                j <= i,
                forall|a: int, b: int| 0 <= a < b < i ==> views[a] != views[b],
                forall|a: int| 0 <= a < j ==> views[a] != views[i as int],
            decreases i - j,
        {
            if same_text(ids[j], ids[i]) {
                assert(views[j as int] == views[i as int]);
                return true;
            }
            j = j + 1;
        }
        i = i + 1;
    }
    false
}

/// The first target that is not among `known`.
fn first_unknown<'a>(targets: &Vec<&'a str>, known: &Vec<&str>) -> (r: Option<&'a str>)
    ensures
        match r {
            Some(t) => first_absent(str_views(targets@), str_views(known@)) == Some(t@),
            None => first_absent(str_views(targets@), str_views(known@)) is None,
        },
{
    let ghost all = str_views(targets@);
    let ghost k = str_views(known@);
    let mut i: usize = 0;
    assert(all.skip(0) =~= all);
    while i < targets.len()
        invariant
            all == str_views(targets@),
            k == str_views(known@),
            i <= targets.len(),
            first_absent(all, k) == first_absent(all.skip(i as int), k),
        decreases targets.len() - i,
    {
        assert(all.skip(i as int)[0] == targets@[i as int]@);
        if !contains_str(known, targets[i]) {
            return Some(targets[i]);
        }
        assert(all.skip(i as int).drop_first() =~= all.skip(i + 1));
        i = i + 1;
    }
    None
}

/// What is wrong with one state, if anything.
fn check_endpoint_state(role: &str, ids: &Vec<&str>, roles: &Vec<&str>, s: &EndpointState) -> (r: Option<String>)
    ensures
        opt_text(r) == state_problem(role@, str_views(ids@), str_views(roles@), *s),
{
    let id = s.id();
    if !valid_id(id) {
        let mut m = text_from("endpoint ");
        push_text(&mut m, role);
        push_text(&mut m, " contains invalid state ID ");
        push_text(&mut m, id);
        return Some(m);
    }
    let targets = endpoint_successors(s);
    match first_unknown(&targets, ids) {
        Some(t) => {
            let mut m = text_from("endpoint ");
            push_text(&mut m, role);
            push_text(&mut m, " state ");
            push_text(&mut m, id);
            push_text(&mut m, " targets unknown state ");
            push_text(&mut m, t);
            return Some(m);
        },
        None => {},
    }
    match endpoint_peer(s) {
        Some(p) => {
            if contains_str(roles, p) {
                None
            } else {
                let mut m = text_from("endpoint ");
                push_text(&mut m, role);
                push_text(&mut m, " state ");
                push_text(&mut m, id);
                push_text(&mut m, " references unknown role ");
                push_text(&mut m, p);
                Some(m)
            }
        },
        None => None,
    }
}

fn invalid(m: String) -> (r: Result<(), PlanError>)
    ensures
        r matches Err(PlanError::Invalid(x)) && x@ == m@,
{
    Err(PlanError::Invalid(m))
}

/// Checks one endpoint of a plan for `conversation` whose endpoints have the roles
/// `roles`.
fn verify_endpoint(endpoint: &Endpoint, conversation: &str, roles: &Vec<&str>) -> (r: Result<(), PlanError>)
    ensures
        match endpoint_problem(*endpoint, conversation@, str_views(roles@)) {
            None => r is Ok,
            Some(m) => r matches Err(PlanError::Invalid(x)) && x@ == m,
        },
{
    let role = endpoint.role.as_str();
    if !same_text(endpoint.eve_endpoint.as_str(), ENDPOINT_FORMAT) {
        let mut m = text_from("endpoint ");
        push_text(&mut m, role);
        push_text(&mut m, " uses unsupported format ");
        push_text(&mut m, endpoint.eve_endpoint.as_str());
        return invalid(m);
    }
    if !valid_id(role) || !valid_id(endpoint.initial.as_str()) {
        let mut m = text_from("endpoint ");
        push_text(&mut m, role);
        push_text(&mut m, " has an invalid role or initial state ID");
        return invalid(m);
    }
    if !same_text(endpoint.conversation.as_str(), conversation) {
        let mut m = text_from("endpoint ");
        push_text(&mut m, role);
        push_text(&mut m, " names conversation ");
        push_text(&mut m, endpoint.conversation.as_str());
        push_text(&mut m, "; expected ");
        push_text(&mut m, conversation);
        return invalid(m);
    }
    if endpoint.states.len() == 0 {
        let mut m = text_from("endpoint ");
        push_text(&mut m, role);
        push_text(&mut m, " has no states");
        return invalid(m);
    }
    let mut ids: Vec<&str> = Vec::new();
    let mut i: usize = 0;
    while i < endpoint.states.len()
        invariant
            i <= endpoint.states.len(),
            str_views(ids@) == endpoint_state_ids(endpoint.states@).subrange(0, i as int),
        decreases endpoint.states.len() - i,
    {
        let ghost before = ids@;
        ids.push(endpoint.states[i].id());
        assert(str_views(ids@) =~= str_views(before).push(endpoint_id(endpoint.states@[i as int])));
        assert(endpoint_state_ids(endpoint.states@).subrange(0, i + 1) =~= endpoint_state_ids(endpoint.states@).subrange(0, i as int).push(endpoint_id(endpoint.states@[i as int])));
        i = i + 1;
    }
    assert(endpoint_state_ids(endpoint.states@).subrange(0, i as int) =~= endpoint_state_ids(endpoint.states@));
    if has_duplicate(&ids) {
        let mut m = text_from("endpoint ");
        push_text(&mut m, role);
        push_text(&mut m, " contains duplicate state IDs");
        return invalid(m);
    }
    if !contains_str(&ids, endpoint.initial.as_str()) {
        let mut m = text_from("endpoint ");
        push_text(&mut m, role);
        push_text(&mut m, " initial state ");
        push_text(&mut m, endpoint.initial.as_str());
        push_text(&mut m, " does not exist");
        return invalid(m);
    }
    let ghost all = endpoint.states@;
    let ghost idv = str_views(ids@);
    let ghost rv = str_views(roles@);
    let mut i: usize = 0;
    assert(all.skip(0) =~= all);
    assert(endpoint_problem(*endpoint, conversation@, rv) == states_problem(role@, idv, rv, all));
    while i < endpoint.states.len()
        invariant
            endpoint_problem(*endpoint, conversation@, rv) == states_problem(role@, idv, rv, all),
            all == endpoint.states@,
            idv == str_views(ids@),
            rv == str_views(roles@),
            i <= all.len(),
            states_problem(role@, idv, rv, all) == states_problem(role@, idv, rv, all.skip(i as int)),
        decreases all.len() - i,
    {
        assert(all.skip(i as int)[0] == all[i as int]);
        match check_endpoint_state(role, &ids, roles, &endpoint.states[i]) {
            Some(m) => {
                return invalid(m);
            },
            None => {},
        }
        assert(all.skip(i as int).drop_first() =~= all.skip(i + 1));
        i = i + 1;
    }
    Ok(())
}

/// The endpoint behind a shared handle.
pub open spec fn shared_value(a: Arc<Endpoint>) -> Endpoint {
    *a
}

/// Every state an endpoint can move to, and its initial state, is one of its states.
pub open spec fn endpoint_is_closed(e: Endpoint) -> bool {
    let ids = endpoint_state_ids(e.states@);
    &&& ids.contains(e.initial@)
    &&& forall|i: int, k: int|
        0 <= i < e.states.len() && 0 <= k < crate::projection::endpoint_successors(e.states@[i]).len()
            ==> ids.contains(#[trigger] crate::projection::endpoint_successors(e.states@[i])[k])
}

proof fn lemma_first_absent_none(targets: Seq<Seq<char>>, known: Seq<Seq<char>>)
    requires
        first_absent(targets, known) is None,
    ensures
        forall|k: int| 0 <= k < targets.len() ==> known.contains(#[trigger] targets[k]),
    decreases targets.len(),
{
    if targets.len() > 0 {
        lemma_first_absent_none(targets.drop_first(), known);
        assert forall|k: int| 0 <= k < targets.len() implies known.contains(#[trigger] targets[k]) by {
            if k > 0 {
                assert(targets[k] == targets.drop_first()[k - 1]);
            }
        }
    }
}

proof fn lemma_states_problem_none(
    role: Seq<char>,
    ids: Seq<Seq<char>>,
    roles: Seq<Seq<char>>,
    states: Seq<EndpointState>,
)
    requires
        states_problem(role, ids, roles, states) is None,
    ensures
        forall|i: int| 0 <= i < states.len() ==> (#[trigger] state_problem(role, ids, roles, states[i])) is None,
    decreases states.len(),
{
    if states.len() > 0 {
        lemma_states_problem_none(role, ids, roles, states.drop_first());
        assert forall|i: int| 0 <= i < states.len() implies (#[trigger] state_problem(role, ids, roles, states[i])) is None by {
            if i > 0 {
                assert(states[i] == states.drop_first()[i - 1]);
            }
        }
    }
}

/// An endpoint without problems is closed.
proof fn lemma_sound_endpoint_closed(e: Endpoint, conversation: Seq<char>, roles: Seq<Seq<char>>)
    requires
        endpoint_problem(e, conversation, roles) is None,
    ensures
        endpoint_is_closed(e),
{
    let ids = endpoint_state_ids(e.states@);
    lemma_states_problem_none(e.role@, ids, roles, e.states@);
    assert forall|i: int, k: int|
        0 <= i < e.states.len() && 0 <= k < crate::projection::endpoint_successors(e.states@[i]).len()
        implies ids.contains(#[trigger] crate::projection::endpoint_successors(e.states@[i])[k]) by {
        assert(state_problem(e.role@, ids, roles, e.states@[i]) is None);
        lemma_first_absent_none(crate::projection::endpoint_successors(e.states@[i]), ids);
    }
}

proof fn lemma_endpoints_problem_none(eps: Seq<Arc<Endpoint>>, conversation: Seq<char>, roles: Seq<Seq<char>>)
    requires
        endpoints_problem(eps, conversation, roles) is None,
    ensures
        forall|i: int| 0 <= i < eps.len() ==> endpoint_is_closed(*#[trigger] eps[i]),
    decreases eps.len(),
{
    if eps.len() > 0 {
        lemma_endpoints_problem_none(eps.drop_first(), conversation, roles);
        lemma_sound_endpoint_closed(shared_value(eps[0]), conversation, roles);
        assert forall|i: int| 0 <= i < eps.len() implies endpoint_is_closed(*#[trigger] eps[i]) by {
            if i > 0 {
                assert(eps[i] == eps.drop_first()[i - 1]);
            }
        }
    }
}

/// Every endpoint of a plan that passes its checks is closed.
pub proof fn lemma_sound_plan_closed(p: EvePlan)
    requires
        plan_is_sound(p),
    ensures
        forall|i: int| 0 <= i < p.endpoints.len() ==> endpoint_is_closed(*#[trigger] p.endpoints@[i]),
{
    lemma_endpoints_problem_none(p.endpoints@, p.conversation@, plan_roles(p.endpoints@));
}

/// The members a wire operation adds to its transition's object: the `op` tag, then
/// its fields.
pub open spec fn wire_operation_json(op: WireOperation) -> Seq<char> {
    match op {
        WireOperation::Data { from, to, message } => "\"op\":\"data\",\"from\":"@ + json_string(from@)
            + ",\"to\":"@ + json_string(to@) + ",\"message\":"@ + json_string(message@),
        WireOperation::Select { by, label } => "\"op\":\"select\",\"by\":"@ + json_string(by@)
            + ",\"label\":"@ + json_string(label@),
        WireOperation::Cancel { from, to, scope } => "\"op\":\"cancel\",\"from\":"@ + json_string(
            from@,
        ) + ",\"to\":"@ + json_string(to@) + ",\"scope\":"@ + json_string(scope@),
    }
}

pub open spec fn wire_transition_json(t: WireTransition) -> Seq<char> {
    "{\"id\":"@ + decimal(t.id as nat) + ",\"state\":"@ + json_string(t.state@) + ","@
        + wire_operation_json(t.operation) + "}"@
}

pub open spec fn wire_transitions_items(v: Seq<WireTransition>) -> Seq<Seq<char>> {
    v.map_values(|t: WireTransition| wire_transition_json(t))
}

pub open spec fn wire_plan_json(w: CompactWirePlan) -> Seq<char> {
    "{\"encoding\":"@ + json_string(w.encoding@) + ",\"transitions\":"@ + json_array(
        wire_transitions_items(w.transitions@),
    ) + "}"@
}

fn wire_operation_text(op: &WireOperation) -> (r: String)
    ensures
        r@ == wire_operation_json(*op),
{
    match op {
        WireOperation::Data { from, to, message } => {
            let mut out = text_from("\"op\":\"data\",\"from\":");
            push_json_string(&mut out, from.as_str());
            push_text(&mut out, ",\"to\":");
            push_json_string(&mut out, to.as_str());
            push_text(&mut out, ",\"message\":");
            push_json_string(&mut out, message.as_str());
            out
        },
        WireOperation::Select { by, label } => {
            let mut out = text_from("\"op\":\"select\",\"by\":");
            push_json_string(&mut out, by.as_str());
            push_text(&mut out, ",\"label\":");
            push_json_string(&mut out, label.as_str());
            out
        },
        WireOperation::Cancel { from, to, scope } => {
            let mut out = text_from("\"op\":\"cancel\",\"from\":");
            push_json_string(&mut out, from.as_str());
            push_text(&mut out, ",\"to\":");
            push_json_string(&mut out, to.as_str());
            push_text(&mut out, ",\"scope\":");
            push_json_string(&mut out, scope.as_str());
            out
        },
    }
}

fn wire_transition_text(t: &WireTransition) -> (r: String)
    ensures
        r@ == wire_transition_json(*t),
{
    let mut out = text_from("{\"id\":");
    push_decimal(&mut out, t.id as u64);
    push_text(&mut out, ",\"state\":");
    push_json_string(&mut out, t.state.as_str());
    push_text(&mut out, ",");
    push_text(&mut out, wire_operation_text(&t.operation).as_str());
    push_text(&mut out, "}");
    out
}

/// The JSON text of a compact wire dictionary.
pub fn wire_plan_text(w: &CompactWirePlan) -> (r: String)
    ensures
        r@ == wire_plan_json(*w),
{
    let v = &w.transitions;
    let ghost items = wire_transitions_items(v@);
    let mut list = text_from("[");
    let mut i: usize = 0;
    while i < v.len()
        invariant
            items == wire_transitions_items(v@),
            i <= v.len(),
            list@ == "["@ + join_with(items.subrange(0, i as int), ","@),
        decreases v.len() - i,
    {
        proof {
            lemma_join_push(items.subrange(0, i as int), items[i as int], ","@);
            assert(items.subrange(0, i + 1) =~= items.subrange(0, i as int).push(items[i as int]));
        }
        if i > 0 {
            push_text(&mut list, ",");
        }
        let item = wire_transition_text(&v[i]);
        push_text(&mut list, item.as_str());
        i = i + 1;
    }
    assert(items.subrange(0, v.len() as int) =~= items);
    push_text(&mut list, "]");
    let mut out = text_from("{\"encoding\":");
    push_json_string(&mut out, w.encoding.as_str());
    push_text(&mut out, ",\"transitions\":");
    push_text(&mut out, list.as_str());
    push_text(&mut out, "}");
    out
}

/// A validated conversation projected into immutable endpoint machines, with the
/// semantic identities that let a reader check it before use.
#[derive(Debug, Clone)]
pub struct EvePlan {
    pub eve_plan: String,
    pub conversation: String,
    pub conversation_identity: String,
    pub plan_identity: String,
    pub endpoints: Vec<Arc<Endpoint>>,
    pub wire: Option<CompactWirePlan>,
}

pub open spec fn plan_endpoints_items(eps: Seq<Arc<Endpoint>>) -> Seq<Seq<char>> {
    eps.map_values(|e: Arc<Endpoint>| endpoint_json(*e))
}

/// The semantic form of a plan: everything but its own identity; the wire dictionary is
/// left out when absent.
pub open spec fn semantic_plan_json(p: EvePlan) -> Seq<char> {
    "{\"eve_plan\":"@ + json_string(p.eve_plan@) + ",\"conversation\":"@ + json_string(
        p.conversation@,
    ) + ",\"conversation_identity\":"@ + json_string(p.conversation_identity@)
        + ",\"endpoints\":"@ + json_array(plan_endpoints_items(p.endpoints@)) + wire_member_json(p.wire)
        + "}"@
}

pub open spec fn wire_member_json(w: Option<CompactWirePlan>) -> Seq<char> {
    match w {
        Some(w) => ",\"wire\":"@ + wire_plan_json(w),
        None => Seq::empty(),
    }
}

/// The identity a plan's semantic form has.
pub open spec fn plan_identity_of(p: EvePlan) -> Seq<char> {
    text_identity_of(semantic_plan_json(p))
}

#[verifier::spinoff_prover]
fn endpoints_text(eps: &Vec<Arc<Endpoint>>) -> (r: String)
    ensures
        r@ == json_array(plan_endpoints_items(eps@)),
{
    let ghost items = plan_endpoints_items(eps@);
    let mut out = text_from("[");
    let mut i: usize = 0;
    while i < eps.len()
        invariant
            items == plan_endpoints_items(eps@),
            i <= eps.len(),
            out@ == "["@ + join_with(items.subrange(0, i as int), ","@),
        decreases eps.len() - i,
    {
        proof {
            lemma_join_push(items.subrange(0, i as int), items[i as int], ","@);
            assert(items.subrange(0, i + 1) =~= items.subrange(0, i as int).push(items[i as int]));
        }
        if i > 0 {
            push_text(&mut out, ",");
        }
        let e: &Endpoint = &eps[i];
        let item = endpoint_text(e);
        assert(item@ == items[i as int]);
        push_text(&mut out, item.as_str());
        i = i + 1;
    }
    assert(items.subrange(0, eps.len() as int) =~= items);
    push_text(&mut out, "]");
    out
}

fn wire_member_text(w: &Option<CompactWirePlan>) -> (r: String)
    ensures
        r@ == wire_member_json(*w),
{
    match w {
        Some(w) => {
            let mut out = text_from(",\"wire\":");
            push_text(&mut out, wire_plan_text(w).as_str());
            out
        },
        None => {
            proof {
                reveal_strlit("");
            }
            text_from("")
        },
    }
}

/// The semantic JSON text of a plan.
pub fn semantic_plan_text(p: &EvePlan) -> (r: String)
    ensures
        r@ == semantic_plan_json(*p),
{
    let mut out = text_from("{\"eve_plan\":");
    push_json_string(&mut out, p.eve_plan.as_str());
    push_text(&mut out, ",\"conversation\":");
    push_json_string(&mut out, p.conversation.as_str());
    push_text(&mut out, ",\"conversation_identity\":");
    push_json_string(&mut out, p.conversation_identity.as_str());
    push_text(&mut out, ",\"endpoints\":");
    push_text(&mut out, endpoints_text(&p.endpoints).as_str());
    push_text(&mut out, wire_member_text(&p.wire).as_str());
    push_text(&mut out, "}");
    out
}

/// Calls `Arc::clone`, which hands out another pointer to the same value.
#[verifier::external_body]
pub(crate) fn share<T>(a: &Arc<T>) -> (r: Arc<T>)
    ensures
        r == *a,
{
    Arc::clone(a)
}

fn share_endpoints(eps: &Vec<Arc<Endpoint>>) -> (r: Vec<Arc<Endpoint>>)
    ensures
        r@ == eps@,
{
    let mut r: Vec<Arc<Endpoint>> = Vec::new();
    let mut i: usize = 0;
    while i < eps.len()
        invariant
            i <= eps.len(),
            r@ == eps@.subrange(0, i as int),
        decreases eps.len() - i,
    {
        r.push(share(&eps[i]));
        assert(r@ =~= eps@.subrange(0, i + 1));
        i = i + 1;
    }
    assert(r@ =~= eps@);
    r
}

fn clone_wire_plan(w: &CompactWirePlan) -> (r: CompactWirePlan)
    ensures
        r.encoding == w.encoding,
        r.transitions@ == w.transitions@,
{
    let mut transitions: Vec<WireTransition> = Vec::new();
    let mut i: usize = 0;
    while i < w.transitions.len()
        invariant
            i <= w.transitions.len(),
            transitions@ == w.transitions@.subrange(0, i as int),
        decreases w.transitions.len() - i,
    {
        let t = &w.transitions[i];
        transitions.push(WireTransition { id: t.id, state: t.state.clone(), operation: clone_operation(&t.operation) });
        assert(transitions@ =~= w.transitions@.subrange(0, i + 1));
        i = i + 1;
    }
    assert(transitions@ =~= w.transitions@);
    CompactWirePlan { encoding: w.encoding.clone(), transitions }
}

impl EvePlan {
    /// The identity of the plan's semantic form.
    pub fn calculate_identity(&self) -> (r: Result<String, PlanError>)
        ensures
            r matches Ok(id) && id@ == plan_identity_of(*self),
    {
        let text = semantic_plan_text(self);
        Ok(text_identity(text.as_str()))
    }
}

/// Two strictly sorted key lists with the same members are the same list.
pub proof fn lemma_sorted_keys_unique(a: Seq<TransitionKey>, b: Seq<TransitionKey>)
    requires
        keys_sorted(a),
        keys_sorted(b),
        forall|k: TransitionKey| a.contains(k) <==> b.contains(k),
    ensures
        a == b,
    decreases a.len(),
{
    if a.len() == 0 {
        if b.len() > 0 {
            assert(b.contains(b[0]));
        }
        assert(a =~= b);
    } else {
        assert(a.contains(a[0]));
        let j = choose|j: int| 0 <= j < b.len() && b[j] == a[0];
        assert(b.contains(b[0]));
        let i = choose|i: int| 0 <= i < a.len() && a[i] == b[0];
        if j > 0 {
            assert(key_lt(b[0], b[j]));
            if i > 0 {
                assert(key_lt(a[0], a[i]));
                lemma_key_lt_order(a[0], a[i], a[0]);
            } else {
                lemma_key_lt_order(a[0], a[0], a[0]);
            }
        }
        assert(a[0] == b[0]);
        let a1 = a.drop_first();
        let b1 = b.drop_first();
        assert forall|k: TransitionKey| a1.contains(k) <==> b1.contains(k) by {
            if a1.contains(k) {
                let x = choose|x: int| 0 <= x < a1.len() && a1[x] == k;
                assert(a[x + 1] == k);
                assert(key_lt(a[0], a[x + 1]));
                lemma_key_lt_order(a[0], a[0], a[0]);
                assert(a.contains(k));
                let y = choose|y: int| 0 <= y < b.len() && b[y] == k;
                assert(y != 0);
                assert(b1[y - 1] == k);
            }
            if b1.contains(k) {
                let x = choose|x: int| 0 <= x < b1.len() && b1[x] == k;
                assert(b[x + 1] == k);
                assert(key_lt(b[0], b[x + 1]));
                lemma_key_lt_order(b[0], b[0], b[0]);
                assert(b.contains(k));
                let y = choose|y: int| 0 <= y < a.len() && a[y] == k;
                assert(y != 0);
                assert(a1[y - 1] == k);
            }
        }
        assert(keys_sorted(a1)) by {
            assert forall|x: int, y: int| 0 <= x < y < a1.len() implies key_lt(#[trigger] a1[x], #[trigger] a1[y]) by {
                assert(a1[x] == a[x + 1] && a1[y] == a[y + 1]);
            }
        }
        assert(keys_sorted(b1)) by {
            assert forall|x: int, y: int| 0 <= x < y < b1.len() implies key_lt(#[trigger] b1[x], #[trigger] b1[y]) by {
                assert(b1[x] == b[x + 1] && b1[y] == b[y + 1]);
            }
        }
        lemma_sorted_keys_unique(a1, b1);
        assert(a =~= b) by {
            assert forall|x: int| 0 <= x < a.len() implies a[x] == b[x] by {
                if x > 0 {
                    assert(a[x] == a1[x - 1]);
                    assert(b[x] == b1[x - 1]);
                }
            }
        }
    }
}

/// The ids of a dictionary's transitions, in order.
pub open spec fn wire_ids(w: CompactWirePlan) -> Seq<u16> {
    w.transitions@.map_values(|t: WireTransition| t.id)
}

/// Two dictionaries hold the same encoding and the same transitions, in order.
pub open spec fn same_wire_plan(a: CompactWirePlan, b: CompactWirePlan) -> bool {
    &&& a.encoding@ == b.encoding@
    &&& wire_ids(a) == wire_ids(b)
    &&& wire_keys(a) == wire_keys(b)
}

/// The dictionary of a set of endpoints is unique: another dictionary is the same as
/// it exactly when it is also a dictionary of those endpoints.
pub proof fn lemma_wire_plan_unique(w: CompactWirePlan, expected: CompactWirePlan, eps: Seq<Arc<Endpoint>>)
    requires
        is_wire_plan_of(expected, eps),
    ensures
        same_wire_plan(w, expected) <==> is_wire_plan_of(w, eps),
{
    if is_wire_plan_of(w, eps) {
        lemma_sorted_keys_unique(wire_keys(w), wire_keys(expected));
        assert(wire_ids(w) =~= wire_ids(expected));
    }
    if same_wire_plan(w, expected) {
        assert forall|i: int| 0 <= i < w.transitions.len() implies #[trigger] w.transitions@[i].id == i + 1 by {
            assert(wire_ids(w).len() == w.transitions.len());
            assert(wire_ids(expected).len() == expected.transitions.len());
            assert(wire_ids(w)[i] == wire_ids(expected)[i]);
            assert(expected.transitions@[i].id == i + 1);
        }
    }
}

fn wire_plans_match(a: &CompactWirePlan, b: &CompactWirePlan) -> (r: bool)
    ensures
        r == same_wire_plan(*a, *b),
{
    if !same_text(a.encoding.as_str(), b.encoding.as_str()) || a.transitions.len() != b.transitions.len() {
        assert(a.encoding@ != b.encoding@ || wire_ids(*a).len() != wire_ids(*b).len());
        return false;
    }
    let mut i: usize = 0;
    while i < a.transitions.len()
        invariant
            a.transitions.len() == b.transitions.len(),
            i <= a.transitions.len(),
            forall|j: int| 0 <= j < i ==> wire_ids(*a)[j] == wire_ids(*b)[j] && wire_keys(*a)[j] == wire_keys(*b)[j],
        decreases a.transitions.len() - i,
    {
        let s = &a.transitions[i];
        let t = &b.transitions[i];
        if s.id != t.id || !pair_same(s.state.as_str(), &s.operation, t.state.as_str(), &t.operation) {
            assert(wire_ids(*a)[i as int] != wire_ids(*b)[i as int] || wire_keys(*a)[i as int] != wire_keys(*b)[i as int]);
            return false;
        }
        i = i + 1;
    }
    assert(wire_ids(*a) =~= wire_ids(*b));
    assert(wire_keys(*a) =~= wire_keys(*b));
    true
}

/// The dictionary numbers its transitions from one, in order.
pub open spec fn wire_ids_dense(w: CompactWirePlan) -> bool {
    forall|i: int| 0 <= i < w.transitions.len() ==> (#[trigger] w.transitions@[i]).id == i + 1
}

/// The roles of endpoints, in order.
pub open spec fn plan_roles(eps: Seq<Arc<Endpoint>>) -> Seq<Seq<char>> {
    eps.map_values(|e: Arc<Endpoint>| e.role@)
}

/// The problem of the first endpoint that has one.
pub open spec fn endpoints_problem(eps: Seq<Arc<Endpoint>>, conversation: Seq<char>, roles: Seq<Seq<char>>) -> Option<Seq<char>>
    decreases eps.len(),
{
    if eps.len() == 0 {
        None
    } else {
        match endpoint_problem(*eps[0], conversation, roles) {
            Some(m) => Some(m),
            None => endpoints_problem(eps.drop_first(), conversation, roles),
        }
    }
}

/// `r` fails with `PlanError::Invalid(m)`.
pub open spec fn invalid_with<T>(r: Result<T, PlanError>, m: Seq<char>) -> bool {
    r matches Err(PlanError::Invalid(x)) && x@ == m
}

/// What checking a plan answers, in the order of the checks: its format, its
/// conversation id and identity, that it has two endpoints with distinct roles, each
/// endpoint, its declared identity, and then a wire dictionary it carries, which must be
/// the one its endpoints give.
pub open spec fn verify_outcome(p: EvePlan, r: Result<(), PlanError>) -> bool {
    if p.eve_plan@ != PLAN_FORMAT@ {
        r matches Err(PlanError::Version { actual, expected }) && actual@ == p.eve_plan@ && expected == PLAN_FORMAT
    } else if !is_valid_id(p.conversation@) || !is_sha256_text(p.conversation_identity@) {
        invalid_with(r, "conversation or conversation_identity has an invalid representation"@)
    } else if p.endpoints.len() != 2 {
        invalid_with(r, "Eve Plan v0 requires exactly two endpoints"@)
    } else if !plan_roles(p.endpoints@).no_duplicates() {
        invalid_with(r, "endpoint roles must be unique"@)
    } else {
        match endpoints_problem(p.endpoints@, p.conversation@, plan_roles(p.endpoints@)) {
            Some(m) => invalid_with(r, m),
            None => if p.plan_identity@ != plan_identity_of(p) {
                r matches Err(PlanError::IdentityMismatch { declared, calculated }) && declared@
                    == p.plan_identity@ && calculated@ == plan_identity_of(p)
            } else {
                match p.wire {
                    None => r is Ok,
                    Some(w) => if distinct_transition_count(p.endpoints@) > 65535 {
                        invalid_with(r, "compact wire supports at most 65535 semantic transitions"@)
                    } else if !is_wire_plan_of(w, p.endpoints@) {
                        invalid_with(r, "compact wire transition table is not the deterministic projection"@)
                    } else {
                        r is Ok
                    },
                }
            },
        }
    }
}

/// A plan that passes its checks.
pub open spec fn plan_is_sound(p: EvePlan) -> bool {
    verify_outcome(p, Ok(()))
}

fn plan_role_list(eps: &Vec<Arc<Endpoint>>) -> (r: Vec<&str>)
    ensures
        str_views(r@) == plan_roles(eps@),
{
    let mut r: Vec<&str> = Vec::new();
    let mut i: usize = 0;
    while i < eps.len()
        invariant
            i <= eps.len(),
            str_views(r@) == plan_roles(eps@).subrange(0, i as int),
        decreases eps.len() - i,
    {
        let ghost before = r@;
        r.push(eps[i].role.as_str());
        assert(str_views(r@) =~= str_views(before).push(eps@[i as int].role@));
        assert(plan_roles(eps@).subrange(0, i + 1) =~= plan_roles(eps@).subrange(0, i as int).push(eps@[i as int].role@));
        i = i + 1;
    }
    assert(plan_roles(eps@).subrange(0, i as int) =~= plan_roles(eps@));
    r
}

impl EvePlan {
    /// Checks a plan, for instance one that was read back, before it is used.
    pub fn verify(&self) -> (r: Result<(), PlanError>)
        ensures
            verify_outcome(*self, r),
    {
        if !same_text(self.eve_plan.as_str(), PLAN_FORMAT) {
            return Err(PlanError::Version { actual: self.eve_plan.clone(), expected: PLAN_FORMAT });
        }
        if !valid_id(self.conversation.as_str()) || !valid_sha256(self.conversation_identity.as_str()) {
            return invalid(text_from("conversation or conversation_identity has an invalid representation"));
        }
        if self.endpoints.len() != 2 {
            return invalid(text_from("Eve Plan v0 requires exactly two endpoints"));
        }
        let roles = plan_role_list(&self.endpoints);
        if has_duplicate(&roles) {
            return invalid(text_from("endpoint roles must be unique"));
        }
        let ghost all = self.endpoints@;
        let ghost rv = plan_roles(all);
        let mut i: usize = 0;
        assert(all.skip(0) =~= all);
        while i < self.endpoints.len()
            invariant
                self.eve_plan@ == PLAN_FORMAT@,
                is_valid_id(self.conversation@),
                is_sha256_text(self.conversation_identity@),
                all.len() == 2,
                rv.no_duplicates(),
                all == self.endpoints@,
                rv == plan_roles(all),
                str_views(roles@) == rv,
                i <= all.len(),
                endpoints_problem(all, self.conversation@, rv) == endpoints_problem(all.skip(i as int), self.conversation@, rv),
            decreases all.len() - i,
        {
            assert(all.skip(i as int)[0] == all[i as int]);
            let e: &Endpoint = &self.endpoints[i];
            let checked = verify_endpoint(e, self.conversation.as_str(), &roles);
            if checked.is_err() {
                return checked;
            }
            assert(all.skip(i as int).drop_first() =~= all.skip(i + 1));
            i = i + 1;
        }
        let calculated = match self.calculate_identity() {
            Ok(id) => id,
            Err(e) => {
                return Err(e);
            },
        };
        if !same_text(self.plan_identity.as_str(), calculated.as_str()) {
            return Err(PlanError::IdentityMismatch { declared: self.plan_identity.clone(), calculated });
        }
        match &self.wire {
            Some(wire) => {
                let expected = match derive_wire_plan(&self.endpoints) {
                    Ok(w) => w,
                    Err(e) => {
                        return Err(e);
                    },
                };
                proof {
                    lemma_wire_plan_unique(*wire, expected, self.endpoints@);
                }
                if !wire_plans_match(wire, &expected) {
                    return invalid(text_from("compact wire transition table is not the deterministic projection"));
                }
                Ok(())
            },
            None => Ok(()),
        }
    }
}

/// `i` is the first of the endpoints whose role is `role`.
pub open spec fn is_first_with_role(eps: Seq<Arc<Endpoint>>, role: Seq<char>, i: int) -> bool {
    &&& 0 <= i < eps.len()
    &&& eps[i].role@ == role
    &&& forall|j: int| 0 <= j < i ==> eps[j].role@ != role
}

fn find_endpoint<'a>(eps: &'a Vec<Arc<Endpoint>>, role: &str) -> (r: Option<&'a Arc<Endpoint>>)
    ensures
        match r {
            Some(e) => exists|i: int| is_first_with_role(eps@, role@, i) && eps@[i] == *e,
            None => forall|i: int| 0 <= i < eps.len() ==> eps@[i].role@ != role@,
        },
{
    let mut i: usize = 0;
    while i < eps.len()
        invariant
            i <= eps.len(),
            forall|j: int| 0 <= j < i ==> eps@[j].role@ != role@,
        decreases eps.len() - i,
    {
        if same_text(eps[i].role.as_str(), role) {
            assert(is_first_with_role(eps@, role@, i as int));
            return Some(&eps[i]);
        }
        i = i + 1;
    }
    None
}

/// The endpoints of a valid conversation's projection, ordered by role.
pub open spec fn role_ordered_projection(c: Conversation, eps: Seq<Arc<Endpoint>>) -> bool {
    let first: int = if text_lt(c.roles@[1].id@, c.roles@[0].id@) {
        1
    } else {
        0
    };
    &&& c.roles.len() == 2
    &&& eps.len() == 2
    &&& endpoint_projects(c, c.roles@[first].id@, *eps[0])
    &&& endpoint_projects(c, c.roles@[1 - first].id@, *eps[1])
}

/// `p` is what compiling `c` builds before its check: the current format, the
/// conversation's id and identity, its projection ordered by role, the wire dictionary of
/// those endpoints (which have few enough transitions to number), and the identity of all
/// that.
pub open spec fn is_compilation_of(c: Conversation, p: EvePlan) -> bool {
    &&& p.eve_plan@ == PLAN_FORMAT@
    &&& p.conversation@ == c.module.id@
    &&& p.conversation_identity@ == conversation_identity_of(c)
    &&& is_sha256_text(p.conversation_identity@)
    &&& role_ordered_projection(c, p.endpoints@)
    &&& p.wire matches Some(w) && is_wire_plan_of(w, p.endpoints@)
    &&& distinct_transition_count(p.endpoints@) <= 65535
    &&& p.plan_identity@ == plan_identity_of(p)
}

/// Why compiling a valid conversation can fail: what it builds fails its check, or its
/// endpoints have more transitions than the wire dictionary can number.
pub open spec fn compile_failure(c: Conversation, e: PlanError) -> bool {
    ||| exists|p: EvePlan| #[trigger] is_compilation_of(c, p) && verify_outcome(p, Err(e))
    ||| (exists|eps: Seq<Arc<Endpoint>>| #[trigger] role_ordered_projection(c, eps) && distinct_transition_count(eps) > 65535)
        && (e matches PlanError::Invalid(m) && m@ == "compact wire supports at most 65535 semantic transitions"@)
}

/// The identity of a conversation already known to be valid.
fn conversation_identity_validated(conversation: &Conversation) -> (r: Result<String, PlanError>)
    ensures
        r matches Ok(id) && id@ == conversation_identity_of(*conversation) && is_sha256_text(id@),
{
    let text = semantic_conversation_text(conversation);
    Ok(text_identity(text.as_str()))
}

/// The semantic identity of a conversation, once it is known to be valid.
pub fn conversation_identity(conversation: &Conversation) -> (r: Result<String, PlanError>)
    ensures
        is_valid(*conversation) ==> (r matches Ok(id) && id@ == conversation_identity_of(*conversation) && is_sha256_text(id@)),
        !is_valid(*conversation) ==> (r matches Err(PlanError::InvalidConversation(e))
            && diagnostics_view(e.diagnostics@) == validation_diagnostics(*conversation)),
{
    match validate(conversation) {
        Ok(()) => conversation_identity_validated(conversation),
        Err(e) => Err(PlanError::InvalidConversation(e)),
    }
}

/// The projection of a valid conversation, ordered by role.
fn ordered_projection(c: &Conversation) -> (eps: Vec<Arc<Endpoint>>)
    requires
        is_valid(*c),
    ensures
        role_ordered_projection(*c, eps@),
{
    proof {
        lemma_structurally_sound(*c);
    }
    let mut projected = project_validated(c);
    assert(endpoint_projects(*c, c.roles@[0].id@, projected@[0]));
    assert(endpoint_projects(*c, c.roles@[1].id@, projected@[1]));
    let b = projected.pop().unwrap();
    let a = projected.pop().unwrap();
    let mut eps: Vec<Arc<Endpoint>> = Vec::new();
    if text_less(b.role.as_str(), a.role.as_str()) {
        eps.push(Arc::new(b));
        eps.push(Arc::new(a));
    } else {
        eps.push(Arc::new(a));
        eps.push(Arc::new(b));
    }
    eps
}

impl EvePlan {
    /// Checks, projects and identifies a conversation. The plan it gives has passed
    /// `verify`.
    pub fn compile(conversation: &Conversation) -> (r: Result<EvePlan, PlanError>)
        ensures
            !is_valid(*conversation) ==> (r matches Err(PlanError::InvalidConversation(e))
                && diagnostics_view(e.diagnostics@) == validation_diagnostics(*conversation)),
            is_valid(*conversation) ==> match r {
                Ok(p) => is_compilation_of(*conversation, p) && plan_is_sound(p),
                Err(e) => compile_failure(*conversation, e),
            },
            r matches Ok(p) ==> verify_outcome(p, Ok(())),
    {
        match validate(conversation) {
            Ok(()) => {},
            Err(e) => {
                return Err(PlanError::InvalidConversation(e));
            },
        }
        let conversation_identity = match conversation_identity_validated(conversation) {
            Ok(id) => id,
            Err(e) => {
                return Err(e);
            },
        };
        let endpoints = ordered_projection(conversation);
        let wire = match derive_wire_plan(&endpoints) {
            Ok(w) => w,
            Err(e) => {
                return Err(e);
            },
        };
        let mut plan = EvePlan {
            eve_plan: text_from(PLAN_FORMAT),
            conversation: conversation.module.id.clone(),
            conversation_identity,
            plan_identity: String::new(),
            endpoints,
            wire: Some(wire),
        };
        let identity = match plan.calculate_identity() {
            Ok(id) => id,
            Err(e) => {
                return Err(e);
            },
        };
        let ghost before = plan;
        plan.plan_identity = identity;
        assert(semantic_plan_json(plan) == semantic_plan_json(before));
        assert(is_compilation_of(*conversation, plan));
        match plan.verify() {
            Ok(()) => Ok(plan),
            Err(e) => Err(e),
        }
    }

    /// The endpoint of `role`.
    pub fn endpoint(&self, role: &str) -> (r: Option<&Arc<Endpoint>>)
        ensures
            match r {
                Some(e) => exists|i: int| is_first_with_role(self.endpoints@, role@, i) && self.endpoints@[i] == *e,
                None => forall|i: int| 0 <= i < self.endpoints.len() ==> self.endpoints@[i].role@ != role@,
            },
    {
        find_endpoint(&self.endpoints, role)
    }

    /// Checks the plan, then prepares it for sessions.
    pub fn prepare(&self) -> (r: Result<PreparedPlan, PlanError>)
        ensures
            !plan_is_sound(*self) ==> (r matches Err(e) && verify_outcome(*self, Err(e))),
            plan_is_sound(*self) ==> prepared_outcome(*self, r),
            r is Ok <==> plan_is_sound(*self) && (self.wire is Some || distinct_transition_count(self.endpoints@) <= 65535),
            r matches Ok(pp) ==> pp.conversation_view() == self.conversation@
                && pp.conversation_identity_view() == self.conversation_identity@
                && pp.plan_identity_view() == self.plan_identity@ && pp.endpoints_view() == self.endpoints@,
            r matches Ok(pp) ==> match self.wire {
                Some(w) => pp.wire_view().encoding == w.encoding && pp.wire_view().transitions@ == w.transitions@,
                None => is_wire_plan_of(pp.wire_view(), self.endpoints@),
            },
    {
        match self.verify() {
            Ok(()) => {},
            Err(e) => {
                return Err(e);
            },
        }
        self.prepared()
    }

    /// The plan ready for sessions; a plan without a wire dictionary gets the one its
    /// endpoints give.
    fn prepared(&self) -> (r: Result<PreparedPlan, PlanError>)
        requires
            plan_is_sound(*self),
        ensures
            prepared_outcome(*self, r),
    {
        proof {
            lemma_sound_plan_closed(*self);
        }
        let wire = match &self.wire {
            Some(w) => clone_wire_plan(w),
            None => match derive_wire_plan(&self.endpoints) {
                Ok(w) => w,
                Err(e) => {
                    return Err(e);
                },
            },
        };
        Ok(PreparedPlan {
            conversation: self.conversation.clone(),
            conversation_identity: self.conversation_identity.clone(),
            plan_identity: self.plan_identity.clone(),
            endpoints: share_endpoints(&self.endpoints),
            wire: Arc::new(wire),
        })
    }
}

/// A plan whose digest and structural references have been checked, ready to start
/// sessions.
#[derive(Debug)]
pub struct PreparedPlan {
    conversation: String,
    conversation_identity: String,
    plan_identity: String,
    endpoints: Vec<Arc<Endpoint>>,
    wire: Arc<CompactWirePlan>,
}

/// `pp` holds the identities and endpoints of `p`, and its wire dictionary, or the one
/// its endpoints give where it has none.
pub open spec fn prepared_from(pp: PreparedPlan, p: EvePlan) -> bool {
    &&& pp.conversation_view() == p.conversation@
    &&& pp.conversation_identity_view() == p.conversation_identity@
    &&& pp.plan_identity_view() == p.plan_identity@
    &&& pp.endpoints_view() == p.endpoints@
    &&& match p.wire {
        Some(w) => pp.wire_view().encoding == w.encoding && pp.wire_view().transitions@ == w.transitions@,
        None => is_wire_plan_of(pp.wire_view(), p.endpoints@),
    }
}

/// Preparing `p` gives `r`: it fails only where the plan has no wire dictionary and its
/// endpoints have too many transitions for one.
pub open spec fn prepared_outcome(p: EvePlan, r: Result<PreparedPlan, PlanError>) -> bool {
    if p.wire is None && distinct_transition_count(p.endpoints@) > 65535 {
        invalid_with(r, "compact wire supports at most 65535 semantic transitions"@)
    } else {
        r matches Ok(pp) && prepared_from(pp, p)
    }
}

impl Clone for PreparedPlan {
    fn clone(&self) -> (r: Self)
        ensures
            r.conversation_view() == self.conversation_view(),
            r.conversation_identity_view() == self.conversation_identity_view(),
            r.plan_identity_view() == self.plan_identity_view(),
            r.endpoints_view() == self.endpoints_view(),
            r.wire_view() == self.wire_view(),
    {
        proof {
            use_type_invariant(self);
        }
        PreparedPlan {
            conversation: self.conversation.clone(),
            conversation_identity: self.conversation_identity.clone(),
            plan_identity: self.plan_identity.clone(),
            endpoints: share_endpoints(&self.endpoints),
            wire: share(&self.wire),
        }
    }
}

impl PreparedPlan {
    /// Every endpoint of a prepared plan is closed: its initial state and every target
    /// of its states are among its states.
    #[verifier::type_invariant]
    spec fn closed_endpoints(&self) -> bool {
        &&& forall|i: int| 0 <= i < self.endpoints.len() ==> endpoint_is_closed(*#[trigger] self.endpoints@[i])
        &&& wire_ids_dense(*self.wire)
    }

    pub closed spec fn conversation_view(&self) -> Seq<char> {
        self.conversation@
    }

    pub closed spec fn conversation_identity_view(&self) -> Seq<char> {
        self.conversation_identity@
    }

    pub closed spec fn plan_identity_view(&self) -> Seq<char> {
        self.plan_identity@
    }

    pub closed spec fn endpoints_view(&self) -> Seq<Arc<Endpoint>> {
        self.endpoints@
    }

    pub closed spec fn wire_view(&self) -> CompactWirePlan {
        *self.wire
    }

    /// Compiles a conversation and prepares the plan.
    pub fn compile(conversation: &Conversation) -> (r: Result<PreparedPlan, PlanError>)
        ensures
            !is_valid(*conversation) ==> (r matches Err(PlanError::InvalidConversation(e))
                && diagnostics_view(e.diagnostics@) == validation_diagnostics(*conversation)),
            is_valid(*conversation) ==> match r {
                Ok(pp) => exists|p: EvePlan| #[trigger] is_compilation_of(*conversation, p) && plan_is_sound(p) && prepared_from(pp, p),
                Err(e) => compile_failure(*conversation, e),
            },
    {
        match EvePlan::compile(conversation) {
            Ok(p) => {
                let r = p.prepared();
                assert(r matches Ok(pp) && prepared_from(pp, p));
                r
            },
            Err(e) => Err(e),
        }
    }

    pub fn conversation(&self) -> (r: &str)
        ensures
            r@ == self.conversation_view(),
    {
        self.conversation.as_str()
    }

    pub fn conversation_identity(&self) -> (r: &str)
        ensures
            r@ == self.conversation_identity_view(),
    {
        self.conversation_identity.as_str()
    }

    pub fn plan_identity(&self) -> (r: &str)
        ensures
            r@ == self.plan_identity_view(),
    {
        self.plan_identity.as_str()
    }

    pub fn endpoints(&self) -> (r: &[Arc<Endpoint>])
        ensures
            r@ == self.endpoints_view(),
            forall|i: int| 0 <= i < r@.len() ==> endpoint_is_closed(*#[trigger] r@[i]),
    {
        proof {
            use_type_invariant(self);
        }
        self.endpoints.as_slice()
    }

    /// The endpoint of `role`.
    pub fn endpoint(&self, role: &str) -> (r: Option<&Arc<Endpoint>>)
        ensures
            match r {
                Some(e) => endpoint_is_closed(**e) && exists|i: int| is_first_with_role(self.endpoints_view(), role@, i) && self.endpoints_view()[i] == *e,
                None => forall|i: int| 0 <= i < self.endpoints_view().len() ==> self.endpoints_view()[i].role@ != role@,
            },
    {
        proof {
            use_type_invariant(self);
        }
        assert(self.endpoints_view() == self.endpoints@);
        find_endpoint(&self.endpoints, role)
    }

    pub fn wire_plan(&self) -> (r: &CompactWirePlan)
        ensures
            *r == self.wire_view(),
            wire_ids_dense(*r),
    {
        proof {
            use_type_invariant(self);
        }
        &self.wire
    }

    /// Another handle on the shared wire dictionary.
    pub(crate) fn shared_wire_plan(&self) -> (r: Arc<CompactWirePlan>)
        ensures
            *r == self.wire_view(),
            wire_ids_dense(*r),
    {
        proof {
            use_type_invariant(self);
        }
        share(&self.wire)
    }
}

} // verus!
