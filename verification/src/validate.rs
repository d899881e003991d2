//! The conversation validator: structural diagnostics, then reachability.
use vstd::prelude::*;
use crate::conversation::{
    Conversation, GlobalState, Role, TypeDefinition, FailureDefinition, global_id,
    global_successors, global_is_terminal, global_failure_edges, str_views, CONVERSATION_FORMAT,
};
use crate::map::{StrMap, TextPairs, lookup};
use crate::text::{decimal, push_decimal, push_text, same_text};

verus! {

/// One finding of the validator: a stable code, a JSON path and a message.
#[derive(Debug, Clone)]
pub struct Diagnostic {
    pub code: &'static str,
    pub path: String,
    pub message: String,
}

/// The findings that make a conversation invalid.
#[derive(Debug, Clone)]
pub struct ValidationErrors {
    pub diagnostics: Vec<Diagnostic>,
}

/// A diagnostic as (code, path, message).
pub type DiagnosticView = (Seq<char>, Seq<char>, Seq<char>);

pub open spec fn diagnostic_view(d: Diagnostic) -> DiagnosticView {
    (d.code@, d.path@, d.message@)
}

pub open spec fn diagnostics_view(ds: Seq<Diagnostic>) -> Seq<DiagnosticView> {
    ds.map_values(|d: Diagnostic| diagnostic_view(d))
}

/// One diagnostic as a line: `code at path: message`.
pub open spec fn diagnostic_line(d: DiagnosticView) -> Seq<char> {
    d.0 + " at "@ + d.1 + ": "@ + d.2
}

/// The message of a set of findings: one line per diagnostic.
pub open spec fn validation_text(ds: Seq<DiagnosticView>) -> Seq<char> {
    crate::conversation::join_with(ds.map_values(|d: DiagnosticView| diagnostic_line(d)), "\n"@)
}

impl ValidationErrors {
    /// The message: one line per diagnostic.
    pub fn to_string(&self) -> (s: String)
        ensures
            s@ == validation_text(diagnostics_view(self.diagnostics@)),
    {
        let ghost items = diagnostics_view(self.diagnostics@).map_values(|d: DiagnosticView| diagnostic_line(d));
        let mut s = String::new();
        let mut i: usize = 0;
        assert(s@ =~= crate::conversation::join_with(items.subrange(0, 0), "\n"@));
        while i < self.diagnostics.len()
            invariant
                items == diagnostics_view(self.diagnostics@).map_values(|d: DiagnosticView| diagnostic_line(d)),
                i <= self.diagnostics.len(),
                s@ == crate::conversation::join_with(items.subrange(0, i as int), "\n"@),
            decreases self.diagnostics.len() - i,
        {
            proof {
                crate::json::lemma_join_push(items.subrange(0, i as int), items[i as int], "\n"@);
                assert(items.subrange(0, i + 1) =~= items.subrange(0, i as int).push(items[i as int]));
            }
            if i > 0 {
                push_text(&mut s, "\n");
            }
            let d = &self.diagnostics[i];
            push_text(&mut s, d.code);
            push_text(&mut s, " at ");
            push_text(&mut s, d.path.as_str());
            push_text(&mut s, ": ");
            push_text(&mut s, d.message.as_str());
            i = i + 1;
        }
        assert(items.subrange(0, i as int) =~= items);
        s
    }
}

pub open spec fn string_views(v: Seq<String>) -> Seq<Seq<char>> {
    v.map_values(|s: String| s@)
}

pub open spec fn role_ids(c: Conversation) -> Seq<Seq<char>> {
    c.roles@.map_values(|r: Role| r.id@)
}

pub open spec fn type_ids(c: Conversation) -> Seq<Seq<char>> {
    c.types@.map_values(|t: TypeDefinition| t.id@)
}

pub open spec fn failure_ids(c: Conversation) -> Seq<Seq<char>> {
    c.failures@.map_values(|f: FailureDefinition| f.id@)
}

pub open spec fn state_ids(c: Conversation) -> Seq<Seq<char>> {
    c.states@.map_values(|s: GlobalState| global_id(s))
}

/// `x` is one of the non-empty ids the validator collected.
pub open spec fn declares(ids: Seq<Seq<char>>, x: Seq<char>) -> bool {
    x.len() > 0 && ids.contains(x)
}

/// Some state carries the id `t`.
pub open spec fn has_state(c: Conversation, t: Seq<char>) -> bool {
    state_ids(c).contains(t)
}

/// The position of the last entry equal to `t`, or -1.
pub open spec fn last_index(ids: Seq<Seq<char>>, t: Seq<char>) -> int
    decreases ids.len(),
{
    if ids.len() == 0 {
        -1
    } else if ids.last() == t {
        ids.len() - 1
    } else {
        last_index(ids.drop_last(), t)
    }
}

pub open spec fn index_path(path: Seq<char>, i: nat, suffix: Seq<char>) -> Seq<char> {
    path + "["@ + decimal(i) + "]"@ + suffix
}

pub open spec fn state_path(i: nat, suffix: Seq<char>) -> Seq<char> {
    index_path("$.states"@, i, suffix)
}

pub open spec fn one(code: Seq<char>, path: Seq<char>, message: Seq<char>) -> Seq<DiagnosticView> {
    seq![(code, path, message)]
}

pub open spec fn when(condition: bool, d: Seq<DiagnosticView>) -> Seq<DiagnosticView> {
    if condition {
        d
    } else {
        Seq::empty()
    }
}

pub open spec fn format_diagnostics(c: Conversation) -> Seq<DiagnosticView> {
    when(
        c.eve_conversation@ != CONVERSATION_FORMAT@,
        one(
            "EVE0001"@,
            "$.eve_conversation"@,
            "unsupported format "@ + c.eve_conversation@ + "; expected "@ + CONVERSATION_FORMAT@,
        ),
    )
}

/// The finding for the `i`-th id of a list that must hold unique non-empty ids.
pub open spec fn unique_id_diagnostic(
    ids: Seq<Seq<char>>,
    i: int,
    path: Seq<char>,
    kind: Seq<char>,
) -> Seq<DiagnosticView> {
    if ids[i].len() == 0 {
        one("EVE0011"@, index_path(path, i as nat, ".id"@), kind + " id cannot be empty"@)
    } else if ids.subrange(0, i).contains(ids[i]) {
        one("EVE0012"@, index_path(path, i as nat, ".id"@), "duplicate "@ + kind + " id "@ + ids[i])
    } else {
        Seq::empty()
    }
}

pub open spec fn unique_id_diagnostics(
    ids: Seq<Seq<char>>,
    path: Seq<char>,
    kind: Seq<char>,
    n: nat,
) -> Seq<DiagnosticView>
    decreases n,
{
    if n == 0 {
        Seq::empty()
    } else {
        unique_id_diagnostics(ids, path, kind, (n - 1) as nat) + unique_id_diagnostic(
            ids,
            n - 1,
            path,
            kind,
        )
    }
}

pub open spec fn role_count_diagnostics(c: Conversation) -> Seq<DiagnosticView> {
    when(
        c.roles.len() != 2,
        one(
            "EVE0002"@,
            "$.roles"@,
            "Eve Conversation v0 endpoint projection requires exactly two roles"@,
        ),
    )
}

pub open spec fn kind_diagnostics(c: Conversation, n: nat) -> Seq<DiagnosticView>
    decreases n,
{
    if n == 0 {
        Seq::empty()
    } else {
        let i = n - 1;
        let t = c.types@[i];
        kind_diagnostics(c, (n - 1) as nat) + when(
            lookup(t.definition@, "kind"@) is None,
            one(
                "EVE0003"@,
                index_path("$.types"@, i as nat, ""@),
                "type "@ + t.id@ + " is missing its kind"@,
            ),
        )
    }
}

pub open spec fn duplicate_state_diagnostics(c: Conversation, n: nat) -> Seq<DiagnosticView>
    decreases n,
{
    if n == 0 {
        Seq::empty()
    } else {
        let i = n - 1;
        let ids = state_ids(c);
        duplicate_state_diagnostics(c, (n - 1) as nat) + when(
            ids.subrange(0, i).contains(ids[i]),
            one("EVE0004"@, state_path(i as nat, ".id"@), "duplicate state id "@ + ids[i]),
        )
    }
}

pub open spec fn initial_diagnostics(c: Conversation) -> Seq<DiagnosticView> {
    when(
        !has_state(c, c.initial@),
        one("EVE0005"@, "$.initial"@, "initial state "@ + c.initial@ + " does not exist"@),
    )
}

pub open spec fn target_diagnostics(
    c: Conversation,
    i: nat,
    edge: Seq<char>,
    target: Seq<char>,
) -> Seq<DiagnosticView> {
    when(
        !has_state(c, target),
        one(
            "EVE0016"@,
            state_path(i, "."@ + edge),
            "target state "@ + target + " does not exist"@,
        ),
    )
}

/// The state that a failure edge to `target` reaches (the last state with that id).
pub open spec fn failure_edge_reaches_fail(c: Conversation, target: Seq<char>, failure: Seq<char>) -> bool {
    let s = c.states@[last_index(state_ids(c), target)];
    s matches GlobalState::Fail { failure: f, .. } && f@ == failure
}

pub open spec fn failure_edge_diagnostic(
    c: Conversation,
    i: nat,
    failure: Seq<char>,
    target: Seq<char>,
) -> Seq<DiagnosticView> {
    let path = state_path(i, ".on_failure."@ + failure);
    when(
        !declares(failure_ids(c), failure),
        one("EVE0019"@, path, "unknown failure type "@ + failure),
    ) + target_diagnostics(c, i, "on_failure."@ + failure, target) + when(
        has_state(c, target) && !failure_edge_reaches_fail(c, target, failure),
        one("EVE0020"@, path, "failure edge must target a terminal fail state for "@ + failure),
    )
}

pub open spec fn failure_edge_diagnostics(
    c: Conversation,
    i: nat,
    edges: TextPairs,
    n: nat,
) -> Seq<DiagnosticView>
    decreases n,
{
    if n == 0 {
        Seq::empty()
    } else {
        failure_edge_diagnostics(c, i, edges, (n - 1) as nat) + failure_edge_diagnostic(
            c,
            i,
            edges[n - 1].0,
            edges[n - 1].1,
        )
    }
}

pub open spec fn all_failure_edge_diagnostics(c: Conversation, i: nat, edges: TextPairs) -> Seq<
    DiagnosticView,
> {
    failure_edge_diagnostics(c, i, edges, edges.len())
}

pub open spec fn branch_diagnostics(c: Conversation, i: nat, branches: TextPairs, n: nat) -> Seq<
    DiagnosticView,
>
    decreases n,
{
    if n == 0 {
        Seq::empty()
    } else {
        let label = branches[n - 1].0;
        branch_diagnostics(c, i, branches, (n - 1) as nat) + when(
            label.len() == 0,
            one("EVE0009"@, state_path(i, ".branches"@), "branch labels cannot be empty"@),
        ) + target_diagnostics(c, i, label, branches[n - 1].1)
    }
}

pub open spec fn role_pair_diagnostics(
    c: Conversation,
    i: nat,
    from: Seq<char>,
    to: Seq<char>,
) -> Seq<DiagnosticView> {
    when(
        !declares(role_ids(c), from),
        one("EVE0013"@, state_path(i, ".from"@), "unknown sender role "@ + from),
    ) + when(
        !declares(role_ids(c), to),
        one("EVE0014"@, state_path(i, ".to"@), "unknown receiver role "@ + to),
    ) + when(
        from == to,
        one(
            "EVE0015"@,
            state_path(i, ""@),
            "sender and receiver must be different roles"@,
        ),
    )
}

/// The findings for the `i`-th state.
pub open spec fn state_diagnostic(c: Conversation, i: nat) -> Seq<DiagnosticView> {
    match c.states@[i as int] {
        GlobalState::Send { from, to, message, next, on_failure, .. } => role_pair_diagnostics(
            c,
            i,
            from@,
            to@,
        ) + when(
            !declares(type_ids(c), message@),
            one("EVE0006"@, state_path(i, ".message"@), "unknown message type "@ + message@),
        ) + target_diagnostics(c, i, "next"@, next@) + all_failure_edge_diagnostics(
            c,
            i,
            on_failure@,
        ),
        GlobalState::Choice { chooser, branches, on_failure, .. } => when(
            !declares(role_ids(c), chooser@),
            one("EVE0007"@, state_path(i, ".chooser"@), "unknown chooser role "@ + chooser@),
        ) + when(
            branches@.len() < 2,
            one(
                "EVE0008"@,
                state_path(i, ".branches"@),
                "a choice requires at least two branches"@,
            ),
        ) + branch_diagnostics(c, i, branches@, branches@.len()) + all_failure_edge_diagnostics(
            c,
            i,
            on_failure@,
        ),
        GlobalState::Cancel { from, to, scope, next, on_failure, .. } => role_pair_diagnostics(
            c,
            i,
            from@,
            to@,
        ) + when(
            scope@.len() == 0,
            one("EVE0010"@, state_path(i, ".scope"@), "cancellation scope cannot be empty"@),
        ) + target_diagnostics(c, i, "next"@, next@) + all_failure_edge_diagnostics(
            c,
            i,
            on_failure@,
        ),
        GlobalState::Fail { failure, .. } => when(
            !declares(failure_ids(c), failure@),
            one("EVE0019"@, state_path(i, ".failure"@), "unknown failure type "@ + failure@),
        ),
        GlobalState::End { .. } => Seq::empty(),
    }
}

pub open spec fn state_diagnostics(c: Conversation, n: nat) -> Seq<DiagnosticView>
    decreases n,
{
    if n == 0 {
        Seq::empty()
    } else {
        state_diagnostics(c, (n - 1) as nat) + state_diagnostic(c, (n - 1) as nat)
    }
}

/// The structural findings, in the order the validator reports them.
pub open spec fn structural_diagnostics(c: Conversation) -> Seq<DiagnosticView> {
    format_diagnostics(c) + unique_id_diagnostics(role_ids(c), "$.roles"@, "role"@, c.roles.len() as nat)
        + role_count_diagnostics(c) + unique_id_diagnostics(
        type_ids(c),
        "$.types"@,
        "type"@,
        c.types.len() as nat,
    ) + kind_diagnostics(c, c.types.len() as nat) + unique_id_diagnostics(
        failure_ids(c),
        "$.failures"@,
        "failure"@,
        c.failures.len() as nat,
    ) + duplicate_state_diagnostics(c, c.states.len() as nat) + initial_diagnostics(c)
        + state_diagnostics(c, c.states.len() as nat)
}

/// State `b` is a successor of state `a`.
pub open spec fn steps_to(c: Conversation, a: int, b: int) -> bool {
    0 <= a < c.states.len() && 0 <= b < c.states.len() && global_successors(c.states@[a]).contains(
        global_id(c.states@[b]),
    )
}

/// A walk through the states that starts at the initial state.
pub open spec fn is_walk(c: Conversation, p: Seq<int>) -> bool {
    &&& p.len() > 0
    &&& 0 <= p[0] < c.states.len()
    &&& global_id(c.states@[p[0]]) == c.initial@
    &&& forall|k: int| 0 <= k < p.len() - 1 ==> #[trigger] steps_to(c, p[k], p[k + 1])
}

/// State `k` can be reached from the initial state.
pub open spec fn reachable(c: Conversation, k: int) -> bool {
    exists|p: Seq<int>| #[trigger] is_walk(c, p) && p.last() == k
}

pub open spec fn unreachable_diagnostics(c: Conversation, n: nat) -> Seq<DiagnosticView>
    decreases n,
{
    if n == 0 {
        Seq::empty()
    } else {
        let k = n - 1;
        unreachable_diagnostics(c, (n - 1) as nat) + when(
            !reachable(c, k),
            one(
                "EVE0017"@,
                "$.states[id="@ + global_id(c.states@[k]) + "]"@,
                "state is unreachable from the initial state"@,
            ),
        )
    }
}

pub open spec fn reaches_terminal(c: Conversation) -> bool {
    exists|k: int| 0 <= k < c.states.len() && reachable(c, k) && global_is_terminal(#[trigger] c.states@[k])
}

pub open spec fn reachability_diagnostics(c: Conversation) -> Seq<DiagnosticView> {
    unreachable_diagnostics(c, c.states.len() as nat) + when(
        !reaches_terminal(c),
        one(
            "EVE0018"@,
            "$.states"@,
            "no successful or failed terminal state is reachable from the initial state"@,
        ),
    )
}

/// Everything the validator reports: the structural findings, or, when there are none,
/// the reachability findings.
pub open spec fn validation_diagnostics(c: Conversation) -> Seq<DiagnosticView> {
    let s = structural_diagnostics(c);
    if s.len() == 0 {
        reachability_diagnostics(c)
    } else {
        s
    }
}

/// The conversation is valid.
pub open spec fn is_valid(c: Conversation) -> bool {
    validation_diagnostics(c).len() == 0
}

fn diagnostic(code: &'static str, path: String, message: String) -> (d: Diagnostic)
    ensures
        diagnostic_view(d) == (code@, path@, message@),
{
    Diagnostic { code, path, message }
}

fn push_diagnostic(ds: &mut Vec<Diagnostic>, d: Diagnostic)
    ensures
        diagnostics_view(final(ds)@) == diagnostics_view(old(ds)@).push(diagnostic_view(d)),
{
    ds.push(d);
    assert(diagnostics_view(ds@) =~= diagnostics_view(old(ds)@).push(diagnostic_view(d)));
}

fn text_of(parts: &str) -> (s: String)
    ensures
        s@ == parts@,
{
    let mut s = String::new();
    push_text(&mut s, parts);
    s
}

fn concat2(a: &str, b: &str) -> (s: String)
    ensures
        s@ == a@ + b@,
{
    let mut s = String::new();
    push_text(&mut s, a);
    push_text(&mut s, b);
    s
}

fn concat3(a: &str, b: &str, c: &str) -> (s: String)
    ensures
        s@ == a@ + b@ + c@,
{
    let mut s = String::new();
    push_text(&mut s, a);
    push_text(&mut s, b);
    push_text(&mut s, c);
    s
}

fn index_path_text(path: &str, i: usize, suffix: &str) -> (s: String)
    ensures
        s@ == index_path(path@, i as nat, suffix@),
{
    let mut s = String::new();
    push_text(&mut s, path);
    push_text(&mut s, "[");
    push_decimal(&mut s, i as u64);
    push_text(&mut s, "]");
    push_text(&mut s, suffix);
    s
}

fn state_path_text(i: usize, suffix: &str) -> (s: String)
    ensures
        s@ == state_path(i as nat, suffix@),
{
    index_path_text("$.states", i, suffix)
}

/// Whether `x` is among `set`.
pub fn contains_text(set: &Vec<String>, x: &str) -> (b: bool)
    ensures
        b == string_views(set@).contains(x@),
{
    let mut i: usize = 0;
    while i < set.len()
        invariant
            i <= set.len(),
            forall|j: int| 0 <= j < i ==> set@[j]@ != x@,
        decreases set.len() - i,
    {
        if same_text(set[i].as_str(), x) {
            assert(string_views(set@)[i as int] == x@);
            return true;
        }
        i = i + 1;
    }
    assert forall|j: int| 0 <= j < string_views(set@).len() implies string_views(set@)[j] != x@ by {
        assert(string_views(set@)[j] == set@[j]@);
    }
    false
}

pub fn contains_str(list: &Vec<&str>, x: &str) -> (b: bool)
    ensures
        b == str_views(list@).contains(x@),
{
    let mut i: usize = 0;
    while i < list.len()
        invariant
            i <= list.len(),
            forall|j: int| 0 <= j < i ==> list@[j]@ != x@,
        decreases list.len() - i,
    {
        if same_text(list[i], x) {
            assert(str_views(list@)[i as int] == x@);
            return true;
        }
        i = i + 1;
    }
    assert forall|j: int| 0 <= j < str_views(list@).len() implies str_views(list@)[j] != x@ by {
        assert(str_views(list@)[j] == list@[j]@);
    }
    false
}

pub proof fn lemma_push_contains_pub<A>(s: Seq<A>, a: A, x: A)
    ensures
        s.push(a).contains(x) <==> (s.contains(x) || x == a),
{
    if s.contains(x) {
        let k = choose|k: int| 0 <= k < s.len() && s[k] == x;
        assert(s.push(a)[k] == x);
    }
    if x == a {
        assert(s.push(a)[s.len() as int] == x);
    }
    if s.push(a).contains(x) {
        let k = choose|k: int| 0 <= k < s.push(a).len() && s.push(a)[k] == x;
        if k < s.len() {
            assert(s[k] == x);
        }
    }
}

/// Records duplicate and empty ids; returns the non-empty ids.
pub fn unique_ids(ids: &Vec<&str>, path: &str, kind: &str, ds: &mut Vec<Diagnostic>) -> (seen: Vec<String>)
    ensures
        diagnostics_view(final(ds)@) == diagnostics_view(old(ds)@) + unique_id_diagnostics(
            str_views(ids@),
            path@,
            kind@,
            ids.len() as nat,
        ),
        forall|x: Seq<char>| string_views(seen@).contains(x) <==> declares(str_views(ids@), x),
{
    let ghost v = str_views(ids@);
    let ghost start = diagnostics_view(ds@);
    let mut seen: Vec<String> = Vec::new();
    let mut i: usize = 0;
    while i < ids.len()
        invariant
            v == str_views(ids@),
            i <= ids.len(),
            diagnostics_view(ds@) == start + unique_id_diagnostics(v, path@, kind@, i as nat),
            forall|x: Seq<char>|
                #![trigger string_views(seen@).contains(x)]
                string_views(seen@).contains(x) <==> (x.len() > 0 && v.subrange(0, i as int).contains(x)),
        decreases ids.len() - i,
    {
        let id = ids[i];
        assert(v[i as int] == id@);
        let ghost prefix = v.subrange(0, i as int);
        assert(v.subrange(0, i + 1) =~= prefix.push(id@));
        let ghost grown = v.subrange(0, i + 1);
        assert(unique_id_diagnostics(v, path@, kind@, (i + 1) as nat) == unique_id_diagnostics(
            v,
            path@,
            kind@,
            i as nat,
        ) + unique_id_diagnostic(v, i as int, path@, kind@));
        if id.unicode_len() == 0 {
            assert(unique_id_diagnostic(v, i as int, path@, kind@) == one("EVE0011"@, index_path(path@, i as nat, ".id"@), kind@ + " id cannot be empty"@));
            let d = diagnostic("EVE0011", index_path_text(path, i, ".id"), concat2(kind, " id cannot be empty"));
            push_diagnostic(ds, d);
            assert(diagnostics_view(ds@) =~= start + unique_id_diagnostics(v, path@, kind@, (i + 1) as nat));
            assert forall|x: Seq<char>|
                #![trigger string_views(seen@).contains(x)]
                string_views(seen@).contains(x) <==> (x.len() > 0 && grown.contains(x)) by {
                lemma_push_contains_pub(prefix, id@, x);
                assert(grown == prefix.push(id@));
            }
        } else if contains_text(&seen, id) {
            assert(prefix.contains(v[i as int]));
            let msg = concat3("duplicate ", kind, concat2(" id ", id).as_str());
            assert(msg@ =~= "duplicate "@ + kind@ + " id "@ + id@);
            let d = diagnostic("EVE0012", index_path_text(path, i, ".id"), msg);
            push_diagnostic(ds, d);
            assert(diagnostics_view(ds@) =~= start + unique_id_diagnostics(v, path@, kind@, (i + 1) as nat));
            assert forall|x: Seq<char>|
                #![trigger string_views(seen@).contains(x)]
                string_views(seen@).contains(x) <==> (x.len() > 0 && grown.contains(x)) by {
                lemma_push_contains_pub(prefix, id@, x);
                assert(grown == prefix.push(id@));
            }
        } else {
            assert(!prefix.contains(v[i as int]));
            assert(unique_id_diagnostic(v, i as int, path@, kind@) == Seq::<DiagnosticView>::empty());
            let ghost before = seen@;
            seen.push(id.to_owned());
            assert(string_views(seen@) =~= string_views(before).push(id@));
            assert(diagnostics_view(ds@) =~= start + unique_id_diagnostics(v, path@, kind@, (i + 1) as nat));
            assert forall|x: Seq<char>|
                #![trigger string_views(seen@).contains(x)]
                string_views(seen@).contains(x) <==> (x.len() > 0 && grown.contains(x)) by {
                lemma_push_contains_pub(string_views(before), id@, x);
                lemma_push_contains_pub(prefix, id@, x);
                assert(grown == prefix.push(id@));
                assert(string_views(before).contains(x) <==> (x.len() > 0 && prefix.contains(x)));
            }
        }
        i = i + 1;
    }
    assert(v.subrange(0, ids.len() as int) =~= v);
    seen
}

proof fn lemma_str_views_push(s: Seq<&str>, x: &str)
    ensures
        str_views(s.push(x)) == str_views(s).push(x@),
{
    assert(str_views(s.push(x)) =~= str_views(s).push(x@));
}

fn check_format(c: &Conversation, ds: &mut Vec<Diagnostic>)
    ensures
        diagnostics_view(final(ds)@) == diagnostics_view(old(ds)@) + format_diagnostics(*c),
{
    if !same_text(c.eve_conversation.as_str(), CONVERSATION_FORMAT) {
        let msg = concat3("unsupported format ", c.eve_conversation.as_str(), concat2("; expected ", CONVERSATION_FORMAT).as_str());
        assert(msg@ =~= "unsupported format "@ + c.eve_conversation@ + "; expected "@ + CONVERSATION_FORMAT@);
        push_diagnostic(ds, diagnostic("EVE0001", text_of("$.eve_conversation"), msg));
    }
    assert(diagnostics_view(ds@) =~= diagnostics_view(old(ds)@) + format_diagnostics(*c));
}

pub fn role_list(c: &Conversation) -> (r: Vec<&str>)
    ensures
        str_views(r@) == role_ids(*c),
        r.len() == c.roles.len(),
{
    let mut r: Vec<&str> = Vec::new();
    let mut i: usize = 0;
    while i < c.roles.len()
        invariant
            i <= c.roles.len(),
            str_views(r@) == role_ids(*c).subrange(0, i as int),
        decreases c.roles.len() - i,
    {
        let x = c.roles[i].id.as_str();
        proof {
            lemma_str_views_push(r@, x);
        }
        r.push(x);
        assert(role_ids(*c)[i as int] == x@);
        assert(str_views(r@) =~= role_ids(*c).subrange(0, i + 1));
        i = i + 1;
    }
    assert(role_ids(*c).subrange(0, i as int) =~= role_ids(*c));
    r
}

fn type_list(c: &Conversation) -> (r: Vec<&str>)
    ensures
        str_views(r@) == type_ids(*c),
        r.len() == c.types.len(),
{
    let mut r: Vec<&str> = Vec::new();
    let mut i: usize = 0;
    while i < c.types.len()
        invariant
            i <= c.types.len(),
            str_views(r@) == type_ids(*c).subrange(0, i as int),
        decreases c.types.len() - i,
    {
        let x = c.types[i].id.as_str();
        proof {
            lemma_str_views_push(r@, x);
        }
        r.push(x);
        assert(type_ids(*c)[i as int] == x@);
        assert(str_views(r@) =~= type_ids(*c).subrange(0, i + 1));
        i = i + 1;
    }
    assert(type_ids(*c).subrange(0, i as int) =~= type_ids(*c));
    r
}

fn failure_list(c: &Conversation) -> (r: Vec<&str>)
    ensures
        str_views(r@) == failure_ids(*c),
        r.len() == c.failures.len(),
{
    let mut r: Vec<&str> = Vec::new();
    let mut i: usize = 0;
    while i < c.failures.len()
        invariant
            i <= c.failures.len(),
            str_views(r@) == failure_ids(*c).subrange(0, i as int),
        decreases c.failures.len() - i,
    {
        let x = c.failures[i].id.as_str();
        proof {
            lemma_str_views_push(r@, x);
        }
        r.push(x);
        assert(failure_ids(*c)[i as int] == x@);
        assert(str_views(r@) =~= failure_ids(*c).subrange(0, i + 1));
        i = i + 1;
    }
    assert(failure_ids(*c).subrange(0, i as int) =~= failure_ids(*c));
    r
}

/// The state ids, in order.
pub fn state_list(c: &Conversation) -> (r: Vec<&str>)
    ensures
        str_views(r@) == state_ids(*c),
        r.len() == c.states.len(),
{
    let mut r: Vec<&str> = Vec::new();
    let mut i: usize = 0;
    while i < c.states.len()
        invariant
            i <= c.states.len(),
            str_views(r@) == state_ids(*c).subrange(0, i as int),
        decreases c.states.len() - i,
    {
        let x = c.states[i].id();
        proof {
            lemma_str_views_push(r@, x);
        }
        r.push(x);
        assert(state_ids(*c)[i as int] == x@);
        assert(str_views(r@) =~= state_ids(*c).subrange(0, i + 1));
        i = i + 1;
    }
    assert(state_ids(*c).subrange(0, i as int) =~= state_ids(*c));
    r
}

fn check_kinds(c: &Conversation, ds: &mut Vec<Diagnostic>)
    ensures
        diagnostics_view(final(ds)@) == diagnostics_view(old(ds)@) + kind_diagnostics(*c, c.types.len() as nat),
{
    let ghost start = diagnostics_view(ds@);
    let mut i: usize = 0;
    while i < c.types.len()
        invariant
            i <= c.types.len(),
            diagnostics_view(ds@) == start + kind_diagnostics(*c, i as nat),
        decreases c.types.len() - i,
    {
        let t = &c.types[i];
        if !t.definition.contains_key("kind") {
            let msg = concat3("type ", t.id.as_str(), " is missing its kind");
            push_diagnostic(ds, diagnostic("EVE0003", index_path_text("$.types", i, ""), msg));
        }
        assert(diagnostics_view(ds@) =~= start + kind_diagnostics(*c, (i + 1) as nat));
        i = i + 1;
    }
}

fn check_duplicate_states(c: &Conversation, ids: &Vec<&str>, ds: &mut Vec<Diagnostic>)
    requires
        str_views(ids@) == state_ids(*c),
    ensures
        diagnostics_view(final(ds)@) == diagnostics_view(old(ds)@) + duplicate_state_diagnostics(
            *c,
            c.states.len() as nat,
        ),
{
    let ghost start = diagnostics_view(ds@);
    let ghost v = state_ids(*c);
    let mut i: usize = 0;
    while i < ids.len()
        invariant
            str_views(ids@) == v,
            v == state_ids(*c),
            v.len() == c.states.len(),
            i <= ids.len(),
            diagnostics_view(ds@) == start + duplicate_state_diagnostics(*c, i as nat),
        decreases ids.len() - i,
    {
        let id = ids[i];
        assert(v[i as int] == id@);
        let mut seen_before = false;
        let mut j: usize = 0;
        while j < i
            invariant
                str_views(ids@) == v,
                j <= i < ids.len(),
                seen_before == v.subrange(0, j as int).contains(v[i as int]),
                id@ == v[i as int],
            decreases i - j,
        {
            assert(v[j as int] == ids@[j as int]@);
            proof { lemma_push_contains_pub(v.subrange(0, j as int), v[j as int], v[i as int]); }
            assert(v.subrange(0, j + 1) =~= v.subrange(0, j as int).push(v[j as int]));
            if same_text(ids[j], id) {
                seen_before = true;
            }
            j = j + 1;
        }
        if seen_before {
            let msg = concat2("duplicate state id ", id);
            push_diagnostic(ds, diagnostic("EVE0004", state_path_text(i, ".id"), msg));
        }
        assert(diagnostics_view(ds@) =~= start + duplicate_state_diagnostics(*c, (i + 1) as nat));
        i = i + 1;
    }
}

/// Whether some state has the id `t`.
pub fn find_state(ids: &Vec<&str>, t: &str) -> (r: bool)
    ensures
        r == str_views(ids@).contains(t@),
{
    let ghost v = str_views(ids@);
    let mut i: usize = 0;
    while i < ids.len()
        invariant
            i <= ids.len(),
            v == str_views(ids@),
            forall|j: int| 0 <= j < i ==> v[j] != t@,
        decreases ids.len() - i,
    {
        if same_text(ids[i], t) {
            assert(v[i as int] == t@);
            return true;
        }
        i = i + 1;
    }
    false
}

pub proof fn lemma_last_index(ids: Seq<Seq<char>>, t: Seq<char>)
    ensures
        -1 <= last_index(ids, t) < ids.len(),
        last_index(ids, t) >= 0 <==> ids.contains(t),
        last_index(ids, t) >= 0 ==> ids[last_index(ids, t)] == t,
    decreases ids.len(),
{
    if ids.len() > 0 {
        lemma_last_index(ids.drop_last(), t);
        if ids.last() != t {
            lemma_push_contains_pub(ids.drop_last(), ids.last(), t);
            assert(ids == ids.drop_last().push(ids.last()));
        }
    }
}

/// The position of the last state with id `t`.
pub fn last_state(ids: &Vec<&str>, t: &str) -> (r: Option<usize>)
    ensures
        r is Some <==> str_views(ids@).contains(t@),
        r matches Some(k) ==> k as int == last_index(str_views(ids@), t@) && k < ids.len(),
{
    let ghost v = str_views(ids@);
    let mut found: Option<usize> = None;
    let mut i: usize = 0;
    while i < ids.len()
        invariant
            i <= ids.len(),
            v == str_views(ids@),
            match found {
                Some(k) => k as int == last_index(v.subrange(0, i as int), t@) && k < i,
                None => last_index(v.subrange(0, i as int), t@) == -1,
            },
        decreases ids.len() - i,
    {
        assert(v.subrange(0, i + 1).drop_last() =~= v.subrange(0, i as int));
        if same_text(ids[i], t) {
            found = Some(i);
        }
        i = i + 1;
    }
    assert(v.subrange(0, ids.len() as int) =~= v);
    proof {
        lemma_last_index(v, t@);
    }
    found
}

fn check_initial(c: &Conversation, ids: &Vec<&str>, ds: &mut Vec<Diagnostic>)
    requires
        str_views(ids@) == state_ids(*c),
    ensures
        diagnostics_view(final(ds)@) == diagnostics_view(old(ds)@) + initial_diagnostics(*c),
{
    if !find_state(ids, c.initial.as_str()) {
        let msg = concat3("initial state ", c.initial.as_str(), " does not exist");
        push_diagnostic(ds, diagnostic("EVE0005", text_of("$.initial"), msg));
    }
    assert(diagnostics_view(ds@) =~= diagnostics_view(old(ds)@) + initial_diagnostics(*c));
}

fn validate_target(
    c: &Conversation,
    ids: &Vec<&str>,
    i: usize,
    edge: &str,
    target: &str,
    ds: &mut Vec<Diagnostic>,
)
    requires
        str_views(ids@) == state_ids(*c),
    ensures
        diagnostics_view(final(ds)@) == diagnostics_view(old(ds)@) + target_diagnostics(
            *c,
            i as nat,
            edge@,
            target@,
        ),
{
    if !find_state(ids, target) {
        let suffix = concat2(".", edge);
        let msg = concat3("target state ", target, " does not exist");
        push_diagnostic(ds, diagnostic("EVE0016", state_path_text(i, suffix.as_str()), msg));
    }
    assert(diagnostics_view(ds@) =~= diagnostics_view(old(ds)@) + target_diagnostics(
        *c,
        i as nat,
        edge@,
        target@,
    ));
}

fn validate_roles(
    c: &Conversation,
    roles: &Vec<String>,
    i: usize,
    from: &str,
    to: &str,
    ds: &mut Vec<Diagnostic>,
)
    requires
        forall|x: Seq<char>| string_views(roles@).contains(x) <==> declares(role_ids(*c), x),
    ensures
        diagnostics_view(final(ds)@) == diagnostics_view(old(ds)@) + role_pair_diagnostics(
            *c,
            i as nat,
            from@,
            to@,
        ),
{
    if !contains_text(roles, from) {
        push_diagnostic(ds, diagnostic("EVE0013", state_path_text(i, ".from"), concat2("unknown sender role ", from)));
    }
    if !contains_text(roles, to) {
        push_diagnostic(ds, diagnostic("EVE0014", state_path_text(i, ".to"), concat2("unknown receiver role ", to)));
    }
    if same_text(from, to) {
        push_diagnostic(ds, diagnostic("EVE0015", state_path_text(i, ""), text_of("sender and receiver must be different roles")));
    }
    assert(diagnostics_view(ds@) =~= diagnostics_view(old(ds)@) + role_pair_diagnostics(
        *c,
        i as nat,
        from@,
        to@,
    ));
}

fn validate_failure_edges(
    c: &Conversation,
    ids: &Vec<&str>,
    failures: &Vec<String>,
    i: usize,
    edges: &StrMap,
    ds: &mut Vec<Diagnostic>,
)
    requires
        str_views(ids@) == state_ids(*c),
        forall|x: Seq<char>| string_views(failures@).contains(x) <==> declares(failure_ids(*c), x),
    ensures
        diagnostics_view(final(ds)@) == diagnostics_view(old(ds)@) + all_failure_edge_diagnostics(
            *c,
            i as nat,
            edges@,
        ),
{
    let ghost start = diagnostics_view(ds@);
    let n = edges.len();
    let mut k: usize = 0;
    while k < n
        invariant
            n == edges@.len(),
            k <= n,
            str_views(ids@) == state_ids(*c),
            forall|x: Seq<char>| string_views(failures@).contains(x) <==> declares(failure_ids(*c), x),
            diagnostics_view(ds@) == start + failure_edge_diagnostics(*c, i as nat, edges@, k as nat),
        decreases n - k,
    {
        let failure = edges.key_at(k).as_str();
        let target = edges.value_at(k).as_str();
        let ghost before = diagnostics_view(ds@);
        let path = state_path_text(i, concat2(".on_failure.", failure).as_str());
        assert(path@ =~= state_path(i as nat, ".on_failure."@ + failure@));
        if !contains_text(failures, failure) {
            push_diagnostic(ds, diagnostic("EVE0019", path.clone(), concat2("unknown failure type ", failure)));
        }
        let edge = concat2("on_failure.", failure);
        validate_target(c, ids, i, edge.as_str(), target, ds);
        match last_state(ids, target) {
            Some(t) => {
                proof {
                    lemma_last_index(state_ids(*c), target@);
                }
                let reaches = match &c.states[t] {
                    GlobalState::Fail { failure: terminal, .. } => same_text(terminal.as_str(), failure),
                    _ => false,
                };
                if !reaches {
                    push_diagnostic(ds, diagnostic("EVE0020", path, concat2("failure edge must target a terminal fail state for ", failure)));
                }
            },
            None => {},
        }
        assert(diagnostics_view(ds@) =~= before + failure_edge_diagnostic(*c, i as nat, failure@, target@));
        assert(diagnostics_view(ds@) =~= start + failure_edge_diagnostics(*c, i as nat, edges@, (k + 1) as nat));
        k = k + 1;
    }
}

fn check_branches(
    c: &Conversation,
    ids: &Vec<&str>,
    i: usize,
    branches: &StrMap,
    ds: &mut Vec<Diagnostic>,
)
    requires
        str_views(ids@) == state_ids(*c),
    ensures
        diagnostics_view(final(ds)@) == diagnostics_view(old(ds)@) + branch_diagnostics(
            *c,
            i as nat,
            branches@,
            branches@.len(),
        ),
{
    let ghost start = diagnostics_view(ds@);
    let n = branches.len();
    let mut k: usize = 0;
    while k < n
        invariant
            n == branches@.len(),
            k <= n,
            str_views(ids@) == state_ids(*c),
            diagnostics_view(ds@) == start + branch_diagnostics(*c, i as nat, branches@, k as nat),
        decreases n - k,
    {
        let label = branches.key_at(k).as_str();
        let target = branches.value_at(k).as_str();
        let ghost before = diagnostics_view(ds@);
        if label.unicode_len() == 0 {
            push_diagnostic(ds, diagnostic("EVE0009", state_path_text(i, ".branches"), text_of("branch labels cannot be empty")));
        }
        validate_target(c, ids, i, label, target, ds);
        assert(diagnostics_view(ds@) =~= start + branch_diagnostics(*c, i as nat, branches@, (k + 1) as nat));
        k = k + 1;
    }
}

fn check_state(
    c: &Conversation,
    ids: &Vec<&str>,
    roles: &Vec<String>,
    types: &Vec<String>,
    failures: &Vec<String>,
    i: usize,
    ds: &mut Vec<Diagnostic>,
)
    requires
        i < c.states.len(),
        str_views(ids@) == state_ids(*c),
        forall|x: Seq<char>| string_views(roles@).contains(x) <==> declares(role_ids(*c), x),
        forall|x: Seq<char>| string_views(types@).contains(x) <==> declares(type_ids(*c), x),
        forall|x: Seq<char>| string_views(failures@).contains(x) <==> declares(failure_ids(*c), x),
    ensures
        diagnostics_view(final(ds)@) == diagnostics_view(old(ds)@) + state_diagnostic(*c, i as nat),
{
    let ghost before = diagnostics_view(ds@);
    match &c.states[i] {
        GlobalState::Send { from, to, message, next, on_failure, .. } => {
            validate_roles(c, roles, i, from.as_str(), to.as_str(), ds);
            let ghost b1 = diagnostics_view(ds@);
            if !contains_text(types, message.as_str()) {
                push_diagnostic(ds, diagnostic("EVE0006", state_path_text(i, ".message"), concat2("unknown message type ", message.as_str())));
            }
            let ghost b2 = diagnostics_view(ds@);
            validate_target(c, ids, i, "next", next.as_str(), ds);
            let ghost b3 = diagnostics_view(ds@);
            validate_failure_edges(c, ids, failures, i, on_failure, ds);
            assert(diagnostics_view(ds@) =~= before + state_diagnostic(*c, i as nat));
        },
        GlobalState::Choice { chooser, branches, on_failure, .. } => {
            if !contains_text(roles, chooser.as_str()) {
                push_diagnostic(ds, diagnostic("EVE0007", state_path_text(i, ".chooser"), concat2("unknown chooser role ", chooser.as_str())));
            }
            if branches.len() < 2 {
                push_diagnostic(ds, diagnostic("EVE0008", state_path_text(i, ".branches"), text_of("a choice requires at least two branches")));
            }
            check_branches(c, ids, i, branches, ds);
            validate_failure_edges(c, ids, failures, i, on_failure, ds);
            assert(diagnostics_view(ds@) =~= before + state_diagnostic(*c, i as nat));
        },
        GlobalState::Cancel { from, to, scope, next, on_failure, .. } => {
            validate_roles(c, roles, i, from.as_str(), to.as_str(), ds);
            if scope.as_str().unicode_len() == 0 {
                push_diagnostic(ds, diagnostic("EVE0010", state_path_text(i, ".scope"), text_of("cancellation scope cannot be empty")));
            }
            validate_target(c, ids, i, "next", next.as_str(), ds);
            validate_failure_edges(c, ids, failures, i, on_failure, ds);
            assert(diagnostics_view(ds@) =~= before + state_diagnostic(*c, i as nat));
        },
        GlobalState::Fail { failure, .. } => {
            if !contains_text(failures, failure.as_str()) {
                push_diagnostic(ds, diagnostic("EVE0019", state_path_text(i, ".failure"), concat2("unknown failure type ", failure.as_str())));
            }
            assert(diagnostics_view(ds@) =~= before + state_diagnostic(*c, i as nat));
        },
        GlobalState::End { .. } => {
            assert(diagnostics_view(ds@) =~= before + state_diagnostic(*c, i as nat));
        },
    }
}

fn check_states(
    c: &Conversation,
    ids: &Vec<&str>,
    roles: &Vec<String>,
    types: &Vec<String>,
    failures: &Vec<String>,
    ds: &mut Vec<Diagnostic>,
)
    requires
        str_views(ids@) == state_ids(*c),
        forall|x: Seq<char>| string_views(roles@).contains(x) <==> declares(role_ids(*c), x),
        forall|x: Seq<char>| string_views(types@).contains(x) <==> declares(type_ids(*c), x),
        forall|x: Seq<char>| string_views(failures@).contains(x) <==> declares(failure_ids(*c), x),
    ensures
        diagnostics_view(final(ds)@) == diagnostics_view(old(ds)@) + state_diagnostics(
            *c,
            c.states.len() as nat,
        ),
{
    let ghost start = diagnostics_view(ds@);
    let mut i: usize = 0;
    while i < c.states.len()
        invariant
            i <= c.states.len(),
            str_views(ids@) == state_ids(*c),
            forall|x: Seq<char>| string_views(roles@).contains(x) <==> declares(role_ids(*c), x),
            forall|x: Seq<char>| string_views(types@).contains(x) <==> declares(type_ids(*c), x),
            forall|x: Seq<char>| string_views(failures@).contains(x) <==> declares(failure_ids(*c), x),
            diagnostics_view(ds@) == start + state_diagnostics(*c, i as nat),
        decreases c.states.len() - i,
    {
        let ghost before = diagnostics_view(ds@);
        check_state(c, ids, roles, types, failures, i, ds);
        assert(diagnostics_view(ds@) =~= before + state_diagnostic(*c, i as nat));
        assert(diagnostics_view(ds@) =~= start + state_diagnostics(*c, (i + 1) as nat));
        i = i + 1;
    }
}

/// State ids are pairwise distinct.
pub open spec fn unique_state_ids(c: Conversation) -> bool {
    forall|a: int, b: int|
        0 <= a < b < c.states.len() ==> #[trigger] state_ids(c)[a] != #[trigger] state_ids(c)[b]
}

/// Every successor id names a state.
pub open spec fn targets_exist(c: Conversation) -> bool {
    forall|a: int, t: Seq<char>|
        0 <= a < c.states.len() && #[trigger] global_successors(c.states@[a]).contains(t)
            ==> has_state(c, t)
}

/// The successors of state `m` are all marked.
pub open spec fn closed_at(c: Conversation, marked: Seq<bool>, m: int) -> bool {
    forall|j: int| #[trigger] steps_to(c, m, j) ==> marked[j]
}

pub open spec fn count_true(s: Seq<bool>) -> nat
    decreases s.len(),
{
    if s.len() == 0 {
        0
    } else {
        count_true(s.drop_last()) + if s.last() {
            1nat
        } else {
            0nat
        }
    }
}

proof fn lemma_count_true_bound(s: Seq<bool>)
    ensures
        count_true(s) <= s.len(),
    decreases s.len(),
{
    if s.len() > 0 {
        lemma_count_true_bound(s.drop_last());
    }
}

proof fn lemma_count_true_all_false(s: Seq<bool>)
    requires
        forall|k: int| 0 <= k < s.len() ==> !s[k],
    ensures
        count_true(s) == 0,
    decreases s.len(),
{
    if s.len() > 0 {
        lemma_count_true_all_false(s.drop_last());
    }
}

proof fn lemma_count_true_set(s: Seq<bool>, x: int)
    requires
        0 <= x < s.len(),
        !s[x],
    ensures
        count_true(s.update(x, true)) == count_true(s) + 1,
    decreases s.len(),
{
    let t = s.update(x, true);
    if x == s.len() - 1 {
        assert(t.drop_last() =~= s.drop_last());
    } else {
        assert(t.drop_last() =~= s.drop_last().update(x, true));
        lemma_count_true_set(s.drop_last(), x);
    }
}

proof fn lemma_walk_extend(c: Conversation, p: Seq<int>, x: int)
    requires
        is_walk(c, p),
        steps_to(c, p.last(), x),
    ensures
        is_walk(c, p.push(x)),
        p.push(x).last() == x,
{
    let q = p.push(x);
    assert forall|k: int| 0 <= k < q.len() - 1 implies #[trigger] steps_to(c, q[k], q[k + 1]) by {
        if k < p.len() - 1 {
            assert(q[k] == p[k] && q[k + 1] == p[k + 1]);
        } else {
            assert(q[k] == p.last() && q[k + 1] == x);
        }
    }
}

proof fn lemma_walk_marked(c: Conversation, marked: Seq<bool>, init: int, p: Seq<int>, i: int)
    requires
        unique_state_ids(c),
        marked.len() == c.states.len(),
        0 <= init < c.states.len(),
        global_id(c.states@[init]) == c.initial@,
        marked[init],
        forall|m: int| 0 <= m < c.states.len() && marked[m] ==> closed_at(c, marked, m),
        is_walk(c, p),
        0 <= i < p.len(),
    ensures
        marked[p[i]],
    decreases i,
{
    if i == 0 {
        if p[0] != init {
            if p[0] < init {
                assert(state_ids(c)[p[0]] != state_ids(c)[init]);
            } else {
                assert(state_ids(c)[init] != state_ids(c)[p[0]]);
            }
        }
    } else {
        lemma_walk_marked(c, marked, init, p, i - 1);
        let k = i - 1;
        assert(steps_to(c, p[k], p[k + 1]));
        assert(closed_at(c, marked, p[k]));
    }
}

/// The position of the first state with id `t`.
fn first_state(ids: &Vec<&str>, t: &str) -> (r: Option<usize>)
    ensures
        r is Some <==> str_views(ids@).contains(t@),
        r matches Some(k) ==> k < ids.len() && str_views(ids@)[k as int] == t@,
{
    let ghost v = str_views(ids@);
    let mut i: usize = 0;
    while i < ids.len()
        invariant
            i <= ids.len(),
            v == str_views(ids@),
            forall|j: int| 0 <= j < i ==> v[j] != t@,
        decreases ids.len() - i,
    {
        if same_text(ids[i], t) {
            assert(v[i as int] == t@);
            return Some(i);
        }
        i = i + 1;
    }
    None
}

/// Marks exactly the states reachable from the initial state.
fn mark_reachable(c: &Conversation, ids: &Vec<&str>) -> (marked: Vec<bool>)
    requires
        str_views(ids@) == state_ids(*c),
        unique_state_ids(*c),
        targets_exist(*c),
    ensures
        marked.len() == c.states.len(),
        forall|k: int| 0 <= k < c.states.len() ==> marked@[k] == reachable(*c, k),
{
    let n = c.states.len();
    let mut marked: Vec<bool> = Vec::new();
    while marked.len() < n
        invariant
            marked.len() <= n,
            forall|k: int| 0 <= k < marked.len() ==> !marked@[k],
        decreases n - marked.len(),
    {
        marked.push(false);
    }
    let init = match first_state(ids, c.initial.as_str()) {
        Some(k) => k,
        None => {
            proof {
                assert forall|k: int| 0 <= k < c.states.len() implies marked@[k] == reachable(*c, k) by {
                    if reachable(*c, k) {
                        let p = choose|p: Seq<int>| #[trigger] is_walk(*c, p) && p.last() == k;
                        assert(state_ids(*c)[p[0]] == c.initial@);
                    }
                }
            }
            return marked;
        },
    };
    let ghost first_walk = seq![init as int];
    assert(is_walk(*c, first_walk));
    proof {
        lemma_count_true_all_false(marked@);
    }
    proof {
        lemma_count_true_set(marked@, init as int);
    }
    marked.set(init, true);
    let mut stack: Vec<usize> = Vec::new();
    stack.push(init);
    assert(stack@[0] == init);
    assert forall|m: int| 0 <= m < n && #[trigger] marked@[m] implies m == init as int by {}
    proof {
        lemma_count_true_bound(marked@);
    }
    while stack.len() > 0
        invariant
            n == c.states.len(),
            str_views(ids@) == state_ids(*c),
            unique_state_ids(*c),
            targets_exist(*c),
            init < n,
            global_id(c.states@[init as int]) == c.initial@,
            marked.len() == n,
            marked@[init as int],
            count_true(marked@) <= n,
            stack.len() <= count_true(marked@),
            forall|k: int| 0 <= k < n && #[trigger] marked@[k] ==> reachable(*c, k),
            forall|q: int| 0 <= q < stack.len() ==> #[trigger] stack@[q] < n && marked@[stack@[q] as int],
            forall|m: int|
                0 <= m < n && #[trigger] marked@[m] && !stack@.contains(m as usize) ==> closed_at(
                    *c,
                    marked@,
                    m,
                ),
        decreases 2 * (n - count_true(marked@)) + stack.len(),
    {
        let ghost old_stack = stack@;
        assert(old_stack.len() <= count_true(marked@));
        let k = stack.pop().unwrap();
        assert(old_stack == stack@.push(k));
        assert(old_stack[old_stack.len() - 1] == k);
        let succ = c.states[k].successors();
        let ghost c0 = count_true(marked@);
        let mut j: usize = 0;
        while j < succ.len()
            invariant
                n == c.states.len(),
                str_views(ids@) == state_ids(*c),
                unique_state_ids(*c),
                targets_exist(*c),
                init < n,
                k < n,
                marked@[k as int],
                global_id(c.states@[init as int]) == c.initial@,
                marked.len() == n,
                marked@[init as int],
                str_views(succ@) == global_successors(c.states@[k as int]),
                j <= succ.len(),
                count_true(marked@) <= n,
                stack.len() <= count_true(marked@),
                count_true(marked@) >= c0,
                c0 + 1 >= old_stack.len(),
                stack.len() + 1 + c0 == old_stack.len() + count_true(marked@),
                forall|q: int| 0 <= q < j ==> #[trigger] global_successors(c.states@[k as int])[q] == str_views(succ@)[q],
                forall|q: int, x: int|
                    0 <= q < j && 0 <= x < n && #[trigger] str_views(succ@)[q] == #[trigger] state_ids(*c)[x] ==> marked@[x],
                forall|x: int| 0 <= x < n && #[trigger] marked@[x] ==> reachable(*c, x),
                forall|q: int| 0 <= q < stack.len() ==> #[trigger] stack@[q] < n && marked@[stack@[q] as int],
                forall|m: int|
                    0 <= m < n && #[trigger] marked@[m] && !stack@.contains(m as usize) && m != k
                        ==> closed_at(*c, marked@, m),
            decreases succ.len() - j,
        {
            assert(str_views(succ@)[j as int] == succ@[j as int]@);
            assert(global_successors(c.states@[k as int]).contains(succ@[j as int]@));
            match first_state(ids, succ[j]) {
                Some(x) => {
                    if !marked[x] {
                        proof {
                            let p = choose|p: Seq<int>| #[trigger] is_walk(*c, p) && p.last() == k as int;
                            assert(steps_to(*c, k as int, x as int));
                            lemma_walk_extend(*c, p, x as int);
                            lemma_count_true_set(marked@, x as int);
                            lemma_count_true_bound(marked@.update(x as int, true));
                        }
                        let ghost before_stack = stack@;
                        let ghost before_marked = marked@;
                        marked.set(x, true);
                        stack.push(x);
                        proof {
                            assert forall|m: int|
                                0 <= m < n && #[trigger] marked@[m] && !stack@.contains(m as usize) && m != k
                                    implies closed_at(*c, marked@, m) by {
                                if m != x as int {
                                    assert(!before_stack.contains(m as usize)) by {
                                        if before_stack.contains(m as usize) {
                                            let q = choose|q: int| 0 <= q < before_stack.len() && before_stack[q] == m as usize;
                                            assert(stack@[q] == m as usize);
                                        }
                                    }
                                    assert(closed_at(*c, before_marked, m));
                                    assert forall|y: int| #[trigger] steps_to(*c, m, y) implies marked@[y] by {
                                        assert(before_marked[y]);
                                    }
                                } else {
                                    assert(stack@[stack@.len() - 1] == x);
                                }
                            }
                        }
                    }
                },
                None => {},
            }
            j = j + 1;
        }
        proof {
            assert(closed_at(*c, marked@, k as int)) by {
                assert forall|y: int| #[trigger] steps_to(*c, k as int, y) implies marked@[y] by {
                    let t = global_id(c.states@[y]);
                    let q = choose|q: int| 0 <= q < global_successors(c.states@[k as int]).len() && global_successors(c.states@[k as int])[q] == t;
                    assert(state_ids(*c)[y] == t);
                }
            }
        }
    }
    proof {
        assert forall|k: int| 0 <= k < n implies marked@[k] == reachable(*c, k) by {
            if reachable(*c, k) {
                let p = choose|p: Seq<int>| #[trigger] is_walk(*c, p) && p.last() == k;
                assert forall|m: int| 0 <= m < c.states.len() && marked@[m] implies closed_at(*c, marked@, m) by {
                    assert(!stack@.contains(m as usize));
                }
                lemma_walk_marked(*c, marked@, init as int, p, p.len() - 1);
            }
        }
    }
    marked
}

proof fn lemma_state_diagnostics_empty(c: Conversation, n: nat)
    requires
        state_diagnostics(c, n).len() == 0,
    ensures
        forall|i: nat| i < n ==> #[trigger] state_diagnostic(c, i).len() == 0,
    decreases n,
{
    if n > 0 {
        lemma_state_diagnostics_empty(c, (n - 1) as nat);
    }
}

proof fn lemma_failure_edge_targets(c: Conversation, i: nat, edges: TextPairs, n: nat)
    requires
        failure_edge_diagnostics(c, i, edges, n).len() == 0,
        n <= edges.len(),
    ensures
        forall|q: int| 0 <= q < n ==> has_state(c, #[trigger] edges[q].1),
    decreases n,
{
    if n > 0 {
        lemma_failure_edge_targets(c, i, edges, (n - 1) as nat);
    }
}

proof fn lemma_branch_targets(c: Conversation, i: nat, edges: TextPairs, n: nat)
    requires
        branch_diagnostics(c, i, edges, n).len() == 0,
        n <= edges.len(),
    ensures
        forall|q: int| 0 <= q < n ==> has_state(c, #[trigger] edges[q].1),
    decreases n,
{
    if n > 0 {
        lemma_branch_targets(c, i, edges, (n - 1) as nat);
    }
}

proof fn lemma_duplicates_empty(c: Conversation, n: nat)
    requires
        duplicate_state_diagnostics(c, n).len() == 0,
        n <= c.states.len(),
    ensures
        forall|b: int| 0 <= b < n ==> !state_ids(c).subrange(0, b).contains(#[trigger] state_ids(c)[b]),
    decreases n,
{
    if n > 0 {
        lemma_duplicates_empty(c, (n - 1) as nat);
    }
}

proof fn lemma_values_member(p: TextPairs, t: Seq<char>) -> (q: int)
    requires
        crate::map::values_of(p).contains(t),
    ensures
        0 <= q < p.len(),
        p[q].1 == t,
{
    let q = choose|q: int| 0 <= q < crate::map::values_of(p).len() && crate::map::values_of(p)[q] == t;
    q
}

/// A conversation without structural findings has distinct state ids, an existing
/// initial state, and a state for every transition target.
pub proof fn lemma_structurally_sound(c: Conversation)
    requires
        structural_diagnostics(c).len() == 0,
    ensures
        unique_state_ids(c),
        targets_exist(c),
        has_state(c, c.initial@),
        c.roles.len() == 2,
{
    assert(role_count_diagnostics(c).len() == 0);
    lemma_duplicates_empty(c, c.states.len() as nat);
    assert forall|a: int, b: int| 0 <= a < b < c.states.len() implies #[trigger] state_ids(c)[a]
        != #[trigger] state_ids(c)[b] by {
        assert(state_ids(c).subrange(0, b)[a] == state_ids(c)[a]);
    }
    lemma_state_diagnostics_empty(c, c.states.len() as nat);
    assert forall|a: int, t: Seq<char>|
        0 <= a < c.states.len() && #[trigger] global_successors(c.states@[a]).contains(t)
        implies has_state(c, t) by {
        assert(state_diagnostic(c, a as nat).len() == 0);
        let q = choose|q: int| 0 <= q < global_successors(c.states@[a]).len() && global_successors(c.states@[a])[q] == t;
        match c.states@[a] {
            GlobalState::Send { next, on_failure, .. } => {
                lemma_failure_edge_targets(c, a as nat, on_failure@, on_failure@.len());
                if q > 0 {
                    assert(crate::map::values_of(on_failure@)[q - 1] == t);
                    let r = lemma_values_member(on_failure@, t);
                }
            },
            GlobalState::Cancel { next, on_failure, .. } => {
                lemma_failure_edge_targets(c, a as nat, on_failure@, on_failure@.len());
                if q > 0 {
                    assert(crate::map::values_of(on_failure@)[q - 1] == t);
                    let r = lemma_values_member(on_failure@, t);
                }
            },
            GlobalState::Choice { branches, on_failure, .. } => {
                lemma_failure_edge_targets(c, a as nat, on_failure@, on_failure@.len());
                lemma_branch_targets(c, a as nat, branches@, branches@.len());
                let nb = crate::map::values_of(branches@).len();
                if q < nb {
                    assert(crate::map::values_of(branches@)[q] == t);
                    let r = lemma_values_member(branches@, t);
                } else {
                    assert(crate::map::values_of(on_failure@)[q - nb] == t);
                    let r = lemma_values_member(on_failure@, t);
                }
            },
            _ => {},
        }
    }
}

proof fn lemma_unique_ids_empty(ids: Seq<Seq<char>>, path: Seq<char>, kind: Seq<char>, n: nat)
    requires
        unique_id_diagnostics(ids, path, kind, n).len() == 0,
    ensures
        forall|i: int| 0 <= i < n ==> (#[trigger] unique_id_diagnostic(ids, i, path, kind)).len() == 0,
    decreases n,
{
    if n > 0 {
        lemma_unique_ids_empty(ids, path, kind, (n - 1) as nat);
    }
}

/// In a conversation without structural findings the two roles differ, and every state
/// names declared roles: a sender and a receiver that differ, or a declared chooser.
pub proof fn lemma_roles_sound(c: Conversation)
    requires
        structural_diagnostics(c).len() == 0,
    ensures
        c.roles.len() == 2,
        role_ids(c)[0] != role_ids(c)[1],
        forall|i: int| 0 <= i < c.states.len() ==> match #[trigger] c.states@[i] {
            GlobalState::Send { from, to, .. } | GlobalState::Cancel { from, to, .. } => role_ids(c).contains(from@)
                && role_ids(c).contains(to@) && from@ != to@,
            GlobalState::Choice { chooser, .. } => role_ids(c).contains(chooser@),
            _ => true,
        },
{
    lemma_structurally_sound(c);
    lemma_unique_ids_empty(role_ids(c), "$.roles"@, "role"@, c.roles.len() as nat);
    assert(unique_id_diagnostic(role_ids(c), 1, "$.roles"@, "role"@).len() == 0);
    assert(role_ids(c).subrange(0, 1)[0] == role_ids(c)[0]);
    lemma_state_diagnostics_empty(c, c.states.len() as nat);
    assert forall|i: int| 0 <= i < c.states.len() implies match #[trigger] c.states@[i] {
        GlobalState::Send { from, to, .. } | GlobalState::Cancel { from, to, .. } => role_ids(c).contains(from@)
            && role_ids(c).contains(to@) && from@ != to@,
        GlobalState::Choice { chooser, .. } => role_ids(c).contains(chooser@),
        _ => true,
    } by {
        assert(state_diagnostic(c, i as nat).len() == 0);
    }
}

/// The ids are non-empty and each occurs once.
pub open spec fn ids_unique(ids: Seq<Seq<char>>) -> bool {
    forall|i: int| 0 <= i < ids.len() ==> ids[i].len() > 0 && !ids.subrange(0, i).contains(#[trigger] ids[i])
}

/// Every state names declared things: a data message names a declared type, a failure
/// state a declared failure, a choice has at least two branches, and every failure edge
/// names a declared failure and leads to a failure state of that failure.
pub open spec fn references_declared(c: Conversation) -> bool {
    forall|i: int| 0 <= i < c.states.len() ==> {
        &&& match #[trigger] c.states@[i] {
            GlobalState::Send { message, .. } => declares(type_ids(c), message@),
            GlobalState::Fail { failure, .. } => declares(failure_ids(c), failure@),
            GlobalState::Choice { branches, .. } => branches@.len() >= 2,
            _ => true,
        }
        &&& forall|q: int| 0 <= q < global_failure_edges(c.states@[i]).len() ==> declares(
            failure_ids(c),
            #[trigger] global_failure_edges(c.states@[i])[q].0,
        ) && failure_edge_reaches_fail(c, global_failure_edges(c.states@[i])[q].1, global_failure_edges(c.states@[i])[q].0)
    }
}

proof fn lemma_kinds_empty(c: Conversation, n: nat)
    requires
        kind_diagnostics(c, n).len() == 0,
    ensures
        forall|i: int| 0 <= i < n ==> lookup((#[trigger] c.types@[i]).definition@, "kind"@) is Some,
    decreases n,
{
    if n > 0 {
        lemma_kinds_empty(c, (n - 1) as nat);
    }
}

proof fn lemma_failure_edges_empty(c: Conversation, i: nat, edges: TextPairs, n: nat)
    requires
        failure_edge_diagnostics(c, i, edges, n).len() == 0,
        n <= edges.len(),
    ensures
        forall|q: int| 0 <= q < n ==> declares(failure_ids(c), #[trigger] edges[q].0)
            && failure_edge_reaches_fail(c, edges[q].1, edges[q].0),
    decreases n,
{
    if n > 0 {
        lemma_failure_edges_empty(c, i, edges, (n - 1) as nat);
    }
}

proof fn lemma_unreachable_empty(c: Conversation, n: nat)
    requires
        unreachable_diagnostics(c, n).len() == 0,
    ensures
        forall|k: int| 0 <= k < n ==> #[trigger] reachable(c, k),
    decreases n,
{
    if n > 0 {
        lemma_unreachable_empty(c, (n - 1) as nat);
    }
}

/// A valid conversation is well formed: it has the current format; two roles; role,
/// type, failure and state ids that are non-empty and unique; a kind for every type; an
/// initial state; a state for every target; declared roles, message types and failures
/// in every state, with every failure edge leading to a failure state of its failure;
/// every state reachable from the initial state; and a reachable end or failure.
pub proof fn law_valid_conversation_is_well_formed(c: Conversation)
    requires
        is_valid(c),
    ensures
        c.eve_conversation@ == CONVERSATION_FORMAT@,
        c.roles.len() == 2,
        ids_unique(role_ids(c)),
        ids_unique(type_ids(c)),
        ids_unique(failure_ids(c)),
        forall|i: int| 0 <= i < c.types.len() ==> lookup((#[trigger] c.types@[i]).definition@, "kind"@) is Some,
        unique_state_ids(c),
        has_state(c, c.initial@),
        targets_exist(c),
        forall|i: int| 0 <= i < c.states.len() ==> match #[trigger] c.states@[i] {
            GlobalState::Send { from, to, .. } | GlobalState::Cancel { from, to, .. } => role_ids(c).contains(from@)
                && role_ids(c).contains(to@) && from@ != to@,
            GlobalState::Choice { chooser, .. } => role_ids(c).contains(chooser@),
            _ => true,
        },
        references_declared(c),
        forall|k: int| 0 <= k < c.states.len() ==> #[trigger] reachable(c, k),
        reaches_terminal(c),
{
    assert(structural_diagnostics(c).len() == 0);
    lemma_structurally_sound(c);
    lemma_roles_sound(c);
    lemma_unique_ids_empty(role_ids(c), "$.roles"@, "role"@, c.roles.len() as nat);
    lemma_unique_ids_empty(type_ids(c), "$.types"@, "type"@, c.types.len() as nat);
    lemma_unique_ids_empty(failure_ids(c), "$.failures"@, "failure"@, c.failures.len() as nat);
    assert forall|i: int| 0 <= i < role_ids(c).len() implies role_ids(c)[i].len() > 0 && !role_ids(c).subrange(0, i).contains(
        #[trigger] role_ids(c)[i],
    ) by {
        assert(unique_id_diagnostic(role_ids(c), i, "$.roles"@, "role"@).len() == 0);
    }
    assert forall|i: int| 0 <= i < type_ids(c).len() implies type_ids(c)[i].len() > 0 && !type_ids(c).subrange(0, i).contains(
        #[trigger] type_ids(c)[i],
    ) by {
        assert(unique_id_diagnostic(type_ids(c), i, "$.types"@, "type"@).len() == 0);
    }
    assert forall|i: int| 0 <= i < failure_ids(c).len() implies failure_ids(c)[i].len() > 0 && !failure_ids(c).subrange(0, i).contains(
        #[trigger] failure_ids(c)[i],
    ) by {
        assert(unique_id_diagnostic(failure_ids(c), i, "$.failures"@, "failure"@).len() == 0);
    }
    lemma_kinds_empty(c, c.types.len() as nat);
    lemma_state_diagnostics_empty(c, c.states.len() as nat);
    assert forall|i: int| 0 <= i < c.states.len() implies {
        &&& match #[trigger] c.states@[i] {
            GlobalState::Send { message, .. } => declares(type_ids(c), message@),
            GlobalState::Fail { failure, .. } => declares(failure_ids(c), failure@),
            GlobalState::Choice { branches, .. } => branches@.len() >= 2,
            _ => true,
        }
        &&& forall|q: int| 0 <= q < global_failure_edges(c.states@[i]).len() ==> declares(
            failure_ids(c),
            #[trigger] global_failure_edges(c.states@[i])[q].0,
        ) && failure_edge_reaches_fail(c, global_failure_edges(c.states@[i])[q].1, global_failure_edges(c.states@[i])[q].0)
    } by {
        assert(state_diagnostic(c, i as nat).len() == 0);
        let edges = global_failure_edges(c.states@[i]);
        match c.states@[i] {
            GlobalState::Send { on_failure, .. } | GlobalState::Choice { on_failure, .. } | GlobalState::Cancel { on_failure, .. } => {
                lemma_failure_edges_empty(c, i as nat, on_failure@, on_failure@.len());
            },
            _ => {},
        }
    }
    assert(reachability_diagnostics(c).len() == 0);
    lemma_unreachable_empty(c, c.states.len() as nat);
}

/// A code that only the reachability checks report.
pub open spec fn is_reachability_code(code: Seq<char>) -> bool {
    code == "EVE0017"@ || code == "EVE0018"@
}

/// None of the findings has a reachability code.
pub open spec fn no_reachability_codes(ds: Seq<DiagnosticView>) -> bool {
    forall|i: int| 0 <= i < ds.len() ==> !is_reachability_code(#[trigger] ds[i].0)
}

proof fn lemma_codes_concat(a: Seq<DiagnosticView>, b: Seq<DiagnosticView>)
    requires
        no_reachability_codes(a),
        no_reachability_codes(b),
    ensures
        no_reachability_codes(a + b),
{
    assert forall|i: int| 0 <= i < (a + b).len() implies !is_reachability_code(#[trigger] (a + b)[i].0) by {
        if i < a.len() {
            assert((a + b)[i] == a[i]);
        } else {
            assert((a + b)[i] == b[i - a.len()]);
        }
    }
}

proof fn lemma_code_one(cond: bool, code: Seq<char>, path: Seq<char>, message: Seq<char>)
    requires
        !is_reachability_code(code),
    ensures
        no_reachability_codes(when(cond, one(code, path, message))),
{
}

proof fn lemma_reveal_codes()
    ensures
        !is_reachability_code("EVE0001"@), !is_reachability_code("EVE0002"@), !is_reachability_code("EVE0003"@),
        !is_reachability_code("EVE0004"@), !is_reachability_code("EVE0005"@), !is_reachability_code("EVE0006"@),
        !is_reachability_code("EVE0007"@), !is_reachability_code("EVE0008"@), !is_reachability_code("EVE0009"@),
        !is_reachability_code("EVE0010"@), !is_reachability_code("EVE0011"@), !is_reachability_code("EVE0012"@),
        !is_reachability_code("EVE0013"@), !is_reachability_code("EVE0014"@), !is_reachability_code("EVE0015"@),
        !is_reachability_code("EVE0016"@), !is_reachability_code("EVE0019"@), !is_reachability_code("EVE0020"@),
        is_reachability_code("EVE0017"@), is_reachability_code("EVE0018"@),
{
    reveal_strlit("EVE0001");
    reveal_strlit("EVE0002");
    reveal_strlit("EVE0003");
    reveal_strlit("EVE0004");
    reveal_strlit("EVE0005");
    reveal_strlit("EVE0006");
    reveal_strlit("EVE0007");
    reveal_strlit("EVE0008");
    reveal_strlit("EVE0009");
    reveal_strlit("EVE0010");
    reveal_strlit("EVE0011");
    reveal_strlit("EVE0012");
    reveal_strlit("EVE0013");
    reveal_strlit("EVE0014");
    reveal_strlit("EVE0015");
    reveal_strlit("EVE0016");
    reveal_strlit("EVE0017");
    reveal_strlit("EVE0018");
    reveal_strlit("EVE0019");
    reveal_strlit("EVE0020");
    assert("EVE0001"@[6] != "EVE0017"@[6]);
    assert("EVE0002"@[6] != "EVE0017"@[6]);
    assert("EVE0003"@[6] != "EVE0017"@[6]);
    assert("EVE0004"@[6] != "EVE0017"@[6]);
    assert("EVE0005"@[6] != "EVE0017"@[6]);
    assert("EVE0006"@[6] != "EVE0017"@[6]);
    assert("EVE0008"@[6] != "EVE0017"@[6]);
    assert("EVE0009"@[6] != "EVE0017"@[6]);
    assert("EVE0010"@[6] != "EVE0017"@[6]);
    assert("EVE0011"@[6] != "EVE0017"@[6]);
    assert("EVE0012"@[6] != "EVE0017"@[6]);
    assert("EVE0013"@[6] != "EVE0017"@[6]);
    assert("EVE0014"@[6] != "EVE0017"@[6]);
    assert("EVE0015"@[6] != "EVE0017"@[6]);
    assert("EVE0016"@[6] != "EVE0017"@[6]);
    assert("EVE0019"@[6] != "EVE0017"@[6]);
    assert("EVE0020"@[6] != "EVE0017"@[6]);
    assert("EVE0007"@[5] != "EVE0017"@[5]);
    assert("EVE0001"@[6] != "EVE0018"@[6]);
    assert("EVE0002"@[6] != "EVE0018"@[6]);
    assert("EVE0003"@[6] != "EVE0018"@[6]);
    assert("EVE0004"@[6] != "EVE0018"@[6]);
    assert("EVE0005"@[6] != "EVE0018"@[6]);
    assert("EVE0006"@[6] != "EVE0018"@[6]);
    assert("EVE0007"@[6] != "EVE0018"@[6]);
    assert("EVE0009"@[6] != "EVE0018"@[6]);
    assert("EVE0010"@[6] != "EVE0018"@[6]);
    assert("EVE0011"@[6] != "EVE0018"@[6]);
    assert("EVE0012"@[6] != "EVE0018"@[6]);
    assert("EVE0013"@[6] != "EVE0018"@[6]);
    assert("EVE0014"@[6] != "EVE0018"@[6]);
    assert("EVE0015"@[6] != "EVE0018"@[6]);
    assert("EVE0016"@[6] != "EVE0018"@[6]);
    assert("EVE0019"@[6] != "EVE0018"@[6]);
    assert("EVE0020"@[6] != "EVE0018"@[6]);
    assert("EVE0008"@[5] != "EVE0018"@[5]);
}

proof fn lemma_unique_id_codes(ids: Seq<Seq<char>>, path: Seq<char>, kind: Seq<char>, n: nat)
    requires
        n <= ids.len(),
    ensures
        no_reachability_codes(unique_id_diagnostics(ids, path, kind, n)),
    decreases n,
{
    lemma_reveal_codes();
    if n > 0 {
        lemma_unique_id_codes(ids, path, kind, (n - 1) as nat);
        lemma_codes_concat(unique_id_diagnostics(ids, path, kind, (n - 1) as nat), unique_id_diagnostic(ids, n - 1, path, kind));
    }
}

proof fn lemma_kind_codes(c: Conversation, n: nat)
    requires
        n <= c.types.len(),
    ensures
        no_reachability_codes(kind_diagnostics(c, n)),
    decreases n,
{
    lemma_reveal_codes();
    if n > 0 {
        lemma_kind_codes(c, (n - 1) as nat);
        let t = c.types@[n - 1];
        lemma_code_one(lookup(t.definition@, "kind"@) is None, "EVE0003"@, index_path("$.types"@, (n - 1) as nat, ""@), "type "@ + t.id@ + " is missing its kind"@);
        lemma_codes_concat(kind_diagnostics(c, (n - 1) as nat), when(
            lookup(t.definition@, "kind"@) is None,
            one("EVE0003"@, index_path("$.types"@, (n - 1) as nat, ""@), "type "@ + t.id@ + " is missing its kind"@),
        ));
    }
}

proof fn lemma_duplicate_codes(c: Conversation, n: nat)
    requires
        n <= c.states.len(),
    ensures
        no_reachability_codes(duplicate_state_diagnostics(c, n)),
    decreases n,
{
    lemma_reveal_codes();
    if n > 0 {
        lemma_duplicate_codes(c, (n - 1) as nat);
        let i = n - 1;
        let ids = state_ids(c);
        lemma_codes_concat(duplicate_state_diagnostics(c, (n - 1) as nat), when(
            ids.subrange(0, i).contains(ids[i]),
            one("EVE0004"@, state_path(i as nat, ".id"@), "duplicate state id "@ + ids[i]),
        ));
    }
}

proof fn lemma_failure_edge_codes(c: Conversation, i: nat, edges: TextPairs, n: nat)
    requires
        n <= edges.len(),
    ensures
        no_reachability_codes(failure_edge_diagnostics(c, i, edges, n)),
    decreases n,
{
    lemma_reveal_codes();
    if n > 0 {
        lemma_failure_edge_codes(c, i, edges, (n - 1) as nat);
        let failure = edges[n - 1].0;
        let target = edges[n - 1].1;
        let path = state_path(i, ".on_failure."@ + failure);
        let a = when(!declares(failure_ids(c), failure), one("EVE0019"@, path, "unknown failure type "@ + failure));
        let b = target_diagnostics(c, i, "on_failure."@ + failure, target);
        let d = when(
            has_state(c, target) && !failure_edge_reaches_fail(c, target, failure),
            one("EVE0020"@, path, "failure edge must target a terminal fail state for "@ + failure),
        );
        lemma_codes_concat(a, b);
        lemma_codes_concat(a + b, d);
        lemma_codes_concat(failure_edge_diagnostics(c, i, edges, (n - 1) as nat), a + b + d);
    }
}

proof fn lemma_branch_codes(c: Conversation, i: nat, branches: TextPairs, n: nat)
    requires
        n <= branches.len(),
    ensures
        no_reachability_codes(branch_diagnostics(c, i, branches, n)),
    decreases n,
{
    lemma_reveal_codes();
    if n > 0 {
        lemma_branch_codes(c, i, branches, (n - 1) as nat);
        let label = branches[n - 1].0;
        let a = when(label.len() == 0, one("EVE0009"@, state_path(i, ".branches"@), "branch labels cannot be empty"@));
        let b = target_diagnostics(c, i, label, branches[n - 1].1);
        lemma_codes_concat(a, b);
        lemma_codes_concat(branch_diagnostics(c, i, branches, (n - 1) as nat), a + b);
    }
}

proof fn lemma_state_codes(c: Conversation, n: nat)
    requires
        n <= c.states.len(),
    ensures
        no_reachability_codes(state_diagnostics(c, n)),
    decreases n,
{
    lemma_reveal_codes();
    if n > 0 {
        lemma_state_codes(c, (n - 1) as nat);
        let i = (n - 1) as nat;
        match c.states@[i as int] {
            GlobalState::Send { from, to, message, next, on_failure, .. } => {
                let a = role_pair_diagnostics(c, i, from@, to@);
                let m = when(!declares(type_ids(c), message@), one("EVE0006"@, state_path(i, ".message"@), "unknown message type "@ + message@));
                let t = target_diagnostics(c, i, "next"@, next@);
                lemma_failure_edge_codes(c, i, on_failure@, on_failure@.len());
                let f = all_failure_edge_diagnostics(c, i, on_failure@);
                lemma_codes_concat(a, m);
                lemma_codes_concat(a + m, t);
                lemma_codes_concat(a + m + t, f);
            },
            GlobalState::Choice { chooser, branches, on_failure, .. } => {
                let a = when(!declares(role_ids(c), chooser@), one("EVE0007"@, state_path(i, ".chooser"@), "unknown chooser role "@ + chooser@));
                let b = when(branches@.len() < 2, one("EVE0008"@, state_path(i, ".branches"@), "a choice requires at least two branches"@));
                lemma_branch_codes(c, i, branches@, branches@.len());
                let d = branch_diagnostics(c, i, branches@, branches@.len());
                lemma_failure_edge_codes(c, i, on_failure@, on_failure@.len());
                let f = all_failure_edge_diagnostics(c, i, on_failure@);
                lemma_codes_concat(a, b);
                lemma_codes_concat(a + b, d);
                lemma_codes_concat(a + b + d, f);
            },
            GlobalState::Cancel { from, to, scope, next, on_failure, .. } => {
                let a = role_pair_diagnostics(c, i, from@, to@);
                let m = when(scope@.len() == 0, one("EVE0010"@, state_path(i, ".scope"@), "cancellation scope cannot be empty"@));
                let t = target_diagnostics(c, i, "next"@, next@);
                lemma_failure_edge_codes(c, i, on_failure@, on_failure@.len());
                let f = all_failure_edge_diagnostics(c, i, on_failure@);
                lemma_codes_concat(a, m);
                lemma_codes_concat(a + m, t);
                lemma_codes_concat(a + m + t, f);
            },
            _ => {},
        }
        lemma_codes_concat(state_diagnostics(c, (n - 1) as nat), state_diagnostic(c, i));
    }
}

proof fn lemma_unreachable_codes(c: Conversation, n: nat)
    ensures
        forall|i: int| 0 <= i < unreachable_diagnostics(c, n).len() ==> is_reachability_code(
            #[trigger] unreachable_diagnostics(c, n)[i].0,
        ),
    decreases n,
{
    lemma_reveal_codes();
    if n > 0 {
        lemma_unreachable_codes(c, (n - 1) as nat);
        let prev = unreachable_diagnostics(c, (n - 1) as nat);
        assert forall|i: int| 0 <= i < unreachable_diagnostics(c, n).len() implies is_reachability_code(
            #[trigger] unreachable_diagnostics(c, n)[i].0,
        ) by {
            if i < prev.len() {
                assert(unreachable_diagnostics(c, n)[i] == prev[i]);
            }
        }
    }
}

/// What a refused conversation is told: at least one finding; the structural findings
/// when there are any, and none of the reachability codes among them; otherwise only
/// reachability findings.
pub proof fn law_validation_errors(c: Conversation)
    ensures
        !is_valid(c) ==> validation_diagnostics(c).len() > 0,
        structural_diagnostics(c).len() > 0 ==> validation_diagnostics(c) == structural_diagnostics(c)
            && no_reachability_codes(validation_diagnostics(c)),
        structural_diagnostics(c).len() == 0 ==> forall|i: int|
            0 <= i < validation_diagnostics(c).len() ==> is_reachability_code(#[trigger] validation_diagnostics(c)[i].0),
        forall|i: int| 0 <= i < validation_diagnostics(c).len() && is_reachability_code(#[trigger] validation_diagnostics(c)[i].0)
            ==> structural_diagnostics(c).len() == 0,
{
    lemma_reveal_codes();
    lemma_unique_id_codes(role_ids(c), "$.roles"@, "role"@, c.roles.len() as nat);
    lemma_unique_id_codes(type_ids(c), "$.types"@, "type"@, c.types.len() as nat);
    lemma_unique_id_codes(failure_ids(c), "$.failures"@, "failure"@, c.failures.len() as nat);
    lemma_kind_codes(c, c.types.len() as nat);
    lemma_duplicate_codes(c, c.states.len() as nat);
    lemma_state_codes(c, c.states.len() as nat);
    let p1 = format_diagnostics(c);
    let p2 = unique_id_diagnostics(role_ids(c), "$.roles"@, "role"@, c.roles.len() as nat);
    let p3 = role_count_diagnostics(c);
    let p4 = unique_id_diagnostics(type_ids(c), "$.types"@, "type"@, c.types.len() as nat);
    let p5 = kind_diagnostics(c, c.types.len() as nat);
    let p6 = unique_id_diagnostics(failure_ids(c), "$.failures"@, "failure"@, c.failures.len() as nat);
    let p7 = duplicate_state_diagnostics(c, c.states.len() as nat);
    let p8 = initial_diagnostics(c);
    let p9 = state_diagnostics(c, c.states.len() as nat);
    lemma_codes_concat(p1, p2);
    lemma_codes_concat(p1 + p2, p3);
    lemma_codes_concat(p1 + p2 + p3, p4);
    lemma_codes_concat(p1 + p2 + p3 + p4, p5);
    lemma_codes_concat(p1 + p2 + p3 + p4 + p5, p6);
    lemma_codes_concat(p1 + p2 + p3 + p4 + p5 + p6, p7);
    lemma_codes_concat(p1 + p2 + p3 + p4 + p5 + p6 + p7, p8);
    lemma_codes_concat(p1 + p2 + p3 + p4 + p5 + p6 + p7 + p8, p9);
    assert(structural_diagnostics(c) == p1 + p2 + p3 + p4 + p5 + p6 + p7 + p8 + p9);
    lemma_unreachable_codes(c, c.states.len() as nat);
    let u = unreachable_diagnostics(c, c.states.len() as nat);
    let r = reachability_diagnostics(c);
    assert forall|i: int| 0 <= i < r.len() implies is_reachability_code(#[trigger] r[i].0) by {
        if i < u.len() {
            assert(r[i] == u[i]);
        }
    }
}

fn validate_reachability(c: &Conversation, ids: &Vec<&str>, ds: &mut Vec<Diagnostic>)
    requires
        str_views(ids@) == state_ids(*c),
        unique_state_ids(*c),
        targets_exist(*c),
    ensures
        diagnostics_view(final(ds)@) == diagnostics_view(old(ds)@) + reachability_diagnostics(*c),
{
    let marked = mark_reachable(c, ids);
    let ghost start = diagnostics_view(ds@);
    let n = c.states.len();
    let mut k: usize = 0;
    while k < n
        invariant
            n == c.states.len(),
            marked.len() == n,
            forall|x: int| 0 <= x < n ==> marked@[x] == reachable(*c, x),
            k <= n,
            diagnostics_view(ds@) == start + unreachable_diagnostics(*c, k as nat),
        decreases n - k,
    {
        if !marked[k] {
            let mut path = text_of("$.states[id=");
            push_text(&mut path, c.states[k].id());
            push_text(&mut path, "]");
            push_diagnostic(ds, diagnostic("EVE0017", path, text_of("state is unreachable from the initial state")));
        }
        assert(diagnostics_view(ds@) =~= start + unreachable_diagnostics(*c, (k + 1) as nat));
        k = k + 1;
    }
    let mut terminal = false;
    let mut k: usize = 0;
    while k < n
        invariant
            n == c.states.len(),
            marked.len() == n,
            forall|x: int| 0 <= x < n ==> marked@[x] == reachable(*c, x),
            k <= n,
            terminal == exists|x: int| 0 <= x < k && reachable(*c, x) && global_is_terminal(#[trigger] c.states@[x]),
        decreases n - k,
    {
        let is_terminal = match &c.states[k] {
            GlobalState::End { .. } | GlobalState::Fail { .. } => true,
            _ => false,
        };
        if marked[k] && is_terminal {
            terminal = true;
        }
        k = k + 1;
    }
    if !terminal {
        push_diagnostic(ds, diagnostic("EVE0018", text_of("$.states"), text_of("no successful or failed terminal state is reachable from the initial state")));
    }
    assert(diagnostics_view(ds@) =~= start + reachability_diagnostics(*c));
}

/// Checks a global conversation. It succeeds exactly when the validator has no finding;
/// otherwise every finding is reported, in order.
pub fn validate(conversation: &Conversation) -> (r: Result<(), ValidationErrors>)
    ensures
        r is Ok <==> is_valid(*conversation),
        r matches Err(e) ==> diagnostics_view(e.diagnostics@) == validation_diagnostics(*conversation),
{
    let c = conversation;
    let mut ds: Vec<Diagnostic> = Vec::new();
    assert(diagnostics_view(ds@) =~= Seq::<DiagnosticView>::empty());
    check_format(c, &mut ds);
    let role_names = role_list(c);
    assert(role_names.len() == c.roles.len() && str_views(role_names@).len() == role_names.len());
    let roles = unique_ids(&role_names, "$.roles", "role", &mut ds);
    let ghost d1 = diagnostics_view(ds@);
    if c.roles.len() != 2 {
        push_diagnostic(&mut ds, diagnostic("EVE0002", text_of("$.roles"), text_of("Eve Conversation v0 endpoint projection requires exactly two roles")));
    }
    assert(diagnostics_view(ds@) =~= d1 + role_count_diagnostics(*c));
    let type_names = type_list(c);
    assert(type_names.len() == c.types.len() && str_views(type_names@).len() == type_names.len());
    let types = unique_ids(&type_names, "$.types", "type", &mut ds);
    check_kinds(c, &mut ds);
    let failure_names = failure_list(c);
    assert(failure_names.len() == c.failures.len() && str_views(failure_names@).len() == failure_names.len());
    let failures = unique_ids(&failure_names, "$.failures", "failure", &mut ds);
    let ids = state_list(c);
    check_duplicate_states(c, &ids, &mut ds);
    check_initial(c, &ids, &mut ds);
    check_states(c, &ids, &roles, &types, &failures, &mut ds);
    assert(diagnostics_view(ds@) =~= structural_diagnostics(*c));
    if ds.len() == 0 {
        proof {
            lemma_structurally_sound(*c);
        }
        validate_reachability(c, &ids, &mut ds);
        assert(diagnostics_view(ds@) =~= reachability_diagnostics(*c));
    }
    if ds.len() == 0 {
        Ok(())
    } else {
        Err(ValidationErrors { diagnostics: ds })
    }
}

} // verus!
