//! The global conversation graph: roles, message types, failures and protocol states.
use vstd::prelude::*;
use crate::map::{StrMap, TextPairs, keys_of, values_of, lookup};
use crate::text::push_text;

verus! {

pub const CONVERSATION_FORMAT: &'static str = "0.1.0";

pub const ENDPOINT_FORMAT: &'static str = "0.1.0";

/// A global two-party conversation. Map-valued fields hold JSON values as their compact
/// JSON text.
#[derive(Debug, Clone)]
pub struct Conversation {
    pub schema: Option<String>,
    pub eve_conversation: String,
    pub module: Module,
    pub roles: Vec<Role>,
    pub types: Vec<TypeDefinition>,
    pub failures: Vec<FailureDefinition>,
    pub initial: String,
    pub states: Vec<GlobalState>,
    pub annotations: StrMap,
}

#[derive(Debug, Clone)]
pub struct Module {
    pub id: String,
    pub semantic_version: Option<String>,
}

#[derive(Debug, Clone)]
pub struct Role {
    pub id: String,
    pub placement: Vec<String>,
    pub capabilities: Vec<String>,
}

/// A message type: its id and the remaining fields of its definition, each value as
/// compact JSON text.
#[derive(Debug, Clone)]
pub struct TypeDefinition {
    pub id: String,
    pub definition: StrMap,
}

#[derive(Debug, Clone)]
pub struct FailureDefinition {
    pub id: String,
    pub description: Option<String>,
    pub retryable: bool,
}

/// One state of the global conversation.
#[derive(Debug, Clone)]
pub enum GlobalState {
    Send {
        id: String,
        from: String,
        to: String,
        message: String,
        next: String,
        deadline: Option<String>,
        on_failure: StrMap,
    },
    Choice { id: String, chooser: String, branches: StrMap, on_failure: StrMap },
    Cancel { id: String, from: String, to: String, scope: String, next: String, on_failure: StrMap },
    End { id: String },
    Fail { id: String, failure: String },
}

/// The id of a global state.
pub open spec fn global_id(s: GlobalState) -> Seq<char> {
    match s {
        GlobalState::Send { id, .. } => id@,
        GlobalState::Choice { id, .. } => id@,
        GlobalState::Cancel { id, .. } => id@,
        GlobalState::End { id } => id@,
        GlobalState::Fail { id, .. } => id@,
    }
}

/// The declared failure edges of a global state (none for terminals).
pub open spec fn global_failure_edges(s: GlobalState) -> TextPairs {
    match s {
        GlobalState::Send { on_failure, .. } => on_failure@,
        GlobalState::Choice { on_failure, .. } => on_failure@,
        GlobalState::Cancel { on_failure, .. } => on_failure@,
        _ => Seq::empty(),
    }
}

/// The ids of the states a global state may move to: the continuation (or branch
/// targets, in key order), then the failure targets in failure order.
pub open spec fn global_successors(s: GlobalState) -> Seq<Seq<char>> {
    match s {
        GlobalState::Send { next, on_failure, .. } => seq![next@] + values_of(on_failure@),
        GlobalState::Cancel { next, on_failure, .. } => seq![next@] + values_of(on_failure@),
        GlobalState::Choice { branches, on_failure, .. } => values_of(branches@) + values_of(
            on_failure@,
        ),
        _ => Seq::empty(),
    }
}

/// Whether a state ends the conversation, successfully or by a declared failure.
pub open spec fn global_is_terminal(s: GlobalState) -> bool {
    s is End || s is Fail
}

/// The items joined with a separator.
pub open spec fn join_with(items: Seq<Seq<char>>, sep: Seq<char>) -> Seq<char>
    decreases items.len(),
{
    if items.len() == 0 {
        Seq::empty()
    } else if items.len() == 1 {
        items[0]
    } else {
        join_with(items.drop_last(), sep) + sep + items.last()
    }
}

/// The human-readable description of the frame a global state expects.
pub open spec fn expected_frame_text(s: GlobalState) -> Seq<char> {
    match s {
        GlobalState::Send { from, to, message, .. } => "data "@ + from@ + " -> "@ + to@ + ": "@
            + message@,
        GlobalState::Choice { chooser, branches, .. } => "select by "@ + chooser@ + ": "@
            + join_with(keys_of(branches@), " | "@),
        GlobalState::Cancel { from, to, scope, .. } => "cancel "@ + from@ + " -> "@ + to@ + ": "@
            + scope@,
        GlobalState::End { .. } => "end of conversation"@,
        GlobalState::Fail { failure, .. } => "terminal failure "@ + failure@,
    }
}

/// Appends the keys of `map` separated by `sep`.
pub fn push_joined_keys(out: &mut String, map: &StrMap, sep: &str)
    ensures
        final(out)@ == old(out)@ + join_with(keys_of(map@), sep@),
{
    let n = map.len();
    let ghost start = out@;
    let mut i: usize = 0;
    while i < n
        invariant
            n == map@.len(),
            i <= n,
            out@ == start + join_with(keys_of(map@).subrange(0, i as int), sep@),
        decreases n - i,
    {
        let ghost keys = keys_of(map@);
        assert(keys.subrange(0, i + 1).drop_last() =~= keys.subrange(0, i as int));
        if i > 0 {
            push_text(out, sep);
        } else {
            assert(keys.subrange(0, 1) =~= seq![keys[0]]);
        }
        push_text(out, map.key_at(i).as_str());
        i = i + 1;
    }
    assert(keys_of(map@).subrange(0, n as int) =~= keys_of(map@));
}

impl GlobalState {
    pub fn id(&self) -> (r: &str)
        ensures
            r@ == global_id(*self),
    {
        match self {
            GlobalState::Send { id, .. } => id.as_str(),
            GlobalState::Choice { id, .. } => id.as_str(),
            GlobalState::Cancel { id, .. } => id.as_str(),
            GlobalState::End { id } => id.as_str(),
            GlobalState::Fail { id, .. } => id.as_str(),
        }
    }

    /// The ids of the states this state may move to.
    pub fn successors(&self) -> (r: Vec<&str>)
        ensures
            str_views(r@) == global_successors(*self),
    {
        let mut r: Vec<&str> = Vec::new();
        match self {
            GlobalState::Send { next, on_failure, .. } | GlobalState::Cancel {
                next,
                on_failure,
                ..
            } => {
                r.push(next.as_str());
                push_values(&mut r, on_failure);
            },
            GlobalState::Choice { branches, on_failure, .. } => {
                push_values(&mut r, branches);
                push_values(&mut r, on_failure);
            },
            GlobalState::End { .. } | GlobalState::Fail { .. } => {},
        }
        proof {
            assert(str_views(r@) =~= global_successors(*self));
        }
        r
    }

    /// The state a declared failure leads to.
    pub fn failure_target(&self, failure: &str) -> (r: Option<&str>)
        ensures
            match r {
                Some(t) => lookup(global_failure_edges(*self), failure@) == Some(t@),
                None => lookup(global_failure_edges(*self), failure@) is None,
            },
    {
        match self {
            GlobalState::Send { on_failure, .. } | GlobalState::Choice { on_failure, .. }
            | GlobalState::Cancel { on_failure, .. } => match on_failure.get(failure) {
                Some(t) => Some(t.as_str()),
                None => None,
            },
            GlobalState::End { .. } | GlobalState::Fail { .. } => None,
        }
    }

    /// Describes the frame this state expects.
    pub fn expected_frame(&self) -> (r: String)
        ensures
            r@ == expected_frame_text(*self),
    {
        let mut r = String::new();
        match self {
            GlobalState::Send { from, to, message, .. } => {
                push_text(&mut r, "data ");
                push_text(&mut r, from.as_str());
                push_text(&mut r, " -> ");
                push_text(&mut r, to.as_str());
                push_text(&mut r, ": ");
                push_text(&mut r, message.as_str());
            },
            GlobalState::Choice { chooser, branches, .. } => {
                push_text(&mut r, "select by ");
                push_text(&mut r, chooser.as_str());
                push_text(&mut r, ": ");
                push_joined_keys(&mut r, branches, " | ");
            },
            GlobalState::Cancel { from, to, scope, .. } => {
                push_text(&mut r, "cancel ");
                push_text(&mut r, from.as_str());
                push_text(&mut r, " -> ");
                push_text(&mut r, to.as_str());
                push_text(&mut r, ": ");
                push_text(&mut r, scope.as_str());
            },
            GlobalState::End { .. } => {
                push_text(&mut r, "end of conversation");
            },
            GlobalState::Fail { failure, .. } => {
                push_text(&mut r, "terminal failure ");
                push_text(&mut r, failure.as_str());
            },
        }
        r
    }
}

/// The views of a sequence of string slices.
pub open spec fn str_views(v: Seq<&str>) -> Seq<Seq<char>> {
    v.map_values(|t: &str| t@)
}

/// Appends the values of `map`, in key order.
pub fn push_values<'a>(r: &mut Vec<&'a str>, map: &'a StrMap)
    ensures
        str_views(final(r)@) == str_views(old(r)@) + values_of(map@),
{
    let n = map.len();
    let ghost start = str_views(old(r)@);
    let mut i: usize = 0;
    while i < n
        invariant
            n == map@.len(),
            i <= n,
            str_views(r@) == start + values_of(map@).subrange(0, i as int),
        decreases n - i,
    {
        let t = map.value_at(i).as_str();
        assert(t@ == values_of(map@)[i as int]);
        let ghost before = r@;
        r.push(t);
        assert(r@ == before.push(t));
        assert(str_views(r@) =~= str_views(before).push(t@));
        assert(values_of(map@).subrange(0, i + 1) =~= values_of(map@).subrange(0, i as int).push(
            values_of(map@)[i as int],
        ));
        assert(str_views(r@) =~= start + values_of(map@).subrange(0, i + 1));
        i = i + 1;
    }
    assert(values_of(map@).subrange(0, n as int) =~= values_of(map@));
}

} // verus!
