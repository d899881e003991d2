//! The compact JSON form of conversations, endpoints and frames, field by field in
//! declaration order, as the interchange format writes them.
use vstd::prelude::*;
use crate::conversation::{Conversation, Module, Role, TypeDefinition, FailureDefinition, GlobalState, join_with};
use crate::json::{
    json_opt_string, json_bool, json_array, json_string_map, json_string_array,
    string_views_of, raw_member, push_json_opt_string, push_json_bool, push_json_string_map, push_json_string_array, lemma_join_push,
};
use crate::projection::{Endpoint, EndpointState, opt_text};
use crate::text::{json_string, push_json_string, push_text, text_from};
use crate::trace::Frame;

verus! {

pub open spec fn module_json(m: Module) -> Seq<char> {
    "{\"id\":"@ + json_string(m.id@) + ",\"semantic_version\":"@ + json_opt_string(
        opt_text(m.semantic_version),
    ) + "}"@
}

pub open spec fn role_json(r: Role) -> Seq<char> {
    "{\"id\":"@ + json_string(r.id@) + ",\"placement\":"@ + json_string_array(
        string_views_of(r.placement@),
    ) + ",\"capabilities\":"@ + json_string_array(string_views_of(r.capabilities@)) + "}"@
}

/// A type definition: its id followed by the definition's own fields.
pub open spec fn type_json(t: TypeDefinition) -> Seq<char> {
    let fields = t.definition@.map_values(|e: (Seq<char>, Seq<char>)| raw_member(e));
    if fields.len() == 0 {
        "{\"id\":"@ + json_string(t.id@) + "}"@
    } else {
        "{\"id\":"@ + json_string(t.id@) + ","@ + join_with(fields, ","@) + "}"@
    }
}

pub open spec fn failure_json(f: FailureDefinition) -> Seq<char> {
    "{\"id\":"@ + json_string(f.id@) + ",\"description\":"@ + json_opt_string(opt_text(f.description))
        + ",\"retryable\":"@ + json_bool(f.retryable) + "}"@
}

pub open spec fn global_state_json(s: GlobalState) -> Seq<char> {
    match s {
        GlobalState::Send { id, from, to, message, next, deadline, on_failure } =>
            "{\"kind\":\"send\",\"id\":"@ + json_string(id@) + ",\"from\":"@ + json_string(from@)
            + ",\"to\":"@ + json_string(to@) + ",\"message\":"@ + json_string(message@)
            + ",\"next\":"@ + json_string(next@) + ",\"deadline\":"@ + json_opt_string(
            opt_text(deadline),
        ) + ",\"on_failure\":"@ + json_string_map(on_failure@) + "}"@,
        GlobalState::Choice { id, chooser, branches, on_failure } =>
            "{\"kind\":\"choice\",\"id\":"@ + json_string(id@) + ",\"chooser\":"@ + json_string(
            chooser@,
        ) + ",\"branches\":"@ + json_string_map(branches@) + ",\"on_failure\":"@
            + json_string_map(on_failure@) + "}"@,
        GlobalState::Cancel { id, from, to, scope, next, on_failure } =>
            "{\"kind\":\"cancel\",\"id\":"@ + json_string(id@) + ",\"from\":"@ + json_string(from@)
            + ",\"to\":"@ + json_string(to@) + ",\"scope\":"@ + json_string(scope@) + ",\"next\":"@
            + json_string(next@) + ",\"on_failure\":"@ + json_string_map(on_failure@) + "}"@,
        GlobalState::End { id } => "{\"kind\":\"end\",\"id\":"@ + json_string(id@) + "}"@,
        GlobalState::Fail { id, failure } => "{\"kind\":\"fail\",\"id\":"@ + json_string(id@)
            + ",\"failure\":"@ + json_string(failure@) + "}"@,
    }
}

pub open spec fn roles_items(v: Seq<Role>) -> Seq<Seq<char>> {
    v.map_values(|r: Role| role_json(r))
}

pub open spec fn roles_json(v: Seq<Role>) -> Seq<char> {
    json_array(roles_items(v))
}

pub open spec fn types_items(v: Seq<TypeDefinition>) -> Seq<Seq<char>> {
    v.map_values(|t: TypeDefinition| type_json(t))
}

pub open spec fn types_json(v: Seq<TypeDefinition>) -> Seq<char> {
    json_array(types_items(v))
}

pub open spec fn failures_items(v: Seq<FailureDefinition>) -> Seq<Seq<char>> {
    v.map_values(|f: FailureDefinition| failure_json(f))
}

pub open spec fn failures_json(v: Seq<FailureDefinition>) -> Seq<char> {
    json_array(failures_items(v))
}

pub open spec fn global_states_items(v: Seq<GlobalState>) -> Seq<Seq<char>> {
    v.map_values(|s: GlobalState| global_state_json(s))
}

pub open spec fn global_states_json(v: Seq<GlobalState>) -> Seq<char> {
    json_array(global_states_items(v))
}

/// The semantic form of a conversation: the schema reference is `null` and the
/// annotations are empty; every other field is kept.
pub open spec fn semantic_conversation_json(c: Conversation) -> Seq<char> {
    "{\"$schema\":null,\"eve_conversation\":"@ + json_string(c.eve_conversation@) + ",\"module\":"@
        + module_json(c.module) + ",\"roles\":"@ + roles_json(c.roles@) + ",\"types\":"@ + types_json(c.types@)
        + ",\"failures\":"@ + failures_json(c.failures@) + ",\"initial\":"@ + json_string(c.initial@) + ",\"states\":"@ + global_states_json(c.states@) + ",\"annotations\":{}}"@
}

pub open spec fn endpoint_state_json(s: EndpointState) -> Seq<char> {
    match s {
        EndpointState::Send { id, to, message, next, deadline, on_failure } =>
            "{\"op\":\"send\",\"id\":"@ + json_string(id@) + ",\"to\":"@ + json_string(to@)
            + ",\"message\":"@ + json_string(message@) + ",\"next\":"@ + json_string(next@)
            + ",\"deadline\":"@ + json_opt_string(opt_text(deadline)) + ",\"on_failure\":"@
            + json_string_map(on_failure@) + "}"@,
        EndpointState::Receive { id, from, message, next, deadline, on_failure } =>
            "{\"op\":\"receive\",\"id\":"@ + json_string(id@) + ",\"from\":"@ + json_string(from@)
            + ",\"message\":"@ + json_string(message@) + ",\"next\":"@ + json_string(next@)
            + ",\"deadline\":"@ + json_opt_string(opt_text(deadline)) + ",\"on_failure\":"@
            + json_string_map(on_failure@) + "}"@,
        EndpointState::Select { id, branches, on_failure } => "{\"op\":\"select\",\"id\":"@
            + json_string(id@) + ",\"branches\":"@ + json_string_map(branches@) + ",\"on_failure\":"@
            + json_string_map(on_failure@) + "}"@,
        EndpointState::Branch { id, from, branches, on_failure } => "{\"op\":\"branch\",\"id\":"@
            + json_string(id@) + ",\"from\":"@ + json_string(from@) + ",\"branches\":"@
            + json_string_map(branches@) + ",\"on_failure\":"@ + json_string_map(on_failure@)
            + "}"@,
        EndpointState::SendCancel { id, to, scope, next, on_failure } =>
            "{\"op\":\"send_cancel\",\"id\":"@ + json_string(id@) + ",\"to\":"@ + json_string(to@)
            + ",\"scope\":"@ + json_string(scope@) + ",\"next\":"@ + json_string(next@)
            + ",\"on_failure\":"@ + json_string_map(on_failure@) + "}"@,
        EndpointState::ReceiveCancel { id, from, scope, next, on_failure } =>
            "{\"op\":\"receive_cancel\",\"id\":"@ + json_string(id@) + ",\"from\":"@ + json_string(
            from@,
        ) + ",\"scope\":"@ + json_string(scope@) + ",\"next\":"@ + json_string(next@)
            + ",\"on_failure\":"@ + json_string_map(on_failure@) + "}"@,
        EndpointState::End { id } => "{\"op\":\"end\",\"id\":"@ + json_string(id@) + "}"@,
        EndpointState::Fail { id, failure } => "{\"op\":\"fail\",\"id\":"@ + json_string(id@)
            + ",\"failure\":"@ + json_string(failure@) + "}"@,
    }
}

pub open spec fn endpoint_states_items(v: Seq<EndpointState>) -> Seq<Seq<char>> {
    v.map_values(|s: EndpointState| endpoint_state_json(s))
}

pub open spec fn endpoint_states_json(v: Seq<EndpointState>) -> Seq<char> {
    json_array(endpoint_states_items(v))
}

pub open spec fn endpoint_json(e: Endpoint) -> Seq<char> {
    "{\"eve_endpoint\":"@ + json_string(e.eve_endpoint@) + ",\"conversation\":"@ + json_string(
        e.conversation@,
    ) + ",\"role\":"@ + json_string(e.role@) + ",\"initial\":"@ + json_string(e.initial@)
        + ",\"states\":"@ + endpoint_states_json(e.states@)
        + "}"@
}

/// A frame; a data payload is omitted when absent.
pub open spec fn frame_json(f: Frame) -> Seq<char> {
    match f {
        Frame::Data { from, to, message, payload } => "{\"op\":\"data\",\"from\":"@ + json_string(
            from@,
        ) + ",\"to\":"@ + json_string(to@) + ",\"message\":"@ + json_string(message@) + match payload {
            Some(p) => ",\"payload\":"@ + p@,
            None => Seq::empty(),
        } + "}"@,
        Frame::Select { by, label } => "{\"op\":\"select\",\"by\":"@ + json_string(by@)
            + ",\"label\":"@ + json_string(label@) + "}"@,
        Frame::Cancel { from, to, scope } => "{\"op\":\"cancel\",\"from\":"@ + json_string(from@)
            + ",\"to\":"@ + json_string(to@) + ",\"scope\":"@ + json_string(scope@) + "}"@,
        Frame::Fault { observer, failure } => "{\"op\":\"fault\",\"observer\":"@ + json_string(
            observer@,
        ) + ",\"failure\":"@ + json_string(failure@) + "}"@,
    }
}

pub open spec fn frames_items(frames: Seq<Frame>) -> Seq<Seq<char>> {
    frames.map_values(|f: Frame| frame_json(f))
}

pub open spec fn frames_json(frames: Seq<Frame>) -> Seq<char> {
    json_array(frames_items(frames))
}


pub fn module_text(m: &Module) -> (r: String)
    ensures
        r@ == module_json(*m),
{
    let mut out = text_from("{\"id\":");
    push_json_string(&mut out, m.id.as_str());
    push_text(&mut out, ",\"semantic_version\":");
    push_json_opt_string(&mut out, &m.semantic_version);
    push_text(&mut out, "}");
    out
}

pub fn role_text(r: &Role) -> (s: String)
    ensures
        s@ == role_json(*r),
{
    let mut out = text_from("{\"id\":");
    push_json_string(&mut out, r.id.as_str());
    push_text(&mut out, ",\"placement\":");
    push_json_string_array(&mut out, &r.placement);
    push_text(&mut out, ",\"capabilities\":");
    push_json_string_array(&mut out, &r.capabilities);
    push_text(&mut out, "}");
    out
}

pub fn type_text(t: &TypeDefinition) -> (s: String)
    ensures
        s@ == type_json(*t),
{
    let mut out = text_from("{\"id\":");
    push_json_string(&mut out, t.id.as_str());
    let n = t.definition.len();
    let ghost fields = t.definition@.map_values(|e: (Seq<char>, Seq<char>)| raw_member(e));
    let ghost head = "{\"id\":"@ + json_string(t.id@);
    let mut i: usize = 0;
    while i < n
        invariant
            n == t.definition@.len(),
            fields == t.definition@.map_values(|e: (Seq<char>, Seq<char>)| raw_member(e)),
            head == "{\"id\":"@ + json_string(t.id@),
            i <= n,
            out@ == if i == 0 {
                head
            } else {
                head + ","@ + join_with(fields.subrange(0, i as int), ","@)
            },
        decreases n - i,
    {
        proof {
            lemma_join_push(fields.subrange(0, i as int), fields[i as int], ","@);
            assert(fields.subrange(0, i + 1) =~= fields.subrange(0, i as int).push(fields[i as int]));
        }
        let ghost before = out@;
        push_text(&mut out, ",");
        push_json_string(&mut out, t.definition.key_at(i).as_str());
        push_text(&mut out, ":");
        push_text(&mut out, t.definition.value_at(i).as_str());
        assert(out@ =~= before + ","@ + fields[i as int]);
        i = i + 1;
    }
    assert(fields.subrange(0, n as int) =~= fields);
    push_text(&mut out, "}");
    assert(out@ =~= type_json(*t));
    out
}

pub fn failure_text(f: &FailureDefinition) -> (s: String)
    ensures
        s@ == failure_json(*f),
{
    let mut out = text_from("{\"id\":");
    push_json_string(&mut out, f.id.as_str());
    push_text(&mut out, ",\"description\":");
    push_json_opt_string(&mut out, &f.description);
    push_text(&mut out, ",\"retryable\":");
    push_json_bool(&mut out, f.retryable);
    push_text(&mut out, "}");
    out
}

pub fn global_state_text(s: &GlobalState) -> (r: String)
    ensures
        r@ == global_state_json(*s),
{
    match s {
        GlobalState::Send { id, from, to, message, next, deadline, on_failure } => {
            let mut out = text_from("{\"kind\":\"send\",\"id\":");
            push_json_string(&mut out, id.as_str());
            push_text(&mut out, ",\"from\":");
            push_json_string(&mut out, from.as_str());
            push_text(&mut out, ",\"to\":");
            push_json_string(&mut out, to.as_str());
            push_text(&mut out, ",\"message\":");
            push_json_string(&mut out, message.as_str());
            push_text(&mut out, ",\"next\":");
            push_json_string(&mut out, next.as_str());
            push_text(&mut out, ",\"deadline\":");
            push_json_opt_string(&mut out, deadline);
            push_text(&mut out, ",\"on_failure\":");
            push_json_string_map(&mut out, on_failure);
            push_text(&mut out, "}");
            out
        },
        GlobalState::Choice { id, chooser, branches, on_failure } => {
            let mut out = text_from("{\"kind\":\"choice\",\"id\":");
            push_json_string(&mut out, id.as_str());
            push_text(&mut out, ",\"chooser\":");
            push_json_string(&mut out, chooser.as_str());
            push_text(&mut out, ",\"branches\":");
            push_json_string_map(&mut out, branches);
            push_text(&mut out, ",\"on_failure\":");
            push_json_string_map(&mut out, on_failure);
            push_text(&mut out, "}");
            out
        },
        GlobalState::Cancel { id, from, to, scope, next, on_failure } => {
            let mut out = text_from("{\"kind\":\"cancel\",\"id\":");
            push_json_string(&mut out, id.as_str());
            push_text(&mut out, ",\"from\":");
            push_json_string(&mut out, from.as_str());
            push_text(&mut out, ",\"to\":");
            push_json_string(&mut out, to.as_str());
            push_text(&mut out, ",\"scope\":");
            push_json_string(&mut out, scope.as_str());
            push_text(&mut out, ",\"next\":");
            push_json_string(&mut out, next.as_str());
            push_text(&mut out, ",\"on_failure\":");
            push_json_string_map(&mut out, on_failure);
            push_text(&mut out, "}");
            out
        },
        GlobalState::End { id } => {
            let mut out = text_from("{\"kind\":\"end\",\"id\":");
            push_json_string(&mut out, id.as_str());
            push_text(&mut out, "}");
            out
        },
        GlobalState::Fail { id, failure } => {
            let mut out = text_from("{\"kind\":\"fail\",\"id\":");
            push_json_string(&mut out, id.as_str());
            push_text(&mut out, ",\"failure\":");
            push_json_string(&mut out, failure.as_str());
            push_text(&mut out, "}");
            out
        },
    }
}

pub fn endpoint_state_text(s: &EndpointState) -> (r: String)
    ensures
        r@ == endpoint_state_json(*s),
{
    match s {
        EndpointState::Send { id, to, message, next, deadline, on_failure } => {
            let mut out = text_from("{\"op\":\"send\",\"id\":");
            push_json_string(&mut out, id.as_str());
            push_text(&mut out, ",\"to\":");
            push_json_string(&mut out, to.as_str());
            push_text(&mut out, ",\"message\":");
            push_json_string(&mut out, message.as_str());
            push_text(&mut out, ",\"next\":");
            push_json_string(&mut out, next.as_str());
            push_text(&mut out, ",\"deadline\":");
            push_json_opt_string(&mut out, deadline);
            push_text(&mut out, ",\"on_failure\":");
            push_json_string_map(&mut out, on_failure);
            push_text(&mut out, "}");
            out
        },
        EndpointState::Receive { id, from, message, next, deadline, on_failure } => {
            let mut out = text_from("{\"op\":\"receive\",\"id\":");
            push_json_string(&mut out, id.as_str());
            push_text(&mut out, ",\"from\":");
            push_json_string(&mut out, from.as_str());
            push_text(&mut out, ",\"message\":");
            push_json_string(&mut out, message.as_str());
            push_text(&mut out, ",\"next\":");
            push_json_string(&mut out, next.as_str());
            push_text(&mut out, ",\"deadline\":");
            push_json_opt_string(&mut out, deadline);
            push_text(&mut out, ",\"on_failure\":");
            push_json_string_map(&mut out, on_failure);
            push_text(&mut out, "}");
            out
        },
        EndpointState::Select { id, branches, on_failure } => {
            let mut out = text_from("{\"op\":\"select\",\"id\":");
            push_json_string(&mut out, id.as_str());
            push_text(&mut out, ",\"branches\":");
            push_json_string_map(&mut out, branches);
            push_text(&mut out, ",\"on_failure\":");
            push_json_string_map(&mut out, on_failure);
            push_text(&mut out, "}");
            out
        },
        EndpointState::Branch { id, from, branches, on_failure } => {
            let mut out = text_from("{\"op\":\"branch\",\"id\":");
            push_json_string(&mut out, id.as_str());
            push_text(&mut out, ",\"from\":");
            push_json_string(&mut out, from.as_str());
            push_text(&mut out, ",\"branches\":");
            push_json_string_map(&mut out, branches);
            push_text(&mut out, ",\"on_failure\":");
            push_json_string_map(&mut out, on_failure);
            push_text(&mut out, "}");
            out
        },
        EndpointState::SendCancel { id, to, scope, next, on_failure } => {
            let mut out = text_from("{\"op\":\"send_cancel\",\"id\":");
            push_json_string(&mut out, id.as_str());
            push_text(&mut out, ",\"to\":");
            push_json_string(&mut out, to.as_str());
            push_text(&mut out, ",\"scope\":");
            push_json_string(&mut out, scope.as_str());
            push_text(&mut out, ",\"next\":");
            push_json_string(&mut out, next.as_str());
            push_text(&mut out, ",\"on_failure\":");
            push_json_string_map(&mut out, on_failure);
            push_text(&mut out, "}");
            out
        },
        EndpointState::ReceiveCancel { id, from, scope, next, on_failure } => {
            let mut out = text_from("{\"op\":\"receive_cancel\",\"id\":");
            push_json_string(&mut out, id.as_str());
            push_text(&mut out, ",\"from\":");
            push_json_string(&mut out, from.as_str());
            push_text(&mut out, ",\"scope\":");
            push_json_string(&mut out, scope.as_str());
            push_text(&mut out, ",\"next\":");
            push_json_string(&mut out, next.as_str());
            push_text(&mut out, ",\"on_failure\":");
            push_json_string_map(&mut out, on_failure);
            push_text(&mut out, "}");
            out
        },
        EndpointState::End { id } => {
            let mut out = text_from("{\"op\":\"end\",\"id\":");
            push_json_string(&mut out, id.as_str());
            push_text(&mut out, "}");
            out
        },
        EndpointState::Fail { id, failure } => {
            let mut out = text_from("{\"op\":\"fail\",\"id\":");
            push_json_string(&mut out, id.as_str());
            push_text(&mut out, ",\"failure\":");
            push_json_string(&mut out, failure.as_str());
            push_text(&mut out, "}");
            out
        },
    }
}

/// The JSON text of a frame.
pub fn frame_text(f: &Frame) -> (r: String)
    ensures
        r@ == frame_json(*f),
{
    match f {
        Frame::Data { from, to, message, payload } => {
            let mut out = text_from("{\"op\":\"data\",\"from\":");
            push_json_string(&mut out, from.as_str());
            push_text(&mut out, ",\"to\":");
            push_json_string(&mut out, to.as_str());
            push_text(&mut out, ",\"message\":");
            push_json_string(&mut out, message.as_str());
            let ghost before = out@;
            match payload {
                Some(p) => {
                    push_text(&mut out, ",\"payload\":");
                    push_text(&mut out, p.as_str());
                },
                None => {},
            }
            assert(out@ =~= before + match payload {
                Some(p) => ",\"payload\":"@ + p@,
                None => Seq::empty(),
            });
            push_text(&mut out, "}");
            out
        },
        Frame::Select { by, label } => {
            let mut out = text_from("{\"op\":\"select\",\"by\":");
            push_json_string(&mut out, by.as_str());
            push_text(&mut out, ",\"label\":");
            push_json_string(&mut out, label.as_str());
            push_text(&mut out, "}");
            out
        },
        Frame::Cancel { from, to, scope } => {
            let mut out = text_from("{\"op\":\"cancel\",\"from\":");
            push_json_string(&mut out, from.as_str());
            push_text(&mut out, ",\"to\":");
            push_json_string(&mut out, to.as_str());
            push_text(&mut out, ",\"scope\":");
            push_json_string(&mut out, scope.as_str());
            push_text(&mut out, "}");
            out
        },
        Frame::Fault { observer, failure } => {
            let mut out = text_from("{\"op\":\"fault\",\"observer\":");
            push_json_string(&mut out, observer.as_str());
            push_text(&mut out, ",\"failure\":");
            push_json_string(&mut out, failure.as_str());
            push_text(&mut out, "}");
            out
        },
    }
}

/// The JSON array of the items.
pub fn roles_text(v: &Vec<Role>) -> (r: String)
    ensures
        r@ == roles_json(v@),
{
    let ghost items = roles_items(v@);
    let mut out = text_from("[");
    let mut i: usize = 0;
    while i < v.len()
        invariant
            items == roles_items(v@),
            i <= v.len(),
            out@ == "["@ + join_with(items.subrange(0, i as int), ","@),
        decreases v.len() - i,
    {
        proof {
            lemma_join_push(items.subrange(0, i as int), items[i as int], ","@);
            assert(items.subrange(0, i + 1) =~= items.subrange(0, i as int).push(items[i as int]));
        }
        if i > 0 {
            push_text(&mut out, ",");
        }
        let item = role_text(&v[i]);
        push_text(&mut out, item.as_str());
        i = i + 1;
    }
    assert(items.subrange(0, v.len() as int) =~= items);
    push_text(&mut out, "]");
    out
}

/// The JSON array of the items.
pub fn types_text(v: &Vec<TypeDefinition>) -> (r: String)
    ensures
        r@ == types_json(v@),
{
    let ghost items = types_items(v@);
    let mut out = text_from("[");
    let mut i: usize = 0;
    while i < v.len()
        invariant
            items == types_items(v@),
            i <= v.len(),
            out@ == "["@ + join_with(items.subrange(0, i as int), ","@),
        decreases v.len() - i,
    {
        proof {
            lemma_join_push(items.subrange(0, i as int), items[i as int], ","@);
            assert(items.subrange(0, i + 1) =~= items.subrange(0, i as int).push(items[i as int]));
        }
        if i > 0 {
            push_text(&mut out, ",");
        }
        let item = type_text(&v[i]);
        push_text(&mut out, item.as_str());
        i = i + 1;
    }
    assert(items.subrange(0, v.len() as int) =~= items);
    push_text(&mut out, "]");
    out
}

/// The JSON array of the items.
pub fn failures_text(v: &Vec<FailureDefinition>) -> (r: String)
    ensures
        r@ == failures_json(v@),
{
    let ghost items = failures_items(v@);
    let mut out = text_from("[");
    let mut i: usize = 0;
    while i < v.len()
        invariant
            items == failures_items(v@),
            i <= v.len(),
            out@ == "["@ + join_with(items.subrange(0, i as int), ","@),
        decreases v.len() - i,
    {
        proof {
            lemma_join_push(items.subrange(0, i as int), items[i as int], ","@);
            assert(items.subrange(0, i + 1) =~= items.subrange(0, i as int).push(items[i as int]));
        }
        if i > 0 {
            push_text(&mut out, ",");
        }
        let item = failure_text(&v[i]);
        push_text(&mut out, item.as_str());
        i = i + 1;
    }
    assert(items.subrange(0, v.len() as int) =~= items);
    push_text(&mut out, "]");
    out
}

/// The JSON array of the items.
pub fn global_states_text(v: &Vec<GlobalState>) -> (r: String)
    ensures
        r@ == global_states_json(v@),
{
    let ghost items = global_states_items(v@);
    let mut out = text_from("[");
    let mut i: usize = 0;
    while i < v.len()
        invariant
            items == global_states_items(v@),
            i <= v.len(),
            out@ == "["@ + join_with(items.subrange(0, i as int), ","@),
        decreases v.len() - i,
    {
        proof {
            lemma_join_push(items.subrange(0, i as int), items[i as int], ","@);
            assert(items.subrange(0, i + 1) =~= items.subrange(0, i as int).push(items[i as int]));
        }
        if i > 0 {
            push_text(&mut out, ",");
        }
        let item = global_state_text(&v[i]);
        push_text(&mut out, item.as_str());
        i = i + 1;
    }
    assert(items.subrange(0, v.len() as int) =~= items);
    push_text(&mut out, "]");
    out
}

/// The JSON array of the items.
pub fn endpoint_states_text(v: &Vec<EndpointState>) -> (r: String)
    ensures
        r@ == endpoint_states_json(v@),
{
    let ghost items = endpoint_states_items(v@);
    let mut out = text_from("[");
    let mut i: usize = 0;
    while i < v.len()
        invariant
            items == endpoint_states_items(v@),
            i <= v.len(),
            out@ == "["@ + join_with(items.subrange(0, i as int), ","@),
        decreases v.len() - i,
    {
        proof {
            lemma_join_push(items.subrange(0, i as int), items[i as int], ","@);
            assert(items.subrange(0, i + 1) =~= items.subrange(0, i as int).push(items[i as int]));
        }
        if i > 0 {
            push_text(&mut out, ",");
        }
        let item = endpoint_state_text(&v[i]);
        push_text(&mut out, item.as_str());
        i = i + 1;
    }
    assert(items.subrange(0, v.len() as int) =~= items);
    push_text(&mut out, "]");
    out
}

/// The JSON array of the items.
pub fn frames_text(v: &Vec<Frame>) -> (r: String)
    ensures
        r@ == frames_json(v@),
{
    let ghost items = frames_items(v@);
    let mut out = text_from("[");
    let mut i: usize = 0;
    while i < v.len()
        invariant
            items == frames_items(v@),
            i <= v.len(),
            out@ == "["@ + join_with(items.subrange(0, i as int), ","@),
        decreases v.len() - i,
    {
        proof {
            lemma_join_push(items.subrange(0, i as int), items[i as int], ","@);
            assert(items.subrange(0, i + 1) =~= items.subrange(0, i as int).push(items[i as int]));
        }
        if i > 0 {
            push_text(&mut out, ",");
        }
        let item = frame_text(&v[i]);
        push_text(&mut out, item.as_str());
        i = i + 1;
    }
    assert(items.subrange(0, v.len() as int) =~= items);
    push_text(&mut out, "]");
    out
}

/// The JSON text of an endpoint.
pub fn endpoint_text(e: &Endpoint) -> (r: String)
    ensures
        r@ == endpoint_json(*e),
{
    let mut out = text_from("{\"eve_endpoint\":");
    push_json_string(&mut out, e.eve_endpoint.as_str());
    push_text(&mut out, ",\"conversation\":");
    push_json_string(&mut out, e.conversation.as_str());
    push_text(&mut out, ",\"role\":");
    push_json_string(&mut out, e.role.as_str());
    push_text(&mut out, ",\"initial\":");
    push_json_string(&mut out, e.initial.as_str());
    push_text(&mut out, ",\"states\":");
    push_text(&mut out, endpoint_states_text(&e.states).as_str());
    push_text(&mut out, "}");
    out
}

/// The semantic JSON text of a conversation.
pub fn semantic_conversation_text(c: &Conversation) -> (r: String)
    ensures
        r@ == semantic_conversation_json(*c),
{
    let mut out = text_from("{\"$schema\":null,\"eve_conversation\":");
    push_json_string(&mut out, c.eve_conversation.as_str());
    push_text(&mut out, ",\"module\":");
    push_text(&mut out, module_text(&c.module).as_str());
    push_text(&mut out, ",\"roles\":");
    push_text(&mut out, roles_text(&c.roles).as_str());
    push_text(&mut out, ",\"types\":");
    push_text(&mut out, types_text(&c.types).as_str());
    push_text(&mut out, ",\"failures\":");
    push_text(&mut out, failures_text(&c.failures).as_str());
    push_text(&mut out, ",\"initial\":");
    push_json_string(&mut out, c.initial.as_str());
    push_text(&mut out, ",\"states\":");
    push_text(&mut out, global_states_text(&c.states).as_str());
    push_text(&mut out, ",\"annotations\":{}}");
    out
}

} // verus!
