//! The debug rendering of endpoint states and frames that refusal messages quote: the
//! shape of a derived `Debug`, with strings, maps and payloads as Rust prints them.
use vstd::prelude::*;
use crate::conversation::join_with;
use crate::json::lemma_join_push;
use crate::map::{StrMap, TextPairs};
use crate::projection::{EndpointState, opt_text};
use crate::text::{push_text, text_from};
use crate::trace::Frame;

verus! {

/// How Rust's `Debug` prints a string: quoted, with quotes, backslashes and characters
/// that are not printable escaped.
pub uninterp spec fn str_debug(s: Seq<char>) -> Seq<char>;

/// How `serde_json` prints the JSON value that `text` holds with `Debug`.
pub uninterp spec fn json_value_debug(text: Seq<char>) -> Seq<char>;

/// Formats `s` with `Debug` (`format!("{:?}", s)`), which quotes and escapes it. The
/// result is a function of the string alone.
#[verifier::external_body]
fn quoted(s: &str) -> (r: String)
    ensures
        r@ == str_debug(s@),
{
    format!("{:?}", s)
}

/// Calls `serde_json::from_str` to read `text` as a JSON value and formats that value
/// with its `Debug` implementation; text that is no JSON is formatted as a string. The
/// result is a function of the text alone.
#[verifier::external_body]
fn value_debug(text: &str) -> (r: String)
    ensures
        r@ == json_value_debug(text@),
{
    match serde_json::from_str::<serde_json::Value>(text) {
        Ok(value) => format!("{:?}", value),
        Err(_) => format!("{:?}", text),
    }
}

/// An optional string as `None` or `Some("...")`.
pub open spec fn option_debug(o: Option<Seq<char>>) -> Seq<char> {
    match o {
        Some(s) => "Some("@ + str_debug(s) + ")"@,
        None => "None"@,
    }
}

pub open spec fn entry_debug(e: (Seq<char>, Seq<char>)) -> Seq<char> {
    str_debug(e.0) + ": "@ + str_debug(e.1)
}

/// A map as `{"key": "value", ...}`, in key order.
pub open spec fn map_debug(p: TextPairs) -> Seq<char> {
    "{"@ + join_with(p.map_values(|e: (Seq<char>, Seq<char>)| entry_debug(e)), ", "@) + "}"@
}

/// A list of strings as `["a", "b"]`.
pub open spec fn list_debug(items: Seq<Seq<char>>) -> Seq<char> {
    "["@ + join_with(items.map_values(|l: Seq<char>| str_debug(l)), ", "@) + "]"@
}

/// An endpoint state as its derived `Debug` prints it.
pub open spec fn state_debug(s: EndpointState) -> Seq<char> {
    match s {
        EndpointState::Send { id, to, message, next, deadline, on_failure } => "Send { id: "@ + str_debug(id@)
            + ", to: "@ + str_debug(to@) + ", message: "@ + str_debug(message@) + ", next: "@ + str_debug(next@)
            + ", deadline: "@ + option_debug(opt_text(deadline)) + ", on_failure: "@ + map_debug(on_failure@) + " }"@,
        EndpointState::Receive { id, from, message, next, deadline, on_failure } => "Receive { id: "@ + str_debug(id@)
            + ", from: "@ + str_debug(from@) + ", message: "@ + str_debug(message@) + ", next: "@ + str_debug(next@)
            + ", deadline: "@ + option_debug(opt_text(deadline)) + ", on_failure: "@ + map_debug(on_failure@) + " }"@,
        EndpointState::Select { id, branches, on_failure } => "Select { id: "@ + str_debug(id@) + ", branches: "@
            + map_debug(branches@) + ", on_failure: "@ + map_debug(on_failure@) + " }"@,
        EndpointState::Branch { id, from, branches, on_failure } => "Branch { id: "@ + str_debug(id@) + ", from: "@
            + str_debug(from@) + ", branches: "@ + map_debug(branches@) + ", on_failure: "@ + map_debug(on_failure@)
            + " }"@,
        EndpointState::SendCancel { id, to, scope, next, on_failure } => "SendCancel { id: "@ + str_debug(id@)
            + ", to: "@ + str_debug(to@) + ", scope: "@ + str_debug(scope@) + ", next: "@ + str_debug(next@)
            + ", on_failure: "@ + map_debug(on_failure@) + " }"@,
        EndpointState::ReceiveCancel { id, from, scope, next, on_failure } => "ReceiveCancel { id: "@ + str_debug(id@)
            + ", from: "@ + str_debug(from@) + ", scope: "@ + str_debug(scope@) + ", next: "@ + str_debug(next@)
            + ", on_failure: "@ + map_debug(on_failure@) + " }"@,
        EndpointState::End { id } => "End { id: "@ + str_debug(id@) + " }"@,
        EndpointState::Fail { id, failure } => "Fail { id: "@ + str_debug(id@) + ", failure: "@ + str_debug(failure@)
            + " }"@,
    }
}

/// A payload as `Some(<value>)` or `None`.
pub open spec fn payload_debug(o: Option<Seq<char>>) -> Seq<char> {
    match o {
        Some(p) => "Some("@ + json_value_debug(p) + ")"@,
        None => "None"@,
    }
}

/// A frame as its derived `Debug` prints it, the payload as the JSON value it holds.
pub open spec fn frame_debug(f: Frame) -> Seq<char> {
    match f {
        Frame::Data { from, to, message, payload } => "Data { from: "@ + str_debug(from@) + ", to: "@ + str_debug(to@)
            + ", message: "@ + str_debug(message@) + ", payload: "@ + payload_debug(opt_text(payload)) + " }"@,
        Frame::Select { by, label } => "Select { by: "@ + str_debug(by@) + ", label: "@ + str_debug(label@) + " }"@,
        Frame::Cancel { from, to, scope } => "Cancel { from: "@ + str_debug(from@) + ", to: "@ + str_debug(to@)
            + ", scope: "@ + str_debug(scope@) + " }"@,
        Frame::Fault { observer, failure } => "Fault { observer: "@ + str_debug(observer@) + ", failure: "@
            + str_debug(failure@) + " }"@,
    }
}

fn option_text(o: &Option<String>) -> (r: String)
    ensures
        r@ == option_debug(opt_text(*o)),
{
    match o {
        Some(s) => {
            let mut out = text_from("Some(");
            push_text(&mut out, quoted(s.as_str()).as_str());
            push_text(&mut out, ")");
            out
        },
        None => text_from("None"),
    }
}

fn payload_text(o: &Option<String>) -> (r: String)
    ensures
        r@ == payload_debug(opt_text(*o)),
{
    match o {
        Some(p) => {
            let mut out = text_from("Some(");
            push_text(&mut out, value_debug(p.as_str()).as_str());
            push_text(&mut out, ")");
            out
        },
        None => text_from("None"),
    }
}

/// The debug rendering of a map.
pub fn map_text(m: &StrMap) -> (r: String)
    ensures
        r@ == map_debug(m@),
{
    let ghost items = m@.map_values(|e: (Seq<char>, Seq<char>)| entry_debug(e));
    let n = m.len();
    let mut list = text_from("{");
    let mut i: usize = 0;
    while i < n
        invariant
            n == m@.len(),
            items == m@.map_values(|e: (Seq<char>, Seq<char>)| entry_debug(e)),
            i <= n,
            list@ == "{"@ + join_with(items.subrange(0, i as int), ", "@),
        decreases n - i,
    {
        proof {
            lemma_join_push(items.subrange(0, i as int), items[i as int], ", "@);
            assert(items.subrange(0, i + 1) =~= items.subrange(0, i as int).push(items[i as int]));
        }
        if i > 0 {
            push_text(&mut list, ", ");
        }
        let mut entry = quoted(m.key_at(i).as_str());
        push_text(&mut entry, ": ");
        push_text(&mut entry, quoted(m.value_at(i).as_str()).as_str());
        push_text(&mut list, entry.as_str());
        i = i + 1;
    }
    assert(items.subrange(0, n as int) =~= items);
    push_text(&mut list, "}");
    list
}

/// The debug rendering of the keys of a map, as a list.
pub fn keys_text(m: &StrMap) -> (r: String)
    ensures
        r@ == list_debug(crate::map::keys_of(m@)),
{
    let ghost items = crate::map::keys_of(m@).map_values(|l: Seq<char>| str_debug(l));
    let n = m.len();
    let mut list = text_from("[");
    let mut i: usize = 0;
    while i < n
        invariant
            n == m@.len(),
            items == crate::map::keys_of(m@).map_values(|l: Seq<char>| str_debug(l)),
            i <= n,
            list@ == "["@ + join_with(items.subrange(0, i as int), ", "@),
        decreases n - i,
    {
        proof {
            lemma_join_push(items.subrange(0, i as int), items[i as int], ", "@);
            assert(items.subrange(0, i + 1) =~= items.subrange(0, i as int).push(items[i as int]));
        }
        if i > 0 {
            push_text(&mut list, ", ");
        }
        push_text(&mut list, quoted(m.key_at(i).as_str()).as_str());
        i = i + 1;
    }
    assert(items.subrange(0, n as int) =~= items);
    push_text(&mut list, "]");
    list
}

/// The debug rendering of an endpoint state.
pub fn state_text(s: &EndpointState) -> (r: String)
    ensures
        r@ == state_debug(*s),
{
    match s {
        EndpointState::Send { id, to, message, next, deadline, on_failure } => {
            let mut out = text_from("Send { id: ");
            push_text(&mut out, quoted(id.as_str()).as_str());
            push_text(&mut out, ", to: ");
            push_text(&mut out, quoted(to.as_str()).as_str());
            push_text(&mut out, ", message: ");
            push_text(&mut out, quoted(message.as_str()).as_str());
            push_text(&mut out, ", next: ");
            push_text(&mut out, quoted(next.as_str()).as_str());
            push_text(&mut out, ", deadline: ");
            push_text(&mut out, option_text(deadline).as_str());
            push_text(&mut out, ", on_failure: ");
            push_text(&mut out, map_text(on_failure).as_str());
            push_text(&mut out, " }");
            out
        },
        EndpointState::Receive { id, from, message, next, deadline, on_failure } => {
            let mut out = text_from("Receive { id: ");
            push_text(&mut out, quoted(id.as_str()).as_str());
            push_text(&mut out, ", from: ");
            push_text(&mut out, quoted(from.as_str()).as_str());
            push_text(&mut out, ", message: ");
            push_text(&mut out, quoted(message.as_str()).as_str());
            push_text(&mut out, ", next: ");
            push_text(&mut out, quoted(next.as_str()).as_str());
            push_text(&mut out, ", deadline: ");
            push_text(&mut out, option_text(deadline).as_str());
            push_text(&mut out, ", on_failure: ");
            push_text(&mut out, map_text(on_failure).as_str());
            push_text(&mut out, " }");
            out
        },
        EndpointState::Select { id, branches, on_failure } => {
            let mut out = text_from("Select { id: ");
            push_text(&mut out, quoted(id.as_str()).as_str());
            push_text(&mut out, ", branches: ");
            push_text(&mut out, map_text(branches).as_str());
            push_text(&mut out, ", on_failure: ");
            push_text(&mut out, map_text(on_failure).as_str());
            push_text(&mut out, " }");
            out
        },
        EndpointState::Branch { id, from, branches, on_failure } => {
            let mut out = text_from("Branch { id: ");
            push_text(&mut out, quoted(id.as_str()).as_str());
            push_text(&mut out, ", from: ");
            push_text(&mut out, quoted(from.as_str()).as_str());
            push_text(&mut out, ", branches: ");
            push_text(&mut out, map_text(branches).as_str());
            push_text(&mut out, ", on_failure: ");
            push_text(&mut out, map_text(on_failure).as_str());
            push_text(&mut out, " }");
            out
        },
        EndpointState::SendCancel { id, to, scope, next, on_failure } => {
            let mut out = text_from("SendCancel { id: ");
            push_text(&mut out, quoted(id.as_str()).as_str());
            push_text(&mut out, ", to: ");
            push_text(&mut out, quoted(to.as_str()).as_str());
            push_text(&mut out, ", scope: ");
            push_text(&mut out, quoted(scope.as_str()).as_str());
            push_text(&mut out, ", next: ");
            push_text(&mut out, quoted(next.as_str()).as_str());
            push_text(&mut out, ", on_failure: ");
            push_text(&mut out, map_text(on_failure).as_str());
            push_text(&mut out, " }");
            out
        },
        EndpointState::ReceiveCancel { id, from, scope, next, on_failure } => {
            let mut out = text_from("ReceiveCancel { id: ");
            push_text(&mut out, quoted(id.as_str()).as_str());
            push_text(&mut out, ", from: ");
            push_text(&mut out, quoted(from.as_str()).as_str());
            push_text(&mut out, ", scope: ");
            push_text(&mut out, quoted(scope.as_str()).as_str());
            push_text(&mut out, ", next: ");
            push_text(&mut out, quoted(next.as_str()).as_str());
            push_text(&mut out, ", on_failure: ");
            push_text(&mut out, map_text(on_failure).as_str());
            push_text(&mut out, " }");
            out
        },
        EndpointState::End { id } => {
            let mut out = text_from("End { id: ");
            push_text(&mut out, quoted(id.as_str()).as_str());
            push_text(&mut out, " }");
            out
        },
        EndpointState::Fail { id, failure } => {
            let mut out = text_from("Fail { id: ");
            push_text(&mut out, quoted(id.as_str()).as_str());
            push_text(&mut out, ", failure: ");
            push_text(&mut out, quoted(failure.as_str()).as_str());
            push_text(&mut out, " }");
            out
        },
    }
}

/// The debug rendering of a frame.
pub fn frame_debug_text(f: &Frame) -> (r: String)
    ensures
        r@ == frame_debug(*f),
{
    match f {
        Frame::Data { from, to, message, payload } => {
            let mut out = text_from("Data { from: ");
            push_text(&mut out, quoted(from.as_str()).as_str());
            push_text(&mut out, ", to: ");
            push_text(&mut out, quoted(to.as_str()).as_str());
            push_text(&mut out, ", message: ");
            push_text(&mut out, quoted(message.as_str()).as_str());
            push_text(&mut out, ", payload: ");
            push_text(&mut out, payload_text(payload).as_str());
            push_text(&mut out, " }");
            out
        },
        Frame::Select { by, label } => {
            let mut out = text_from("Select { by: ");
            push_text(&mut out, quoted(by.as_str()).as_str());
            push_text(&mut out, ", label: ");
            push_text(&mut out, quoted(label.as_str()).as_str());
            push_text(&mut out, " }");
            out
        },
        Frame::Cancel { from, to, scope } => {
            let mut out = text_from("Cancel { from: ");
            push_text(&mut out, quoted(from.as_str()).as_str());
            push_text(&mut out, ", to: ");
            push_text(&mut out, quoted(to.as_str()).as_str());
            push_text(&mut out, ", scope: ");
            push_text(&mut out, quoted(scope.as_str()).as_str());
            push_text(&mut out, " }");
            out
        },
        Frame::Fault { observer, failure } => {
            let mut out = text_from("Fault { observer: ");
            push_text(&mut out, quoted(observer.as_str()).as_str());
            push_text(&mut out, ", failure: ");
            push_text(&mut out, quoted(failure.as_str()).as_str());
            push_text(&mut out, " }");
            out
        },
    }
}

} // verus!
