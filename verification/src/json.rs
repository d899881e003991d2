//! Compact JSON text for the values the identities and wire encodings cover: strings,
//! optional strings, arrays and string-keyed maps.
use vstd::prelude::*;
use crate::conversation::join_with;
use crate::map::{StrMap, TextPairs};
use crate::text::{json_string, push_json_string, push_text};

verus! {

/// An optional string: `null`, or the quoted string.
pub open spec fn json_opt_string(o: Option<Seq<char>>) -> Seq<char> {
    match o {
        Some(s) => json_string(s),
        None => "null"@,
    }
}

pub open spec fn json_bool(b: bool) -> Seq<char> {
    if b {
        "true"@
    } else {
        "false"@
    }
}

/// Already-encoded items as a JSON array.
pub open spec fn json_array(items: Seq<Seq<char>>) -> Seq<char> {
    "["@ + join_with(items, ","@) + "]"@
}

/// One member of an object whose value is a string.
pub open spec fn string_member(e: (Seq<char>, Seq<char>)) -> Seq<char> {
    json_string(e.0) + ":"@ + json_string(e.1)
}

/// One member of an object whose value is already JSON text.
pub open spec fn raw_member(e: (Seq<char>, Seq<char>)) -> Seq<char> {
    json_string(e.0) + ":"@ + e.1
}

/// A string-to-string map as a JSON object, in key order.
pub open spec fn json_string_map(p: TextPairs) -> Seq<char> {
    "{"@ + join_with(p.map_values(|e: (Seq<char>, Seq<char>)| string_member(e)), ","@) + "}"@
}

pub open spec fn string_views_of(v: Seq<String>) -> Seq<Seq<char>> {
    v.map_values(|s: String| s@)
}

/// A list of strings as a JSON array.
pub open spec fn json_string_array(v: Seq<Seq<char>>) -> Seq<char> {
    json_array(v.map_values(|s: Seq<char>| json_string(s)))
}

pub proof fn lemma_join_push(items: Seq<Seq<char>>, x: Seq<char>, sep: Seq<char>)
    ensures
        join_with(items.push(x), sep) == if items.len() == 0 {
            x
        } else {
            join_with(items, sep) + sep + x
        },
{
    assert(items.push(x).drop_last() =~= items);
    if items.len() == 0 {
        assert(items.push(x).len() == 1);
    }
}

pub fn push_json_opt_string(out: &mut String, o: &Option<String>)
    ensures
        final(out)@ == old(out)@ + json_opt_string(crate::projection::opt_text(*o)),
{
    match o {
        Some(s) => push_json_string(out, s.as_str()),
        None => push_text(out, "null"),
    }
}

pub fn push_json_bool(out: &mut String, b: bool)
    ensures
        final(out)@ == old(out)@ + json_bool(b),
{
    if b {
        push_text(out, "true");
    } else {
        push_text(out, "false");
    }
}

/// Appends a string-to-string map as a JSON object.
pub fn push_json_string_map(out: &mut String, m: &StrMap)
    ensures
        final(out)@ == old(out)@ + json_string_map(m@),
{
    let ghost start = out@;
    let ghost members = m@.map_values(|e: (Seq<char>, Seq<char>)| string_member(e));
    push_text(out, "{");
    let n = m.len();
    let mut i: usize = 0;
    while i < n
        invariant
            n == m@.len(),
            members == m@.map_values(|e: (Seq<char>, Seq<char>)| string_member(e)),
            i <= n,
            out@ == start + "{"@ + join_with(members.subrange(0, i as int), ","@),
        decreases n - i,
    {
        proof {
            lemma_join_push(members.subrange(0, i as int), members[i as int], ","@);
            assert(members.subrange(0, i + 1) =~= members.subrange(0, i as int).push(members[i as int]));
        }
        if i > 0 {
            push_text(out, ",");
        }
        push_json_string(out, m.key_at(i).as_str());
        push_text(out, ":");
        push_json_string(out, m.value_at(i).as_str());
        i = i + 1;
    }
    assert(members.subrange(0, n as int) =~= members);
    push_text(out, "}");
    assert(out@ =~= start + json_string_map(m@));
}

/// Appends a list of strings as a JSON array.
pub fn push_json_string_array(out: &mut String, v: &Vec<String>)
    ensures
        final(out)@ == old(out)@ + json_string_array(string_views_of(v@)),
{
    let ghost start = out@;
    let ghost items = string_views_of(v@).map_values(|s: Seq<char>| json_string(s));
    push_text(out, "[");
    let mut i: usize = 0;
    while i < v.len()
        invariant
            items.len() == v.len(),
            forall|k: int| 0 <= k < v.len() ==> #[trigger] items[k] == json_string(v@[k]@),
            i <= v.len(),
            out@ == start + "["@ + join_with(items.subrange(0, i as int), ","@),
        decreases v.len() - i,
    {
        proof {
            lemma_join_push(items.subrange(0, i as int), items[i as int], ","@);
            assert(items.subrange(0, i + 1) =~= items.subrange(0, i as int).push(items[i as int]));
        }
        if i > 0 {
            push_text(out, ",");
        }
        push_json_string(out, v[i].as_str());
        i = i + 1;
    }
    assert(items.subrange(0, v.len() as int) =~= items);
    push_text(out, "]");
    assert(out@ =~= start + json_string_array(string_views_of(v@)));
}

} // verus!
