//! The JSON texts that identities are computed from are unambiguous: read from the
//! start, the text of a state, an endpoint, a plan or a conversation ends where it ends
//! and determines every field it carries, so identities tell apart values that differ in
//! any such field.
use vstd::prelude::*;
use crate::text::{json_string, json_escaped, json_escape_char, hex_char, decimal, digit_char};
use crate::json::{json_opt_string, json_string_map, string_member, json_array, json_bool, json_string_array, string_views_of};
use crate::conversation::join_with;
use crate::map::TextPairs;
use crate::conversation::{GlobalState, Conversation, Module, Role, FailureDefinition, TypeDefinition};
use crate::projection::{Endpoint, EndpointState, opt_text};
use crate::plan::{
    EvePlan, semantic_plan_json, wire_member_json, plan_endpoints_items, WireOperation, WireTransition, CompactWirePlan,
    wire_operation_json, wire_transition_json, wire_transitions_items, wire_plan_json,
};
use std::sync::Arc;
use crate::encode::{global_state_json, endpoint_state_json, global_states_json, global_states_items, endpoint_states_json, endpoint_states_items, endpoint_json,
    module_json, role_json, roles_json, roles_items, failure_json, failures_json, failures_items, types_json, type_json,
    semantic_conversation_json};

verus! {

/// Concatenation is associative.
proof fn lemma_assoc(a: Seq<char>, b: Seq<char>, c: Seq<char>)
    ensures
        (a + b) + c == a + (b + c),
{
    assert((a + b) + c =~= a + (b + c));
}

/// Equal texts that start with prefixes of the same length have equal prefixes and equal
/// rests.
pub proof fn lemma_split(a: Seq<char>, x: Seq<char>, b: Seq<char>, y: Seq<char>)
    requires
        a + x == b + y,
        a.len() == b.len(),
    ensures
        a == b,
        x == y,
{
    assert(a =~= (a + x).subrange(0, a.len() as int));
    assert(b =~= (b + y).subrange(0, b.len() as int));
    assert(x =~= (a + x).subrange(a.len() as int, (a + x).len() as int));
    assert(y =~= (b + y).subrange(b.len() as int, (b + y).len() as int));
}

/// Distinct hexadecimal digits are written differently.
proof fn lemma_hex_char_injective(a: nat, b: nat)
    requires
        a < 16,
        b < 16,
        hex_char(a) == hex_char(b),
    ensures
        a == b,
{
}

/// The escape of a character never starts with a quote, and the escapes of two
/// characters are prefixes of each other only where the characters are equal.
proof fn lemma_escape_char(c: char, d: char, x: Seq<char>, y: Seq<char>)
    requires
        json_escape_char(c) + x == json_escape_char(d) + y,
    ensures
        c == d,
        x == y,
{
    let ec = json_escape_char(c);
    let ed = json_escape_char(d);
    assert((ec + x)[0] == ec[0]);
    assert((ed + y)[0] == ed[0]);
    if ec.len() > 1 && ed.len() > 1 {
        assert((ec + x)[1] == ec[1]);
        assert((ed + y)[1] == ed[1]);
        if ec[1] == 'u' {
            assert((ec + x)[4] == ec[4]);
            assert((ed + y)[4] == ed[4]);
            assert((ec + x)[5] == ec[5]);
            assert((ed + y)[5] == ed[5]);
            lemma_hex_char_injective((c as u32 / 16) as nat, (d as u32 / 16) as nat);
            lemma_hex_char_injective((c as u32 % 16) as nat, (d as u32 % 16) as nat);
        }
    }
    lemma_split(ec, x, ed, y);
}

/// No escape starts with a quote.
proof fn lemma_escape_not_quote(c: char)
    ensures
        json_escape_char(c).len() > 0,
        json_escape_char(c)[0] != '"',
{
}

/// Escaping a concatenation escapes each part.
proof fn lemma_escaped_concat(a: Seq<char>, b: Seq<char>)
    ensures
        json_escaped(a + b) == json_escaped(a) + json_escaped(b),
    decreases b.len(),
{
    if b.len() == 0 {
        assert(a + b =~= a);
        assert(json_escaped(a) + json_escaped(b) =~= json_escaped(a));
    } else {
        lemma_escaped_concat(a, b.drop_last());
        assert((a + b).drop_last() =~= a + b.drop_last());
        assert((a + b).last() == b.last());
        assert(json_escaped(a + b) =~= json_escaped(a) + json_escaped(b));
    }
}

/// Escaping a non-empty text escapes its first character, then the rest.
proof fn lemma_escaped_front(s: Seq<char>)
    requires
        s.len() > 0,
    ensures
        json_escaped(s) == json_escape_char(s[0]) + json_escaped(s.drop_first()),
{
    lemma_escaped_concat(seq![s[0]], s.drop_first());
    assert(seq![s[0]] + s.drop_first() =~= s);
    let one = seq![s[0]];
    assert(one.drop_last() =~= Seq::<char>::empty());
    assert(json_escaped(one.drop_last()) == Seq::<char>::empty());
    assert(one.last() == s[0]);
    assert(json_escaped(one) == json_escaped(one.drop_last()) + json_escape_char(one.last()));
    assert(json_escaped(one) =~= json_escape_char(s[0]));
}

/// An escaped text ends at the first unescaped quote: where two escaped texts, each
/// followed by a quote, start two equal texts, the texts and what follows are equal.
proof fn lemma_escaped_quote(a: Seq<char>, r1: Seq<char>, b: Seq<char>, r2: Seq<char>)
    requires
        json_escaped(a) + (seq!['"'] + r1) == json_escaped(b) + (seq!['"'] + r2),
    ensures
        a == b,
        r1 == r2,
    decreases a.len(),
{
    if a.len() == 0 {
        assert(json_escaped(a) =~= Seq::<char>::empty());
        if b.len() > 0 {
            lemma_escaped_front(b);
            lemma_escape_not_quote(b[0]);
            assert((json_escaped(a) + (seq!['"'] + r1))[0] == '"');
            assert((json_escaped(b) + (seq!['"'] + r2))[0] == json_escape_char(b[0])[0]);
        } else {
            assert(json_escaped(b) =~= Seq::<char>::empty());
            lemma_split(seq!['"'], r1, seq!['"'], r2);
        }
    } else if b.len() == 0 {
        assert(json_escaped(b) =~= Seq::<char>::empty());
        lemma_escaped_front(a);
        lemma_escape_not_quote(a[0]);
        assert((json_escaped(b) + (seq!['"'] + r2))[0] == '"');
        assert((json_escaped(a) + (seq!['"'] + r1))[0] == json_escape_char(a[0])[0]);
    } else {
        lemma_escaped_front(a);
        lemma_escaped_front(b);
        let ta = json_escaped(a.drop_first()) + (seq!['"'] + r1);
        let tb = json_escaped(b.drop_first()) + (seq!['"'] + r2);
        assert(json_escaped(a) + (seq!['"'] + r1) =~= json_escape_char(a[0]) + ta);
        assert(json_escaped(b) + (seq!['"'] + r2) =~= json_escape_char(b[0]) + tb);
        lemma_escape_char(a[0], b[0], ta, tb);
        lemma_escaped_quote(a.drop_first(), r1, b.drop_first(), r2);
        assert(a =~= seq![a[0]] + a.drop_first());
        assert(b =~= seq![b[0]] + b.drop_first());
    }
}

/// A JSON string literal ends where it ends: where two literals start two equal texts,
/// the strings and what follows are equal.
pub proof fn law_json_string_prefix_free(a: Seq<char>, r1: Seq<char>, b: Seq<char>, r2: Seq<char>)
    requires
        json_string(a) + r1 == json_string(b) + r2,
    ensures
        a == b,
        r1 == r2,
{
    assert(json_string(a) + r1 =~= seq!['"'] + (json_escaped(a) + (seq!['"'] + r1)));
    assert(json_string(b) + r2 =~= seq!['"'] + (json_escaped(b) + (seq!['"'] + r2)));
    lemma_split(seq!['"'], json_escaped(a) + (seq!['"'] + r1), seq!['"'], json_escaped(b) + (seq!['"'] + r2));
    lemma_escaped_quote(a, r1, b, r2);
}

/// An optional string is `null` or a string literal, and ends where it ends.
pub proof fn law_json_opt_string_prefix_free(a: Option<Seq<char>>, r1: Seq<char>, b: Option<Seq<char>>, r2: Seq<char>)
    requires
        json_opt_string(a) + r1 == json_opt_string(b) + r2,
    ensures
        a == b,
        r1 == r2,
{
    reveal_strlit("null");
    match (a, b) {
        (Some(x), Some(y)) => {
            law_json_string_prefix_free(x, r1, y, r2);
        },
        (None, None) => {
            lemma_split(json_opt_string(a), r1, json_opt_string(b), r2);
        },
        (Some(x), None) => {
            assert((json_opt_string(a) + r1)[0] == '"');
            assert((json_opt_string(b) + r2)[0] == 'n');
        },
        (None, Some(y)) => {
            assert((json_opt_string(a) + r1)[0] == 'n');
            assert((json_opt_string(b) + r2)[0] == '"');
        },
    }
}

/// Joining at least two items puts the first, the separator, and the rest joined.
proof fn lemma_join_front(items: Seq<Seq<char>>, sep: Seq<char>)
    requires
        items.len() >= 2,
    ensures
        join_with(items, sep) == items[0] + sep + join_with(items.drop_first(), sep),
    decreases items.len(),
{
    if items.len() > 2 {
        lemma_join_front(items.drop_last(), sep);
        let d = items.drop_first();
        assert(items.drop_last().drop_first() =~= d.drop_last());
        assert(d.last() == items.last());
        assert(join_with(d, sep) == join_with(d.drop_last(), sep) + sep + d.last());
        assert(items[0] == items.drop_last()[0]);
        assert(join_with(items, sep) == join_with(items.drop_last(), sep) + sep + items.last());
        assert(join_with(items, sep) =~= items[0] + sep + join_with(d, sep));
    } else {
        assert(items.drop_last() =~= seq![items[0]]);
        assert(items.drop_first() =~= seq![items[1]]);
        assert(join_with(items.drop_last(), sep) == items.drop_last()[0]);
        assert(join_with(items.drop_first(), sep) == items.drop_first()[0]);
        assert(join_with(items, sep) == join_with(items.drop_last(), sep) + sep + items.last());
    }
}

/// The members of a string map.
pub open spec fn members(p: TextPairs) -> Seq<Seq<char>> {
    p.map_values(|e: (Seq<char>, Seq<char>)| string_member(e))
}

/// The members of a string map, joined by commas, end at the closing brace.
#[verifier::spinoff_prover]
#[verifier::rlimit(40)]
proof fn lemma_members_brace(p: TextPairs, r1: Seq<char>, q: TextPairs, r2: Seq<char>)
    requires
        join_with(members(p), seq![',']) + (seq!['}'] + r1) == join_with(members(q), seq![',']) + (seq!['}'] + r2),
    ensures
        p == q,
        r1 == r2,
    decreases p.len(),
{
    let jp = join_with(members(p), seq![',']);
    let jq = join_with(members(q), seq![',']);
    if p.len() == 0 || q.len() == 0 {
        if p.len() == 0 && q.len() == 0 {
            assert(jp =~= Seq::<char>::empty());
            assert(jq =~= Seq::<char>::empty());
            lemma_split(seq!['}'], r1, seq!['}'], r2);
            assert(p =~= q);
        } else if p.len() == 0 {
            assert(jp =~= Seq::<char>::empty());
            lemma_member_start(q);
            assert((jp + (seq!['}'] + r1))[0] == '}');
            assert((jq + (seq!['}'] + r2))[0] == jq[0]);
        } else {
            assert(jq =~= Seq::<char>::empty());
            lemma_member_start(p);
            assert((jq + (seq!['}'] + r2))[0] == '}');
            assert((jp + (seq!['}'] + r1))[0] == jp[0]);
        }
    } else {
        let tp: Seq<char> = if p.len() == 1 {
            Seq::empty()
        } else {
            seq![','] + join_with(members(p.drop_first()), seq![','])
        };
        let tq: Seq<char> = if q.len() == 1 {
            Seq::empty()
        } else {
            seq![','] + join_with(members(q.drop_first()), seq![','])
        };
        lemma_members_split(p);
        lemma_members_split(q);
        assert(jp == string_member(p[0]) + tp);
        assert(jq == string_member(q[0]) + tq);
        let restp = tp + (seq!['}'] + r1);
        let restq = tq + (seq!['}'] + r2);
        assert(jp + (seq!['}'] + r1) =~= json_string(p[0].0) + (seq![':'] + (json_string(p[0].1) + restp)));
        assert(jq + (seq!['}'] + r2) =~= json_string(q[0].0) + (seq![':'] + (json_string(q[0].1) + restq)));
        law_json_string_prefix_free(p[0].0, seq![':'] + (json_string(p[0].1) + restp), q[0].0, seq![':'] + (json_string(q[0].1) + restq));
        lemma_split(seq![':'], json_string(p[0].1) + restp, seq![':'], json_string(q[0].1) + restq);
        law_json_string_prefix_free(p[0].1, restp, q[0].1, restq);
        assert(p[0] == q[0]);
        if p.len() == 1 && q.len() == 1 {
            lemma_split(seq!['}'], r1, seq!['}'], r2);
            assert(p =~= q);
        } else if p.len() == 1 {
            assert(restp[0] == '}');
            assert(restq[0] == ',');
        } else if q.len() == 1 {
            assert(restp[0] == ',');
            assert(restq[0] == '}');
        } else {
            let jp2 = join_with(members(p.drop_first()), seq![',']);
            let jq2 = join_with(members(q.drop_first()), seq![',']);
            assert(restp =~= seq![','] + (jp2 + (seq!['}'] + r1)));
            assert(restq =~= seq![','] + (jq2 + (seq!['}'] + r2)));
            lemma_split(seq![','], jp2 + (seq!['}'] + r1), seq![','], jq2 + (seq!['}'] + r2));
            lemma_members_brace(p.drop_first(), r1, q.drop_first(), r2);
            assert(p =~= seq![p[0]] + p.drop_first());
            assert(q =~= seq![q[0]] + q.drop_first());
        }
    }
}

/// The joined members of a non-empty map start with a quote.
proof fn lemma_member_start(p: TextPairs)
    requires
        p.len() > 0,
    ensures
        join_with(members(p), seq![',']).len() > 0,
        join_with(members(p), seq![','])[0] == '"',
{
    lemma_members_split(p);
}

/// The joined members of a non-empty map: the first member, then the rest after a comma.
proof fn lemma_members_split(p: TextPairs)
    requires
        p.len() > 0,
    ensures
        join_with(members(p), seq![',']) == string_member(p[0]) + if p.len() == 1 {
            Seq::<char>::empty()
        } else {
            seq![','] + join_with(members(p.drop_first()), seq![','])
        },
        string_member(p[0])[0] == '"',
        string_member(p[0]) == json_string(p[0].0) + (seq![':'] + json_string(p[0].1)),
{
    reveal_strlit(":");
    assert(string_member(p[0]) =~= json_string(p[0].0) + (seq![':'] + json_string(p[0].1)));
    let m = members(p);
    assert(m[0] == string_member(p[0]));
    if p.len() == 1 {
        assert(join_with(m, seq![',']) == m[0]);
        assert(string_member(p[0]) + Seq::<char>::empty() =~= string_member(p[0]));
    } else {
        lemma_join_front(m, seq![',']);
        assert(m.drop_first() =~= members(p.drop_first()));
        assert(join_with(m, seq![',']) =~= string_member(p[0]) + (seq![','] + join_with(members(p.drop_first()), seq![','])));
    }
    assert(string_member(p[0]) == json_string(p[0].0) + ":"@ + json_string(p[0].1));
}

/// A string map's JSON object ends where it ends: where two objects start two equal
/// texts, the maps and what follows are equal.
pub proof fn law_json_string_map_prefix_free(p: TextPairs, r1: Seq<char>, q: TextPairs, r2: Seq<char>)
    requires
        json_string_map(p) + r1 == json_string_map(q) + r2,
    ensures
        p == q,
        r1 == r2,
{
    reveal_strlit("{");
    reveal_strlit("}");
    reveal_strlit(",");
    assert(","@ =~= seq![',']);
    let jp = join_with(members(p), seq![',']);
    let jq = join_with(members(q), seq![',']);
    assert(json_string_map(p) + r1 =~= seq!['{'] + (jp + (seq!['}'] + r1)));
    assert(json_string_map(q) + r2 =~= seq!['{'] + (jq + (seq!['}'] + r2)));
    lemma_split(seq!['{'], jp + (seq!['}'] + r1), seq!['{'], jq + (seq!['}'] + r2));
    lemma_members_brace(p, r1, q, r2);
}

/// `x` and `y` end where they end: wherever one followed by some text equals the other
/// followed by some text, the two are equal and so are the texts that follow.
pub open spec fn delimited(x: Seq<char>, y: Seq<char>) -> bool {
    forall|t1: Seq<char>, t2: Seq<char>| #![trigger x + t1, y + t2] x + t1 == y + t2 ==> x == y && t1 == t2
}

/// Items that can stand in a JSON array: none is empty or starts with a closing bracket,
/// and any two end where they end.
pub open spec fn array_items(xs: Seq<Seq<char>>, ys: Seq<Seq<char>>) -> bool {
    &&& forall|i: int| 0 <= i < xs.len() ==> (#[trigger] xs[i]).len() > 0 && xs[i][0] != ']'
    &&& forall|j: int| 0 <= j < ys.len() ==> (#[trigger] ys[j]).len() > 0 && ys[j][0] != ']'
    &&& forall|i: int, j: int| 0 <= i < xs.len() && 0 <= j < ys.len() ==> delimited(#[trigger] xs[i], #[trigger] ys[j])
}

/// The joined items of a non-empty list: the first, then the rest after the separator.
proof fn lemma_items_split(xs: Seq<Seq<char>>)
    requires
        xs.len() > 0,
    ensures
        join_with(xs, seq![',']) == xs[0] + if xs.len() == 1 {
            Seq::<char>::empty()
        } else {
            seq![','] + join_with(xs.drop_first(), seq![','])
        },
{
    if xs.len() == 1 {
        assert(xs[0] + Seq::<char>::empty() =~= xs[0]);
    } else {
        lemma_join_front(xs, seq![',']);
        assert(join_with(xs, seq![',']) =~= xs[0] + (seq![','] + join_with(xs.drop_first(), seq![','])));
    }
}

/// Items joined by commas end at the closing bracket.
#[verifier::spinoff_prover]
#[verifier::rlimit(40)]
proof fn lemma_items_bracket(xs: Seq<Seq<char>>, r1: Seq<char>, ys: Seq<Seq<char>>, r2: Seq<char>)
    requires
        array_items(xs, ys),
        join_with(xs, seq![',']) + (seq![']'] + r1) == join_with(ys, seq![',']) + (seq![']'] + r2),
    ensures
        xs == ys,
        r1 == r2,
    decreases xs.len(),
{
    let jx = join_with(xs, seq![',']);
    let jy = join_with(ys, seq![',']);
    if xs.len() == 0 || ys.len() == 0 {
        if xs.len() == 0 && ys.len() == 0 {
            assert(jx =~= Seq::<char>::empty());
            assert(jy =~= Seq::<char>::empty());
            lemma_split(seq![']'], r1, seq![']'], r2);
            assert(xs =~= ys);
        } else if xs.len() == 0 {
            assert(jx =~= Seq::<char>::empty());
            lemma_items_split(ys);
            assert((jx + (seq![']'] + r1))[0] == ']');
            assert((jy + (seq![']'] + r2))[0] == ys[0][0]);
        } else {
            assert(jy =~= Seq::<char>::empty());
            lemma_items_split(xs);
            assert((jy + (seq![']'] + r2))[0] == ']');
            assert((jx + (seq![']'] + r1))[0] == xs[0][0]);
        }
    } else {
        let tx: Seq<char> = if xs.len() == 1 {
            Seq::empty()
        } else {
            seq![','] + join_with(xs.drop_first(), seq![','])
        };
        let ty: Seq<char> = if ys.len() == 1 {
            Seq::empty()
        } else {
            seq![','] + join_with(ys.drop_first(), seq![','])
        };
        lemma_items_split(xs);
        lemma_items_split(ys);
        let restx = tx + (seq![']'] + r1);
        let resty = ty + (seq![']'] + r2);
        lemma_assoc(xs[0], tx, seq![']'] + r1);
        lemma_assoc(ys[0], ty, seq![']'] + r2);
        assert(delimited(xs[0], ys[0]));
        assert(xs[0] + restx == ys[0] + resty);
        assert(xs[0] == ys[0] && restx == resty);
        if xs.len() == 1 && ys.len() == 1 {
            assert(restx =~= seq![']'] + r1);
            assert(resty =~= seq![']'] + r2);
            lemma_split(seq![']'], r1, seq![']'], r2);
            assert(xs =~= ys);
        } else if xs.len() == 1 {
            assert(restx[0] == ']');
            assert(resty[0] == ',');
        } else if ys.len() == 1 {
            assert(restx[0] == ',');
            assert(resty[0] == ']');
        } else {
            let jx2 = join_with(xs.drop_first(), seq![',']);
            let jy2 = join_with(ys.drop_first(), seq![',']);
            assert(restx =~= seq![','] + (jx2 + (seq![']'] + r1)));
            assert(resty =~= seq![','] + (jy2 + (seq![']'] + r2)));
            lemma_split(seq![','], jx2 + (seq![']'] + r1), seq![','], jy2 + (seq![']'] + r2));
            assert forall|i: int, j: int| 0 <= i < xs.drop_first().len() && 0 <= j < ys.drop_first().len() implies delimited(
                #[trigger] xs.drop_first()[i],
                #[trigger] ys.drop_first()[j],
            ) by {
                assert(delimited(xs[i + 1], ys[j + 1]));
            }
            assert forall|i: int| 0 <= i < xs.drop_first().len() implies (#[trigger] xs.drop_first()[i]).len() > 0
                && xs.drop_first()[i][0] != ']' by {
                assert(xs.drop_first()[i] == xs[i + 1]);
            }
            assert forall|j: int| 0 <= j < ys.drop_first().len() implies (#[trigger] ys.drop_first()[j]).len() > 0
                && ys.drop_first()[j][0] != ']' by {
                assert(ys.drop_first()[j] == ys[j + 1]);
            }
            lemma_items_bracket(xs.drop_first(), r1, ys.drop_first(), r2);
            assert(xs =~= seq![xs[0]] + xs.drop_first());
            assert(ys =~= seq![ys[0]] + ys.drop_first());
        }
    }
}

/// A JSON array of items that end where they end ends where it ends: where two arrays
/// start two equal texts, the items and what follows are equal.
pub proof fn law_json_array_prefix_free(xs: Seq<Seq<char>>, r1: Seq<char>, ys: Seq<Seq<char>>, r2: Seq<char>)
    requires
        array_items(xs, ys),
        json_array(xs) + r1 == json_array(ys) + r2,
    ensures
        xs == ys,
        r1 == r2,
{
    reveal_strlit("[");
    reveal_strlit("]");
    reveal_strlit(",");
    assert(","@ =~= seq![',']);
    let jx = join_with(xs, seq![',']);
    let jy = join_with(ys, seq![',']);
    assert(json_array(xs) + r1 =~= seq!['['] + (jx + (seq![']'] + r1)));
    assert(json_array(ys) + r2 =~= seq!['['] + (jy + (seq![']'] + r2)));
    lemma_split(seq!['['], jx + (seq![']'] + r1), seq!['['], jy + (seq![']'] + r2));
    lemma_items_bracket(xs, r1, ys, r2);
}

/// The characters at fixed positions of a global state text, which tell its kinds apart.
proof fn lemma_global_marks(s: GlobalState, r: Seq<char>)
    ensures
        match s {
            GlobalState::Send { .. } => (global_state_json(s) + r)[0] == '{' && (global_state_json(s) + r)[9] == 's' && (global_state_json(s) + r)[10] == 'e',
            GlobalState::Choice { .. } => (global_state_json(s) + r)[0] == '{' && (global_state_json(s) + r)[9] == 'c' && (global_state_json(s) + r)[10] == 'h',
            GlobalState::Cancel { .. } => (global_state_json(s) + r)[0] == '{' && (global_state_json(s) + r)[9] == 'c' && (global_state_json(s) + r)[10] == 'a',
            GlobalState::End { .. } => (global_state_json(s) + r)[0] == '{' && (global_state_json(s) + r)[9] == 'e' && (global_state_json(s) + r)[10] == 'n',
            GlobalState::Fail { .. } => (global_state_json(s) + r)[0] == '{' && (global_state_json(s) + r)[9] == 'f' && (global_state_json(s) + r)[10] == 'a',
        },
{
    match s {
        GlobalState::Send { .. } => {
            reveal_strlit("{\"kind\":\"send\",\"id\":");
            assert((global_state_json(s) + r)[0] == "{\"kind\":\"send\",\"id\":"@[0]);
            assert((global_state_json(s) + r)[9] == "{\"kind\":\"send\",\"id\":"@[9]);
            assert((global_state_json(s) + r)[10] == "{\"kind\":\"send\",\"id\":"@[10]);
        },
        GlobalState::Choice { .. } => {
            reveal_strlit("{\"kind\":\"choice\",\"id\":");
            assert((global_state_json(s) + r)[0] == "{\"kind\":\"choice\",\"id\":"@[0]);
            assert((global_state_json(s) + r)[9] == "{\"kind\":\"choice\",\"id\":"@[9]);
            assert((global_state_json(s) + r)[10] == "{\"kind\":\"choice\",\"id\":"@[10]);
        },
        GlobalState::Cancel { .. } => {
            reveal_strlit("{\"kind\":\"cancel\",\"id\":");
            assert((global_state_json(s) + r)[0] == "{\"kind\":\"cancel\",\"id\":"@[0]);
            assert((global_state_json(s) + r)[9] == "{\"kind\":\"cancel\",\"id\":"@[9]);
            assert((global_state_json(s) + r)[10] == "{\"kind\":\"cancel\",\"id\":"@[10]);
        },
        GlobalState::End { .. } => {
            reveal_strlit("{\"kind\":\"end\",\"id\":");
            assert((global_state_json(s) + r)[0] == "{\"kind\":\"end\",\"id\":"@[0]);
            assert((global_state_json(s) + r)[9] == "{\"kind\":\"end\",\"id\":"@[9]);
            assert((global_state_json(s) + r)[10] == "{\"kind\":\"end\",\"id\":"@[10]);
        },
        GlobalState::Fail { .. } => {
            reveal_strlit("{\"kind\":\"fail\",\"id\":");
            assert((global_state_json(s) + r)[0] == "{\"kind\":\"fail\",\"id\":"@[0]);
            assert((global_state_json(s) + r)[9] == "{\"kind\":\"fail\",\"id\":"@[9]);
            assert((global_state_json(s) + r)[10] == "{\"kind\":\"fail\",\"id\":"@[10]);
        },
    }
}

/// `a` and `b` hold the same text in every field of the same kind.
pub open spec fn same_global_state(a: GlobalState, b: GlobalState) -> bool {
    match (a, b) {
        (GlobalState::Send { id: a_id, from: a_from, to: a_to, message: a_message, next: a_next, deadline: a_deadline, on_failure: a_on_failure }, GlobalState::Send { id: b_id, from: b_from, to: b_to, message: b_message, next: b_next, deadline: b_deadline, on_failure: b_on_failure }) => a_id@ == b_id@ && a_from@ == b_from@ && a_to@ == b_to@ && a_message@ == b_message@ && a_next@ == b_next@ && opt_text(a_deadline) == opt_text(b_deadline) && a_on_failure@ == b_on_failure@,
        (GlobalState::Choice { id: a_id, chooser: a_chooser, branches: a_branches, on_failure: a_on_failure }, GlobalState::Choice { id: b_id, chooser: b_chooser, branches: b_branches, on_failure: b_on_failure }) => a_id@ == b_id@ && a_chooser@ == b_chooser@ && a_branches@ == b_branches@ && a_on_failure@ == b_on_failure@,
        (GlobalState::Cancel { id: a_id, from: a_from, to: a_to, scope: a_scope, next: a_next, on_failure: a_on_failure }, GlobalState::Cancel { id: b_id, from: b_from, to: b_to, scope: b_scope, next: b_next, on_failure: b_on_failure }) => a_id@ == b_id@ && a_from@ == b_from@ && a_to@ == b_to@ && a_scope@ == b_scope@ && a_next@ == b_next@ && a_on_failure@ == b_on_failure@,
        (GlobalState::End { id: a_id }, GlobalState::End { id: b_id }) => a_id@ == b_id@,
        (GlobalState::Fail { id: a_id, failure: a_failure }, GlobalState::Fail { id: b_id, failure: b_failure }) => a_id@ == b_id@ && a_failure@ == b_failure@,
        _ => false,
    }
}

/// A global state's JSON text ends where it ends and determines the state: where two
/// texts start two equal texts, the states agree in kind and in every field, and what
/// follows is equal.
pub proof fn law_global_state_json_prefix_free(a: GlobalState, r1: Seq<char>, b: GlobalState, r2: Seq<char>)
    requires
        global_state_json(a) + r1 == global_state_json(b) + r2,
    ensures
        same_global_state(a, b),
        r1 == r2,
{
    match (a, b) {
        (GlobalState::Send { .. }, GlobalState::Send { .. }) => lemma_global_state_json_prefix_free_send(a, r1, b, r2),
        (GlobalState::Choice { .. }, GlobalState::Choice { .. }) => lemma_global_state_json_prefix_free_choice(a, r1, b, r2),
        (GlobalState::Cancel { .. }, GlobalState::Cancel { .. }) => lemma_global_state_json_prefix_free_cancel(a, r1, b, r2),
        (GlobalState::End { .. }, GlobalState::End { .. }) => lemma_global_state_json_prefix_free_end(a, r1, b, r2),
        (GlobalState::Fail { .. }, GlobalState::Fail { .. }) => lemma_global_state_json_prefix_free_fail(a, r1, b, r2),
        _ => {
            lemma_global_marks(a, r1);
            lemma_global_marks(b, r2);
        },
    }
}

#[verifier::spinoff_prover]
#[verifier::rlimit(100)]
proof fn lemma_global_state_json_prefix_free_send(a: GlobalState, r1: Seq<char>, b: GlobalState, r2: Seq<char>)
    requires
        a is Send,
        b is Send,
        global_state_json(a) + r1 == global_state_json(b) + r2,
    ensures
        same_global_state(a, b),
        r1 == r2,
{
    match (a, b) {
        (GlobalState::Send { id: a_id, from: a_from, to: a_to, message: a_message, next: a_next, deadline: a_deadline, on_failure: a_on_failure }, GlobalState::Send { id: b_id, from: b_from, to: b_to, message: b_message, next: b_next, deadline: b_deadline, on_failure: b_on_failure }) => {
            lemma_assoc(((((((((((((("{\"kind\":\"send\",\"id\":"@ + json_string(a_id@)) + ",\"from\":"@) + json_string(a_from@)) + ",\"to\":"@) + json_string(a_to@)) + ",\"message\":"@) + json_string(a_message@)) + ",\"next\":"@) + json_string(a_next@)) + ",\"deadline\":"@) + json_opt_string(opt_text(a_deadline))) + ",\"on_failure\":"@) + json_string_map(a_on_failure@)), "}"@, r1);
            lemma_assoc((((((((((((("{\"kind\":\"send\",\"id\":"@ + json_string(a_id@)) + ",\"from\":"@) + json_string(a_from@)) + ",\"to\":"@) + json_string(a_to@)) + ",\"message\":"@) + json_string(a_message@)) + ",\"next\":"@) + json_string(a_next@)) + ",\"deadline\":"@) + json_opt_string(opt_text(a_deadline))) + ",\"on_failure\":"@), json_string_map(a_on_failure@), ("}"@ + r1));
            lemma_assoc(((((((((((("{\"kind\":\"send\",\"id\":"@ + json_string(a_id@)) + ",\"from\":"@) + json_string(a_from@)) + ",\"to\":"@) + json_string(a_to@)) + ",\"message\":"@) + json_string(a_message@)) + ",\"next\":"@) + json_string(a_next@)) + ",\"deadline\":"@) + json_opt_string(opt_text(a_deadline))), ",\"on_failure\":"@, (json_string_map(a_on_failure@) + ("}"@ + r1)));
            lemma_assoc((((((((((("{\"kind\":\"send\",\"id\":"@ + json_string(a_id@)) + ",\"from\":"@) + json_string(a_from@)) + ",\"to\":"@) + json_string(a_to@)) + ",\"message\":"@) + json_string(a_message@)) + ",\"next\":"@) + json_string(a_next@)) + ",\"deadline\":"@), json_opt_string(opt_text(a_deadline)), (",\"on_failure\":"@ + (json_string_map(a_on_failure@) + ("}"@ + r1))));
            lemma_assoc(((((((((("{\"kind\":\"send\",\"id\":"@ + json_string(a_id@)) + ",\"from\":"@) + json_string(a_from@)) + ",\"to\":"@) + json_string(a_to@)) + ",\"message\":"@) + json_string(a_message@)) + ",\"next\":"@) + json_string(a_next@)), ",\"deadline\":"@, (json_opt_string(opt_text(a_deadline)) + (",\"on_failure\":"@ + (json_string_map(a_on_failure@) + ("}"@ + r1)))));
            lemma_assoc((((((((("{\"kind\":\"send\",\"id\":"@ + json_string(a_id@)) + ",\"from\":"@) + json_string(a_from@)) + ",\"to\":"@) + json_string(a_to@)) + ",\"message\":"@) + json_string(a_message@)) + ",\"next\":"@), json_string(a_next@), (",\"deadline\":"@ + (json_opt_string(opt_text(a_deadline)) + (",\"on_failure\":"@ + (json_string_map(a_on_failure@) + ("}"@ + r1))))));
            lemma_assoc(((((((("{\"kind\":\"send\",\"id\":"@ + json_string(a_id@)) + ",\"from\":"@) + json_string(a_from@)) + ",\"to\":"@) + json_string(a_to@)) + ",\"message\":"@) + json_string(a_message@)), ",\"next\":"@, (json_string(a_next@) + (",\"deadline\":"@ + (json_opt_string(opt_text(a_deadline)) + (",\"on_failure\":"@ + (json_string_map(a_on_failure@) + ("}"@ + r1)))))));
            lemma_assoc((((((("{\"kind\":\"send\",\"id\":"@ + json_string(a_id@)) + ",\"from\":"@) + json_string(a_from@)) + ",\"to\":"@) + json_string(a_to@)) + ",\"message\":"@), json_string(a_message@), (",\"next\":"@ + (json_string(a_next@) + (",\"deadline\":"@ + (json_opt_string(opt_text(a_deadline)) + (",\"on_failure\":"@ + (json_string_map(a_on_failure@) + ("}"@ + r1))))))));
            lemma_assoc(((((("{\"kind\":\"send\",\"id\":"@ + json_string(a_id@)) + ",\"from\":"@) + json_string(a_from@)) + ",\"to\":"@) + json_string(a_to@)), ",\"message\":"@, (json_string(a_message@) + (",\"next\":"@ + (json_string(a_next@) + (",\"deadline\":"@ + (json_opt_string(opt_text(a_deadline)) + (",\"on_failure\":"@ + (json_string_map(a_on_failure@) + ("}"@ + r1)))))))));
            lemma_assoc((((("{\"kind\":\"send\",\"id\":"@ + json_string(a_id@)) + ",\"from\":"@) + json_string(a_from@)) + ",\"to\":"@), json_string(a_to@), (",\"message\":"@ + (json_string(a_message@) + (",\"next\":"@ + (json_string(a_next@) + (",\"deadline\":"@ + (json_opt_string(opt_text(a_deadline)) + (",\"on_failure\":"@ + (json_string_map(a_on_failure@) + ("}"@ + r1))))))))));
            lemma_assoc(((("{\"kind\":\"send\",\"id\":"@ + json_string(a_id@)) + ",\"from\":"@) + json_string(a_from@)), ",\"to\":"@, (json_string(a_to@) + (",\"message\":"@ + (json_string(a_message@) + (",\"next\":"@ + (json_string(a_next@) + (",\"deadline\":"@ + (json_opt_string(opt_text(a_deadline)) + (",\"on_failure\":"@ + (json_string_map(a_on_failure@) + ("}"@ + r1)))))))))));
            lemma_assoc((("{\"kind\":\"send\",\"id\":"@ + json_string(a_id@)) + ",\"from\":"@), json_string(a_from@), (",\"to\":"@ + (json_string(a_to@) + (",\"message\":"@ + (json_string(a_message@) + (",\"next\":"@ + (json_string(a_next@) + (",\"deadline\":"@ + (json_opt_string(opt_text(a_deadline)) + (",\"on_failure\":"@ + (json_string_map(a_on_failure@) + ("}"@ + r1))))))))))));
            lemma_assoc(("{\"kind\":\"send\",\"id\":"@ + json_string(a_id@)), ",\"from\":"@, (json_string(a_from@) + (",\"to\":"@ + (json_string(a_to@) + (",\"message\":"@ + (json_string(a_message@) + (",\"next\":"@ + (json_string(a_next@) + (",\"deadline\":"@ + (json_opt_string(opt_text(a_deadline)) + (",\"on_failure\":"@ + (json_string_map(a_on_failure@) + ("}"@ + r1)))))))))))));
            lemma_assoc("{\"kind\":\"send\",\"id\":"@, json_string(a_id@), (",\"from\":"@ + (json_string(a_from@) + (",\"to\":"@ + (json_string(a_to@) + (",\"message\":"@ + (json_string(a_message@) + (",\"next\":"@ + (json_string(a_next@) + (",\"deadline\":"@ + (json_opt_string(opt_text(a_deadline)) + (",\"on_failure\":"@ + (json_string_map(a_on_failure@) + ("}"@ + r1))))))))))))));
            lemma_assoc(((((((((((((("{\"kind\":\"send\",\"id\":"@ + json_string(b_id@)) + ",\"from\":"@) + json_string(b_from@)) + ",\"to\":"@) + json_string(b_to@)) + ",\"message\":"@) + json_string(b_message@)) + ",\"next\":"@) + json_string(b_next@)) + ",\"deadline\":"@) + json_opt_string(opt_text(b_deadline))) + ",\"on_failure\":"@) + json_string_map(b_on_failure@)), "}"@, r2);
            lemma_assoc((((((((((((("{\"kind\":\"send\",\"id\":"@ + json_string(b_id@)) + ",\"from\":"@) + json_string(b_from@)) + ",\"to\":"@) + json_string(b_to@)) + ",\"message\":"@) + json_string(b_message@)) + ",\"next\":"@) + json_string(b_next@)) + ",\"deadline\":"@) + json_opt_string(opt_text(b_deadline))) + ",\"on_failure\":"@), json_string_map(b_on_failure@), ("}"@ + r2));
            lemma_assoc(((((((((((("{\"kind\":\"send\",\"id\":"@ + json_string(b_id@)) + ",\"from\":"@) + json_string(b_from@)) + ",\"to\":"@) + json_string(b_to@)) + ",\"message\":"@) + json_string(b_message@)) + ",\"next\":"@) + json_string(b_next@)) + ",\"deadline\":"@) + json_opt_string(opt_text(b_deadline))), ",\"on_failure\":"@, (json_string_map(b_on_failure@) + ("}"@ + r2)));
            lemma_assoc((((((((((("{\"kind\":\"send\",\"id\":"@ + json_string(b_id@)) + ",\"from\":"@) + json_string(b_from@)) + ",\"to\":"@) + json_string(b_to@)) + ",\"message\":"@) + json_string(b_message@)) + ",\"next\":"@) + json_string(b_next@)) + ",\"deadline\":"@), json_opt_string(opt_text(b_deadline)), (",\"on_failure\":"@ + (json_string_map(b_on_failure@) + ("}"@ + r2))));
            lemma_assoc(((((((((("{\"kind\":\"send\",\"id\":"@ + json_string(b_id@)) + ",\"from\":"@) + json_string(b_from@)) + ",\"to\":"@) + json_string(b_to@)) + ",\"message\":"@) + json_string(b_message@)) + ",\"next\":"@) + json_string(b_next@)), ",\"deadline\":"@, (json_opt_string(opt_text(b_deadline)) + (",\"on_failure\":"@ + (json_string_map(b_on_failure@) + ("}"@ + r2)))));
            lemma_assoc((((((((("{\"kind\":\"send\",\"id\":"@ + json_string(b_id@)) + ",\"from\":"@) + json_string(b_from@)) + ",\"to\":"@) + json_string(b_to@)) + ",\"message\":"@) + json_string(b_message@)) + ",\"next\":"@), json_string(b_next@), (",\"deadline\":"@ + (json_opt_string(opt_text(b_deadline)) + (",\"on_failure\":"@ + (json_string_map(b_on_failure@) + ("}"@ + r2))))));
            lemma_assoc(((((((("{\"kind\":\"send\",\"id\":"@ + json_string(b_id@)) + ",\"from\":"@) + json_string(b_from@)) + ",\"to\":"@) + json_string(b_to@)) + ",\"message\":"@) + json_string(b_message@)), ",\"next\":"@, (json_string(b_next@) + (",\"deadline\":"@ + (json_opt_string(opt_text(b_deadline)) + (",\"on_failure\":"@ + (json_string_map(b_on_failure@) + ("}"@ + r2)))))));
            lemma_assoc((((((("{\"kind\":\"send\",\"id\":"@ + json_string(b_id@)) + ",\"from\":"@) + json_string(b_from@)) + ",\"to\":"@) + json_string(b_to@)) + ",\"message\":"@), json_string(b_message@), (",\"next\":"@ + (json_string(b_next@) + (",\"deadline\":"@ + (json_opt_string(opt_text(b_deadline)) + (",\"on_failure\":"@ + (json_string_map(b_on_failure@) + ("}"@ + r2))))))));
            lemma_assoc(((((("{\"kind\":\"send\",\"id\":"@ + json_string(b_id@)) + ",\"from\":"@) + json_string(b_from@)) + ",\"to\":"@) + json_string(b_to@)), ",\"message\":"@, (json_string(b_message@) + (",\"next\":"@ + (json_string(b_next@) + (",\"deadline\":"@ + (json_opt_string(opt_text(b_deadline)) + (",\"on_failure\":"@ + (json_string_map(b_on_failure@) + ("}"@ + r2)))))))));
            lemma_assoc((((("{\"kind\":\"send\",\"id\":"@ + json_string(b_id@)) + ",\"from\":"@) + json_string(b_from@)) + ",\"to\":"@), json_string(b_to@), (",\"message\":"@ + (json_string(b_message@) + (",\"next\":"@ + (json_string(b_next@) + (",\"deadline\":"@ + (json_opt_string(opt_text(b_deadline)) + (",\"on_failure\":"@ + (json_string_map(b_on_failure@) + ("}"@ + r2))))))))));
            lemma_assoc(((("{\"kind\":\"send\",\"id\":"@ + json_string(b_id@)) + ",\"from\":"@) + json_string(b_from@)), ",\"to\":"@, (json_string(b_to@) + (",\"message\":"@ + (json_string(b_message@) + (",\"next\":"@ + (json_string(b_next@) + (",\"deadline\":"@ + (json_opt_string(opt_text(b_deadline)) + (",\"on_failure\":"@ + (json_string_map(b_on_failure@) + ("}"@ + r2)))))))))));
            lemma_assoc((("{\"kind\":\"send\",\"id\":"@ + json_string(b_id@)) + ",\"from\":"@), json_string(b_from@), (",\"to\":"@ + (json_string(b_to@) + (",\"message\":"@ + (json_string(b_message@) + (",\"next\":"@ + (json_string(b_next@) + (",\"deadline\":"@ + (json_opt_string(opt_text(b_deadline)) + (",\"on_failure\":"@ + (json_string_map(b_on_failure@) + ("}"@ + r2))))))))))));
            lemma_assoc(("{\"kind\":\"send\",\"id\":"@ + json_string(b_id@)), ",\"from\":"@, (json_string(b_from@) + (",\"to\":"@ + (json_string(b_to@) + (",\"message\":"@ + (json_string(b_message@) + (",\"next\":"@ + (json_string(b_next@) + (",\"deadline\":"@ + (json_opt_string(opt_text(b_deadline)) + (",\"on_failure\":"@ + (json_string_map(b_on_failure@) + ("}"@ + r2)))))))))))));
            lemma_assoc("{\"kind\":\"send\",\"id\":"@, json_string(b_id@), (",\"from\":"@ + (json_string(b_from@) + (",\"to\":"@ + (json_string(b_to@) + (",\"message\":"@ + (json_string(b_message@) + (",\"next\":"@ + (json_string(b_next@) + (",\"deadline\":"@ + (json_opt_string(opt_text(b_deadline)) + (",\"on_failure\":"@ + (json_string_map(b_on_failure@) + ("}"@ + r2))))))))))))));
            lemma_split("{\"kind\":\"send\",\"id\":"@, json_string(a_id@) + (",\"from\":"@ + (json_string(a_from@) + (",\"to\":"@ + (json_string(a_to@) + (",\"message\":"@ + (json_string(a_message@) + (",\"next\":"@ + (json_string(a_next@) + (",\"deadline\":"@ + (json_opt_string(opt_text(a_deadline)) + (",\"on_failure\":"@ + (json_string_map(a_on_failure@) + ("}"@ + r1))))))))))))), "{\"kind\":\"send\",\"id\":"@, json_string(b_id@) + (",\"from\":"@ + (json_string(b_from@) + (",\"to\":"@ + (json_string(b_to@) + (",\"message\":"@ + (json_string(b_message@) + (",\"next\":"@ + (json_string(b_next@) + (",\"deadline\":"@ + (json_opt_string(opt_text(b_deadline)) + (",\"on_failure\":"@ + (json_string_map(b_on_failure@) + ("}"@ + r2))))))))))))));
            law_json_string_prefix_free(a_id@, (",\"from\":"@ + (json_string(a_from@) + (",\"to\":"@ + (json_string(a_to@) + (",\"message\":"@ + (json_string(a_message@) + (",\"next\":"@ + (json_string(a_next@) + (",\"deadline\":"@ + (json_opt_string(opt_text(a_deadline)) + (",\"on_failure\":"@ + (json_string_map(a_on_failure@) + ("}"@ + r1))))))))))))), b_id@, (",\"from\":"@ + (json_string(b_from@) + (",\"to\":"@ + (json_string(b_to@) + (",\"message\":"@ + (json_string(b_message@) + (",\"next\":"@ + (json_string(b_next@) + (",\"deadline\":"@ + (json_opt_string(opt_text(b_deadline)) + (",\"on_failure\":"@ + (json_string_map(b_on_failure@) + ("}"@ + r2))))))))))))));
            lemma_split(",\"from\":"@, json_string(a_from@) + (",\"to\":"@ + (json_string(a_to@) + (",\"message\":"@ + (json_string(a_message@) + (",\"next\":"@ + (json_string(a_next@) + (",\"deadline\":"@ + (json_opt_string(opt_text(a_deadline)) + (",\"on_failure\":"@ + (json_string_map(a_on_failure@) + ("}"@ + r1))))))))))), ",\"from\":"@, json_string(b_from@) + (",\"to\":"@ + (json_string(b_to@) + (",\"message\":"@ + (json_string(b_message@) + (",\"next\":"@ + (json_string(b_next@) + (",\"deadline\":"@ + (json_opt_string(opt_text(b_deadline)) + (",\"on_failure\":"@ + (json_string_map(b_on_failure@) + ("}"@ + r2))))))))))));
            law_json_string_prefix_free(a_from@, (",\"to\":"@ + (json_string(a_to@) + (",\"message\":"@ + (json_string(a_message@) + (",\"next\":"@ + (json_string(a_next@) + (",\"deadline\":"@ + (json_opt_string(opt_text(a_deadline)) + (",\"on_failure\":"@ + (json_string_map(a_on_failure@) + ("}"@ + r1))))))))))), b_from@, (",\"to\":"@ + (json_string(b_to@) + (",\"message\":"@ + (json_string(b_message@) + (",\"next\":"@ + (json_string(b_next@) + (",\"deadline\":"@ + (json_opt_string(opt_text(b_deadline)) + (",\"on_failure\":"@ + (json_string_map(b_on_failure@) + ("}"@ + r2))))))))))));
            lemma_split(",\"to\":"@, json_string(a_to@) + (",\"message\":"@ + (json_string(a_message@) + (",\"next\":"@ + (json_string(a_next@) + (",\"deadline\":"@ + (json_opt_string(opt_text(a_deadline)) + (",\"on_failure\":"@ + (json_string_map(a_on_failure@) + ("}"@ + r1))))))))), ",\"to\":"@, json_string(b_to@) + (",\"message\":"@ + (json_string(b_message@) + (",\"next\":"@ + (json_string(b_next@) + (",\"deadline\":"@ + (json_opt_string(opt_text(b_deadline)) + (",\"on_failure\":"@ + (json_string_map(b_on_failure@) + ("}"@ + r2))))))))));
            law_json_string_prefix_free(a_to@, (",\"message\":"@ + (json_string(a_message@) + (",\"next\":"@ + (json_string(a_next@) + (",\"deadline\":"@ + (json_opt_string(opt_text(a_deadline)) + (",\"on_failure\":"@ + (json_string_map(a_on_failure@) + ("}"@ + r1))))))))), b_to@, (",\"message\":"@ + (json_string(b_message@) + (",\"next\":"@ + (json_string(b_next@) + (",\"deadline\":"@ + (json_opt_string(opt_text(b_deadline)) + (",\"on_failure\":"@ + (json_string_map(b_on_failure@) + ("}"@ + r2))))))))));
            lemma_split(",\"message\":"@, json_string(a_message@) + (",\"next\":"@ + (json_string(a_next@) + (",\"deadline\":"@ + (json_opt_string(opt_text(a_deadline)) + (",\"on_failure\":"@ + (json_string_map(a_on_failure@) + ("}"@ + r1))))))), ",\"message\":"@, json_string(b_message@) + (",\"next\":"@ + (json_string(b_next@) + (",\"deadline\":"@ + (json_opt_string(opt_text(b_deadline)) + (",\"on_failure\":"@ + (json_string_map(b_on_failure@) + ("}"@ + r2))))))));
            law_json_string_prefix_free(a_message@, (",\"next\":"@ + (json_string(a_next@) + (",\"deadline\":"@ + (json_opt_string(opt_text(a_deadline)) + (",\"on_failure\":"@ + (json_string_map(a_on_failure@) + ("}"@ + r1))))))), b_message@, (",\"next\":"@ + (json_string(b_next@) + (",\"deadline\":"@ + (json_opt_string(opt_text(b_deadline)) + (",\"on_failure\":"@ + (json_string_map(b_on_failure@) + ("}"@ + r2))))))));
            lemma_split(",\"next\":"@, json_string(a_next@) + (",\"deadline\":"@ + (json_opt_string(opt_text(a_deadline)) + (",\"on_failure\":"@ + (json_string_map(a_on_failure@) + ("}"@ + r1))))), ",\"next\":"@, json_string(b_next@) + (",\"deadline\":"@ + (json_opt_string(opt_text(b_deadline)) + (",\"on_failure\":"@ + (json_string_map(b_on_failure@) + ("}"@ + r2))))));
            law_json_string_prefix_free(a_next@, (",\"deadline\":"@ + (json_opt_string(opt_text(a_deadline)) + (",\"on_failure\":"@ + (json_string_map(a_on_failure@) + ("}"@ + r1))))), b_next@, (",\"deadline\":"@ + (json_opt_string(opt_text(b_deadline)) + (",\"on_failure\":"@ + (json_string_map(b_on_failure@) + ("}"@ + r2))))));
            lemma_split(",\"deadline\":"@, json_opt_string(opt_text(a_deadline)) + (",\"on_failure\":"@ + (json_string_map(a_on_failure@) + ("}"@ + r1))), ",\"deadline\":"@, json_opt_string(opt_text(b_deadline)) + (",\"on_failure\":"@ + (json_string_map(b_on_failure@) + ("}"@ + r2))));
            law_json_opt_string_prefix_free(opt_text(a_deadline), (",\"on_failure\":"@ + (json_string_map(a_on_failure@) + ("}"@ + r1))), opt_text(b_deadline), (",\"on_failure\":"@ + (json_string_map(b_on_failure@) + ("}"@ + r2))));
            lemma_split(",\"on_failure\":"@, json_string_map(a_on_failure@) + ("}"@ + r1), ",\"on_failure\":"@, json_string_map(b_on_failure@) + ("}"@ + r2));
            law_json_string_map_prefix_free(a_on_failure@, ("}"@ + r1), b_on_failure@, ("}"@ + r2));
            lemma_split("}"@, r1, "}"@, r2);
        },
        _ => {},
    }
}

#[verifier::spinoff_prover]
#[verifier::rlimit(100)]
proof fn lemma_global_state_json_prefix_free_choice(a: GlobalState, r1: Seq<char>, b: GlobalState, r2: Seq<char>)
    requires
        a is Choice,
        b is Choice,
        global_state_json(a) + r1 == global_state_json(b) + r2,
    ensures
        same_global_state(a, b),
        r1 == r2,
{
    match (a, b) {
        (GlobalState::Choice { id: a_id, chooser: a_chooser, branches: a_branches, on_failure: a_on_failure }, GlobalState::Choice { id: b_id, chooser: b_chooser, branches: b_branches, on_failure: b_on_failure }) => {
            lemma_assoc(((((((("{\"kind\":\"choice\",\"id\":"@ + json_string(a_id@)) + ",\"chooser\":"@) + json_string(a_chooser@)) + ",\"branches\":"@) + json_string_map(a_branches@)) + ",\"on_failure\":"@) + json_string_map(a_on_failure@)), "}"@, r1);
            lemma_assoc((((((("{\"kind\":\"choice\",\"id\":"@ + json_string(a_id@)) + ",\"chooser\":"@) + json_string(a_chooser@)) + ",\"branches\":"@) + json_string_map(a_branches@)) + ",\"on_failure\":"@), json_string_map(a_on_failure@), ("}"@ + r1));
            lemma_assoc(((((("{\"kind\":\"choice\",\"id\":"@ + json_string(a_id@)) + ",\"chooser\":"@) + json_string(a_chooser@)) + ",\"branches\":"@) + json_string_map(a_branches@)), ",\"on_failure\":"@, (json_string_map(a_on_failure@) + ("}"@ + r1)));
            lemma_assoc((((("{\"kind\":\"choice\",\"id\":"@ + json_string(a_id@)) + ",\"chooser\":"@) + json_string(a_chooser@)) + ",\"branches\":"@), json_string_map(a_branches@), (",\"on_failure\":"@ + (json_string_map(a_on_failure@) + ("}"@ + r1))));
            lemma_assoc(((("{\"kind\":\"choice\",\"id\":"@ + json_string(a_id@)) + ",\"chooser\":"@) + json_string(a_chooser@)), ",\"branches\":"@, (json_string_map(a_branches@) + (",\"on_failure\":"@ + (json_string_map(a_on_failure@) + ("}"@ + r1)))));
            lemma_assoc((("{\"kind\":\"choice\",\"id\":"@ + json_string(a_id@)) + ",\"chooser\":"@), json_string(a_chooser@), (",\"branches\":"@ + (json_string_map(a_branches@) + (",\"on_failure\":"@ + (json_string_map(a_on_failure@) + ("}"@ + r1))))));
            lemma_assoc(("{\"kind\":\"choice\",\"id\":"@ + json_string(a_id@)), ",\"chooser\":"@, (json_string(a_chooser@) + (",\"branches\":"@ + (json_string_map(a_branches@) + (",\"on_failure\":"@ + (json_string_map(a_on_failure@) + ("}"@ + r1)))))));
            lemma_assoc("{\"kind\":\"choice\",\"id\":"@, json_string(a_id@), (",\"chooser\":"@ + (json_string(a_chooser@) + (",\"branches\":"@ + (json_string_map(a_branches@) + (",\"on_failure\":"@ + (json_string_map(a_on_failure@) + ("}"@ + r1))))))));
            lemma_assoc(((((((("{\"kind\":\"choice\",\"id\":"@ + json_string(b_id@)) + ",\"chooser\":"@) + json_string(b_chooser@)) + ",\"branches\":"@) + json_string_map(b_branches@)) + ",\"on_failure\":"@) + json_string_map(b_on_failure@)), "}"@, r2);
            lemma_assoc((((((("{\"kind\":\"choice\",\"id\":"@ + json_string(b_id@)) + ",\"chooser\":"@) + json_string(b_chooser@)) + ",\"branches\":"@) + json_string_map(b_branches@)) + ",\"on_failure\":"@), json_string_map(b_on_failure@), ("}"@ + r2));
            lemma_assoc(((((("{\"kind\":\"choice\",\"id\":"@ + json_string(b_id@)) + ",\"chooser\":"@) + json_string(b_chooser@)) + ",\"branches\":"@) + json_string_map(b_branches@)), ",\"on_failure\":"@, (json_string_map(b_on_failure@) + ("}"@ + r2)));
            lemma_assoc((((("{\"kind\":\"choice\",\"id\":"@ + json_string(b_id@)) + ",\"chooser\":"@) + json_string(b_chooser@)) + ",\"branches\":"@), json_string_map(b_branches@), (",\"on_failure\":"@ + (json_string_map(b_on_failure@) + ("}"@ + r2))));
            lemma_assoc(((("{\"kind\":\"choice\",\"id\":"@ + json_string(b_id@)) + ",\"chooser\":"@) + json_string(b_chooser@)), ",\"branches\":"@, (json_string_map(b_branches@) + (",\"on_failure\":"@ + (json_string_map(b_on_failure@) + ("}"@ + r2)))));
            lemma_assoc((("{\"kind\":\"choice\",\"id\":"@ + json_string(b_id@)) + ",\"chooser\":"@), json_string(b_chooser@), (",\"branches\":"@ + (json_string_map(b_branches@) + (",\"on_failure\":"@ + (json_string_map(b_on_failure@) + ("}"@ + r2))))));
            lemma_assoc(("{\"kind\":\"choice\",\"id\":"@ + json_string(b_id@)), ",\"chooser\":"@, (json_string(b_chooser@) + (",\"branches\":"@ + (json_string_map(b_branches@) + (",\"on_failure\":"@ + (json_string_map(b_on_failure@) + ("}"@ + r2)))))));
            lemma_assoc("{\"kind\":\"choice\",\"id\":"@, json_string(b_id@), (",\"chooser\":"@ + (json_string(b_chooser@) + (",\"branches\":"@ + (json_string_map(b_branches@) + (",\"on_failure\":"@ + (json_string_map(b_on_failure@) + ("}"@ + r2))))))));
            lemma_split("{\"kind\":\"choice\",\"id\":"@, json_string(a_id@) + (",\"chooser\":"@ + (json_string(a_chooser@) + (",\"branches\":"@ + (json_string_map(a_branches@) + (",\"on_failure\":"@ + (json_string_map(a_on_failure@) + ("}"@ + r1))))))), "{\"kind\":\"choice\",\"id\":"@, json_string(b_id@) + (",\"chooser\":"@ + (json_string(b_chooser@) + (",\"branches\":"@ + (json_string_map(b_branches@) + (",\"on_failure\":"@ + (json_string_map(b_on_failure@) + ("}"@ + r2))))))));
            law_json_string_prefix_free(a_id@, (",\"chooser\":"@ + (json_string(a_chooser@) + (",\"branches\":"@ + (json_string_map(a_branches@) + (",\"on_failure\":"@ + (json_string_map(a_on_failure@) + ("}"@ + r1))))))), b_id@, (",\"chooser\":"@ + (json_string(b_chooser@) + (",\"branches\":"@ + (json_string_map(b_branches@) + (",\"on_failure\":"@ + (json_string_map(b_on_failure@) + ("}"@ + r2))))))));
            lemma_split(",\"chooser\":"@, json_string(a_chooser@) + (",\"branches\":"@ + (json_string_map(a_branches@) + (",\"on_failure\":"@ + (json_string_map(a_on_failure@) + ("}"@ + r1))))), ",\"chooser\":"@, json_string(b_chooser@) + (",\"branches\":"@ + (json_string_map(b_branches@) + (",\"on_failure\":"@ + (json_string_map(b_on_failure@) + ("}"@ + r2))))));
            law_json_string_prefix_free(a_chooser@, (",\"branches\":"@ + (json_string_map(a_branches@) + (",\"on_failure\":"@ + (json_string_map(a_on_failure@) + ("}"@ + r1))))), b_chooser@, (",\"branches\":"@ + (json_string_map(b_branches@) + (",\"on_failure\":"@ + (json_string_map(b_on_failure@) + ("}"@ + r2))))));
            lemma_split(",\"branches\":"@, json_string_map(a_branches@) + (",\"on_failure\":"@ + (json_string_map(a_on_failure@) + ("}"@ + r1))), ",\"branches\":"@, json_string_map(b_branches@) + (",\"on_failure\":"@ + (json_string_map(b_on_failure@) + ("}"@ + r2))));
            law_json_string_map_prefix_free(a_branches@, (",\"on_failure\":"@ + (json_string_map(a_on_failure@) + ("}"@ + r1))), b_branches@, (",\"on_failure\":"@ + (json_string_map(b_on_failure@) + ("}"@ + r2))));
            lemma_split(",\"on_failure\":"@, json_string_map(a_on_failure@) + ("}"@ + r1), ",\"on_failure\":"@, json_string_map(b_on_failure@) + ("}"@ + r2));
            law_json_string_map_prefix_free(a_on_failure@, ("}"@ + r1), b_on_failure@, ("}"@ + r2));
            lemma_split("}"@, r1, "}"@, r2);
        },
        _ => {},
    }
}

#[verifier::spinoff_prover]
#[verifier::rlimit(100)]
proof fn lemma_global_state_json_prefix_free_cancel(a: GlobalState, r1: Seq<char>, b: GlobalState, r2: Seq<char>)
    requires
        a is Cancel,
        b is Cancel,
        global_state_json(a) + r1 == global_state_json(b) + r2,
    ensures
        same_global_state(a, b),
        r1 == r2,
{
    match (a, b) {
        (GlobalState::Cancel { id: a_id, from: a_from, to: a_to, scope: a_scope, next: a_next, on_failure: a_on_failure }, GlobalState::Cancel { id: b_id, from: b_from, to: b_to, scope: b_scope, next: b_next, on_failure: b_on_failure }) => {
            lemma_assoc(((((((((((("{\"kind\":\"cancel\",\"id\":"@ + json_string(a_id@)) + ",\"from\":"@) + json_string(a_from@)) + ",\"to\":"@) + json_string(a_to@)) + ",\"scope\":"@) + json_string(a_scope@)) + ",\"next\":"@) + json_string(a_next@)) + ",\"on_failure\":"@) + json_string_map(a_on_failure@)), "}"@, r1);
            lemma_assoc((((((((((("{\"kind\":\"cancel\",\"id\":"@ + json_string(a_id@)) + ",\"from\":"@) + json_string(a_from@)) + ",\"to\":"@) + json_string(a_to@)) + ",\"scope\":"@) + json_string(a_scope@)) + ",\"next\":"@) + json_string(a_next@)) + ",\"on_failure\":"@), json_string_map(a_on_failure@), ("}"@ + r1));
            lemma_assoc(((((((((("{\"kind\":\"cancel\",\"id\":"@ + json_string(a_id@)) + ",\"from\":"@) + json_string(a_from@)) + ",\"to\":"@) + json_string(a_to@)) + ",\"scope\":"@) + json_string(a_scope@)) + ",\"next\":"@) + json_string(a_next@)), ",\"on_failure\":"@, (json_string_map(a_on_failure@) + ("}"@ + r1)));
            lemma_assoc((((((((("{\"kind\":\"cancel\",\"id\":"@ + json_string(a_id@)) + ",\"from\":"@) + json_string(a_from@)) + ",\"to\":"@) + json_string(a_to@)) + ",\"scope\":"@) + json_string(a_scope@)) + ",\"next\":"@), json_string(a_next@), (",\"on_failure\":"@ + (json_string_map(a_on_failure@) + ("}"@ + r1))));
            lemma_assoc(((((((("{\"kind\":\"cancel\",\"id\":"@ + json_string(a_id@)) + ",\"from\":"@) + json_string(a_from@)) + ",\"to\":"@) + json_string(a_to@)) + ",\"scope\":"@) + json_string(a_scope@)), ",\"next\":"@, (json_string(a_next@) + (",\"on_failure\":"@ + (json_string_map(a_on_failure@) + ("}"@ + r1)))));
            lemma_assoc((((((("{\"kind\":\"cancel\",\"id\":"@ + json_string(a_id@)) + ",\"from\":"@) + json_string(a_from@)) + ",\"to\":"@) + json_string(a_to@)) + ",\"scope\":"@), json_string(a_scope@), (",\"next\":"@ + (json_string(a_next@) + (",\"on_failure\":"@ + (json_string_map(a_on_failure@) + ("}"@ + r1))))));
            lemma_assoc(((((("{\"kind\":\"cancel\",\"id\":"@ + json_string(a_id@)) + ",\"from\":"@) + json_string(a_from@)) + ",\"to\":"@) + json_string(a_to@)), ",\"scope\":"@, (json_string(a_scope@) + (",\"next\":"@ + (json_string(a_next@) + (",\"on_failure\":"@ + (json_string_map(a_on_failure@) + ("}"@ + r1)))))));
            lemma_assoc((((("{\"kind\":\"cancel\",\"id\":"@ + json_string(a_id@)) + ",\"from\":"@) + json_string(a_from@)) + ",\"to\":"@), json_string(a_to@), (",\"scope\":"@ + (json_string(a_scope@) + (",\"next\":"@ + (json_string(a_next@) + (",\"on_failure\":"@ + (json_string_map(a_on_failure@) + ("}"@ + r1))))))));
            lemma_assoc(((("{\"kind\":\"cancel\",\"id\":"@ + json_string(a_id@)) + ",\"from\":"@) + json_string(a_from@)), ",\"to\":"@, (json_string(a_to@) + (",\"scope\":"@ + (json_string(a_scope@) + (",\"next\":"@ + (json_string(a_next@) + (",\"on_failure\":"@ + (json_string_map(a_on_failure@) + ("}"@ + r1)))))))));
            lemma_assoc((("{\"kind\":\"cancel\",\"id\":"@ + json_string(a_id@)) + ",\"from\":"@), json_string(a_from@), (",\"to\":"@ + (json_string(a_to@) + (",\"scope\":"@ + (json_string(a_scope@) + (",\"next\":"@ + (json_string(a_next@) + (",\"on_failure\":"@ + (json_string_map(a_on_failure@) + ("}"@ + r1))))))))));
            lemma_assoc(("{\"kind\":\"cancel\",\"id\":"@ + json_string(a_id@)), ",\"from\":"@, (json_string(a_from@) + (",\"to\":"@ + (json_string(a_to@) + (",\"scope\":"@ + (json_string(a_scope@) + (",\"next\":"@ + (json_string(a_next@) + (",\"on_failure\":"@ + (json_string_map(a_on_failure@) + ("}"@ + r1)))))))))));
            lemma_assoc("{\"kind\":\"cancel\",\"id\":"@, json_string(a_id@), (",\"from\":"@ + (json_string(a_from@) + (",\"to\":"@ + (json_string(a_to@) + (",\"scope\":"@ + (json_string(a_scope@) + (",\"next\":"@ + (json_string(a_next@) + (",\"on_failure\":"@ + (json_string_map(a_on_failure@) + ("}"@ + r1))))))))))));
            lemma_assoc(((((((((((("{\"kind\":\"cancel\",\"id\":"@ + json_string(b_id@)) + ",\"from\":"@) + json_string(b_from@)) + ",\"to\":"@) + json_string(b_to@)) + ",\"scope\":"@) + json_string(b_scope@)) + ",\"next\":"@) + json_string(b_next@)) + ",\"on_failure\":"@) + json_string_map(b_on_failure@)), "}"@, r2);
            lemma_assoc((((((((((("{\"kind\":\"cancel\",\"id\":"@ + json_string(b_id@)) + ",\"from\":"@) + json_string(b_from@)) + ",\"to\":"@) + json_string(b_to@)) + ",\"scope\":"@) + json_string(b_scope@)) + ",\"next\":"@) + json_string(b_next@)) + ",\"on_failure\":"@), json_string_map(b_on_failure@), ("}"@ + r2));
            lemma_assoc(((((((((("{\"kind\":\"cancel\",\"id\":"@ + json_string(b_id@)) + ",\"from\":"@) + json_string(b_from@)) + ",\"to\":"@) + json_string(b_to@)) + ",\"scope\":"@) + json_string(b_scope@)) + ",\"next\":"@) + json_string(b_next@)), ",\"on_failure\":"@, (json_string_map(b_on_failure@) + ("}"@ + r2)));
            lemma_assoc((((((((("{\"kind\":\"cancel\",\"id\":"@ + json_string(b_id@)) + ",\"from\":"@) + json_string(b_from@)) + ",\"to\":"@) + json_string(b_to@)) + ",\"scope\":"@) + json_string(b_scope@)) + ",\"next\":"@), json_string(b_next@), (",\"on_failure\":"@ + (json_string_map(b_on_failure@) + ("}"@ + r2))));
            lemma_assoc(((((((("{\"kind\":\"cancel\",\"id\":"@ + json_string(b_id@)) + ",\"from\":"@) + json_string(b_from@)) + ",\"to\":"@) + json_string(b_to@)) + ",\"scope\":"@) + json_string(b_scope@)), ",\"next\":"@, (json_string(b_next@) + (",\"on_failure\":"@ + (json_string_map(b_on_failure@) + ("}"@ + r2)))));
            lemma_assoc((((((("{\"kind\":\"cancel\",\"id\":"@ + json_string(b_id@)) + ",\"from\":"@) + json_string(b_from@)) + ",\"to\":"@) + json_string(b_to@)) + ",\"scope\":"@), json_string(b_scope@), (",\"next\":"@ + (json_string(b_next@) + (",\"on_failure\":"@ + (json_string_map(b_on_failure@) + ("}"@ + r2))))));
            lemma_assoc(((((("{\"kind\":\"cancel\",\"id\":"@ + json_string(b_id@)) + ",\"from\":"@) + json_string(b_from@)) + ",\"to\":"@) + json_string(b_to@)), ",\"scope\":"@, (json_string(b_scope@) + (",\"next\":"@ + (json_string(b_next@) + (",\"on_failure\":"@ + (json_string_map(b_on_failure@) + ("}"@ + r2)))))));
            lemma_assoc((((("{\"kind\":\"cancel\",\"id\":"@ + json_string(b_id@)) + ",\"from\":"@) + json_string(b_from@)) + ",\"to\":"@), json_string(b_to@), (",\"scope\":"@ + (json_string(b_scope@) + (",\"next\":"@ + (json_string(b_next@) + (",\"on_failure\":"@ + (json_string_map(b_on_failure@) + ("}"@ + r2))))))));
            lemma_assoc(((("{\"kind\":\"cancel\",\"id\":"@ + json_string(b_id@)) + ",\"from\":"@) + json_string(b_from@)), ",\"to\":"@, (json_string(b_to@) + (",\"scope\":"@ + (json_string(b_scope@) + (",\"next\":"@ + (json_string(b_next@) + (",\"on_failure\":"@ + (json_string_map(b_on_failure@) + ("}"@ + r2)))))))));
            lemma_assoc((("{\"kind\":\"cancel\",\"id\":"@ + json_string(b_id@)) + ",\"from\":"@), json_string(b_from@), (",\"to\":"@ + (json_string(b_to@) + (",\"scope\":"@ + (json_string(b_scope@) + (",\"next\":"@ + (json_string(b_next@) + (",\"on_failure\":"@ + (json_string_map(b_on_failure@) + ("}"@ + r2))))))))));
            lemma_assoc(("{\"kind\":\"cancel\",\"id\":"@ + json_string(b_id@)), ",\"from\":"@, (json_string(b_from@) + (",\"to\":"@ + (json_string(b_to@) + (",\"scope\":"@ + (json_string(b_scope@) + (",\"next\":"@ + (json_string(b_next@) + (",\"on_failure\":"@ + (json_string_map(b_on_failure@) + ("}"@ + r2)))))))))));
            lemma_assoc("{\"kind\":\"cancel\",\"id\":"@, json_string(b_id@), (",\"from\":"@ + (json_string(b_from@) + (",\"to\":"@ + (json_string(b_to@) + (",\"scope\":"@ + (json_string(b_scope@) + (",\"next\":"@ + (json_string(b_next@) + (",\"on_failure\":"@ + (json_string_map(b_on_failure@) + ("}"@ + r2))))))))))));
            lemma_split("{\"kind\":\"cancel\",\"id\":"@, json_string(a_id@) + (",\"from\":"@ + (json_string(a_from@) + (",\"to\":"@ + (json_string(a_to@) + (",\"scope\":"@ + (json_string(a_scope@) + (",\"next\":"@ + (json_string(a_next@) + (",\"on_failure\":"@ + (json_string_map(a_on_failure@) + ("}"@ + r1))))))))))), "{\"kind\":\"cancel\",\"id\":"@, json_string(b_id@) + (",\"from\":"@ + (json_string(b_from@) + (",\"to\":"@ + (json_string(b_to@) + (",\"scope\":"@ + (json_string(b_scope@) + (",\"next\":"@ + (json_string(b_next@) + (",\"on_failure\":"@ + (json_string_map(b_on_failure@) + ("}"@ + r2))))))))))));
            law_json_string_prefix_free(a_id@, (",\"from\":"@ + (json_string(a_from@) + (",\"to\":"@ + (json_string(a_to@) + (",\"scope\":"@ + (json_string(a_scope@) + (",\"next\":"@ + (json_string(a_next@) + (",\"on_failure\":"@ + (json_string_map(a_on_failure@) + ("}"@ + r1))))))))))), b_id@, (",\"from\":"@ + (json_string(b_from@) + (",\"to\":"@ + (json_string(b_to@) + (",\"scope\":"@ + (json_string(b_scope@) + (",\"next\":"@ + (json_string(b_next@) + (",\"on_failure\":"@ + (json_string_map(b_on_failure@) + ("}"@ + r2))))))))))));
            lemma_split(",\"from\":"@, json_string(a_from@) + (",\"to\":"@ + (json_string(a_to@) + (",\"scope\":"@ + (json_string(a_scope@) + (",\"next\":"@ + (json_string(a_next@) + (",\"on_failure\":"@ + (json_string_map(a_on_failure@) + ("}"@ + r1))))))))), ",\"from\":"@, json_string(b_from@) + (",\"to\":"@ + (json_string(b_to@) + (",\"scope\":"@ + (json_string(b_scope@) + (",\"next\":"@ + (json_string(b_next@) + (",\"on_failure\":"@ + (json_string_map(b_on_failure@) + ("}"@ + r2))))))))));
            law_json_string_prefix_free(a_from@, (",\"to\":"@ + (json_string(a_to@) + (",\"scope\":"@ + (json_string(a_scope@) + (",\"next\":"@ + (json_string(a_next@) + (",\"on_failure\":"@ + (json_string_map(a_on_failure@) + ("}"@ + r1))))))))), b_from@, (",\"to\":"@ + (json_string(b_to@) + (",\"scope\":"@ + (json_string(b_scope@) + (",\"next\":"@ + (json_string(b_next@) + (",\"on_failure\":"@ + (json_string_map(b_on_failure@) + ("}"@ + r2))))))))));
            lemma_split(",\"to\":"@, json_string(a_to@) + (",\"scope\":"@ + (json_string(a_scope@) + (",\"next\":"@ + (json_string(a_next@) + (",\"on_failure\":"@ + (json_string_map(a_on_failure@) + ("}"@ + r1))))))), ",\"to\":"@, json_string(b_to@) + (",\"scope\":"@ + (json_string(b_scope@) + (",\"next\":"@ + (json_string(b_next@) + (",\"on_failure\":"@ + (json_string_map(b_on_failure@) + ("}"@ + r2))))))));
            law_json_string_prefix_free(a_to@, (",\"scope\":"@ + (json_string(a_scope@) + (",\"next\":"@ + (json_string(a_next@) + (",\"on_failure\":"@ + (json_string_map(a_on_failure@) + ("}"@ + r1))))))), b_to@, (",\"scope\":"@ + (json_string(b_scope@) + (",\"next\":"@ + (json_string(b_next@) + (",\"on_failure\":"@ + (json_string_map(b_on_failure@) + ("}"@ + r2))))))));
            lemma_split(",\"scope\":"@, json_string(a_scope@) + (",\"next\":"@ + (json_string(a_next@) + (",\"on_failure\":"@ + (json_string_map(a_on_failure@) + ("}"@ + r1))))), ",\"scope\":"@, json_string(b_scope@) + (",\"next\":"@ + (json_string(b_next@) + (",\"on_failure\":"@ + (json_string_map(b_on_failure@) + ("}"@ + r2))))));
            law_json_string_prefix_free(a_scope@, (",\"next\":"@ + (json_string(a_next@) + (",\"on_failure\":"@ + (json_string_map(a_on_failure@) + ("}"@ + r1))))), b_scope@, (",\"next\":"@ + (json_string(b_next@) + (",\"on_failure\":"@ + (json_string_map(b_on_failure@) + ("}"@ + r2))))));
            lemma_split(",\"next\":"@, json_string(a_next@) + (",\"on_failure\":"@ + (json_string_map(a_on_failure@) + ("}"@ + r1))), ",\"next\":"@, json_string(b_next@) + (",\"on_failure\":"@ + (json_string_map(b_on_failure@) + ("}"@ + r2))));
            law_json_string_prefix_free(a_next@, (",\"on_failure\":"@ + (json_string_map(a_on_failure@) + ("}"@ + r1))), b_next@, (",\"on_failure\":"@ + (json_string_map(b_on_failure@) + ("}"@ + r2))));
            lemma_split(",\"on_failure\":"@, json_string_map(a_on_failure@) + ("}"@ + r1), ",\"on_failure\":"@, json_string_map(b_on_failure@) + ("}"@ + r2));
            law_json_string_map_prefix_free(a_on_failure@, ("}"@ + r1), b_on_failure@, ("}"@ + r2));
            lemma_split("}"@, r1, "}"@, r2);
        },
        _ => {},
    }
}

#[verifier::spinoff_prover]
#[verifier::rlimit(100)]
proof fn lemma_global_state_json_prefix_free_end(a: GlobalState, r1: Seq<char>, b: GlobalState, r2: Seq<char>)
    requires
        a is End,
        b is End,
        global_state_json(a) + r1 == global_state_json(b) + r2,
    ensures
        same_global_state(a, b),
        r1 == r2,
{
    match (a, b) {
        (GlobalState::End { id: a_id }, GlobalState::End { id: b_id }) => {
            lemma_assoc(("{\"kind\":\"end\",\"id\":"@ + json_string(a_id@)), "}"@, r1);
            lemma_assoc("{\"kind\":\"end\",\"id\":"@, json_string(a_id@), ("}"@ + r1));
            lemma_assoc(("{\"kind\":\"end\",\"id\":"@ + json_string(b_id@)), "}"@, r2);
            lemma_assoc("{\"kind\":\"end\",\"id\":"@, json_string(b_id@), ("}"@ + r2));
            lemma_split("{\"kind\":\"end\",\"id\":"@, json_string(a_id@) + ("}"@ + r1), "{\"kind\":\"end\",\"id\":"@, json_string(b_id@) + ("}"@ + r2));
            law_json_string_prefix_free(a_id@, ("}"@ + r1), b_id@, ("}"@ + r2));
            lemma_split("}"@, r1, "}"@, r2);
        },
        _ => {},
    }
}

#[verifier::spinoff_prover]
#[verifier::rlimit(100)]
proof fn lemma_global_state_json_prefix_free_fail(a: GlobalState, r1: Seq<char>, b: GlobalState, r2: Seq<char>)
    requires
        a is Fail,
        b is Fail,
        global_state_json(a) + r1 == global_state_json(b) + r2,
    ensures
        same_global_state(a, b),
        r1 == r2,
{
    match (a, b) {
        (GlobalState::Fail { id: a_id, failure: a_failure }, GlobalState::Fail { id: b_id, failure: b_failure }) => {
            lemma_assoc(((("{\"kind\":\"fail\",\"id\":"@ + json_string(a_id@)) + ",\"failure\":"@) + json_string(a_failure@)), "}"@, r1);
            lemma_assoc((("{\"kind\":\"fail\",\"id\":"@ + json_string(a_id@)) + ",\"failure\":"@), json_string(a_failure@), ("}"@ + r1));
            lemma_assoc(("{\"kind\":\"fail\",\"id\":"@ + json_string(a_id@)), ",\"failure\":"@, (json_string(a_failure@) + ("}"@ + r1)));
            lemma_assoc("{\"kind\":\"fail\",\"id\":"@, json_string(a_id@), (",\"failure\":"@ + (json_string(a_failure@) + ("}"@ + r1))));
            lemma_assoc(((("{\"kind\":\"fail\",\"id\":"@ + json_string(b_id@)) + ",\"failure\":"@) + json_string(b_failure@)), "}"@, r2);
            lemma_assoc((("{\"kind\":\"fail\",\"id\":"@ + json_string(b_id@)) + ",\"failure\":"@), json_string(b_failure@), ("}"@ + r2));
            lemma_assoc(("{\"kind\":\"fail\",\"id\":"@ + json_string(b_id@)), ",\"failure\":"@, (json_string(b_failure@) + ("}"@ + r2)));
            lemma_assoc("{\"kind\":\"fail\",\"id\":"@, json_string(b_id@), (",\"failure\":"@ + (json_string(b_failure@) + ("}"@ + r2))));
            lemma_split("{\"kind\":\"fail\",\"id\":"@, json_string(a_id@) + (",\"failure\":"@ + (json_string(a_failure@) + ("}"@ + r1))), "{\"kind\":\"fail\",\"id\":"@, json_string(b_id@) + (",\"failure\":"@ + (json_string(b_failure@) + ("}"@ + r2))));
            law_json_string_prefix_free(a_id@, (",\"failure\":"@ + (json_string(a_failure@) + ("}"@ + r1))), b_id@, (",\"failure\":"@ + (json_string(b_failure@) + ("}"@ + r2))));
            lemma_split(",\"failure\":"@, json_string(a_failure@) + ("}"@ + r1), ",\"failure\":"@, json_string(b_failure@) + ("}"@ + r2));
            law_json_string_prefix_free(a_failure@, ("}"@ + r1), b_failure@, ("}"@ + r2));
            lemma_split("}"@, r1, "}"@, r2);
        },
        _ => {},
    }
}

/// The characters at fixed positions of a endpoint state text, which tell its kinds apart.
proof fn lemma_endpoint_marks(s: EndpointState, r: Seq<char>)
    ensures
        match s {
            EndpointState::Send { .. } => (endpoint_state_json(s) + r)[0] == '{' && (endpoint_state_json(s) + r)[7] == 's' && (endpoint_state_json(s) + r)[9] == 'n' && (endpoint_state_json(s) + r)[11] == '"' && (endpoint_state_json(s) + r)[14] == 'i',
            EndpointState::Receive { .. } => (endpoint_state_json(s) + r)[0] == '{' && (endpoint_state_json(s) + r)[7] == 'r' && (endpoint_state_json(s) + r)[9] == 'c' && (endpoint_state_json(s) + r)[11] == 'i' && (endpoint_state_json(s) + r)[14] == '"',
            EndpointState::Select { .. } => (endpoint_state_json(s) + r)[0] == '{' && (endpoint_state_json(s) + r)[7] == 's' && (endpoint_state_json(s) + r)[9] == 'l' && (endpoint_state_json(s) + r)[11] == 'c' && (endpoint_state_json(s) + r)[14] == ',',
            EndpointState::Branch { .. } => (endpoint_state_json(s) + r)[0] == '{' && (endpoint_state_json(s) + r)[7] == 'b' && (endpoint_state_json(s) + r)[9] == 'a' && (endpoint_state_json(s) + r)[11] == 'c' && (endpoint_state_json(s) + r)[14] == ',',
            EndpointState::SendCancel { .. } => (endpoint_state_json(s) + r)[0] == '{' && (endpoint_state_json(s) + r)[7] == 's' && (endpoint_state_json(s) + r)[9] == 'n' && (endpoint_state_json(s) + r)[11] == '_' && (endpoint_state_json(s) + r)[14] == 'n',
            EndpointState::ReceiveCancel { .. } => (endpoint_state_json(s) + r)[0] == '{' && (endpoint_state_json(s) + r)[7] == 'r' && (endpoint_state_json(s) + r)[9] == 'c' && (endpoint_state_json(s) + r)[11] == 'i' && (endpoint_state_json(s) + r)[14] == '_',
            EndpointState::End { .. } => (endpoint_state_json(s) + r)[0] == '{' && (endpoint_state_json(s) + r)[7] == 'e' && (endpoint_state_json(s) + r)[9] == 'd' && (endpoint_state_json(s) + r)[11] == ',' && (endpoint_state_json(s) + r)[14] == 'd',
            EndpointState::Fail { .. } => (endpoint_state_json(s) + r)[0] == '{' && (endpoint_state_json(s) + r)[7] == 'f' && (endpoint_state_json(s) + r)[9] == 'i' && (endpoint_state_json(s) + r)[11] == '"' && (endpoint_state_json(s) + r)[14] == 'i',
        },
{
    match s {
        EndpointState::Send { .. } => {
            reveal_strlit("{\"op\":\"send\",\"id\":");
            assert((endpoint_state_json(s) + r)[0] == "{\"op\":\"send\",\"id\":"@[0]);
            assert((endpoint_state_json(s) + r)[7] == "{\"op\":\"send\",\"id\":"@[7]);
            assert((endpoint_state_json(s) + r)[9] == "{\"op\":\"send\",\"id\":"@[9]);
            assert((endpoint_state_json(s) + r)[11] == "{\"op\":\"send\",\"id\":"@[11]);
            assert((endpoint_state_json(s) + r)[14] == "{\"op\":\"send\",\"id\":"@[14]);
        },
        EndpointState::Receive { .. } => {
            reveal_strlit("{\"op\":\"receive\",\"id\":");
            assert((endpoint_state_json(s) + r)[0] == "{\"op\":\"receive\",\"id\":"@[0]);
            assert((endpoint_state_json(s) + r)[7] == "{\"op\":\"receive\",\"id\":"@[7]);
            assert((endpoint_state_json(s) + r)[9] == "{\"op\":\"receive\",\"id\":"@[9]);
            assert((endpoint_state_json(s) + r)[11] == "{\"op\":\"receive\",\"id\":"@[11]);
            assert((endpoint_state_json(s) + r)[14] == "{\"op\":\"receive\",\"id\":"@[14]);
        },
        EndpointState::Select { .. } => {
            reveal_strlit("{\"op\":\"select\",\"id\":");
            assert((endpoint_state_json(s) + r)[0] == "{\"op\":\"select\",\"id\":"@[0]);
            assert((endpoint_state_json(s) + r)[7] == "{\"op\":\"select\",\"id\":"@[7]);
            assert((endpoint_state_json(s) + r)[9] == "{\"op\":\"select\",\"id\":"@[9]);
            assert((endpoint_state_json(s) + r)[11] == "{\"op\":\"select\",\"id\":"@[11]);
            assert((endpoint_state_json(s) + r)[14] == "{\"op\":\"select\",\"id\":"@[14]);
        },
        EndpointState::Branch { .. } => {
            reveal_strlit("{\"op\":\"branch\",\"id\":");
            assert((endpoint_state_json(s) + r)[0] == "{\"op\":\"branch\",\"id\":"@[0]);
            assert((endpoint_state_json(s) + r)[7] == "{\"op\":\"branch\",\"id\":"@[7]);
            assert((endpoint_state_json(s) + r)[9] == "{\"op\":\"branch\",\"id\":"@[9]);
            assert((endpoint_state_json(s) + r)[11] == "{\"op\":\"branch\",\"id\":"@[11]);
            assert((endpoint_state_json(s) + r)[14] == "{\"op\":\"branch\",\"id\":"@[14]);
        },
        EndpointState::SendCancel { .. } => {
            reveal_strlit("{\"op\":\"send_cancel\",\"id\":");
            assert((endpoint_state_json(s) + r)[0] == "{\"op\":\"send_cancel\",\"id\":"@[0]);
            assert((endpoint_state_json(s) + r)[7] == "{\"op\":\"send_cancel\",\"id\":"@[7]);
            assert((endpoint_state_json(s) + r)[9] == "{\"op\":\"send_cancel\",\"id\":"@[9]);
            assert((endpoint_state_json(s) + r)[11] == "{\"op\":\"send_cancel\",\"id\":"@[11]);
            assert((endpoint_state_json(s) + r)[14] == "{\"op\":\"send_cancel\",\"id\":"@[14]);
        },
        EndpointState::ReceiveCancel { .. } => {
            reveal_strlit("{\"op\":\"receive_cancel\",\"id\":");
            assert((endpoint_state_json(s) + r)[0] == "{\"op\":\"receive_cancel\",\"id\":"@[0]);
            assert((endpoint_state_json(s) + r)[7] == "{\"op\":\"receive_cancel\",\"id\":"@[7]);
            assert((endpoint_state_json(s) + r)[9] == "{\"op\":\"receive_cancel\",\"id\":"@[9]);
            assert((endpoint_state_json(s) + r)[11] == "{\"op\":\"receive_cancel\",\"id\":"@[11]);
            assert((endpoint_state_json(s) + r)[14] == "{\"op\":\"receive_cancel\",\"id\":"@[14]);
        },
        EndpointState::End { .. } => {
            reveal_strlit("{\"op\":\"end\",\"id\":");
            assert((endpoint_state_json(s) + r)[0] == "{\"op\":\"end\",\"id\":"@[0]);
            assert((endpoint_state_json(s) + r)[7] == "{\"op\":\"end\",\"id\":"@[7]);
            assert((endpoint_state_json(s) + r)[9] == "{\"op\":\"end\",\"id\":"@[9]);
            assert((endpoint_state_json(s) + r)[11] == "{\"op\":\"end\",\"id\":"@[11]);
            assert((endpoint_state_json(s) + r)[14] == "{\"op\":\"end\",\"id\":"@[14]);
        },
        EndpointState::Fail { .. } => {
            reveal_strlit("{\"op\":\"fail\",\"id\":");
            assert((endpoint_state_json(s) + r)[0] == "{\"op\":\"fail\",\"id\":"@[0]);
            assert((endpoint_state_json(s) + r)[7] == "{\"op\":\"fail\",\"id\":"@[7]);
            assert((endpoint_state_json(s) + r)[9] == "{\"op\":\"fail\",\"id\":"@[9]);
            assert((endpoint_state_json(s) + r)[11] == "{\"op\":\"fail\",\"id\":"@[11]);
            assert((endpoint_state_json(s) + r)[14] == "{\"op\":\"fail\",\"id\":"@[14]);
        },
    }
}

/// `a` and `b` hold the same text in every field of the same kind.
pub open spec fn same_endpoint_state(a: EndpointState, b: EndpointState) -> bool {
    match (a, b) {
        (EndpointState::Send { id: a_id, to: a_to, message: a_message, next: a_next, deadline: a_deadline, on_failure: a_on_failure }, EndpointState::Send { id: b_id, to: b_to, message: b_message, next: b_next, deadline: b_deadline, on_failure: b_on_failure }) => a_id@ == b_id@ && a_to@ == b_to@ && a_message@ == b_message@ && a_next@ == b_next@ && opt_text(a_deadline) == opt_text(b_deadline) && a_on_failure@ == b_on_failure@,
        (EndpointState::Receive { id: a_id, from: a_from, message: a_message, next: a_next, deadline: a_deadline, on_failure: a_on_failure }, EndpointState::Receive { id: b_id, from: b_from, message: b_message, next: b_next, deadline: b_deadline, on_failure: b_on_failure }) => a_id@ == b_id@ && a_from@ == b_from@ && a_message@ == b_message@ && a_next@ == b_next@ && opt_text(a_deadline) == opt_text(b_deadline) && a_on_failure@ == b_on_failure@,
        (EndpointState::Select { id: a_id, branches: a_branches, on_failure: a_on_failure }, EndpointState::Select { id: b_id, branches: b_branches, on_failure: b_on_failure }) => a_id@ == b_id@ && a_branches@ == b_branches@ && a_on_failure@ == b_on_failure@,
        (EndpointState::Branch { id: a_id, from: a_from, branches: a_branches, on_failure: a_on_failure }, EndpointState::Branch { id: b_id, from: b_from, branches: b_branches, on_failure: b_on_failure }) => a_id@ == b_id@ && a_from@ == b_from@ && a_branches@ == b_branches@ && a_on_failure@ == b_on_failure@,
        (EndpointState::SendCancel { id: a_id, to: a_to, scope: a_scope, next: a_next, on_failure: a_on_failure }, EndpointState::SendCancel { id: b_id, to: b_to, scope: b_scope, next: b_next, on_failure: b_on_failure }) => a_id@ == b_id@ && a_to@ == b_to@ && a_scope@ == b_scope@ && a_next@ == b_next@ && a_on_failure@ == b_on_failure@,
        (EndpointState::ReceiveCancel { id: a_id, from: a_from, scope: a_scope, next: a_next, on_failure: a_on_failure }, EndpointState::ReceiveCancel { id: b_id, from: b_from, scope: b_scope, next: b_next, on_failure: b_on_failure }) => a_id@ == b_id@ && a_from@ == b_from@ && a_scope@ == b_scope@ && a_next@ == b_next@ && a_on_failure@ == b_on_failure@,
        (EndpointState::End { id: a_id }, EndpointState::End { id: b_id }) => a_id@ == b_id@,
        (EndpointState::Fail { id: a_id, failure: a_failure }, EndpointState::Fail { id: b_id, failure: b_failure }) => a_id@ == b_id@ && a_failure@ == b_failure@,
        _ => false,
    }
}

/// An endpoint state's JSON text ends where it ends and determines the state: where two
/// texts start two equal texts, the states agree in kind and in every field, and what
/// follows is equal.
pub proof fn law_endpoint_state_json_prefix_free(a: EndpointState, r1: Seq<char>, b: EndpointState, r2: Seq<char>)
    requires
        endpoint_state_json(a) + r1 == endpoint_state_json(b) + r2,
    ensures
        same_endpoint_state(a, b),
        r1 == r2,
{
    match (a, b) {
        (EndpointState::Send { .. }, EndpointState::Send { .. }) => lemma_endpoint_state_json_prefix_free_send(a, r1, b, r2),
        (EndpointState::Receive { .. }, EndpointState::Receive { .. }) => lemma_endpoint_state_json_prefix_free_receive(a, r1, b, r2),
        (EndpointState::Select { .. }, EndpointState::Select { .. }) => lemma_endpoint_state_json_prefix_free_select(a, r1, b, r2),
        (EndpointState::Branch { .. }, EndpointState::Branch { .. }) => lemma_endpoint_state_json_prefix_free_branch(a, r1, b, r2),
        (EndpointState::SendCancel { .. }, EndpointState::SendCancel { .. }) => lemma_endpoint_state_json_prefix_free_sendcancel(a, r1, b, r2),
        (EndpointState::ReceiveCancel { .. }, EndpointState::ReceiveCancel { .. }) => lemma_endpoint_state_json_prefix_free_receivecancel(a, r1, b, r2),
        (EndpointState::End { .. }, EndpointState::End { .. }) => lemma_endpoint_state_json_prefix_free_end(a, r1, b, r2),
        (EndpointState::Fail { .. }, EndpointState::Fail { .. }) => lemma_endpoint_state_json_prefix_free_fail(a, r1, b, r2),
        _ => {
            lemma_endpoint_marks(a, r1);
            lemma_endpoint_marks(b, r2);
        },
    }
}

#[verifier::spinoff_prover]
#[verifier::rlimit(100)]
proof fn lemma_endpoint_state_json_prefix_free_send(a: EndpointState, r1: Seq<char>, b: EndpointState, r2: Seq<char>)
    requires
        a is Send,
        b is Send,
        endpoint_state_json(a) + r1 == endpoint_state_json(b) + r2,
    ensures
        same_endpoint_state(a, b),
        r1 == r2,
{
    match (a, b) {
        (EndpointState::Send { id: a_id, to: a_to, message: a_message, next: a_next, deadline: a_deadline, on_failure: a_on_failure }, EndpointState::Send { id: b_id, to: b_to, message: b_message, next: b_next, deadline: b_deadline, on_failure: b_on_failure }) => {
            lemma_assoc(((((((((((("{\"op\":\"send\",\"id\":"@ + json_string(a_id@)) + ",\"to\":"@) + json_string(a_to@)) + ",\"message\":"@) + json_string(a_message@)) + ",\"next\":"@) + json_string(a_next@)) + ",\"deadline\":"@) + json_opt_string(opt_text(a_deadline))) + ",\"on_failure\":"@) + json_string_map(a_on_failure@)), "}"@, r1);
            lemma_assoc((((((((((("{\"op\":\"send\",\"id\":"@ + json_string(a_id@)) + ",\"to\":"@) + json_string(a_to@)) + ",\"message\":"@) + json_string(a_message@)) + ",\"next\":"@) + json_string(a_next@)) + ",\"deadline\":"@) + json_opt_string(opt_text(a_deadline))) + ",\"on_failure\":"@), json_string_map(a_on_failure@), ("}"@ + r1));
            lemma_assoc(((((((((("{\"op\":\"send\",\"id\":"@ + json_string(a_id@)) + ",\"to\":"@) + json_string(a_to@)) + ",\"message\":"@) + json_string(a_message@)) + ",\"next\":"@) + json_string(a_next@)) + ",\"deadline\":"@) + json_opt_string(opt_text(a_deadline))), ",\"on_failure\":"@, (json_string_map(a_on_failure@) + ("}"@ + r1)));
            lemma_assoc((((((((("{\"op\":\"send\",\"id\":"@ + json_string(a_id@)) + ",\"to\":"@) + json_string(a_to@)) + ",\"message\":"@) + json_string(a_message@)) + ",\"next\":"@) + json_string(a_next@)) + ",\"deadline\":"@), json_opt_string(opt_text(a_deadline)), (",\"on_failure\":"@ + (json_string_map(a_on_failure@) + ("}"@ + r1))));
            lemma_assoc(((((((("{\"op\":\"send\",\"id\":"@ + json_string(a_id@)) + ",\"to\":"@) + json_string(a_to@)) + ",\"message\":"@) + json_string(a_message@)) + ",\"next\":"@) + json_string(a_next@)), ",\"deadline\":"@, (json_opt_string(opt_text(a_deadline)) + (",\"on_failure\":"@ + (json_string_map(a_on_failure@) + ("}"@ + r1)))));
            lemma_assoc((((((("{\"op\":\"send\",\"id\":"@ + json_string(a_id@)) + ",\"to\":"@) + json_string(a_to@)) + ",\"message\":"@) + json_string(a_message@)) + ",\"next\":"@), json_string(a_next@), (",\"deadline\":"@ + (json_opt_string(opt_text(a_deadline)) + (",\"on_failure\":"@ + (json_string_map(a_on_failure@) + ("}"@ + r1))))));
            lemma_assoc(((((("{\"op\":\"send\",\"id\":"@ + json_string(a_id@)) + ",\"to\":"@) + json_string(a_to@)) + ",\"message\":"@) + json_string(a_message@)), ",\"next\":"@, (json_string(a_next@) + (",\"deadline\":"@ + (json_opt_string(opt_text(a_deadline)) + (",\"on_failure\":"@ + (json_string_map(a_on_failure@) + ("}"@ + r1)))))));
            lemma_assoc((((("{\"op\":\"send\",\"id\":"@ + json_string(a_id@)) + ",\"to\":"@) + json_string(a_to@)) + ",\"message\":"@), json_string(a_message@), (",\"next\":"@ + (json_string(a_next@) + (",\"deadline\":"@ + (json_opt_string(opt_text(a_deadline)) + (",\"on_failure\":"@ + (json_string_map(a_on_failure@) + ("}"@ + r1))))))));
            lemma_assoc(((("{\"op\":\"send\",\"id\":"@ + json_string(a_id@)) + ",\"to\":"@) + json_string(a_to@)), ",\"message\":"@, (json_string(a_message@) + (",\"next\":"@ + (json_string(a_next@) + (",\"deadline\":"@ + (json_opt_string(opt_text(a_deadline)) + (",\"on_failure\":"@ + (json_string_map(a_on_failure@) + ("}"@ + r1)))))))));
            lemma_assoc((("{\"op\":\"send\",\"id\":"@ + json_string(a_id@)) + ",\"to\":"@), json_string(a_to@), (",\"message\":"@ + (json_string(a_message@) + (",\"next\":"@ + (json_string(a_next@) + (",\"deadline\":"@ + (json_opt_string(opt_text(a_deadline)) + (",\"on_failure\":"@ + (json_string_map(a_on_failure@) + ("}"@ + r1))))))))));
            lemma_assoc(("{\"op\":\"send\",\"id\":"@ + json_string(a_id@)), ",\"to\":"@, (json_string(a_to@) + (",\"message\":"@ + (json_string(a_message@) + (",\"next\":"@ + (json_string(a_next@) + (",\"deadline\":"@ + (json_opt_string(opt_text(a_deadline)) + (",\"on_failure\":"@ + (json_string_map(a_on_failure@) + ("}"@ + r1)))))))))));
            lemma_assoc("{\"op\":\"send\",\"id\":"@, json_string(a_id@), (",\"to\":"@ + (json_string(a_to@) + (",\"message\":"@ + (json_string(a_message@) + (",\"next\":"@ + (json_string(a_next@) + (",\"deadline\":"@ + (json_opt_string(opt_text(a_deadline)) + (",\"on_failure\":"@ + (json_string_map(a_on_failure@) + ("}"@ + r1))))))))))));
            lemma_assoc(((((((((((("{\"op\":\"send\",\"id\":"@ + json_string(b_id@)) + ",\"to\":"@) + json_string(b_to@)) + ",\"message\":"@) + json_string(b_message@)) + ",\"next\":"@) + json_string(b_next@)) + ",\"deadline\":"@) + json_opt_string(opt_text(b_deadline))) + ",\"on_failure\":"@) + json_string_map(b_on_failure@)), "}"@, r2);
            lemma_assoc((((((((((("{\"op\":\"send\",\"id\":"@ + json_string(b_id@)) + ",\"to\":"@) + json_string(b_to@)) + ",\"message\":"@) + json_string(b_message@)) + ",\"next\":"@) + json_string(b_next@)) + ",\"deadline\":"@) + json_opt_string(opt_text(b_deadline))) + ",\"on_failure\":"@), json_string_map(b_on_failure@), ("}"@ + r2));
            lemma_assoc(((((((((("{\"op\":\"send\",\"id\":"@ + json_string(b_id@)) + ",\"to\":"@) + json_string(b_to@)) + ",\"message\":"@) + json_string(b_message@)) + ",\"next\":"@) + json_string(b_next@)) + ",\"deadline\":"@) + json_opt_string(opt_text(b_deadline))), ",\"on_failure\":"@, (json_string_map(b_on_failure@) + ("}"@ + r2)));
            lemma_assoc((((((((("{\"op\":\"send\",\"id\":"@ + json_string(b_id@)) + ",\"to\":"@) + json_string(b_to@)) + ",\"message\":"@) + json_string(b_message@)) + ",\"next\":"@) + json_string(b_next@)) + ",\"deadline\":"@), json_opt_string(opt_text(b_deadline)), (",\"on_failure\":"@ + (json_string_map(b_on_failure@) + ("}"@ + r2))));
            lemma_assoc(((((((("{\"op\":\"send\",\"id\":"@ + json_string(b_id@)) + ",\"to\":"@) + json_string(b_to@)) + ",\"message\":"@) + json_string(b_message@)) + ",\"next\":"@) + json_string(b_next@)), ",\"deadline\":"@, (json_opt_string(opt_text(b_deadline)) + (",\"on_failure\":"@ + (json_string_map(b_on_failure@) + ("}"@ + r2)))));
            lemma_assoc((((((("{\"op\":\"send\",\"id\":"@ + json_string(b_id@)) + ",\"to\":"@) + json_string(b_to@)) + ",\"message\":"@) + json_string(b_message@)) + ",\"next\":"@), json_string(b_next@), (",\"deadline\":"@ + (json_opt_string(opt_text(b_deadline)) + (",\"on_failure\":"@ + (json_string_map(b_on_failure@) + ("}"@ + r2))))));
            lemma_assoc(((((("{\"op\":\"send\",\"id\":"@ + json_string(b_id@)) + ",\"to\":"@) + json_string(b_to@)) + ",\"message\":"@) + json_string(b_message@)), ",\"next\":"@, (json_string(b_next@) + (",\"deadline\":"@ + (json_opt_string(opt_text(b_deadline)) + (",\"on_failure\":"@ + (json_string_map(b_on_failure@) + ("}"@ + r2)))))));
            lemma_assoc((((("{\"op\":\"send\",\"id\":"@ + json_string(b_id@)) + ",\"to\":"@) + json_string(b_to@)) + ",\"message\":"@), json_string(b_message@), (",\"next\":"@ + (json_string(b_next@) + (",\"deadline\":"@ + (json_opt_string(opt_text(b_deadline)) + (",\"on_failure\":"@ + (json_string_map(b_on_failure@) + ("}"@ + r2))))))));
            lemma_assoc(((("{\"op\":\"send\",\"id\":"@ + json_string(b_id@)) + ",\"to\":"@) + json_string(b_to@)), ",\"message\":"@, (json_string(b_message@) + (",\"next\":"@ + (json_string(b_next@) + (",\"deadline\":"@ + (json_opt_string(opt_text(b_deadline)) + (",\"on_failure\":"@ + (json_string_map(b_on_failure@) + ("}"@ + r2)))))))));
            lemma_assoc((("{\"op\":\"send\",\"id\":"@ + json_string(b_id@)) + ",\"to\":"@), json_string(b_to@), (",\"message\":"@ + (json_string(b_message@) + (",\"next\":"@ + (json_string(b_next@) + (",\"deadline\":"@ + (json_opt_string(opt_text(b_deadline)) + (",\"on_failure\":"@ + (json_string_map(b_on_failure@) + ("}"@ + r2))))))))));
            lemma_assoc(("{\"op\":\"send\",\"id\":"@ + json_string(b_id@)), ",\"to\":"@, (json_string(b_to@) + (",\"message\":"@ + (json_string(b_message@) + (",\"next\":"@ + (json_string(b_next@) + (",\"deadline\":"@ + (json_opt_string(opt_text(b_deadline)) + (",\"on_failure\":"@ + (json_string_map(b_on_failure@) + ("}"@ + r2)))))))))));
            lemma_assoc("{\"op\":\"send\",\"id\":"@, json_string(b_id@), (",\"to\":"@ + (json_string(b_to@) + (",\"message\":"@ + (json_string(b_message@) + (",\"next\":"@ + (json_string(b_next@) + (",\"deadline\":"@ + (json_opt_string(opt_text(b_deadline)) + (",\"on_failure\":"@ + (json_string_map(b_on_failure@) + ("}"@ + r2))))))))))));
            lemma_split("{\"op\":\"send\",\"id\":"@, json_string(a_id@) + (",\"to\":"@ + (json_string(a_to@) + (",\"message\":"@ + (json_string(a_message@) + (",\"next\":"@ + (json_string(a_next@) + (",\"deadline\":"@ + (json_opt_string(opt_text(a_deadline)) + (",\"on_failure\":"@ + (json_string_map(a_on_failure@) + ("}"@ + r1))))))))))), "{\"op\":\"send\",\"id\":"@, json_string(b_id@) + (",\"to\":"@ + (json_string(b_to@) + (",\"message\":"@ + (json_string(b_message@) + (",\"next\":"@ + (json_string(b_next@) + (",\"deadline\":"@ + (json_opt_string(opt_text(b_deadline)) + (",\"on_failure\":"@ + (json_string_map(b_on_failure@) + ("}"@ + r2))))))))))));
            law_json_string_prefix_free(a_id@, (",\"to\":"@ + (json_string(a_to@) + (",\"message\":"@ + (json_string(a_message@) + (",\"next\":"@ + (json_string(a_next@) + (",\"deadline\":"@ + (json_opt_string(opt_text(a_deadline)) + (",\"on_failure\":"@ + (json_string_map(a_on_failure@) + ("}"@ + r1))))))))))), b_id@, (",\"to\":"@ + (json_string(b_to@) + (",\"message\":"@ + (json_string(b_message@) + (",\"next\":"@ + (json_string(b_next@) + (",\"deadline\":"@ + (json_opt_string(opt_text(b_deadline)) + (",\"on_failure\":"@ + (json_string_map(b_on_failure@) + ("}"@ + r2))))))))))));
            lemma_split(",\"to\":"@, json_string(a_to@) + (",\"message\":"@ + (json_string(a_message@) + (",\"next\":"@ + (json_string(a_next@) + (",\"deadline\":"@ + (json_opt_string(opt_text(a_deadline)) + (",\"on_failure\":"@ + (json_string_map(a_on_failure@) + ("}"@ + r1))))))))), ",\"to\":"@, json_string(b_to@) + (",\"message\":"@ + (json_string(b_message@) + (",\"next\":"@ + (json_string(b_next@) + (",\"deadline\":"@ + (json_opt_string(opt_text(b_deadline)) + (",\"on_failure\":"@ + (json_string_map(b_on_failure@) + ("}"@ + r2))))))))));
            law_json_string_prefix_free(a_to@, (",\"message\":"@ + (json_string(a_message@) + (",\"next\":"@ + (json_string(a_next@) + (",\"deadline\":"@ + (json_opt_string(opt_text(a_deadline)) + (",\"on_failure\":"@ + (json_string_map(a_on_failure@) + ("}"@ + r1))))))))), b_to@, (",\"message\":"@ + (json_string(b_message@) + (",\"next\":"@ + (json_string(b_next@) + (",\"deadline\":"@ + (json_opt_string(opt_text(b_deadline)) + (",\"on_failure\":"@ + (json_string_map(b_on_failure@) + ("}"@ + r2))))))))));
            lemma_split(",\"message\":"@, json_string(a_message@) + (",\"next\":"@ + (json_string(a_next@) + (",\"deadline\":"@ + (json_opt_string(opt_text(a_deadline)) + (",\"on_failure\":"@ + (json_string_map(a_on_failure@) + ("}"@ + r1))))))), ",\"message\":"@, json_string(b_message@) + (",\"next\":"@ + (json_string(b_next@) + (",\"deadline\":"@ + (json_opt_string(opt_text(b_deadline)) + (",\"on_failure\":"@ + (json_string_map(b_on_failure@) + ("}"@ + r2))))))));
            law_json_string_prefix_free(a_message@, (",\"next\":"@ + (json_string(a_next@) + (",\"deadline\":"@ + (json_opt_string(opt_text(a_deadline)) + (",\"on_failure\":"@ + (json_string_map(a_on_failure@) + ("}"@ + r1))))))), b_message@, (",\"next\":"@ + (json_string(b_next@) + (",\"deadline\":"@ + (json_opt_string(opt_text(b_deadline)) + (",\"on_failure\":"@ + (json_string_map(b_on_failure@) + ("}"@ + r2))))))));
            lemma_split(",\"next\":"@, json_string(a_next@) + (",\"deadline\":"@ + (json_opt_string(opt_text(a_deadline)) + (",\"on_failure\":"@ + (json_string_map(a_on_failure@) + ("}"@ + r1))))), ",\"next\":"@, json_string(b_next@) + (",\"deadline\":"@ + (json_opt_string(opt_text(b_deadline)) + (",\"on_failure\":"@ + (json_string_map(b_on_failure@) + ("}"@ + r2))))));
            law_json_string_prefix_free(a_next@, (",\"deadline\":"@ + (json_opt_string(opt_text(a_deadline)) + (",\"on_failure\":"@ + (json_string_map(a_on_failure@) + ("}"@ + r1))))), b_next@, (",\"deadline\":"@ + (json_opt_string(opt_text(b_deadline)) + (",\"on_failure\":"@ + (json_string_map(b_on_failure@) + ("}"@ + r2))))));
            lemma_split(",\"deadline\":"@, json_opt_string(opt_text(a_deadline)) + (",\"on_failure\":"@ + (json_string_map(a_on_failure@) + ("}"@ + r1))), ",\"deadline\":"@, json_opt_string(opt_text(b_deadline)) + (",\"on_failure\":"@ + (json_string_map(b_on_failure@) + ("}"@ + r2))));
            law_json_opt_string_prefix_free(opt_text(a_deadline), (",\"on_failure\":"@ + (json_string_map(a_on_failure@) + ("}"@ + r1))), opt_text(b_deadline), (",\"on_failure\":"@ + (json_string_map(b_on_failure@) + ("}"@ + r2))));
            lemma_split(",\"on_failure\":"@, json_string_map(a_on_failure@) + ("}"@ + r1), ",\"on_failure\":"@, json_string_map(b_on_failure@) + ("}"@ + r2));
            law_json_string_map_prefix_free(a_on_failure@, ("}"@ + r1), b_on_failure@, ("}"@ + r2));
            lemma_split("}"@, r1, "}"@, r2);
        },
        _ => {},
    }
}

#[verifier::spinoff_prover]
#[verifier::rlimit(100)]
proof fn lemma_endpoint_state_json_prefix_free_receive(a: EndpointState, r1: Seq<char>, b: EndpointState, r2: Seq<char>)
    requires
        a is Receive,
        b is Receive,
        endpoint_state_json(a) + r1 == endpoint_state_json(b) + r2,
    ensures
        same_endpoint_state(a, b),
        r1 == r2,
{
    match (a, b) {
        (EndpointState::Receive { id: a_id, from: a_from, message: a_message, next: a_next, deadline: a_deadline, on_failure: a_on_failure }, EndpointState::Receive { id: b_id, from: b_from, message: b_message, next: b_next, deadline: b_deadline, on_failure: b_on_failure }) => {
            lemma_assoc(((((((((((("{\"op\":\"receive\",\"id\":"@ + json_string(a_id@)) + ",\"from\":"@) + json_string(a_from@)) + ",\"message\":"@) + json_string(a_message@)) + ",\"next\":"@) + json_string(a_next@)) + ",\"deadline\":"@) + json_opt_string(opt_text(a_deadline))) + ",\"on_failure\":"@) + json_string_map(a_on_failure@)), "}"@, r1);
            lemma_assoc((((((((((("{\"op\":\"receive\",\"id\":"@ + json_string(a_id@)) + ",\"from\":"@) + json_string(a_from@)) + ",\"message\":"@) + json_string(a_message@)) + ",\"next\":"@) + json_string(a_next@)) + ",\"deadline\":"@) + json_opt_string(opt_text(a_deadline))) + ",\"on_failure\":"@), json_string_map(a_on_failure@), ("}"@ + r1));
            lemma_assoc(((((((((("{\"op\":\"receive\",\"id\":"@ + json_string(a_id@)) + ",\"from\":"@) + json_string(a_from@)) + ",\"message\":"@) + json_string(a_message@)) + ",\"next\":"@) + json_string(a_next@)) + ",\"deadline\":"@) + json_opt_string(opt_text(a_deadline))), ",\"on_failure\":"@, (json_string_map(a_on_failure@) + ("}"@ + r1)));
            lemma_assoc((((((((("{\"op\":\"receive\",\"id\":"@ + json_string(a_id@)) + ",\"from\":"@) + json_string(a_from@)) + ",\"message\":"@) + json_string(a_message@)) + ",\"next\":"@) + json_string(a_next@)) + ",\"deadline\":"@), json_opt_string(opt_text(a_deadline)), (",\"on_failure\":"@ + (json_string_map(a_on_failure@) + ("}"@ + r1))));
            lemma_assoc(((((((("{\"op\":\"receive\",\"id\":"@ + json_string(a_id@)) + ",\"from\":"@) + json_string(a_from@)) + ",\"message\":"@) + json_string(a_message@)) + ",\"next\":"@) + json_string(a_next@)), ",\"deadline\":"@, (json_opt_string(opt_text(a_deadline)) + (",\"on_failure\":"@ + (json_string_map(a_on_failure@) + ("}"@ + r1)))));
            lemma_assoc((((((("{\"op\":\"receive\",\"id\":"@ + json_string(a_id@)) + ",\"from\":"@) + json_string(a_from@)) + ",\"message\":"@) + json_string(a_message@)) + ",\"next\":"@), json_string(a_next@), (",\"deadline\":"@ + (json_opt_string(opt_text(a_deadline)) + (",\"on_failure\":"@ + (json_string_map(a_on_failure@) + ("}"@ + r1))))));
            lemma_assoc(((((("{\"op\":\"receive\",\"id\":"@ + json_string(a_id@)) + ",\"from\":"@) + json_string(a_from@)) + ",\"message\":"@) + json_string(a_message@)), ",\"next\":"@, (json_string(a_next@) + (",\"deadline\":"@ + (json_opt_string(opt_text(a_deadline)) + (",\"on_failure\":"@ + (json_string_map(a_on_failure@) + ("}"@ + r1)))))));
            lemma_assoc((((("{\"op\":\"receive\",\"id\":"@ + json_string(a_id@)) + ",\"from\":"@) + json_string(a_from@)) + ",\"message\":"@), json_string(a_message@), (",\"next\":"@ + (json_string(a_next@) + (",\"deadline\":"@ + (json_opt_string(opt_text(a_deadline)) + (",\"on_failure\":"@ + (json_string_map(a_on_failure@) + ("}"@ + r1))))))));
            lemma_assoc(((("{\"op\":\"receive\",\"id\":"@ + json_string(a_id@)) + ",\"from\":"@) + json_string(a_from@)), ",\"message\":"@, (json_string(a_message@) + (",\"next\":"@ + (json_string(a_next@) + (",\"deadline\":"@ + (json_opt_string(opt_text(a_deadline)) + (",\"on_failure\":"@ + (json_string_map(a_on_failure@) + ("}"@ + r1)))))))));
            lemma_assoc((("{\"op\":\"receive\",\"id\":"@ + json_string(a_id@)) + ",\"from\":"@), json_string(a_from@), (",\"message\":"@ + (json_string(a_message@) + (",\"next\":"@ + (json_string(a_next@) + (",\"deadline\":"@ + (json_opt_string(opt_text(a_deadline)) + (",\"on_failure\":"@ + (json_string_map(a_on_failure@) + ("}"@ + r1))))))))));
            lemma_assoc(("{\"op\":\"receive\",\"id\":"@ + json_string(a_id@)), ",\"from\":"@, (json_string(a_from@) + (",\"message\":"@ + (json_string(a_message@) + (",\"next\":"@ + (json_string(a_next@) + (",\"deadline\":"@ + (json_opt_string(opt_text(a_deadline)) + (",\"on_failure\":"@ + (json_string_map(a_on_failure@) + ("}"@ + r1)))))))))));
            lemma_assoc("{\"op\":\"receive\",\"id\":"@, json_string(a_id@), (",\"from\":"@ + (json_string(a_from@) + (",\"message\":"@ + (json_string(a_message@) + (",\"next\":"@ + (json_string(a_next@) + (",\"deadline\":"@ + (json_opt_string(opt_text(a_deadline)) + (",\"on_failure\":"@ + (json_string_map(a_on_failure@) + ("}"@ + r1))))))))))));
            lemma_assoc(((((((((((("{\"op\":\"receive\",\"id\":"@ + json_string(b_id@)) + ",\"from\":"@) + json_string(b_from@)) + ",\"message\":"@) + json_string(b_message@)) + ",\"next\":"@) + json_string(b_next@)) + ",\"deadline\":"@) + json_opt_string(opt_text(b_deadline))) + ",\"on_failure\":"@) + json_string_map(b_on_failure@)), "}"@, r2);
            lemma_assoc((((((((((("{\"op\":\"receive\",\"id\":"@ + json_string(b_id@)) + ",\"from\":"@) + json_string(b_from@)) + ",\"message\":"@) + json_string(b_message@)) + ",\"next\":"@) + json_string(b_next@)) + ",\"deadline\":"@) + json_opt_string(opt_text(b_deadline))) + ",\"on_failure\":"@), json_string_map(b_on_failure@), ("}"@ + r2));
            lemma_assoc(((((((((("{\"op\":\"receive\",\"id\":"@ + json_string(b_id@)) + ",\"from\":"@) + json_string(b_from@)) + ",\"message\":"@) + json_string(b_message@)) + ",\"next\":"@) + json_string(b_next@)) + ",\"deadline\":"@) + json_opt_string(opt_text(b_deadline))), ",\"on_failure\":"@, (json_string_map(b_on_failure@) + ("}"@ + r2)));
            lemma_assoc((((((((("{\"op\":\"receive\",\"id\":"@ + json_string(b_id@)) + ",\"from\":"@) + json_string(b_from@)) + ",\"message\":"@) + json_string(b_message@)) + ",\"next\":"@) + json_string(b_next@)) + ",\"deadline\":"@), json_opt_string(opt_text(b_deadline)), (",\"on_failure\":"@ + (json_string_map(b_on_failure@) + ("}"@ + r2))));
            lemma_assoc(((((((("{\"op\":\"receive\",\"id\":"@ + json_string(b_id@)) + ",\"from\":"@) + json_string(b_from@)) + ",\"message\":"@) + json_string(b_message@)) + ",\"next\":"@) + json_string(b_next@)), ",\"deadline\":"@, (json_opt_string(opt_text(b_deadline)) + (",\"on_failure\":"@ + (json_string_map(b_on_failure@) + ("}"@ + r2)))));
            lemma_assoc((((((("{\"op\":\"receive\",\"id\":"@ + json_string(b_id@)) + ",\"from\":"@) + json_string(b_from@)) + ",\"message\":"@) + json_string(b_message@)) + ",\"next\":"@), json_string(b_next@), (",\"deadline\":"@ + (json_opt_string(opt_text(b_deadline)) + (",\"on_failure\":"@ + (json_string_map(b_on_failure@) + ("}"@ + r2))))));
            lemma_assoc(((((("{\"op\":\"receive\",\"id\":"@ + json_string(b_id@)) + ",\"from\":"@) + json_string(b_from@)) + ",\"message\":"@) + json_string(b_message@)), ",\"next\":"@, (json_string(b_next@) + (",\"deadline\":"@ + (json_opt_string(opt_text(b_deadline)) + (",\"on_failure\":"@ + (json_string_map(b_on_failure@) + ("}"@ + r2)))))));
            lemma_assoc((((("{\"op\":\"receive\",\"id\":"@ + json_string(b_id@)) + ",\"from\":"@) + json_string(b_from@)) + ",\"message\":"@), json_string(b_message@), (",\"next\":"@ + (json_string(b_next@) + (",\"deadline\":"@ + (json_opt_string(opt_text(b_deadline)) + (",\"on_failure\":"@ + (json_string_map(b_on_failure@) + ("}"@ + r2))))))));
            lemma_assoc(((("{\"op\":\"receive\",\"id\":"@ + json_string(b_id@)) + ",\"from\":"@) + json_string(b_from@)), ",\"message\":"@, (json_string(b_message@) + (",\"next\":"@ + (json_string(b_next@) + (",\"deadline\":"@ + (json_opt_string(opt_text(b_deadline)) + (",\"on_failure\":"@ + (json_string_map(b_on_failure@) + ("}"@ + r2)))))))));
            lemma_assoc((("{\"op\":\"receive\",\"id\":"@ + json_string(b_id@)) + ",\"from\":"@), json_string(b_from@), (",\"message\":"@ + (json_string(b_message@) + (",\"next\":"@ + (json_string(b_next@) + (",\"deadline\":"@ + (json_opt_string(opt_text(b_deadline)) + (",\"on_failure\":"@ + (json_string_map(b_on_failure@) + ("}"@ + r2))))))))));
            lemma_assoc(("{\"op\":\"receive\",\"id\":"@ + json_string(b_id@)), ",\"from\":"@, (json_string(b_from@) + (",\"message\":"@ + (json_string(b_message@) + (",\"next\":"@ + (json_string(b_next@) + (",\"deadline\":"@ + (json_opt_string(opt_text(b_deadline)) + (",\"on_failure\":"@ + (json_string_map(b_on_failure@) + ("}"@ + r2)))))))))));
            lemma_assoc("{\"op\":\"receive\",\"id\":"@, json_string(b_id@), (",\"from\":"@ + (json_string(b_from@) + (",\"message\":"@ + (json_string(b_message@) + (",\"next\":"@ + (json_string(b_next@) + (",\"deadline\":"@ + (json_opt_string(opt_text(b_deadline)) + (",\"on_failure\":"@ + (json_string_map(b_on_failure@) + ("}"@ + r2))))))))))));
            lemma_split("{\"op\":\"receive\",\"id\":"@, json_string(a_id@) + (",\"from\":"@ + (json_string(a_from@) + (",\"message\":"@ + (json_string(a_message@) + (",\"next\":"@ + (json_string(a_next@) + (",\"deadline\":"@ + (json_opt_string(opt_text(a_deadline)) + (",\"on_failure\":"@ + (json_string_map(a_on_failure@) + ("}"@ + r1))))))))))), "{\"op\":\"receive\",\"id\":"@, json_string(b_id@) + (",\"from\":"@ + (json_string(b_from@) + (",\"message\":"@ + (json_string(b_message@) + (",\"next\":"@ + (json_string(b_next@) + (",\"deadline\":"@ + (json_opt_string(opt_text(b_deadline)) + (",\"on_failure\":"@ + (json_string_map(b_on_failure@) + ("}"@ + r2))))))))))));
            law_json_string_prefix_free(a_id@, (",\"from\":"@ + (json_string(a_from@) + (",\"message\":"@ + (json_string(a_message@) + (",\"next\":"@ + (json_string(a_next@) + (",\"deadline\":"@ + (json_opt_string(opt_text(a_deadline)) + (",\"on_failure\":"@ + (json_string_map(a_on_failure@) + ("}"@ + r1))))))))))), b_id@, (",\"from\":"@ + (json_string(b_from@) + (",\"message\":"@ + (json_string(b_message@) + (",\"next\":"@ + (json_string(b_next@) + (",\"deadline\":"@ + (json_opt_string(opt_text(b_deadline)) + (",\"on_failure\":"@ + (json_string_map(b_on_failure@) + ("}"@ + r2))))))))))));
            lemma_split(",\"from\":"@, json_string(a_from@) + (",\"message\":"@ + (json_string(a_message@) + (",\"next\":"@ + (json_string(a_next@) + (",\"deadline\":"@ + (json_opt_string(opt_text(a_deadline)) + (",\"on_failure\":"@ + (json_string_map(a_on_failure@) + ("}"@ + r1))))))))), ",\"from\":"@, json_string(b_from@) + (",\"message\":"@ + (json_string(b_message@) + (",\"next\":"@ + (json_string(b_next@) + (",\"deadline\":"@ + (json_opt_string(opt_text(b_deadline)) + (",\"on_failure\":"@ + (json_string_map(b_on_failure@) + ("}"@ + r2))))))))));
            law_json_string_prefix_free(a_from@, (",\"message\":"@ + (json_string(a_message@) + (",\"next\":"@ + (json_string(a_next@) + (",\"deadline\":"@ + (json_opt_string(opt_text(a_deadline)) + (",\"on_failure\":"@ + (json_string_map(a_on_failure@) + ("}"@ + r1))))))))), b_from@, (",\"message\":"@ + (json_string(b_message@) + (",\"next\":"@ + (json_string(b_next@) + (",\"deadline\":"@ + (json_opt_string(opt_text(b_deadline)) + (",\"on_failure\":"@ + (json_string_map(b_on_failure@) + ("}"@ + r2))))))))));
            lemma_split(",\"message\":"@, json_string(a_message@) + (",\"next\":"@ + (json_string(a_next@) + (",\"deadline\":"@ + (json_opt_string(opt_text(a_deadline)) + (",\"on_failure\":"@ + (json_string_map(a_on_failure@) + ("}"@ + r1))))))), ",\"message\":"@, json_string(b_message@) + (",\"next\":"@ + (json_string(b_next@) + (",\"deadline\":"@ + (json_opt_string(opt_text(b_deadline)) + (",\"on_failure\":"@ + (json_string_map(b_on_failure@) + ("}"@ + r2))))))));
            law_json_string_prefix_free(a_message@, (",\"next\":"@ + (json_string(a_next@) + (",\"deadline\":"@ + (json_opt_string(opt_text(a_deadline)) + (",\"on_failure\":"@ + (json_string_map(a_on_failure@) + ("}"@ + r1))))))), b_message@, (",\"next\":"@ + (json_string(b_next@) + (",\"deadline\":"@ + (json_opt_string(opt_text(b_deadline)) + (",\"on_failure\":"@ + (json_string_map(b_on_failure@) + ("}"@ + r2))))))));
            lemma_split(",\"next\":"@, json_string(a_next@) + (",\"deadline\":"@ + (json_opt_string(opt_text(a_deadline)) + (",\"on_failure\":"@ + (json_string_map(a_on_failure@) + ("}"@ + r1))))), ",\"next\":"@, json_string(b_next@) + (",\"deadline\":"@ + (json_opt_string(opt_text(b_deadline)) + (",\"on_failure\":"@ + (json_string_map(b_on_failure@) + ("}"@ + r2))))));
            law_json_string_prefix_free(a_next@, (",\"deadline\":"@ + (json_opt_string(opt_text(a_deadline)) + (",\"on_failure\":"@ + (json_string_map(a_on_failure@) + ("}"@ + r1))))), b_next@, (",\"deadline\":"@ + (json_opt_string(opt_text(b_deadline)) + (",\"on_failure\":"@ + (json_string_map(b_on_failure@) + ("}"@ + r2))))));
            lemma_split(",\"deadline\":"@, json_opt_string(opt_text(a_deadline)) + (",\"on_failure\":"@ + (json_string_map(a_on_failure@) + ("}"@ + r1))), ",\"deadline\":"@, json_opt_string(opt_text(b_deadline)) + (",\"on_failure\":"@ + (json_string_map(b_on_failure@) + ("}"@ + r2))));
            law_json_opt_string_prefix_free(opt_text(a_deadline), (",\"on_failure\":"@ + (json_string_map(a_on_failure@) + ("}"@ + r1))), opt_text(b_deadline), (",\"on_failure\":"@ + (json_string_map(b_on_failure@) + ("}"@ + r2))));
            lemma_split(",\"on_failure\":"@, json_string_map(a_on_failure@) + ("}"@ + r1), ",\"on_failure\":"@, json_string_map(b_on_failure@) + ("}"@ + r2));
            law_json_string_map_prefix_free(a_on_failure@, ("}"@ + r1), b_on_failure@, ("}"@ + r2));
            lemma_split("}"@, r1, "}"@, r2);
        },
        _ => {},
    }
}

#[verifier::spinoff_prover]
#[verifier::rlimit(100)]
proof fn lemma_endpoint_state_json_prefix_free_select(a: EndpointState, r1: Seq<char>, b: EndpointState, r2: Seq<char>)
    requires
        a is Select,
        b is Select,
        endpoint_state_json(a) + r1 == endpoint_state_json(b) + r2,
    ensures
        same_endpoint_state(a, b),
        r1 == r2,
{
    match (a, b) {
        (EndpointState::Select { id: a_id, branches: a_branches, on_failure: a_on_failure }, EndpointState::Select { id: b_id, branches: b_branches, on_failure: b_on_failure }) => {
            lemma_assoc(((((("{\"op\":\"select\",\"id\":"@ + json_string(a_id@)) + ",\"branches\":"@) + json_string_map(a_branches@)) + ",\"on_failure\":"@) + json_string_map(a_on_failure@)), "}"@, r1);
            lemma_assoc((((("{\"op\":\"select\",\"id\":"@ + json_string(a_id@)) + ",\"branches\":"@) + json_string_map(a_branches@)) + ",\"on_failure\":"@), json_string_map(a_on_failure@), ("}"@ + r1));
            lemma_assoc(((("{\"op\":\"select\",\"id\":"@ + json_string(a_id@)) + ",\"branches\":"@) + json_string_map(a_branches@)), ",\"on_failure\":"@, (json_string_map(a_on_failure@) + ("}"@ + r1)));
            lemma_assoc((("{\"op\":\"select\",\"id\":"@ + json_string(a_id@)) + ",\"branches\":"@), json_string_map(a_branches@), (",\"on_failure\":"@ + (json_string_map(a_on_failure@) + ("}"@ + r1))));
            lemma_assoc(("{\"op\":\"select\",\"id\":"@ + json_string(a_id@)), ",\"branches\":"@, (json_string_map(a_branches@) + (",\"on_failure\":"@ + (json_string_map(a_on_failure@) + ("}"@ + r1)))));
            lemma_assoc("{\"op\":\"select\",\"id\":"@, json_string(a_id@), (",\"branches\":"@ + (json_string_map(a_branches@) + (",\"on_failure\":"@ + (json_string_map(a_on_failure@) + ("}"@ + r1))))));
            lemma_assoc(((((("{\"op\":\"select\",\"id\":"@ + json_string(b_id@)) + ",\"branches\":"@) + json_string_map(b_branches@)) + ",\"on_failure\":"@) + json_string_map(b_on_failure@)), "}"@, r2);
            lemma_assoc((((("{\"op\":\"select\",\"id\":"@ + json_string(b_id@)) + ",\"branches\":"@) + json_string_map(b_branches@)) + ",\"on_failure\":"@), json_string_map(b_on_failure@), ("}"@ + r2));
            lemma_assoc(((("{\"op\":\"select\",\"id\":"@ + json_string(b_id@)) + ",\"branches\":"@) + json_string_map(b_branches@)), ",\"on_failure\":"@, (json_string_map(b_on_failure@) + ("}"@ + r2)));
            lemma_assoc((("{\"op\":\"select\",\"id\":"@ + json_string(b_id@)) + ",\"branches\":"@), json_string_map(b_branches@), (",\"on_failure\":"@ + (json_string_map(b_on_failure@) + ("}"@ + r2))));
            lemma_assoc(("{\"op\":\"select\",\"id\":"@ + json_string(b_id@)), ",\"branches\":"@, (json_string_map(b_branches@) + (",\"on_failure\":"@ + (json_string_map(b_on_failure@) + ("}"@ + r2)))));
            lemma_assoc("{\"op\":\"select\",\"id\":"@, json_string(b_id@), (",\"branches\":"@ + (json_string_map(b_branches@) + (",\"on_failure\":"@ + (json_string_map(b_on_failure@) + ("}"@ + r2))))));
            lemma_split("{\"op\":\"select\",\"id\":"@, json_string(a_id@) + (",\"branches\":"@ + (json_string_map(a_branches@) + (",\"on_failure\":"@ + (json_string_map(a_on_failure@) + ("}"@ + r1))))), "{\"op\":\"select\",\"id\":"@, json_string(b_id@) + (",\"branches\":"@ + (json_string_map(b_branches@) + (",\"on_failure\":"@ + (json_string_map(b_on_failure@) + ("}"@ + r2))))));
            law_json_string_prefix_free(a_id@, (",\"branches\":"@ + (json_string_map(a_branches@) + (",\"on_failure\":"@ + (json_string_map(a_on_failure@) + ("}"@ + r1))))), b_id@, (",\"branches\":"@ + (json_string_map(b_branches@) + (",\"on_failure\":"@ + (json_string_map(b_on_failure@) + ("}"@ + r2))))));
            lemma_split(",\"branches\":"@, json_string_map(a_branches@) + (",\"on_failure\":"@ + (json_string_map(a_on_failure@) + ("}"@ + r1))), ",\"branches\":"@, json_string_map(b_branches@) + (",\"on_failure\":"@ + (json_string_map(b_on_failure@) + ("}"@ + r2))));
            law_json_string_map_prefix_free(a_branches@, (",\"on_failure\":"@ + (json_string_map(a_on_failure@) + ("}"@ + r1))), b_branches@, (",\"on_failure\":"@ + (json_string_map(b_on_failure@) + ("}"@ + r2))));
            lemma_split(",\"on_failure\":"@, json_string_map(a_on_failure@) + ("}"@ + r1), ",\"on_failure\":"@, json_string_map(b_on_failure@) + ("}"@ + r2));
            law_json_string_map_prefix_free(a_on_failure@, ("}"@ + r1), b_on_failure@, ("}"@ + r2));
            lemma_split("}"@, r1, "}"@, r2);
        },
        _ => {},
    }
}

#[verifier::spinoff_prover]
#[verifier::rlimit(100)]
proof fn lemma_endpoint_state_json_prefix_free_branch(a: EndpointState, r1: Seq<char>, b: EndpointState, r2: Seq<char>)
    requires
        a is Branch,
        b is Branch,
        endpoint_state_json(a) + r1 == endpoint_state_json(b) + r2,
    ensures
        same_endpoint_state(a, b),
        r1 == r2,
{
    match (a, b) {
        (EndpointState::Branch { id: a_id, from: a_from, branches: a_branches, on_failure: a_on_failure }, EndpointState::Branch { id: b_id, from: b_from, branches: b_branches, on_failure: b_on_failure }) => {
            lemma_assoc(((((((("{\"op\":\"branch\",\"id\":"@ + json_string(a_id@)) + ",\"from\":"@) + json_string(a_from@)) + ",\"branches\":"@) + json_string_map(a_branches@)) + ",\"on_failure\":"@) + json_string_map(a_on_failure@)), "}"@, r1);
            lemma_assoc((((((("{\"op\":\"branch\",\"id\":"@ + json_string(a_id@)) + ",\"from\":"@) + json_string(a_from@)) + ",\"branches\":"@) + json_string_map(a_branches@)) + ",\"on_failure\":"@), json_string_map(a_on_failure@), ("}"@ + r1));
            lemma_assoc(((((("{\"op\":\"branch\",\"id\":"@ + json_string(a_id@)) + ",\"from\":"@) + json_string(a_from@)) + ",\"branches\":"@) + json_string_map(a_branches@)), ",\"on_failure\":"@, (json_string_map(a_on_failure@) + ("}"@ + r1)));
            lemma_assoc((((("{\"op\":\"branch\",\"id\":"@ + json_string(a_id@)) + ",\"from\":"@) + json_string(a_from@)) + ",\"branches\":"@), json_string_map(a_branches@), (",\"on_failure\":"@ + (json_string_map(a_on_failure@) + ("}"@ + r1))));
            lemma_assoc(((("{\"op\":\"branch\",\"id\":"@ + json_string(a_id@)) + ",\"from\":"@) + json_string(a_from@)), ",\"branches\":"@, (json_string_map(a_branches@) + (",\"on_failure\":"@ + (json_string_map(a_on_failure@) + ("}"@ + r1)))));
            lemma_assoc((("{\"op\":\"branch\",\"id\":"@ + json_string(a_id@)) + ",\"from\":"@), json_string(a_from@), (",\"branches\":"@ + (json_string_map(a_branches@) + (",\"on_failure\":"@ + (json_string_map(a_on_failure@) + ("}"@ + r1))))));
            lemma_assoc(("{\"op\":\"branch\",\"id\":"@ + json_string(a_id@)), ",\"from\":"@, (json_string(a_from@) + (",\"branches\":"@ + (json_string_map(a_branches@) + (",\"on_failure\":"@ + (json_string_map(a_on_failure@) + ("}"@ + r1)))))));
            lemma_assoc("{\"op\":\"branch\",\"id\":"@, json_string(a_id@), (",\"from\":"@ + (json_string(a_from@) + (",\"branches\":"@ + (json_string_map(a_branches@) + (",\"on_failure\":"@ + (json_string_map(a_on_failure@) + ("}"@ + r1))))))));
            lemma_assoc(((((((("{\"op\":\"branch\",\"id\":"@ + json_string(b_id@)) + ",\"from\":"@) + json_string(b_from@)) + ",\"branches\":"@) + json_string_map(b_branches@)) + ",\"on_failure\":"@) + json_string_map(b_on_failure@)), "}"@, r2);
            lemma_assoc((((((("{\"op\":\"branch\",\"id\":"@ + json_string(b_id@)) + ",\"from\":"@) + json_string(b_from@)) + ",\"branches\":"@) + json_string_map(b_branches@)) + ",\"on_failure\":"@), json_string_map(b_on_failure@), ("}"@ + r2));
            lemma_assoc(((((("{\"op\":\"branch\",\"id\":"@ + json_string(b_id@)) + ",\"from\":"@) + json_string(b_from@)) + ",\"branches\":"@) + json_string_map(b_branches@)), ",\"on_failure\":"@, (json_string_map(b_on_failure@) + ("}"@ + r2)));
            lemma_assoc((((("{\"op\":\"branch\",\"id\":"@ + json_string(b_id@)) + ",\"from\":"@) + json_string(b_from@)) + ",\"branches\":"@), json_string_map(b_branches@), (",\"on_failure\":"@ + (json_string_map(b_on_failure@) + ("}"@ + r2))));
            lemma_assoc(((("{\"op\":\"branch\",\"id\":"@ + json_string(b_id@)) + ",\"from\":"@) + json_string(b_from@)), ",\"branches\":"@, (json_string_map(b_branches@) + (",\"on_failure\":"@ + (json_string_map(b_on_failure@) + ("}"@ + r2)))));
            lemma_assoc((("{\"op\":\"branch\",\"id\":"@ + json_string(b_id@)) + ",\"from\":"@), json_string(b_from@), (",\"branches\":"@ + (json_string_map(b_branches@) + (",\"on_failure\":"@ + (json_string_map(b_on_failure@) + ("}"@ + r2))))));
            lemma_assoc(("{\"op\":\"branch\",\"id\":"@ + json_string(b_id@)), ",\"from\":"@, (json_string(b_from@) + (",\"branches\":"@ + (json_string_map(b_branches@) + (",\"on_failure\":"@ + (json_string_map(b_on_failure@) + ("}"@ + r2)))))));
            lemma_assoc("{\"op\":\"branch\",\"id\":"@, json_string(b_id@), (",\"from\":"@ + (json_string(b_from@) + (",\"branches\":"@ + (json_string_map(b_branches@) + (",\"on_failure\":"@ + (json_string_map(b_on_failure@) + ("}"@ + r2))))))));
            lemma_split("{\"op\":\"branch\",\"id\":"@, json_string(a_id@) + (",\"from\":"@ + (json_string(a_from@) + (",\"branches\":"@ + (json_string_map(a_branches@) + (",\"on_failure\":"@ + (json_string_map(a_on_failure@) + ("}"@ + r1))))))), "{\"op\":\"branch\",\"id\":"@, json_string(b_id@) + (",\"from\":"@ + (json_string(b_from@) + (",\"branches\":"@ + (json_string_map(b_branches@) + (",\"on_failure\":"@ + (json_string_map(b_on_failure@) + ("}"@ + r2))))))));
            law_json_string_prefix_free(a_id@, (",\"from\":"@ + (json_string(a_from@) + (",\"branches\":"@ + (json_string_map(a_branches@) + (",\"on_failure\":"@ + (json_string_map(a_on_failure@) + ("}"@ + r1))))))), b_id@, (",\"from\":"@ + (json_string(b_from@) + (",\"branches\":"@ + (json_string_map(b_branches@) + (",\"on_failure\":"@ + (json_string_map(b_on_failure@) + ("}"@ + r2))))))));
            lemma_split(",\"from\":"@, json_string(a_from@) + (",\"branches\":"@ + (json_string_map(a_branches@) + (",\"on_failure\":"@ + (json_string_map(a_on_failure@) + ("}"@ + r1))))), ",\"from\":"@, json_string(b_from@) + (",\"branches\":"@ + (json_string_map(b_branches@) + (",\"on_failure\":"@ + (json_string_map(b_on_failure@) + ("}"@ + r2))))));
            law_json_string_prefix_free(a_from@, (",\"branches\":"@ + (json_string_map(a_branches@) + (",\"on_failure\":"@ + (json_string_map(a_on_failure@) + ("}"@ + r1))))), b_from@, (",\"branches\":"@ + (json_string_map(b_branches@) + (",\"on_failure\":"@ + (json_string_map(b_on_failure@) + ("}"@ + r2))))));
            lemma_split(",\"branches\":"@, json_string_map(a_branches@) + (",\"on_failure\":"@ + (json_string_map(a_on_failure@) + ("}"@ + r1))), ",\"branches\":"@, json_string_map(b_branches@) + (",\"on_failure\":"@ + (json_string_map(b_on_failure@) + ("}"@ + r2))));
            law_json_string_map_prefix_free(a_branches@, (",\"on_failure\":"@ + (json_string_map(a_on_failure@) + ("}"@ + r1))), b_branches@, (",\"on_failure\":"@ + (json_string_map(b_on_failure@) + ("}"@ + r2))));
            lemma_split(",\"on_failure\":"@, json_string_map(a_on_failure@) + ("}"@ + r1), ",\"on_failure\":"@, json_string_map(b_on_failure@) + ("}"@ + r2));
            law_json_string_map_prefix_free(a_on_failure@, ("}"@ + r1), b_on_failure@, ("}"@ + r2));
            lemma_split("}"@, r1, "}"@, r2);
        },
        _ => {},
    }
}

#[verifier::spinoff_prover]
#[verifier::rlimit(100)]
proof fn lemma_endpoint_state_json_prefix_free_sendcancel(a: EndpointState, r1: Seq<char>, b: EndpointState, r2: Seq<char>)
    requires
        a is SendCancel,
        b is SendCancel,
        endpoint_state_json(a) + r1 == endpoint_state_json(b) + r2,
    ensures
        same_endpoint_state(a, b),
        r1 == r2,
{
    match (a, b) {
        (EndpointState::SendCancel { id: a_id, to: a_to, scope: a_scope, next: a_next, on_failure: a_on_failure }, EndpointState::SendCancel { id: b_id, to: b_to, scope: b_scope, next: b_next, on_failure: b_on_failure }) => {
            lemma_assoc(((((((((("{\"op\":\"send_cancel\",\"id\":"@ + json_string(a_id@)) + ",\"to\":"@) + json_string(a_to@)) + ",\"scope\":"@) + json_string(a_scope@)) + ",\"next\":"@) + json_string(a_next@)) + ",\"on_failure\":"@) + json_string_map(a_on_failure@)), "}"@, r1);
            lemma_assoc((((((((("{\"op\":\"send_cancel\",\"id\":"@ + json_string(a_id@)) + ",\"to\":"@) + json_string(a_to@)) + ",\"scope\":"@) + json_string(a_scope@)) + ",\"next\":"@) + json_string(a_next@)) + ",\"on_failure\":"@), json_string_map(a_on_failure@), ("}"@ + r1));
            lemma_assoc(((((((("{\"op\":\"send_cancel\",\"id\":"@ + json_string(a_id@)) + ",\"to\":"@) + json_string(a_to@)) + ",\"scope\":"@) + json_string(a_scope@)) + ",\"next\":"@) + json_string(a_next@)), ",\"on_failure\":"@, (json_string_map(a_on_failure@) + ("}"@ + r1)));
            lemma_assoc((((((("{\"op\":\"send_cancel\",\"id\":"@ + json_string(a_id@)) + ",\"to\":"@) + json_string(a_to@)) + ",\"scope\":"@) + json_string(a_scope@)) + ",\"next\":"@), json_string(a_next@), (",\"on_failure\":"@ + (json_string_map(a_on_failure@) + ("}"@ + r1))));
            lemma_assoc(((((("{\"op\":\"send_cancel\",\"id\":"@ + json_string(a_id@)) + ",\"to\":"@) + json_string(a_to@)) + ",\"scope\":"@) + json_string(a_scope@)), ",\"next\":"@, (json_string(a_next@) + (",\"on_failure\":"@ + (json_string_map(a_on_failure@) + ("}"@ + r1)))));
            lemma_assoc((((("{\"op\":\"send_cancel\",\"id\":"@ + json_string(a_id@)) + ",\"to\":"@) + json_string(a_to@)) + ",\"scope\":"@), json_string(a_scope@), (",\"next\":"@ + (json_string(a_next@) + (",\"on_failure\":"@ + (json_string_map(a_on_failure@) + ("}"@ + r1))))));
            lemma_assoc(((("{\"op\":\"send_cancel\",\"id\":"@ + json_string(a_id@)) + ",\"to\":"@) + json_string(a_to@)), ",\"scope\":"@, (json_string(a_scope@) + (",\"next\":"@ + (json_string(a_next@) + (",\"on_failure\":"@ + (json_string_map(a_on_failure@) + ("}"@ + r1)))))));
            lemma_assoc((("{\"op\":\"send_cancel\",\"id\":"@ + json_string(a_id@)) + ",\"to\":"@), json_string(a_to@), (",\"scope\":"@ + (json_string(a_scope@) + (",\"next\":"@ + (json_string(a_next@) + (",\"on_failure\":"@ + (json_string_map(a_on_failure@) + ("}"@ + r1))))))));
            lemma_assoc(("{\"op\":\"send_cancel\",\"id\":"@ + json_string(a_id@)), ",\"to\":"@, (json_string(a_to@) + (",\"scope\":"@ + (json_string(a_scope@) + (",\"next\":"@ + (json_string(a_next@) + (",\"on_failure\":"@ + (json_string_map(a_on_failure@) + ("}"@ + r1)))))))));
            lemma_assoc("{\"op\":\"send_cancel\",\"id\":"@, json_string(a_id@), (",\"to\":"@ + (json_string(a_to@) + (",\"scope\":"@ + (json_string(a_scope@) + (",\"next\":"@ + (json_string(a_next@) + (",\"on_failure\":"@ + (json_string_map(a_on_failure@) + ("}"@ + r1))))))))));
            lemma_assoc(((((((((("{\"op\":\"send_cancel\",\"id\":"@ + json_string(b_id@)) + ",\"to\":"@) + json_string(b_to@)) + ",\"scope\":"@) + json_string(b_scope@)) + ",\"next\":"@) + json_string(b_next@)) + ",\"on_failure\":"@) + json_string_map(b_on_failure@)), "}"@, r2);
            lemma_assoc((((((((("{\"op\":\"send_cancel\",\"id\":"@ + json_string(b_id@)) + ",\"to\":"@) + json_string(b_to@)) + ",\"scope\":"@) + json_string(b_scope@)) + ",\"next\":"@) + json_string(b_next@)) + ",\"on_failure\":"@), json_string_map(b_on_failure@), ("}"@ + r2));
            lemma_assoc(((((((("{\"op\":\"send_cancel\",\"id\":"@ + json_string(b_id@)) + ",\"to\":"@) + json_string(b_to@)) + ",\"scope\":"@) + json_string(b_scope@)) + ",\"next\":"@) + json_string(b_next@)), ",\"on_failure\":"@, (json_string_map(b_on_failure@) + ("}"@ + r2)));
            lemma_assoc((((((("{\"op\":\"send_cancel\",\"id\":"@ + json_string(b_id@)) + ",\"to\":"@) + json_string(b_to@)) + ",\"scope\":"@) + json_string(b_scope@)) + ",\"next\":"@), json_string(b_next@), (",\"on_failure\":"@ + (json_string_map(b_on_failure@) + ("}"@ + r2))));
            lemma_assoc(((((("{\"op\":\"send_cancel\",\"id\":"@ + json_string(b_id@)) + ",\"to\":"@) + json_string(b_to@)) + ",\"scope\":"@) + json_string(b_scope@)), ",\"next\":"@, (json_string(b_next@) + (",\"on_failure\":"@ + (json_string_map(b_on_failure@) + ("}"@ + r2)))));
            lemma_assoc((((("{\"op\":\"send_cancel\",\"id\":"@ + json_string(b_id@)) + ",\"to\":"@) + json_string(b_to@)) + ",\"scope\":"@), json_string(b_scope@), (",\"next\":"@ + (json_string(b_next@) + (",\"on_failure\":"@ + (json_string_map(b_on_failure@) + ("}"@ + r2))))));
            lemma_assoc(((("{\"op\":\"send_cancel\",\"id\":"@ + json_string(b_id@)) + ",\"to\":"@) + json_string(b_to@)), ",\"scope\":"@, (json_string(b_scope@) + (",\"next\":"@ + (json_string(b_next@) + (",\"on_failure\":"@ + (json_string_map(b_on_failure@) + ("}"@ + r2)))))));
            lemma_assoc((("{\"op\":\"send_cancel\",\"id\":"@ + json_string(b_id@)) + ",\"to\":"@), json_string(b_to@), (",\"scope\":"@ + (json_string(b_scope@) + (",\"next\":"@ + (json_string(b_next@) + (",\"on_failure\":"@ + (json_string_map(b_on_failure@) + ("}"@ + r2))))))));
            lemma_assoc(("{\"op\":\"send_cancel\",\"id\":"@ + json_string(b_id@)), ",\"to\":"@, (json_string(b_to@) + (",\"scope\":"@ + (json_string(b_scope@) + (",\"next\":"@ + (json_string(b_next@) + (",\"on_failure\":"@ + (json_string_map(b_on_failure@) + ("}"@ + r2)))))))));
            lemma_assoc("{\"op\":\"send_cancel\",\"id\":"@, json_string(b_id@), (",\"to\":"@ + (json_string(b_to@) + (",\"scope\":"@ + (json_string(b_scope@) + (",\"next\":"@ + (json_string(b_next@) + (",\"on_failure\":"@ + (json_string_map(b_on_failure@) + ("}"@ + r2))))))))));
            lemma_split("{\"op\":\"send_cancel\",\"id\":"@, json_string(a_id@) + (",\"to\":"@ + (json_string(a_to@) + (",\"scope\":"@ + (json_string(a_scope@) + (",\"next\":"@ + (json_string(a_next@) + (",\"on_failure\":"@ + (json_string_map(a_on_failure@) + ("}"@ + r1))))))))), "{\"op\":\"send_cancel\",\"id\":"@, json_string(b_id@) + (",\"to\":"@ + (json_string(b_to@) + (",\"scope\":"@ + (json_string(b_scope@) + (",\"next\":"@ + (json_string(b_next@) + (",\"on_failure\":"@ + (json_string_map(b_on_failure@) + ("}"@ + r2))))))))));
            law_json_string_prefix_free(a_id@, (",\"to\":"@ + (json_string(a_to@) + (",\"scope\":"@ + (json_string(a_scope@) + (",\"next\":"@ + (json_string(a_next@) + (",\"on_failure\":"@ + (json_string_map(a_on_failure@) + ("}"@ + r1))))))))), b_id@, (",\"to\":"@ + (json_string(b_to@) + (",\"scope\":"@ + (json_string(b_scope@) + (",\"next\":"@ + (json_string(b_next@) + (",\"on_failure\":"@ + (json_string_map(b_on_failure@) + ("}"@ + r2))))))))));
            lemma_split(",\"to\":"@, json_string(a_to@) + (",\"scope\":"@ + (json_string(a_scope@) + (",\"next\":"@ + (json_string(a_next@) + (",\"on_failure\":"@ + (json_string_map(a_on_failure@) + ("}"@ + r1))))))), ",\"to\":"@, json_string(b_to@) + (",\"scope\":"@ + (json_string(b_scope@) + (",\"next\":"@ + (json_string(b_next@) + (",\"on_failure\":"@ + (json_string_map(b_on_failure@) + ("}"@ + r2))))))));
            law_json_string_prefix_free(a_to@, (",\"scope\":"@ + (json_string(a_scope@) + (",\"next\":"@ + (json_string(a_next@) + (",\"on_failure\":"@ + (json_string_map(a_on_failure@) + ("}"@ + r1))))))), b_to@, (",\"scope\":"@ + (json_string(b_scope@) + (",\"next\":"@ + (json_string(b_next@) + (",\"on_failure\":"@ + (json_string_map(b_on_failure@) + ("}"@ + r2))))))));
            lemma_split(",\"scope\":"@, json_string(a_scope@) + (",\"next\":"@ + (json_string(a_next@) + (",\"on_failure\":"@ + (json_string_map(a_on_failure@) + ("}"@ + r1))))), ",\"scope\":"@, json_string(b_scope@) + (",\"next\":"@ + (json_string(b_next@) + (",\"on_failure\":"@ + (json_string_map(b_on_failure@) + ("}"@ + r2))))));
            law_json_string_prefix_free(a_scope@, (",\"next\":"@ + (json_string(a_next@) + (",\"on_failure\":"@ + (json_string_map(a_on_failure@) + ("}"@ + r1))))), b_scope@, (",\"next\":"@ + (json_string(b_next@) + (",\"on_failure\":"@ + (json_string_map(b_on_failure@) + ("}"@ + r2))))));
            lemma_split(",\"next\":"@, json_string(a_next@) + (",\"on_failure\":"@ + (json_string_map(a_on_failure@) + ("}"@ + r1))), ",\"next\":"@, json_string(b_next@) + (",\"on_failure\":"@ + (json_string_map(b_on_failure@) + ("}"@ + r2))));
            law_json_string_prefix_free(a_next@, (",\"on_failure\":"@ + (json_string_map(a_on_failure@) + ("}"@ + r1))), b_next@, (",\"on_failure\":"@ + (json_string_map(b_on_failure@) + ("}"@ + r2))));
            lemma_split(",\"on_failure\":"@, json_string_map(a_on_failure@) + ("}"@ + r1), ",\"on_failure\":"@, json_string_map(b_on_failure@) + ("}"@ + r2));
            law_json_string_map_prefix_free(a_on_failure@, ("}"@ + r1), b_on_failure@, ("}"@ + r2));
            lemma_split("}"@, r1, "}"@, r2);
        },
        _ => {},
    }
}

#[verifier::spinoff_prover]
#[verifier::rlimit(100)]
proof fn lemma_endpoint_state_json_prefix_free_receivecancel(a: EndpointState, r1: Seq<char>, b: EndpointState, r2: Seq<char>)
    requires
        a is ReceiveCancel,
        b is ReceiveCancel,
        endpoint_state_json(a) + r1 == endpoint_state_json(b) + r2,
    ensures
        same_endpoint_state(a, b),
        r1 == r2,
{
    match (a, b) {
        (EndpointState::ReceiveCancel { id: a_id, from: a_from, scope: a_scope, next: a_next, on_failure: a_on_failure }, EndpointState::ReceiveCancel { id: b_id, from: b_from, scope: b_scope, next: b_next, on_failure: b_on_failure }) => {
            lemma_assoc(((((((((("{\"op\":\"receive_cancel\",\"id\":"@ + json_string(a_id@)) + ",\"from\":"@) + json_string(a_from@)) + ",\"scope\":"@) + json_string(a_scope@)) + ",\"next\":"@) + json_string(a_next@)) + ",\"on_failure\":"@) + json_string_map(a_on_failure@)), "}"@, r1);
            lemma_assoc((((((((("{\"op\":\"receive_cancel\",\"id\":"@ + json_string(a_id@)) + ",\"from\":"@) + json_string(a_from@)) + ",\"scope\":"@) + json_string(a_scope@)) + ",\"next\":"@) + json_string(a_next@)) + ",\"on_failure\":"@), json_string_map(a_on_failure@), ("}"@ + r1));
            lemma_assoc(((((((("{\"op\":\"receive_cancel\",\"id\":"@ + json_string(a_id@)) + ",\"from\":"@) + json_string(a_from@)) + ",\"scope\":"@) + json_string(a_scope@)) + ",\"next\":"@) + json_string(a_next@)), ",\"on_failure\":"@, (json_string_map(a_on_failure@) + ("}"@ + r1)));
            lemma_assoc((((((("{\"op\":\"receive_cancel\",\"id\":"@ + json_string(a_id@)) + ",\"from\":"@) + json_string(a_from@)) + ",\"scope\":"@) + json_string(a_scope@)) + ",\"next\":"@), json_string(a_next@), (",\"on_failure\":"@ + (json_string_map(a_on_failure@) + ("}"@ + r1))));
            lemma_assoc(((((("{\"op\":\"receive_cancel\",\"id\":"@ + json_string(a_id@)) + ",\"from\":"@) + json_string(a_from@)) + ",\"scope\":"@) + json_string(a_scope@)), ",\"next\":"@, (json_string(a_next@) + (",\"on_failure\":"@ + (json_string_map(a_on_failure@) + ("}"@ + r1)))));
            lemma_assoc((((("{\"op\":\"receive_cancel\",\"id\":"@ + json_string(a_id@)) + ",\"from\":"@) + json_string(a_from@)) + ",\"scope\":"@), json_string(a_scope@), (",\"next\":"@ + (json_string(a_next@) + (",\"on_failure\":"@ + (json_string_map(a_on_failure@) + ("}"@ + r1))))));
            lemma_assoc(((("{\"op\":\"receive_cancel\",\"id\":"@ + json_string(a_id@)) + ",\"from\":"@) + json_string(a_from@)), ",\"scope\":"@, (json_string(a_scope@) + (",\"next\":"@ + (json_string(a_next@) + (",\"on_failure\":"@ + (json_string_map(a_on_failure@) + ("}"@ + r1)))))));
            lemma_assoc((("{\"op\":\"receive_cancel\",\"id\":"@ + json_string(a_id@)) + ",\"from\":"@), json_string(a_from@), (",\"scope\":"@ + (json_string(a_scope@) + (",\"next\":"@ + (json_string(a_next@) + (",\"on_failure\":"@ + (json_string_map(a_on_failure@) + ("}"@ + r1))))))));
            lemma_assoc(("{\"op\":\"receive_cancel\",\"id\":"@ + json_string(a_id@)), ",\"from\":"@, (json_string(a_from@) + (",\"scope\":"@ + (json_string(a_scope@) + (",\"next\":"@ + (json_string(a_next@) + (",\"on_failure\":"@ + (json_string_map(a_on_failure@) + ("}"@ + r1)))))))));
            lemma_assoc("{\"op\":\"receive_cancel\",\"id\":"@, json_string(a_id@), (",\"from\":"@ + (json_string(a_from@) + (",\"scope\":"@ + (json_string(a_scope@) + (",\"next\":"@ + (json_string(a_next@) + (",\"on_failure\":"@ + (json_string_map(a_on_failure@) + ("}"@ + r1))))))))));
            lemma_assoc(((((((((("{\"op\":\"receive_cancel\",\"id\":"@ + json_string(b_id@)) + ",\"from\":"@) + json_string(b_from@)) + ",\"scope\":"@) + json_string(b_scope@)) + ",\"next\":"@) + json_string(b_next@)) + ",\"on_failure\":"@) + json_string_map(b_on_failure@)), "}"@, r2);
            lemma_assoc((((((((("{\"op\":\"receive_cancel\",\"id\":"@ + json_string(b_id@)) + ",\"from\":"@) + json_string(b_from@)) + ",\"scope\":"@) + json_string(b_scope@)) + ",\"next\":"@) + json_string(b_next@)) + ",\"on_failure\":"@), json_string_map(b_on_failure@), ("}"@ + r2));
            lemma_assoc(((((((("{\"op\":\"receive_cancel\",\"id\":"@ + json_string(b_id@)) + ",\"from\":"@) + json_string(b_from@)) + ",\"scope\":"@) + json_string(b_scope@)) + ",\"next\":"@) + json_string(b_next@)), ",\"on_failure\":"@, (json_string_map(b_on_failure@) + ("}"@ + r2)));
            lemma_assoc((((((("{\"op\":\"receive_cancel\",\"id\":"@ + json_string(b_id@)) + ",\"from\":"@) + json_string(b_from@)) + ",\"scope\":"@) + json_string(b_scope@)) + ",\"next\":"@), json_string(b_next@), (",\"on_failure\":"@ + (json_string_map(b_on_failure@) + ("}"@ + r2))));
            lemma_assoc(((((("{\"op\":\"receive_cancel\",\"id\":"@ + json_string(b_id@)) + ",\"from\":"@) + json_string(b_from@)) + ",\"scope\":"@) + json_string(b_scope@)), ",\"next\":"@, (json_string(b_next@) + (",\"on_failure\":"@ + (json_string_map(b_on_failure@) + ("}"@ + r2)))));
            lemma_assoc((((("{\"op\":\"receive_cancel\",\"id\":"@ + json_string(b_id@)) + ",\"from\":"@) + json_string(b_from@)) + ",\"scope\":"@), json_string(b_scope@), (",\"next\":"@ + (json_string(b_next@) + (",\"on_failure\":"@ + (json_string_map(b_on_failure@) + ("}"@ + r2))))));
            lemma_assoc(((("{\"op\":\"receive_cancel\",\"id\":"@ + json_string(b_id@)) + ",\"from\":"@) + json_string(b_from@)), ",\"scope\":"@, (json_string(b_scope@) + (",\"next\":"@ + (json_string(b_next@) + (",\"on_failure\":"@ + (json_string_map(b_on_failure@) + ("}"@ + r2)))))));
            lemma_assoc((("{\"op\":\"receive_cancel\",\"id\":"@ + json_string(b_id@)) + ",\"from\":"@), json_string(b_from@), (",\"scope\":"@ + (json_string(b_scope@) + (",\"next\":"@ + (json_string(b_next@) + (",\"on_failure\":"@ + (json_string_map(b_on_failure@) + ("}"@ + r2))))))));
            lemma_assoc(("{\"op\":\"receive_cancel\",\"id\":"@ + json_string(b_id@)), ",\"from\":"@, (json_string(b_from@) + (",\"scope\":"@ + (json_string(b_scope@) + (",\"next\":"@ + (json_string(b_next@) + (",\"on_failure\":"@ + (json_string_map(b_on_failure@) + ("}"@ + r2)))))))));
            lemma_assoc("{\"op\":\"receive_cancel\",\"id\":"@, json_string(b_id@), (",\"from\":"@ + (json_string(b_from@) + (",\"scope\":"@ + (json_string(b_scope@) + (",\"next\":"@ + (json_string(b_next@) + (",\"on_failure\":"@ + (json_string_map(b_on_failure@) + ("}"@ + r2))))))))));
            lemma_split("{\"op\":\"receive_cancel\",\"id\":"@, json_string(a_id@) + (",\"from\":"@ + (json_string(a_from@) + (",\"scope\":"@ + (json_string(a_scope@) + (",\"next\":"@ + (json_string(a_next@) + (",\"on_failure\":"@ + (json_string_map(a_on_failure@) + ("}"@ + r1))))))))), "{\"op\":\"receive_cancel\",\"id\":"@, json_string(b_id@) + (",\"from\":"@ + (json_string(b_from@) + (",\"scope\":"@ + (json_string(b_scope@) + (",\"next\":"@ + (json_string(b_next@) + (",\"on_failure\":"@ + (json_string_map(b_on_failure@) + ("}"@ + r2))))))))));
            law_json_string_prefix_free(a_id@, (",\"from\":"@ + (json_string(a_from@) + (",\"scope\":"@ + (json_string(a_scope@) + (",\"next\":"@ + (json_string(a_next@) + (",\"on_failure\":"@ + (json_string_map(a_on_failure@) + ("}"@ + r1))))))))), b_id@, (",\"from\":"@ + (json_string(b_from@) + (",\"scope\":"@ + (json_string(b_scope@) + (",\"next\":"@ + (json_string(b_next@) + (",\"on_failure\":"@ + (json_string_map(b_on_failure@) + ("}"@ + r2))))))))));
            lemma_split(",\"from\":"@, json_string(a_from@) + (",\"scope\":"@ + (json_string(a_scope@) + (",\"next\":"@ + (json_string(a_next@) + (",\"on_failure\":"@ + (json_string_map(a_on_failure@) + ("}"@ + r1))))))), ",\"from\":"@, json_string(b_from@) + (",\"scope\":"@ + (json_string(b_scope@) + (",\"next\":"@ + (json_string(b_next@) + (",\"on_failure\":"@ + (json_string_map(b_on_failure@) + ("}"@ + r2))))))));
            law_json_string_prefix_free(a_from@, (",\"scope\":"@ + (json_string(a_scope@) + (",\"next\":"@ + (json_string(a_next@) + (",\"on_failure\":"@ + (json_string_map(a_on_failure@) + ("}"@ + r1))))))), b_from@, (",\"scope\":"@ + (json_string(b_scope@) + (",\"next\":"@ + (json_string(b_next@) + (",\"on_failure\":"@ + (json_string_map(b_on_failure@) + ("}"@ + r2))))))));
            lemma_split(",\"scope\":"@, json_string(a_scope@) + (",\"next\":"@ + (json_string(a_next@) + (",\"on_failure\":"@ + (json_string_map(a_on_failure@) + ("}"@ + r1))))), ",\"scope\":"@, json_string(b_scope@) + (",\"next\":"@ + (json_string(b_next@) + (",\"on_failure\":"@ + (json_string_map(b_on_failure@) + ("}"@ + r2))))));
            law_json_string_prefix_free(a_scope@, (",\"next\":"@ + (json_string(a_next@) + (",\"on_failure\":"@ + (json_string_map(a_on_failure@) + ("}"@ + r1))))), b_scope@, (",\"next\":"@ + (json_string(b_next@) + (",\"on_failure\":"@ + (json_string_map(b_on_failure@) + ("}"@ + r2))))));
            lemma_split(",\"next\":"@, json_string(a_next@) + (",\"on_failure\":"@ + (json_string_map(a_on_failure@) + ("}"@ + r1))), ",\"next\":"@, json_string(b_next@) + (",\"on_failure\":"@ + (json_string_map(b_on_failure@) + ("}"@ + r2))));
            law_json_string_prefix_free(a_next@, (",\"on_failure\":"@ + (json_string_map(a_on_failure@) + ("}"@ + r1))), b_next@, (",\"on_failure\":"@ + (json_string_map(b_on_failure@) + ("}"@ + r2))));
            lemma_split(",\"on_failure\":"@, json_string_map(a_on_failure@) + ("}"@ + r1), ",\"on_failure\":"@, json_string_map(b_on_failure@) + ("}"@ + r2));
            law_json_string_map_prefix_free(a_on_failure@, ("}"@ + r1), b_on_failure@, ("}"@ + r2));
            lemma_split("}"@, r1, "}"@, r2);
        },
        _ => {},
    }
}

#[verifier::spinoff_prover]
#[verifier::rlimit(100)]
proof fn lemma_endpoint_state_json_prefix_free_end(a: EndpointState, r1: Seq<char>, b: EndpointState, r2: Seq<char>)
    requires
        a is End,
        b is End,
        endpoint_state_json(a) + r1 == endpoint_state_json(b) + r2,
    ensures
        same_endpoint_state(a, b),
        r1 == r2,
{
    match (a, b) {
        (EndpointState::End { id: a_id }, EndpointState::End { id: b_id }) => {
            lemma_assoc(("{\"op\":\"end\",\"id\":"@ + json_string(a_id@)), "}"@, r1);
            lemma_assoc("{\"op\":\"end\",\"id\":"@, json_string(a_id@), ("}"@ + r1));
            lemma_assoc(("{\"op\":\"end\",\"id\":"@ + json_string(b_id@)), "}"@, r2);
            lemma_assoc("{\"op\":\"end\",\"id\":"@, json_string(b_id@), ("}"@ + r2));
            lemma_split("{\"op\":\"end\",\"id\":"@, json_string(a_id@) + ("}"@ + r1), "{\"op\":\"end\",\"id\":"@, json_string(b_id@) + ("}"@ + r2));
            law_json_string_prefix_free(a_id@, ("}"@ + r1), b_id@, ("}"@ + r2));
            lemma_split("}"@, r1, "}"@, r2);
        },
        _ => {},
    }
}

#[verifier::spinoff_prover]
#[verifier::rlimit(100)]
proof fn lemma_endpoint_state_json_prefix_free_fail(a: EndpointState, r1: Seq<char>, b: EndpointState, r2: Seq<char>)
    requires
        a is Fail,
        b is Fail,
        endpoint_state_json(a) + r1 == endpoint_state_json(b) + r2,
    ensures
        same_endpoint_state(a, b),
        r1 == r2,
{
    match (a, b) {
        (EndpointState::Fail { id: a_id, failure: a_failure }, EndpointState::Fail { id: b_id, failure: b_failure }) => {
            lemma_assoc(((("{\"op\":\"fail\",\"id\":"@ + json_string(a_id@)) + ",\"failure\":"@) + json_string(a_failure@)), "}"@, r1);
            lemma_assoc((("{\"op\":\"fail\",\"id\":"@ + json_string(a_id@)) + ",\"failure\":"@), json_string(a_failure@), ("}"@ + r1));
            lemma_assoc(("{\"op\":\"fail\",\"id\":"@ + json_string(a_id@)), ",\"failure\":"@, (json_string(a_failure@) + ("}"@ + r1)));
            lemma_assoc("{\"op\":\"fail\",\"id\":"@, json_string(a_id@), (",\"failure\":"@ + (json_string(a_failure@) + ("}"@ + r1))));
            lemma_assoc(((("{\"op\":\"fail\",\"id\":"@ + json_string(b_id@)) + ",\"failure\":"@) + json_string(b_failure@)), "}"@, r2);
            lemma_assoc((("{\"op\":\"fail\",\"id\":"@ + json_string(b_id@)) + ",\"failure\":"@), json_string(b_failure@), ("}"@ + r2));
            lemma_assoc(("{\"op\":\"fail\",\"id\":"@ + json_string(b_id@)), ",\"failure\":"@, (json_string(b_failure@) + ("}"@ + r2)));
            lemma_assoc("{\"op\":\"fail\",\"id\":"@, json_string(b_id@), (",\"failure\":"@ + (json_string(b_failure@) + ("}"@ + r2))));
            lemma_split("{\"op\":\"fail\",\"id\":"@, json_string(a_id@) + (",\"failure\":"@ + (json_string(a_failure@) + ("}"@ + r1))), "{\"op\":\"fail\",\"id\":"@, json_string(b_id@) + (",\"failure\":"@ + (json_string(b_failure@) + ("}"@ + r2))));
            law_json_string_prefix_free(a_id@, (",\"failure\":"@ + (json_string(a_failure@) + ("}"@ + r1))), b_id@, (",\"failure\":"@ + (json_string(b_failure@) + ("}"@ + r2))));
            lemma_split(",\"failure\":"@, json_string(a_failure@) + ("}"@ + r1), ",\"failure\":"@, json_string(b_failure@) + ("}"@ + r2));
            law_json_string_prefix_free(a_failure@, ("}"@ + r1), b_failure@, ("}"@ + r2));
            lemma_split("}"@, r1, "}"@, r2);
        },
        _ => {},
    }
}


/// Every state holds the same text in every field as the state at the same position.
pub open spec fn same_global_states(a: Seq<GlobalState>, b: Seq<GlobalState>) -> bool {
    &&& a.len() == b.len()
    &&& forall|i: int| 0 <= i < a.len() ==> same_global_state(#[trigger] a[i], b[i])
}

/// The text of a state is not empty and opens an object.
proof fn lemma_global_state_opens(s: GlobalState)
    ensures
        global_state_json(s).len() > 0,
        global_state_json(s)[0] == '{',
{
    lemma_global_marks(s, Seq::empty());
    assert(global_state_json(s) + Seq::<char>::empty() =~= global_state_json(s));
}

/// The texts of two states are equal exactly where the states hold the same text in every
/// field.
pub proof fn law_global_state_json_injective(a: GlobalState, b: GlobalState)
    ensures
        global_state_json(a) == global_state_json(b) <==> same_global_state(a, b),
{
    if global_state_json(a) == global_state_json(b) {
        assert(global_state_json(a) + Seq::<char>::empty() =~= global_state_json(a));
        assert(global_state_json(b) + Seq::<char>::empty() =~= global_state_json(b));
        law_global_state_json_prefix_free(a, Seq::empty(), b, Seq::empty());
    }
}

/// The texts of two states end where they end.
proof fn lemma_global_state_delimited(a: GlobalState, b: GlobalState)
    ensures
        delimited(global_state_json(a), global_state_json(b)),
{
    assert forall|t1: Seq<char>, t2: Seq<char>| global_state_json(a) + t1 == global_state_json(b) + t2 implies global_state_json(a) == global_state_json(b) && t1 == t2 by {
        law_global_state_json_prefix_free(a, t1, b, t2);
        lemma_split(global_state_json(a), t1, global_state_json(b), t2);
    }
}

/// A global_state_json array of states ends where it ends and determines the states: where two such
/// arrays start two equal texts, the states agree position by position in kind and in
/// every field, and what follows is equal.
pub proof fn law_global_states_json_prefix_free(a: Seq<GlobalState>, r1: Seq<char>, b: Seq<GlobalState>, r2: Seq<char>)
    requires
        global_states_json(a) + r1 == global_states_json(b) + r2,
    ensures
        same_global_states(a, b),
        r1 == r2,
{
    let xs = global_states_items(a);
    let ys = global_states_items(b);
    assert forall|i: int| 0 <= i < xs.len() implies (#[trigger] xs[i]).len() > 0 && xs[i][0] != ']' by {
        lemma_global_state_opens(a[i]);
    }
    assert forall|j: int| 0 <= j < ys.len() implies (#[trigger] ys[j]).len() > 0 && ys[j][0] != ']' by {
        lemma_global_state_opens(b[j]);
    }
    assert forall|i: int, j: int| 0 <= i < xs.len() && 0 <= j < ys.len() implies delimited(#[trigger] xs[i], #[trigger] ys[j]) by {
        lemma_global_state_delimited(a[i], b[j]);
    }
    law_json_array_prefix_free(xs, r1, ys, r2);
    assert forall|i: int| 0 <= i < a.len() implies same_global_state(#[trigger] a[i], b[i]) by {
        assert(xs[i] == ys[i]);
        law_global_state_json_injective(a[i], b[i]);
    }
}

/// Every state holds the same text in every field as the state at the same position.
pub open spec fn same_endpoint_states(a: Seq<EndpointState>, b: Seq<EndpointState>) -> bool {
    &&& a.len() == b.len()
    &&& forall|i: int| 0 <= i < a.len() ==> same_endpoint_state(#[trigger] a[i], b[i])
}

/// The text of a state is not empty and opens an object.
proof fn lemma_endpoint_state_opens(s: EndpointState)
    ensures
        endpoint_state_json(s).len() > 0,
        endpoint_state_json(s)[0] == '{',
{
    lemma_endpoint_marks(s, Seq::empty());
    assert(endpoint_state_json(s) + Seq::<char>::empty() =~= endpoint_state_json(s));
}

/// The texts of two states are equal exactly where the states hold the same text in every
/// field.
pub proof fn law_endpoint_state_json_injective(a: EndpointState, b: EndpointState)
    ensures
        endpoint_state_json(a) == endpoint_state_json(b) <==> same_endpoint_state(a, b),
{
    if endpoint_state_json(a) == endpoint_state_json(b) {
        assert(endpoint_state_json(a) + Seq::<char>::empty() =~= endpoint_state_json(a));
        assert(endpoint_state_json(b) + Seq::<char>::empty() =~= endpoint_state_json(b));
        law_endpoint_state_json_prefix_free(a, Seq::empty(), b, Seq::empty());
    }
}

/// The texts of two states end where they end.
proof fn lemma_endpoint_state_delimited(a: EndpointState, b: EndpointState)
    ensures
        delimited(endpoint_state_json(a), endpoint_state_json(b)),
{
    assert forall|t1: Seq<char>, t2: Seq<char>| endpoint_state_json(a) + t1 == endpoint_state_json(b) + t2 implies endpoint_state_json(a) == endpoint_state_json(b) && t1 == t2 by {
        law_endpoint_state_json_prefix_free(a, t1, b, t2);
        lemma_split(endpoint_state_json(a), t1, endpoint_state_json(b), t2);
    }
}

/// A endpoint_state_json array of states ends where it ends and determines the states: where two such
/// arrays start two equal texts, the states agree position by position in kind and in
/// every field, and what follows is equal.
pub proof fn law_endpoint_states_json_prefix_free(a: Seq<EndpointState>, r1: Seq<char>, b: Seq<EndpointState>, r2: Seq<char>)
    requires
        endpoint_states_json(a) + r1 == endpoint_states_json(b) + r2,
    ensures
        same_endpoint_states(a, b),
        r1 == r2,
{
    let xs = endpoint_states_items(a);
    let ys = endpoint_states_items(b);
    assert forall|i: int| 0 <= i < xs.len() implies (#[trigger] xs[i]).len() > 0 && xs[i][0] != ']' by {
        lemma_endpoint_state_opens(a[i]);
    }
    assert forall|j: int| 0 <= j < ys.len() implies (#[trigger] ys[j]).len() > 0 && ys[j][0] != ']' by {
        lemma_endpoint_state_opens(b[j]);
    }
    assert forall|i: int, j: int| 0 <= i < xs.len() && 0 <= j < ys.len() implies delimited(#[trigger] xs[i], #[trigger] ys[j]) by {
        lemma_endpoint_state_delimited(a[i], b[j]);
    }
    law_json_array_prefix_free(xs, r1, ys, r2);
    assert forall|i: int| 0 <= i < a.len() implies same_endpoint_state(#[trigger] a[i], b[i]) by {
        assert(xs[i] == ys[i]);
        law_endpoint_state_json_injective(a[i], b[i]);
    }
}


/// `a` and `b` hold the same text in every field, and the same states.
pub open spec fn same_endpoint(a: Endpoint, b: Endpoint) -> bool {
    &&& a.eve_endpoint@ == b.eve_endpoint@
    &&& a.conversation@ == b.conversation@
    &&& a.role@ == b.role@
    &&& a.initial@ == b.initial@
    &&& same_endpoint_states(a.states@, b.states@)
}

/// An endpoint's JSON text ends where it ends and determines the endpoint: where two
/// texts start two equal texts, the endpoints agree in every field and state, and what
/// follows is equal.
#[verifier::spinoff_prover]
#[verifier::rlimit(100)]
pub proof fn law_endpoint_json_prefix_free(a: Endpoint, r1: Seq<char>, b: Endpoint, r2: Seq<char>)
    requires
        endpoint_json(a) + r1 == endpoint_json(b) + r2,
    ensures
        same_endpoint(a, b),
        r1 == r2,
{
    lemma_assoc(((((((((("{\"eve_endpoint\":"@ + json_string(a.eve_endpoint@)) + ",\"conversation\":"@) + json_string(a.conversation@)) + ",\"role\":"@) + json_string(a.role@)) + ",\"initial\":"@) + json_string(a.initial@)) + ",\"states\":"@) + endpoint_states_json(a.states@)), "}"@, r1);
    lemma_assoc((((((((("{\"eve_endpoint\":"@ + json_string(a.eve_endpoint@)) + ",\"conversation\":"@) + json_string(a.conversation@)) + ",\"role\":"@) + json_string(a.role@)) + ",\"initial\":"@) + json_string(a.initial@)) + ",\"states\":"@), endpoint_states_json(a.states@), ("}"@ + r1));
    lemma_assoc(((((((("{\"eve_endpoint\":"@ + json_string(a.eve_endpoint@)) + ",\"conversation\":"@) + json_string(a.conversation@)) + ",\"role\":"@) + json_string(a.role@)) + ",\"initial\":"@) + json_string(a.initial@)), ",\"states\":"@, (endpoint_states_json(a.states@) + ("}"@ + r1)));
    lemma_assoc((((((("{\"eve_endpoint\":"@ + json_string(a.eve_endpoint@)) + ",\"conversation\":"@) + json_string(a.conversation@)) + ",\"role\":"@) + json_string(a.role@)) + ",\"initial\":"@), json_string(a.initial@), (",\"states\":"@ + (endpoint_states_json(a.states@) + ("}"@ + r1))));
    lemma_assoc(((((("{\"eve_endpoint\":"@ + json_string(a.eve_endpoint@)) + ",\"conversation\":"@) + json_string(a.conversation@)) + ",\"role\":"@) + json_string(a.role@)), ",\"initial\":"@, (json_string(a.initial@) + (",\"states\":"@ + (endpoint_states_json(a.states@) + ("}"@ + r1)))));
    lemma_assoc((((("{\"eve_endpoint\":"@ + json_string(a.eve_endpoint@)) + ",\"conversation\":"@) + json_string(a.conversation@)) + ",\"role\":"@), json_string(a.role@), (",\"initial\":"@ + (json_string(a.initial@) + (",\"states\":"@ + (endpoint_states_json(a.states@) + ("}"@ + r1))))));
    lemma_assoc(((("{\"eve_endpoint\":"@ + json_string(a.eve_endpoint@)) + ",\"conversation\":"@) + json_string(a.conversation@)), ",\"role\":"@, (json_string(a.role@) + (",\"initial\":"@ + (json_string(a.initial@) + (",\"states\":"@ + (endpoint_states_json(a.states@) + ("}"@ + r1)))))));
    lemma_assoc((("{\"eve_endpoint\":"@ + json_string(a.eve_endpoint@)) + ",\"conversation\":"@), json_string(a.conversation@), (",\"role\":"@ + (json_string(a.role@) + (",\"initial\":"@ + (json_string(a.initial@) + (",\"states\":"@ + (endpoint_states_json(a.states@) + ("}"@ + r1))))))));
    lemma_assoc(("{\"eve_endpoint\":"@ + json_string(a.eve_endpoint@)), ",\"conversation\":"@, (json_string(a.conversation@) + (",\"role\":"@ + (json_string(a.role@) + (",\"initial\":"@ + (json_string(a.initial@) + (",\"states\":"@ + (endpoint_states_json(a.states@) + ("}"@ + r1)))))))));
    lemma_assoc("{\"eve_endpoint\":"@, json_string(a.eve_endpoint@), (",\"conversation\":"@ + (json_string(a.conversation@) + (",\"role\":"@ + (json_string(a.role@) + (",\"initial\":"@ + (json_string(a.initial@) + (",\"states\":"@ + (endpoint_states_json(a.states@) + ("}"@ + r1))))))))));
    lemma_assoc(((((((((("{\"eve_endpoint\":"@ + json_string(b.eve_endpoint@)) + ",\"conversation\":"@) + json_string(b.conversation@)) + ",\"role\":"@) + json_string(b.role@)) + ",\"initial\":"@) + json_string(b.initial@)) + ",\"states\":"@) + endpoint_states_json(b.states@)), "}"@, r2);
    lemma_assoc((((((((("{\"eve_endpoint\":"@ + json_string(b.eve_endpoint@)) + ",\"conversation\":"@) + json_string(b.conversation@)) + ",\"role\":"@) + json_string(b.role@)) + ",\"initial\":"@) + json_string(b.initial@)) + ",\"states\":"@), endpoint_states_json(b.states@), ("}"@ + r2));
    lemma_assoc(((((((("{\"eve_endpoint\":"@ + json_string(b.eve_endpoint@)) + ",\"conversation\":"@) + json_string(b.conversation@)) + ",\"role\":"@) + json_string(b.role@)) + ",\"initial\":"@) + json_string(b.initial@)), ",\"states\":"@, (endpoint_states_json(b.states@) + ("}"@ + r2)));
    lemma_assoc((((((("{\"eve_endpoint\":"@ + json_string(b.eve_endpoint@)) + ",\"conversation\":"@) + json_string(b.conversation@)) + ",\"role\":"@) + json_string(b.role@)) + ",\"initial\":"@), json_string(b.initial@), (",\"states\":"@ + (endpoint_states_json(b.states@) + ("}"@ + r2))));
    lemma_assoc(((((("{\"eve_endpoint\":"@ + json_string(b.eve_endpoint@)) + ",\"conversation\":"@) + json_string(b.conversation@)) + ",\"role\":"@) + json_string(b.role@)), ",\"initial\":"@, (json_string(b.initial@) + (",\"states\":"@ + (endpoint_states_json(b.states@) + ("}"@ + r2)))));
    lemma_assoc((((("{\"eve_endpoint\":"@ + json_string(b.eve_endpoint@)) + ",\"conversation\":"@) + json_string(b.conversation@)) + ",\"role\":"@), json_string(b.role@), (",\"initial\":"@ + (json_string(b.initial@) + (",\"states\":"@ + (endpoint_states_json(b.states@) + ("}"@ + r2))))));
    lemma_assoc(((("{\"eve_endpoint\":"@ + json_string(b.eve_endpoint@)) + ",\"conversation\":"@) + json_string(b.conversation@)), ",\"role\":"@, (json_string(b.role@) + (",\"initial\":"@ + (json_string(b.initial@) + (",\"states\":"@ + (endpoint_states_json(b.states@) + ("}"@ + r2)))))));
    lemma_assoc((("{\"eve_endpoint\":"@ + json_string(b.eve_endpoint@)) + ",\"conversation\":"@), json_string(b.conversation@), (",\"role\":"@ + (json_string(b.role@) + (",\"initial\":"@ + (json_string(b.initial@) + (",\"states\":"@ + (endpoint_states_json(b.states@) + ("}"@ + r2))))))));
    lemma_assoc(("{\"eve_endpoint\":"@ + json_string(b.eve_endpoint@)), ",\"conversation\":"@, (json_string(b.conversation@) + (",\"role\":"@ + (json_string(b.role@) + (",\"initial\":"@ + (json_string(b.initial@) + (",\"states\":"@ + (endpoint_states_json(b.states@) + ("}"@ + r2)))))))));
    lemma_assoc("{\"eve_endpoint\":"@, json_string(b.eve_endpoint@), (",\"conversation\":"@ + (json_string(b.conversation@) + (",\"role\":"@ + (json_string(b.role@) + (",\"initial\":"@ + (json_string(b.initial@) + (",\"states\":"@ + (endpoint_states_json(b.states@) + ("}"@ + r2))))))))));
    lemma_split("{\"eve_endpoint\":"@, json_string(a.eve_endpoint@) + (",\"conversation\":"@ + (json_string(a.conversation@) + (",\"role\":"@ + (json_string(a.role@) + (",\"initial\":"@ + (json_string(a.initial@) + (",\"states\":"@ + (endpoint_states_json(a.states@) + ("}"@ + r1))))))))), "{\"eve_endpoint\":"@, json_string(b.eve_endpoint@) + (",\"conversation\":"@ + (json_string(b.conversation@) + (",\"role\":"@ + (json_string(b.role@) + (",\"initial\":"@ + (json_string(b.initial@) + (",\"states\":"@ + (endpoint_states_json(b.states@) + ("}"@ + r2))))))))));
    law_json_string_prefix_free(a.eve_endpoint@, (",\"conversation\":"@ + (json_string(a.conversation@) + (",\"role\":"@ + (json_string(a.role@) + (",\"initial\":"@ + (json_string(a.initial@) + (",\"states\":"@ + (endpoint_states_json(a.states@) + ("}"@ + r1))))))))), b.eve_endpoint@, (",\"conversation\":"@ + (json_string(b.conversation@) + (",\"role\":"@ + (json_string(b.role@) + (",\"initial\":"@ + (json_string(b.initial@) + (",\"states\":"@ + (endpoint_states_json(b.states@) + ("}"@ + r2))))))))));
    lemma_split(",\"conversation\":"@, json_string(a.conversation@) + (",\"role\":"@ + (json_string(a.role@) + (",\"initial\":"@ + (json_string(a.initial@) + (",\"states\":"@ + (endpoint_states_json(a.states@) + ("}"@ + r1))))))), ",\"conversation\":"@, json_string(b.conversation@) + (",\"role\":"@ + (json_string(b.role@) + (",\"initial\":"@ + (json_string(b.initial@) + (",\"states\":"@ + (endpoint_states_json(b.states@) + ("}"@ + r2))))))));
    law_json_string_prefix_free(a.conversation@, (",\"role\":"@ + (json_string(a.role@) + (",\"initial\":"@ + (json_string(a.initial@) + (",\"states\":"@ + (endpoint_states_json(a.states@) + ("}"@ + r1))))))), b.conversation@, (",\"role\":"@ + (json_string(b.role@) + (",\"initial\":"@ + (json_string(b.initial@) + (",\"states\":"@ + (endpoint_states_json(b.states@) + ("}"@ + r2))))))));
    lemma_split(",\"role\":"@, json_string(a.role@) + (",\"initial\":"@ + (json_string(a.initial@) + (",\"states\":"@ + (endpoint_states_json(a.states@) + ("}"@ + r1))))), ",\"role\":"@, json_string(b.role@) + (",\"initial\":"@ + (json_string(b.initial@) + (",\"states\":"@ + (endpoint_states_json(b.states@) + ("}"@ + r2))))));
    law_json_string_prefix_free(a.role@, (",\"initial\":"@ + (json_string(a.initial@) + (",\"states\":"@ + (endpoint_states_json(a.states@) + ("}"@ + r1))))), b.role@, (",\"initial\":"@ + (json_string(b.initial@) + (",\"states\":"@ + (endpoint_states_json(b.states@) + ("}"@ + r2))))));
    lemma_split(",\"initial\":"@, json_string(a.initial@) + (",\"states\":"@ + (endpoint_states_json(a.states@) + ("}"@ + r1))), ",\"initial\":"@, json_string(b.initial@) + (",\"states\":"@ + (endpoint_states_json(b.states@) + ("}"@ + r2))));
    law_json_string_prefix_free(a.initial@, (",\"states\":"@ + (endpoint_states_json(a.states@) + ("}"@ + r1))), b.initial@, (",\"states\":"@ + (endpoint_states_json(b.states@) + ("}"@ + r2))));
    lemma_split(",\"states\":"@, endpoint_states_json(a.states@) + ("}"@ + r1), ",\"states\":"@, endpoint_states_json(b.states@) + ("}"@ + r2));
    law_endpoint_states_json_prefix_free(a.states@, ("}"@ + r1), b.states@, ("}"@ + r2));
    lemma_split("}"@, r1, "}"@, r2);

}

/// The texts of two endpoints end where they end, and are equal exactly where the
/// endpoints agree in every field and state.
proof fn lemma_endpoint_delimited(a: Endpoint, b: Endpoint)
    ensures
        delimited(endpoint_json(a), endpoint_json(b)),
        endpoint_json(a).len() > 0,
        endpoint_json(a)[0] == '{',
        endpoint_json(a) == endpoint_json(b) ==> same_endpoint(a, b),
{
    assert forall|t1: Seq<char>, t2: Seq<char>| endpoint_json(a) + t1 == endpoint_json(b) + t2 implies endpoint_json(a)
        == endpoint_json(b) && t1 == t2 by {
        law_endpoint_json_prefix_free(a, t1, b, t2);
        assert((endpoint_json(a) + t1).len() == endpoint_json(a).len() + t1.len());
        assert((endpoint_json(b) + t2).len() == endpoint_json(b).len() + t2.len());
        lemma_split(endpoint_json(a), t1, endpoint_json(b), t2);
    }
    reveal_strlit("{\"eve_endpoint\":");
    assert(endpoint_json(a)[0] == "{\"eve_endpoint\":"@[0]);
    if endpoint_json(a) == endpoint_json(b) {
        assert(endpoint_json(a) + Seq::<char>::empty() =~= endpoint_json(a));
        assert(endpoint_json(b) + Seq::<char>::empty() =~= endpoint_json(b));
        law_endpoint_json_prefix_free(a, Seq::empty(), b, Seq::empty());
    }
}

/// Every endpoint agrees in every field and state with the one at the same position.
pub open spec fn same_endpoints(a: Seq<Arc<Endpoint>>, b: Seq<Arc<Endpoint>>) -> bool {
    &&& a.len() == b.len()
    &&& forall|i: int| 0 <= i < a.len() ==> same_endpoint(*#[trigger] a[i], *b[i])
}

/// A plan's JSON array of endpoints ends where it ends and determines the endpoints.
pub proof fn law_plan_endpoints_prefix_free(a: Seq<Arc<Endpoint>>, r1: Seq<char>, b: Seq<Arc<Endpoint>>, r2: Seq<char>)
    requires
        json_array(plan_endpoints_items(a)) + r1 == json_array(plan_endpoints_items(b)) + r2,
    ensures
        same_endpoints(a, b),
        r1 == r2,
{
    let xs = plan_endpoints_items(a);
    let ys = plan_endpoints_items(b);
    assert forall|i: int| 0 <= i < xs.len() implies (#[trigger] xs[i]).len() > 0 && xs[i][0] != ']' by {
        lemma_endpoint_delimited(*a[i], *a[i]);
    }
    assert forall|j: int| 0 <= j < ys.len() implies (#[trigger] ys[j]).len() > 0 && ys[j][0] != ']' by {
        lemma_endpoint_delimited(*b[j], *b[j]);
    }
    assert forall|i: int, j: int| 0 <= i < xs.len() && 0 <= j < ys.len() implies delimited(#[trigger] xs[i], #[trigger] ys[j]) by {
        lemma_endpoint_delimited(*a[i], *b[j]);
    }
    law_json_array_prefix_free(xs, r1, ys, r2);
    assert forall|i: int| 0 <= i < a.len() implies same_endpoint(*#[trigger] a[i], *b[i]) by {
        assert(xs[i] == ys[i]);
        lemma_endpoint_delimited(*a[i], *b[i]);
    }
}

/// The semantic form of a plan determines the plan but for its own identity: two plans
/// with the same semantic text have the same format, conversation, conversation identity
/// and wire dictionary, and endpoints that agree position by position in every field
/// and state, each state's targets included.
#[verifier::spinoff_prover]
#[verifier::rlimit(100)]
pub proof fn law_semantic_plan_json_determines_the_plan(a: EvePlan, b: EvePlan)
    requires
        semantic_plan_json(a) == semantic_plan_json(b),
    ensures
        a.eve_plan@ == b.eve_plan@,
        a.conversation@ == b.conversation@,
        a.conversation_identity@ == b.conversation_identity@,
        same_endpoints(a.endpoints@, b.endpoints@),
        wire_member_json(a.wire) == wire_member_json(b.wire),
        same_wire_member(a.wire, b.wire),
{
    let r1 = Seq::<char>::empty();
    let r2 = Seq::<char>::empty();
    lemma_assoc((((((("{\"eve_plan\":"@ + json_string(a.eve_plan@)) + ",\"conversation\":"@) + json_string(a.conversation@)) + ",\"conversation_identity\":"@) + json_string(a.conversation_identity@)) + ",\"endpoints\":"@) + json_array(plan_endpoints_items(a.endpoints@)), wire_member_json(a.wire), "}"@);
    lemma_assoc((((((("{\"eve_plan\":"@ + json_string(b.eve_plan@)) + ",\"conversation\":"@) + json_string(b.conversation@)) + ",\"conversation_identity\":"@) + json_string(b.conversation_identity@)) + ",\"endpoints\":"@) + json_array(plan_endpoints_items(b.endpoints@)), wire_member_json(b.wire), "}"@);
    assert(semantic_plan_json(a) + r1 =~= semantic_plan_json(a));
    assert(semantic_plan_json(b) + r2 =~= semantic_plan_json(b));
    lemma_assoc(((((((("{\"eve_plan\":"@ + json_string(a.eve_plan@)) + ",\"conversation\":"@) + json_string(a.conversation@)) + ",\"conversation_identity\":"@) + json_string(a.conversation_identity@)) + ",\"endpoints\":"@) + json_array(plan_endpoints_items(a.endpoints@))), (wire_member_json(a.wire) + "}"@), r1);
    lemma_assoc((((((("{\"eve_plan\":"@ + json_string(a.eve_plan@)) + ",\"conversation\":"@) + json_string(a.conversation@)) + ",\"conversation_identity\":"@) + json_string(a.conversation_identity@)) + ",\"endpoints\":"@), json_array(plan_endpoints_items(a.endpoints@)), ((wire_member_json(a.wire) + "}"@) + r1));
    lemma_assoc(((((("{\"eve_plan\":"@ + json_string(a.eve_plan@)) + ",\"conversation\":"@) + json_string(a.conversation@)) + ",\"conversation_identity\":"@) + json_string(a.conversation_identity@)), ",\"endpoints\":"@, (json_array(plan_endpoints_items(a.endpoints@)) + ((wire_member_json(a.wire) + "}"@) + r1)));
    lemma_assoc((((("{\"eve_plan\":"@ + json_string(a.eve_plan@)) + ",\"conversation\":"@) + json_string(a.conversation@)) + ",\"conversation_identity\":"@), json_string(a.conversation_identity@), (",\"endpoints\":"@ + (json_array(plan_endpoints_items(a.endpoints@)) + ((wire_member_json(a.wire) + "}"@) + r1))));
    lemma_assoc(((("{\"eve_plan\":"@ + json_string(a.eve_plan@)) + ",\"conversation\":"@) + json_string(a.conversation@)), ",\"conversation_identity\":"@, (json_string(a.conversation_identity@) + (",\"endpoints\":"@ + (json_array(plan_endpoints_items(a.endpoints@)) + ((wire_member_json(a.wire) + "}"@) + r1)))));
    lemma_assoc((("{\"eve_plan\":"@ + json_string(a.eve_plan@)) + ",\"conversation\":"@), json_string(a.conversation@), (",\"conversation_identity\":"@ + (json_string(a.conversation_identity@) + (",\"endpoints\":"@ + (json_array(plan_endpoints_items(a.endpoints@)) + ((wire_member_json(a.wire) + "}"@) + r1))))));
    lemma_assoc(("{\"eve_plan\":"@ + json_string(a.eve_plan@)), ",\"conversation\":"@, (json_string(a.conversation@) + (",\"conversation_identity\":"@ + (json_string(a.conversation_identity@) + (",\"endpoints\":"@ + (json_array(plan_endpoints_items(a.endpoints@)) + ((wire_member_json(a.wire) + "}"@) + r1)))))));
    lemma_assoc("{\"eve_plan\":"@, json_string(a.eve_plan@), (",\"conversation\":"@ + (json_string(a.conversation@) + (",\"conversation_identity\":"@ + (json_string(a.conversation_identity@) + (",\"endpoints\":"@ + (json_array(plan_endpoints_items(a.endpoints@)) + ((wire_member_json(a.wire) + "}"@) + r1))))))));
    lemma_assoc(((((((("{\"eve_plan\":"@ + json_string(b.eve_plan@)) + ",\"conversation\":"@) + json_string(b.conversation@)) + ",\"conversation_identity\":"@) + json_string(b.conversation_identity@)) + ",\"endpoints\":"@) + json_array(plan_endpoints_items(b.endpoints@))), (wire_member_json(b.wire) + "}"@), r2);
    lemma_assoc((((((("{\"eve_plan\":"@ + json_string(b.eve_plan@)) + ",\"conversation\":"@) + json_string(b.conversation@)) + ",\"conversation_identity\":"@) + json_string(b.conversation_identity@)) + ",\"endpoints\":"@), json_array(plan_endpoints_items(b.endpoints@)), ((wire_member_json(b.wire) + "}"@) + r2));
    lemma_assoc(((((("{\"eve_plan\":"@ + json_string(b.eve_plan@)) + ",\"conversation\":"@) + json_string(b.conversation@)) + ",\"conversation_identity\":"@) + json_string(b.conversation_identity@)), ",\"endpoints\":"@, (json_array(plan_endpoints_items(b.endpoints@)) + ((wire_member_json(b.wire) + "}"@) + r2)));
    lemma_assoc((((("{\"eve_plan\":"@ + json_string(b.eve_plan@)) + ",\"conversation\":"@) + json_string(b.conversation@)) + ",\"conversation_identity\":"@), json_string(b.conversation_identity@), (",\"endpoints\":"@ + (json_array(plan_endpoints_items(b.endpoints@)) + ((wire_member_json(b.wire) + "}"@) + r2))));
    lemma_assoc(((("{\"eve_plan\":"@ + json_string(b.eve_plan@)) + ",\"conversation\":"@) + json_string(b.conversation@)), ",\"conversation_identity\":"@, (json_string(b.conversation_identity@) + (",\"endpoints\":"@ + (json_array(plan_endpoints_items(b.endpoints@)) + ((wire_member_json(b.wire) + "}"@) + r2)))));
    lemma_assoc((("{\"eve_plan\":"@ + json_string(b.eve_plan@)) + ",\"conversation\":"@), json_string(b.conversation@), (",\"conversation_identity\":"@ + (json_string(b.conversation_identity@) + (",\"endpoints\":"@ + (json_array(plan_endpoints_items(b.endpoints@)) + ((wire_member_json(b.wire) + "}"@) + r2))))));
    lemma_assoc(("{\"eve_plan\":"@ + json_string(b.eve_plan@)), ",\"conversation\":"@, (json_string(b.conversation@) + (",\"conversation_identity\":"@ + (json_string(b.conversation_identity@) + (",\"endpoints\":"@ + (json_array(plan_endpoints_items(b.endpoints@)) + ((wire_member_json(b.wire) + "}"@) + r2)))))));
    lemma_assoc("{\"eve_plan\":"@, json_string(b.eve_plan@), (",\"conversation\":"@ + (json_string(b.conversation@) + (",\"conversation_identity\":"@ + (json_string(b.conversation_identity@) + (",\"endpoints\":"@ + (json_array(plan_endpoints_items(b.endpoints@)) + ((wire_member_json(b.wire) + "}"@) + r2))))))));
    lemma_split("{\"eve_plan\":"@, json_string(a.eve_plan@) + (",\"conversation\":"@ + (json_string(a.conversation@) + (",\"conversation_identity\":"@ + (json_string(a.conversation_identity@) + (",\"endpoints\":"@ + (json_array(plan_endpoints_items(a.endpoints@)) + ((wire_member_json(a.wire) + "}"@) + r1))))))), "{\"eve_plan\":"@, json_string(b.eve_plan@) + (",\"conversation\":"@ + (json_string(b.conversation@) + (",\"conversation_identity\":"@ + (json_string(b.conversation_identity@) + (",\"endpoints\":"@ + (json_array(plan_endpoints_items(b.endpoints@)) + ((wire_member_json(b.wire) + "}"@) + r2))))))));
    law_json_string_prefix_free(a.eve_plan@, (",\"conversation\":"@ + (json_string(a.conversation@) + (",\"conversation_identity\":"@ + (json_string(a.conversation_identity@) + (",\"endpoints\":"@ + (json_array(plan_endpoints_items(a.endpoints@)) + ((wire_member_json(a.wire) + "}"@) + r1))))))), b.eve_plan@, (",\"conversation\":"@ + (json_string(b.conversation@) + (",\"conversation_identity\":"@ + (json_string(b.conversation_identity@) + (",\"endpoints\":"@ + (json_array(plan_endpoints_items(b.endpoints@)) + ((wire_member_json(b.wire) + "}"@) + r2))))))));
    lemma_split(",\"conversation\":"@, json_string(a.conversation@) + (",\"conversation_identity\":"@ + (json_string(a.conversation_identity@) + (",\"endpoints\":"@ + (json_array(plan_endpoints_items(a.endpoints@)) + ((wire_member_json(a.wire) + "}"@) + r1))))), ",\"conversation\":"@, json_string(b.conversation@) + (",\"conversation_identity\":"@ + (json_string(b.conversation_identity@) + (",\"endpoints\":"@ + (json_array(plan_endpoints_items(b.endpoints@)) + ((wire_member_json(b.wire) + "}"@) + r2))))));
    law_json_string_prefix_free(a.conversation@, (",\"conversation_identity\":"@ + (json_string(a.conversation_identity@) + (",\"endpoints\":"@ + (json_array(plan_endpoints_items(a.endpoints@)) + ((wire_member_json(a.wire) + "}"@) + r1))))), b.conversation@, (",\"conversation_identity\":"@ + (json_string(b.conversation_identity@) + (",\"endpoints\":"@ + (json_array(plan_endpoints_items(b.endpoints@)) + ((wire_member_json(b.wire) + "}"@) + r2))))));
    lemma_split(",\"conversation_identity\":"@, json_string(a.conversation_identity@) + (",\"endpoints\":"@ + (json_array(plan_endpoints_items(a.endpoints@)) + ((wire_member_json(a.wire) + "}"@) + r1))), ",\"conversation_identity\":"@, json_string(b.conversation_identity@) + (",\"endpoints\":"@ + (json_array(plan_endpoints_items(b.endpoints@)) + ((wire_member_json(b.wire) + "}"@) + r2))));
    law_json_string_prefix_free(a.conversation_identity@, (",\"endpoints\":"@ + (json_array(plan_endpoints_items(a.endpoints@)) + ((wire_member_json(a.wire) + "}"@) + r1))), b.conversation_identity@, (",\"endpoints\":"@ + (json_array(plan_endpoints_items(b.endpoints@)) + ((wire_member_json(b.wire) + "}"@) + r2))));
    lemma_split(",\"endpoints\":"@, json_array(plan_endpoints_items(a.endpoints@)) + ((wire_member_json(a.wire) + "}"@) + r1), ",\"endpoints\":"@, json_array(plan_endpoints_items(b.endpoints@)) + ((wire_member_json(b.wire) + "}"@) + r2));
    law_plan_endpoints_prefix_free(a.endpoints@, ((wire_member_json(a.wire) + "}"@) + r1), b.endpoints@, ((wire_member_json(b.wire) + "}"@) + r2));

    lemma_split(wire_member_json(a.wire), "}"@ + r1, wire_member_json(b.wire), "}"@ + r2);
    law_wire_member_json_injective(a.wire, b.wire);
}


/// Equal texts leave equal rests.
proof fn lemma_same_text_prefix(x: Seq<char>, r1: Seq<char>, y: Seq<char>, r2: Seq<char>)
    requires
        x + r1 == y + r2,
        x == y,
    ensures
        r1 == r2,
{
    lemma_split(x, r1, y, r2);
}

/// `true` and `false` end where they end.
pub proof fn law_json_bool_prefix_free(a: bool, r1: Seq<char>, b: bool, r2: Seq<char>)
    requires
        json_bool(a) + r1 == json_bool(b) + r2,
    ensures
        a == b,
        r1 == r2,
{
    reveal_strlit("true");
    reveal_strlit("false");
    assert((json_bool(a) + r1)[0] == json_bool(a)[0]);
    assert((json_bool(b) + r2)[0] == json_bool(b)[0]);
    lemma_split(json_bool(a), r1, json_bool(b), r2);
}

/// Two string literals end where they end.
proof fn lemma_string_delimited(a: Seq<char>, b: Seq<char>)
    ensures
        delimited(json_string(a), json_string(b)),
        json_string(a).len() > 0,
        json_string(a)[0] == '"',
        json_string(a) == json_string(b) ==> a == b,
{
    assert forall|t1: Seq<char>, t2: Seq<char>| json_string(a) + t1 == json_string(b) + t2 implies json_string(a)
        == json_string(b) && t1 == t2 by {
        law_json_string_prefix_free(a, t1, b, t2);
        assert((json_string(a) + t1).len() == json_string(a).len() + t1.len());
        assert((json_string(b) + t2).len() == json_string(b).len() + t2.len());
        lemma_split(json_string(a), t1, json_string(b), t2);
    }
    if json_string(a) == json_string(b) {
        assert(json_string(a) + Seq::<char>::empty() =~= json_string(a));
        assert(json_string(b) + Seq::<char>::empty() =~= json_string(b));
        law_json_string_prefix_free(a, Seq::empty(), b, Seq::empty());
    }
}

/// A JSON array of strings ends where it ends and determines the strings.
pub proof fn law_json_string_array_prefix_free(a: Seq<Seq<char>>, r1: Seq<char>, b: Seq<Seq<char>>, r2: Seq<char>)
    requires
        json_string_array(a) + r1 == json_string_array(b) + r2,
    ensures
        a == b,
        r1 == r2,
{
    let xs = a.map_values(|s: Seq<char>| json_string(s));
    let ys = b.map_values(|s: Seq<char>| json_string(s));
    assert forall|i: int| 0 <= i < xs.len() implies (#[trigger] xs[i]).len() > 0 && xs[i][0] != ']' by {
        lemma_string_delimited(a[i], a[i]);
    }
    assert forall|j: int| 0 <= j < ys.len() implies (#[trigger] ys[j]).len() > 0 && ys[j][0] != ']' by {
        lemma_string_delimited(b[j], b[j]);
    }
    assert forall|i: int, j: int| 0 <= i < xs.len() && 0 <= j < ys.len() implies delimited(#[trigger] xs[i], #[trigger] ys[j]) by {
        lemma_string_delimited(a[i], b[j]);
    }
    law_json_array_prefix_free(xs, r1, ys, r2);
    assert forall|i: int| 0 <= i < a.len() implies #[trigger] a[i] == b[i] by {
        assert(xs[i] == ys[i]);
        lemma_string_delimited(a[i], b[i]);
    }
    assert(a =~= b);
}

/// `a` and `b` have the same id and version text.
pub open spec fn same_module(a: Module, b: Module) -> bool {
    a.id@ == b.id@ && opt_text(a.semantic_version) == opt_text(b.semantic_version)
}

/// A module's JSON text ends where it ends and determines the module.
pub proof fn law_module_json_prefix_free(a: Module, r1: Seq<char>, b: Module, r2: Seq<char>)
    requires
        module_json(a) + r1 == module_json(b) + r2,
    ensures
        same_module(a, b),
        r1 == r2,
{
    lemma_assoc(((("{\"id\":"@ + json_string(a.id@)) + ",\"semantic_version\":"@) + json_opt_string(opt_text(a.semantic_version))), "}"@, r1);
    lemma_assoc((("{\"id\":"@ + json_string(a.id@)) + ",\"semantic_version\":"@), json_opt_string(opt_text(a.semantic_version)), ("}"@ + r1));
    lemma_assoc(("{\"id\":"@ + json_string(a.id@)), ",\"semantic_version\":"@, (json_opt_string(opt_text(a.semantic_version)) + ("}"@ + r1)));
    lemma_assoc("{\"id\":"@, json_string(a.id@), (",\"semantic_version\":"@ + (json_opt_string(opt_text(a.semantic_version)) + ("}"@ + r1))));
    lemma_assoc(((("{\"id\":"@ + json_string(b.id@)) + ",\"semantic_version\":"@) + json_opt_string(opt_text(b.semantic_version))), "}"@, r2);
    lemma_assoc((("{\"id\":"@ + json_string(b.id@)) + ",\"semantic_version\":"@), json_opt_string(opt_text(b.semantic_version)), ("}"@ + r2));
    lemma_assoc(("{\"id\":"@ + json_string(b.id@)), ",\"semantic_version\":"@, (json_opt_string(opt_text(b.semantic_version)) + ("}"@ + r2)));
    lemma_assoc("{\"id\":"@, json_string(b.id@), (",\"semantic_version\":"@ + (json_opt_string(opt_text(b.semantic_version)) + ("}"@ + r2))));
    lemma_split("{\"id\":"@, json_string(a.id@) + (",\"semantic_version\":"@ + (json_opt_string(opt_text(a.semantic_version)) + ("}"@ + r1))), "{\"id\":"@, json_string(b.id@) + (",\"semantic_version\":"@ + (json_opt_string(opt_text(b.semantic_version)) + ("}"@ + r2))));
    law_json_string_prefix_free(a.id@, (",\"semantic_version\":"@ + (json_opt_string(opt_text(a.semantic_version)) + ("}"@ + r1))), b.id@, (",\"semantic_version\":"@ + (json_opt_string(opt_text(b.semantic_version)) + ("}"@ + r2))));
    lemma_split(",\"semantic_version\":"@, json_opt_string(opt_text(a.semantic_version)) + ("}"@ + r1), ",\"semantic_version\":"@, json_opt_string(opt_text(b.semantic_version)) + ("}"@ + r2));
    law_json_opt_string_prefix_free(opt_text(a.semantic_version), ("}"@ + r1), opt_text(b.semantic_version), ("}"@ + r2));
    lemma_split("}"@, r1, "}"@, r2);

}

/// `a` and `b` have the same id, placement and capabilities text.
pub open spec fn same_role(a: Role, b: Role) -> bool {
    &&& a.id@ == b.id@
    &&& string_views_of(a.placement@) == string_views_of(b.placement@)
    &&& string_views_of(a.capabilities@) == string_views_of(b.capabilities@)
}

/// A role's JSON text ends where it ends and determines the role.
#[verifier::spinoff_prover]
pub proof fn law_role_json_prefix_free(a: Role, r1: Seq<char>, b: Role, r2: Seq<char>)
    requires
        role_json(a) + r1 == role_json(b) + r2,
    ensures
        same_role(a, b),
        r1 == r2,
{
    lemma_assoc(((((("{\"id\":"@ + json_string(a.id@)) + ",\"placement\":"@) + json_string_array(string_views_of(a.placement@))) + ",\"capabilities\":"@) + json_string_array(string_views_of(a.capabilities@))), "}"@, r1);
    lemma_assoc((((("{\"id\":"@ + json_string(a.id@)) + ",\"placement\":"@) + json_string_array(string_views_of(a.placement@))) + ",\"capabilities\":"@), json_string_array(string_views_of(a.capabilities@)), ("}"@ + r1));
    lemma_assoc(((("{\"id\":"@ + json_string(a.id@)) + ",\"placement\":"@) + json_string_array(string_views_of(a.placement@))), ",\"capabilities\":"@, (json_string_array(string_views_of(a.capabilities@)) + ("}"@ + r1)));
    lemma_assoc((("{\"id\":"@ + json_string(a.id@)) + ",\"placement\":"@), json_string_array(string_views_of(a.placement@)), (",\"capabilities\":"@ + (json_string_array(string_views_of(a.capabilities@)) + ("}"@ + r1))));
    lemma_assoc(("{\"id\":"@ + json_string(a.id@)), ",\"placement\":"@, (json_string_array(string_views_of(a.placement@)) + (",\"capabilities\":"@ + (json_string_array(string_views_of(a.capabilities@)) + ("}"@ + r1)))));
    lemma_assoc("{\"id\":"@, json_string(a.id@), (",\"placement\":"@ + (json_string_array(string_views_of(a.placement@)) + (",\"capabilities\":"@ + (json_string_array(string_views_of(a.capabilities@)) + ("}"@ + r1))))));
    lemma_assoc(((((("{\"id\":"@ + json_string(b.id@)) + ",\"placement\":"@) + json_string_array(string_views_of(b.placement@))) + ",\"capabilities\":"@) + json_string_array(string_views_of(b.capabilities@))), "}"@, r2);
    lemma_assoc((((("{\"id\":"@ + json_string(b.id@)) + ",\"placement\":"@) + json_string_array(string_views_of(b.placement@))) + ",\"capabilities\":"@), json_string_array(string_views_of(b.capabilities@)), ("}"@ + r2));
    lemma_assoc(((("{\"id\":"@ + json_string(b.id@)) + ",\"placement\":"@) + json_string_array(string_views_of(b.placement@))), ",\"capabilities\":"@, (json_string_array(string_views_of(b.capabilities@)) + ("}"@ + r2)));
    lemma_assoc((("{\"id\":"@ + json_string(b.id@)) + ",\"placement\":"@), json_string_array(string_views_of(b.placement@)), (",\"capabilities\":"@ + (json_string_array(string_views_of(b.capabilities@)) + ("}"@ + r2))));
    lemma_assoc(("{\"id\":"@ + json_string(b.id@)), ",\"placement\":"@, (json_string_array(string_views_of(b.placement@)) + (",\"capabilities\":"@ + (json_string_array(string_views_of(b.capabilities@)) + ("}"@ + r2)))));
    lemma_assoc("{\"id\":"@, json_string(b.id@), (",\"placement\":"@ + (json_string_array(string_views_of(b.placement@)) + (",\"capabilities\":"@ + (json_string_array(string_views_of(b.capabilities@)) + ("}"@ + r2))))));
    lemma_split("{\"id\":"@, json_string(a.id@) + (",\"placement\":"@ + (json_string_array(string_views_of(a.placement@)) + (",\"capabilities\":"@ + (json_string_array(string_views_of(a.capabilities@)) + ("}"@ + r1))))), "{\"id\":"@, json_string(b.id@) + (",\"placement\":"@ + (json_string_array(string_views_of(b.placement@)) + (",\"capabilities\":"@ + (json_string_array(string_views_of(b.capabilities@)) + ("}"@ + r2))))));
    law_json_string_prefix_free(a.id@, (",\"placement\":"@ + (json_string_array(string_views_of(a.placement@)) + (",\"capabilities\":"@ + (json_string_array(string_views_of(a.capabilities@)) + ("}"@ + r1))))), b.id@, (",\"placement\":"@ + (json_string_array(string_views_of(b.placement@)) + (",\"capabilities\":"@ + (json_string_array(string_views_of(b.capabilities@)) + ("}"@ + r2))))));
    lemma_split(",\"placement\":"@, json_string_array(string_views_of(a.placement@)) + (",\"capabilities\":"@ + (json_string_array(string_views_of(a.capabilities@)) + ("}"@ + r1))), ",\"placement\":"@, json_string_array(string_views_of(b.placement@)) + (",\"capabilities\":"@ + (json_string_array(string_views_of(b.capabilities@)) + ("}"@ + r2))));
    law_json_string_array_prefix_free(string_views_of(a.placement@), (",\"capabilities\":"@ + (json_string_array(string_views_of(a.capabilities@)) + ("}"@ + r1))), string_views_of(b.placement@), (",\"capabilities\":"@ + (json_string_array(string_views_of(b.capabilities@)) + ("}"@ + r2))));
    lemma_split(",\"capabilities\":"@, json_string_array(string_views_of(a.capabilities@)) + ("}"@ + r1), ",\"capabilities\":"@, json_string_array(string_views_of(b.capabilities@)) + ("}"@ + r2));
    law_json_string_array_prefix_free(string_views_of(a.capabilities@), ("}"@ + r1), string_views_of(b.capabilities@), ("}"@ + r2));
    lemma_split("}"@, r1, "}"@, r2);

}

/// `a` and `b` have the same id, description text and retry flag.
pub open spec fn same_failure(a: FailureDefinition, b: FailureDefinition) -> bool {
    &&& a.id@ == b.id@
    &&& opt_text(a.description) == opt_text(b.description)
    &&& a.retryable == b.retryable
}

/// A failure definition's JSON text ends where it ends and determines the definition.
#[verifier::spinoff_prover]
pub proof fn law_failure_json_prefix_free(a: FailureDefinition, r1: Seq<char>, b: FailureDefinition, r2: Seq<char>)
    requires
        failure_json(a) + r1 == failure_json(b) + r2,
    ensures
        same_failure(a, b),
        r1 == r2,
{
    lemma_assoc(((((("{\"id\":"@ + json_string(a.id@)) + ",\"description\":"@) + json_opt_string(opt_text(a.description))) + ",\"retryable\":"@) + json_bool(a.retryable)), "}"@, r1);
    lemma_assoc((((("{\"id\":"@ + json_string(a.id@)) + ",\"description\":"@) + json_opt_string(opt_text(a.description))) + ",\"retryable\":"@), json_bool(a.retryable), ("}"@ + r1));
    lemma_assoc(((("{\"id\":"@ + json_string(a.id@)) + ",\"description\":"@) + json_opt_string(opt_text(a.description))), ",\"retryable\":"@, (json_bool(a.retryable) + ("}"@ + r1)));
    lemma_assoc((("{\"id\":"@ + json_string(a.id@)) + ",\"description\":"@), json_opt_string(opt_text(a.description)), (",\"retryable\":"@ + (json_bool(a.retryable) + ("}"@ + r1))));
    lemma_assoc(("{\"id\":"@ + json_string(a.id@)), ",\"description\":"@, (json_opt_string(opt_text(a.description)) + (",\"retryable\":"@ + (json_bool(a.retryable) + ("}"@ + r1)))));
    lemma_assoc("{\"id\":"@, json_string(a.id@), (",\"description\":"@ + (json_opt_string(opt_text(a.description)) + (",\"retryable\":"@ + (json_bool(a.retryable) + ("}"@ + r1))))));
    lemma_assoc(((((("{\"id\":"@ + json_string(b.id@)) + ",\"description\":"@) + json_opt_string(opt_text(b.description))) + ",\"retryable\":"@) + json_bool(b.retryable)), "}"@, r2);
    lemma_assoc((((("{\"id\":"@ + json_string(b.id@)) + ",\"description\":"@) + json_opt_string(opt_text(b.description))) + ",\"retryable\":"@), json_bool(b.retryable), ("}"@ + r2));
    lemma_assoc(((("{\"id\":"@ + json_string(b.id@)) + ",\"description\":"@) + json_opt_string(opt_text(b.description))), ",\"retryable\":"@, (json_bool(b.retryable) + ("}"@ + r2)));
    lemma_assoc((("{\"id\":"@ + json_string(b.id@)) + ",\"description\":"@), json_opt_string(opt_text(b.description)), (",\"retryable\":"@ + (json_bool(b.retryable) + ("}"@ + r2))));
    lemma_assoc(("{\"id\":"@ + json_string(b.id@)), ",\"description\":"@, (json_opt_string(opt_text(b.description)) + (",\"retryable\":"@ + (json_bool(b.retryable) + ("}"@ + r2)))));
    lemma_assoc("{\"id\":"@, json_string(b.id@), (",\"description\":"@ + (json_opt_string(opt_text(b.description)) + (",\"retryable\":"@ + (json_bool(b.retryable) + ("}"@ + r2))))));
    lemma_split("{\"id\":"@, json_string(a.id@) + (",\"description\":"@ + (json_opt_string(opt_text(a.description)) + (",\"retryable\":"@ + (json_bool(a.retryable) + ("}"@ + r1))))), "{\"id\":"@, json_string(b.id@) + (",\"description\":"@ + (json_opt_string(opt_text(b.description)) + (",\"retryable\":"@ + (json_bool(b.retryable) + ("}"@ + r2))))));
    law_json_string_prefix_free(a.id@, (",\"description\":"@ + (json_opt_string(opt_text(a.description)) + (",\"retryable\":"@ + (json_bool(a.retryable) + ("}"@ + r1))))), b.id@, (",\"description\":"@ + (json_opt_string(opt_text(b.description)) + (",\"retryable\":"@ + (json_bool(b.retryable) + ("}"@ + r2))))));
    lemma_split(",\"description\":"@, json_opt_string(opt_text(a.description)) + (",\"retryable\":"@ + (json_bool(a.retryable) + ("}"@ + r1))), ",\"description\":"@, json_opt_string(opt_text(b.description)) + (",\"retryable\":"@ + (json_bool(b.retryable) + ("}"@ + r2))));
    law_json_opt_string_prefix_free(opt_text(a.description), (",\"retryable\":"@ + (json_bool(a.retryable) + ("}"@ + r1))), opt_text(b.description), (",\"retryable\":"@ + (json_bool(b.retryable) + ("}"@ + r2))));
    lemma_split(",\"retryable\":"@, json_bool(a.retryable) + ("}"@ + r1), ",\"retryable\":"@, json_bool(b.retryable) + ("}"@ + r2));
    law_json_bool_prefix_free(a.retryable, ("}"@ + r1), b.retryable, ("}"@ + r2));
    lemma_split("}"@, r1, "}"@, r2);

}

/// Every item agrees with the one at the same position.
pub open spec fn same_roles(a: Seq<Role>, b: Seq<Role>) -> bool {
    &&& a.len() == b.len()
    &&& forall|i: int| 0 <= i < a.len() ==> same_role(#[trigger] a[i], b[i])
}

/// Two item texts end where they end, open an object, and are equal only for agreeing
/// items.
proof fn lemma_role_delimited(a: Role, b: Role)
    ensures
        delimited(role_json(a), role_json(b)),
        role_json(a).len() > 0,
        role_json(a)[0] == '{',
        role_json(a) == role_json(b) ==> same_role(a, b),
{
    assert forall|t1: Seq<char>, t2: Seq<char>| role_json(a) + t1 == role_json(b) + t2 implies role_json(a) == role_json(b) && t1 == t2 by {
        law_role_json_prefix_free(a, t1, b, t2);
        assert((role_json(a) + t1).len() == role_json(a).len() + t1.len());
        assert((role_json(b) + t2).len() == role_json(b).len() + t2.len());
        lemma_split(role_json(a), t1, role_json(b), t2);
    }
    reveal_strlit("{\"id\":");
    assert(role_json(a)[0] == "{\"id\":"@[0]);
    if role_json(a) == role_json(b) {
        assert(role_json(a) + Seq::<char>::empty() =~= role_json(a));
        assert(role_json(b) + Seq::<char>::empty() =~= role_json(b));
        law_role_json_prefix_free(a, Seq::empty(), b, Seq::empty());
    }
}

/// A role_json array of these items ends where it ends and determines the items.
pub proof fn law_roles_json_prefix_free(a: Seq<Role>, r1: Seq<char>, b: Seq<Role>, r2: Seq<char>)
    requires
        roles_json(a) + r1 == roles_json(b) + r2,
    ensures
        same_roles(a, b),
        r1 == r2,
{
    let xs = roles_items(a);
    let ys = roles_items(b);
    assert forall|i: int| 0 <= i < xs.len() implies (#[trigger] xs[i]).len() > 0 && xs[i][0] != ']' by {
        lemma_role_delimited(a[i], a[i]);
    }
    assert forall|j: int| 0 <= j < ys.len() implies (#[trigger] ys[j]).len() > 0 && ys[j][0] != ']' by {
        lemma_role_delimited(b[j], b[j]);
    }
    assert forall|i: int, j: int| 0 <= i < xs.len() && 0 <= j < ys.len() implies delimited(#[trigger] xs[i], #[trigger] ys[j]) by {
        lemma_role_delimited(a[i], b[j]);
    }
    law_json_array_prefix_free(xs, r1, ys, r2);
    assert forall|i: int| 0 <= i < a.len() implies same_role(#[trigger] a[i], b[i]) by {
        assert(xs[i] == ys[i]);
        lemma_role_delimited(a[i], b[i]);
    }
}

/// Every item agrees with the one at the same position.
pub open spec fn same_failures(a: Seq<FailureDefinition>, b: Seq<FailureDefinition>) -> bool {
    &&& a.len() == b.len()
    &&& forall|i: int| 0 <= i < a.len() ==> same_failure(#[trigger] a[i], b[i])
}

/// Two item texts end where they end, open an object, and are equal only for agreeing
/// items.
proof fn lemma_failure_delimited(a: FailureDefinition, b: FailureDefinition)
    ensures
        delimited(failure_json(a), failure_json(b)),
        failure_json(a).len() > 0,
        failure_json(a)[0] == '{',
        failure_json(a) == failure_json(b) ==> same_failure(a, b),
{
    assert forall|t1: Seq<char>, t2: Seq<char>| failure_json(a) + t1 == failure_json(b) + t2 implies failure_json(a) == failure_json(b) && t1 == t2 by {
        law_failure_json_prefix_free(a, t1, b, t2);
        assert((failure_json(a) + t1).len() == failure_json(a).len() + t1.len());
        assert((failure_json(b) + t2).len() == failure_json(b).len() + t2.len());
        lemma_split(failure_json(a), t1, failure_json(b), t2);
    }
    reveal_strlit("{\"id\":");
    assert(failure_json(a)[0] == "{\"id\":"@[0]);
    if failure_json(a) == failure_json(b) {
        assert(failure_json(a) + Seq::<char>::empty() =~= failure_json(a));
        assert(failure_json(b) + Seq::<char>::empty() =~= failure_json(b));
        law_failure_json_prefix_free(a, Seq::empty(), b, Seq::empty());
    }
}

/// A failure_json array of these items ends where it ends and determines the items.
pub proof fn law_failures_json_prefix_free(a: Seq<FailureDefinition>, r1: Seq<char>, b: Seq<FailureDefinition>, r2: Seq<char>)
    requires
        failures_json(a) + r1 == failures_json(b) + r2,
    ensures
        same_failures(a, b),
        r1 == r2,
{
    let xs = failures_items(a);
    let ys = failures_items(b);
    assert forall|i: int| 0 <= i < xs.len() implies (#[trigger] xs[i]).len() > 0 && xs[i][0] != ']' by {
        lemma_failure_delimited(a[i], a[i]);
    }
    assert forall|j: int| 0 <= j < ys.len() implies (#[trigger] ys[j]).len() > 0 && ys[j][0] != ']' by {
        lemma_failure_delimited(b[j], b[j]);
    }
    assert forall|i: int, j: int| 0 <= i < xs.len() && 0 <= j < ys.len() implies delimited(#[trigger] xs[i], #[trigger] ys[j]) by {
        lemma_failure_delimited(a[i], b[j]);
    }
    law_json_array_prefix_free(xs, r1, ys, r2);
    assert forall|i: int| 0 <= i < a.len() implies same_failure(#[trigger] a[i], b[i]) by {
        assert(xs[i] == ys[i]);
        lemma_failure_delimited(a[i], b[i]);
    }
}

/// The semantic form of a conversation determines it, but for the text of its type
/// definitions, whose member values are carried as given: two conversations whose
/// semantic texts are equal, and whose type definitions read alike, have the same format,
/// module, roles, failures and initial state, and states that agree position by position
/// in kind and in every field.
#[verifier::spinoff_prover]
#[verifier::rlimit(100)]
pub proof fn law_semantic_json_determines_the_conversation(a: Conversation, b: Conversation)
    requires
        semantic_conversation_json(a) == semantic_conversation_json(b),
        types_json(a.types@) == types_json(b.types@),
    ensures
        a.eve_conversation@ == b.eve_conversation@,
        same_module(a.module, b.module),
        same_roles(a.roles@, b.roles@),
        same_failures(a.failures@, b.failures@),
        a.initial@ == b.initial@,
        same_global_states(a.states@, b.states@),
{
    let r1 = Seq::<char>::empty();
    let r2 = Seq::<char>::empty();
    assert(semantic_conversation_json(a) + r1 =~= semantic_conversation_json(a));
    assert(semantic_conversation_json(b) + r2 =~= semantic_conversation_json(b));
    lemma_assoc(((((((((((((("{\"$schema\":null,\"eve_conversation\":"@ + json_string(a.eve_conversation@)) + ",\"module\":"@) + module_json(a.module)) + ",\"roles\":"@) + roles_json(a.roles@)) + ",\"types\":"@) + types_json(a.types@)) + ",\"failures\":"@) + failures_json(a.failures@)) + ",\"initial\":"@) + json_string(a.initial@)) + ",\"states\":"@) + global_states_json(a.states@)), ",\"annotations\":{}}"@, r1);
    lemma_assoc((((((((((((("{\"$schema\":null,\"eve_conversation\":"@ + json_string(a.eve_conversation@)) + ",\"module\":"@) + module_json(a.module)) + ",\"roles\":"@) + roles_json(a.roles@)) + ",\"types\":"@) + types_json(a.types@)) + ",\"failures\":"@) + failures_json(a.failures@)) + ",\"initial\":"@) + json_string(a.initial@)) + ",\"states\":"@), global_states_json(a.states@), (",\"annotations\":{}}"@ + r1));
    lemma_assoc(((((((((((("{\"$schema\":null,\"eve_conversation\":"@ + json_string(a.eve_conversation@)) + ",\"module\":"@) + module_json(a.module)) + ",\"roles\":"@) + roles_json(a.roles@)) + ",\"types\":"@) + types_json(a.types@)) + ",\"failures\":"@) + failures_json(a.failures@)) + ",\"initial\":"@) + json_string(a.initial@)), ",\"states\":"@, (global_states_json(a.states@) + (",\"annotations\":{}}"@ + r1)));
    lemma_assoc((((((((((("{\"$schema\":null,\"eve_conversation\":"@ + json_string(a.eve_conversation@)) + ",\"module\":"@) + module_json(a.module)) + ",\"roles\":"@) + roles_json(a.roles@)) + ",\"types\":"@) + types_json(a.types@)) + ",\"failures\":"@) + failures_json(a.failures@)) + ",\"initial\":"@), json_string(a.initial@), (",\"states\":"@ + (global_states_json(a.states@) + (",\"annotations\":{}}"@ + r1))));
    lemma_assoc(((((((((("{\"$schema\":null,\"eve_conversation\":"@ + json_string(a.eve_conversation@)) + ",\"module\":"@) + module_json(a.module)) + ",\"roles\":"@) + roles_json(a.roles@)) + ",\"types\":"@) + types_json(a.types@)) + ",\"failures\":"@) + failures_json(a.failures@)), ",\"initial\":"@, (json_string(a.initial@) + (",\"states\":"@ + (global_states_json(a.states@) + (",\"annotations\":{}}"@ + r1)))));
    lemma_assoc((((((((("{\"$schema\":null,\"eve_conversation\":"@ + json_string(a.eve_conversation@)) + ",\"module\":"@) + module_json(a.module)) + ",\"roles\":"@) + roles_json(a.roles@)) + ",\"types\":"@) + types_json(a.types@)) + ",\"failures\":"@), failures_json(a.failures@), (",\"initial\":"@ + (json_string(a.initial@) + (",\"states\":"@ + (global_states_json(a.states@) + (",\"annotations\":{}}"@ + r1))))));
    lemma_assoc(((((((("{\"$schema\":null,\"eve_conversation\":"@ + json_string(a.eve_conversation@)) + ",\"module\":"@) + module_json(a.module)) + ",\"roles\":"@) + roles_json(a.roles@)) + ",\"types\":"@) + types_json(a.types@)), ",\"failures\":"@, (failures_json(a.failures@) + (",\"initial\":"@ + (json_string(a.initial@) + (",\"states\":"@ + (global_states_json(a.states@) + (",\"annotations\":{}}"@ + r1)))))));
    lemma_assoc((((((("{\"$schema\":null,\"eve_conversation\":"@ + json_string(a.eve_conversation@)) + ",\"module\":"@) + module_json(a.module)) + ",\"roles\":"@) + roles_json(a.roles@)) + ",\"types\":"@), types_json(a.types@), (",\"failures\":"@ + (failures_json(a.failures@) + (",\"initial\":"@ + (json_string(a.initial@) + (",\"states\":"@ + (global_states_json(a.states@) + (",\"annotations\":{}}"@ + r1))))))));
    lemma_assoc(((((("{\"$schema\":null,\"eve_conversation\":"@ + json_string(a.eve_conversation@)) + ",\"module\":"@) + module_json(a.module)) + ",\"roles\":"@) + roles_json(a.roles@)), ",\"types\":"@, (types_json(a.types@) + (",\"failures\":"@ + (failures_json(a.failures@) + (",\"initial\":"@ + (json_string(a.initial@) + (",\"states\":"@ + (global_states_json(a.states@) + (",\"annotations\":{}}"@ + r1)))))))));
    lemma_assoc((((("{\"$schema\":null,\"eve_conversation\":"@ + json_string(a.eve_conversation@)) + ",\"module\":"@) + module_json(a.module)) + ",\"roles\":"@), roles_json(a.roles@), (",\"types\":"@ + (types_json(a.types@) + (",\"failures\":"@ + (failures_json(a.failures@) + (",\"initial\":"@ + (json_string(a.initial@) + (",\"states\":"@ + (global_states_json(a.states@) + (",\"annotations\":{}}"@ + r1))))))))));
    lemma_assoc(((("{\"$schema\":null,\"eve_conversation\":"@ + json_string(a.eve_conversation@)) + ",\"module\":"@) + module_json(a.module)), ",\"roles\":"@, (roles_json(a.roles@) + (",\"types\":"@ + (types_json(a.types@) + (",\"failures\":"@ + (failures_json(a.failures@) + (",\"initial\":"@ + (json_string(a.initial@) + (",\"states\":"@ + (global_states_json(a.states@) + (",\"annotations\":{}}"@ + r1)))))))))));
    lemma_assoc((("{\"$schema\":null,\"eve_conversation\":"@ + json_string(a.eve_conversation@)) + ",\"module\":"@), module_json(a.module), (",\"roles\":"@ + (roles_json(a.roles@) + (",\"types\":"@ + (types_json(a.types@) + (",\"failures\":"@ + (failures_json(a.failures@) + (",\"initial\":"@ + (json_string(a.initial@) + (",\"states\":"@ + (global_states_json(a.states@) + (",\"annotations\":{}}"@ + r1))))))))))));
    lemma_assoc(("{\"$schema\":null,\"eve_conversation\":"@ + json_string(a.eve_conversation@)), ",\"module\":"@, (module_json(a.module) + (",\"roles\":"@ + (roles_json(a.roles@) + (",\"types\":"@ + (types_json(a.types@) + (",\"failures\":"@ + (failures_json(a.failures@) + (",\"initial\":"@ + (json_string(a.initial@) + (",\"states\":"@ + (global_states_json(a.states@) + (",\"annotations\":{}}"@ + r1)))))))))))));
    lemma_assoc("{\"$schema\":null,\"eve_conversation\":"@, json_string(a.eve_conversation@), (",\"module\":"@ + (module_json(a.module) + (",\"roles\":"@ + (roles_json(a.roles@) + (",\"types\":"@ + (types_json(a.types@) + (",\"failures\":"@ + (failures_json(a.failures@) + (",\"initial\":"@ + (json_string(a.initial@) + (",\"states\":"@ + (global_states_json(a.states@) + (",\"annotations\":{}}"@ + r1))))))))))))));
    lemma_assoc(((((((((((((("{\"$schema\":null,\"eve_conversation\":"@ + json_string(b.eve_conversation@)) + ",\"module\":"@) + module_json(b.module)) + ",\"roles\":"@) + roles_json(b.roles@)) + ",\"types\":"@) + types_json(b.types@)) + ",\"failures\":"@) + failures_json(b.failures@)) + ",\"initial\":"@) + json_string(b.initial@)) + ",\"states\":"@) + global_states_json(b.states@)), ",\"annotations\":{}}"@, r2);
    lemma_assoc((((((((((((("{\"$schema\":null,\"eve_conversation\":"@ + json_string(b.eve_conversation@)) + ",\"module\":"@) + module_json(b.module)) + ",\"roles\":"@) + roles_json(b.roles@)) + ",\"types\":"@) + types_json(b.types@)) + ",\"failures\":"@) + failures_json(b.failures@)) + ",\"initial\":"@) + json_string(b.initial@)) + ",\"states\":"@), global_states_json(b.states@), (",\"annotations\":{}}"@ + r2));
    lemma_assoc(((((((((((("{\"$schema\":null,\"eve_conversation\":"@ + json_string(b.eve_conversation@)) + ",\"module\":"@) + module_json(b.module)) + ",\"roles\":"@) + roles_json(b.roles@)) + ",\"types\":"@) + types_json(b.types@)) + ",\"failures\":"@) + failures_json(b.failures@)) + ",\"initial\":"@) + json_string(b.initial@)), ",\"states\":"@, (global_states_json(b.states@) + (",\"annotations\":{}}"@ + r2)));
    lemma_assoc((((((((((("{\"$schema\":null,\"eve_conversation\":"@ + json_string(b.eve_conversation@)) + ",\"module\":"@) + module_json(b.module)) + ",\"roles\":"@) + roles_json(b.roles@)) + ",\"types\":"@) + types_json(b.types@)) + ",\"failures\":"@) + failures_json(b.failures@)) + ",\"initial\":"@), json_string(b.initial@), (",\"states\":"@ + (global_states_json(b.states@) + (",\"annotations\":{}}"@ + r2))));
    lemma_assoc(((((((((("{\"$schema\":null,\"eve_conversation\":"@ + json_string(b.eve_conversation@)) + ",\"module\":"@) + module_json(b.module)) + ",\"roles\":"@) + roles_json(b.roles@)) + ",\"types\":"@) + types_json(b.types@)) + ",\"failures\":"@) + failures_json(b.failures@)), ",\"initial\":"@, (json_string(b.initial@) + (",\"states\":"@ + (global_states_json(b.states@) + (",\"annotations\":{}}"@ + r2)))));
    lemma_assoc((((((((("{\"$schema\":null,\"eve_conversation\":"@ + json_string(b.eve_conversation@)) + ",\"module\":"@) + module_json(b.module)) + ",\"roles\":"@) + roles_json(b.roles@)) + ",\"types\":"@) + types_json(b.types@)) + ",\"failures\":"@), failures_json(b.failures@), (",\"initial\":"@ + (json_string(b.initial@) + (",\"states\":"@ + (global_states_json(b.states@) + (",\"annotations\":{}}"@ + r2))))));
    lemma_assoc(((((((("{\"$schema\":null,\"eve_conversation\":"@ + json_string(b.eve_conversation@)) + ",\"module\":"@) + module_json(b.module)) + ",\"roles\":"@) + roles_json(b.roles@)) + ",\"types\":"@) + types_json(b.types@)), ",\"failures\":"@, (failures_json(b.failures@) + (",\"initial\":"@ + (json_string(b.initial@) + (",\"states\":"@ + (global_states_json(b.states@) + (",\"annotations\":{}}"@ + r2)))))));
    lemma_assoc((((((("{\"$schema\":null,\"eve_conversation\":"@ + json_string(b.eve_conversation@)) + ",\"module\":"@) + module_json(b.module)) + ",\"roles\":"@) + roles_json(b.roles@)) + ",\"types\":"@), types_json(b.types@), (",\"failures\":"@ + (failures_json(b.failures@) + (",\"initial\":"@ + (json_string(b.initial@) + (",\"states\":"@ + (global_states_json(b.states@) + (",\"annotations\":{}}"@ + r2))))))));
    lemma_assoc(((((("{\"$schema\":null,\"eve_conversation\":"@ + json_string(b.eve_conversation@)) + ",\"module\":"@) + module_json(b.module)) + ",\"roles\":"@) + roles_json(b.roles@)), ",\"types\":"@, (types_json(b.types@) + (",\"failures\":"@ + (failures_json(b.failures@) + (",\"initial\":"@ + (json_string(b.initial@) + (",\"states\":"@ + (global_states_json(b.states@) + (",\"annotations\":{}}"@ + r2)))))))));
    lemma_assoc((((("{\"$schema\":null,\"eve_conversation\":"@ + json_string(b.eve_conversation@)) + ",\"module\":"@) + module_json(b.module)) + ",\"roles\":"@), roles_json(b.roles@), (",\"types\":"@ + (types_json(b.types@) + (",\"failures\":"@ + (failures_json(b.failures@) + (",\"initial\":"@ + (json_string(b.initial@) + (",\"states\":"@ + (global_states_json(b.states@) + (",\"annotations\":{}}"@ + r2))))))))));
    lemma_assoc(((("{\"$schema\":null,\"eve_conversation\":"@ + json_string(b.eve_conversation@)) + ",\"module\":"@) + module_json(b.module)), ",\"roles\":"@, (roles_json(b.roles@) + (",\"types\":"@ + (types_json(b.types@) + (",\"failures\":"@ + (failures_json(b.failures@) + (",\"initial\":"@ + (json_string(b.initial@) + (",\"states\":"@ + (global_states_json(b.states@) + (",\"annotations\":{}}"@ + r2)))))))))));
    lemma_assoc((("{\"$schema\":null,\"eve_conversation\":"@ + json_string(b.eve_conversation@)) + ",\"module\":"@), module_json(b.module), (",\"roles\":"@ + (roles_json(b.roles@) + (",\"types\":"@ + (types_json(b.types@) + (",\"failures\":"@ + (failures_json(b.failures@) + (",\"initial\":"@ + (json_string(b.initial@) + (",\"states\":"@ + (global_states_json(b.states@) + (",\"annotations\":{}}"@ + r2))))))))))));
    lemma_assoc(("{\"$schema\":null,\"eve_conversation\":"@ + json_string(b.eve_conversation@)), ",\"module\":"@, (module_json(b.module) + (",\"roles\":"@ + (roles_json(b.roles@) + (",\"types\":"@ + (types_json(b.types@) + (",\"failures\":"@ + (failures_json(b.failures@) + (",\"initial\":"@ + (json_string(b.initial@) + (",\"states\":"@ + (global_states_json(b.states@) + (",\"annotations\":{}}"@ + r2)))))))))))));
    lemma_assoc("{\"$schema\":null,\"eve_conversation\":"@, json_string(b.eve_conversation@), (",\"module\":"@ + (module_json(b.module) + (",\"roles\":"@ + (roles_json(b.roles@) + (",\"types\":"@ + (types_json(b.types@) + (",\"failures\":"@ + (failures_json(b.failures@) + (",\"initial\":"@ + (json_string(b.initial@) + (",\"states\":"@ + (global_states_json(b.states@) + (",\"annotations\":{}}"@ + r2))))))))))))));
    lemma_split("{\"$schema\":null,\"eve_conversation\":"@, json_string(a.eve_conversation@) + (",\"module\":"@ + (module_json(a.module) + (",\"roles\":"@ + (roles_json(a.roles@) + (",\"types\":"@ + (types_json(a.types@) + (",\"failures\":"@ + (failures_json(a.failures@) + (",\"initial\":"@ + (json_string(a.initial@) + (",\"states\":"@ + (global_states_json(a.states@) + (",\"annotations\":{}}"@ + r1))))))))))))), "{\"$schema\":null,\"eve_conversation\":"@, json_string(b.eve_conversation@) + (",\"module\":"@ + (module_json(b.module) + (",\"roles\":"@ + (roles_json(b.roles@) + (",\"types\":"@ + (types_json(b.types@) + (",\"failures\":"@ + (failures_json(b.failures@) + (",\"initial\":"@ + (json_string(b.initial@) + (",\"states\":"@ + (global_states_json(b.states@) + (",\"annotations\":{}}"@ + r2))))))))))))));
    law_json_string_prefix_free(a.eve_conversation@, (",\"module\":"@ + (module_json(a.module) + (",\"roles\":"@ + (roles_json(a.roles@) + (",\"types\":"@ + (types_json(a.types@) + (",\"failures\":"@ + (failures_json(a.failures@) + (",\"initial\":"@ + (json_string(a.initial@) + (",\"states\":"@ + (global_states_json(a.states@) + (",\"annotations\":{}}"@ + r1))))))))))))), b.eve_conversation@, (",\"module\":"@ + (module_json(b.module) + (",\"roles\":"@ + (roles_json(b.roles@) + (",\"types\":"@ + (types_json(b.types@) + (",\"failures\":"@ + (failures_json(b.failures@) + (",\"initial\":"@ + (json_string(b.initial@) + (",\"states\":"@ + (global_states_json(b.states@) + (",\"annotations\":{}}"@ + r2))))))))))))));
    lemma_split(",\"module\":"@, module_json(a.module) + (",\"roles\":"@ + (roles_json(a.roles@) + (",\"types\":"@ + (types_json(a.types@) + (",\"failures\":"@ + (failures_json(a.failures@) + (",\"initial\":"@ + (json_string(a.initial@) + (",\"states\":"@ + (global_states_json(a.states@) + (",\"annotations\":{}}"@ + r1))))))))))), ",\"module\":"@, module_json(b.module) + (",\"roles\":"@ + (roles_json(b.roles@) + (",\"types\":"@ + (types_json(b.types@) + (",\"failures\":"@ + (failures_json(b.failures@) + (",\"initial\":"@ + (json_string(b.initial@) + (",\"states\":"@ + (global_states_json(b.states@) + (",\"annotations\":{}}"@ + r2))))))))))));
    law_module_json_prefix_free(a.module, (",\"roles\":"@ + (roles_json(a.roles@) + (",\"types\":"@ + (types_json(a.types@) + (",\"failures\":"@ + (failures_json(a.failures@) + (",\"initial\":"@ + (json_string(a.initial@) + (",\"states\":"@ + (global_states_json(a.states@) + (",\"annotations\":{}}"@ + r1))))))))))), b.module, (",\"roles\":"@ + (roles_json(b.roles@) + (",\"types\":"@ + (types_json(b.types@) + (",\"failures\":"@ + (failures_json(b.failures@) + (",\"initial\":"@ + (json_string(b.initial@) + (",\"states\":"@ + (global_states_json(b.states@) + (",\"annotations\":{}}"@ + r2))))))))))));
    lemma_split(",\"roles\":"@, roles_json(a.roles@) + (",\"types\":"@ + (types_json(a.types@) + (",\"failures\":"@ + (failures_json(a.failures@) + (",\"initial\":"@ + (json_string(a.initial@) + (",\"states\":"@ + (global_states_json(a.states@) + (",\"annotations\":{}}"@ + r1))))))))), ",\"roles\":"@, roles_json(b.roles@) + (",\"types\":"@ + (types_json(b.types@) + (",\"failures\":"@ + (failures_json(b.failures@) + (",\"initial\":"@ + (json_string(b.initial@) + (",\"states\":"@ + (global_states_json(b.states@) + (",\"annotations\":{}}"@ + r2))))))))));
    law_roles_json_prefix_free(a.roles@, (",\"types\":"@ + (types_json(a.types@) + (",\"failures\":"@ + (failures_json(a.failures@) + (",\"initial\":"@ + (json_string(a.initial@) + (",\"states\":"@ + (global_states_json(a.states@) + (",\"annotations\":{}}"@ + r1))))))))), b.roles@, (",\"types\":"@ + (types_json(b.types@) + (",\"failures\":"@ + (failures_json(b.failures@) + (",\"initial\":"@ + (json_string(b.initial@) + (",\"states\":"@ + (global_states_json(b.states@) + (",\"annotations\":{}}"@ + r2))))))))));
    lemma_split(",\"types\":"@, types_json(a.types@) + (",\"failures\":"@ + (failures_json(a.failures@) + (",\"initial\":"@ + (json_string(a.initial@) + (",\"states\":"@ + (global_states_json(a.states@) + (",\"annotations\":{}}"@ + r1))))))), ",\"types\":"@, types_json(b.types@) + (",\"failures\":"@ + (failures_json(b.failures@) + (",\"initial\":"@ + (json_string(b.initial@) + (",\"states\":"@ + (global_states_json(b.states@) + (",\"annotations\":{}}"@ + r2))))))));
    lemma_same_text_prefix(types_json(a.types@), (",\"failures\":"@ + (failures_json(a.failures@) + (",\"initial\":"@ + (json_string(a.initial@) + (",\"states\":"@ + (global_states_json(a.states@) + (",\"annotations\":{}}"@ + r1))))))), types_json(b.types@), (",\"failures\":"@ + (failures_json(b.failures@) + (",\"initial\":"@ + (json_string(b.initial@) + (",\"states\":"@ + (global_states_json(b.states@) + (",\"annotations\":{}}"@ + r2))))))));
    lemma_split(",\"failures\":"@, failures_json(a.failures@) + (",\"initial\":"@ + (json_string(a.initial@) + (",\"states\":"@ + (global_states_json(a.states@) + (",\"annotations\":{}}"@ + r1))))), ",\"failures\":"@, failures_json(b.failures@) + (",\"initial\":"@ + (json_string(b.initial@) + (",\"states\":"@ + (global_states_json(b.states@) + (",\"annotations\":{}}"@ + r2))))));
    law_failures_json_prefix_free(a.failures@, (",\"initial\":"@ + (json_string(a.initial@) + (",\"states\":"@ + (global_states_json(a.states@) + (",\"annotations\":{}}"@ + r1))))), b.failures@, (",\"initial\":"@ + (json_string(b.initial@) + (",\"states\":"@ + (global_states_json(b.states@) + (",\"annotations\":{}}"@ + r2))))));
    lemma_split(",\"initial\":"@, json_string(a.initial@) + (",\"states\":"@ + (global_states_json(a.states@) + (",\"annotations\":{}}"@ + r1))), ",\"initial\":"@, json_string(b.initial@) + (",\"states\":"@ + (global_states_json(b.states@) + (",\"annotations\":{}}"@ + r2))));
    law_json_string_prefix_free(a.initial@, (",\"states\":"@ + (global_states_json(a.states@) + (",\"annotations\":{}}"@ + r1))), b.initial@, (",\"states\":"@ + (global_states_json(b.states@) + (",\"annotations\":{}}"@ + r2))));
    lemma_split(",\"states\":"@, global_states_json(a.states@) + (",\"annotations\":{}}"@ + r1), ",\"states\":"@, global_states_json(b.states@) + (",\"annotations\":{}}"@ + r2));
    law_global_states_json_prefix_free(a.states@, (",\"annotations\":{}}"@ + r1), b.states@, (",\"annotations\":{}}"@ + r2));
    lemma_split(",\"annotations\":{}}"@, r1, ",\"annotations\":{}}"@, r2);

}


/// A type definition's JSON text starts with its id, which it determines.
pub proof fn law_type_json_keeps_the_id(a: TypeDefinition, r1: Seq<char>, b: TypeDefinition, r2: Seq<char>)
    requires
        type_json(a) + r1 == type_json(b) + r2,
    ensures
        a.id@ == b.id@,
{
    let l = "{\"id\":"@;
    let ta = type_json(a);
    let tb = type_json(b);
    let xa = ta.subrange((l.len() + json_string(a.id@).len()) as int, ta.len() as int);
    let xb = tb.subrange((l.len() + json_string(b.id@).len()) as int, tb.len() as int);
    assert(ta =~= l + (json_string(a.id@) + xa));
    assert(tb =~= l + (json_string(b.id@) + xb));
    lemma_assoc(l, json_string(a.id@) + xa, r1);
    lemma_assoc(l, json_string(b.id@) + xb, r2);
    lemma_assoc(json_string(a.id@), xa, r1);
    lemma_assoc(json_string(b.id@), xb, r2);
    lemma_split(l, json_string(a.id@) + (xa + r1), l, json_string(b.id@) + (xb + r2));
    law_json_string_prefix_free(a.id@, xa + r1, b.id@, xb + r2);
}


/// The characters `decimal` writes.
pub open spec fn is_digit(c: char) -> bool {
    '0' <= c && c <= '9'
}

/// Every character of a decimal rendering is a digit, and it is never empty.
proof fn lemma_decimal_digits(n: nat)
    ensures
        decimal(n).len() > 0,
        forall|i: int| 0 <= i < decimal(n).len() ==> is_digit(#[trigger] decimal(n)[i]),
        n >= 10 ==> decimal(n).len() >= 2,
    decreases n,
{
    if n >= 10 {
        lemma_decimal_digits(n / 10);
    }
}

/// Distinct numbers are written differently.
proof fn lemma_decimal_injective(a: nat, b: nat)
    requires
        decimal(a) == decimal(b),
    ensures
        a == b,
    decreases a,
{
    lemma_decimal_digits(a);
    lemma_decimal_digits(b);
    if a >= 10 && b >= 10 {
        assert(decimal(a).drop_last() =~= decimal(a / 10));
        assert(decimal(b).drop_last() =~= decimal(b / 10));
        assert(decimal(a).last() == digit_char(a % 10));
        assert(decimal(b).last() == digit_char(b % 10));
        lemma_decimal_injective(a / 10, b / 10);
        assert(a == 10 * (a / 10) + a % 10);
        assert(b == 10 * (b / 10) + b % 10);
    } else if a < 10 && b < 10 {
        assert(decimal(a)[0] == digit_char(a));
        assert(decimal(b)[0] == digit_char(b));
    }
}

/// A decimal rendering ends where the digits end.
pub proof fn lemma_decimal_prefix_free(a: nat, t1: Seq<char>, b: nat, t2: Seq<char>)
    requires
        decimal(a) + t1 == decimal(b) + t2,
        t1.len() > 0,
        t2.len() > 0,
        !is_digit(t1[0]),
        !is_digit(t2[0]),
    ensures
        a == b,
        t1 == t2,
{
    lemma_decimal_digits(a);
    lemma_decimal_digits(b);
    let la = decimal(a).len() as int;
    let lb = decimal(b).len() as int;
    if la < lb {
        assert((decimal(a) + t1)[la] == t1[0]);
        assert((decimal(b) + t2)[la] == decimal(b)[la]);
    } else if lb < la {
        assert((decimal(b) + t2)[lb] == t2[0]);
        assert((decimal(a) + t1)[lb] == decimal(a)[lb]);
    } else {
        lemma_split(decimal(a), t1, decimal(b), t2);
        lemma_decimal_injective(a, b);
    }
}

/// The characters at fixed positions of a endpoint state text, which tell its kinds apart.
proof fn lemma_wire_operation_marks(s: WireOperation, r: Seq<char>)
    ensures
        match s {
            WireOperation::Data { .. } => (wire_operation_json(s) + r)[6] == 'd',
            WireOperation::Select { .. } => (wire_operation_json(s) + r)[6] == 's',
            WireOperation::Cancel { .. } => (wire_operation_json(s) + r)[6] == 'c',
        },
{
    match s {
        WireOperation::Data { .. } => {
            reveal_strlit("\"op\":\"data\",\"from\":");
            assert((wire_operation_json(s) + r)[6] == "\"op\":\"data\",\"from\":"@[6]);
        },
        WireOperation::Select { .. } => {
            reveal_strlit("\"op\":\"select\",\"by\":");
            assert((wire_operation_json(s) + r)[6] == "\"op\":\"select\",\"by\":"@[6]);
        },
        WireOperation::Cancel { .. } => {
            reveal_strlit("\"op\":\"cancel\",\"from\":");
            assert((wire_operation_json(s) + r)[6] == "\"op\":\"cancel\",\"from\":"@[6]);
        },
    }
}

/// `a` and `b` hold the same text in every field of the same kind.
pub open spec fn same_wire_operation(a: WireOperation, b: WireOperation) -> bool {
    match (a, b) {
        (WireOperation::Data { from: a_from, to: a_to, message: a_message }, WireOperation::Data { from: b_from, to: b_to, message: b_message }) => a_from@ == b_from@ && a_to@ == b_to@ && a_message@ == b_message@,
        (WireOperation::Select { by: a_by, label: a_label }, WireOperation::Select { by: b_by, label: b_label }) => a_by@ == b_by@ && a_label@ == b_label@,
        (WireOperation::Cancel { from: a_from, to: a_to, scope: a_scope }, WireOperation::Cancel { from: b_from, to: b_to, scope: b_scope }) => a_from@ == b_from@ && a_to@ == b_to@ && a_scope@ == b_scope@,
        _ => false,
    }
}

/// A wire operation's members end where they end and determine the operation.
pub proof fn law_wire_operation_json_prefix_free(a: WireOperation, r1: Seq<char>, b: WireOperation, r2: Seq<char>)
    requires
        wire_operation_json(a) + r1 == wire_operation_json(b) + r2,
    ensures
        same_wire_operation(a, b),
        r1 == r2,
{
    match (a, b) {
        (WireOperation::Data { .. }, WireOperation::Data { .. }) => lemma_wire_operation_json_prefix_free_data(a, r1, b, r2),
        (WireOperation::Select { .. }, WireOperation::Select { .. }) => lemma_wire_operation_json_prefix_free_select(a, r1, b, r2),
        (WireOperation::Cancel { .. }, WireOperation::Cancel { .. }) => lemma_wire_operation_json_prefix_free_cancel(a, r1, b, r2),
        _ => {
            lemma_wire_operation_marks(a, r1);
            lemma_wire_operation_marks(b, r2);
        },
    }
}

#[verifier::spinoff_prover]
proof fn lemma_wire_operation_json_prefix_free_data(a: WireOperation, r1: Seq<char>, b: WireOperation, r2: Seq<char>)
    requires
        a is Data,
        b is Data,
        wire_operation_json(a) + r1 == wire_operation_json(b) + r2,
    ensures
        same_wire_operation(a, b),
        r1 == r2,
{
    match (a, b) {
        (WireOperation::Data { from: a_from, to: a_to, message: a_message }, WireOperation::Data { from: b_from, to: b_to, message: b_message }) => {
            lemma_assoc((((("\"op\":\"data\",\"from\":"@ + json_string(a_from@)) + ",\"to\":"@) + json_string(a_to@)) + ",\"message\":"@), json_string(a_message@), r1);
            lemma_assoc(((("\"op\":\"data\",\"from\":"@ + json_string(a_from@)) + ",\"to\":"@) + json_string(a_to@)), ",\"message\":"@, (json_string(a_message@) + r1));
            lemma_assoc((("\"op\":\"data\",\"from\":"@ + json_string(a_from@)) + ",\"to\":"@), json_string(a_to@), (",\"message\":"@ + (json_string(a_message@) + r1)));
            lemma_assoc(("\"op\":\"data\",\"from\":"@ + json_string(a_from@)), ",\"to\":"@, (json_string(a_to@) + (",\"message\":"@ + (json_string(a_message@) + r1))));
            lemma_assoc("\"op\":\"data\",\"from\":"@, json_string(a_from@), (",\"to\":"@ + (json_string(a_to@) + (",\"message\":"@ + (json_string(a_message@) + r1)))));
            lemma_assoc((((("\"op\":\"data\",\"from\":"@ + json_string(b_from@)) + ",\"to\":"@) + json_string(b_to@)) + ",\"message\":"@), json_string(b_message@), r2);
            lemma_assoc(((("\"op\":\"data\",\"from\":"@ + json_string(b_from@)) + ",\"to\":"@) + json_string(b_to@)), ",\"message\":"@, (json_string(b_message@) + r2));
            lemma_assoc((("\"op\":\"data\",\"from\":"@ + json_string(b_from@)) + ",\"to\":"@), json_string(b_to@), (",\"message\":"@ + (json_string(b_message@) + r2)));
            lemma_assoc(("\"op\":\"data\",\"from\":"@ + json_string(b_from@)), ",\"to\":"@, (json_string(b_to@) + (",\"message\":"@ + (json_string(b_message@) + r2))));
            lemma_assoc("\"op\":\"data\",\"from\":"@, json_string(b_from@), (",\"to\":"@ + (json_string(b_to@) + (",\"message\":"@ + (json_string(b_message@) + r2)))));
            lemma_split("\"op\":\"data\",\"from\":"@, json_string(a_from@) + (",\"to\":"@ + (json_string(a_to@) + (",\"message\":"@ + (json_string(a_message@) + r1)))), "\"op\":\"data\",\"from\":"@, json_string(b_from@) + (",\"to\":"@ + (json_string(b_to@) + (",\"message\":"@ + (json_string(b_message@) + r2)))));
            law_json_string_prefix_free(a_from@, (",\"to\":"@ + (json_string(a_to@) + (",\"message\":"@ + (json_string(a_message@) + r1)))), b_from@, (",\"to\":"@ + (json_string(b_to@) + (",\"message\":"@ + (json_string(b_message@) + r2)))));
            lemma_split(",\"to\":"@, json_string(a_to@) + (",\"message\":"@ + (json_string(a_message@) + r1)), ",\"to\":"@, json_string(b_to@) + (",\"message\":"@ + (json_string(b_message@) + r2)));
            law_json_string_prefix_free(a_to@, (",\"message\":"@ + (json_string(a_message@) + r1)), b_to@, (",\"message\":"@ + (json_string(b_message@) + r2)));
            lemma_split(",\"message\":"@, json_string(a_message@) + r1, ",\"message\":"@, json_string(b_message@) + r2);
            law_json_string_prefix_free(a_message@, r1, b_message@, r2);
        },
        _ => {},
    }
}

#[verifier::spinoff_prover]
proof fn lemma_wire_operation_json_prefix_free_select(a: WireOperation, r1: Seq<char>, b: WireOperation, r2: Seq<char>)
    requires
        a is Select,
        b is Select,
        wire_operation_json(a) + r1 == wire_operation_json(b) + r2,
    ensures
        same_wire_operation(a, b),
        r1 == r2,
{
    match (a, b) {
        (WireOperation::Select { by: a_by, label: a_label }, WireOperation::Select { by: b_by, label: b_label }) => {
            lemma_assoc((("\"op\":\"select\",\"by\":"@ + json_string(a_by@)) + ",\"label\":"@), json_string(a_label@), r1);
            lemma_assoc(("\"op\":\"select\",\"by\":"@ + json_string(a_by@)), ",\"label\":"@, (json_string(a_label@) + r1));
            lemma_assoc("\"op\":\"select\",\"by\":"@, json_string(a_by@), (",\"label\":"@ + (json_string(a_label@) + r1)));
            lemma_assoc((("\"op\":\"select\",\"by\":"@ + json_string(b_by@)) + ",\"label\":"@), json_string(b_label@), r2);
            lemma_assoc(("\"op\":\"select\",\"by\":"@ + json_string(b_by@)), ",\"label\":"@, (json_string(b_label@) + r2));
            lemma_assoc("\"op\":\"select\",\"by\":"@, json_string(b_by@), (",\"label\":"@ + (json_string(b_label@) + r2)));
            lemma_split("\"op\":\"select\",\"by\":"@, json_string(a_by@) + (",\"label\":"@ + (json_string(a_label@) + r1)), "\"op\":\"select\",\"by\":"@, json_string(b_by@) + (",\"label\":"@ + (json_string(b_label@) + r2)));
            law_json_string_prefix_free(a_by@, (",\"label\":"@ + (json_string(a_label@) + r1)), b_by@, (",\"label\":"@ + (json_string(b_label@) + r2)));
            lemma_split(",\"label\":"@, json_string(a_label@) + r1, ",\"label\":"@, json_string(b_label@) + r2);
            law_json_string_prefix_free(a_label@, r1, b_label@, r2);
        },
        _ => {},
    }
}

#[verifier::spinoff_prover]
proof fn lemma_wire_operation_json_prefix_free_cancel(a: WireOperation, r1: Seq<char>, b: WireOperation, r2: Seq<char>)
    requires
        a is Cancel,
        b is Cancel,
        wire_operation_json(a) + r1 == wire_operation_json(b) + r2,
    ensures
        same_wire_operation(a, b),
        r1 == r2,
{
    match (a, b) {
        (WireOperation::Cancel { from: a_from, to: a_to, scope: a_scope }, WireOperation::Cancel { from: b_from, to: b_to, scope: b_scope }) => {
            lemma_assoc((((("\"op\":\"cancel\",\"from\":"@ + json_string(a_from@)) + ",\"to\":"@) + json_string(a_to@)) + ",\"scope\":"@), json_string(a_scope@), r1);
            lemma_assoc(((("\"op\":\"cancel\",\"from\":"@ + json_string(a_from@)) + ",\"to\":"@) + json_string(a_to@)), ",\"scope\":"@, (json_string(a_scope@) + r1));
            lemma_assoc((("\"op\":\"cancel\",\"from\":"@ + json_string(a_from@)) + ",\"to\":"@), json_string(a_to@), (",\"scope\":"@ + (json_string(a_scope@) + r1)));
            lemma_assoc(("\"op\":\"cancel\",\"from\":"@ + json_string(a_from@)), ",\"to\":"@, (json_string(a_to@) + (",\"scope\":"@ + (json_string(a_scope@) + r1))));
            lemma_assoc("\"op\":\"cancel\",\"from\":"@, json_string(a_from@), (",\"to\":"@ + (json_string(a_to@) + (",\"scope\":"@ + (json_string(a_scope@) + r1)))));
            lemma_assoc((((("\"op\":\"cancel\",\"from\":"@ + json_string(b_from@)) + ",\"to\":"@) + json_string(b_to@)) + ",\"scope\":"@), json_string(b_scope@), r2);
            lemma_assoc(((("\"op\":\"cancel\",\"from\":"@ + json_string(b_from@)) + ",\"to\":"@) + json_string(b_to@)), ",\"scope\":"@, (json_string(b_scope@) + r2));
            lemma_assoc((("\"op\":\"cancel\",\"from\":"@ + json_string(b_from@)) + ",\"to\":"@), json_string(b_to@), (",\"scope\":"@ + (json_string(b_scope@) + r2)));
            lemma_assoc(("\"op\":\"cancel\",\"from\":"@ + json_string(b_from@)), ",\"to\":"@, (json_string(b_to@) + (",\"scope\":"@ + (json_string(b_scope@) + r2))));
            lemma_assoc("\"op\":\"cancel\",\"from\":"@, json_string(b_from@), (",\"to\":"@ + (json_string(b_to@) + (",\"scope\":"@ + (json_string(b_scope@) + r2)))));
            lemma_split("\"op\":\"cancel\",\"from\":"@, json_string(a_from@) + (",\"to\":"@ + (json_string(a_to@) + (",\"scope\":"@ + (json_string(a_scope@) + r1)))), "\"op\":\"cancel\",\"from\":"@, json_string(b_from@) + (",\"to\":"@ + (json_string(b_to@) + (",\"scope\":"@ + (json_string(b_scope@) + r2)))));
            law_json_string_prefix_free(a_from@, (",\"to\":"@ + (json_string(a_to@) + (",\"scope\":"@ + (json_string(a_scope@) + r1)))), b_from@, (",\"to\":"@ + (json_string(b_to@) + (",\"scope\":"@ + (json_string(b_scope@) + r2)))));
            lemma_split(",\"to\":"@, json_string(a_to@) + (",\"scope\":"@ + (json_string(a_scope@) + r1)), ",\"to\":"@, json_string(b_to@) + (",\"scope\":"@ + (json_string(b_scope@) + r2)));
            law_json_string_prefix_free(a_to@, (",\"scope\":"@ + (json_string(a_scope@) + r1)), b_to@, (",\"scope\":"@ + (json_string(b_scope@) + r2)));
            lemma_split(",\"scope\":"@, json_string(a_scope@) + r1, ",\"scope\":"@, json_string(b_scope@) + r2);
            law_json_string_prefix_free(a_scope@, r1, b_scope@, r2);
        },
        _ => {},
    }
}


/// `a` and `b` have the same id, state text and operation.
pub open spec fn same_wire_transition(a: WireTransition, b: WireTransition) -> bool {
    &&& a.id == b.id
    &&& a.state@ == b.state@
    &&& same_wire_operation(a.operation, b.operation)
}

/// A wire transition's JSON text ends where it ends and determines the transition.
#[verifier::spinoff_prover]
#[verifier::rlimit(100)]
pub proof fn law_wire_transition_json_prefix_free(a: WireTransition, r1: Seq<char>, b: WireTransition, r2: Seq<char>)
    requires
        wire_transition_json(a) + r1 == wire_transition_json(b) + r2,
    ensures
        same_wire_transition(a, b),
        r1 == r2,
{
    reveal_strlit(",\"state\":");
    lemma_assoc(((((("{\"id\":"@ + decimal(a.id as nat)) + ",\"state\":"@) + json_string(a.state@)) + ","@) + wire_operation_json(a.operation)), "}"@, r1);
    lemma_assoc((((("{\"id\":"@ + decimal(a.id as nat)) + ",\"state\":"@) + json_string(a.state@)) + ","@), wire_operation_json(a.operation), ("}"@ + r1));
    lemma_assoc(((("{\"id\":"@ + decimal(a.id as nat)) + ",\"state\":"@) + json_string(a.state@)), ","@, (wire_operation_json(a.operation) + ("}"@ + r1)));
    lemma_assoc((("{\"id\":"@ + decimal(a.id as nat)) + ",\"state\":"@), json_string(a.state@), (","@ + (wire_operation_json(a.operation) + ("}"@ + r1))));
    lemma_assoc(("{\"id\":"@ + decimal(a.id as nat)), ",\"state\":"@, (json_string(a.state@) + (","@ + (wire_operation_json(a.operation) + ("}"@ + r1)))));
    lemma_assoc("{\"id\":"@, decimal(a.id as nat), (",\"state\":"@ + (json_string(a.state@) + (","@ + (wire_operation_json(a.operation) + ("}"@ + r1))))));
    lemma_assoc(((((("{\"id\":"@ + decimal(b.id as nat)) + ",\"state\":"@) + json_string(b.state@)) + ","@) + wire_operation_json(b.operation)), "}"@, r2);
    lemma_assoc((((("{\"id\":"@ + decimal(b.id as nat)) + ",\"state\":"@) + json_string(b.state@)) + ","@), wire_operation_json(b.operation), ("}"@ + r2));
    lemma_assoc(((("{\"id\":"@ + decimal(b.id as nat)) + ",\"state\":"@) + json_string(b.state@)), ","@, (wire_operation_json(b.operation) + ("}"@ + r2)));
    lemma_assoc((("{\"id\":"@ + decimal(b.id as nat)) + ",\"state\":"@), json_string(b.state@), (","@ + (wire_operation_json(b.operation) + ("}"@ + r2))));
    lemma_assoc(("{\"id\":"@ + decimal(b.id as nat)), ",\"state\":"@, (json_string(b.state@) + (","@ + (wire_operation_json(b.operation) + ("}"@ + r2)))));
    lemma_assoc("{\"id\":"@, decimal(b.id as nat), (",\"state\":"@ + (json_string(b.state@) + (","@ + (wire_operation_json(b.operation) + ("}"@ + r2))))));
    lemma_split("{\"id\":"@, decimal(a.id as nat) + (",\"state\":"@ + (json_string(a.state@) + (","@ + (wire_operation_json(a.operation) + ("}"@ + r1))))), "{\"id\":"@, decimal(b.id as nat) + (",\"state\":"@ + (json_string(b.state@) + (","@ + (wire_operation_json(b.operation) + ("}"@ + r2))))));
    lemma_decimal_prefix_free(a.id as nat, (",\"state\":"@ + (json_string(a.state@) + (","@ + (wire_operation_json(a.operation) + ("}"@ + r1))))), b.id as nat, (",\"state\":"@ + (json_string(b.state@) + (","@ + (wire_operation_json(b.operation) + ("}"@ + r2))))));
    lemma_split(",\"state\":"@, json_string(a.state@) + (","@ + (wire_operation_json(a.operation) + ("}"@ + r1))), ",\"state\":"@, json_string(b.state@) + (","@ + (wire_operation_json(b.operation) + ("}"@ + r2))));
    law_json_string_prefix_free(a.state@, (","@ + (wire_operation_json(a.operation) + ("}"@ + r1))), b.state@, (","@ + (wire_operation_json(b.operation) + ("}"@ + r2))));
    lemma_split(","@, wire_operation_json(a.operation) + ("}"@ + r1), ","@, wire_operation_json(b.operation) + ("}"@ + r2));
    law_wire_operation_json_prefix_free(a.operation, ("}"@ + r1), b.operation, ("}"@ + r2));
    lemma_split("}"@, r1, "}"@, r2);

}

/// Every item agrees with the one at the same position.
pub open spec fn same_wire_transitions(a: Seq<WireTransition>, b: Seq<WireTransition>) -> bool {
    &&& a.len() == b.len()
    &&& forall|i: int| 0 <= i < a.len() ==> same_wire_transition(#[trigger] a[i], b[i])
}

/// Two item texts end where they end, open an object, and are equal only for agreeing
/// items.
proof fn lemma_wire_transition_delimited(a: WireTransition, b: WireTransition)
    ensures
        delimited(wire_transition_json(a), wire_transition_json(b)),
        wire_transition_json(a).len() > 0,
        wire_transition_json(a)[0] == '{',
        wire_transition_json(a) == wire_transition_json(b) ==> same_wire_transition(a, b),
{
    assert forall|t1: Seq<char>, t2: Seq<char>| wire_transition_json(a) + t1 == wire_transition_json(b) + t2 implies wire_transition_json(a) == wire_transition_json(b) && t1 == t2 by {
        law_wire_transition_json_prefix_free(a, t1, b, t2);
        assert((wire_transition_json(a) + t1).len() == wire_transition_json(a).len() + t1.len());
        assert((wire_transition_json(b) + t2).len() == wire_transition_json(b).len() + t2.len());
        lemma_split(wire_transition_json(a), t1, wire_transition_json(b), t2);
    }
    reveal_strlit("{\"id\":");
    assert(wire_transition_json(a)[0] == "{\"id\":"@[0]);
    if wire_transition_json(a) == wire_transition_json(b) {
        assert(wire_transition_json(a) + Seq::<char>::empty() =~= wire_transition_json(a));
        assert(wire_transition_json(b) + Seq::<char>::empty() =~= wire_transition_json(b));
        law_wire_transition_json_prefix_free(a, Seq::empty(), b, Seq::empty());
    }
}

/// A wire_transition_json array of these items ends where it ends and determines the items.
pub proof fn law_wire_transitions_prefix_free(a: Seq<WireTransition>, r1: Seq<char>, b: Seq<WireTransition>, r2: Seq<char>)
    requires
        json_array(wire_transitions_items(a)) + r1 == json_array(wire_transitions_items(b)) + r2,
    ensures
        same_wire_transitions(a, b),
        r1 == r2,
{
    let xs = wire_transitions_items(a);
    let ys = wire_transitions_items(b);
    assert forall|i: int| 0 <= i < xs.len() implies (#[trigger] xs[i]).len() > 0 && xs[i][0] != ']' by {
        lemma_wire_transition_delimited(a[i], a[i]);
    }
    assert forall|j: int| 0 <= j < ys.len() implies (#[trigger] ys[j]).len() > 0 && ys[j][0] != ']' by {
        lemma_wire_transition_delimited(b[j], b[j]);
    }
    assert forall|i: int, j: int| 0 <= i < xs.len() && 0 <= j < ys.len() implies delimited(#[trigger] xs[i], #[trigger] ys[j]) by {
        lemma_wire_transition_delimited(a[i], b[j]);
    }
    law_json_array_prefix_free(xs, r1, ys, r2);
    assert forall|i: int| 0 <= i < a.len() implies same_wire_transition(#[trigger] a[i], b[i]) by {
        assert(xs[i] == ys[i]);
        lemma_wire_transition_delimited(a[i], b[i]);
    }
}

/// `a` and `b` have the same encoding text and transitions.
pub open spec fn same_wire_plan(a: CompactWirePlan, b: CompactWirePlan) -> bool {
    a.encoding@ == b.encoding@ && same_wire_transitions(a.transitions@, b.transitions@)
}

/// A wire dictionary's JSON text ends where it ends and determines the dictionary.
#[verifier::spinoff_prover]
pub proof fn law_wire_plan_json_prefix_free(a: CompactWirePlan, r1: Seq<char>, b: CompactWirePlan, r2: Seq<char>)
    requires
        wire_plan_json(a) + r1 == wire_plan_json(b) + r2,
    ensures
        same_wire_plan(a, b),
        r1 == r2,
{
    lemma_assoc(((("{\"encoding\":"@ + json_string(a.encoding@)) + ",\"transitions\":"@) + json_array(wire_transitions_items(a.transitions@))), "}"@, r1);
    lemma_assoc((("{\"encoding\":"@ + json_string(a.encoding@)) + ",\"transitions\":"@), json_array(wire_transitions_items(a.transitions@)), ("}"@ + r1));
    lemma_assoc(("{\"encoding\":"@ + json_string(a.encoding@)), ",\"transitions\":"@, (json_array(wire_transitions_items(a.transitions@)) + ("}"@ + r1)));
    lemma_assoc("{\"encoding\":"@, json_string(a.encoding@), (",\"transitions\":"@ + (json_array(wire_transitions_items(a.transitions@)) + ("}"@ + r1))));
    lemma_assoc(((("{\"encoding\":"@ + json_string(b.encoding@)) + ",\"transitions\":"@) + json_array(wire_transitions_items(b.transitions@))), "}"@, r2);
    lemma_assoc((("{\"encoding\":"@ + json_string(b.encoding@)) + ",\"transitions\":"@), json_array(wire_transitions_items(b.transitions@)), ("}"@ + r2));
    lemma_assoc(("{\"encoding\":"@ + json_string(b.encoding@)), ",\"transitions\":"@, (json_array(wire_transitions_items(b.transitions@)) + ("}"@ + r2)));
    lemma_assoc("{\"encoding\":"@, json_string(b.encoding@), (",\"transitions\":"@ + (json_array(wire_transitions_items(b.transitions@)) + ("}"@ + r2))));
    lemma_split("{\"encoding\":"@, json_string(a.encoding@) + (",\"transitions\":"@ + (json_array(wire_transitions_items(a.transitions@)) + ("}"@ + r1))), "{\"encoding\":"@, json_string(b.encoding@) + (",\"transitions\":"@ + (json_array(wire_transitions_items(b.transitions@)) + ("}"@ + r2))));
    law_json_string_prefix_free(a.encoding@, (",\"transitions\":"@ + (json_array(wire_transitions_items(a.transitions@)) + ("}"@ + r1))), b.encoding@, (",\"transitions\":"@ + (json_array(wire_transitions_items(b.transitions@)) + ("}"@ + r2))));
    lemma_split(",\"transitions\":"@, json_array(wire_transitions_items(a.transitions@)) + ("}"@ + r1), ",\"transitions\":"@, json_array(wire_transitions_items(b.transitions@)) + ("}"@ + r2));
    law_wire_transitions_prefix_free(a.transitions@, ("}"@ + r1), b.transitions@, ("}"@ + r2));
    lemma_split("}"@, r1, "}"@, r2);

}

/// Both plans leave the wire dictionary out, or both have dictionaries that agree.
pub open spec fn same_wire_member(a: Option<CompactWirePlan>, b: Option<CompactWirePlan>) -> bool {
    match (a, b) {
        (Some(x), Some(y)) => same_wire_plan(x, y),
        (None, None) => true,
        _ => false,
    }
}

/// The wire member of a plan's text determines the wire dictionary.
pub proof fn law_wire_member_json_injective(a: Option<CompactWirePlan>, b: Option<CompactWirePlan>)
    requires
        wire_member_json(a) == wire_member_json(b),
    ensures
        same_wire_member(a, b),
{
    reveal_strlit(",\"wire\":");
    match (a, b) {
        (Some(x), Some(y)) => {
            let r = Seq::<char>::empty();
            lemma_split(",\"wire\":"@, wire_plan_json(x), ",\"wire\":"@, wire_plan_json(y));
            assert(wire_plan_json(x) + r =~= wire_plan_json(x));
            assert(wire_plan_json(y) + r =~= wire_plan_json(y));
            law_wire_plan_json_prefix_free(x, r, y, r);
        },
        (Some(x), None) => {
            assert(wire_member_json(a).len() > 0);
        },
        (None, Some(y)) => {
            assert(wire_member_json(b).len() > 0);
        },
        (None, None) => {},
    }
}

} // verus!
