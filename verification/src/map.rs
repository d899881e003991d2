//! An ordered map from strings to strings, kept sorted by key.
use vstd::prelude::*;
use crate::text::{text_lt, text_less, same_text, lemma_text_lt_irreflexive, lemma_text_lt_total, lemma_text_lt_transitive};

verus! {

/// Key/value pairs as character sequences.
pub type TextPairs = Seq<(Seq<char>, Seq<char>)>;

/// Keys strictly increase in code-point order, so each key occurs once.
pub open spec fn keys_increasing(p: TextPairs) -> bool {
    forall|i: int, j: int| 0 <= i < j < p.len() ==> text_lt(#[trigger] p[i].0, #[trigger] p[j].0)
}

/// The value stored under `k`, found by the first matching entry.
pub open spec fn lookup(p: TextPairs, k: Seq<char>) -> Option<Seq<char>>
    decreases p.len(),
{
    if p.len() == 0 {
        None
    } else if p[0].0 == k {
        Some(p[0].1)
    } else {
        lookup(p.drop_first(), k)
    }
}

/// The keys of the pairs, in order.
pub open spec fn keys_of(p: TextPairs) -> Seq<Seq<char>> {
    p.map_values(|e: (Seq<char>, Seq<char>)| e.0)
}

/// The values of the pairs, in order.
pub open spec fn values_of(p: TextPairs) -> Seq<Seq<char>> {
    p.map_values(|e: (Seq<char>, Seq<char>)| e.1)
}

/// Inserting `(k, v)` into sorted pairs: an equal key has its value replaced, otherwise
/// the pair is placed before the first larger key.
pub open spec fn pairs_insert(p: TextPairs, k: Seq<char>, v: Seq<char>) -> TextPairs
    decreases p.len(),
{
    if p.len() == 0 {
        seq![(k, v)]
    } else if p[0].0 == k {
        seq![(k, v)] + p.drop_first()
    } else if text_lt(k, p[0].0) {
        seq![(k, v)] + p
    } else {
        seq![p[0]] + pairs_insert(p.drop_first(), k, v)
    }
}

pub proof fn lemma_lookup_index(p: TextPairs, k: Seq<char>)
    ensures
        lookup(p, k) is Some <==> exists|i: int| 0 <= i < p.len() && #[trigger] p[i].0 == k,
        lookup(p, k) is Some ==> exists|i: int|
            0 <= i < p.len() && #[trigger] p[i].0 == k && lookup(p, k) == Some(p[i].1)
                && forall|j: int| 0 <= j < i ==> p[j].0 != k,
    decreases p.len(),
{
    if p.len() > 0 {
        lemma_lookup_index(p.drop_first(), k);
        if p[0].0 != k {
            if exists|i: int| 0 <= i < p.len() && #[trigger] p[i].0 == k {
                let i = choose|i: int| 0 <= i < p.len() && #[trigger] p[i].0 == k;
                assert(p.drop_first()[i - 1].0 == k);
            }
            if lookup(p, k) is Some {
                let i = choose|i: int|
                    0 <= i < p.drop_first().len() && #[trigger] p.drop_first()[i].0 == k
                        && lookup(p.drop_first(), k) == Some(p.drop_first()[i].1) && forall|j: int|
                        0 <= j < i ==> p.drop_first()[j].0 != k;
                assert(p[i + 1].0 == k);
                assert forall|j: int| 0 <= j < i + 1 implies p[j].0 != k by {
                    if j > 0 {
                        assert(p[j] == p.drop_first()[j - 1]);
                    }
                }
            }
        }
    }
}

/// In sorted pairs the entry at `i` is what lookup of its key gives.
pub proof fn lemma_lookup_sorted(p: TextPairs, i: int)
    requires
        keys_increasing(p),
        0 <= i < p.len(),
    ensures
        lookup(p, p[i].0) == Some(p[i].1),
    decreases p.len(),
{
    if i > 0 {
        lemma_text_lt_irreflexive(p[0].0);
        assert(text_lt(p[0].0, p[i].0));
        assert(p[0].0 != p[i].0);
        assert(keys_increasing(p.drop_first())) by {
            assert forall|a: int, b: int| 0 <= a < b < p.drop_first().len() implies text_lt(
                #[trigger] p.drop_first()[a].0,
                #[trigger] p.drop_first()[b].0,
            ) by {
                assert(p.drop_first()[a] == p[a + 1]);
                assert(p.drop_first()[b] == p[b + 1]);
            }
        }
        lemma_lookup_sorted(p.drop_first(), i - 1);
    }
}

proof fn lemma_insert_split(p: TextPairs, k: Seq<char>, v: Seq<char>, i: int)
    requires
        keys_increasing(p),
        0 <= i <= p.len(),
        forall|j: int| 0 <= j < i ==> text_lt(#[trigger] p[j].0, k),
        i < p.len() ==> !text_lt(p[i].0, k),
    ensures
        i < p.len() && p[i].0 == k ==> pairs_insert(p, k, v) == p.subrange(0, i).push((k, v))
            + p.subrange(i + 1, p.len() as int),
        !(i < p.len() && p[i].0 == k) ==> pairs_insert(p, k, v) == p.subrange(0, i).push((k, v))
            + p.subrange(i, p.len() as int),
    decreases i,
{
    if i == 0 {
        if p.len() > 0 {
            if p[0].0 != k {
                lemma_text_lt_total(p[0].0, k);
            }
        }
        assert(p.subrange(0, 0).push((k, v)) =~= seq![(k, v)]);
        if p.len() > 0 {
            assert(p.subrange(1, p.len() as int) =~= p.drop_first());
        }
        assert(p.subrange(0, p.len() as int) =~= p);
    } else {
        let q = p.drop_first();
        assert(keys_increasing(q)) by {
            assert forall|a: int, b: int| 0 <= a < b < q.len() implies text_lt(
                #[trigger] q[a].0,
                #[trigger] q[b].0,
            ) by {
                assert(q[a] == p[a + 1]);
                assert(q[b] == p[b + 1]);
            }
        }
        assert forall|j: int| 0 <= j < i - 1 implies text_lt(#[trigger] q[j].0, k) by {
            assert(q[j] == p[j + 1]);
        }
        lemma_insert_split(q, k, v, i - 1);
        assert(text_lt(p[0].0, k));
        lemma_text_lt_irreflexive(k);
        lemma_text_lt_total(p[0].0, k);
        assert(p[0].0 != k);
        assert(!text_lt(k, p[0].0));
        assert(p.subrange(0, i).push((k, v)) =~= seq![p[0]] + q.subrange(0, i - 1).push((k, v)));
        if i < p.len() {
            assert(p.subrange(i + 1, p.len() as int) =~= q.subrange(i, q.len() as int));
        }
        assert(p.subrange(i, p.len() as int) =~= q.subrange(i - 1, q.len() as int));
    }
}

/// A map from strings to strings whose entries are kept in increasing key order.
#[derive(Debug, PartialEq, Eq)]
pub struct StrMap {
    entries: Vec<(String, String)>,
}

impl View for StrMap {
    type V = TextPairs;

    closed spec fn view(&self) -> TextPairs {
        self.entries@.map_values(|e: (String, String)| (e.0@, e.1@))
    }
}

impl StrMap {
    #[verifier::type_invariant]
    closed spec fn sorted(&self) -> bool {
        keys_increasing(self@)
    }

    pub fn new() -> (m: Self)
        ensures
            m@ == Seq::<(Seq<char>, Seq<char>)>::empty(),
    {
        let m = StrMap { entries: Vec::new() };
        assert(m@ =~= Seq::<(Seq<char>, Seq<char>)>::empty());
        m
    }

    /// The number of entries; the keys of every map increase.
    pub fn len(&self) -> (n: usize)
        ensures
            n == self@.len(),
            keys_increasing(self@),
    {
        proof {
            use_type_invariant(self);
        }
        self.entries.len()
    }

    pub fn is_empty(&self) -> (b: bool)
        ensures
            b == (self@.len() == 0),
    {
        self.entries.len() == 0
    }

    /// The key of the `i`-th entry.
    pub fn key_at(&self, i: usize) -> (k: &String)
        requires
            i < self@.len(),
        ensures
            k@ == self@[i as int].0,
    {
        &self.entries[i].0
    }

    /// The value of the `i`-th entry.
    pub fn value_at(&self, i: usize) -> (v: &String)
        requires
            i < self@.len(),
        ensures
            v@ == self@[i as int].1,
    {
        &self.entries[i].1
    }

    /// The value stored under `key`, if any.
    pub fn get(&self, key: &str) -> (r: Option<&String>)
        ensures
            match r {
                Some(v) => lookup(self@, key@) == Some(v@),
                None => lookup(self@, key@) is None,
            },
    {
        let mut i: usize = 0;
        assert(self@.skip(0) =~= self@);
        while i < self.entries.len()
            invariant
                i <= self@.len(),
                self@.len() == self.entries@.len(),
                lookup(self@, key@) == lookup(self@.skip(i as int), key@),
            decreases self.entries.len() - i,
        {
            assert(self@.skip(i as int).drop_first() =~= self@.skip(i + 1));
            if same_text(self.entries[i].0.as_str(), key) {
                return Some(&self.entries[i].1);
            }
            i = i + 1;
        }
        None
    }

    /// Whether some entry has key `key`.
    pub fn contains_key(&self, key: &str) -> (b: bool)
        ensures
            b == (lookup(self@, key@) is Some),
    {
        self.get(key).is_some()
    }

    /// Stores `value` under `key`, replacing an existing value.
    pub fn insert(&mut self, key: String, value: String)
        ensures
            final(self)@ == pairs_insert(old(self)@, key@, value@),
    {
        proof {
            use_type_invariant(&*self);
        }
        let ghost before = self@;
        let mut entries: Vec<(String, String)> = Vec::new();
        std::mem::swap(&mut entries, &mut self.entries);
        assert(entries.len() == before.len());
        let mut i: usize = 0;
        while i < entries.len() && text_less(entries[i].0.as_str(), key.as_str())
            invariant
                entries.len() == before.len(),
                forall|j: int|
                    0 <= j < entries.len() ==> before[j] == (#[trigger] entries@[j].0@, entries@[j].1@),
                i <= entries.len(),
                forall|j: int| 0 <= j < i ==> text_lt(#[trigger] before[j].0, key@),
            decreases entries.len() - i,
        {
            assert(before[i as int] == (entries@[i as int].0@, entries@[i as int].1@));
            i = i + 1;
        }
        proof {
            lemma_insert_split(before, key@, value@, i as int);
        }
        let ghost k = key@;
        let ghost v = value@;
        let ghost old_entries = entries@;
        if i < entries.len() && same_text(entries[i].0.as_str(), key.as_str()) {
            entries.set(i, (key, value));
            assert(entries@ == old_entries.update(i as int, (key, value)));
        } else {
            entries.insert(i, (key, value));
            assert(entries@ == old_entries.insert(i as int, (key, value)));
        }
        proof {
            let after = pairs_insert(before, k, v);
            assert(keys_increasing(after)) by {
                assert forall|a: int, b: int| 0 <= a < b < after.len() implies text_lt(
                    #[trigger] after[a].0,
                    #[trigger] after[b].0,
                ) by {
                    if a < i && b < i {
                    } else if a < i && b == i {
                    } else if a == i {
                        if i < before.len() && before[i as int].0 == k {
                            assert(after[b] == before[b]);
                            assert(text_lt(before[i as int].0, before[b].0));
                        } else {
                            assert(after[b] == before[b - 1]);
                            if b - 1 > i {
                                assert(text_lt(before[i as int].0, before[b - 1].0));
                                lemma_text_lt_total(before[i as int].0, k);
                                if before[i as int].0 != k {
                                    lemma_text_lt_transitive(k, before[i as int].0, before[b - 1].0);
                                }
                            } else {
                                lemma_text_lt_total(before[i as int].0, k);
                            }
                        }
                    } else if a < i {
                        if i < before.len() && before[i as int].0 == k {
                            assert(after[b] == before[b]);
                            lemma_text_lt_transitive(before[a].0, k, before[b].0);
                        } else {
                            assert(after[b] == before[b - 1]);
                        }
                    } else {
                        if i < before.len() && before[i as int].0 == k {
                            assert(after[a] == before[a]);
                            assert(after[b] == before[b]);
                        } else {
                            assert(after[a] == before[a - 1]);
                            assert(after[b] == before[b - 1]);
                        }
                    }
                }
            }
        }
        let ghost after = pairs_insert(before, k, v);
        assert(entries.len() == after.len() && forall|j: int|
            0 <= j < entries.len() ==> after[j] == (#[trigger] entries@[j].0@, entries@[j].1@));
        self.entries = entries;
        assert(self@ =~= after);
    }

    /// A copy of the map.
    pub fn duplicate(&self) -> (m: Self)
        ensures
            m@ == self@,
    {
        proof {
            use_type_invariant(self);
        }
        let mut entries: Vec<(String, String)> = Vec::new();
        let mut i: usize = 0;
        while i < self.entries.len()
            invariant
                i <= self.entries.len(),
                entries.len() == i,
                forall|j: int|
                    0 <= j < i ==> self@[j] == (#[trigger] entries@[j].0@, entries@[j].1@),
                self@.len() == self.entries@.len(),
            decreases self.entries.len() - i,
        {
            let k = self.entries[i].0.clone();
            let v = self.entries[i].1.clone();
            entries.push((k, v));
            i = i + 1;
        }
        let m = StrMap { entries };
        assert(m@ =~= self@);
        m
    }
}

impl Clone for StrMap {
    fn clone(&self) -> (m: Self)
        ensures
            m@ == self@,
    {
        self.duplicate()
    }
}

} // verus!
