//! Lexicographic order on character sequences, and the sorted-permutation
//! facts the canonical capability order rests on.

use vstd::prelude::*;
use vstd::seq_lib::*;
use vstd::multiset::*;

verus! {

/// Code-point order on characters. UTF-8 preserves it, so this is also the
/// byte order `String`'s `Ord` uses.
pub open spec fn char_lt(a: char, b: char) -> bool {
    a < b
}

/// Strict lexicographic order on character sequences.
pub open spec fn lex_lt(a: Seq<char>, b: Seq<char>) -> bool
    decreases a.len(),
{
    if b.len() == 0 {
        false
    } else if a.len() == 0 {
        true
    } else if a[0] != b[0] {
        char_lt(a[0], b[0])
    } else {
        lex_lt(a.drop_first(), b.drop_first())
    }
}

pub proof fn lemma_lex_irreflexive(a: Seq<char>)
    ensures
        !lex_lt(a, a),
    decreases a.len(),
{
    if a.len() > 0 {
        lemma_lex_irreflexive(a.drop_first());
    }
}

pub proof fn lemma_lex_asymmetric(a: Seq<char>, b: Seq<char>)
    ensures
        !(lex_lt(a, b) && lex_lt(b, a)),
    decreases a.len(),
{
    if a.len() > 0 && b.len() > 0 && a[0] == b[0] {
        lemma_lex_asymmetric(a.drop_first(), b.drop_first());
    }
}

pub proof fn lemma_lex_transitive(a: Seq<char>, b: Seq<char>, c: Seq<char>)
    requires
        lex_lt(a, b),
        lex_lt(b, c),
    ensures
        lex_lt(a, c),
    decreases a.len(),
{
    if a.len() > 0 && b.len() > 0 && c.len() > 0 && a[0] == b[0] && b[0] == c[0] {
        lemma_lex_transitive(a.drop_first(), b.drop_first(), c.drop_first());
    }
}

pub proof fn lemma_lex_total(a: Seq<char>, b: Seq<char>)
    ensures
        a == b || lex_lt(a, b) || lex_lt(b, a),
    decreases a.len(),
{
    if a.len() > 0 && b.len() > 0 && a[0] == b[0] {
        lemma_lex_total(a.drop_first(), b.drop_first());
        if a.drop_first() == b.drop_first() {
            assert(a =~= seq![a[0]] + a.drop_first());
            assert(b =~= seq![b[0]] + b.drop_first());
        }
    } else if a.len() == 0 && b.len() == 0 {
        assert(a =~= b);
    }
}

/// `lex_lt` on two slices.
pub fn lex_lt_exec(a: &[char], b: &[char]) -> (r: bool)
    ensures
        r == lex_lt(a@, b@),
{
    let mut i: usize = 0;
    assert(a@.subrange(0, a@.len() as int) =~= a@);
    assert(b@.subrange(0, b@.len() as int) =~= b@);
    while i < a.len() && i < b.len() && a[i] == b[i]
        invariant
            i <= a@.len(),
            i <= b@.len(),
            lex_lt(a@, b@) == lex_lt(a@.subrange(i as int, a@.len() as int), b@.subrange(i as int, b@.len() as int)),
        decreases a@.len() - i,
    {
        proof {
            let sa = a@.subrange(i as int, a@.len() as int);
            let sb = b@.subrange(i as int, b@.len() as int);
            assert(sa.drop_first() =~= a@.subrange(i + 1, a@.len() as int));
            assert(sb.drop_first() =~= b@.subrange(i + 1, b@.len() as int));
        }
        i += 1;
    }
    if i == b.len() {
        false
    } else if i == a.len() {
        true
    } else {
        a[i] < b[i]
    }
}

/// An ordering key: a name, then a version.
pub type Key = (Seq<char>, u32);

/// Strict order on keys: by name, then by version.
pub open spec fn key_lt(x: Key, y: Key) -> bool {
    lex_lt(x.0, y.0) || (x.0 == y.0 && x.1 < y.1)
}

pub open spec fn key_le(x: Key, y: Key) -> bool {
    key_lt(x, y) || x == y
}

/// Non-decreasing under `key_le`.
pub open spec fn sorted(s: Seq<Key>) -> bool {
    forall|i: int, j: int| 0 <= i < j < s.len() ==> #[trigger] key_le(s[i], s[j])
}

pub proof fn lemma_key_lt_transitive(x: Key, y: Key, z: Key)
    requires
        key_lt(x, y),
        key_lt(y, z),
    ensures
        key_lt(x, z),
{
    if lex_lt(x.0, y.0) && lex_lt(y.0, z.0) {
        lemma_lex_transitive(x.0, y.0, z.0);
    }
}

pub proof fn lemma_key_le_transitive(x: Key, y: Key, z: Key)
    requires
        key_le(x, y),
        key_le(y, z),
    ensures
        key_le(x, z),
{
    if key_lt(x, y) && key_lt(y, z) {
        lemma_key_lt_transitive(x, y, z);
    }
}

pub proof fn lemma_key_total(x: Key, y: Key)
    ensures
        key_le(x, y) || key_lt(y, x),
{
    lemma_lex_total(x.0, y.0);
}

pub proof fn lemma_key_antisymmetric(x: Key, y: Key)
    requires
        key_le(x, y),
        key_le(y, x),
    ensures
        x == y,
{
    lemma_lex_asymmetric(x.0, y.0);
    lemma_lex_irreflexive(x.0);
}

/// Two sorted sequences holding the same keys are the same sequence.
pub proof fn lemma_sorted_unique(a: Seq<Key>, b: Seq<Key>)
    requires
        sorted(a),
        sorted(b),
        a.to_multiset() == b.to_multiset(),
    ensures
        a == b,
    decreases a.len(),
{
    broadcast use group_to_multiset_ensures, group_multiset_axioms;

    to_multiset_len(a);
    to_multiset_len(b);
    if a.len() == 0 {
        assert(a =~= b);
    } else {
        to_multiset_contains(a, a[0]);
        to_multiset_contains(b, a[0]);
        to_multiset_contains(b, b[0]);
        to_multiset_contains(a, b[0]);
        let j = choose|j: int| 0 <= j < b.len() && b[j] == a[0];
        let k = choose|k: int| 0 <= k < a.len() && a[k] == b[0];
        if j > 0 {
            assert(key_le(b[0], b[j]));
        }
        if k > 0 {
            assert(key_le(a[0], a[k]));
        }
        lemma_key_antisymmetric(a[0], b[0]);
        to_multiset_remove(a, 0);
        to_multiset_remove(b, 0);
        assert(a.remove(0) =~= a.drop_first());
        assert(b.remove(0) =~= b.drop_first());
        lemma_sorted_unique(a.drop_first(), b.drop_first());
        assert(a =~= seq![a[0]] + a.drop_first());
        assert(b =~= seq![b[0]] + b.drop_first());
    }
}

/// The multiset of a one-element sequence.
pub proof fn lemma_singleton_multiset<A>(x: A)
    ensures
        seq![x].to_multiset() == Multiset::<A>::empty().insert(x),
{
    to_multiset_len(Seq::<A>::empty());
    lemma_multiset_empty_len(Seq::<A>::empty().to_multiset());
    to_multiset_build(Seq::<A>::empty(), x);
    assert(seq![x] =~= Seq::<A>::empty().push(x));
}

/// Inserting `x` at `p` keeps a sorted sequence sorted when every key before
/// `p` is at most `x` and the key at `p`, if any, is above it.
pub proof fn lemma_insert_sorted(s: Seq<Key>, p: int, x: Key)
    requires
        sorted(s),
        0 <= p <= s.len(),
        forall|k: int| 0 <= k < p ==> key_le(#[trigger] s[k], x),
        p < s.len() ==> key_lt(x, s[p]),
    ensures
        sorted(s.insert(p, x)),
{
    let t = s.insert(p, x);
    assert forall|i: int, j: int| 0 <= i < j < t.len() implies #[trigger] key_le(t[i], t[j]) by {
        if i < p && j == p {
        } else if i < p && j > p {
            if j - 1 > p {
                assert(key_le(s[p], s[j - 1]));
                lemma_key_le_transitive(x, s[p], s[j - 1]);
            }
            lemma_key_le_transitive(s[i], x, s[j - 1]);
        } else if i == p {
            if j - 1 > p {
                assert(key_le(s[p], s[j - 1]));
                lemma_key_le_transitive(x, s[p], s[j - 1]);
            }
        } else if i > p {
            assert(key_le(s[i - 1], s[j - 1]));
        } else {
            assert(key_le(s[i], s[j]));
        }
    }
}

} // verus!
