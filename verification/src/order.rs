//! The order of texts, and sorting by it.

use vstd::prelude::*;
use crate::text::precedes;
use crate::text::texts;
use crate::text::to_chars;

verus! {

/// Whether `a` comes strictly before `b` in the order of texts.
pub fn text_precedes(a: &Vec<char>, b: &Vec<char>) -> (r: bool)
    ensures
        r == precedes(a@, b@),
{
    let mut i: usize = 0;
    assert(a@.skip(0) =~= a@);
    assert(b@.skip(0) =~= b@);
    while i < a.len() && i < b.len()
        invariant
            i <= a.len(),
            i <= b.len(),
            precedes(a@, b@) == precedes(a@.skip(i as int), b@.skip(i as int)),
        decreases a.len() - i,
    {
        let ghost ra = a@.skip(i as int);
        let ghost rb = b@.skip(i as int);
        assert(ra[0] == a@[i as int]);
        assert(rb[0] == b@[i as int]);
        assert(ra.drop_first() =~= a@.skip(i + 1));
        assert(rb.drop_first() =~= b@.skip(i + 1));
        if a[i] != b[i] {
            return a[i] < b[i];
        }
        i += 1;
    }
    i < b.len()
}

/// No text comes before itself.
pub proof fn lemma_precedes_irreflexive(a: Seq<char>)
    ensures
        !precedes(a, a),
    decreases a.len(),
{
    if a.len() > 0 {
        lemma_precedes_irreflexive(a.drop_first());
    }
}

/// The order of texts is transitive.
pub proof fn lemma_precedes_transitive(a: Seq<char>, b: Seq<char>, c: Seq<char>)
    requires
        precedes(a, b),
        precedes(b, c),
    ensures
        precedes(a, c),
    decreases a.len(),
{
    if a.len() > 0 && b.len() > 0 && c.len() > 0 && a[0] == b[0] && b[0] == c[0] {
        lemma_precedes_transitive(a.drop_first(), b.drop_first(), c.drop_first());
    }
}

/// Of two different texts, one comes before the other.
pub proof fn lemma_precedes_total(a: Seq<char>, b: Seq<char>)
    ensures
        precedes(a, b) || precedes(b, a) || a == b,
    decreases a.len(),
{
    if a.len() > 0 && b.len() > 0 && a[0] == b[0] {
        lemma_precedes_total(a.drop_first(), b.drop_first());
        if a.drop_first() == b.drop_first() {
            assert(a =~= seq![a[0]] + a.drop_first());
            assert(b =~= seq![b[0]] + b.drop_first());
        }
    } else if a.len() == 0 && b.len() == 0 {
        assert(a =~= b);
    }
}

/// What does not come after a text that does not come after a third does
/// not come after the third.
pub proof fn lemma_not_after_transitive(a: Seq<char>, b: Seq<char>, c: Seq<char>)
    requires
        !precedes(b, a),
        !precedes(c, b),
    ensures
        !precedes(c, a),
{
    lemma_precedes_total(a, b);
    lemma_precedes_total(b, c);
    if precedes(c, a) {
        if a == b {
        } else if b == c {
        } else {
            lemma_precedes_transitive(c, a, b);
            lemma_precedes_irreflexive(c);
            lemma_precedes_transitive(b, c, a);
        }
    }
}

/// The positions are those of the keys, each once.
pub open spec fn is_arrangement(order: Seq<usize>, n: nat) -> bool {
    &&& order.len() == n
    &&& forall|i: int| 0 <= i < order.len() ==> (#[trigger] order[i]) < n
    &&& forall|i: int, j: int|
        0 <= i < order.len() && 0 <= j < order.len() && i != j ==> #[trigger] order[i]
            != #[trigger] order[j]
}

/// The keys, taken in this order, never go down, and keys that are equal
/// stay in the order in which they stood.
pub open spec fn is_stably_sorted(order: Seq<usize>, keys: Seq<Seq<char>>) -> bool {
    forall|i: int, j: int|
        0 <= i < j < order.len() ==> {
            &&& !precedes(keys[(#[trigger] order[j]) as int], keys[(#[trigger] order[i]) as int])
            &&& keys[order[i] as int] == keys[order[j] as int] ==> order[i] < order[j]
        }
}

/// The order in which the keys are sorted: the positions of the keys,
/// each once, such that the keys never go down and equal keys keep their
/// order.
pub fn sorted_order(keys: &Vec<String>) -> (order: Vec<usize>)
    ensures
        is_arrangement(order@, keys.len() as nat),
        is_stably_sorted(order@, texts(keys@)),
{
    let ghost ks = texts(keys@);
    let mut order: Vec<usize> = Vec::new();
    let mut k: usize = 0;
    while k < keys.len()
        invariant
            k <= keys.len(),
            ks == texts(keys@),
            order.len() == k,
            forall|i: int| 0 <= i < order.len() ==> (#[trigger] order@[i]) < k,
            forall|i: int, j: int|
                0 <= i < order.len() && 0 <= j < order.len() && i != j ==> #[trigger] order@[i]
                    != #[trigger] order@[j],
            is_stably_sorted(order@, ks),
        decreases keys.len() - k,
    {
        let key = to_chars(keys[k].as_str());
        assert(key@ == ks[k as int]);
        // The new key goes behind every key that does not come after it.
        let mut p: usize = order.len();
        while p > 0 && text_precedes(&key, &to_chars(keys[order[p - 1]].as_str()))
            invariant
                p <= order.len(),
                order.len() == k,
                k < keys.len(),
                ks == texts(keys@),
                key@ == ks[k as int],
                forall|i: int| 0 <= i < order.len() ==> (#[trigger] order@[i]) < k,
                forall|i: int| p <= i < order.len() ==> precedes(key@, ks[(#[trigger] order@[i]) as int]),
            decreases p,
        {
            p -= 1;
        }
        let ghost before = order@;
        order.insert(p, k);
        proof {
            let after = order@;
            assert forall|i: int, j: int| 0 <= i < j < after.len() implies {
                &&& !precedes(ks[(#[trigger] after[j]) as int], ks[(#[trigger] after[i]) as int])
                &&& ks[after[i] as int] == ks[after[j] as int] ==> after[i] < after[j]
            } by {
                let key_i = ks[after[i] as int];
                let key_j = ks[after[j] as int];
                if j < p {
                    assert(after[i] == before[i] && after[j] == before[j]);
                } else if j == p {
                    // The new key: what stands before it does not come after it.
                    assert(after[i] == before[i]);
                    if p > 0 {
                        assert(!precedes(key@, ks[before[p - 1] as int]));
                        if i < p - 1 {
                            assert(!precedes(ks[before[p - 1] as int], ks[before[i] as int]));
                            lemma_not_after_transitive(
                                ks[before[i] as int],
                                ks[before[p - 1] as int],
                                key@,
                            );
                        }
                    }
                } else if i == p {
                    // What stands behind the new key comes after it.
                    assert(after[j] == before[j - 1]);
                    assert(precedes(key@, key_j));
                    lemma_precedes_irreflexive(key@);
                    if precedes(key_j, key@) {
                        lemma_precedes_transitive(key@, key_j, key@);
                    }
                } else if i < p {
                    assert(after[i] == before[i] && after[j] == before[j - 1]);
                } else {
                    assert(after[i] == before[i - 1] && after[j] == before[j - 1]);
                }
            }
            assert forall|i: int, j: int|
                0 <= i < after.len() && 0 <= j < after.len() && i != j implies #[trigger] after[i]
                != #[trigger] after[j] by {
                if i != p && j != p {
                    let bi = if i < p {
                        i
                    } else {
                        i - 1
                    };
                    let bj = if j < p {
                        j
                    } else {
                        j - 1
                    };
                    assert(after[i] == before[bi] && after[j] == before[bj]);
                } else if i == p {
                    let bj = if j < p {
                        j
                    } else {
                        j - 1
                    };
                    assert(after[j] == before[bj]);
                } else {
                    let bi = if i < p {
                        i
                    } else {
                        i - 1
                    };
                    assert(after[i] == before[bi]);
                }
            }
            assert forall|i: int| 0 <= i < after.len() implies (#[trigger] after[i]) < k + 1 by {
                if i < p {
                    assert(after[i] == before[i]);
                } else if i > p {
                    assert(after[i] == before[i - 1]);
                }
            }
        }
        k += 1;
    }
    order
}

} // verus!
