//! The byte-wise lexicographic order of peer IDs, in which discovery lists the
//! providers it found: sorted, each once, so that every node lists them alike.

use crate::digest::{bytes_equal, copy_bytes};
use vstd::prelude::*;

verus! {

/// The first position at or after `i` where `a` and `b` differ, or where the
/// shorter of them ends.
pub open spec fn first_difference(a: Seq<u8>, b: Seq<u8>, i: nat) -> nat
    decreases a.len() - i,
{
    if i < a.len() && i < b.len() && a[i as int] == b[i as int] {
        first_difference(a, b, i + 1)
    } else {
        i
    }
}

/// Whether `a` comes before `b` in lexicographic byte order: at the first
/// difference `a` holds the smaller byte, or `a` is a proper prefix of `b`.
pub open spec fn lex_lt(a: Seq<u8>, b: Seq<u8>) -> bool {
    let d = first_difference(a, b, 0);
    if d < a.len() && d < b.len() {
        a[d as int] < b[d as int]
    } else {
        d == a.len() && d < b.len()
    }
}

/// Every element comes before each later one: sorted, with no element twice.
pub open spec fn strictly_sorted(s: Seq<Seq<u8>>) -> bool {
    forall|i: int, j: int| 0 <= i < j < s.len() ==> lex_lt(#[trigger] s[i], #[trigger] s[j])
}

/// The byte strings of a sequence of byte vectors.
pub open spec fn byte_views(s: Seq<Vec<u8>>) -> Seq<Seq<u8>> {
    s.map_values(|p: Vec<u8>| p@)
}

proof fn lemma_first_difference(a: Seq<u8>, b: Seq<u8>, i: nat)
    requires
        i <= a.len(),
        i <= b.len(),
    ensures
        i <= first_difference(a, b, i) <= a.len(),
        first_difference(a, b, i) <= b.len(),
        forall|j: int| i <= j < first_difference(a, b, i) ==> a[j] == b[j],
        first_difference(a, b, i) < a.len() && first_difference(a, b, i) < b.len() ==> a[first_difference(a, b, i) as int] != b[first_difference(a, b, i) as int],
    decreases a.len() - i,
{
    if i < a.len() && i < b.len() && a[i as int] == b[i as int] {
        lemma_first_difference(a, b, i + 1);
    }
}

/// The first difference is the one position that has its defining properties.
proof fn lemma_difference_at(a: Seq<u8>, b: Seq<u8>, d: nat)
    requires
        d <= a.len(),
        d <= b.len(),
        forall|j: int| 0 <= j < d ==> a[j] == b[j],
        d < a.len() && d < b.len() ==> a[d as int] != b[d as int],
    ensures
        first_difference(a, b, 0) == d,
{
    lemma_first_difference(a, b, 0);
    let d0 = first_difference(a, b, 0);
    if d0 < d {
        assert(a[d0 as int] == b[d0 as int]);
    } else if d < d0 {
        assert(a[d as int] == b[d as int]);
    }
}

/// No byte string comes before itself.
pub proof fn lemma_lex_irreflexive(a: Seq<u8>)
    ensures
        !lex_lt(a, a),
{
    lemma_difference_at(a, a, a.len());
}

/// Two byte strings cannot each come before the other.
pub proof fn lemma_lex_asymmetric(a: Seq<u8>, b: Seq<u8>)
    ensures
        !(lex_lt(a, b) && lex_lt(b, a)),
{
    lemma_first_difference(a, b, 0);
    let d = first_difference(a, b, 0);
    lemma_difference_at(b, a, d);
}

/// Of two different byte strings, one comes before the other.
pub proof fn lemma_lex_total(a: Seq<u8>, b: Seq<u8>)
    requires
        a != b,
    ensures
        lex_lt(a, b) || lex_lt(b, a),
{
    lemma_first_difference(a, b, 0);
    let d = first_difference(a, b, 0);
    lemma_difference_at(b, a, d);
    if !(d < a.len() && d < b.len()) && a.len() == b.len() {
        assert(a =~= b);
    }
}

/// The order is transitive.
pub proof fn lemma_lex_transitive(a: Seq<u8>, b: Seq<u8>, c: Seq<u8>)
    requires
        lex_lt(a, b),
        lex_lt(b, c),
    ensures
        lex_lt(a, c),
{
    lemma_first_difference(a, b, 0);
    lemma_first_difference(b, c, 0);
    let d1 = first_difference(a, b, 0);
    let d2 = first_difference(b, c, 0);
    let d = if d1 <= d2 { d1 } else { d2 };
    assert forall|j: int| 0 <= j < d implies a[j] == c[j] by {
        assert(a[j] == b[j]);
        assert(b[j] == c[j]);
    }
    if d1 < d2 {
        if d1 < a.len() && d1 < b.len() {
            assert(b[d1 as int] == c[d1 as int]);
        }
        lemma_difference_at(a, c, d1);
    } else if d2 < d1 {
        assert(a[d2 as int] == b[d2 as int]);
        lemma_difference_at(a, c, d2);
    } else {
        lemma_difference_at(a, c, d1);
    }
}

/// Two strictly sorted sequences that hold the same elements are the same
/// sequence: the order is canonical, whatever order the elements came in.
pub proof fn law_sorted_order_is_canonical(a: Seq<Seq<u8>>, b: Seq<Seq<u8>>)
    requires
        strictly_sorted(a),
        strictly_sorted(b),
        a.to_set() == b.to_set(),
    ensures
        a == b,
    decreases a.len(),
{
    if a.len() == 0 {
        if b.len() > 0 {
            assert(b.to_set().contains(b[0]));
            assert(a.to_set().contains(b[0]));
        }
        assert(a =~= b);
    } else {
        assert(a.to_set().contains(a[0]));
        assert(b.to_set().contains(a[0]));
        assert(b.len() > 0);
        assert(a.to_set().contains(b[0]));
        if a[0] != b[0] {
            let j = b.index_of(a[0]);
            let k = a.index_of(b[0]);
            assert(b[j] == a[0]);
            assert(a[k] == b[0]);
            assert(j != 0 && k != 0);
            assert(lex_lt(b[0], b[j]));
            assert(lex_lt(a[0], a[k]));
            lemma_lex_asymmetric(a[0], b[0]);
        }
        let ta = a.drop_first();
        let tb = b.drop_first();
        assert(strictly_sorted(ta)) by {
            assert forall|i: int, j: int| 0 <= i < j < ta.len() implies lex_lt(
                #[trigger] ta[i],
                #[trigger] ta[j],
            ) by {
                assert(ta[i] == a[i + 1] && ta[j] == a[j + 1]);
            }
        }
        assert(strictly_sorted(tb)) by {
            assert forall|i: int, j: int| 0 <= i < j < tb.len() implies lex_lt(
                #[trigger] tb[i],
                #[trigger] tb[j],
            ) by {
                assert(tb[i] == b[i + 1] && tb[j] == b[j + 1]);
            }
        }
        assert(ta.to_set() =~= tb.to_set()) by {
            assert forall|x: Seq<u8>| ta.to_set().contains(x) implies tb.to_set().contains(x) by {
                let i = ta.index_of(x);
                assert(a[i + 1] == x);
                assert(lex_lt(a[0], a[i + 1]));
                lemma_lex_irreflexive(x);
                assert(a.to_set().contains(x));
                assert(b.to_set().contains(x));
                let j = b.index_of(x);
                assert(j != 0);
                assert(tb[j - 1] == x);
            }
            assert forall|x: Seq<u8>| tb.to_set().contains(x) implies ta.to_set().contains(x) by {
                let i = tb.index_of(x);
                assert(b[i + 1] == x);
                assert(lex_lt(b[0], b[i + 1]));
                lemma_lex_irreflexive(x);
                assert(b.to_set().contains(x));
                assert(a.to_set().contains(x));
                let j = a.index_of(x);
                assert(j != 0);
                assert(ta[j - 1] == x);
            }
        }
        law_sorted_order_is_canonical(ta, tb);
        assert(a =~= seq![a[0]] + ta);
        assert(b =~= seq![b[0]] + tb);
    }
}

proof fn lemma_push_to_set(s: Seq<Seq<u8>>, x: Seq<u8>)
    ensures
        s.push(x).to_set() == s.to_set().insert(x),
{
    assert forall|v: Seq<u8>| s.push(x).to_set().contains(v) implies s.to_set().insert(x).contains(
        v,
    ) by {
        let k = s.push(x).index_of(v);
        if k < s.len() {
            assert(s[k] == v);
        }
    }
    assert forall|v: Seq<u8>| s.to_set().insert(x).contains(v) implies s.push(x).to_set().contains(
        v,
    ) by {
        if v == x {
            assert(s.push(x)[s.len() as int] == x);
        } else {
            let k = s.index_of(v);
            assert(s.push(x)[k] == v);
        }
    }
    assert(s.push(x).to_set() =~= s.to_set().insert(x));
}

/// Whether `a` comes before `b` in lexicographic byte order.
pub fn bytes_less(a: &[u8], b: &[u8]) -> (r: bool)
    ensures
        r == lex_lt(a@, b@),
{
    let mut i: usize = 0;
    while i < a.len() && i < b.len() && a[i] == b[i]
        invariant
            i <= a@.len(),
            i <= b@.len(),
            forall|j: int| 0 <= j < i ==> a@[j] == b@[j],
        decreases a@.len() - i,
    {
        i = i + 1;
    }
    proof {
        lemma_difference_at(a@, b@, i as nat);
    }
    if i < a.len() && i < b.len() {
        a[i] < b[i]
    } else {
        i == a.len() && i < b.len()
    }
}

/// The first position of a strictly sorted list whose element does not come
/// before `p`.
fn insertion_point(sorted: &Vec<Vec<u8>>, p: &[u8]) -> (j: usize)
    requires
        strictly_sorted(byte_views(sorted@)),
    ensures
        j <= sorted@.len(),
        forall|k: int| 0 <= k < j ==> lex_lt(#[trigger] sorted@[k]@, p@),
        j < sorted@.len() ==> !lex_lt(sorted@[j as int]@, p@),
{
    let mut j: usize = 0;
    while j < sorted.len()
        invariant
            j <= sorted@.len(),
            forall|k: int| 0 <= k < j ==> lex_lt(#[trigger] sorted@[k]@, p@),
        decreases sorted@.len() - j,
    {
        if !bytes_less(sorted[j].as_slice(), p) {
            return j;
        }
        j = j + 1;
    }
    j
}

/// The given byte strings sorted in lexicographic order, each once.
pub fn sort_unique(items: &[Vec<u8>]) -> (out: Vec<Vec<u8>>)
    ensures
        strictly_sorted(byte_views(out@)),
        byte_views(out@).to_set() == byte_views(items@).to_set(),
{
    let mut out: Vec<Vec<u8>> = Vec::new();
    let mut i: usize = 0;
    while i < items.len()
        invariant
            i <= items@.len(),
            strictly_sorted(byte_views(out@)),
            byte_views(out@).to_set() == byte_views(items@.take(i as int)).to_set(),
        decreases items@.len() - i,
    {
        let p = &items[i];
        let ghost pv = p@;
        let ghost before = byte_views(out@);
        proof {
            assert(byte_views(items@.take(i + 1)) =~= byte_views(items@.take(i as int)).push(pv));
        }
        let j = insertion_point(&out, p.as_slice());
        if j < out.len() && bytes_equal(out[j].as_slice(), p.as_slice()) {
            proof {
                assert(before[j as int] == pv);
                assert(byte_views(items@.take(i + 1)).to_set() =~= before.to_set()) by {
                    assert(before.to_set().contains(pv));
                    lemma_push_to_set(byte_views(items@.take(i as int)), pv);
                }
            }
        } else {
            out.insert(j, copy_bytes(p.as_slice()));
            proof {
                let after = byte_views(out@);
                assert(after =~= before.insert(j as int, pv));
                if j < before.len() {
                    assert(before[j as int] != pv);
                    lemma_lex_total(before[j as int], pv);
                }
                assert forall|x: int, y: int| 0 <= x < y < after.len() implies lex_lt(
                    #[trigger] after[x],
                    #[trigger] after[y],
                ) by {
                    if y < j {
                        assert(after[x] == before[x] && after[y] == before[y]);
                    } else if y == j {
                        assert(after[x] == before[x]);
                        assert(lex_lt(out@[x]@, pv));
                    } else if x == j {
                        assert(after[y] == before[y - 1]);
                        if y - 1 > j {
                            assert(lex_lt(before[j as int], before[y - 1]));
                            lemma_lex_transitive(pv, before[j as int], before[y - 1]);
                        }
                    } else if x < j {
                        assert(after[x] == before[x] && after[y] == before[y - 1]);
                    } else {
                        assert(after[x] == before[x - 1] && after[y] == before[y - 1]);
                    }
                }
                assert(after.to_set() =~= before.to_set().insert(pv)) by {
                    assert forall|v: Seq<u8>| after.to_set().contains(v) implies before.to_set().insert(
                        pv,
                    ).contains(v) by {
                        let k = after.index_of(v);
                        if k < j {
                            assert(before[k] == v);
                        } else if k > j {
                            assert(before[k - 1] == v);
                        }
                    }
                    assert forall|v: Seq<u8>| before.to_set().insert(pv).contains(v) implies after.to_set().contains(
                        v,
                    ) by {
                        if v == pv {
                            assert(after[j as int] == pv);
                        } else {
                            let k = before.index_of(v);
                            if k < j {
                                assert(after[k] == v);
                            } else {
                                assert(after[k + 1] == v);
                            }
                        }
                    }
                }
                lemma_push_to_set(byte_views(items@.take(i as int)), pv);
            }
        }
        i = i + 1;
    }
    proof {
        assert(items@.take(items@.len() as int) =~= items@);
    }
    out
}

} // verus!
