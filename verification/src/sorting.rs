//! Sorting of texts in lexicographic order of their characters.

use vstd::prelude::*;
use crate::text::{chars_of, views};

verus! {

/// Whether `a` stands at or before `b` in lexicographic order of code points.
pub open spec fn precedes(a: Seq<char>, b: Seq<char>) -> bool
    decreases a.len(),
{
    if a.len() == 0 {
        true
    } else if b.len() == 0 {
        false
    } else if a[0] != b[0] {
        (a[0] as u32) < (b[0] as u32)
    } else {
        precedes(a.drop_first(), b.drop_first())
    }
}

/// Each text of `s` stands at or before every later one.
pub open spec fn sorted(s: Seq<Seq<char>>) -> bool {
    forall|i: int, j: int| 0 <= i < j < s.len() ==> precedes(s[i], s[j])
}

/// Of two texts one stands at or before the other.
pub proof fn lemma_precedes_total(a: Seq<char>, b: Seq<char>)
    ensures
        precedes(a, b) || precedes(b, a),
    decreases a.len(),
{
    if a.len() > 0 && b.len() > 0 {
        if a[0] == b[0] {
            lemma_precedes_total(a.drop_first(), b.drop_first());
        } else {
            vstd::utf8::char_u32_cast(a[0], a[0] as u32);
            vstd::utf8::char_u32_cast(b[0], b[0] as u32);
        }
    }
}

/// The order is transitive.
pub proof fn lemma_precedes_transitive(a: Seq<char>, b: Seq<char>, c: Seq<char>)
    requires
        precedes(a, b),
        precedes(b, c),
    ensures
        precedes(a, c),
    decreases a.len(),
{
    if a.len() > 0 && b.len() > 0 && c.len() > 0 && a[0] == b[0] && b[0] == c[0] {
        lemma_precedes_transitive(a.drop_first(), b.drop_first(), c.drop_first());
    }
}

/// Two texts that each stand at or before the other are the same text.
pub proof fn lemma_precedes_antisymmetric(a: Seq<char>, b: Seq<char>)
    requires
        precedes(a, b),
        precedes(b, a),
    ensures
        a == b,
    decreases a.len(),
{
    if a.len() > 0 && b.len() > 0 {
        assert(a[0] == b[0]);
        lemma_precedes_antisymmetric(a.drop_first(), b.drop_first());
        assert(a =~= seq![a[0]] + a.drop_first());
        assert(b =~= seq![b[0]] + b.drop_first());
    } else {
        assert(a =~= b);
    }
}

/// The order of texts as a relation.
pub open spec fn text_order() -> spec_fn(Seq<char>, Seq<char>) -> bool {
    |a: Seq<char>, b: Seq<char>| precedes(a, b)
}

/// The texts of `s` in ascending order.
pub open spec fn sorted_texts(s: Seq<Seq<char>>) -> Seq<Seq<char>> {
    s.sort_by(text_order())
}

/// Every text stands at or before itself.
pub proof fn lemma_precedes_reflexive(a: Seq<char>)
    ensures
        precedes(a, a),
    decreases a.len(),
{
    if a.len() > 0 {
        lemma_precedes_reflexive(a.drop_first());
    }
}

/// The order of texts is a total order.
pub proof fn lemma_text_order_total()
    ensures
        vstd::relations::total_ordering(text_order()),
{
    let r = text_order();
    assert forall|x: Seq<char>| #[trigger] r(x, x) by {
        lemma_precedes_reflexive(x);
    }
    assert forall|x: Seq<char>, y: Seq<char>| #[trigger] r(x, y) && #[trigger] r(y, x) implies x
        == y by {
        lemma_precedes_antisymmetric(x, y);
    }
    assert forall|x: Seq<char>, y: Seq<char>, z: Seq<char>| #[trigger]
        r(x, y) && #[trigger] r(y, z) implies r(x, z) by {
        lemma_precedes_transitive(x, y, z);
    }
    assert forall|x: Seq<char>, y: Seq<char>| #[trigger] r(x, y) || #[trigger] r(y, x) by {
        lemma_precedes_total(x, y);
    }
}

/// The ascending order of some texts is the one rearrangement of them that is sorted.
pub proof fn lemma_sorted_texts(s: Seq<Seq<char>>, out: Seq<Seq<char>>)
    requires
        sorted(out),
        out.to_multiset() == s.to_multiset(),
    ensures
        out == sorted_texts(s),
{
    lemma_text_order_total();
    s.lemma_sort_by_ensures(text_order());
    assert(vstd::relations::sorted_by(out, text_order()));
    vstd::seq_lib::lemma_sorted_unique(out, sorted_texts(s), text_order());
}

/// Whether `a` stands at or before `b` in lexicographic order of code points.
pub fn text_precedes(a: &str, b: &str) -> (out: bool)
    ensures
        out == precedes(a@, b@),
{
    let x = chars_of(a);
    let y = chars_of(b);
    let mut i: usize = 0;
    assert(x@.subrange(0, x.len() as int) == x@);
    assert(y@.subrange(0, y.len() as int) == y@);
    loop
        invariant
            i <= x.len(),
            i <= y.len(),
            x@ == a@,
            y@ == b@,
            precedes(a@, b@) == precedes(
                x@.subrange(i as int, x.len() as int),
                y@.subrange(i as int, y.len() as int),
            ),
        decreases x.len() - i,
    {
        let ghost rest_x = x@.subrange(i as int, x.len() as int);
        let ghost rest_y = y@.subrange(i as int, y.len() as int);
        if i == x.len() {
            return true;
        }
        if i == y.len() {
            return false;
        }
        assert(rest_x[0] == x@[i as int] && rest_y[0] == y@[i as int]);
        if x[i] != y[i] {
            return (x[i] as u32) < (y[i] as u32);
        }
        assert(rest_x.drop_first() == x@.subrange(i + 1, x.len() as int));
        assert(rest_y.drop_first() == y@.subrange(i + 1, y.len() as int));
        i = i + 1;
    }
}

/// The texts of `v` in ascending order: a rearrangement of `v` in which each text stands at
/// or before every later one.
pub fn sort_strings(v: &Vec<String>) -> (out: Vec<String>)
    ensures
        views(out@) == sorted_texts(views(v@)),
        sorted(views(out@)),
        views(out@).to_multiset() == views(v@).to_multiset(),
        out.len() == v.len(),
{
    let mut out: Vec<String> = Vec::new();
    let mut i: usize = 0;
    assert(views(out@) == views(v@).subrange(0, 0));
    while i < v.len()
        invariant
            i <= v.len(),
            out.len() == i,
            sorted(views(out@)),
            views(out@).to_multiset() == views(v@).subrange(0, i as int).to_multiset(),
        decreases v.len() - i,
    {
        let item = v[i].clone();
        let ghost placed = views(out@);
        let mut p: usize = 0;
        while p < out.len() && text_precedes(out[p].as_str(), item.as_str())
            invariant
                p <= out.len(),
                i < v.len(),
                placed == views(out@),
                item@ == v@[i as int]@,
                forall|k: int| 0 <= k < p ==> precedes(placed[k], item@),
            decreases out.len() - p,
        {
            p = p + 1;
        }
        proof {
            if p < out.len() {
                lemma_precedes_total(placed[p as int], item@);
                assert forall|k: int| p <= k < placed.len() implies precedes(
                    item@,
                    placed[k],
                ) by {
                    if k > p {
                        lemma_precedes_transitive(item@, placed[p as int], placed[k]);
                    }
                }
            }
        }
        out.insert(p, item);
        proof {
            let grown = views(out@);
            assert(grown == placed.insert(p as int, item@));
            assert(sorted(grown)) by {
                assert forall|a: int, b: int| 0 <= a < b < grown.len() implies precedes(
                    grown[a],
                    grown[b],
                ) by {
                    if b < p {
                        assert(grown[a] == placed[a] && grown[b] == placed[b]);
                    } else if b == p {
                        assert(grown[a] == placed[a]);
                    } else if a < p {
                        assert(grown[a] == placed[a] && grown[b] == placed[b - 1]);
                    } else if a == p {
                        assert(grown[b] == placed[b - 1]);
                    } else {
                        assert(grown[a] == placed[a - 1] && grown[b] == placed[b - 1]);
                    }
                }
            }
            let before = views(v@).subrange(0, i as int);
            let after = views(v@).subrange(0, i + 1);
            assert(after == before.push(item@));
            vstd::seq_lib::to_multiset_insert(placed, p as int, item@);
            vstd::seq_lib::to_multiset_build(before, item@);
        }
        i = i + 1;
    }
    proof {
        assert(views(v@).subrange(0, v.len() as int) == views(v@));
        lemma_sorted_texts(views(v@), views(out@));
    }
    out
}

} // verus!
