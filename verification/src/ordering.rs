use vstd::prelude::*;
use vstd::relations::{sorted_by, total_ordering};
use vstd::seq_lib::group_to_multiset_ensures;
use vstd::multiset::group_multiset_axioms;

use crate::text::chars_of;

verus! {

/// Lexicographic order of character sequences, by code point; a prefix
/// comes first. On UTF-8 text it is the order of the bytes.
pub open spec fn chars_le(a: Seq<char>, b: Seq<char>) -> bool
    decreases a.len(),
{
    if a.len() == 0 {
        true
    } else if b.len() == 0 {
        false
    } else if a[0] != b[0] {
        a[0] < b[0]
    } else {
        chars_le(a.drop_first(), b.drop_first())
    }
}

proof fn lemma_chars_le_reflexive(a: Seq<char>)
    ensures
        chars_le(a, a),
    decreases a.len(),
{
    if a.len() > 0 {
        lemma_chars_le_reflexive(a.drop_first());
    }
}

proof fn lemma_chars_le_antisymmetric(a: Seq<char>, b: Seq<char>)
    requires
        chars_le(a, b),
        chars_le(b, a),
    ensures
        a == b,
    decreases a.len(),
{
    if a.len() > 0 && b.len() > 0 {
        lemma_chars_le_antisymmetric(a.drop_first(), b.drop_first());
        assert(a =~= seq![a[0]] + a.drop_first());
        assert(b =~= seq![b[0]] + b.drop_first());
    }
}

proof fn lemma_chars_le_transitive(a: Seq<char>, b: Seq<char>, c: Seq<char>)
    requires
        chars_le(a, b),
        chars_le(b, c),
    ensures
        chars_le(a, c),
    decreases a.len(),
{
    if a.len() > 0 && b.len() > 0 && c.len() > 0 {
        if a[0] == b[0] && b[0] == c[0] {
            lemma_chars_le_transitive(a.drop_first(), b.drop_first(), c.drop_first());
        }
    }
}

proof fn lemma_chars_le_connected(a: Seq<char>, b: Seq<char>)
    ensures
        chars_le(a, b) || chars_le(b, a),
    decreases a.len(),
{
    if a.len() > 0 && b.len() > 0 && a[0] == b[0] {
        lemma_chars_le_connected(a.drop_first(), b.drop_first());
    }
}

pub open spec fn chars_leq() -> spec_fn(Seq<char>, Seq<char>) -> bool {
    |a: Seq<char>, b: Seq<char>| chars_le(a, b)
}

/// Pairs ordered by their first text, then by their second.
pub open spec fn pair_le(a: (Seq<char>, Seq<char>), b: (Seq<char>, Seq<char>)) -> bool {
    if a.0 != b.0 { chars_le(a.0, b.0) } else { chars_le(a.1, b.1) }
}

pub open spec fn pair_leq() -> spec_fn((Seq<char>, Seq<char>), (Seq<char>, Seq<char>)) -> bool {
    |a: (Seq<char>, Seq<char>), b: (Seq<char>, Seq<char>)| pair_le(a, b)
}

/// The order of texts is a total order.
pub proof fn chars_le_is_total()
    ensures
        total_ordering(chars_leq()),
{
    assert forall|x: Seq<char>| #[trigger] chars_leq()(x, x) by {
        lemma_chars_le_reflexive(x);
    }
    assert forall|x: Seq<char>, y: Seq<char>| #[trigger] chars_leq()(x, y) && #[trigger] chars_leq()(y, x) implies x
        == y by {
        lemma_chars_le_antisymmetric(x, y);
    }
    assert forall|x: Seq<char>, y: Seq<char>, z: Seq<char>| #[trigger] chars_leq()(x, y) && #[trigger] chars_leq()(
        y,
        z,
    ) implies chars_leq()(x, z) by {
        lemma_chars_le_transitive(x, y, z);
    }
    assert forall|x: Seq<char>, y: Seq<char>| #[trigger] chars_leq()(x, y) || #[trigger] chars_leq()(y, x) by {
        lemma_chars_le_connected(x, y);
    }
}

/// The order of pairs of texts is a total order.
pub proof fn pair_le_is_total()
    ensures
        total_ordering(pair_leq()),
{
    assert forall|x: (Seq<char>, Seq<char>)| #[trigger] pair_leq()(x, x) by {
        lemma_chars_le_reflexive(x.1);
    }
    assert forall|x: (Seq<char>, Seq<char>), y: (Seq<char>, Seq<char>)| #[trigger] pair_leq()(x, y)
        && #[trigger] pair_leq()(y, x) implies x == y by {
        if x.0 != y.0 {
            lemma_chars_le_antisymmetric(x.0, y.0);
        } else {
            lemma_chars_le_antisymmetric(x.1, y.1);
        }
    }
    assert forall|x: (Seq<char>, Seq<char>), y: (Seq<char>, Seq<char>), z: (Seq<char>, Seq<char>)|
        #[trigger] pair_leq()(x, y) && #[trigger] pair_leq()(y, z) implies pair_leq()(x, z) by {
        if x.0 != y.0 && y.0 != z.0 {
            lemma_chars_le_transitive(x.0, y.0, z.0);
            if x.0 == z.0 {
                lemma_chars_le_antisymmetric(x.0, y.0);
            }
        } else if x.0 == y.0 && y.0 == z.0 {
            lemma_chars_le_transitive(x.1, y.1, z.1);
        }
    }
    assert forall|x: (Seq<char>, Seq<char>), y: (Seq<char>, Seq<char>)| #[trigger] pair_leq()(x, y)
        || #[trigger] pair_leq()(y, x) by {
        lemma_chars_le_connected(x.0, y.0);
        lemma_chars_le_connected(x.1, y.1);
    }
}

fn chars_le_exec(a: &Vec<char>, b: &Vec<char>) -> (r: bool)
    ensures
        r == chars_le(a@, b@),
{
    let mut i: usize = 0;
    assert(a@.subrange(0, a@.len() as int) =~= a@);
    assert(b@.subrange(0, b@.len() as int) =~= b@);
    while i < a.len() && i < b.len() && a[i] == b[i]
        invariant
            i <= a@.len(),
            i <= b@.len(),
            chars_le(a@, b@) == chars_le(a@.subrange(i as int, a@.len() as int), b@.subrange(i as int, b@.len() as int)),
        decreases a@.len() - i,
    {
        proof {
            let sa = a@.subrange(i as int, a@.len() as int);
            let sb = b@.subrange(i as int, b@.len() as int);
            assert(sa.drop_first() =~= a@.subrange(i + 1, a@.len() as int));
            assert(sb.drop_first() =~= b@.subrange(i + 1, b@.len() as int));
        }
        i = i + 1;
    }
    if i == a.len() {
        true
    } else if i == b.len() {
        false
    } else {
        a[i] < b[i]
    }
}

/// Compares two texts by `chars_le`.
pub fn text_le(a: &str, b: &str) -> (r: bool)
    ensures
        r == chars_le(a@, b@),
{
    let x = chars_of(a);
    let y = chars_of(b);
    chars_le_exec(&x, &y)
}

pub open spec fn views<T: View>(s: Seq<T>) -> Seq<T::V> {
    s.map_values(|x: T| x@)
}

proof fn lemma_insert_multiset<A>(s: Seq<A>, i: int, a: A)
    requires
        0 <= i <= s.len(),
    ensures
        s.insert(i, a).to_multiset() =~= s.to_multiset().insert(a),
{
    broadcast use group_to_multiset_ensures;
    broadcast use group_multiset_axioms;

    let t = s.insert(i, a);
    assert(t.remove(i) =~= s);
    assert(t.remove(i).to_multiset() =~= t.to_multiset().remove(t[i]));
}

/// Sorts by the order `leq` of the elements' views, which `le` computes.
pub(crate) fn sort_by_view<T: View, F: Fn(&T, &T) -> bool>(
    v: Vec<T>,
    le: F,
    Ghost(leq): Ghost<spec_fn(T::V, T::V) -> bool>,
) -> (r: Vec<T>)
    requires
        total_ordering(leq),
        forall|a: &T, b: &T| le.requires((a, b)),
        forall|a: &T, b: &T, x: bool| le.ensures((a, b), x) ==> x == leq(a@, b@),
    ensures
        sorted_by(views(r@), leq),
        views(r@).to_multiset() == views(v@).to_multiset(),
{
    broadcast use group_to_multiset_ensures;
    broadcast use group_multiset_axioms;

    let mut out: Vec<T> = Vec::new();
    let mut rest = v;
    assert(views(out@) =~= Seq::<T::V>::empty());
    while rest.len() > 0
        invariant
            total_ordering(leq),
            forall|a: &T, b: &T| le.requires((a, b)),
            forall|a: &T, b: &T, x: bool| le.ensures((a, b), x) ==> x == leq(a@, b@),
            sorted_by(views(out@), leq),
            views(out@).to_multiset().add(views(rest@).to_multiset()) == views(v@).to_multiset(),
        decreases rest@.len(),
    {
        let ghost rest_before = rest@;
        let x = rest.pop().unwrap();
        proof {
            assert(rest_before =~= rest@.push(x));
            assert(views(rest_before) =~= views(rest@).push(x@));
            views(rest@).to_multiset_ensures();
            assert(views(rest@).push(x@).to_multiset() =~= views(rest@).to_multiset().insert(x@));
            assert(views(rest_before).to_multiset() =~= views(rest@).to_multiset().insert(x@));
        }
        let mut p: usize = 0;
        while p < out.len() && le(&out[p], &x)
            invariant
                p <= out@.len(),
                forall|a: &T, b: &T| le.requires((a, b)),
                forall|a: &T, b: &T, x: bool| le.ensures((a, b), x) ==> x == leq(a@, b@),
                forall|k: int| 0 <= k < p ==> leq(#[trigger] out@[k]@, x@),
            decreases out@.len() - p,
        {
            p = p + 1;
        }
        let ghost old_out = out@;
        proof {
            if p < old_out.len() {
                assert(!leq(old_out[p as int]@, x@));
                assert(leq(x@, old_out[p as int]@));
            }
        }
        out.insert(p, x);
        proof {
            let vo = views(old_out);
            assert(views(out@) =~= vo.insert(p as int, x@));
            lemma_insert_multiset(vo, p as int, x@);
            assert(views(out@).to_multiset() =~= vo.to_multiset().insert(x@));
            assert(views(out@).to_multiset().add(views(rest@).to_multiset()) =~= vo.to_multiset().add(
                views(rest_before).to_multiset(),
            ));
            assert forall|i: int, j: int| 0 <= i < j < views(out@).len() implies #[trigger] leq(
                views(out@)[i],
                views(out@)[j],
            ) by {
                let w = views(out@);
                if j < p {
                    assert(w[i] == vo[i] && w[j] == vo[j]);
                    assert(leq(vo[i], vo[j]));
                } else if j == p {
                    assert(w[i] == vo[i] && w[j] == x@);
                    assert(leq(old_out[i]@, x@));
                } else if i < p {
                    assert(w[i] == vo[i] && w[j] == vo[j - 1]);
                    assert(leq(vo[i], vo[j - 1]));
                } else if i == p {
                    assert(w[i] == x@ && w[j] == vo[j - 1]);
                    if j - 1 > p {
                        assert(leq(vo[p as int], vo[j - 1]));
                    }
                    assert(leq(x@, vo[p as int]));
                } else {
                    assert(w[i] == vo[i - 1] && w[j] == vo[j - 1]);
                    assert(leq(vo[i - 1], vo[j - 1]));
                }
            }
        }
    }
    assert(views(rest@) =~= Seq::<T::V>::empty());
    out
}

} // verus!
