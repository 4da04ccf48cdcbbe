//! The order in which entries are listed: stably, by a strict order such as that of labels.
use vstd::prelude::*;

use crate::text::{seq_lt, str_lt};

verus! {

/// The position of the least entry of `s` by the strict order `lt` (the first such entry,
/// where entries tie). Meaningful for a non-empty `s`.
pub open spec fn min_index_by<E>(s: Seq<E>, lt: spec_fn(E, E) -> bool) -> int
    decreases s.len(),
{
    if s.len() <= 1 {
        0
    } else {
        let m = min_index_by(s.drop_last(), lt);
        if lt(s.last(), s[m]) {
            s.len() - 1
        } else {
            m
        }
    }
}

/// The least entry lies within `s`.
pub proof fn lemma_min_index_by_bounds<E>(s: Seq<E>, lt: spec_fn(E, E) -> bool)
    requires
        s.len() > 0,
    ensures
        0 <= min_index_by(s, lt) < s.len(),
    decreases s.len(),
{
    if s.len() > 1 {
        lemma_min_index_by_bounds(s.drop_last(), lt);
    }
}

/// `s` sorted by `lt`: the least entry (the first of those that tie) first, then the rest
/// sorted the same way. Entries that tie keep their order.
pub open spec fn sort_by<E>(s: Seq<E>, lt: spec_fn(E, E) -> bool) -> Seq<E>
    decreases s.len(),
{
    if s.len() == 0 {
        Seq::empty()
    } else {
        proof {
            lemma_min_index_by_bounds(s, lt);
        }
        let m = min_index_by(s, lt);
        seq![s[m]] + sort_by(s.remove(m), lt)
    }
}

/// Sorting keeps the number of entries.
pub proof fn lemma_sort_by_len<E>(s: Seq<E>, lt: spec_fn(E, E) -> bool)
    ensures
        sort_by(s, lt).len() == s.len(),
    decreases s.len(),
{
    if s.len() > 0 {
        lemma_min_index_by_bounds(s, lt);
        lemma_sort_by_len(s.remove(min_index_by(s, lt)), lt);
    }
}

/// A change of the entries that keeps how they compare keeps the position of the least.
pub proof fn lemma_min_index_by_map<E, F>(
    s: Seq<E>,
    lt: spec_fn(E, E) -> bool,
    lt2: spec_fn(F, F) -> bool,
    g: spec_fn(E) -> F,
)
    requires
        forall|a: E, b: E| #[trigger] lt2(g(a), g(b)) == lt(a, b),
    ensures
        min_index_by(s.map_values(g), lt2) == min_index_by(s, lt),
    decreases s.len(),
{
    if s.len() > 1 {
        lemma_min_index_by_map(s.drop_last(), lt, lt2, g);
        assert(s.map_values(g).drop_last() =~= s.drop_last().map_values(g));
        lemma_min_index_by_bounds(s.drop_last(), lt);
        let m = min_index_by(s.drop_last(), lt);
        assert(lt2(g(s.last()), g(s[m])) == lt(s.last(), s[m]));
    }
}

/// Sorting commutes with a change of the entries that keeps how they compare.
pub proof fn lemma_sort_by_map<E, F>(
    s: Seq<E>,
    lt: spec_fn(E, E) -> bool,
    lt2: spec_fn(F, F) -> bool,
    g: spec_fn(E) -> F,
)
    requires
        forall|a: E, b: E| #[trigger] lt2(g(a), g(b)) == lt(a, b),
    ensures
        sort_by(s.map_values(g), lt2) == sort_by(s, lt).map_values(g),
    decreases s.len(),
{
    let t = s.map_values(g);
    if s.len() > 0 {
        lemma_min_index_by_map(s, lt, lt2, g);
        let m = min_index_by(s, lt);
        lemma_min_index_by_bounds(s, lt);
        assert(t.remove(m) =~= s.remove(m).map_values(g));
        lemma_sort_by_map(s.remove(m), lt, lt2, g);
        assert(sort_by(t, lt2) =~= sort_by(s, lt).map_values(g));
    } else {
        assert(sort_by(t, lt2) =~= sort_by(s, lt).map_values(g));
    }
}

/// The entries of `entries` at the positions `indices`, in that order.
pub open spec fn pick<E>(entries: Seq<E>, indices: Seq<usize>) -> Seq<E> {
    indices.map_values(|i: usize| entries[i as int])
}

/// The order of labelled entries: by label, as text sorts.
pub open spec fn by_label<V>() -> spec_fn((String, V), (String, V)) -> bool {
    |a: (String, V), b: (String, V)| seq_lt(a.0@, b.0@)
}

/// The position, within `indices`, of the entry of `entries` whose label is least.
pub fn min_label_position<V>(entries: &Vec<(String, V)>, indices: &Vec<usize>) -> (m: usize)
    requires
        indices.len() > 0,
        forall|k: int| 0 <= k < indices.len() ==> (#[trigger] indices[k]) < entries.len(),
    ensures
        m as int == min_index_by(pick(entries@, indices@), by_label::<V>()),
        m < indices.len(),
{
    let mut m: usize = 0;
    let mut i: usize = 1;
    assert(pick(entries@, indices@).take(1).drop_last().len() == 0);
    while i < indices.len()
        invariant
            1 <= i <= indices.len(),
            m < i,
            forall|k: int| 0 <= k < indices.len() ==> (#[trigger] indices[k]) < entries.len(),
            m as int == min_index_by(pick(entries@, indices@).take(i as int), by_label::<V>()),
        decreases indices.len() - i,
    {
        let ghost s = pick(entries@, indices@);
        let ghost t = s.take(i + 1);
        assert(t.drop_last() =~= s.take(i as int));
        assert(t.last() == entries@[indices@[i as int] as int]);
        assert(t[m as int] == entries@[indices@[m as int] as int]);
        let candidate = &entries[indices[i]].0;
        let current = &entries[indices[m]].0;
        if str_lt(candidate.as_str(), current.as_str()) {
            m = i;
        }
        i = i + 1;
    }
    assert(pick(entries@, indices@).take(indices.len() as int) =~= pick(entries@, indices@));
    m
}

/// Whether `lt` is a strict order on all values: never reflexive, and transitive.
pub open spec fn strict_order<E>(lt: spec_fn(E, E) -> bool) -> bool {
    &&& forall|a: E| !#[trigger] lt(a, a)
    &&& forall|a: E, b: E, c: E| #[trigger] lt(a, b) && #[trigger] lt(b, c) ==> lt(a, c)
}

/// No entry of `s` comes before the one at `min_index_by`, when `lt` is a strict order.
pub proof fn lemma_min_index_by_least<E>(s: Seq<E>, lt: spec_fn(E, E) -> bool, j: int)
    requires
        strict_order(lt),
        0 <= j < s.len(),
    ensures
        !lt(s[j], s[min_index_by(s, lt)]),
    decreases s.len(),
{
    lemma_min_index_by_bounds(s, lt);
    if s.len() > 1 {
        let t = s.drop_last();
        lemma_min_index_by_bounds(t, lt);
        let m = min_index_by(t, lt);
        if j < s.len() - 1 {
            lemma_min_index_by_least(t, lt, j);
            assert(t[j] == s[j]);
            assert(t[m] == s[m]);
        }
    }
}

/// Sorting keeps the entries: the sorted sequence holds each entry as often as `s` does.
pub proof fn lemma_sort_by_permutes<E>(s: Seq<E>, lt: spec_fn(E, E) -> bool)
    ensures
        sort_by(s, lt).to_multiset() == s.to_multiset(),
    decreases s.len(),
{
    broadcast use vstd::multiset::group_multiset_axioms;
    broadcast use vstd::seq_lib::group_to_multiset_ensures;

    if s.len() == 0 {
        assert(sort_by(s, lt) =~= s);
    } else {
        lemma_min_index_by_bounds(s, lt);
        let m = min_index_by(s, lt);
        let rest = s.remove(m);
        lemma_sort_by_permutes(rest, lt);
        vstd::seq_lib::to_multiset_remove(s, m);
        vstd::seq_lib::lemma_multiset_commutative(seq![s[m]], sort_by(rest, lt));
        assert(seq![s[m]].to_multiset() =~= vstd::multiset::Multiset::singleton(s[m])) by {
            assert(seq![s[m]] =~= Seq::<E>::empty().push(s[m]));
            vstd::seq_lib::to_multiset_build(Seq::<E>::empty(), s[m]);
        }
        assert(s.to_multiset().count(s[m]) > 0) by {
            vstd::seq_lib::to_multiset_contains(s, s[m]);
        }
        assert(sort_by(s, lt).to_multiset() =~= s.to_multiset());
    }
}

/// Sorting by a strict order leaves no entry before one that should come after it.
pub proof fn lemma_sort_by_sorted<E>(s: Seq<E>, lt: spec_fn(E, E) -> bool)
    requires
        strict_order(lt),
    ensures
        forall|i: int, j: int|
            0 <= i < j < sort_by(s, lt).len() ==> !lt(
                #[trigger] sort_by(s, lt)[j],
                #[trigger] sort_by(s, lt)[i],
            ),
    decreases s.len(),
{
    broadcast use vstd::seq_lib::group_to_multiset_ensures;

    if s.len() > 0 {
        lemma_min_index_by_bounds(s, lt);
        let m = min_index_by(s, lt);
        let rest = s.remove(m);
        let r = sort_by(rest, lt);
        lemma_sort_by_sorted(rest, lt);
        lemma_sort_by_permutes(rest, lt);
        let full = sort_by(s, lt);
        assert(full == seq![s[m]] + r);
        assert forall|i: int, j: int| 0 <= i < j < full.len() implies !lt(
            #[trigger] full[j],
            #[trigger] full[i],
        ) by {
            if i == 0 {
                assert(full[j] == r[j - 1]);
                assert(r.to_multiset().count(r[j - 1]) > 0);
                assert(rest.contains(r[j - 1]));
                let k = choose|k: int| 0 <= k < rest.len() && rest[k] == r[j - 1];
                assert(rest[k] == s[if k < m { k } else { k + 1 }]);
                lemma_min_index_by_least(s, lt, if k < m { k } else { k + 1 });
            } else {
                assert(full[i] == r[i - 1]);
                assert(full[j] == r[j - 1]);
            }
        }
    }
}

/// Entries that hold each entry equally often sort the same, when `lt` is a strict order
/// that orders every two different entries.
pub proof fn lemma_sort_by_unique<E>(s: Seq<E>, t: Seq<E>, lt: spec_fn(E, E) -> bool)
    requires
        strict_order(lt),
        forall|i: int, j: int|
            0 <= i < s.len() && 0 <= j < s.len() && s[i] != s[j] ==> lt(#[trigger] s[i], #[trigger] s[j])
                || lt(s[j], s[i]),
        s.to_multiset() == t.to_multiset(),
    ensures
        sort_by(s, lt) == sort_by(t, lt),
    decreases s.len(),
{
    broadcast use vstd::multiset::group_multiset_axioms;
    broadcast use vstd::seq_lib::group_to_multiset_ensures;

    assert(s.len() == t.len()) by {
        vstd::seq_lib::to_multiset_len(s);
        vstd::seq_lib::to_multiset_len(t);
    }
    if s.len() > 0 {
        lemma_min_index_by_bounds(s, lt);
        lemma_min_index_by_bounds(t, lt);
        let ms = min_index_by(s, lt);
        let mt = min_index_by(t, lt);
        let x = s[ms];
        let y = t[mt];
        assert(t.to_multiset().count(y) > 0);
        assert(s.contains(y));
        let i = choose|i: int| 0 <= i < s.len() && s[i] == y;
        assert(s.to_multiset().count(x) > 0);
        assert(t.contains(x));
        let j = choose|j: int| 0 <= j < t.len() && t[j] == x;
        lemma_min_index_by_least(s, lt, i);
        lemma_min_index_by_least(t, lt, j);
        if x != y {
            assert(lt(s[ms], s[i]) || lt(s[i], s[ms]));
        }
        assert(x == y);
        let rs = s.remove(ms);
        let rt = t.remove(mt);
        vstd::seq_lib::to_multiset_remove(s, ms);
        vstd::seq_lib::to_multiset_remove(t, mt);
        assert forall|a: int, b: int|
            0 <= a < rs.len() && 0 <= b < rs.len() && rs[a] != rs[b] implies lt(
                #[trigger] rs[a],
                #[trigger] rs[b],
            ) || lt(rs[b], rs[a]) by {
            let a2 = if a < ms { a } else { a + 1 };
            let b2 = if b < ms { b } else { b + 1 };
            assert(rs[a] == s[a2]);
            assert(rs[b] == s[b2]);
        }
        lemma_sort_by_unique(rs, rt, lt);
    } else {
        assert(sort_by(s, lt) =~= sort_by(t, lt));
    }
}

/// The order of labels is a strict order.
pub proof fn lemma_by_label_strict<V>()
    ensures
        strict_order(by_label::<V>()),
{
    assert forall|a: (String, V)| !#[trigger] by_label::<V>()(a, a) by {
        crate::text::lemma_seq_lt_irreflexive(a.0@);
    }
    assert forall|a: (String, V), b: (String, V), c: (String, V)|
        #[trigger] by_label::<V>()(a, b) && #[trigger] by_label::<V>()(b, c) implies by_label::<V>()(
            a,
            c,
        ) by {
        crate::text::lemma_seq_lt_transitive(a.0@, b.0@, c.0@);
    }
}

} // verus!
