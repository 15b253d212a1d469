//! The order of names, and lists of names kept sorted without repeats.
//!
//! Names are ordered as strings are: character by character, a proper prefix
//! before the longer name.
use vstd::prelude::*;
use crate::text::chars_of;

verus! {

/// Whether `a` comes before `b`, given that they agree before position `i`.
pub open spec fn lex_lt_from(a: Seq<char>, b: Seq<char>, i: int) -> bool
    decreases b.len() - i,
{
    if i < 0 || i >= b.len() {
        false
    } else if i >= a.len() {
        true
    } else if a[i] != b[i] {
        a[i] < b[i]
    } else {
        lex_lt_from(a, b, i + 1)
    }
}

/// Whether `a` comes strictly before `b`.
pub open spec fn lex_lt(a: Seq<char>, b: Seq<char>) -> bool {
    lex_lt_from(a, b, 0)
}

/// Whether each name of `names` comes strictly before the next.
pub open spec fn strictly_sorted(names: Seq<Seq<char>>) -> bool {
    forall|i: int, j: int| 0 <= i < j < names.len() ==> lex_lt(#[trigger] names[i], #[trigger] names[j])
}

/// Whether `a` and `b` hold the same names, however often and in whatever
/// order.
pub open spec fn same_members(a: Seq<Seq<char>>, b: Seq<Seq<char>>) -> bool {
    forall|x: Seq<char>| a.contains(x) <==> b.contains(x)
}

/// Whether `normal` is `names` sorted, each name once.
pub open spec fn is_sorted_set_of(normal: Seq<Seq<char>>, names: Seq<Seq<char>>) -> bool {
    strictly_sorted(normal) && same_members(normal, names)
}

/// What the strings of `list` read, in order.
pub open spec fn names_of(list: Seq<String>) -> Seq<Seq<char>> {
    Seq::new(list.len(), |i: int| list[i]@)
}

proof fn lemma_lex_irreflexive_from(a: Seq<char>, i: int)
    ensures
        !lex_lt_from(a, a, i),
    decreases a.len() - i,
{
    if 0 <= i < a.len() {
        lemma_lex_irreflexive_from(a, i + 1);
    }
}

proof fn lemma_lex_total_from(a: Seq<char>, b: Seq<char>, i: int)
    requires
        0 <= i <= a.len(),
        i <= b.len(),
        forall|j: int| 0 <= j < i ==> a[j] == b[j],
        a != b,
    ensures
        lex_lt_from(a, b, i) || lex_lt_from(b, a, i),
    decreases a.len() - i,
{
    if i == a.len() && i == b.len() {
        assert(a =~= b);
    } else if i < a.len() && i < b.len() && a[i] == b[i] {
        lemma_lex_total_from(a, b, i + 1);
    }
}

proof fn lemma_lex_transitive_from(a: Seq<char>, b: Seq<char>, c: Seq<char>, i: int)
    requires
        lex_lt_from(a, b, i),
        lex_lt_from(b, c, i),
    ensures
        lex_lt_from(a, c, i),
    decreases c.len() - i,
{
    if i < a.len() && a[i] == b[i] && b[i] == c[i] {
        lemma_lex_transitive_from(a, b, c, i + 1);
    }
}

/// No name comes before itself.
pub proof fn lemma_lex_irreflexive(a: Seq<char>)
    ensures
        !lex_lt(a, a),
{
    lemma_lex_irreflexive_from(a, 0);
}

/// Of two different names one comes before the other.
pub proof fn lemma_lex_total(a: Seq<char>, b: Seq<char>)
    ensures
        a == b || lex_lt(a, b) || lex_lt(b, a),
{
    if a != b {
        lemma_lex_total_from(a, b, 0);
    }
}

/// What comes before a name comes before all that the name comes before.
pub proof fn lemma_lex_transitive(a: Seq<char>, b: Seq<char>, c: Seq<char>)
    requires
        lex_lt(a, b),
        lex_lt(b, c),
    ensures
        lex_lt(a, c),
{
    lemma_lex_transitive_from(a, b, c, 0);
}

/// Of two names at most one comes before the other.
pub proof fn lemma_lex_asymmetric(a: Seq<char>, b: Seq<char>)
    ensures
        !(lex_lt(a, b) && lex_lt(b, a)),
{
    if lex_lt(a, b) && lex_lt(b, a) {
        lemma_lex_transitive(a, b, a);
        lemma_lex_irreflexive(a);
    }
}

/// Two sorted lists without repeats that hold the same names are the same
/// list.
pub proof fn lemma_sorted_set_unique(x: Seq<Seq<char>>, y: Seq<Seq<char>>)
    requires
        strictly_sorted(x),
        strictly_sorted(y),
        same_members(x, y),
    ensures
        x == y,
    decreases x.len(),
{
    if x.len() == 0 {
        if y.len() > 0 {
            assert(y.contains(y[0]));
            assert(x.contains(y[0]));
        }
        assert(x =~= y);
    } else {
        assert(x.contains(x[0]));
        assert(y.contains(x[0]));
        let p = choose|p: int| 0 <= p < y.len() && y[p] == x[0];
        assert(y.contains(y[0]));
        assert(x.contains(y[0]));
        let q = choose|q: int| 0 <= q < x.len() && x[q] == y[0];
        if p > 0 {
            // y[0] < y[p] == x[0] <= x[q] == y[0]
            assert(lex_lt(y[0], y[p]));
            if q > 0 {
                assert(lex_lt(x[0], x[q]));
            }
            lemma_lex_asymmetric(x[0], y[0]);
            lemma_lex_irreflexive(x[0]);
        }
        assert(x[0] == y[0]);
        let xt = x.drop_first();
        let yt = y.drop_first();
        assert(strictly_sorted(xt)) by {
            assert forall|i: int, j: int| 0 <= i < j < xt.len() implies lex_lt(
                #[trigger] xt[i],
                #[trigger] xt[j],
            ) by {
                assert(xt[i] == x[i + 1] && xt[j] == x[j + 1]);
            }
        }
        assert(strictly_sorted(yt)) by {
            assert forall|i: int, j: int| 0 <= i < j < yt.len() implies lex_lt(
                #[trigger] yt[i],
                #[trigger] yt[j],
            ) by {
                assert(yt[i] == y[i + 1] && yt[j] == y[j + 1]);
            }
        }
        assert forall|v: Seq<char>| xt.contains(v) <==> yt.contains(v) by {
            if xt.contains(v) {
                let i = choose|i: int| 0 <= i < xt.len() && xt[i] == v;
                assert(x[i + 1] == v);
                assert(lex_lt(x[0], x[i + 1]));
                assert(x.contains(v));
                assert(y.contains(v));
                let j = choose|j: int| 0 <= j < y.len() && y[j] == v;
                if j == 0 {
                    lemma_lex_irreflexive(v);
                }
                assert(yt[j - 1] == v);
            }
            if yt.contains(v) {
                let i = choose|i: int| 0 <= i < yt.len() && yt[i] == v;
                assert(y[i + 1] == v);
                assert(lex_lt(y[0], y[i + 1]));
                assert(y.contains(v));
                assert(x.contains(v));
                let j = choose|j: int| 0 <= j < x.len() && x[j] == v;
                if j == 0 {
                    lemma_lex_irreflexive(v);
                }
                assert(xt[j - 1] == v);
            }
        }
        lemma_sorted_set_unique(xt, yt);
        assert(x =~= seq![x[0]] + xt);
        assert(y =~= seq![y[0]] + yt);
    }
}

/// Whether `a` comes strictly before `b`.
pub fn comes_before(a: &str, b: &str) -> (r: bool)
    ensures
        r == lex_lt(a@, b@),
{
    let a_chars = chars_of(a);
    let b_chars = chars_of(b);
    let mut i: usize = 0;
    while i < a_chars.len() && i < b_chars.len()
        invariant
            i <= a_chars.len(),
            i <= b_chars.len(),
            a_chars@ == a@,
            b_chars@ == b@,
            lex_lt(a@, b@) == lex_lt_from(a@, b@, i as int),
        decreases a_chars.len() - i,
    {
        if a_chars[i] != b_chars[i] {
            return a_chars[i] < b_chars[i];
        }
        i += 1;
    }
    i < b_chars.len()
}

/// Puts `name` at its place in the sorted list, unless the list holds it.
pub fn insert_name(sorted: &mut Vec<String>, name: String)
    requires
        strictly_sorted(names_of(old(sorted)@)),
    ensures
        names_of(final(sorted)@) == with_name(names_of(old(sorted)@), name@),
        strictly_sorted(names_of(final(sorted)@)),
        forall|x: Seq<char>|
            names_of(final(sorted)@).contains(x) <==> (names_of(old(sorted)@).contains(x) || x
                == name@),
{
    let ghost before = names_of(sorted@);
    let mut p: usize = 0;
    while p < sorted.len() && comes_before(sorted[p].as_str(), name.as_str())
        invariant
            p <= sorted.len(),
            names_of(sorted@) == before,
            forall|j: int| 0 <= j < p ==> lex_lt(#[trigger] before[j], name@),
        decreases sorted.len() - p,
    {
        assert(before[p as int] == sorted@[p as int]@);
        p += 1;
    }
    if p < sorted.len() {
        assert(before[p as int] == sorted@[p as int]@);
        if sorted[p] == name {
            proof {
                assert(before.contains(name@));
                lemma_with_name(before, name@);
                lemma_sorted_set_unique(before, with_name(before, name@));
            }
            return ;
        }
        proof {
            lemma_lex_total(before[p as int], name@);
        }
    }
    sorted.insert(p, name);
    proof {
        let after = names_of(sorted@);
        assert(after =~= before.insert(p as int, name@));
        assert forall|i: int, j: int| 0 <= i < j < after.len() implies lex_lt(
            #[trigger] after[i],
            #[trigger] after[j],
        ) by {
            if j < p {
                assert(after[i] == before[i] && after[j] == before[j]);
            } else if j == p {
                assert(after[i] == before[i]);
            } else if i < p {
                assert(after[i] == before[i] && after[j] == before[j - 1]);
                assert(lex_lt(before[i], name@));
                assert(lex_lt(name@, before[p as int]));
                lemma_lex_transitive(before[i], name@, before[p as int]);
                if j - 1 > p {
                    assert(lex_lt(before[p as int], before[j - 1]));
                    lemma_lex_transitive(before[i], before[p as int], before[j - 1]);
                }
            } else if i == p {
                assert(after[j] == before[j - 1]);
                if j - 1 > p {
                    assert(lex_lt(before[p as int], before[j - 1]));
                    lemma_lex_transitive(name@, before[p as int], before[j - 1]);
                }
            } else {
                assert(after[i] == before[i - 1] && after[j] == before[j - 1]);
            }
        }
        assert forall|x: Seq<char>| after.contains(x) <==> (before.contains(x) || x
            == name@) by {
            if after.contains(x) {
                let i = choose|i: int| 0 <= i < after.len() && after[i] == x;
                if i < p {
                    assert(before[i] == x);
                } else if i > p {
                    assert(before[i - 1] == x);
                }
            }
            if before.contains(x) {
                let i = choose|i: int| 0 <= i < before.len() && before[i] == x;
                if i < p {
                    assert(after[i] == x);
                } else {
                    assert(after[i + 1] == x);
                }
            }
            if x == name@ {
                assert(after[p as int] == x);
            }
        }
        lemma_with_name(before, name@);
        lemma_sorted_set_unique(after, with_name(before, name@));
    }
}

/// The names of `names` in order, each once.
pub fn sorted_set(names: &Vec<String>) -> (normal: Vec<String>)
    ensures
        names_of(normal@) == normalized(names_of(names@)),
{
    let mut normal: Vec<String> = Vec::new();
    let mut i: usize = 0;
    while i < names.len()
        invariant
            i <= names.len(),
            strictly_sorted(names_of(normal@)),
            forall|x: Seq<char>|
                names_of(normal@).contains(x) <==> names_of(names@).subrange(0, i as int).contains(
                    x,
                ),
        decreases names.len() - i,
    {
        let ghost seen = names_of(names@).subrange(0, i as int);
        let ghost had = names_of(normal@);
        let name = names[i].clone();
        insert_name(&mut normal, name);
        proof {
            let next = names_of(names@).subrange(0, i + 1);
            assert(next =~= seen.push(names@[i as int]@));
            assert forall|x: Seq<char>| names_of(normal@).contains(x) <==> next.contains(x) by {
                if next.contains(x) {
                    let k = choose|k: int| 0 <= k < next.len() && next[k] == x;
                    if k < i {
                        assert(seen[k] == x);
                    }
                }
                if seen.contains(x) {
                    let k = choose|k: int| 0 <= k < seen.len() && seen[k] == x;
                    assert(next[k] == x);
                }
                if x == names@[i as int]@ {
                    assert(next[i as int] == x);
                }
            }
        }
        i += 1;
    }
    proof {
        assert(names_of(names@).subrange(0, i as int) =~= names_of(names@));
        lemma_normalized_is_sorted_set(names_of(names@));
        lemma_sorted_set_unique(names_of(normal@), normalized(names_of(names@)));
    }
    normal
}

/// Lists that are rearrangements of each other hold the same names.
pub proof fn lemma_permutation_same_members(first: Seq<Seq<char>>, second: Seq<Seq<char>>)
    requires
        first.to_multiset() == second.to_multiset(),
    ensures
        same_members(first, second),
{
    broadcast use vstd::seq_lib::to_multiset_contains;

    assert forall|x: Seq<char>| first.contains(x) <==> second.contains(x) by {
        assert(first.contains(x) <==> first.to_multiset().count(x) > 0);
        assert(second.contains(x) <==> second.to_multiset().count(x) > 0);
    }
}

/// The sorted list `sorted` with `name` put at its place, unless the list
/// holds it.
pub open spec fn with_name(sorted: Seq<Seq<char>>, name: Seq<char>) -> Seq<Seq<char>>
    decreases sorted.len(),
{
    if sorted.len() == 0 {
        seq![name]
    } else if sorted.last() == name {
        sorted
    } else if lex_lt(sorted.last(), name) {
        sorted.push(name)
    } else {
        with_name(sorted.drop_last(), name).push(sorted.last())
    }
}

/// The names of `names` in order, each once.
pub open spec fn normalized(names: Seq<Seq<char>>) -> Seq<Seq<char>>
    decreases names.len(),
{
    if names.len() == 0 {
        Seq::empty()
    } else {
        with_name(normalized(names.drop_last()), names.last())
    }
}

/// Putting a name into a sorted list leaves it sorted and adds that name to
/// what it holds, nothing else.
pub proof fn lemma_with_name(sorted: Seq<Seq<char>>, name: Seq<char>)
    requires
        strictly_sorted(sorted),
    ensures
        strictly_sorted(with_name(sorted, name)),
        forall|x: Seq<char>|
            #[trigger] with_name(sorted, name).contains(x) <==> (sorted.contains(x) || x == name),
    decreases sorted.len(),
{
    let out = with_name(sorted, name);
    if sorted.len() == 0 {
        assert(out[0] == name);
    } else if sorted.last() == name {
        assert(sorted[sorted.len() - 1] == name);
    } else if lex_lt(sorted.last(), name) {
        assert forall|i: int, j: int| 0 <= i < j < out.len() implies lex_lt(
            #[trigger] out[i],
            #[trigger] out[j],
        ) by {
            if j == sorted.len() && i < sorted.len() - 1 {
                assert(lex_lt(sorted[i], sorted[sorted.len() - 1]));
                lemma_lex_transitive(sorted[i], sorted.last(), name);
            }
        }
        assert forall|x: Seq<char>| out.contains(x) <==> (sorted.contains(x) || x == name) by {
            if sorted.contains(x) {
                let i = choose|i: int| 0 <= i < sorted.len() && sorted[i] == x;
                assert(out[i] == x);
            }
            if x == name {
                assert(out[sorted.len() as int] == x);
            }
        }
    } else {
        let front = sorted.drop_last();
        let last = sorted.last();
        assert(strictly_sorted(front)) by {
            assert forall|i: int, j: int| 0 <= i < j < front.len() implies lex_lt(
                #[trigger] front[i],
                #[trigger] front[j],
            ) by {
                assert(front[i] == sorted[i] && front[j] == sorted[j]);
            }
        }
        lemma_with_name(front, name);
        let inner = with_name(front, name);
        lemma_lex_total(last, name);
        assert forall|i: int, j: int| 0 <= i < j < out.len() implies lex_lt(
            #[trigger] out[i],
            #[trigger] out[j],
        ) by {
            if j == inner.len() {
                assert(inner.contains(inner[i]));
                if front.contains(inner[i]) {
                    let k = choose|k: int| 0 <= k < front.len() && front[k] == inner[i];
                    assert(lex_lt(sorted[k], sorted[sorted.len() - 1]));
                }
            } else {
                assert(out[i] == inner[i] && out[j] == inner[j]);
            }
        }
        assert forall|x: Seq<char>| out.contains(x) <==> (sorted.contains(x) || x == name) by {
            if out.contains(x) {
                let i = choose|i: int| 0 <= i < out.len() && out[i] == x;
                if i < inner.len() {
                    assert(inner.contains(x));
                    if front.contains(x) {
                        let k = choose|k: int| 0 <= k < front.len() && front[k] == x;
                        assert(sorted[k] == x);
                    }
                } else {
                    assert(sorted[sorted.len() - 1] == x);
                }
            }
            if sorted.contains(x) {
                let k = choose|k: int| 0 <= k < sorted.len() && sorted[k] == x;
                if k < front.len() {
                    assert(front[k] == x);
                    assert(inner.contains(x));
                    let i = choose|i: int| 0 <= i < inner.len() && inner[i] == x;
                    assert(out[i] == x);
                } else {
                    assert(out[inner.len() as int] == x);
                }
            }
            if x == name {
                assert(inner.contains(x));
                let i = choose|i: int| 0 <= i < inner.len() && inner[i] == x;
                assert(out[i] == x);
            }
        }
    }
}

/// `normalized` sorts and drops repeats.
pub proof fn lemma_normalized_is_sorted_set(names: Seq<Seq<char>>)
    ensures
        is_sorted_set_of(normalized(names), names),
    decreases names.len(),
{
    if names.len() > 0 {
        let front = names.drop_last();
        lemma_normalized_is_sorted_set(front);
        lemma_with_name(normalized(front), names.last());
        assert forall|x: Seq<char>| normalized(names).contains(x) <==> names.contains(x) by {
            if front.contains(x) {
                let k = choose|k: int| 0 <= k < front.len() && front[k] == x;
                assert(names[k] == x);
            }
            if names.contains(x) {
                let k = choose|k: int| 0 <= k < names.len() && names[k] == x;
                if k < front.len() {
                    assert(front[k] == x);
                }
            }
        }
    }
}

/// Normalization heeds the names given, not their order: lists that are
/// rearrangements of each other have the same normal form.
pub proof fn lemma_normalized_order_independent(first: Seq<Seq<char>>, second: Seq<Seq<char>>)
    requires
        first.to_multiset() == second.to_multiset(),
    ensures
        normalized(first) == normalized(second),
{
    lemma_permutation_same_members(first, second);
    lemma_normalized_is_sorted_set(first);
    lemma_normalized_is_sorted_set(second);
    lemma_sorted_set_unique(normalized(first), normalized(second));
}

} // verus!
