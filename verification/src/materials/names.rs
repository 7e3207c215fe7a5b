use crate::utils::strings::str_eq;
use vstd::prelude::*;
use vstd::string::*;

verus! {

// ===============================================================================================
//
// Material names: their order, and comparisons of compositions by name.
//
// Names are ordered as Rust orders strings: lexicographically, character by
// character (by code point).
//
// ===============================================================================================

/// Whether name `a` comes before name `b`, or equals it.
pub open spec fn name_le(a: Seq<char>, b: Seq<char>) -> bool
    decreases a.len(),
{
    if a.len() == 0 {
        true
    } else if b.len() == 0 {
        false
    } else if a[0] != b[0] {
        (a[0] as int) < (b[0] as int)
    } else {
        name_le(a.drop_first(), b.drop_first())
    }
}

/// Whether name `a` strictly comes before name `b`.
pub open spec fn name_lt(a: Seq<char>, b: Seq<char>) -> bool {
    name_le(a, b) && a != b
}

pub proof fn lemma_name_le_reflexive(a: Seq<char>)
    ensures
        name_le(a, a),
    decreases a.len(),
{
    if a.len() > 0 {
        lemma_name_le_reflexive(a.drop_first());
    }
}

pub proof fn lemma_name_le_total(a: Seq<char>, b: Seq<char>)
    ensures
        name_le(a, b) || name_le(b, a),
    decreases a.len(),
{
    if a.len() > 0 && b.len() > 0 {
        if a[0] == b[0] {
            lemma_name_le_total(a.drop_first(), b.drop_first());
        } else {
            assert((a[0] as int) != (b[0] as int));
        }
    }
}

pub proof fn lemma_name_le_antisymmetric(a: Seq<char>, b: Seq<char>)
    requires
        name_le(a, b),
        name_le(b, a),
    ensures
        a == b,
    decreases a.len(),
{
    if a.len() > 0 && b.len() > 0 {
        lemma_name_le_antisymmetric(a.drop_first(), b.drop_first());
        assert(a =~= seq![a[0]] + a.drop_first());
        assert(b =~= seq![b[0]] + b.drop_first());
    } else {
        assert(a.len() == 0 && b.len() == 0);
        assert(a =~= b);
    }
}

pub proof fn lemma_name_le_transitive(a: Seq<char>, b: Seq<char>, c: Seq<char>)
    requires
        name_le(a, b),
        name_le(b, c),
    ensures
        name_le(a, c),
    decreases a.len(),
{
    if a.len() > 0 && b.len() > 0 && c.len() > 0 && a[0] == b[0] && b[0] == c[0] {
        lemma_name_le_transitive(a.drop_first(), b.drop_first(), c.drop_first());
    }
}

/// Whether `a` comes before `b` or equals it.
pub fn name_le_exec(a: &str, b: &str) -> (res: bool)
    ensures
        res == name_le(a@, b@),
{
    let na = a.unicode_len();
    let nb = b.unicode_len();
    let mut i: usize = 0;
    assert(a@.skip(0) =~= a@);
    assert(b@.skip(0) =~= b@);
    while i < na && i < nb
        invariant
            na == a@.len(),
            nb == b@.len(),
            i <= na,
            i <= nb,
            forall|j: int| 0 <= j < i ==> a@[j] == b@[j],
            name_le(a@, b@) == name_le(a@.skip(i as int), b@.skip(i as int)),
        decreases na - i,
    {
        let ca = a.get_char(i);
        let cb = b.get_char(i);
        if ca != cb {
            return (ca as u32) < (cb as u32);
        }
        assert(a@.skip(i as int).drop_first() =~= a@.skip(i + 1));
        assert(b@.skip(i as int).drop_first() =~= b@.skip(i + 1));
        i = i + 1;
    }
    i == na
}

/// The names of a list, as values.
pub open spec fn names_view(names: Seq<String>) -> Seq<Seq<char>> {
    names.map_values(|n: String| n@)
}

/// `order` lists each index of `names` exactly once, so that the names come
/// in order, equal names keeping their relative order.
pub open spec fn is_stable_sorting(names: Seq<Seq<char>>, order: Seq<usize>) -> bool {
    &&& order.len() == names.len()
    &&& forall|k: int| 0 <= k < order.len() ==> #[trigger] order[k] < names.len()
    &&& forall|k: int, l: int| 0 <= k < l < order.len() ==> order[k] != order[l]
    &&& forall|k: int, l: int|
        0 <= k < l < order.len() ==> name_le(names[order[k] as int], names[order[l] as int])
    &&& forall|k: int, l: int|
        0 <= k < l < order.len() && names[order[k] as int] == names[order[l] as int] ==> order[k]
            < order[l]
}

/// A stable sorting of names lists every index.
pub proof fn lemma_sorting_covers(names: Seq<Seq<char>>, order: Seq<usize>, a: int)
    requires
        is_stable_sorting(names, order),
        0 <= a < names.len(),
    ensures
        exists|p: int| 0 <= p < order.len() && order[p] == a,
{
    let s = order.map_values(|x: usize| x as int);
    let n = names.len() as int;
    assert(s.no_duplicates()) by {
        assert forall|i: int, j: int| 0 <= i < s.len() && 0 <= j < s.len() && i != j implies s[i]
            != s[j] by {
            if i < j {
                assert(order[i] != order[j]);
            } else {
                assert(order[j] != order[i]);
            }
        }
    }
    s.unique_seq_to_set();
    vstd::set_lib::lemma_int_range(0, n);
    let range = vstd::set_lib::set_int_range(0, n);
    if !s.to_set().contains(a) {
        assert(s.to_set().subset_of(range.remove(a))) by {
            assert forall|x: int| s.to_set().contains(x) implies range.remove(a).contains(x) by {
                let p = choose|p: int| 0 <= p < s.len() && s[p] == x;
                assert(order[p] < names.len());
            }
        }
        vstd::set_lib::lemma_len_subset(s.to_set(), range.remove(a));
        assert(false);
    }
    let p = choose|p: int| 0 <= p < s.len() && s[p] == a;
    assert(order[p] == a);
}

/// The stable sort of names is unique: two orders that both sort `names`
/// stably are the same.
pub proof fn law_stable_sorting_unique(names: Seq<Seq<char>>, o1: Seq<usize>, o2: Seq<usize>)
    requires
        is_stable_sorting(names, o1),
        is_stable_sorting(names, o2),
    ensures
        o1 == o2,
{
    assert forall|k: int| 0 <= k < o1.len() implies o1[k] == o2[k] by {
        lemma_sorting_same_at(names, o1, o2, k);
    }
    assert(o1 =~= o2);
}

/// Two stable sortings of names agree at position `k` (by induction on `k`).
proof fn lemma_sorting_same_at(names: Seq<Seq<char>>, o1: Seq<usize>, o2: Seq<usize>, k: int)
    requires
        is_stable_sorting(names, o1),
        is_stable_sorting(names, o2),
        0 <= k < o1.len(),
    ensures
        o1[k] == o2[k],
    decreases k,
{
    assert forall|j: int| 0 <= j < k implies o1[j] == o2[j] by {
        lemma_sorting_same_at(names, o1, o2, j);
    }
    let a = o1[k] as int;
    let b = o2[k] as int;
    if a != b {
        lemma_sorting_covers(names, o2, a);
        let p = choose|p: int| 0 <= p < o2.len() && o2[p] == a;
        lemma_sorting_covers(names, o1, b);
        let q = choose|q: int| 0 <= q < o1.len() && o1[q] == b;
        if p < k {
            assert(o1[p] == o2[p]);
            assert(o1[p] != o1[k]);
        } else if q < k {
            assert(o1[q] == o2[q]);
            assert(o2[q] != o2[k]);
        } else {
            // a comes before b in o1 (k < q), and b before a in o2 (k < p).
            assert(p > k && q > k);
            assert(name_le(names[a], names[b]));
            assert(name_le(names[b], names[a]));
            lemma_name_le_antisymmetric(names[a], names[b]);
            assert(o1[k] < o1[q]);
            assert(o2[k] < o2[p]);
        }
    }
}

/// The order in which `names` sort, as indices: a stable sort by name.
pub fn sorting_order(names: &Vec<String>) -> (res: Vec<usize>)
    ensures
        is_stable_sorting(names_view(names@), res@),
{
    let ghost v = names_view(names@);
    let n = names.len();
    let mut order: Vec<usize> = Vec::new();
    let mut i: usize = 0;
    while i < n
        invariant
            n == names@.len(),
            v == names_view(names@),
            i <= n,
            order@.len() == i,
            forall|k: int| 0 <= k < i ==> #[trigger] order@[k] < i,
            forall|k: int, l: int| 0 <= k < l < i ==> order@[k] != order@[l],
            forall|k: int, l: int|
                0 <= k < l < i ==> name_le(v[order@[k] as int], v[order@[l] as int]),
            forall|k: int, l: int|
                0 <= k < l < i && v[order@[k] as int] == v[order@[l] as int] ==> order@[k]
                    < order@[l],
        decreases n - i,
    {
        // The first position whose name comes strictly after names[i].
        let mut pos: usize = 0;
        while pos < i && !name_lt_exec(names[i].as_str(), names[order[pos]].as_str())
            invariant
                n == names@.len(),
                v == names_view(names@),
                i < n,
                order@.len() == i,
                forall|k: int| 0 <= k < i ==> #[trigger] order@[k] < i,
                pos <= i,
                forall|k: int| 0 <= k < pos ==> !name_lt(v[i as int], #[trigger] v[order@[k] as int]),
            decreases i - pos,
        {
            pos = pos + 1;
        }
        let ghost before = order@;
        proof {
            assert forall|k: int| 0 <= k < pos implies name_le(#[trigger] v[before[k] as int], v[i as int]) by {
                lemma_name_le_total(v[before[k] as int], v[i as int]);
                lemma_name_le_reflexive(v[i as int]);
            }
            if pos < i {
                assert forall|k: int| pos <= k < i implies name_lt(v[i as int], #[trigger] v[before[k] as int]) by {
                    if k > pos {
                        lemma_name_le_transitive(v[i as int], v[before[pos as int] as int], v[before[k] as int]);
                        if v[i as int] == v[before[k] as int] {
                            lemma_name_le_antisymmetric(v[i as int], v[before[pos as int] as int]);
                        }
                    }
                }
            }
        }
        order.insert(pos, i);
        proof {
            assert forall|k: int| 0 <= k < i + 1 implies #[trigger] order@[k] < i + 1 by {
                if k < pos {
                    assert(order@[k] == before[k]);
                } else if k > pos {
                    assert(order@[k] == before[k - 1]);
                }
            }
            assert forall|k: int, l: int| 0 <= k < l < i + 1 implies order@[k] != order@[l] by {
                if k < pos && l < pos {
                    assert(order@[k] == before[k] && order@[l] == before[l]);
                } else if k < pos && l == pos {
                    assert(order@[k] == before[k]);
                } else if k < pos && l > pos {
                    assert(order@[k] == before[k] && order@[l] == before[l - 1]);
                } else if k == pos {
                    assert(order@[l] == before[l - 1]);
                } else {
                    assert(order@[k] == before[k - 1] && order@[l] == before[l - 1]);
                }
            }
            assert forall|k: int, l: int| 0 <= k < l < i + 1 implies name_le(
                v[order@[k] as int],
                v[order@[l] as int],
            ) by {
                if k < pos && l < pos {
                    assert(order@[k] == before[k] && order@[l] == before[l]);
                } else if k < pos && l == pos {
                    assert(order@[k] == before[k]);
                } else if k < pos && l > pos {
                    assert(order@[k] == before[k] && order@[l] == before[l - 1]);
                    lemma_name_le_transitive(v[before[k] as int], v[i as int], v[before[l - 1] as int]);
                } else if k == pos {
                    assert(order@[l] == before[l - 1]);
                } else {
                    assert(order@[k] == before[k - 1] && order@[l] == before[l - 1]);
                }
            }
            assert forall|k: int, l: int|
                0 <= k < l < i + 1 && v[order@[k] as int] == v[order@[l] as int] implies order@[k]
                < order@[l] by {
                if k < pos && l < pos {
                    assert(order@[k] == before[k] && order@[l] == before[l]);
                } else if k < pos && l == pos {
                    assert(order@[k] == before[k]);
                } else if k < pos && l > pos {
                    assert(order@[k] == before[k] && order@[l] == before[l - 1]);
                    lemma_name_le_transitive(v[before[k] as int], v[i as int], v[before[l - 1] as int]);
                    lemma_name_le_antisymmetric(v[before[k] as int], v[i as int]);
                } else if k == pos {
                    assert(order@[l] == before[l - 1]);
                } else {
                    assert(order@[k] == before[k - 1] && order@[l] == before[l - 1]);
                }
            }
        }
        i = i + 1;
    }
    order
}

/// Whether `a` strictly comes before `b`.
fn name_lt_exec(a: &str, b: &str) -> (res: bool)
    ensures
        res == name_lt(a@, b@),
{
    name_le_exec(a, b) && !str_eq(a, b)
}


/// How many times `x` occurs in `s`.
pub open spec fn occurrences(s: Seq<Seq<char>>, x: Seq<char>) -> nat
    decreases s.len(),
{
    if s.len() == 0 {
        0
    } else {
        occurrences(s.drop_last(), x) + if s.last() == x {
            1nat
        } else {
            0nat
        }
    }
}

/// Whether two lists hold the same names, as many times each (in any
/// order).
pub open spec fn same_names_spec(a: Seq<Seq<char>>, b: Seq<Seq<char>>) -> bool {
    forall|x: Seq<char>| occurrences(a, x) == occurrences(b, x)
}

/// A name that occurs in a list is one of its items.
pub proof fn lemma_occurrences_member(s: Seq<Seq<char>>, x: Seq<char>)
    ensures
        occurrences(s, x) > 0 <==> s.contains(x),
    decreases s.len(),
{
    if s.len() > 0 {
        lemma_occurrences_member(s.drop_last(), x);
        if s.drop_last().contains(x) {
            let k = choose|k: int| 0 <= k < s.drop_last().len() && s.drop_last()[k] == x;
            assert(s[k] == x);
        }
        if s.contains(x) && s.last() != x {
            let k = choose|k: int| 0 <= k < s.len() && s[k] == x;
            assert(k < s.len() - 1);
            assert(s.drop_last()[k] == x);
        }
        if s.last() == x {
            assert(s[s.len() - 1] == x);
        }
    }
}

/// Comparing compositions by name is an equivalence: every composition
/// names what it names, the comparison is symmetric, and it chains.
pub proof fn law_same_names_equivalence(a: Seq<Seq<char>>, b: Seq<Seq<char>>, c: Seq<Seq<char>>)
    ensures
        same_names_spec(a, a),
        same_names_spec(a, b) ==> same_names_spec(b, a),
        same_names_spec(a, b) && same_names_spec(b, c) ==> same_names_spec(a, c),
{
}

/// How many times `x` occurs in `names`.
fn count_name(names: &Vec<String>, x: &str) -> (res: usize)
    ensures
        res == occurrences(names_view(names@), x@),
{
    let ghost v = names_view(names@);
    let mut count: usize = 0;
    let mut i: usize = 0;
    while i < names.len()
        invariant
            v == names_view(names@),
            i <= names@.len(),
            count == occurrences(v.take(i as int), x@),
            count <= i,
        decreases names@.len() - i,
    {
        assert(v.take(i + 1).drop_last() =~= v.take(i as int));
        if str_eq(names[i].as_str(), x) {
            count = count + 1;
        }
        i = i + 1;
    }
    assert(v.take(names@.len() as int) =~= v);
    count
}

/// Whether every name of `a` occurs as many times in `b`.
fn counts_agree(a: &Vec<String>, b: &Vec<String>) -> (res: bool)
    ensures
        res == forall|k: int| 0 <= k < a@.len() ==> occurrences(names_view(a@), #[trigger] a@[k]@)
            == occurrences(names_view(b@), a@[k]@),
{
    let mut i: usize = 0;
    while i < a.len()
        invariant
            i <= a@.len(),
            forall|k: int| 0 <= k < i ==> occurrences(names_view(a@), #[trigger] a@[k]@)
                == occurrences(names_view(b@), a@[k]@),
        decreases a@.len() - i,
    {
        if count_name(a, a[i].as_str()) != count_name(b, a[i].as_str()) {
            return false;
        }
        i = i + 1;
    }
    true
}

/// Whether two compositions name the same components: the same names, as
/// many times each, in any order.
pub fn same_names(a: &Vec<String>, b: &Vec<String>) -> (res: bool)
    ensures
        res == same_names_spec(names_view(a@), names_view(b@)),
{
    let ab = counts_agree(a, b);
    let ba = counts_agree(b, a);
    let ghost va = names_view(a@);
    let ghost vb = names_view(b@);
    proof {
        if ab && ba {
            assert forall|x: Seq<char>| occurrences(va, x) == occurrences(vb, x) by {
                lemma_occurrences_member(va, x);
                lemma_occurrences_member(vb, x);
                if va.contains(x) {
                    let k = choose|k: int| 0 <= k < va.len() && va[k] == x;
                    assert(a@[k]@ == x);
                } else if vb.contains(x) {
                    let k = choose|k: int| 0 <= k < vb.len() && vb[k] == x;
                    assert(b@[k]@ == x);
                }
            }
        } else if !ab {
            let k = choose|k: int| 0 <= k < a@.len() && occurrences(va, #[trigger] a@[k]@) != occurrences(vb, a@[k]@);
            assert(occurrences(va, a@[k]@) != occurrences(vb, a@[k]@));
        } else {
            let k = choose|k: int| 0 <= k < b@.len() && occurrences(vb, #[trigger] b@[k]@) != occurrences(va, b@[k]@);
            assert(occurrences(vb, b@[k]@) != occurrences(va, b@[k]@));
        }
    }
    ab && ba
}

} // verus!
