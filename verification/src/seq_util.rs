//! Small verified operations on lists of node ids.
use vstd::prelude::*;

use crate::network::NodeId;

verus! {

/// `s` with every occurrence of `x` removed.
pub open spec fn without(s: Seq<NodeId>, x: NodeId) -> Seq<NodeId> {
    s.filter(|y: NodeId| y != x)
}

/// `s` with later repetitions dropped: the first occurrence of each id, in order.
pub open spec fn dedup(s: Seq<NodeId>) -> Seq<NodeId>
    decreases s.len(),
{
    if s.len() == 0 {
        s
    } else {
        let d = dedup(s.drop_last());
        if d.contains(s.last()) {
            d
        } else {
            d.push(s.last())
        }
    }
}

pub proof fn lemma_without_push(s: Seq<NodeId>, a: NodeId, x: NodeId)
    ensures
        without(s.push(a), x) == if a == x { without(s, x) } else { without(s, x).push(a) },
{
    reveal_with_fuel(Seq::filter, 1);
    assert(s.push(a).drop_last() == s);
}

pub proof fn lemma_without_absent(s: Seq<NodeId>, x: NodeId)
    requires
        !s.contains(x),
    ensures
        without(s, x) == s,
    decreases s.len(),
{
    reveal_with_fuel(Seq::filter, 1);
    if s.len() > 0 {
        assert(!s.drop_last().contains(x)) by {
            if s.drop_last().contains(x) {
                let i = choose|i: int| 0 <= i < s.drop_last().len() && s.drop_last()[i] == x;
                assert(s[i] == x);
            }
        }
        lemma_without_absent(s.drop_last(), x);
        assert(s.drop_last().push(s.last()) == s);
    }
}

pub proof fn lemma_without_not_contains(s: Seq<NodeId>, x: NodeId)
    ensures
        !without(s, x).contains(x),
{
    broadcast use vstd::seq_lib::group_filter_ensures;
}

pub proof fn lemma_without_subset(s: Seq<NodeId>, x: NodeId, y: NodeId)
    ensures
        without(s, x).contains(y) ==> s.contains(y) && y != x,
    decreases s.len(),
{
    reveal_with_fuel(Seq::filter, 1);
    if s.len() > 0 {
        let d = s.drop_last();
        lemma_without_subset(d, x, y);
        if without(s, x).contains(y) {
            let i = choose|i: int| 0 <= i < without(s, x).len() && without(s, x)[i] == y;
            if s.last() != x && i == without(d, x).len() {
                assert(s[s.len() - 1] == y);
            } else {
                assert(without(d, x)[i] == y);
                let j = choose|j: int| 0 <= j < d.len() && d[j] == y;
                assert(s[j] == y);
            }
        }
    }
}

/// Removing an id from a list without repetitions shortens it by at most one.
pub proof fn lemma_without_len(s: Seq<NodeId>, x: NodeId)
    requires
        s.no_duplicates(),
    ensures
        without(s, x).len() + 1 >= s.len(),
        without(s, x).len() <= s.len(),
        !s.contains(x) ==> without(s, x).len() == s.len(),
    decreases s.len(),
{
    reveal_with_fuel(Seq::filter, 1);
    if s.len() > 0 {
        let d = s.drop_last();
        assert(d.no_duplicates());
        lemma_without_len(d, x);
        if s.last() == x {
            assert(!d.contains(x)) by {
                if d.contains(x) {
                    let i = choose|i: int| 0 <= i < d.len() && d[i] == x;
                    assert(s[i] == s[s.len() - 1]);
                }
            }
            lemma_without_absent(d, x);
        }
        if !s.contains(x) {
            assert(!d.contains(x)) by {
                if d.contains(x) {
                    let i = choose|i: int| 0 <= i < d.len() && d[i] == x;
                    assert(s[i] == x);
                }
            }
            assert(s[s.len() - 1] != x);
        }
    }
}

/// Removing `x` keeps every other id.
pub proof fn lemma_without_contains(s: Seq<NodeId>, x: NodeId, y: NodeId)
    requires
        y != x,
    ensures
        without(s, x).contains(y) <==> s.contains(y),
    decreases s.len(),
{
    lemma_without_subset(s, x, y);
    reveal_with_fuel(Seq::filter, 1);
    if s.len() > 0 && s.contains(y) {
        let d = s.drop_last();
        lemma_without_contains(d, x, y);
        if s.last() == y {
            assert(without(s, x) == without(d, x).push(y));
            assert(without(s, x)[without(d, x).len() as int] == y);
        } else {
            let i = choose|i: int| 0 <= i < s.len() && s[i] == y;
            assert(d[i] == y);
            let j = choose|j: int| 0 <= j < without(d, x).len() && without(d, x)[j] == y;
            if s.last() != x {
                assert(without(s, x)[j] == y);
            }
        }
    }
}

pub proof fn lemma_without_no_duplicates(s: Seq<NodeId>, x: NodeId)
    requires
        s.no_duplicates(),
    ensures
        without(s, x).no_duplicates(),
    decreases s.len(),
{
    reveal_with_fuel(Seq::filter, 1);
    if s.len() > 0 {
        let d = s.drop_last();
        assert(d.no_duplicates());
        lemma_without_no_duplicates(d, x);
        broadcast use vstd::seq_lib::group_filter_ensures;
        if s.last() != x {
            assert(!d.contains(s.last())) by {
                if d.contains(s.last()) {
                    let i = choose|i: int| 0 <= i < d.len() && d[i] == s.last();
                    assert(s[i] == s[s.len() - 1]);
                }
            }
            assert(!without(d, x).contains(s.last())) by {
                lemma_without_subset(d, x, s.last());
            }
        }
    }
}

pub proof fn lemma_dedup_no_duplicates(s: Seq<NodeId>)
    ensures
        dedup(s).no_duplicates(),
        forall|x: NodeId| dedup(s).contains(x) <==> s.contains(x),
    decreases s.len(),
{
    if s.len() > 0 {
        lemma_dedup_no_duplicates(s.drop_last());
        let d = dedup(s.drop_last());
        assert forall|x: NodeId| d.push(s.last()).contains(x) <==> (d.contains(x) || x == s.last()) by {
            if d.push(s.last()).contains(x) {
                let i = choose|i: int| 0 <= i < d.push(s.last()).len() && d.push(s.last())[i] == x;
                if i < d.len() {
                    assert(d[i] == x);
                }
            }
            if d.contains(x) {
                let i = choose|i: int| 0 <= i < d.len() && d[i] == x;
                assert(d.push(s.last())[i] == x);
            }
            if x == s.last() {
                assert(d.push(s.last())[d.len() as int] == x);
            }
        }
        assert forall|x: NodeId| s.contains(x) <==> (s.drop_last().contains(x) || x == s.last()) by {
            if s.contains(x) {
                let i = choose|i: int| 0 <= i < s.len() && s[i] == x;
                if i < s.len() - 1 {
                    assert(s.drop_last()[i] == x);
                }
            }
            if s.drop_last().contains(x) {
                let i = choose|i: int| 0 <= i < s.drop_last().len() && s.drop_last()[i] == x;
                assert(s[i] == x);
            }
        }
    }
}

/// Whether `x` occurs in `v`.
pub fn contains(v: &Vec<NodeId>, x: NodeId) -> (r: bool)
    ensures
        r == v@.contains(x),
{
    let mut i: usize = 0;
    while i < v.len()
        invariant
            i <= v.len(),
            forall|j: int| 0 <= j < i ==> v@[j] != x,
        decreases v.len() - i,
    {
        if v[i] == x {
            return true;
        }
        i = i + 1;
    }
    false
}

/// A copy of `v` without the occurrences of `x`.
pub fn remove_all(v: &Vec<NodeId>, x: NodeId) -> (r: Vec<NodeId>)
    ensures
        r@ == without(v@, x),
{
    let mut r: Vec<NodeId> = Vec::new();
    let mut i: usize = 0;
    while i < v.len()
        invariant
            i <= v.len(),
            r@ == without(v@.take(i as int), x),
        decreases v.len() - i,
    {
        proof {
            lemma_without_push(v@.take(i as int), v@[i as int], x);
            assert(v@.take(i as int).push(v@[i as int]) == v@.take(i + 1));
        }
        if v[i] != x {
            r.push(v[i]);
        }
        i = i + 1;
    }
    assert(v@.take(v.len() as int) == v@);
    r
}

/// A copy of `v` with `x` appended.
pub fn appended(v: &Vec<NodeId>, x: NodeId) -> (r: Vec<NodeId>)
    ensures
        r@ == v@.push(x),
{
    let mut r = v.clone();
    assert(r@ =~= v@);
    r.push(x);
    r
}

/// A copy of `v` with later repetitions dropped.
pub fn unique(v: &Vec<NodeId>) -> (r: Vec<NodeId>)
    ensures
        r@ == dedup(v@),
{
    let mut r: Vec<NodeId> = Vec::new();
    let mut i: usize = 0;
    while i < v.len()
        invariant
            i <= v.len(),
            r@ == dedup(v@.take(i as int)),
        decreases v.len() - i,
    {
        assert(v@.take(i + 1).drop_last() == v@.take(i as int));
        if !contains(&r, v[i]) {
            r.push(v[i]);
        }
        i = i + 1;
    }
    assert(v@.take(v.len() as int) == v@);
    r
}

} // verus!
