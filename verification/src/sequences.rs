//! Sequences: the first element that answers a question, sums and counts,
//! sequences laid end to end, and whether a list of ids names anything twice.

use std::collections::HashSet;
use vstd::prelude::*;

verus! {

/// The position of the first element of `s` for which `pred` holds, if any.
pub open spec fn first_index<T>(s: Seq<T>, pred: spec_fn(T) -> bool) -> Option<int>
    decreases s.len(),
{
    if s.len() == 0 {
        None
    } else {
        match first_index(s.drop_last(), pred) {
            Some(i) => Some(i),
            None => if pred(s.last()) {
                Some(s.len() - 1)
            } else {
                None
            },
        }
    }
}

/// `first_index` finds a position where `pred` holds with none before it, or
/// there is no such position.
pub proof fn lemma_first_index<T>(s: Seq<T>, pred: spec_fn(T) -> bool)
    ensures
        match first_index(s, pred) {
            Some(i) => {
                &&& 0 <= i < s.len()
                &&& pred(s[i])
                &&& forall|j: int| 0 <= j < i ==> !pred(#[trigger] s[j])
            },
            None => forall|j: int| 0 <= j < s.len() ==> !pred(#[trigger] s[j]),
        },
    decreases s.len(),
{
    if s.len() > 0 {
        let front = s.drop_last();
        lemma_first_index(front, pred);
        assert(forall|j: int| 0 <= j < front.len() ==> front[j] == s[j]);
        match first_index(front, pred) {
            Some(i) => {
                assert(front[i] == s[i]);
            },
            None => {
                assert forall|j: int| 0 <= j < s.len() - 1 implies !pred(#[trigger] s[j]) by {
                    assert(front[j] == s[j]);
                }
            },
        }
    }
}

/// A position where `pred` holds, with none before it, is what `first_index` finds.
pub proof fn lemma_first_index_at<T>(s: Seq<T>, pred: spec_fn(T) -> bool, i: int)
    requires
        0 <= i < s.len(),
        pred(s[i]),
        forall|j: int| 0 <= j < i ==> !pred(#[trigger] s[j]),
    ensures
        first_index(s, pred) == Some(i),
{
    lemma_first_index(s, pred);
}

/// Where `pred` holds of no element, `first_index` finds nothing.
pub proof fn lemma_first_index_none<T>(s: Seq<T>, pred: spec_fn(T) -> bool)
    requires
        forall|j: int| 0 <= j < s.len() ==> !pred(#[trigger] s[j]),
    ensures
        first_index(s, pred) is None,
{
    lemma_first_index(s, pred);
}

/// The sequences that `f` gives for the elements of `s`, one after another.
pub open spec fn flat<T, U>(s: Seq<T>, f: spec_fn(T) -> Seq<U>) -> Seq<U>
    decreases s.len(),
{
    if s.len() == 0 {
        Seq::empty()
    } else {
        flat(s.drop_last(), f) + f(s.last())
    }
}

/// One more element of `s` adds what `f` gives for it.
pub proof fn lemma_flat_step<T, U>(s: Seq<T>, f: spec_fn(T) -> Seq<U>, i: int)
    requires
        0 <= i < s.len(),
    ensures
        flat(s.take(i + 1), f) == flat(s.take(i), f) + f(s[i]),
{
    assert(s.take(i + 1).drop_last() =~= s.take(i));
}

/// A prefix of `s` gives a prefix.
pub proof fn lemma_flat_prefix<T, U>(s: Seq<T>, f: spec_fn(T) -> Seq<U>, i: int)
    requires
        0 <= i <= s.len(),
    ensures
        flat(s.take(i), f).len() <= flat(s, f).len(),
        flat(s.take(i), f) == flat(s, f).take(flat(s.take(i), f).len() as int),
    decreases s.len() - i,
{
    if i < s.len() {
        lemma_flat_step(s, f, i);
        lemma_flat_prefix(s, f, i + 1);
        let longer = flat(s.take(i + 1), f);
        let shorter = flat(s.take(i), f);
        assert(shorter =~= longer.take(shorter.len() as int));
        assert(shorter =~= flat(s, f).take(shorter.len() as int));
    } else {
        assert(s.take(i) =~= s);
        assert(flat(s, f) =~= flat(s, f).take(flat(s, f).len() as int));
    }
}

/// The sum of what `f` gives for the elements of `s`.
pub open spec fn total<T>(s: Seq<T>, f: spec_fn(T) -> int) -> int
    decreases s.len(),
{
    if s.len() == 0 {
        0
    } else {
        total(s.drop_last(), f) + f(s.last())
    }
}

/// The number of elements of `s` for which `pred` holds.
pub open spec fn tally<T>(s: Seq<T>, pred: spec_fn(T) -> bool) -> int
    decreases s.len(),
{
    if s.len() == 0 {
        0
    } else {
        tally(s.drop_last(), pred) + if pred(s.last()) {
            1int
        } else {
            0int
        }
    }
}

/// One more element of `s` adds what `f` gives for it to the sum.
pub proof fn lemma_total_step<T>(s: Seq<T>, f: spec_fn(T) -> int, i: int)
    requires
        0 <= i < s.len(),
    ensures
        total(s.take(i + 1), f) == total(s.take(i), f) + f(s[i]),
{
    assert(s.take(i + 1).drop_last() =~= s.take(i));
}

/// One more element of `s` adds one to the count where `pred` holds of it.
pub proof fn lemma_tally_step<T>(s: Seq<T>, pred: spec_fn(T) -> bool, i: int)
    requires
        0 <= i < s.len(),
    ensures
        tally(s.take(i + 1), pred) == tally(s.take(i), pred) + if pred(s[i]) {
            1int
        } else {
            0int
        },
{
    assert(s.take(i + 1).drop_last() =~= s.take(i));
}

/// The values that a sequence of references points to.
pub open spec fn targets<T>(refs: Seq<&T>) -> Seq<T> {
    refs.map_values(|r: &T| *r)
}

/// Appends a reference to each element of `items` to `out`, in order.
pub fn extend_refs<'a, T>(out: &mut Vec<&'a T>, items: &'a Vec<T>)
    ensures
        targets(final(out)@) == targets(old(out)@) + items@,
{
    let ghost before = targets(out@);
    let mut i: usize = 0;
    while i < items.len()
        invariant
            i <= items.len(),
            targets(out@) == before + items@.take(i as int),
        decreases items.len() - i,
    {
        let ghost prev = out@;
        out.push(&items[i]);
        proof {
            assert(out@ == prev.push(&items@[i as int]));
            assert(targets(prev).len() == prev.len());
            assert(items@.take(i + 1) =~= items@.take(i as int).push(items@[i as int]));
            assert(targets(out@) =~= targets(prev).push(items@[i as int]));
        }
        i = i + 1;
    }
    assert(items@.take(i as int) =~= items@);
}

/// The set of the ids in `ids`.
pub fn id_set(ids: &Vec<u32>) -> (set: HashSet<u32>)
    ensures
        forall|id: u32| set@.contains(id) <==> ids@.contains(id),
{
    broadcast use vstd::std_specs::hash::group_hash_axioms;

    let mut set: HashSet<u32> = HashSet::new();
    let mut i: usize = 0;
    while i < ids.len()
        invariant
            i <= ids.len(),
            forall|id: u32| set@.contains(id) <==> ids@.take(i as int).contains(id),
        decreases ids.len() - i,
    {
        let id: u32 = ids[i];
        let ghost shorter = ids@.take(i as int);
        let ghost longer = ids@.take(i + 1);
        set.insert(id);
        proof {
            assert(longer =~= shorter.push(id));
            assert forall|x: u32| set@.contains(x) <==> longer.contains(x) by {
                if longer.contains(x) {
                    let k = choose|k: int| 0 <= k < longer.len() && longer[k] == x;
                    if k < i {
                        assert(shorter[k] == x);
                    }
                }
                if shorter.contains(x) {
                    let k = choose|k: int| 0 <= k < shorter.len() && shorter[k] == x;
                    assert(longer[k] == x);
                }
                if x == id {
                    assert(longer[i as int] == x);
                }
            }
        }
        i = i + 1;
    }
    assert(ids@.take(i as int) =~= ids@);
    set
}

/// Whether no id occurs twice in `ids`.
pub fn all_distinct(ids: &Vec<u32>) -> (distinct: bool)
    ensures
        distinct == ids@.no_duplicates(),
{
    broadcast use vstd::std_specs::hash::group_hash_axioms;

    let mut seen: HashSet<u32> = HashSet::new();
    let mut i: usize = 0;
    while i < ids.len()
        invariant
            i <= ids.len(),
            ids@.take(i as int).no_duplicates(),
            forall|id: u32| seen@.contains(id) <==> ids@.take(i as int).contains(id),
        decreases ids.len() - i,
    {
        let id: u32 = ids[i];
        let ghost prefix = ids@.take(i as int);
        let ghost longer = ids@.take(i + 1);
        assert(longer =~= prefix.push(id));
        if seen.contains(&id) {
            proof {
                let j = choose|j: int| 0 <= j < prefix.len() && prefix[j] == id;
                assert(ids@[j] == ids@[i as int] && j != i);
            }
            return false;
        }
        seen.insert(id);
        proof {
            assert forall|a: int, b: int| 0 <= a < longer.len() && 0 <= b < longer.len() && a
                != b implies longer[a] != longer[b] by {
                if a < i && b < i {
                    assert(prefix[a] != prefix[b]);
                } else if a < i {
                    assert(prefix.contains(prefix[a]));
                } else if b < i {
                    assert(prefix.contains(prefix[b]));
                }
            }
            assert forall|x: u32| seen@.contains(x) <==> longer.contains(x) by {
                if longer.contains(x) {
                    let k = choose|k: int| 0 <= k < longer.len() && longer[k] == x;
                    if k < i {
                        assert(prefix[k] == x);
                        assert(prefix.contains(x));
                    }
                }
                if prefix.contains(x) {
                    let k = choose|k: int| 0 <= k < prefix.len() && prefix[k] == x;
                    assert(longer[k] == x);
                }
                if x == id {
                    assert(longer[i as int] == x);
                }
            }
        }
        i = i + 1;
    }
    assert(ids@.take(i as int) =~= ids@);
    true
}

} // verus!
