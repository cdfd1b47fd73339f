//! Sorting by a key, with equal keys kept in the order in which they came.

use vstd::prelude::*;

verus! {

/// Whether the key at `a` comes before the key at `b` when keys are sorted
/// and equal keys keep their order.
pub open spec fn comes_before(keys: Seq<u128>, a: int, b: int) -> bool {
    keys[a] < keys[b] || (keys[a] == keys[b] && a < b)
}

/// Whether `places` lists the places of `keys` in sorted order: every place
/// once, smaller keys first, and equal keys in the order of their places.
/// There is one such list for each sequence of keys.
pub open spec fn sorts_stably(keys: Seq<u128>, places: Seq<usize>) -> bool {
    &&& places.len() == keys.len()
    &&& forall|i: int| 0 <= i < places.len() ==> (#[trigger] places[i]) < keys.len()
    &&& forall|i: int, j: int|
        0 <= i < j < places.len() ==> comes_before(
            keys,
            (#[trigger] places[i]) as int,
            (#[trigger] places[j]) as int,
        )
}

/// A list that sorts the keys holds every place.
pub proof fn lemma_every_place_is_listed(keys: Seq<u128>, places: Seq<usize>, place: int)
    requires
        sorts_stably(keys, places),
        0 <= place < keys.len(),
    ensures
        exists|i: int| 0 <= i < places.len() && #[trigger] places[i] == place,
{
    let n = keys.len() as int;
    let listed = Seq::new(places.len(), |i: int| places[i] as int);
    assert forall|i: int, j: int|
        0 <= i < listed.len() && 0 <= j < listed.len() && i != j implies listed[i]
        != listed[j] by {
        if i < j {
            assert(comes_before(keys, places[i] as int, places[j] as int));
        } else {
            assert(comes_before(keys, places[j] as int, places[i] as int));
        }
    }
    assert(listed.no_duplicates());
    listed.unique_seq_to_set();
    vstd::seq_lib::seq_to_set_is_finite(listed);
    vstd::set_lib::lemma_int_range(0, n);
    let all = vstd::set_lib::set_int_range(0, n);
    assert(listed.to_set().subset_of(all)) by {
        assert forall|a: int| listed.to_set().contains(a) implies all.contains(a) by {
            let i = choose|i: int| 0 <= i < listed.len() && listed[i] == a;
            assert(places[i] < keys.len());
        }
    }
    vstd::set_lib::lemma_subset_equality(listed.to_set(), all);
    assert(all.contains(place));
    assert(listed.contains(place));
    let i = choose|i: int| 0 <= i < listed.len() && listed[i] == place;
    assert(places[i] == place);
}

/// The two lists agree on their first `upto` places.
proof fn lemma_same_start(keys: Seq<u128>, one: Seq<usize>, other: Seq<usize>, upto: int)
    requires
        sorts_stably(keys, one),
        sorts_stably(keys, other),
        0 <= upto <= keys.len(),
    ensures
        forall|i: int| 0 <= i < upto ==> one[i] == other[i],
    decreases upto,
{
    if upto > 0 {
        lemma_same_start(keys, one, other, upto - 1);
        let at = upto - 1;
        let a = one[at] as int;
        let b = other[at] as int;
        if a != b {
            lemma_every_place_is_listed(keys, other, a);
            let k = choose|k: int| 0 <= k < other.len() && #[trigger] other[k] == a;
            if k < at {
                assert(one[k] == other[k]);
                assert(comes_before(keys, one[k] as int, one[at] as int));
            }
            assert(comes_before(keys, other[at] as int, other[k] as int));
            lemma_every_place_is_listed(keys, one, b);
            let m = choose|m: int| 0 <= m < one.len() && #[trigger] one[m] == b;
            if m < at {
                assert(one[m] == other[m]);
                assert(comes_before(keys, other[m] as int, other[at] as int));
            }
            assert(comes_before(keys, one[at] as int, one[m] as int));
        }
    }
}

/// There is one list only that sorts the keys: `sorts_stably` tells what
/// the sorted order is, and leaves nothing open.
pub proof fn lemma_one_sorted_order(keys: Seq<u128>, one: Seq<usize>, other: Seq<usize>)
    requires
        sorts_stably(keys, one),
        sorts_stably(keys, other),
    ensures
        one == other,
{
    lemma_same_start(keys, one, other, keys.len() as int);
    assert(one =~= other);
}

/// The places of the first `n` keys in sorted order.
spec fn sorts_first(keys: Seq<u128>, places: Seq<usize>, n: int) -> bool {
    &&& places.len() == n
    &&& forall|i: int| 0 <= i < places.len() ==> (#[trigger] places[i]) < n
    &&& forall|i: int, j: int|
        0 <= i < j < places.len() ==> comes_before(
            keys,
            (#[trigger] places[i]) as int,
            (#[trigger] places[j]) as int,
        )
}

/// Lists the places of `keys` in sorted order, equal keys in the order in
/// which they stand.
pub fn stable_places(keys: &Vec<u128>) -> (places: Vec<usize>)
    ensures
        sorts_stably(keys@, places@),
{
    let mut places: Vec<usize> = Vec::new();
    let mut n: usize = 0;
    while n < keys.len()
        invariant
            n <= keys.len(),
            sorts_first(keys@, places@, n as int),
        decreases keys.len() - n,
    {
        let key: u128 = keys[n];
        let mut at: usize = places.len();
        while at > 0 && keys[places[at - 1]] > key
            invariant
                at <= places.len(),
                n < keys.len(),
                key == keys@[n as int],
                sorts_first(keys@, places@, n as int),
                forall|j: int| at <= j < places.len() ==> keys@[(#[trigger] places@[j]) as int] > key,
            decreases at,
        {
            at = at - 1;
        }
        let ghost before = places@;
        places.insert(at, n);
        proof {
            let after = places@;
            assert forall|i: int| 0 <= i < after.len() implies (#[trigger] after[i]) < n + 1 by {
                if i < at {
                    assert(after[i] == before[i]);
                } else if i > at {
                    assert(after[i] == before[i - 1]);
                }
            }
            assert forall|i: int, j: int| 0 <= i < j < after.len() implies comes_before(
                keys@,
                (#[trigger] after[i]) as int,
                (#[trigger] after[j]) as int,
            ) by {
                if j < at {
                    assert(after[i] == before[i] && after[j] == before[j]);
                } else if j == at {
                    assert(after[i] == before[i]);
                    assert(before[i] < n);
                    if at > 0 {
                        assert(keys@[before[at - 1] as int] <= key);
                        if i < at - 1 {
                            assert(comes_before(keys@, before[i] as int, before[at - 1] as int));
                        }
                    }
                } else if i < at {
                    assert(after[i] == before[i] && after[j] == before[j - 1]);
                } else if i == at {
                    assert(after[j] == before[j - 1]);
                    assert(keys@[before[j - 1] as int] > key);
                } else {
                    assert(after[i] == before[i - 1] && after[j] == before[j - 1]);
                }
            }
        }
        n = n + 1;
    }
    places
}

} // verus!
