//! Maps ordered by an integer key: their keys in order, and the bounded
//! variants that forget their smallest keys first.
use std::collections::BTreeMap;
use vstd::prelude::*;

verus! {

broadcast use {vstd::std_specs::btree::group_btree_axioms, vstd::laws_cmp::group_laws_cmp};

/// Strictly increasing.
pub open spec fn increasing(keys: Seq<u64>) -> bool {
    forall|i: int, j: int| 0 <= i < j < keys.len() ==> keys[i] < keys[j]
}

/// `keys` lists `set` once each, from the smallest to the largest.
pub open spec fn lists(keys: Seq<u64>, set: Set<u64>) -> bool {
    &&& increasing(keys)
    &&& keys.to_set() == set
}

/// The keys of `map` from the smallest to the largest.
pub open spec fn sorted_keys<V>(map: Map<u64, V>) -> Seq<u64> {
    choose|keys: Seq<u64>| lists(keys, map.dom())
}

/// `map` without its smallest keys, so that at most `limit` entries remain.
pub open spec fn keep_largest<V>(map: Map<u64, V>, limit: nat) -> Map<u64, V> {
    let keys = sorted_keys(map);
    if keys.len() <= limit {
        map
    } else {
        map.remove_keys(keys.take(keys.len() - limit).to_set())
    }
}

/// Only one increasing sequence lists a given set.
pub proof fn lemma_listing_is_unique(a: Seq<u64>, b: Seq<u64>)
    requires
        increasing(a),
        increasing(b),
        a.to_set() == b.to_set(),
    ensures
        a == b,
    decreases a.len(),
{
    if a.len() == 0 {
        if b.len() > 0 {
            assert(b.to_set().contains(b[0]));
            assert(a.contains(b[0]));
        }
        assert(a =~= b);
    } else {
        assert(a.to_set().contains(a.last()));
        assert(b.contains(a.last()));
        assert(b.to_set().contains(b.last()));
        assert(a.contains(b.last()));
        let i = a.index_of(b.last());
        let j = b.index_of(a.last());
        assert(a.last() == b.last());
        assert(a.drop_last().to_set() =~= b.drop_last().to_set()) by {
            assert forall|x: u64| a.drop_last().to_set().contains(x) implies
                b.drop_last().to_set().contains(x) by {
                let k = a.drop_last().index_of(x);
                assert(a[k] == x);
                assert(a.to_set().contains(x));
                assert(b.contains(x));
                let l = b.index_of(x);
                assert(l < b.len() - 1);
                assert(b.drop_last()[l] == x);
            }
            assert forall|x: u64| b.drop_last().to_set().contains(x) implies
                a.drop_last().to_set().contains(x) by {
                let k = b.drop_last().index_of(x);
                assert(b[k] == x);
                assert(b.to_set().contains(x));
                assert(a.contains(x));
                let l = a.index_of(x);
                assert(l < a.len() - 1);
                assert(a.drop_last()[l] == x);
            }
        }
        lemma_listing_is_unique(a.drop_last(), b.drop_last());
        assert(a =~= a.drop_last().push(a.last()));
        assert(b =~= b.drop_last().push(b.last()));
    }
}

/// An increasing sequence has as many members as it has positions.
pub proof fn lemma_increasing_len(keys: Seq<u64>)
    requires
        increasing(keys),
    ensures
        keys.no_duplicates(),
        keys.to_set().finite(),
        keys.to_set().len() == keys.len(),
{
    keys.unique_seq_to_set();
}

/// Every finite set of integers is listed by some increasing sequence.
pub proof fn lemma_listing_exists(set: Set<u64>) -> (keys: Seq<u64>)
    requires
        set.finite(),
    ensures
        lists(keys, set),
    decreases set.len(),
{
    if set.len() == 0 {
        let keys = Seq::<u64>::empty();
        assert(keys.to_set() =~= set);
        keys
    } else {
        let top = lemma_largest_member(set);
        let rest = lemma_listing_exists(set.remove(top));
        let keys = rest.push(top);
        assert forall|i: int| 0 <= i < rest.len() implies rest[i] < top by {
            assert(rest.to_set().contains(rest[i]));
        }
        assert(keys.to_set() =~= set) by {
            assert forall|x: u64| keys.to_set().contains(x) <==> set.contains(x) by {
                if keys.contains(x) {
                    let i = keys.index_of(x);
                    if i < rest.len() {
                        assert(rest.to_set().contains(rest[i]));
                    }
                }
                if set.contains(x) {
                    if x == top {
                        assert(keys[rest.len() as int] == x);
                    } else {
                        assert(rest.to_set().contains(x));
                        let i = rest.index_of(x);
                        assert(keys[i] == x);
                    }
                }
            }
        }
        keys
    }
}

/// A non-empty finite set of integers has a largest member.
proof fn lemma_largest_member(set: Set<u64>) -> (top: u64)
    requires
        set.finite(),
        set.len() > 0,
    ensures
        set.contains(top),
        forall|x: u64| set.contains(x) ==> x <= top,
    decreases set.len(),
{
    let one = set.choose();
    if set.len() == 1 {
        assert(set.remove(one).len() == 0);
        assert forall|x: u64| set.contains(x) implies x <= one by {
            if x != one {
                assert(set.remove(one).contains(x));
            }
        }
        one
    } else {
        let rest = lemma_largest_member(set.remove(one));
        if rest < one {
            assert forall|x: u64| set.contains(x) implies x <= one by {
                if x != one {
                    assert(set.remove(one).contains(x));
                }
            }
            one
        } else {
            assert forall|x: u64| set.contains(x) implies x <= rest by {
                if x != one {
                    assert(set.remove(one).contains(x));
                }
            }
            rest
        }
    }
}

/// What `sorted_keys` is: the one increasing listing of the keys.
pub proof fn lemma_sorted_keys<V>(map: Map<u64, V>)
    requires
        map.dom().finite(),
    ensures
        lists(sorted_keys(map), map.dom()),
        sorted_keys(map).len() == map.dom().len(),
        forall|keys: Seq<u64>| lists(keys, map.dom()) ==> keys == sorted_keys(map),
{
    let keys = lemma_listing_exists(map.dom());
    let chosen = sorted_keys(map);
    assert(lists(chosen, map.dom()));
    lemma_increasing_len(chosen);
    assert forall|keys: Seq<u64>| lists(keys, map.dom()) implies keys == sorted_keys(map) by {
        lemma_listing_is_unique(keys, chosen);
    }
}

/// A bounded map keeps at most `limit` entries, changes none of them, and
/// every key that it forgets is smaller than every key that it keeps.
pub proof fn lemma_keep_largest<V>(map: Map<u64, V>, limit: nat)
    requires
        map.dom().finite(),
    ensures
        keep_largest(map, limit).dom().finite(),
        keep_largest(map, limit).submap_of(map),
        map.dom().len() <= limit ==> keep_largest(map, limit) == map,
        map.dom().len() > limit ==> keep_largest(map, limit).dom().len() == limit,
        forall|gone: u64, kept: u64|
            #[trigger] map.contains_key(gone) && !keep_largest(map, limit).contains_key(gone)
                && #[trigger] keep_largest(map, limit).contains_key(kept) ==> gone < kept,
{
    lemma_sorted_keys(map);
    let keys = sorted_keys(map);
    let kept_map = keep_largest(map, limit);
    if keys.len() > limit {
        let gone_keys = keys.take(keys.len() - limit);
        let kept_keys = keys.skip(keys.len() - limit);
        assert(increasing(gone_keys));
        assert(increasing(kept_keys));
        lemma_increasing_len(gone_keys);
        lemma_increasing_len(kept_keys);
        assert(kept_map.dom() =~= kept_keys.to_set()) by {
            assert forall|x: u64| kept_map.dom().contains(x) <==> kept_keys.to_set().contains(x) by {
                if kept_map.dom().contains(x) {
                    assert(keys.to_set().contains(x));
                    let i = keys.index_of(x);
                    if i < keys.len() - limit {
                        assert(gone_keys[i] == x);
                        assert(gone_keys.to_set().contains(x));
                    }
                    assert(kept_keys[i - (keys.len() - limit)] == x);
                }
                if kept_keys.to_set().contains(x) {
                    let i = kept_keys.index_of(x);
                    assert(keys[i + (keys.len() - limit)] == x);
                    assert(keys.to_set().contains(x));
                    if gone_keys.contains(x) {
                        let j = gone_keys.index_of(x);
                        assert(keys[j] == x);
                    }
                }
            }
        }
        assert forall|gone: u64, kept: u64|
            map.contains_key(gone) && !kept_map.contains_key(gone) && kept_map.contains_key(kept)
            implies gone < kept by {
            assert(keys.to_set().contains(gone));
            let i = keys.index_of(gone);
            let j = kept_keys.index_of(kept);
            if i >= keys.len() - limit {
                assert(kept_keys[i - (keys.len() - limit)] == gone);
                assert(kept_keys.to_set().contains(gone));
            }
        }
    }
}

/// The keys of `map` from the smallest to the largest.
pub fn keys_of<V>(map: &BTreeMap<u64, V>) -> (keys: Vec<u64>)
    ensures
        keys@ == sorted_keys(map@),
        lists(keys@, map@.dom()),
        keys@.len() == map@.dom().len(),
        map@.dom().finite(),
{
    let mut keys: Vec<u64> = Vec::new();
    let ghost all = vstd::std_specs::iter::IteratorSpec::remaining(
        &vstd::std_specs::btree::spec_keys_iter(map),
    );
    for key in it: map.keys()
        invariant
            it.seq() == all,
            all == vstd::std_specs::iter::IteratorSpec::remaining(
                &vstd::std_specs::btree::spec_keys_iter(map),
            ),
            keys@ == all.unref().take(it.index()),
    {
        keys.push(*key);
    }
    proof {
        assert(keys@ =~= all.unref());
        assert(vstd::laws_cmp::obeys_cmp::<&u64>());
        assert(vstd::std_specs::btree::increasing_seq(all));
        assert forall|i: int, j: int| 0 <= i < j < keys@.len() implies keys@[i] < keys@[j] by {
            assert(all[i] == keys@[i] && all[j] == keys@[j]);
            assert(vstd::std_specs::cmp::OrdSpec::cmp_spec(&all[i], &all[j]) is Less);
        }
        lemma_increasing_len(keys@);
        lemma_sorted_keys(map@);
        assert(lists(keys@, map@.dom()));
    }
    keys
}

/// Removes every key in `keys`.
pub fn remove_all<V>(map: &mut BTreeMap<u64, V>, keys: &Vec<u64>)
    ensures
        final(map)@ == old(map)@.remove_keys(keys@.to_set()),
{
    let ghost before = map@;
    let mut i: usize = 0;
    proof {
        assert(keys@.take(0).to_set() =~= Set::<u64>::empty());
        assert(map@ =~= before.remove_keys(keys@.take(0).to_set()));
    }
    while i < keys.len()
        invariant
            i <= keys@.len(),
            map@ == before.remove_keys(keys@.take(i as int).to_set()),
        decreases keys@.len() - i,
    {
        let ghost done = keys@.take(i as int);
        let ghost next = keys@.take(i + 1);
        let key: u64 = keys[i];
        map.remove(&key);
        proof {
            assert(next =~= done.push(key));
            assert(next.to_set() =~= done.to_set().insert(key)) by {
                assert forall|x: u64| next.to_set().contains(x) <==> done.to_set().insert(key).contains(x) by {
                    if next.contains(x) {
                        let k = next.index_of(x);
                        if k < done.len() {
                            assert(done[k] == x);
                        }
                    }
                    if done.contains(x) {
                        let k = done.index_of(x);
                        assert(next[k] == x);
                    }
                    assert(next[done.len() as int] == key);
                }
            }
            assert(map@ =~= before.remove_keys(next.to_set()));
        }
        i += 1;
    }
    proof {
        assert(keys@.take(i as int) =~= keys@);
    }
}

/// Forgets the smallest keys until at most `limit` entries remain.
pub fn trim<V>(map: &mut BTreeMap<u64, V>, limit: usize)
    ensures
        final(map)@ == keep_largest(old(map)@, limit as nat),
        final(map)@.dom().finite(),
        old(map)@.dom().finite(),
{
    let keys = keys_of(map);
    proof {
        lemma_keep_largest(map@, limit as nat);
    }
    if keys.len() > limit {
        let mut gone: Vec<u64> = Vec::new();
        let surplus: usize = keys.len() - limit;
        let mut i: usize = 0;
        while i < surplus
            invariant
                i <= surplus <= keys@.len(),
                gone@ == keys@.take(i as int),
            decreases surplus - i,
        {
            gone.push(keys[i]);
            i += 1;
        }
        remove_all(map, &gone);
    }
}

} // verus!
