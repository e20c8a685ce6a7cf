use vstd::prelude::*;

use crate::keys::SameKey;

verus! {

/// No key occurs twice in the association list.
pub open spec fn keys_distinct<K, V>(s: Seq<(K, V)>) -> bool {
    forall|i: int, j: int|
        #![trigger s[i], s[j]]
        0 <= i < s.len() && 0 <= j < s.len() && i != j ==> s[i].0 != s[j].0
}

/// The map that an association list stands for, each value taken by its view.
pub open spec fn assoc_view<K, V: View>(s: Seq<(K, V)>) -> Map<K, V::V>
    decreases s.len(),
{
    if s.len() == 0 {
        Map::empty()
    } else {
        assoc_view(s.drop_last()).insert(s.last().0, s.last().1@)
    }
}

pub proof fn lemma_assoc_contains<K, V: View>(s: Seq<(K, V)>, k: K)
    ensures
        assoc_view(s).contains_key(k) <==> exists|i: int| 0 <= i < s.len() && #[trigger] s[i].0 == k,
    decreases s.len(),
{
    if s.len() > 0 {
        let t = s.drop_last();
        lemma_assoc_contains(t, k);
        if assoc_view(s).contains_key(k) && s.last().0 != k {
            let i = choose|i: int| 0 <= i < t.len() && #[trigger] t[i].0 == k;
            assert(s[i].0 == k);
        }
        if exists|i: int| 0 <= i < s.len() && #[trigger] s[i].0 == k {
            let i = choose|i: int| 0 <= i < s.len() && #[trigger] s[i].0 == k;
            if i < s.len() - 1 {
                assert(t[i].0 == k);
            }
        }
    }
}

pub proof fn lemma_assoc_index<K, V: View>(s: Seq<(K, V)>, i: int)
    requires
        keys_distinct(s),
        0 <= i < s.len(),
    ensures
        assoc_view(s).contains_key(s[i].0),
        assoc_view(s)[s[i].0] == s[i].1@,
    decreases s.len(),
{
    let t = s.drop_last();
    if i < s.len() - 1 {
        assert(t[i] == s[i]);
        assert(s[i].0 != s[s.len() - 1].0);
        lemma_assoc_index(t, i);
    }
}

pub proof fn lemma_assoc_push<K, V: View>(s: Seq<(K, V)>, k: K, v: V)
    ensures
        assoc_view(s.push((k, v))) == assoc_view(s).insert(k, v@),
{
    assert(s.push((k, v)).drop_last() =~= s);
}

pub proof fn lemma_assoc_update<K, V: View>(s: Seq<(K, V)>, i: int, v: V)
    requires
        keys_distinct(s),
        0 <= i < s.len(),
    ensures
        assoc_view(s.update(i, (s[i].0, v))) =~= assoc_view(s).insert(s[i].0, v@),
    decreases s.len(),
{
    let k = s[i].0;
    let u = s.update(i, (k, v));
    let t = s.drop_last();
    if i == s.len() - 1 {
        assert(u.drop_last() =~= t);
        lemma_assoc_contains(t, k);
        if assoc_view(t).contains_key(k) {
            let j = choose|j: int| 0 <= j < t.len() && #[trigger] t[j].0 == k;
            assert(s[j].0 == k);
        }
        assert(assoc_view(s) =~= assoc_view(t).insert(k, s[i].1@));
    } else {
        assert(u.drop_last() =~= t.update(i, (k, v)));
        assert(keys_distinct(t)) by {
            assert forall|a: int, b: int|
                #![trigger t[a], t[b]]
                0 <= a < t.len() && 0 <= b < t.len() && a != b implies t[a].0 != t[b].0 by {
                assert(t[a] == s[a] && t[b] == s[b]);
            }
        }
        assert(t[i] == s[i]);
        lemma_assoc_update(t, i, v);
        assert(s.last().0 != k);
    }
}

/// Finds the position of a key in an association list.
pub fn assoc_find<K: SameKey, V>(s: &Vec<(K, V)>, k: &K) -> (r: Option<usize>)
    ensures
        match r {
            Some(i) => i < s.len() && s@[i as int].0 == *k,
            None => forall|i: int| 0 <= i < s.len() ==> #[trigger] s@[i].0 != *k,
        },
{
    let mut i: usize = 0;
    while i < s.len()
        invariant
            i <= s.len(),
            forall|j: int| 0 <= j < i ==> #[trigger] s@[j].0 != *k,
        decreases s.len() - i,
    {
        if s[i].0.same(k) {
            return Some(i);
        }
        i = i + 1;
    }
    None
}

/// Binds `k` to `v`, replacing the value it had.
pub fn assoc_put<K: SameKey, V: View>(s: &mut Vec<(K, V)>, k: K, v: V)
    requires
        keys_distinct(old(s)@),
    ensures
        keys_distinct(final(s)@),
        assoc_view(final(s)@) == assoc_view(old(s)@).insert(k, v@),
{
    let ghost vv = v@;
    match assoc_find(s, &k) {
        Some(i) => {
            proof {
                lemma_assoc_update(s@, i as int, v);
            }
            s.set(i, (k, v));
            assert(s@ == old(s)@.update(i as int, (old(s)@[i as int].0, v)));
            assert(keys_distinct(s@)) by {
                assert forall|a: int, b: int|
                    #![trigger s@[a], s@[b]]
                    0 <= a < s@.len() && 0 <= b < s@.len() && a != b implies s@[a].0 != s@[b].0 by {
                    assert(s@[a].0 == old(s)@[a].0);
                    assert(s@[b].0 == old(s)@[b].0);
                }
            }
        },
        None => {
            proof {
                lemma_assoc_push(s@, k, v);
            }
            s.push((k, v));
            assert(keys_distinct(s@)) by {
                assert forall|a: int, b: int|
                    #![trigger s@[a], s@[b]]
                    0 <= a < s@.len() && 0 <= b < s@.len() && a != b implies s@[a].0 != s@[b].0 by {
                    if a < old(s)@.len() && b < old(s)@.len() {
                        assert(s@[a] == old(s)@[a] && s@[b] == old(s)@[b]);
                    } else if a < old(s)@.len() {
                        assert(s@[a] == old(s)@[a]);
                    } else {
                        assert(s@[b] == old(s)@[b]);
                    }
                }
            }
        },
    }
}

} // verus!
