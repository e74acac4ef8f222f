//! Association tables keyed by a 64-bit code, abstracted as finite maps.
//! The dispatch layer keeps every mapping (command code to handler, state
//! key to subsystem, record identifier to record) in such a table; entries
//! carry pairwise-distinct keys, and each operation is specified against the
//! table's map abstraction.

use vstd::prelude::*;

verus! {

/// The contents of an association list as a finite map. An earlier entry
/// shadows a later one with the same key; with distinct keys the order does
/// not matter.
pub open spec fn assoc_view<V: View>(s: Seq<(u64, V)>) -> Map<u64, V::V>
    decreases s.len(),
{
    if s.len() == 0 {
        Map::empty()
    } else {
        assoc_view(s.drop_first()).insert(s[0].0, s[0].1@)
    }
}

/// Pairwise-distinct keys.
pub open spec fn keys_unique<V>(s: Seq<(u64, V)>) -> bool {
    forall|i: int, j: int| 0 <= i < j < s.len() ==> s[i].0 != s[j].0
}

/// The first entry holding a key gives that key its value in the map.
pub proof fn lemma_assoc_found<V: View>(s: Seq<(u64, V)>, j: int, k: u64)
    requires
        0 <= j < s.len(),
        s[j].0 == k,
        forall|t: int| 0 <= t < j ==> s[t].0 != k,
    ensures
        assoc_view(s).contains_key(k),
        assoc_view(s)[k] == s[j].1@,
    decreases j,
{
    if j > 0 {
        assert forall|t: int| 0 <= t < j - 1 implies s.drop_first()[t].0 != k by {
            assert(s[t + 1].0 != k);
        }
        lemma_assoc_found(s.drop_first(), j - 1, k);
        assert(s[0].0 != k);
    }
}

/// A key held by no entry is absent from the map.
pub proof fn lemma_assoc_absent<V: View>(s: Seq<(u64, V)>, k: u64)
    requires
        forall|t: int| 0 <= t < s.len() ==> s[t].0 != k,
    ensures
        !assoc_view(s).contains_key(k),
    decreases s.len(),
{
    if s.len() > 0 {
        assert forall|t: int| 0 <= t < s.drop_first().len() implies s.drop_first()[t].0 != k by {
            assert(s[t + 1].0 != k);
        }
        lemma_assoc_absent(s.drop_first(), k);
        assert(s[0].0 != k);
    }
}

/// Removing the entry of a key removes exactly that key from the map.
pub proof fn lemma_assoc_remove<V: View>(s: Seq<(u64, V)>, j: int, k: u64)
    requires
        keys_unique(s),
        0 <= j < s.len(),
        s[j].0 == k,
    ensures
        assoc_view(s.remove(j)) == assoc_view(s).remove(k),
        keys_unique(s.remove(j)),
    decreases j,
{
    s.remove_ensures(j);
    assert forall|a: int, b: int| 0 <= a < b < s.remove(j).len() implies s.remove(j)[a].0 != s.remove(
        j,
    )[b].0 by {
        if a < j && b < j {
            assert(s[a].0 != s[b].0);
        } else if a < j {
            assert(s[a].0 != s[b + 1].0);
        } else {
            assert(s[a + 1].0 != s[b + 1].0);
        }
    }
    if j == 0 {
        assert(s.remove(0) =~= s.drop_first());
        assert forall|t: int| 0 <= t < s.drop_first().len() implies s.drop_first()[t].0 != k by {
            assert(s[t + 1].0 != s[0].0);
        }
        lemma_assoc_absent(s.drop_first(), k);
        assert(assoc_view(s.drop_first()) =~= (assoc_view(s.drop_first()).insert(
            k,
            s[0].1@,
        )).remove(k));
    } else {
        assert(s.remove(j).drop_first() =~= s.drop_first().remove(j - 1));
        assert forall|a: int, b: int|
            0 <= a < b < s.drop_first().len() implies s.drop_first()[a].0 != s.drop_first()[b].0 by {
            assert(s[a + 1].0 != s[b + 1].0);
        }
        lemma_assoc_remove(s.drop_first(), j - 1, k);
        assert(s[0].0 != k);
        assert((assoc_view(s.drop_first()).remove(k)).insert(s[0].0, s[0].1@) =~= (assoc_view(
            s.drop_first(),
        ).insert(s[0].0, s[0].1@)).remove(k));
    }
}

/// Appending an entry with a fresh key adds exactly that binding to the map.
pub proof fn lemma_assoc_push<V: View>(s: Seq<(u64, V)>, k: u64, v: V)
    requires
        forall|t: int| 0 <= t < s.len() ==> s[t].0 != k,
    ensures
        assoc_view(s.push((k, v))) == assoc_view(s).insert(k, v@),
        keys_unique(s) ==> keys_unique(s.push((k, v))),
    decreases s.len(),
{
    if s.len() == 0 {
        assert(s.push((k, v)).drop_first() =~= Seq::<(u64, V)>::empty());
        assert(s =~= Seq::<(u64, V)>::empty());
        assert(assoc_view(s.push((k, v))) == assoc_view(s).insert(k, v@));
    } else {
        assert(s.push((k, v)).drop_first() =~= s.drop_first().push((k, v)));
        assert forall|t: int| 0 <= t < s.drop_first().len() implies s.drop_first()[t].0 != k by {
            assert(s[t + 1].0 != k);
        }
        lemma_assoc_push(s.drop_first(), k, v);
        assert(s.push((k, v))[0] == s[0]);
        assert((assoc_view(s.drop_first()).insert(k, v@)).insert(s[0].0, s[0].1@) =~= (assoc_view(
            s.drop_first(),
        ).insert(s[0].0, s[0].1@)).insert(k, v@));
    }
    if keys_unique(s) {
        assert forall|a: int, b: int|
            0 <= a < b < s.push((k, v)).len() implies s.push((k, v))[a].0 != s.push(
            (k, v),
        )[b].0 by {
            if b < s.len() {
                assert(s[a].0 != s[b].0);
            } else {
                assert(s[a].0 != k);
            }
        }
    }
}

/// Looks a key up in the table.
pub fn table_get<'a, V: View>(t: &'a Vec<(u64, V)>, k: u64) -> (r: Option<&'a V>)
    ensures
        match r {
            Some(v) => assoc_view(t@).contains_key(k) && v@ == assoc_view(t@)[k],
            None => !assoc_view(t@).contains_key(k),
        },
{
    let mut i: usize = 0;
    while i < t.len()
        invariant
            i <= t@.len(),
            forall|j: int| 0 <= j < i ==> t@[j].0 != k,
        decreases t@.len() - i,
    {
        let pair = &t[i];
        if pair.0 == k {
            proof {
                lemma_assoc_found(t@, i as int, k);
            }
            return Some(&pair.1);
        }
        i = i + 1;
    }
    proof {
        lemma_assoc_absent(t@, k);
    }
    None
}

/// Binds a key to a value; a previous binding of the same key is overwritten.
pub fn table_set<V: View>(t: &mut Vec<(u64, V)>, k: u64, v: V)
    requires
        keys_unique(old(t)@),
    ensures
        assoc_view(final(t)@) == assoc_view(old(t)@).insert(k, v@),
        keys_unique(final(t)@),
        forall|x: int|
            0 <= x < final(t)@.len() ==> final(t)@[x] == (k, v) || old(t)@.contains(final(t)@[x]),
{
    let mut i: usize = 0;
    while i < t.len()
        invariant
            i <= t@.len(),
            t@ == old(t)@,
            keys_unique(old(t)@),
            forall|j: int| 0 <= j < i ==> t@[j].0 != k,
        decreases t@.len() - i,
    {
        if t[i].0 == k {
            proof {
                lemma_assoc_remove(old(t)@, i as int, k);
            }
            let _ = t.remove(i);
            proof {
                old(t)@.remove_ensures(i as int);
                assert forall|x: int| 0 <= x < t@.len() implies t@[x].0 != k by {
                    if x < i {
                        assert(old(t)@[x].0 != k);
                    } else {
                        assert(old(t)@[i as int].0 != old(t)@[x + 1].0);
                    }
                }
                lemma_assoc_push(t@, k, v);
            }
            t.push((k, v));
            proof {
                assert(assoc_view(t@) =~= assoc_view(old(t)@).insert(k, v@));
                assert forall|x: int|
                    0 <= x < t@.len() implies t@[x] == (k, v) || old(t)@.contains(t@[x]) by {
                    if x < t@.len() - 1 {
                        if x < i {
                            assert(t@[x] == old(t)@[x]);
                        } else {
                            assert(t@[x] == old(t)@[x + 1]);
                        }
                        assert(old(t)@.contains(t@[x]));
                    }
                }
            }
            return ;
        }
        i = i + 1;
    }
    proof {
        lemma_assoc_push(t@, k, v);
    }
    t.push((k, v));
    proof {
        assert(assoc_view(t@) =~= assoc_view(old(t)@).insert(k, v@));
        assert forall|x: int|
            0 <= x < t@.len() implies t@[x] == (k, v) || old(t)@.contains(t@[x]) by {
            if x < t@.len() - 1 {
                assert(t@[x] == old(t)@[x]);
                assert(old(t)@.contains(t@[x]));
            }
        }
    }
}

/// Removes the binding of a key, handing its value back if there was one.
pub fn table_remove<V: View>(t: &mut Vec<(u64, V)>, k: u64) -> (r: Option<V>)
    requires
        keys_unique(old(t)@),
    ensures
        keys_unique(final(t)@),
        assoc_view(final(t)@) == assoc_view(old(t)@).remove(k),
        forall|x: int| 0 <= x < final(t)@.len() ==> old(t)@.contains(final(t)@[x]),
        match r {
            Some(v) => assoc_view(old(t)@).contains_key(k) && v@ == assoc_view(old(t)@)[k]
                && old(t)@.contains((k, v)),
            None => !assoc_view(old(t)@).contains_key(k) && final(t)@ == old(t)@,
        },
{
    let mut i: usize = 0;
    while i < t.len()
        invariant
            i <= t@.len(),
            t@ == old(t)@,
            keys_unique(old(t)@),
            forall|j: int| 0 <= j < i ==> t@[j].0 != k,
        decreases t@.len() - i,
    {
        if t[i].0 == k {
            proof {
                lemma_assoc_found(old(t)@, i as int, k);
                lemma_assoc_remove(old(t)@, i as int, k);
            }
            let pair = t.remove(i);
            proof {
                old(t)@.remove_ensures(i as int);
                assert forall|x: int| 0 <= x < t@.len() implies old(t)@.contains(t@[x]) by {
                    if x < i {
                        assert(t@[x] == old(t)@[x]);
                    } else {
                        assert(t@[x] == old(t)@[x + 1]);
                    }
                }
                assert(old(t)@[i as int] == (k, pair.1));
                assert(old(t)@.contains((k, pair.1)));
            }
            return Some(pair.1);
        }
        i = i + 1;
    }
    proof {
        lemma_assoc_absent(old(t)@, k);
        assert(assoc_view(t@) =~= assoc_view(old(t)@).remove(k));
        assert forall|x: int| 0 <= x < t@.len() implies old(t)@.contains(t@[x]) by {
            assert(t@[x] == old(t)@[x]);
        }
    }
    None
}

} // verus!
