use vstd::prelude::*;

verus! {

/// The map that a list of (key, value) pairs stands for; a later pair
/// wins over an earlier one with the same key.
pub open spec fn assoc_to_map<V>(s: Seq<(Seq<char>, V)>) -> Map<Seq<char>, V>
    decreases s.len(),
{
    if s.len() == 0 {
        Map::empty()
    } else {
        assoc_to_map(s.drop_last()).insert(s.last().0, s.last().1)
    }
}

/// No key occurs twice.
pub open spec fn distinct_keys<V>(s: Seq<(Seq<char>, V)>) -> bool {
    forall|i: int, j: int| 0 <= i < j < s.len() ==> s[i].0 != s[j].0
}

pub proof fn lemma_assoc_dom<V>(s: Seq<(Seq<char>, V)>, k: Seq<char>)
    ensures
        assoc_to_map(s).contains_key(k) <==> exists|i: int| 0 <= i < s.len() && s[i].0 == k,
    decreases s.len(),
{
    if s.len() > 0 {
        lemma_assoc_dom(s.drop_last(), k);
        if assoc_to_map(s.drop_last()).contains_key(k) {
            let i = choose|i: int| 0 <= i < s.drop_last().len() && s.drop_last()[i].0 == k;
            assert(s[i].0 == k);
        }
        if exists|i: int| 0 <= i < s.len() && s[i].0 == k {
            let i = choose|i: int| 0 <= i < s.len() && s[i].0 == k;
            if i < s.len() - 1 {
                assert(s.drop_last()[i].0 == k);
            }
        }
    }
}

pub proof fn lemma_assoc_lookup<V>(s: Seq<(Seq<char>, V)>, i: int)
    requires
        distinct_keys(s),
        0 <= i < s.len(),
    ensures
        assoc_to_map(s).contains_key(s[i].0),
        assoc_to_map(s)[s[i].0] == s[i].1,
    decreases s.len(),
{
    if i < s.len() - 1 {
        let t = s.drop_last();
        assert(t[i] == s[i]);
        lemma_assoc_lookup(t, i);
    }
}

pub proof fn lemma_assoc_remove<V>(s: Seq<(Seq<char>, V)>, i: int)
    requires
        distinct_keys(s),
        0 <= i < s.len(),
    ensures
        assoc_to_map(s.remove(i)) == assoc_to_map(s).remove(s[i].0),
        distinct_keys(s.remove(i)),
    decreases s.len(),
{
    let k = s[i].0;
    if i == s.len() - 1 {
        assert(s.remove(i) == s.drop_last());
        lemma_assoc_dom(s.drop_last(), k);
        assert(!assoc_to_map(s.drop_last()).contains_key(k));
        assert(assoc_to_map(s.drop_last()) == assoc_to_map(s).remove(k));
    } else {
        let t = s.drop_last();
        assert(s.remove(i).drop_last() == t.remove(i));
        assert(s.remove(i).last() == s.last());
        lemma_assoc_remove(t, i);
        assert(s.last().0 != k);
        assert(assoc_to_map(s.remove(i)) == assoc_to_map(s).remove(k));
    }
}

pub proof fn lemma_assoc_update<V>(s: Seq<(Seq<char>, V)>, i: int, v: V)
    requires
        distinct_keys(s),
        0 <= i < s.len(),
    ensures
        assoc_to_map(s.update(i, (s[i].0, v))) == assoc_to_map(s).insert(s[i].0, v),
        distinct_keys(s.update(i, (s[i].0, v))),
    decreases s.len(),
{
    let k = s[i].0;
    let u = s.update(i, (k, v));
    if i == s.len() - 1 {
        assert(u.drop_last() == s.drop_last());
    } else {
        let t = s.drop_last();
        assert(u.drop_last() == t.update(i, (k, v)));
        lemma_assoc_update(t, i, v);
        assert(s.last().0 != k);
        assert(assoc_to_map(u) =~= assoc_to_map(s).insert(k, v));
    }
}

pub proof fn lemma_assoc_push<V>(s: Seq<(Seq<char>, V)>, k: Seq<char>, v: V)
    requires
        distinct_keys(s),
        !assoc_to_map(s).contains_key(k),
    ensures
        assoc_to_map(s.push((k, v))) == assoc_to_map(s).insert(k, v),
        distinct_keys(s.push((k, v))),
{
    lemma_assoc_dom(s, k);
    assert(s.push((k, v)).drop_last() == s);
    assert forall|i: int, j: int| 0 <= i < j < s.push((k, v)).len() implies
        s.push((k, v))[i].0 != s.push((k, v))[j].0 by {
        if j == s.len() {
            assert(s[i].0 != k);
        }
    }
}

} // verus!
