use vstd::prelude::*;

verus! {

/// The part of `s` before its first `'}'`, if `s` holds one.
pub open spec fn before_close(s: Seq<char>) -> Option<Seq<char>>
    decreases s.len(),
{
    if s.len() == 0 {
        None
    } else if s[0] == '}' {
        Some(Seq::empty())
    } else {
        match before_close(s.drop_first()) {
            Some(t) => Some(seq![s[0]] + t),
            None => None,
        }
    }
}

/// The hash tag by which Redis Cluster places `key` in a slot: the text
/// between the first `'{'` and the first `'}'` after it, when that text is
/// not empty. Without a hash tag the whole key is hashed.
pub open spec fn hash_tag(key: Seq<char>) -> Option<Seq<char>>
    decreases key.len(),
{
    if key.len() == 0 {
        None
    } else if key[0] == '{' {
        match before_close(key.drop_first()) {
            Some(t) => if t.len() > 0 { Some(t) } else { None },
            None => None,
        }
    } else {
        hash_tag(key.drop_first())
    }
}

proof fn lemma_before_close_extend(s: Seq<char>, q: Seq<char>)
    requires
        before_close(s) is Some,
    ensures
        before_close(s + q) == before_close(s),
    decreases s.len(),
{
    assert(s.len() > 0);
    if s[0] == '}' {
        assert((s + q)[0] == '}');
    } else {
        assert((s + q).drop_first() == s.drop_first() + q);
        lemma_before_close_extend(s.drop_first(), q);
    }
}

/// Text appended after a tagged key does not change its hash tag.
pub proof fn lemma_hash_tag_suffix(key: Seq<char>, q: Seq<char>)
    requires
        hash_tag(key) is Some,
    ensures
        hash_tag(key + q) == hash_tag(key),
    decreases key.len(),
{
    assert(key.len() > 0);
    assert((key + q)[0] == key[0]);
    assert((key + q).drop_first() == key.drop_first() + q);
    if key[0] == '{' {
        lemma_before_close_extend(key.drop_first(), q);
    } else {
        lemma_hash_tag_suffix(key.drop_first(), q);
    }
}

/// Text without `'{'` put before a key does not change its hash tag.
pub proof fn lemma_hash_tag_prefix(p: Seq<char>, key: Seq<char>)
    requires
        !p.contains('{'),
    ensures
        hash_tag(p + key) == hash_tag(key),
    decreases p.len(),
{
    if p.len() == 0 {
        assert(p + key == key);
    } else {
        assert((p + key)[0] == p[0]);
        assert(p[0] != '{') by {
            if p[0] == '{' {
                assert(p.contains('{'));
            }
        }
        assert((p + key).drop_first() == p.drop_first() + key);
        assert(!p.drop_first().contains('{')) by {
            if p.drop_first().contains('{') {
                let k = choose|k: int| 0 <= k < p.drop_first().len() && p.drop_first()[k] == '{';
                assert(p[k + 1] == '{');
            }
        }
        lemma_hash_tag_prefix(p.drop_first(), key);
    }
}

} // verus!
