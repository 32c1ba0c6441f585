use vstd::prelude::*;

verus! {

/// Byte-wise prefix test: does `key` start with `prefix`?
///
/// The empty prefix matches every key.
pub fn is_prefix(prefix: &[u8], key: &[u8]) -> (matched: bool)
    ensures
        matched == prefix@.is_prefix_of(key@),
{
    if key.len() < prefix.len() {
        return false;
    }
    let mut i: usize = 0;
    while i < prefix.len()
        invariant
            i <= prefix.len() <= key.len(),
            forall|j: int| 0 <= j < i ==> prefix@[j] == key@[j],
        decreases prefix.len() - i,
    {
        if key[i] != prefix[i] {
            return false;
        }
        i += 1;
    }
    true
}

/// The order in which the engine keeps its keys: `a` is not above `b`
/// when, at the first position where they differ, `a` holds the smaller
/// byte, or when `a` ends before any difference shows.
pub open spec fn lex_le(a: Seq<u8>, b: Seq<u8>) -> bool
    decreases a.len(),
{
    if a.len() == 0 {
        true
    } else if b.len() == 0 {
        false
    } else if a[0] != b[0] {
        a[0] < b[0]
    } else {
        lex_le(a.drop_first(), b.drop_first())
    }
}

/// True when the keys come in ascending order with no key twice.
pub open spec fn ascending(keys: Seq<Seq<u8>>) -> bool {
    forall|i: int, j: int|
        0 <= i < j < keys.len() ==> lex_le(#[trigger] keys[i], #[trigger] keys[j]) && keys[i]
            != keys[j]
}

/// How many keys at the front of `keys` start with `prefix`.
pub open spec fn leading_matches(prefix: Seq<u8>, keys: Seq<Seq<u8>>) -> nat
    decreases keys.len(),
{
    if keys.len() > 0 && prefix.is_prefix_of(keys[0]) {
        1 + leading_matches(prefix, keys.drop_first())
    } else {
        0
    }
}

/// Taking the first byte off both sides keeps and reflects the prefix
/// relation when the first bytes agree.
pub proof fn lemma_prefix_drop_first(p: Seq<u8>, k: Seq<u8>)
    requires
        p.len() > 0,
    ensures
        p.is_prefix_of(k) <==> k.len() > 0 && p[0] == k[0] && p.drop_first().is_prefix_of(
            k.drop_first(),
        ),
{
    if p.is_prefix_of(k) {
        assert(k.subrange(0, p.len() as int)[0] == p[0]);
        assert(p.drop_first() =~= k.drop_first().subrange(0, p.len() - 1)) by {
            assert forall|i: int| 0 <= i < p.len() - 1 implies p.drop_first()[i]
                == k.drop_first().subrange(0, p.len() - 1)[i] by {
                assert(p[i + 1] == k.subrange(0, p.len() as int)[i + 1]);
            }
        }
    }
    if k.len() > 0 && p[0] == k[0] && p.drop_first().is_prefix_of(k.drop_first()) {
        assert(p =~= k.subrange(0, p.len() as int)) by {
            assert forall|i: int| 0 <= i < p.len() implies p[i] == k.subrange(
                0,
                p.len() as int,
            )[i] by {
                if i > 0 {
                    assert(p.drop_first()[i - 1] == k.drop_first().subrange(0, p.len() - 1)[i - 1]);
                }
            }
        }
    }
}

/// A key is never below one of its prefixes.
pub proof fn lemma_prefix_is_below(p: Seq<u8>, k: Seq<u8>)
    requires
        p.is_prefix_of(k),
    ensures
        lex_le(p, k),
    decreases p.len(),
{
    if p.len() > 0 {
        lemma_prefix_drop_first(p, k);
        lemma_prefix_is_below(p.drop_first(), k.drop_first());
    }
}

/// In ascending order the keys that start with `p` lie together, right
/// where the keys that are not below `p` begin: once a key that is not
/// below `p` fails to start with `p`, no later key starts with it.
pub proof fn lemma_no_match_after_mismatch(p: Seq<u8>, k1: Seq<u8>, k2: Seq<u8>)
    requires
        lex_le(p, k1),
        lex_le(k1, k2),
        !p.is_prefix_of(k1),
    ensures
        !p.is_prefix_of(k2),
    decreases p.len(),
{
    if p.len() == 0 {
        assert(p =~= k1.subrange(0, 0));
    } else {
        lemma_prefix_drop_first(p, k1);
        lemma_prefix_drop_first(p, k2);
        if p[0] == k1[0] && k1[0] == k2[0] && k2.len() > 0 {
            lemma_no_match_after_mismatch(p.drop_first(), k1.drop_first(), k2.drop_first());
        }
    }
}

/// The keys counted by [`leading_matches`] start with the prefix, and the
/// key right after them, if there is one, does not.
pub proof fn lemma_leading_matches(prefix: Seq<u8>, keys: Seq<Seq<u8>>)
    ensures
        leading_matches(prefix, keys) <= keys.len(),
        forall|i: int|
            0 <= i < leading_matches(prefix, keys) ==> prefix.is_prefix_of(#[trigger] keys[i]),
        leading_matches(prefix, keys) < keys.len() ==> !prefix.is_prefix_of(
            keys[leading_matches(prefix, keys) as int],
        ),
    decreases keys.len(),
{
    if keys.len() > 0 && prefix.is_prefix_of(keys[0]) {
        let rest = keys.drop_first();
        lemma_leading_matches(prefix, rest);
        assert forall|i: int| 0 <= i < leading_matches(prefix, keys) implies prefix.is_prefix_of(
            #[trigger] keys[i],
        ) by {
            if i > 0 {
                assert(keys[i] == rest[i - 1]);
            }
        }
        if leading_matches(prefix, keys) < keys.len() {
            assert(keys[leading_matches(prefix, keys) as int] == rest[leading_matches(
                prefix,
                rest,
            ) as int]);
        }
    }
}

/// In an ascending list of keys none of which is below `prefix`, the keys
/// that start with `prefix` are exactly the ones at the front counted by
/// [`leading_matches`].
pub proof fn lemma_matches_lead(prefix: Seq<u8>, keys: Seq<Seq<u8>>, i: int)
    requires
        ascending(keys),
        forall|j: int| 0 <= j < keys.len() ==> lex_le(prefix, #[trigger] keys[j]),
        0 <= i < keys.len(),
    ensures
        prefix.is_prefix_of(keys[i]) <==> i < leading_matches(prefix, keys),
{
    lemma_leading_matches(prefix, keys);
    let m = leading_matches(prefix, keys) as int;
    if i >= m {
        if i > m {
            lemma_no_match_after_mismatch(prefix, keys[m], keys[i]);
        }
    }
}

} // verus!
