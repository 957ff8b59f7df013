use vstd::prelude::*;

verus! {

/// Lexicographic byte order on keys: `a` is less-or-equal `b` when `a` is a
/// prefix of `b` or differs first at a smaller byte. This is the order in
/// which the engine stores keys and in which forward cursors visit them.
pub open spec fn lex_le(a: Seq<u8>, b: Seq<u8>) -> bool
    decreases a.len(),
{
    if a.len() == 0 {
        true
    } else if b.len() == 0 {
        false
    } else if a[0] < b[0] {
        true
    } else if a[0] > b[0] {
        false
    } else {
        lex_le(a.skip(1), b.skip(1))
    }
}

pub open spec fn lex_lt(a: Seq<u8>, b: Seq<u8>) -> bool {
    lex_le(a, b) && a != b
}

/// `p` is a prefix of `k`.
pub open spec fn is_prefix(p: Seq<u8>, k: Seq<u8>) -> bool
    decreases p.len(),
{
    p.len() == 0 || (k.len() > 0 && p[0] == k[0] && is_prefix(p.skip(1), k.skip(1)))
}

pub proof fn lemma_lex_le_refl(a: Seq<u8>)
    ensures
        lex_le(a, a),
    decreases a.len(),
{
    if a.len() > 0 {
        lemma_lex_le_refl(a.skip(1));
    }
}

pub proof fn lemma_lex_le_total(a: Seq<u8>, b: Seq<u8>)
    ensures
        lex_le(a, b) || lex_le(b, a),
    decreases a.len(),
{
    if a.len() > 0 && b.len() > 0 && a[0] == b[0] {
        lemma_lex_le_total(a.skip(1), b.skip(1));
    }
}

pub proof fn lemma_lex_le_antisym(a: Seq<u8>, b: Seq<u8>)
    requires
        lex_le(a, b),
        lex_le(b, a),
    ensures
        a == b,
    decreases a.len(),
{
    if a.len() == 0 {
        assert(b.len() == 0);
        assert(a =~= b);
    } else {
        assert(a[0] == b[0]);
        lemma_lex_le_antisym(a.skip(1), b.skip(1));
        assert forall|i: int| 0 <= i < a.len() implies a[i] == b[i] by {
            if i >= 1 {
                assert(a[i] == a.skip(1)[i - 1]);
                assert(b[i] == b.skip(1)[i - 1]);
            }
        }
        assert(a.skip(1).len() == b.skip(1).len());
        assert(a =~= b);
    }
}

pub proof fn lemma_lex_le_trans(a: Seq<u8>, b: Seq<u8>, c: Seq<u8>)
    requires
        lex_le(a, b),
        lex_le(b, c),
    ensures
        lex_le(a, c),
    decreases a.len(),
{
    if a.len() > 0 && b.len() > 0 && c.len() > 0 && a[0] == b[0] && b[0] == c[0] {
        lemma_lex_le_trans(a.skip(1), b.skip(1), c.skip(1));
    }
}

/// Appending a zero byte yields the immediate successor of a key: the keys
/// strictly above `a` are exactly those at or above `a.push(0)`.
pub proof fn lemma_push_zero_succ(a: Seq<u8>, b: Seq<u8>)
    ensures
        lex_lt(a, b) <==> lex_le(a.push(0u8), b),
    decreases a.len(),
{
    if a.len() == 0 {
        assert(a.push(0u8).len() == 1);
        assert(a.push(0u8)[0] == 0u8);
        if b.len() == 0 {
            assert(a =~= b);
            assert(!lex_le(a.push(0u8), b));
        } else {
            assert(a != b);
            if a.push(0u8)[0] == b[0] {
                assert(lex_le(a.push(0u8).skip(1), b.skip(1))) by {
                    assert(a.push(0u8).skip(1) =~= Seq::<u8>::empty());
                }
            }
        }
    } else {
        if b.len() == 0 {
            assert(!lex_lt(a, b));
            assert(!lex_le(a.push(0u8), b));
        } else if a[0] == b[0] {
            assert(a.push(0u8)[0] == a[0]);
            assert(a.push(0u8).skip(1) =~= a.skip(1).push(0u8));
            lemma_push_zero_succ(a.skip(1), b.skip(1));
            assert(lex_lt(a.skip(1), b.skip(1)) <==> lex_lt(a, b)) by {
                if a.skip(1) == b.skip(1) {
                    assert forall|i: int| 0 <= i < a.len() implies a[i] == b[i] by {
                        if i >= 1 {
                            assert(a[i] == a.skip(1)[i - 1]);
                            assert(b[i] == b.skip(1)[i - 1]);
                        }
                    }
                    assert(a.skip(1).len() == b.skip(1).len());
                    assert(a =~= b);
                } else {
                    assert(a != b) by {
                        if a == b {
                            assert(a.skip(1) =~= b.skip(1));
                        }
                    }
                }
            }
        } else {
            assert(a.push(0u8)[0] == a[0]);
        }
    }
}

/// A prefixed key is at or above the prefix itself.
pub proof fn lemma_prefix_ge(p: Seq<u8>, k: Seq<u8>)
    requires
        is_prefix(p, k),
    ensures
        lex_le(p, k),
    decreases p.len(),
{
    if p.len() > 0 {
        lemma_prefix_ge(p.skip(1), k.skip(1));
    }
}

/// Keys sharing a prefix form a contiguous range: anything between the prefix
/// (from below) and a prefixed key (from above) carries the prefix too.
pub proof fn lemma_prefix_window(p: Seq<u8>, k: Seq<u8>, j: Seq<u8>)
    requires
        lex_le(p, k),
        lex_le(k, j),
        is_prefix(p, j),
    ensures
        is_prefix(p, k),
    decreases p.len(),
{
    if p.len() > 0 {
        assert(j.len() > 0 && p[0] == j[0]);
        if k.len() == 0 {
            assert(!lex_le(p, k));
        } else {
            if p[0] < k[0] {
                assert(!lex_le(k, j));
            } else {
                assert(p[0] == k[0]);
                lemma_prefix_window(p.skip(1), k.skip(1), j.skip(1));
            }
        }
    }
}

/// Index-wise reading of `is_prefix`, for the executable check.
pub proof fn lemma_prefix_index(p: Seq<u8>, k: Seq<u8>)
    ensures
        is_prefix(p, k) <==> (p.len() <= k.len() && (forall|i: int|
            0 <= i < p.len() ==> p[i] == k[i])),
    decreases p.len(),
{
    if p.len() == 0 {
    } else if k.len() == 0 {
    } else if p[0] != k[0] {
        assert(0 <= 0 < p.len() && p[0] != k[0]);
    } else {
        lemma_prefix_index(p.skip(1), k.skip(1));
        if is_prefix(p, k) {
            assert forall|i: int| 0 <= i < p.len() implies p[i] == k[i] by {
                if i >= 1 {
                    assert(p[i] == p.skip(1)[i - 1]);
                    assert(k[i] == k.skip(1)[i - 1]);
                }
            }
        } else if p.len() <= k.len() && (forall|i: int| 0 <= i < p.len() ==> p[i] == k[i]) {
            assert forall|i: int| 0 <= i < p.skip(1).len() implies p.skip(1)[i] == k.skip(1)[i] by {
                assert(p.skip(1)[i] == p[i + 1]);
                assert(k.skip(1)[i] == k[i + 1]);
            }
            assert(is_prefix(p.skip(1), k.skip(1)));
        }
    }
}

/// The key one past `k` in the byte order: `k` with a zero byte appended.
pub fn succ_key(k: &Vec<u8>) -> (r: Vec<u8>)
    ensures
        r@ == k@.push(0u8),
{
    let mut r: Vec<u8> = Vec::new();
    let mut i: usize = 0;
    while i < k.len()
        invariant
            i <= k@.len(),
            r@ == k@.take(i as int),
        decreases k@.len() - i,
    {
        r.push(k[i]);
        proof {
            assert(k@.take(i as int).push(k@[i as int]) =~= k@.take(i as int + 1));
        }
        i = i + 1;
    }
    proof {
        assert(k@.take(k@.len() as int) =~= k@);
    }
    r.push(0u8);
    r
}

/// A fresh byte vector with the same contents.
pub fn copy_bytes(src: &Vec<u8>) -> (r: Vec<u8>)
    ensures
        r@ == src@,
{
    let mut r: Vec<u8> = Vec::new();
    let mut i: usize = 0;
    while i < src.len()
        invariant
            i <= src@.len(),
            r@ == src@.take(i as int),
        decreases src@.len() - i,
    {
        r.push(src[i]);
        proof {
            assert(src@.take(i as int).push(src@[i as int]) =~= src@.take(i as int + 1));
        }
        i = i + 1;
    }
    proof {
        assert(src@.take(src@.len() as int) =~= src@);
    }
    r
}

/// Whether `p` is a prefix of `k`, byte for byte.
pub fn starts_with(k: &Vec<u8>, p: &Vec<u8>) -> (b: bool)
    ensures
        b == is_prefix(p@, k@),
{
    proof {
        lemma_prefix_index(p@, k@);
    }
    if p.len() > k.len() {
        return false;
    }
    let mut i: usize = 0;
    while i < p.len()
        invariant
            i <= p@.len(),
            p@.len() <= k@.len(),
            forall|j: int| 0 <= j < i ==> p@[j] == k@[j],
        decreases p@.len() - i,
    {
        if p[i] != k[i] {
            proof {
                assert(!is_prefix(p@, k@)) by {
                    if is_prefix(p@, k@) {
                        lemma_prefix_index(p@, k@);
                        assert(p@[i as int] == k@[i as int]);
                    }
                }
            }
            return false;
        }
        i = i + 1;
    }
    true
}

} // verus!
