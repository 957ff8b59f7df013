use vstd::prelude::*;
use crate::order::{lemma_lex_le_antisym, lemma_lex_le_total, lex_le, lex_lt};

verus! {

/// The engine at its boundary, as this layer relies on it: each keyspace is a
/// finite map from keys to values, ordered by `lex_le`; the default keyspace
/// is one such map, and the registry of named keyspaces is a set of names.
/// These functions state what one engine call does to that state; the shell
/// that owns the native engine is trusted only to behave as they say.
pub open spec fn engine_put(m: Map<Seq<u8>, Seq<u8>>, k: Seq<u8>, v: Seq<u8>) -> Map<
    Seq<u8>,
    Seq<u8>,
> {
    m.insert(k, v)
}

pub open spec fn engine_delete(m: Map<Seq<u8>, Seq<u8>>, k: Seq<u8>) -> Map<Seq<u8>, Seq<u8>> {
    m.remove(k)
}

pub open spec fn engine_get(m: Map<Seq<u8>, Seq<u8>>, k: Seq<u8>) -> Option<Seq<u8>> {
    if m.dom().contains(k) {
        Some(m[k])
    } else {
        None
    }
}

pub open spec fn engine_create_keyspace(names: Set<Seq<char>>, n: Seq<char>) -> Set<Seq<char>> {
    names.insert(n)
}

pub open spec fn engine_drop_keyspace(names: Set<Seq<char>>, n: Seq<char>) -> Set<Seq<char>> {
    names.remove(n)
}

/// `k` is the least key of `m` at or above `lo`: what a forward seek lands on.
pub open spec fn is_first_ge(m: Map<Seq<u8>, Seq<u8>>, lo: Seq<u8>, k: Seq<u8>) -> bool {
    &&& m.dom().contains(k)
    &&& lex_le(lo, k)
    &&& forall|j: Seq<u8>| #[trigger] m.dom().contains(j) && lex_le(lo, j) ==> lex_le(k, j)
}

/// No key of `m` lies at or above `lo`: a forward seek comes back empty.
pub open spec fn none_ge(m: Map<Seq<u8>, Seq<u8>>, lo: Seq<u8>) -> bool {
    forall|j: Seq<u8>| #[trigger] m.dom().contains(j) ==> !lex_le(lo, j)
}

/// `k` is the greatest key of `m` bounded by `hi` (at `hi` when `inclusive`,
/// strictly below it otherwise); an absent bound means the greatest key of
/// all. This is what a backward seek lands on.
pub open spec fn is_last_below(
    m: Map<Seq<u8>, Seq<u8>>,
    hi: Option<Seq<u8>>,
    inclusive: bool,
    k: Seq<u8>,
) -> bool {
    &&& m.dom().contains(k)
    &&& (match hi {
        Some(h) => if inclusive {
            lex_le(k, h)
        } else {
            lex_lt(k, h)
        },
        None => true,
    })
    &&& forall|j: Seq<u8>|
        #[trigger] m.dom().contains(j) && (match hi {
            Some(h) => if inclusive {
                lex_le(j, h)
            } else {
                lex_lt(j, h)
            },
            None => true,
        }) ==> lex_le(j, k)
}

/// No key of `m` lies under the bound: a backward seek comes back empty.
pub open spec fn none_below(m: Map<Seq<u8>, Seq<u8>>, hi: Option<Seq<u8>>, inclusive: bool) -> bool {
    forall|j: Seq<u8>|
        #[trigger] m.dom().contains(j) ==> !(match hi {
            Some(h) => if inclusive {
                lex_le(j, h)
            } else {
                lex_lt(j, h)
            },
            None => true,
        })
}

/// The window description pins a forward seek's reply down to one key: the
/// contract admits a single answer.
pub proof fn lemma_first_ge_unique(m: Map<Seq<u8>, Seq<u8>>, lo: Seq<u8>, k1: Seq<u8>, k2: Seq<u8>)
    requires
        is_first_ge(m, lo, k1),
        is_first_ge(m, lo, k2),
    ensures
        k1 == k2,
{
    lemma_lex_le_antisym(k1, k2);
}

/// The window description pins a backward seek's reply down to one key.
pub proof fn lemma_last_below_unique(
    m: Map<Seq<u8>, Seq<u8>>,
    hi: Option<Seq<u8>>,
    inclusive: bool,
    k1: Seq<u8>,
    k2: Seq<u8>,
)
    requires
        is_last_below(m, hi, inclusive, k1),
        is_last_below(m, hi, inclusive, k2),
    ensures
        k1 == k2,
{
    lemma_lex_le_antisym(k1, k2);
}

/// A correct reply never leaves the window empty-handed: the found-key and
/// no-key descriptions of one seek exclude each other.
pub proof fn lemma_found_excludes_empty(m: Map<Seq<u8>, Seq<u8>>, lo: Seq<u8>, k: Seq<u8>)
    requires
        is_first_ge(m, lo, k),
    ensures
        !none_ge(m, lo),
{
    lemma_lex_le_total(lo, k);
}

} // verus!
