use vstd::prelude::*;
use crate::model::{is_first_ge, is_last_below, none_below, none_ge};
use crate::order::{
    copy_bytes, is_prefix, lemma_lex_le_refl, lemma_lex_le_trans, lemma_prefix_ge,
    lemma_prefix_window, lemma_push_zero_succ, lex_le, lex_lt, starts_with, succ_key,
};

verus! {

/// Direction of travel through the key order.
#[derive(Debug, Clone, Copy, PartialEq, Eq)]
pub enum Dir {
    Forward,
    Reverse,
}

/// Where a cursor starts: at the first key, at the last key, or at a given
/// key travelling in a direction (forward when omitted by the caller).
#[derive(Debug, Clone, PartialEq, Eq)]
pub enum IterMode {
    Start,
    End,
    From(Vec<u8>, Dir),
}

/// A cursor's position: not yet advanced, at the key it last yielded, or
/// exhausted.
#[derive(Debug, Clone, PartialEq, Eq)]
pub enum CurPos {
    Fresh,
    At(Vec<u8>),
    Done,
}

/// An opaque, independently lived cursor. It borrows nothing from the
/// database: it is a pure position (plus scope and bounds), so it can be kept,
/// passed around and advanced at any later time without any lifetime tie to
/// the handle it came from. Each advance is planned as a fresh seek
/// (`seek_request`) that the shell performs against the engine, and the reply
/// is absorbed by `next`; serialization of concurrent advances falls out of
/// exclusive access to the cursor value itself.
#[derive(Debug, Clone, PartialEq, Eq)]
pub struct Cursor {
    /// The keyspace this cursor is scoped to; `None` is the whole default
    /// keyspace. Resolution happens freshly at every advance, so a cursor
    /// scoped to a dropped keyspace fails with unknown-keyspace from then on.
    pub scope: Option<String>,
    /// For a prefix-scan cursor, the fixed prefix every visited key must
    /// carry.
    pub prefix: Option<Vec<u8>>,
    pub mode: IterMode,
    pub pos: CurPos,
}

/// The direction a cursor travels; prefix scans always travel forward.
pub open spec fn cursor_dir(c: Cursor) -> Dir {
    if c.prefix is Some {
        Dir::Forward
    } else {
        match c.mode {
            IterMode::Start => Dir::Forward,
            IterMode::End => Dir::Reverse,
            IterMode::From(_, d) => d,
        }
    }
}

/// Well-formedness: a prefix cursor travels forward from the start, and any
/// key it stands at carries the prefix.
pub open spec fn wf(c: Cursor) -> bool {
    match c.prefix {
        Some(p) => c.mode is Start && (match c.pos {
            CurPos::At(k) => is_prefix(p@, k@),
            _ => true,
        }),
        None => true,
    }
}

/// A whole-database cursor positioned per `mode`, its first element still
/// pending: the first advance yields the first matching entry.
pub fn iterator(mode: IterMode) -> (c: Cursor)
    ensures
        c.scope is None,
        c.prefix is None,
        c.mode == mode,
        c.pos is Fresh,
        wf(c),
{
    Cursor { scope: None, prefix: None, mode, pos: CurPos::Fresh }
}

/// A cursor scoped to the named keyspace.
pub fn iterator_cf(cf: String, mode: IterMode) -> (c: Cursor)
    ensures
        c.scope == Some(cf),
        c.prefix is None,
        c.mode == mode,
        c.pos is Fresh,
        wf(c),
{
    Cursor { scope: Some(cf), prefix: None, mode, pos: CurPos::Fresh }
}

/// A prefix-scan cursor over the whole database: visits exactly the keys
/// sharing `prefix`, in ascending order.
pub fn prefix_iterator(prefix: Vec<u8>) -> (c: Cursor)
    ensures
        c.scope is None,
        c.prefix == Some(prefix),
        c.mode is Start,
        c.pos is Fresh,
        wf(c),
{
    Cursor { scope: None, prefix: Some(prefix), mode: IterMode::Start, pos: CurPos::Fresh }
}

/// A prefix-scan cursor scoped to the named keyspace.
pub fn prefix_iterator_cf(cf: String, prefix: Vec<u8>) -> (c: Cursor)
    ensures
        c.scope == Some(cf),
        c.prefix == Some(prefix),
        c.mode is Start,
        c.pos is Fresh,
        wf(c),
{
    Cursor { scope: Some(cf), prefix: Some(prefix), mode: IterMode::Start, pos: CurPos::Fresh }
}

/// The native call an advance needs: seek to the first key at or above a
/// bound, to the last key at or below a bound, to the last key under an
/// optional exclusive bound, or nothing (the cursor is already exhausted).
#[derive(Debug, Clone, PartialEq, Eq)]
pub enum SeekReq {
    FirstGe(Vec<u8>),
    LastLe(Vec<u8>),
    LastBelow(Option<Vec<u8>>),
    NoCall,
}

/// What `seek_request` asks for, as a relation between cursor and request.
pub open spec fn seek_request_spec(c: Cursor, r: SeekReq) -> bool {
    match c.pos {
        CurPos::Done => r is NoCall,
        CurPos::At(k) => match cursor_dir(c) {
            Dir::Forward => r matches SeekReq::FirstGe(lo) && lo@ == k@.push(0u8),
            Dir::Reverse => r matches SeekReq::LastBelow(hi) && hi matches Some(h) && h@ == k@,
        },
        CurPos::Fresh => match c.prefix {
            Some(p) => r matches SeekReq::FirstGe(lo) && lo@ == p@,
            None => match c.mode {
                IterMode::Start => r matches SeekReq::FirstGe(lo) && lo@ == Seq::<u8>::empty(),
                IterMode::End => r matches SeekReq::LastBelow(hi) && hi is None,
                IterMode::From(f, Dir::Forward) => r matches SeekReq::FirstGe(lo) && lo@ == f@,
                IterMode::From(f, Dir::Reverse) => r matches SeekReq::LastLe(hi) && hi@ == f@,
            },
        },
    }
}

/// Whether the cursor travels forward.
fn forward(cur: &Cursor) -> (b: bool)
    ensures
        b == (cursor_dir(*cur) is Forward),
{
    match &cur.prefix {
        Some(_) => true,
        None => match &cur.mode {
            IterMode::Start => true,
            IterMode::End => false,
            IterMode::From(_, d) => match d {
                Dir::Forward => true,
                Dir::Reverse => false,
            },
        },
    }
}

/// Plans the native seek for the next advance of `cur`. Advancing past the
/// key last yielded means seeking to its immediate successor (forward) or to
/// the last key strictly below it (reverse); a fresh cursor seeks per its
/// start mode; an exhausted cursor needs no call at all.
pub fn seek_request(cur: &Cursor) -> (r: SeekReq)
    ensures
        seek_request_spec(*cur, r),
{
    match &cur.pos {
        CurPos::Done => SeekReq::NoCall,
        CurPos::At(k) => {
            if forward(cur) {
                SeekReq::FirstGe(succ_key(k))
            } else {
                SeekReq::LastBelow(Some(copy_bytes(k)))
            }
        },
        CurPos::Fresh => match &cur.prefix {
            Some(p) => SeekReq::FirstGe(copy_bytes(p)),
            None => match &cur.mode {
                IterMode::Start => SeekReq::FirstGe(Vec::new()),
                IterMode::End => SeekReq::LastBelow(None),
                IterMode::From(f, Dir::Forward) => SeekReq::FirstGe(copy_bytes(f)),
                IterMode::From(f, Dir::Reverse) => SeekReq::LastLe(copy_bytes(f)),
            },
        },
    }
}

/// The view of an optional bound.
pub open spec fn opt_view(o: Option<Vec<u8>>) -> Option<Seq<u8>> {
    match o {
        Some(h) => Some(h@),
        None => None,
    }
}

/// A correct engine reply to a seek request against contents `m`: the entry
/// the request describes, with its stored value, or nothing when no key
/// qualifies.
pub open spec fn good_reply(
    m: Map<Seq<u8>, Seq<u8>>,
    req: SeekReq,
    reply: Option<(Vec<u8>, Vec<u8>)>,
) -> bool {
    match req {
        SeekReq::FirstGe(lo) => match reply {
            Some(kv) => is_first_ge(m, lo@, kv.0@) && m[kv.0@] == kv.1@,
            None => none_ge(m, lo@),
        },
        SeekReq::LastLe(hi) => match reply {
            Some(kv) => is_last_below(m, Some(hi@), true, kv.0@) && m[kv.0@] == kv.1@,
            None => none_below(m, Some(hi@), true),
        },
        SeekReq::LastBelow(hi) => match reply {
            Some(kv) => is_last_below(m, opt_view(hi), false, kv.0@) && m[kv.0@] == kv.1@,
            None => none_below(m, opt_view(hi), false),
        },
        SeekReq::NoCall => reply is None,
    }
}

/// Whether a reply makes the cursor yield an entry (rather than exhaust): the
/// engine found a key and, for a prefix scan, the key carries the prefix.
pub open spec fn emits(c: Cursor, reply: Option<(Vec<u8>, Vec<u8>)>) -> bool {
    match reply {
        None => false,
        Some(kv) => match c.prefix {
            Some(p) => is_prefix(p@, kv.0@),
            None => true,
        },
    }
}

/// Absorbs the engine's reply to this cursor's planned seek: yields the
/// entry and stands at its key, or exhausts — permanently — when the engine
/// found nothing or the found key leaves the prefix range. Every call
/// advances; there is no peek.
pub fn next(cur: &mut Cursor, reply: Option<(Vec<u8>, Vec<u8>)>) -> (out: Option<(Vec<u8>, Vec<u8>)>)
    ensures
        final(cur).scope == old(cur).scope,
        final(cur).prefix == old(cur).prefix,
        final(cur).mode == old(cur).mode,
        emits(*old(cur), reply) ==> (match reply {
            Some(kv) => (final(cur).pos matches CurPos::At(k) && k@ == kv.0@) && out == Some(kv),
            None => false,
        }),
        !emits(*old(cur), reply) ==> final(cur).pos is Done && out is None,
        wf(*old(cur)) ==> wf(*final(cur)),
{
    match reply {
        None => {
            cur.pos = CurPos::Done;
            None
        },
        Some((k, v)) => {
            let keep = match &cur.prefix {
                Some(p) => starts_with(&k, p),
                None => true,
            };
            if keep {
                cur.pos = CurPos::At(copy_bytes(&k));
                Some((k, v))
            } else {
                cur.pos = CurPos::Done;
                None
            }
        },
    }
}

/// Pure inspection: whether the cursor currently refers to an entry, decided
/// from the same planned seek's reply without advancing the cursor. It is
/// false exactly when `next` on the same reply would report exhaustion.
pub fn iterator_valid(cur: &Cursor, reply: &Option<(Vec<u8>, Vec<u8>)>) -> (b: bool)
    ensures
        b == emits(*cur, *reply),
{
    match reply {
        None => false,
        Some(kv) => match &cur.prefix {
            Some(p) => starts_with(&kv.0, p),
            None => true,
        },
    }
}

/// The key a forward advance yields lies strictly above the key the cursor
/// stood at: repeated advances visit keys in ascending lexicographic order.
pub proof fn lemma_forward_advance_ascends(m: Map<Seq<u8>, Seq<u8>>, k: Seq<u8>, j: Seq<u8>)
    requires
        is_first_ge(m, k.push(0u8), j),
    ensures
        lex_lt(k, j),
{
    lemma_push_zero_succ(k, j);
}

/// The key a reverse advance yields lies strictly below the key the cursor
/// stood at: repeated advances visit keys in descending order.
pub proof fn lemma_reverse_advance_descends(m: Map<Seq<u8>, Seq<u8>>, k: Seq<u8>, j: Seq<u8>)
    requires
        is_last_below(m, Some(k), false, j),
    ensures
        lex_lt(j, k),
{
}

/// The keys still ahead of a cursor: in the map, inside the scan window the
/// position and direction leave open, and carrying the prefix when one is set.
pub open spec fn cursor_sees(m: Map<Seq<u8>, Seq<u8>>, c: Cursor, j: Seq<u8>) -> bool {
    &&& m.dom().contains(j)
    &&& (match c.prefix {
        Some(p) => is_prefix(p@, j),
        None => true,
    })
    &&& (match c.pos {
        CurPos::Done => false,
        CurPos::At(k) => match cursor_dir(c) {
            Dir::Forward => lex_lt(k@, j),
            Dir::Reverse => lex_lt(j, k@),
        },
        CurPos::Fresh => match c.mode {
            IterMode::Start => true,
            IterMode::End => true,
            IterMode::From(f, Dir::Forward) => lex_le(f@, j),
            IterMode::From(f, Dir::Reverse) => lex_le(j, f@),
        },
    })
}

/// Exhaustion is exact: a well-formed cursor yields an entry on a correct
/// reply if and only if some key remains ahead of it. In particular a prefix
/// scan stops at the first key outside the prefix and misses none inside it,
/// and `valid` (which classifies the same reply) is false exactly when the
/// next advance would report exhaustion.
pub proof fn lemma_exhaustion_exact(
    m: Map<Seq<u8>, Seq<u8>>,
    c: Cursor,
    req: SeekReq,
    reply: Option<(Vec<u8>, Vec<u8>)>,
)
    requires
        wf(c),
        seek_request_spec(c, req),
        good_reply(m, req, reply),
    ensures
        emits(c, reply) <==> exists|j: Seq<u8>| cursor_sees(m, c, j),
{
    if emits(c, reply) {
        match reply {
            Some(kv) => {
                assert(cursor_sees(m, c, kv.0@)) by {
                    match c.pos {
                        CurPos::Done => {},
                        CurPos::At(k) => {
                            match cursor_dir(c) {
                                Dir::Forward => {
                                    lemma_push_zero_succ(k@, kv.0@);
                                },
                                Dir::Reverse => {},
                            }
                        },
                        CurPos::Fresh => {},
                    }
                }
            },
            None => {},
        }
    } else {
        assert forall|j: Seq<u8>| !cursor_sees(m, c, j) by {
            if cursor_sees(m, c, j) {
                match c.pos {
                    CurPos::Done => {},
                    CurPos::At(k) => {
                        match cursor_dir(c) {
                            Dir::Forward => {
                                lemma_push_zero_succ(k@, j);
                                // j is at or above the sought lower bound
                                match reply {
                                    None => {},
                                    Some(kv) => {
                                        // the found key is the least key in
                                        // the window, yet lies outside the
                                        // prefix: then j cannot be prefixed
                                        // either, a contradiction
                                        match c.prefix {
                                            Some(p) => {
                                                lemma_prefix_ge(p@, k@);
                                                lemma_push_zero_succ(k@, k@.push(0u8));
                                                lemma_lex_le_refl(k@.push(0u8));
                                                lemma_lex_le_trans(p@, k@, k@.push(0u8));
                                                lemma_lex_le_trans(p@, k@.push(0u8), kv.0@);
                                                lemma_prefix_window(p@, kv.0@, j);
                                            },
                                            None => {},
                                        }
                                    },
                                }
                            },
                            Dir::Reverse => {},
                        }
                    },
                    CurPos::Fresh => {
                        match c.prefix {
                            Some(p) => {
                                lemma_prefix_ge(p@, j);
                                match reply {
                                    None => {},
                                    Some(kv) => {
                                        lemma_prefix_window(p@, kv.0@, j);
                                    },
                                }
                            },
                            None => {},
                        }
                    },
                }
            }
        }
    }
}

} // verus!
