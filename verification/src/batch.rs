use vstd::prelude::*;
use crate::db::known;
use crate::errors::RockerError;
use crate::model::{engine_delete, engine_put};

verus! {

/// One entry of an atomic batch: a put or a delete, optionally scoped to a
/// named keyspace, carrying binary key and (for put) binary value.
#[derive(Debug, Clone, PartialEq, Eq)]
pub enum BatchOp {
    Put { key: Vec<u8>, value: Vec<u8> },
    PutCf { cf: String, key: Vec<u8>, value: Vec<u8> },
    Delete { key: Vec<u8> },
    DeleteCf { cf: String, key: Vec<u8> },
}

/// The keyspace an entry targets; `None` is the default keyspace.
pub open spec fn op_scope(op: BatchOp) -> Option<Seq<char>> {
    match op {
        BatchOp::Put { .. } => None,
        BatchOp::Delete { .. } => None,
        BatchOp::PutCf { cf, .. } => Some(cf@),
        BatchOp::DeleteCf { cf, .. } => Some(cf@),
    }
}

/// The effect of one entry on the contents of the keyspace `scope`; entries
/// aimed at other keyspaces leave it unchanged.
pub open spec fn apply_op(
    m: Map<Seq<u8>, Seq<u8>>,
    scope: Option<Seq<char>>,
    op: BatchOp,
) -> Map<Seq<u8>, Seq<u8>> {
    match op {
        BatchOp::Put { key, value } => if scope is None {
            engine_put(m, key@, value@)
        } else {
            m
        },
        BatchOp::PutCf { cf, key, value } => if scope == Some(cf@) {
            engine_put(m, key@, value@)
        } else {
            m
        },
        BatchOp::Delete { key } => if scope is None {
            engine_delete(m, key@)
        } else {
            m
        },
        BatchOp::DeleteCf { cf, key } => if scope == Some(cf@) {
            engine_delete(m, key@)
        } else {
            m
        },
    }
}

/// The committed effect of a whole batch on the keyspace `scope`: entries
/// apply in sequence order, all at once — no other writer can observe a strict
/// prefix of this fold.
pub open spec fn apply_ops(
    m: Map<Seq<u8>, Seq<u8>>,
    scope: Option<Seq<char>>,
    ops: Seq<BatchOp>,
) -> Map<Seq<u8>, Seq<u8>>
    decreases ops.len(),
{
    if ops.len() == 0 {
        m
    } else {
        apply_ops(apply_op(m, scope, ops[0]), scope, ops.skip(1))
    }
}

/// The first keyspace name in the batch that does not resolve, if any; such a
/// name aborts the whole batch before commit.
pub open spec fn first_unknown(ops: Seq<BatchOp>, names: Seq<String>) -> Option<Seq<char>>
    decreases ops.len(),
{
    if ops.len() == 0 {
        None
    } else {
        match op_scope(ops[0]) {
            Some(c) => if known(names, c) {
                first_unknown(ops.skip(1), names)
            } else {
                Some(c)
            },
            None => first_unknown(ops.skip(1), names),
        }
    }
}

/// The staging decision for an atomic batch.
#[derive(Debug, Clone, PartialEq, Eq)]
pub enum TxPlan {
    /// The sequence was empty: no native write happens and the applied count
    /// is zero.
    Skip,
    /// All names resolved: the shell commits all entries as one native write
    /// and `count` operations are reported applied.
    Commit { count: usize },
}

/// Stages an atomic batch against the currently resolvable keyspace names:
/// an empty sequence is a no-op reporting zero without touching the engine;
/// a sequence containing an unresolvable name aborts entirely, before commit;
/// otherwise every entry is staged and the applied count is the full length.
pub fn plan_tx(ops: &Vec<BatchOp>, keyspaces: &Vec<String>) -> (r: Result<TxPlan, RockerError>)
    ensures
        ops@.len() == 0 ==> r == Ok::<TxPlan, RockerError>(TxPlan::Skip),
        match r {
            Ok(TxPlan::Skip) => ops@.len() == 0,
            Ok(TxPlan::Commit { count }) => ops@.len() > 0 && count == ops@.len()
                && first_unknown(ops@, keyspaces@) is None,
            Err(e) => (first_unknown(ops@, keyspaces@) matches Some(n)
                && e matches RockerError::UnknownKeyspace { name } && name@ == n),
        },
{
    if ops.len() == 0 {
        return Ok(TxPlan::Skip);
    }
    let mut i: usize = 0;
    proof {
        assert(ops@.skip(0) =~= ops@);
    }
    while i < ops.len()
        invariant
            i <= ops@.len(),
            first_unknown(ops@.skip(i as int), keyspaces@) == first_unknown(ops@, keyspaces@),
        decreases ops@.len() - i,
    {
        proof {
            assert(ops@.skip(i as int)[0] == ops@[i as int]);
            assert(ops@.skip(i as int).skip(1) =~= ops@.skip(i as int + 1));
        }
        match &ops[i] {
            BatchOp::PutCf { cf, .. } => {
                if !crate::db::has_name(keyspaces, cf) {
                    return Err(RockerError::UnknownKeyspace { name: cf.clone() });
                }
            },
            BatchOp::DeleteCf { cf, .. } => {
                if !crate::db::has_name(keyspaces, cf) {
                    return Err(RockerError::UnknownKeyspace { name: cf.clone() });
                }
            },
            _ => {},
        }
        i = i + 1;
    }
    proof {
        assert(ops@.skip(ops@.len() as int) =~= Seq::<BatchOp>::empty());
    }
    Ok(TxPlan::Commit { count: ops.len() })
}

/// An empty batch leaves every keyspace unchanged.
pub proof fn lemma_apply_empty(m: Map<Seq<u8>, Seq<u8>>, scope: Option<Seq<char>>)
    ensures
        apply_ops(m, scope, Seq::<BatchOp>::empty()) == m,
{
}

/// Within one committed batch the last write to a key wins, in sequence
/// order: a put of `k` followed by a delete of `k` leaves `k` absent.
pub proof fn lemma_batch_last_write_wins(m: Map<Seq<u8>, Seq<u8>>, k: Vec<u8>, v: Vec<u8>)
    ensures
        ({
            let ops = seq![BatchOp::Put { key: k, value: v }, BatchOp::Delete { key: k }];
            !apply_ops(m, None, ops).dom().contains(k@)
        }),
{
    let ops = seq![BatchOp::Put { key: k, value: v }, BatchOp::Delete { key: k }];
    let s1 = ops.skip(1);
    assert(s1 =~= seq![BatchOp::Delete { key: k }]);
    assert(s1.skip(1) =~= Seq::<BatchOp>::empty());
    let m1 = apply_op(m, None, ops[0]);
    let m2 = apply_op(m1, None, s1[0]);
    assert(apply_ops(m, None, ops) == apply_ops(m1, None, s1));
    assert(apply_ops(m1, None, s1) == apply_ops(m2, None, s1.skip(1)));
    assert(apply_ops(m2, None, s1.skip(1)) == m2);
    assert(m2 == engine_delete(engine_put(m, k@, v@), k@));
}

} // verus!
