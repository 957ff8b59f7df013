use vstd::prelude::*;
use crate::errors::RockerError;
use crate::model::{engine_create_keyspace, engine_delete, engine_drop_keyspace, engine_get, engine_put};
use crate::options::{translate, translate_from, DbOptions, OptVal};

verus! {

/// A database handle as this layer knows it: the on-disk path and the
/// translated configuration. The native engine instance itself, and the
/// readers-writer lock arbitrating access to it, live with the shell that
/// performs native calls; every operation the shell performs is planned and
/// its reply classified by the functions of this crate.
pub struct Db {
    pub path: String,
    pub options: DbOptions,
}

impl Db {
    /// The stored path, exactly as it was passed to `open`; a pure accessor,
    /// no native call.
    pub fn path(&self) -> (r: &String)
        ensures
            r@ == self.path@,
    {
        &self.path
    }
}

/// Opens (plans the opening of) a database at `path` with a translated option
/// mapping. The handle records the path verbatim and the configuration the
/// engine is to be opened with; a bad option value fails here, before any
/// native work.
pub fn open(path: String, entries: &Vec<(String, OptVal)>) -> (r: Result<Db, RockerError>)
    ensures
        match r {
            Ok(db) => db.path@ == path@ && translate_from(DbOptions::all_default(), entries@)
                == Ok::<DbOptions, Seq<char>>(db.options),
            Err(e) => (translate_from(DbOptions::all_default(), entries@) matches Err(n)
                && e matches RockerError::BadOptionValue { name } && name@ == n),
        },
{
    match translate(entries) {
        Ok(options) => Ok(Db { path, options }),
        Err(e) => Err(e),
    }
}

/// Opens with every option left to the engine's defaults except creation on a
/// missing path, which the default open implies.
pub fn open_default(path: String) -> (db: Db)
    ensures
        db.path@ == path@,
        db.options == (DbOptions { create_if_missing: true, ..DbOptions::all_default() }),
{
    let mut options = DbOptions::defaults();
    options.create_if_missing = true;
    Db { path, options }
}

/// Opens declaring a fixed set of keyspaces, with all-default options; the
/// declared names are handed to the engine by the shell, and the open fails
/// there if one is missing and auto-creation was not configured.
pub fn open_cf_default(path: String) -> (db: Db)
    ensures
        db.path@ == path@,
        db.options == DbOptions::all_default(),
{
    Db { path, options: DbOptions::defaults() }
}

/// Classifies the engine's reply to a point read: a found value and the
/// distinguished not-found result are both successes, a fault keeps the
/// engine's message.
pub fn read_outcome(reply: Result<Option<Vec<u8>>, String>) -> (r: Result<
    Option<Vec<u8>>,
    RockerError,
>)
    ensures
        match reply {
            Ok(v) => r == Ok::<Option<Vec<u8>>, RockerError>(v),
            Err(m) => (r matches Err(e) && e matches RockerError::Engine { message }
                && message@ == m@),
        },
{
    match reply {
        Ok(v) => Ok(v),
        Err(m) => Err(RockerError::Engine { message: m }),
    }
}

/// Classifies the engine's reply to a write, delete, keyspace or lifecycle
/// call that returns no value.
pub fn write_outcome(reply: Result<(), String>) -> (r: Result<(), RockerError>)
    ensures
        match reply {
            Ok(u) => r == Ok::<(), RockerError>(u),
            Err(m) => (r matches Err(e) && e matches RockerError::Engine { message }
                && message@ == m@),
        },
{
    match reply {
        Ok(u) => Ok(u),
        Err(m) => Err(RockerError::Engine { message: m }),
    }
}

/// The name `n` occurs in the list of currently resolvable keyspace names.
pub open spec fn known(names: Seq<String>, n: Seq<char>) -> bool {
    exists|i: int| 0 <= i < names.len() && names[i]@ == n
}

/// Whether a keyspace name is currently resolvable.
pub fn has_name(names: &Vec<String>, name: &String) -> (b: bool)
    ensures
        b == known(names@, name@),
{
    let mut i: usize = 0;
    while i < names.len()
        invariant
            i <= names@.len(),
            forall|j: int| 0 <= j < i ==> names@[j]@ != name@,
        decreases names@.len() - i,
    {
        if names[i] == *name {
            return true;
        }
        i = i + 1;
    }
    false
}

/// Resolves a keyspace name freshly, at the time of the operation: a name that
/// is not in the current list — never created, or since dropped — fails with
/// the distinguished unknown-keyspace condition, not a generic engine error.
pub fn require_keyspace(names: &Vec<String>, name: &String) -> (r: Result<(), RockerError>)
    ensures
        (r is Ok) == known(names@, name@),
        r matches Err(e) ==> (e matches RockerError::UnknownKeyspace { name: n } && n@ == name@),
{
    if has_name(names, name) {
        Ok(())
    } else {
        Err(RockerError::UnknownKeyspace { name: name.clone() })
    }
}

/// A write followed by a read of the same key returns the value written
/// (round-trip law), whatever the database held before.
pub proof fn lemma_put_then_get(m: Map<Seq<u8>, Seq<u8>>, k: Seq<u8>, v: Seq<u8>)
    ensures
        engine_get(engine_put(m, k, v), k) == Some(v),
{
}

/// A delete followed by a read of the same key is not-found, even when the
/// key was never present (idempotent delete).
pub proof fn lemma_delete_then_get(m: Map<Seq<u8>, Seq<u8>>, k: Seq<u8>)
    ensures
        engine_get(engine_delete(m, k), k) is None,
{
}

/// The keyspace lifecycle: a created name resolves; a write into a fresh
/// keyspace reads back; and after a drop the name no longer resolves, so a
/// scoped read fails with unknown-keyspace instead of returning a stale value.
pub proof fn lemma_keyspace_lifecycle(
    names: Set<Seq<char>>,
    n: Seq<char>,
    k: Seq<u8>,
    v: Seq<u8>,
)
    ensures
        engine_create_keyspace(names, n).contains(n),
        engine_get(engine_put(Map::<Seq<u8>, Seq<u8>>::empty(), k, v), k) == Some(v),
        !engine_drop_keyspace(engine_create_keyspace(names, n), n).contains(n),
{
}

} // verus!
