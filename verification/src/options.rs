use vstd::prelude::*;
use crate::errors::RockerError;

verus! {

/// A tuning value as it arrives over the dispatch boundary: a boolean switch,
/// a signed or unsigned integer, or a bare word (used for enumerated choices).
#[derive(Debug, Clone, PartialEq, Eq)]
pub enum OptVal {
    Flag(bool),
    Signed(i64),
    Unsigned(u64),
    Word(String),
}

/// The engine's compaction strategy, as an enumerated choice.
#[derive(Debug, Clone, Copy, PartialEq, Eq)]
pub enum CompactionChoice {
    Level,
    Universal,
    Fifo,
}

/// The engine configuration distilled to plain values. A `None` (or `false`)
/// field leaves the engine's own default untouched. The shell that owns the
/// native engine builds its configuration object from these fields.
#[derive(Debug, Clone, PartialEq, Eq)]
pub struct DbOptions {
    pub create_if_missing: bool,
    pub create_missing_column_families: bool,
    pub use_fsync: bool,
    pub disable_auto_compactions: bool,
    pub max_open_files: Option<i32>,
    pub bytes_per_sync: Option<u64>,
    pub optimize_for_point_lookup: Option<u64>,
    pub table_cache_num_shard_bits: Option<i32>,
    pub max_write_buffer_number: Option<i32>,
    pub write_buffer_size: Option<usize>,
    pub target_file_size_base: Option<u64>,
    pub min_write_buffer_number_to_merge: Option<i32>,
    pub level_zero_stop_writes_trigger: Option<i32>,
    pub level_zero_slowdown_writes_trigger: Option<i32>,
    pub max_background_compactions: Option<i32>,
    pub max_background_flushes: Option<i32>,
    pub compaction_style: Option<CompactionChoice>,
    pub prefix_length: Option<usize>,
}

impl DbOptions {
    /// Everything left to the engine's defaults.
    pub open spec fn all_default() -> DbOptions {
        DbOptions {
            create_if_missing: false,
            create_missing_column_families: false,
            use_fsync: false,
            disable_auto_compactions: false,
            max_open_files: None,
            bytes_per_sync: None,
            optimize_for_point_lookup: None,
            table_cache_num_shard_bits: None,
            max_write_buffer_number: None,
            write_buffer_size: None,
            target_file_size_base: None,
            min_write_buffer_number_to_merge: None,
            level_zero_stop_writes_trigger: None,
            level_zero_slowdown_writes_trigger: None,
            max_background_compactions: None,
            max_background_flushes: None,
            compaction_style: None,
            prefix_length: None,
        }
    }

    pub fn defaults() -> (r: DbOptions)
        ensures
            r == DbOptions::all_default(),
    {
        DbOptions {
            create_if_missing: false,
            create_missing_column_families: false,
            use_fsync: false,
            disable_auto_compactions: false,
            max_open_files: None,
            bytes_per_sync: None,
            optimize_for_point_lookup: None,
            table_cache_num_shard_bits: None,
            max_write_buffer_number: None,
            write_buffer_size: None,
            target_file_size_base: None,
            min_write_buffer_number_to_merge: None,
            level_zero_stop_writes_trigger: None,
            level_zero_slowdown_writes_trigger: None,
            max_background_compactions: None,
            max_background_flushes: None,
            compaction_style: None,
            prefix_length: None,
        }
    }
}

/// The effect of one named option on a configuration, or `None` when the name
/// is recognized but the value has the wrong shape or range. An unrecognized
/// name leaves the configuration unchanged by design (forward compatibility).
/// A boolean-valued option is honored only when its value is `true`; `false`
/// leaves the engine default untouched (preserved, observed behavior).
pub open spec fn apply_option(d: DbOptions, name: Seq<char>, v: OptVal) -> Option<DbOptions> {
    if name == "create_if_missing"@ {
        match v {
            OptVal::Flag(b) => Some(
                if b {
                    DbOptions { create_if_missing: true, ..d }
                } else {
                    d
                },
            ),
            _ => None,
        }
    } else if name == "create_missing_column_families"@ {
        match v {
            OptVal::Flag(b) => Some(
                if b {
                    DbOptions { create_missing_column_families: true, ..d }
                } else {
                    d
                },
            ),
            _ => None,
        }
    } else if name == "set_use_fsync"@ {
        match v {
            OptVal::Flag(b) => Some(
                if b {
                    DbOptions { use_fsync: true, ..d }
                } else {
                    d
                },
            ),
            _ => None,
        }
    } else if name == "set_disable_auto_compactions"@ {
        match v {
            OptVal::Flag(b) => Some(
                if b {
                    DbOptions { disable_auto_compactions: true, ..d }
                } else {
                    d
                },
            ),
            _ => None,
        }
    } else if name == "set_max_open_files"@ {
        match v {
            OptVal::Signed(i) => if i32::MIN as i64 <= i && i <= i32::MAX as i64 {
                Some(DbOptions { max_open_files: Some(i as i32), ..d })
            } else {
                None
            },
            _ => None,
        }
    } else if name == "set_bytes_per_sync"@ {
        match v {
            OptVal::Unsigned(u) => Some(DbOptions { bytes_per_sync: Some(u), ..d }),
            _ => None,
        }
    } else if name == "optimize_for_point_lookup"@ {
        match v {
            OptVal::Unsigned(u) => Some(DbOptions { optimize_for_point_lookup: Some(u), ..d }),
            _ => None,
        }
    } else if name == "set_table_cache_num_shard_bits"@ {
        match v {
            OptVal::Signed(i) => if i32::MIN as i64 <= i && i <= i32::MAX as i64 {
                Some(DbOptions { table_cache_num_shard_bits: Some(i as i32), ..d })
            } else {
                None
            },
            _ => None,
        }
    } else if name == "set_max_write_buffer_number"@ {
        match v {
            OptVal::Signed(i) => if i32::MIN as i64 <= i && i <= i32::MAX as i64 {
                Some(DbOptions { max_write_buffer_number: Some(i as i32), ..d })
            } else {
                None
            },
            _ => None,
        }
    } else if name == "set_write_buffer_size"@ {
        match v {
            OptVal::Unsigned(u) => if u <= usize::MAX as u64 {
                Some(DbOptions { write_buffer_size: Some(u as usize), ..d })
            } else {
                None
            },
            _ => None,
        }
    } else if name == "set_target_file_size_base"@ {
        match v {
            OptVal::Unsigned(u) => Some(DbOptions { target_file_size_base: Some(u), ..d }),
            _ => None,
        }
    } else if name == "set_min_write_buffer_number_to_merge"@ {
        match v {
            OptVal::Signed(i) => if i32::MIN as i64 <= i && i <= i32::MAX as i64 {
                Some(DbOptions { min_write_buffer_number_to_merge: Some(i as i32), ..d })
            } else {
                None
            },
            _ => None,
        }
    } else if name == "set_level_zero_stop_writes_trigger"@ {
        match v {
            OptVal::Signed(i) => if i32::MIN as i64 <= i && i <= i32::MAX as i64 {
                Some(DbOptions { level_zero_stop_writes_trigger: Some(i as i32), ..d })
            } else {
                None
            },
            _ => None,
        }
    } else if name == "set_level_zero_slowdown_writes_trigger"@ {
        match v {
            OptVal::Signed(i) => if i32::MIN as i64 <= i && i <= i32::MAX as i64 {
                Some(DbOptions { level_zero_slowdown_writes_trigger: Some(i as i32), ..d })
            } else {
                None
            },
            _ => None,
        }
    } else if name == "set_max_background_compactions"@ {
        match v {
            OptVal::Signed(i) => if i32::MIN as i64 <= i && i <= i32::MAX as i64 {
                Some(DbOptions { max_background_compactions: Some(i as i32), ..d })
            } else {
                None
            },
            _ => None,
        }
    } else if name == "set_max_background_flushes"@ {
        match v {
            OptVal::Signed(i) => if i32::MIN as i64 <= i && i <= i32::MAX as i64 {
                Some(DbOptions { max_background_flushes: Some(i as i32), ..d })
            } else {
                None
            },
            _ => None,
        }
    } else if name == "set_compaction_style"@ {
        match v {
            OptVal::Word(w) => Some(
                if w@ == "level"@ {
                    DbOptions { compaction_style: Some(CompactionChoice::Level), ..d }
                } else if w@ == "universal"@ {
                    DbOptions { compaction_style: Some(CompactionChoice::Universal), ..d }
                } else if w@ == "fifo"@ {
                    DbOptions { compaction_style: Some(CompactionChoice::Fifo), ..d }
                } else {
                    d
                },
            ),
            _ => None,
        }
    } else if name == "prefix_length"@ {
        match v {
            OptVal::Unsigned(u) => if u <= usize::MAX as u64 {
                Some(DbOptions { prefix_length: Some(u as usize), ..d })
            } else {
                None
            },
            _ => None,
        }
    } else {
        Some(d)
    }
}

/// Folding a whole option mapping over a starting configuration, entry by
/// entry in presentation order; the error carries the name of the first entry
/// whose value had the wrong shape. Every recognized option sets its own
/// field, so the outcome does not depend on the order of distinct names.
pub open spec fn translate_from(d: DbOptions, entries: Seq<(String, OptVal)>) -> Result<
    DbOptions,
    Seq<char>,
>
    decreases entries.len(),
{
    if entries.len() == 0 {
        Ok(d)
    } else {
        match apply_option(d, entries[0].0@, entries[0].1) {
            Some(d2) => translate_from(d2, entries.skip(1)),
            None => Err(entries[0].0@),
        }
    }
}

/// Exec equality of an option name against a candidate literal.
fn name_is(name: &String, lit: &str) -> (b: bool)
    ensures
        b == (name@ == lit@),
{
    let s: String = lit.to_owned();
    *name == s
}

/// Applies a single named option, consuming the configuration.
fn apply_one(d: DbOptions, name: &String, v: &OptVal) -> (r: Result<DbOptions, RockerError>)
    ensures
        match apply_option(d, name@, *v) {
            Some(d2) => r == Ok::<DbOptions, RockerError>(d2),
            None => (r matches Err(e) && e matches RockerError::BadOptionValue { name: n }
                && n@ == name@),
        },
{
    let bad = RockerError::BadOptionValue { name: name.clone() };
    if name_is(name, "create_if_missing") {
        match v {
            OptVal::Flag(b) => Ok(
                if *b {
                    DbOptions { create_if_missing: true, ..d }
                } else {
                    d
                },
            ),
            _ => Err(bad),
        }
    } else if name_is(name, "create_missing_column_families") {
        match v {
            OptVal::Flag(b) => Ok(
                if *b {
                    DbOptions { create_missing_column_families: true, ..d }
                } else {
                    d
                },
            ),
            _ => Err(bad),
        }
    } else if name_is(name, "set_use_fsync") {
        match v {
            OptVal::Flag(b) => Ok(
                if *b {
                    DbOptions { use_fsync: true, ..d }
                } else {
                    d
                },
            ),
            _ => Err(bad),
        }
    } else if name_is(name, "set_disable_auto_compactions") {
        match v {
            OptVal::Flag(b) => Ok(
                if *b {
                    DbOptions { disable_auto_compactions: true, ..d }
                } else {
                    d
                },
            ),
            _ => Err(bad),
        }
    } else if name_is(name, "set_max_open_files") {
        match v {
            OptVal::Signed(i) => if i32::MIN as i64 <= *i && *i <= i32::MAX as i64 {
                Ok(DbOptions { max_open_files: Some(*i as i32), ..d })
            } else {
                Err(bad)
            },
            _ => Err(bad),
        }
    } else if name_is(name, "set_bytes_per_sync") {
        match v {
            OptVal::Unsigned(u) => Ok(DbOptions { bytes_per_sync: Some(*u), ..d }),
            _ => Err(bad),
        }
    } else if name_is(name, "optimize_for_point_lookup") {
        match v {
            OptVal::Unsigned(u) => Ok(DbOptions { optimize_for_point_lookup: Some(*u), ..d }),
            _ => Err(bad),
        }
    } else if name_is(name, "set_table_cache_num_shard_bits") {
        match v {
            OptVal::Signed(i) => if i32::MIN as i64 <= *i && *i <= i32::MAX as i64 {
                Ok(DbOptions { table_cache_num_shard_bits: Some(*i as i32), ..d })
            } else {
                Err(bad)
            },
            _ => Err(bad),
        }
    } else if name_is(name, "set_max_write_buffer_number") {
        match v {
            OptVal::Signed(i) => if i32::MIN as i64 <= *i && *i <= i32::MAX as i64 {
                Ok(DbOptions { max_write_buffer_number: Some(*i as i32), ..d })
            } else {
                Err(bad)
            },
            _ => Err(bad),
        }
    } else if name_is(name, "set_write_buffer_size") {
        match v {
            OptVal::Unsigned(u) => if *u <= usize::MAX as u64 {
                Ok(DbOptions { write_buffer_size: Some(*u as usize), ..d })
            } else {
                Err(bad)
            },
            _ => Err(bad),
        }
    } else if name_is(name, "set_target_file_size_base") {
        match v {
            OptVal::Unsigned(u) => Ok(DbOptions { target_file_size_base: Some(*u), ..d }),
            _ => Err(bad),
        }
    } else if name_is(name, "set_min_write_buffer_number_to_merge") {
        match v {
            OptVal::Signed(i) => if i32::MIN as i64 <= *i && *i <= i32::MAX as i64 {
                Ok(DbOptions { min_write_buffer_number_to_merge: Some(*i as i32), ..d })
            } else {
                Err(bad)
            },
            _ => Err(bad),
        }
    } else if name_is(name, "set_level_zero_stop_writes_trigger") {
        match v {
            OptVal::Signed(i) => if i32::MIN as i64 <= *i && *i <= i32::MAX as i64 {
                Ok(DbOptions { level_zero_stop_writes_trigger: Some(*i as i32), ..d })
            } else {
                Err(bad)
            },
            _ => Err(bad),
        }
    } else if name_is(name, "set_level_zero_slowdown_writes_trigger") {
        match v {
            OptVal::Signed(i) => if i32::MIN as i64 <= *i && *i <= i32::MAX as i64 {
                Ok(DbOptions { level_zero_slowdown_writes_trigger: Some(*i as i32), ..d })
            } else {
                Err(bad)
            },
            _ => Err(bad),
        }
    } else if name_is(name, "set_max_background_compactions") {
        match v {
            OptVal::Signed(i) => if i32::MIN as i64 <= *i && *i <= i32::MAX as i64 {
                Ok(DbOptions { max_background_compactions: Some(*i as i32), ..d })
            } else {
                Err(bad)
            },
            _ => Err(bad),
        }
    } else if name_is(name, "set_max_background_flushes") {
        match v {
            OptVal::Signed(i) => if i32::MIN as i64 <= *i && *i <= i32::MAX as i64 {
                Ok(DbOptions { max_background_flushes: Some(*i as i32), ..d })
            } else {
                Err(bad)
            },
            _ => Err(bad),
        }
    } else if name_is(name, "set_compaction_style") {
        match v {
            OptVal::Word(w) => Ok(
                if name_is(w, "level") {
                    DbOptions { compaction_style: Some(CompactionChoice::Level), ..d }
                } else if name_is(w, "universal") {
                    DbOptions { compaction_style: Some(CompactionChoice::Universal), ..d }
                } else if name_is(w, "fifo") {
                    DbOptions { compaction_style: Some(CompactionChoice::Fifo), ..d }
                } else {
                    d
                },
            ),
            _ => Err(bad),
        }
    } else if name_is(name, "prefix_length") {
        match v {
            OptVal::Unsigned(u) => if *u <= usize::MAX as u64 {
                Ok(DbOptions { prefix_length: Some(*u as usize), ..d })
            } else {
                Err(bad)
            },
            _ => Err(bad),
        }
    } else {
        Ok(d)
    }
}

/// Translates an order-irrelevant option mapping into a configuration,
/// starting from all defaults. Unknown names are ignored by design; a
/// recognized name with a value of the wrong shape fails with the name of the
/// offending option.
pub fn translate(entries: &Vec<(String, OptVal)>) -> (r: Result<DbOptions, RockerError>)
    ensures
        ({
            let t = translate_from(DbOptions::all_default(), entries@);
            match r {
                Ok(d) => t == Ok::<DbOptions, Seq<char>>(d),
                Err(e) => (t matches Err(n) && e matches RockerError::BadOptionValue { name }
                    && name@ == n),
            }
        }),
{
    let mut d = DbOptions::defaults();
    let mut i: usize = 0;
    proof {
        assert(entries@.skip(0) =~= entries@);
    }
    while i < entries.len()
        invariant
            i <= entries@.len(),
            translate_from(d, entries@.skip(i as int)) == translate_from(
                DbOptions::all_default(),
                entries@,
            ),
        decreases entries@.len() - i,
    {
        proof {
            assert(entries@.skip(i as int)[0] == entries@[i as int]);
            assert(entries@.skip(i as int).skip(1) =~= entries@.skip(i as int + 1));
        }
        let pair = &entries[i];
        match apply_one(d, &pair.0, &pair.1) {
            Ok(d2) => {
                d = d2;
            },
            Err(e) => {
                return Err(e);
            },
        }
        i = i + 1;
    }
    proof {
        assert(entries@.skip(i as int) =~= Seq::<(String, OptVal)>::empty());
    }
    Ok(d)
}

} // verus!
