use rocker::errors::RockerError;
use rocker::options::{translate, CompactionChoice, DbOptions, OptVal};

fn entry(name: &str, v: OptVal) -> (String, OptVal) {
    (name.to_owned(), v)
}

#[test]
fn empty_mapping_is_all_defaults() {
    let d = translate(&Vec::new()).unwrap();
    assert_eq!(d, DbOptions {
        create_if_missing: false,
        create_missing_column_families: false,
        use_fsync: false,
        disable_auto_compactions: false,
        max_open_files: None,
        bytes_per_sync: None,
        optimize_for_point_lookup: None,
        table_cache_num_shard_bits: None,
        max_write_buffer_number: None,
        write_buffer_size: None,
        target_file_size_base: None,
        min_write_buffer_number_to_merge: None,
        level_zero_stop_writes_trigger: None,
        level_zero_slowdown_writes_trigger: None,
        max_background_compactions: None,
        max_background_flushes: None,
        compaction_style: None,
        prefix_length: None,
    });
}

#[test]
fn boolean_true_sets_the_field() {
    let d = translate(&vec![
        entry("create_if_missing", OptVal::Flag(true)),
        entry("set_use_fsync", OptVal::Flag(true)),
    ])
    .unwrap();
    assert!(d.create_if_missing);
    assert!(d.use_fsync);
    assert!(!d.create_missing_column_families);
}

#[test]
fn boolean_false_is_ignored() {
    // a false flag leaves the engine default untouched, by design
    let d = translate(&vec![entry("create_if_missing", OptVal::Flag(false))]).unwrap();
    assert!(!d.create_if_missing);
}

#[test]
fn unknown_names_are_ignored() {
    let d = translate(&vec![
        entry("definitely_not_an_option", OptVal::Flag(true)),
        entry("set_max_open_files", OptVal::Signed(64)),
    ])
    .unwrap();
    assert_eq!(d.max_open_files, Some(64));
}

#[test]
fn integer_options_set_their_fields() {
    let d = translate(&vec![
        entry("set_max_open_files", OptVal::Signed(-1)),
        entry("set_bytes_per_sync", OptVal::Unsigned(8192)),
        entry("optimize_for_point_lookup", OptVal::Unsigned(1024)),
        entry("set_table_cache_num_shard_bits", OptVal::Signed(6)),
        entry("set_max_write_buffer_number", OptVal::Signed(4)),
        entry("set_write_buffer_size", OptVal::Unsigned(1 << 20)),
        entry("set_target_file_size_base", OptVal::Unsigned(1 << 21)),
        entry("set_min_write_buffer_number_to_merge", OptVal::Signed(2)),
        entry("set_level_zero_stop_writes_trigger", OptVal::Signed(24)),
        entry("set_level_zero_slowdown_writes_trigger", OptVal::Signed(20)),
        entry("set_max_background_compactions", OptVal::Signed(3)),
        entry("set_max_background_flushes", OptVal::Signed(2)),
        entry("prefix_length", OptVal::Unsigned(2)),
    ])
    .unwrap();
    assert_eq!(d.max_open_files, Some(-1));
    assert_eq!(d.bytes_per_sync, Some(8192));
    assert_eq!(d.optimize_for_point_lookup, Some(1024));
    assert_eq!(d.table_cache_num_shard_bits, Some(6));
    assert_eq!(d.max_write_buffer_number, Some(4));
    assert_eq!(d.write_buffer_size, Some(1 << 20));
    assert_eq!(d.target_file_size_base, Some(1 << 21));
    assert_eq!(d.min_write_buffer_number_to_merge, Some(2));
    assert_eq!(d.level_zero_stop_writes_trigger, Some(24));
    assert_eq!(d.level_zero_slowdown_writes_trigger, Some(20));
    assert_eq!(d.max_background_compactions, Some(3));
    assert_eq!(d.max_background_flushes, Some(2));
    assert_eq!(d.prefix_length, Some(2));
}

#[test]
fn compaction_styles_translate() {
    let d = translate(&vec![entry("set_compaction_style", OptVal::Word("level".to_owned()))])
        .unwrap();
    assert_eq!(d.compaction_style, Some(CompactionChoice::Level));
    let d = translate(&vec![entry("set_compaction_style", OptVal::Word("universal".to_owned()))])
        .unwrap();
    assert_eq!(d.compaction_style, Some(CompactionChoice::Universal));
    let d = translate(&vec![entry("set_compaction_style", OptVal::Word("fifo".to_owned()))])
        .unwrap();
    assert_eq!(d.compaction_style, Some(CompactionChoice::Fifo));
}

#[test]
fn unrecognized_compaction_style_word_is_ignored() {
    let d = translate(&vec![entry("set_compaction_style", OptVal::Word("lifo".to_owned()))])
        .unwrap();
    assert_eq!(d.compaction_style, None);
}

#[test]
fn wrong_shape_fails_with_the_option_name() {
    let r = translate(&vec![
        entry("create_if_missing", OptVal::Flag(true)),
        entry("set_max_open_files", OptVal::Word("many".to_owned())),
    ]);
    assert_eq!(
        r,
        Err(RockerError::BadOptionValue { name: "set_max_open_files".to_owned() })
    );
}

#[test]
fn out_of_range_signed_value_fails() {
    let r = translate(&vec![entry("set_max_open_files", OptVal::Signed(1 << 40))]);
    assert!(matches!(r, Err(RockerError::BadOptionValue { .. })));
}

#[test]
fn later_entry_for_same_name_wins() {
    let d = translate(&vec![
        entry("set_max_open_files", OptVal::Signed(10)),
        entry("set_max_open_files", OptVal::Signed(20)),
    ])
    .unwrap();
    assert_eq!(d.max_open_files, Some(20));
}
