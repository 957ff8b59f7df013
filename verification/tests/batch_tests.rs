use rocker::batch::{plan_tx, BatchOp, TxPlan};
use rocker::errors::RockerError;

#[test]
fn empty_batch_skips_and_reports_zero() {
    let r = plan_tx(&Vec::new(), &vec!["default".to_owned()]);
    assert_eq!(r, Ok(TxPlan::Skip));
}

#[test]
fn staged_count_is_the_full_length() {
    let ops = vec![
        BatchOp::Put { key: b"k1".to_vec(), value: b"v1".to_vec() },
        BatchOp::Delete { key: b"k1".to_vec() },
        BatchOp::Put { key: b"k2".to_vec(), value: b"v2".to_vec() },
    ];
    assert_eq!(plan_tx(&ops, &Vec::new()), Ok(TxPlan::Commit { count: 3 }));
}

#[test]
fn scoped_entries_stage_when_the_keyspace_resolves() {
    let ops = vec![
        BatchOp::PutCf { cf: "logs".to_owned(), key: b"a".to_vec(), value: b"1".to_vec() },
        BatchOp::DeleteCf { cf: "logs".to_owned(), key: b"b".to_vec() },
    ];
    let names = vec!["logs".to_owned()];
    assert_eq!(plan_tx(&ops, &names), Ok(TxPlan::Commit { count: 2 }));
}

#[test]
fn an_unresolvable_name_aborts_the_whole_batch() {
    let ops = vec![
        BatchOp::Put { key: b"a".to_vec(), value: b"1".to_vec() },
        BatchOp::PutCf { cf: "ghost".to_owned(), key: b"b".to_vec(), value: b"2".to_vec() },
        BatchOp::Put { key: b"c".to_vec(), value: b"3".to_vec() },
    ];
    assert_eq!(
        plan_tx(&ops, &vec!["default".to_owned()]),
        Err(RockerError::UnknownKeyspace { name: "ghost".to_owned() })
    );
}

#[test]
fn the_first_unresolvable_name_is_reported() {
    let ops = vec![
        BatchOp::DeleteCf { cf: "first".to_owned(), key: b"a".to_vec() },
        BatchOp::PutCf { cf: "second".to_owned(), key: b"b".to_vec(), value: b"2".to_vec() },
    ];
    assert_eq!(
        plan_tx(&ops, &Vec::new()),
        Err(RockerError::UnknownKeyspace { name: "first".to_owned() })
    );
}
