use rocker::cursor::{
    iterator, iterator_cf, iterator_valid, next, prefix_iterator, prefix_iterator_cf,
    seek_request, Cursor, Dir, IterMode, SeekReq,
};
use std::collections::BTreeMap;

type Store = BTreeMap<Vec<u8>, Vec<u8>>;

// Plays the engine: answers a planned seek from an ordered in-memory store,
// exactly as the boundary model describes a correct reply.
fn perform(store: &Store, req: &SeekReq) -> Option<(Vec<u8>, Vec<u8>)> {
    match req {
        SeekReq::FirstGe(lo) => store
            .range(lo.clone()..)
            .next()
            .map(|(k, v)| (k.clone(), v.clone())),
        SeekReq::LastLe(hi) => store
            .range(..=hi.clone())
            .next_back()
            .map(|(k, v)| (k.clone(), v.clone())),
        SeekReq::LastBelow(Some(hi)) => store
            .range(..hi.clone())
            .next_back()
            .map(|(k, v)| (k.clone(), v.clone())),
        SeekReq::LastBelow(None) => store.iter().next_back().map(|(k, v)| (k.clone(), v.clone())),
        SeekReq::NoCall => None,
    }
}

fn drain(store: &Store, mut c: Cursor) -> Vec<(Vec<u8>, Vec<u8>)> {
    let mut out = Vec::new();
    loop {
        let req = seek_request(&c);
        let reply = perform(store, &req);
        match next(&mut c, reply) {
            Some(kv) => out.push(kv),
            None => break,
        }
    }
    out
}

fn store_of(pairs: &[(&[u8], &[u8])]) -> Store {
    pairs.iter().map(|(k, v)| (k.to_vec(), v.to_vec())).collect()
}

#[test]
fn start_cursor_visits_keys_in_ascending_order() {
    let store = store_of(&[(b"b", b"2"), (b"a", b"1"), (b"d", b"4"), (b"c", b"3")]);
    let visited = drain(&store, iterator(IterMode::Start));
    let keys: Vec<Vec<u8>> = visited.iter().map(|kv| kv.0.clone()).collect();
    assert_eq!(keys, vec![b"a".to_vec(), b"b".to_vec(), b"c".to_vec(), b"d".to_vec()]);
    assert_eq!(visited[2].1, b"3".to_vec());
}

#[test]
fn end_cursor_visits_keys_in_descending_order() {
    let store = store_of(&[(b"b", b"2"), (b"a", b"1"), (b"c", b"3")]);
    let visited = drain(&store, iterator(IterMode::End));
    let keys: Vec<Vec<u8>> = visited.iter().map(|kv| kv.0.clone()).collect();
    assert_eq!(keys, vec![b"c".to_vec(), b"b".to_vec(), b"a".to_vec()]);
}

#[test]
fn from_cursor_starts_at_the_given_key_inclusive() {
    let store = store_of(&[(b"a", b"1"), (b"c", b"3"), (b"e", b"5")]);
    let fwd = drain(&store, iterator(IterMode::From(b"c".to_vec(), Dir::Forward)));
    let keys: Vec<Vec<u8>> = fwd.iter().map(|kv| kv.0.clone()).collect();
    assert_eq!(keys, vec![b"c".to_vec(), b"e".to_vec()]);
    // a start key between two stored keys lands on the next stored one
    let fwd = drain(&store, iterator(IterMode::From(b"b".to_vec(), Dir::Forward)));
    let keys: Vec<Vec<u8>> = fwd.iter().map(|kv| kv.0.clone()).collect();
    assert_eq!(keys, vec![b"c".to_vec(), b"e".to_vec()]);
}

#[test]
fn from_cursor_reverse_walks_downwards() {
    let store = store_of(&[(b"a", b"1"), (b"c", b"3"), (b"e", b"5")]);
    let rev = drain(&store, iterator(IterMode::From(b"d".to_vec(), Dir::Reverse)));
    let keys: Vec<Vec<u8>> = rev.iter().map(|kv| kv.0.clone()).collect();
    assert_eq!(keys, vec![b"c".to_vec(), b"a".to_vec()]);
}

#[test]
fn empty_store_exhausts_immediately() {
    let store = Store::new();
    assert_eq!(drain(&store, iterator(IterMode::Start)), Vec::new());
    assert_eq!(drain(&store, iterator(IterMode::End)), Vec::new());
}

#[test]
fn valid_is_false_exactly_when_next_would_exhaust() {
    let store = store_of(&[(b"a", b"1"), (b"b", b"2")]);
    let mut c = iterator(IterMode::Start);
    loop {
        let req = seek_request(&c);
        let reply = perform(&store, &req);
        let valid = iterator_valid(&c, &reply);
        let stepped = next(&mut c, reply);
        assert_eq!(valid, stepped.is_some());
        if stepped.is_none() {
            break;
        }
    }
    // once exhausted, the cursor stays exhausted and needs no native call
    let req = seek_request(&c);
    assert_eq!(req, SeekReq::NoCall);
    let reply = perform(&store, &req);
    assert!(!iterator_valid(&c, &reply));
    assert_eq!(next(&mut c, reply), None);
}

#[test]
fn prefix_cursor_visits_only_prefixed_keys_in_order() {
    let store = store_of(&[(b"ab1", b"1"), (b"ac1", b"3"), (b"ab2", b"2")]);
    let visited = drain(&store, prefix_iterator(b"ab".to_vec()));
    let keys: Vec<Vec<u8>> = visited.iter().map(|kv| kv.0.clone()).collect();
    assert_eq!(keys, vec![b"ab1".to_vec(), b"ab2".to_vec()]);
}

#[test]
fn prefix_cursor_with_no_match_is_exhausted_at_once() {
    let store = store_of(&[(b"ba", b"1"), (b"ca", b"2")]);
    assert_eq!(drain(&store, prefix_iterator(b"ab".to_vec())), Vec::new());
}

#[test]
fn scoped_cursor_stops_resolving_after_its_keyspace_is_dropped() {
    let store = store_of(&[(b"a", b"1"), (b"b", b"2")]);
    let mut names = vec!["default".to_owned(), "logs".to_owned()];
    let mut c = iterator_cf("logs".to_owned(), IterMode::Start);

    // the shell resolves the scope freshly before every advance
    let scope = c.scope.clone().unwrap();
    assert!(rocker::db::require_keyspace(&names, &scope).is_ok());
    let reply = perform(&store, &seek_request(&c));
    assert_eq!(next(&mut c, reply), Some((b"a".to_vec(), b"1".to_vec())));

    // the keyspace is dropped between two advances: the next resolution fails
    // with unknown-keyspace and the advance never reaches the engine
    names.retain(|n| n != "logs");
    let e = rocker::db::require_keyspace(&names, &scope).unwrap_err();
    assert_eq!(
        e,
        rocker::errors::RockerError::UnknownKeyspace { name: "logs".to_owned() }
    );
}

#[test]
fn scoped_cursors_remember_their_keyspace() {
    let c = iterator_cf("logs".to_owned(), IterMode::Start);
    assert_eq!(c.scope, Some("logs".to_owned()));
    let c = prefix_iterator_cf("logs".to_owned(), b"ab".to_vec());
    assert_eq!(c.scope, Some("logs".to_owned()));
    assert_eq!(c.prefix, Some(b"ab".to_vec()));
}
