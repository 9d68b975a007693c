use shardkv::command::{Command, Frame, ProtoError};
use shardkv::handler::{apply_command, apply_on_shard, handle_event, ConnEvent, HandlerAction};
use shardkv::hash::{hash_key, shard_index};
use shardkv::store::{Shard, ShardSet};

fn set_frame(key: &[u8], val: &[u8]) -> Frame {
    Frame::Array(vec![b"set".to_vec(), key.to_vec(), val.to_vec()])
}

fn get_frame(key: &[u8]) -> Frame {
    Frame::Array(vec![b"get".to_vec(), key.to_vec()])
}

#[test]
fn set_then_get_returns_value() {
    let mut db = ShardSet::new(4);
    db.set(b"alpha".to_vec(), b"one".to_vec());
    assert_eq!(db.get(&b"alpha".to_vec()), Some(b"one".to_vec()));
    // a second reader sees the same value until it is overwritten
    assert_eq!(db.get(&b"alpha".to_vec()), Some(b"one".to_vec()));
    db.set(b"alpha".to_vec(), b"two".to_vec());
    assert_eq!(db.get(&b"alpha".to_vec()), Some(b"two".to_vec()));
}

#[test]
fn get_unwritten_key_is_absent() {
    let mut db = ShardSet::new(8);
    assert_eq!(db.get(&b"never".to_vec()), None);
    db.set(b"other".to_vec(), b"x".to_vec());
    assert_eq!(db.get(&b"never".to_vec()), None);
}

#[test]
fn writes_do_not_disturb_other_keys() {
    let mut db = ShardSet::new(32);
    db.set(b"a".to_vec(), b"1".to_vec());
    db.set(b"b".to_vec(), b"2".to_vec());
    db.set(b"a".to_vec(), b"3".to_vec());
    assert_eq!(db.get(&b"b".to_vec()), Some(b"2".to_vec()));
    assert_eq!(db.get(&b"a".to_vec()), Some(b"3".to_vec()));
}

#[test]
fn racing_sets_leave_one_whole_value() {
    // the two interleavings of Set("a",1) and Set("a",2)
    let mut db1 = ShardSet::new(4);
    db1.set(b"a".to_vec(), b"1".to_vec());
    db1.set(b"a".to_vec(), b"2".to_vec());
    let r1 = db1.get(&b"a".to_vec()).unwrap();

    let mut db2 = ShardSet::new(4);
    db2.set(b"a".to_vec(), b"2".to_vec());
    db2.set(b"a".to_vec(), b"1".to_vec());
    let r2 = db2.get(&b"a".to_vec()).unwrap();

    assert!(r1 == b"1".to_vec() || r1 == b"2".to_vec());
    assert!(r2 == b"1".to_vec() || r2 == b"2".to_vec());
}

#[test]
fn hash_matches_known_values() {
    // 64-bit FNV-1a of the empty string is the offset basis; of "a" a
    // well-known constant
    assert_eq!(hash_key(&Vec::new()), 0xcbf29ce484222325);
    assert_eq!(hash_key(&b"a".to_vec()), 0xaf63dc4c8601ec8c);
}

#[test]
fn hash_is_deterministic_and_index_in_range() {
    let k = b"hello".to_vec();
    assert_eq!(hash_key(&k), hash_key(&b"hello".to_vec()));
    for count in [1usize, 2, 31, 32] {
        let i = shard_index(&k, count);
        assert!(i < count);
        assert_eq!(i, shard_index(&k, count));
    }
}

#[test]
fn per_shard_dispatch_matches_whole_store_dispatch() {
    // route by hand to one shard, as a concurrent deployment does
    let count = 32usize;
    let mut shards: Vec<Shard> = Vec::new();
    for _ in 0..count {
        shards.push(Shard::new());
    }
    let key = b"hello".to_vec();
    let idx = shard_index(&key, count);

    let resp = apply_on_shard(
        &mut shards[idx],
        Command::Put { key: key.clone(), val: b"world".to_vec() },
    );
    assert!(matches!(resp, Frame::Simple(s) if s == "OK"));

    let resp = apply_on_shard(&mut shards[idx], Command::Get { key: key.clone() });
    assert!(matches!(resp, Frame::Bulk(v) if v == b"world".to_vec()));

    // the same traffic through the sequential store
    let mut db = ShardSet::new(count);
    let resp = apply_command(&mut db, Command::Put { key: key.clone(), val: b"world".to_vec() });
    assert!(matches!(resp, Frame::Simple(s) if s == "OK"));
    let resp = apply_command(&mut db, Command::Get { key });
    assert!(matches!(resp, Frame::Bulk(v) if v == b"world".to_vec()));
}

#[test]
fn scenario_set_hello_world() {
    let mut db = ShardSet::new(32);

    let act = handle_event(&mut db, ConnEvent::Received(set_frame(b"hello", b"world")));
    match act {
        HandlerAction::Reply(Frame::Simple(s)) => assert_eq!(s, "OK"),
        _ => panic!("SET was not acknowledged"),
    }

    let act = handle_event(&mut db, ConnEvent::Received(get_frame(b"hello")));
    match act {
        HandlerAction::Reply(Frame::Bulk(v)) => assert_eq!(v, b"world".to_vec()),
        _ => panic!("GET did not return the stored value"),
    }

    let act = handle_event(&mut db, ConnEvent::Received(get_frame(b"missing")));
    assert!(matches!(act, HandlerAction::Reply(Frame::Null)));
}

#[test]
fn scenario_malformed_frame_closes_only_that_connection() {
    let mut db = ShardSet::new(32);
    db.set(b"hello".to_vec(), b"world".to_vec());

    // one connection sends a frame that is no request at all
    let act = handle_event(&mut db, ConnEvent::Received(Frame::Bulk(b"junk".to_vec())));
    assert!(matches!(act, HandlerAction::CloseOnProtocol(ProtoError::Malformed)));

    // the service keeps serving: a new connection still reads the store
    let act = handle_event(&mut db, ConnEvent::Received(get_frame(b"hello")));
    assert!(matches!(act, HandlerAction::Reply(Frame::Bulk(v)) if v == b"world".to_vec()));
}

#[test]
fn unsupported_command_fails_loudly() {
    let mut db = ShardSet::new(4);
    let frame = Frame::Array(vec![b"del".to_vec(), b"x".to_vec()]);
    let act = handle_event(&mut db, ConnEvent::Received(frame));
    assert!(matches!(act, HandlerAction::CloseOnProtocol(ProtoError::Unsupported)));
}

#[test]
fn eof_and_io_failure_close_the_connection() {
    let mut db = ShardSet::new(4);
    assert!(matches!(handle_event(&mut db, ConnEvent::Eof), HandlerAction::CloseClean));
    assert!(matches!(handle_event(&mut db, ConnEvent::Failed), HandlerAction::CloseOnIo));
}

#[test]
fn from_frame_accepts_either_case() {
    let cmd = Command::from_frame(Frame::Array(vec![b"GET".to_vec(), b"k".to_vec()]));
    assert!(matches!(cmd, Ok(Command::Get { key }) if key == b"k".to_vec()));

    let cmd = Command::from_frame(Frame::Array(vec![
        b"SeT".to_vec(),
        b"k".to_vec(),
        b"v".to_vec(),
    ]));
    assert!(matches!(cmd, Ok(Command::Put { key, val }) if key == b"k".to_vec() && val == b"v".to_vec()));
}

#[test]
fn from_frame_rejects_bad_arity_and_shape() {
    assert_eq!(
        Command::from_frame(Frame::Array(vec![b"get".to_vec()])).unwrap_err(),
        ProtoError::Malformed
    );
    assert_eq!(
        Command::from_frame(Frame::Array(vec![
            b"get".to_vec(),
            b"k".to_vec(),
            b"extra".to_vec(),
        ]))
        .unwrap_err(),
        ProtoError::Malformed
    );
    assert_eq!(
        Command::from_frame(Frame::Array(vec![b"set".to_vec(), b"k".to_vec()])).unwrap_err(),
        ProtoError::Malformed
    );
    assert_eq!(Command::from_frame(Frame::Array(vec![])).unwrap_err(), ProtoError::Malformed);
    assert_eq!(Command::from_frame(Frame::Null).unwrap_err(), ProtoError::Malformed);
    assert_eq!(
        Command::from_frame(Frame::Simple("get".to_string())).unwrap_err(),
        ProtoError::Malformed
    );
    assert_eq!(
        Command::from_frame(Frame::Array(vec![b"publish".to_vec(), b"k".to_vec()])).unwrap_err(),
        ProtoError::Unsupported
    );
}

#[test]
fn empty_key_and_empty_value_are_stored_exactly() {
    let mut db = ShardSet::new(1);
    db.set(Vec::new(), Vec::new());
    assert_eq!(db.get(&Vec::new()), Some(Vec::new()));
    db.set(Vec::new(), b"v".to_vec());
    assert_eq!(db.get(&Vec::new()), Some(b"v".to_vec()));
}
