use shardkv::actor::{deliver_reply, make_reply, CommandOutcome, Multiplexer, Reply};
use shardkv::command::Command;

#[test]
fn submissions_get_distinct_ids_and_drain_fifo() {
    let mut mux = Multiplexer::new();
    let id_a = mux.submit(Command::Put { key: b"a".to_vec(), val: b"1".to_vec() });
    let id_b = mux.submit(Command::Get { key: b"a".to_vec() });
    let id_c = mux.submit(Command::Get { key: b"b".to_vec() });
    assert_ne!(id_a, id_b);
    assert_ne!(id_a, id_c);
    assert_ne!(id_b, id_c);

    // the actor executes in the order the commands were received
    let first = mux.take_next().unwrap();
    assert_eq!(first.id, id_a);
    assert!(matches!(first.cmd, Command::Put { .. }));

    let second = mux.take_next().unwrap();
    assert_eq!(second.id, id_b);
    assert!(matches!(second.cmd, Command::Get { ref key } if *key == b"a".to_vec()));

    let third = mux.take_next().unwrap();
    assert_eq!(third.id, id_c);

    assert!(mux.take_next().is_none());
}

#[test]
fn each_caller_gets_its_own_reply() {
    let mut mux = Multiplexer::new();
    let id_x = mux.submit(Command::Get { key: b"x".to_vec() });
    let id_y = mux.submit(Command::Get { key: b"y".to_vec() });

    let p_x = mux.take_next().unwrap();
    let r_x = make_reply(&p_x, CommandOutcome::Absent);
    assert_eq!(r_x.id, id_x);

    let p_y = mux.take_next().unwrap();
    let r_y = make_reply(&p_y, CommandOutcome::Found(b"v".to_vec()));
    assert_eq!(r_y.id, id_y);
    assert_ne!(r_x.id, r_y.id);
    assert!(matches!(r_y.outcome, CommandOutcome::Found(ref v) if *v == b"v".to_vec()));
}

#[test]
fn reply_reaches_a_live_slot() {
    let (tx, mut rx) = tokio::sync::oneshot::channel::<Reply>();
    let mut mux = Multiplexer::new();
    let id = mux.submit(Command::Put { key: b"hello".to_vec(), val: b"world".to_vec() });
    let pending = mux.take_next().unwrap();
    deliver_reply(tx, make_reply(&pending, CommandOutcome::Stored));

    let got = rx.try_recv().expect("the reply must arrive in the slot");
    assert_eq!(got.id, id);
    assert!(matches!(got.outcome, CommandOutcome::Stored));
}

#[test]
fn abandoned_slot_is_discarded_silently() {
    let (tx, rx) = tokio::sync::oneshot::channel::<Reply>();
    drop(rx); // the caller gave up before the actor replied

    let mut mux = Multiplexer::new();
    mux.submit(Command::Get { key: b"k".to_vec() });
    let pending = mux.take_next().unwrap();
    // no error, no panic: the reply is simply dropped
    deliver_reply(tx, make_reply(&pending, CommandOutcome::Absent));

    // the actor goes on serving other callers afterwards
    let (tx2, mut rx2) = tokio::sync::oneshot::channel::<Reply>();
    let id2 = mux.submit(Command::Get { key: b"k2".to_vec() });
    let pending2 = mux.take_next().unwrap();
    deliver_reply(tx2, make_reply(&pending2, CommandOutcome::Absent));
    let got = rx2.try_recv().expect("later callers are unaffected");
    assert_eq!(got.id, id2);
}

#[test]
fn connection_failure_reaches_only_its_caller() {
    let (tx, mut rx) = tokio::sync::oneshot::channel::<Reply>();
    let mut mux = Multiplexer::new();
    let id = mux.submit(Command::Get { key: b"k".to_vec() });
    let pending = mux.take_next().unwrap();
    deliver_reply(
        tx,
        make_reply(&pending, CommandOutcome::ConnFailed("connection reset".to_string())),
    );
    let got = rx.try_recv().unwrap();
    assert_eq!(got.id, id);
    assert!(matches!(got.outcome, CommandOutcome::ConnFailed(ref m) if m == "connection reset"));
}
