use std::collections::BTreeMap;
use std::ops::Bound;

use db_wrap::codec::DataLevel;
use db_wrap::database::DbWrap;
use db_wrap::engine::{Action, BatchOp, Event, Reply};
use db_wrap::error::DbError;
use db_wrap::operation::Operation;

type Store = BTreeMap<Vec<u8>, Vec<u8>>;

/// Carries an operation out against an ordered map held in memory and
/// returns its outcome with the list of requests it made.
fn drive(store: &mut Store, mut op: Operation) -> (Result<Reply, DbError>, Vec<String>) {
    let mut trace: Vec<String> = Vec::new();
    let mut cursor: Option<Vec<u8>> = None;
    let mut event = Event::Start;
    for _ in 0..10_000 {
        let action = op.step(event);
        event = match action {
            Action::Open(path) => {
                trace.push(format!("open {}", path));
                Event::Opened
            }
            Action::Get(k) => {
                trace.push("get".to_string());
                Event::Value(store.get(&k).cloned())
            }
            Action::Put(k, v) => {
                trace.push("put".to_string());
                store.insert(k, v);
                Event::Applied
            }
            Action::Delete(k) => {
                trace.push("delete".to_string());
                store.remove(&k);
                Event::Applied
            }
            Action::Batch(ops, sync) => {
                trace.push(format!("batch {} {}", ops.len(), sync));
                for entry in ops {
                    match entry {
                        BatchOp::Put(k, v) => {
                            store.insert(k, v);
                        }
                        BatchOp::Delete(k) => {
                            store.remove(&k);
                        }
                    }
                }
                Event::Applied
            }
            Action::Seek(start) => {
                trace.push("seek".to_string());
                cursor = store.range(start..).next().map(|(k, _)| k.clone());
                Event::Key(cursor.clone())
            }
            Action::Next => {
                trace.push("next".to_string());
                cursor = match cursor.take() {
                    Some(at) => store
                        .range((Bound::Excluded(at), Bound::Unbounded))
                        .next()
                        .map(|(k, _)| k.clone()),
                    None => None,
                };
                Event::Key(cursor.clone())
            }
            Action::Flush => {
                trace.push("flush".to_string());
                Event::Applied
            }
            Action::Done(outcome) => return (outcome, trace),
        };
    }
    panic!("the operation did not end");
}

fn wrap() -> DbWrap<u32> {
    DbWrap::new("/data")
}

fn seeded() -> Store {
    let w = wrap();
    let mut store = Store::new();
    for k in ["a/1", "a/2", "b/1"] {
        let (r, _) = drive(&mut store, w.put(k.as_bytes(), k.as_bytes().to_vec(), 3, false, "s"));
        assert_eq!(r, Ok(Reply::Unit));
    }
    store
}

#[test]
fn put_then_get_gives_payload_back() {
    let w = wrap();
    let mut store = Store::new();
    let (r, trace) = drive(&mut store, w.put(b"k", vec![9, 8, 7], 4, false, "s"));
    assert_eq!(r, Ok(Reply::Unit));
    assert_eq!(trace, vec!["open /data/s", "get", "put"]);
    assert_eq!(store.get(&b"k".to_vec()), Some(&vec![10, 4, 10, 9, 8, 7]));
    let (r, trace) = drive(&mut store, w.get(b"k", "s"));
    assert_eq!(r, Ok(Reply::Value(Some(vec![9, 8, 7]))));
    assert_eq!(trace, vec!["open /data/s", "get"]);
}

#[test]
fn replies_hand_out_what_they_carry() {
    assert_eq!(Reply::Value(Some(vec![1, 2])).into_value(), Some(vec![1, 2]));
    assert_eq!(Reply::Value(None).into_value(), None);
    assert_eq!(Reply::Unit.into_value(), None);
    assert_eq!(Reply::Entries(vec![(vec![1], vec![2])]).into_value(), None);
    assert_eq!(
        Reply::Entries(vec![(vec![1], vec![2])]).into_entries(),
        vec![(vec![1], vec![2])]
    );
    assert_eq!(Reply::Unit.into_entries(), Vec::new());
    assert_eq!(Reply::Value(Some(vec![1])).into_entries(), Vec::new());
}

#[test]
fn get_of_absent_key_gives_none() {
    let w = wrap();
    let mut store = Store::new();
    let (r, _) = drive(&mut store, w.get(b"nothing", "s"));
    assert_eq!(r, Ok(Reply::Value(None)));
}

#[test]
fn get_of_unlabelled_record_gives_it_whole() {
    let w = wrap();
    let mut store = Store::new();
    store.insert(b"raw".to_vec(), vec![1, 2, 3, 4]);
    let (r, _) = drive(&mut store, w.get(b"raw", "s"));
    assert_eq!(r, Ok(Reply::Value(Some(vec![1, 2, 3, 4]))));
}

#[test]
fn overwrite_gate_by_level() {
    let w = wrap();
    let mut store = Store::new();
    let (r, _) = drive(&mut store, w.put(b"k", vec![1], 5, false, "s"));
    assert_eq!(r, Ok(Reply::Unit));

    // below the stored level, not forced: turned down, nothing written
    let (r, trace) = drive(&mut store, w.put(b"k", vec![2], 3, false, "s"));
    assert_eq!(r, Err(DbError::LevelConflict { attempted: 3, existing: 5 }));
    assert_eq!(trace, vec!["open /data/s", "get"]);
    assert_eq!(store.get(&b"k".to_vec()), Some(&vec![10, 5, 10, 1]));

    // at the stored level: goes through without force
    let (r, _) = drive(&mut store, w.put(b"k", vec![3], 5, false, "s"));
    assert_eq!(r, Ok(Reply::Unit));
    assert_eq!(store.get(&b"k".to_vec()), Some(&vec![10, 5, 10, 3]));

    // above the stored level: goes through and the stored level rises
    let (r, _) = drive(&mut store, w.put(b"k", vec![4], 7, false, "s"));
    assert_eq!(r, Ok(Reply::Unit));
    assert_eq!(store.get(&b"k".to_vec()), Some(&vec![10, 7, 10, 4]));

    // forced: goes through below the stored level, which follows the write
    let (r, _) = drive(&mut store, w.put(b"k", vec![5], 0, true, "s"));
    assert_eq!(r, Ok(Reply::Unit));
    assert_eq!(store.get(&b"k".to_vec()).unwrap().data_lv(), 0);
}

#[test]
fn record_at_level_five() {
    let w = wrap();
    let mut store = Store::new();
    store.insert(b"k".to_vec(), vec![10, 5, 10, 1]);

    // a put at level 3 without force fails and writes nothing
    let (r, _) = drive(&mut store, w.put(b"k", vec![2], 3, false, "s"));
    assert_eq!(r, Err(DbError::LevelConflict { attempted: 3, existing: 5 }));
    assert_eq!(store.get(&b"k".to_vec()), Some(&vec![10, 5, 10, 1]));
    let (r, _) = drive(&mut store, w.get(b"k", "s"));
    assert_eq!(r, Ok(Reply::Value(Some(vec![1]))));

    // the same put, forced: goes through, the stored level becomes 3
    let mut forced = store.clone();
    let (r, _) = drive(&mut forced, w.put(b"k", vec![2], 3, true, "s"));
    assert_eq!(r, Ok(Reply::Unit));
    assert_eq!(forced.get(&b"k".to_vec()), Some(&vec![10, 3, 10, 2]));
    assert_eq!(forced.get(&b"k".to_vec()).unwrap().data_lv(), 3);

    // a put at level 7 without force goes through
    let (r, _) = drive(&mut store, w.put(b"k", vec![2], 7, false, "s"));
    assert_eq!(r, Ok(Reply::Unit));
    assert_eq!(store.get(&b"k".to_vec()), Some(&vec![10, 7, 10, 2]));
    let (r, _) = drive(&mut store, w.get(b"k", "s"));
    assert_eq!(r, Ok(Reply::Value(Some(vec![2]))));
}

#[test]
fn interrupted_run_leaves_a_prefix_of_the_puts() {
    // many forced puts to distinct keys, cut off after any number of
    // requests: the store holds the first few keys, whole, and no others
    let w = wrap();
    let total: u32 = 40;
    for budget in 0..(3 * total as usize + 2) {
        let mut store = Store::new();
        let mut spent = 0usize;
        'puts: for i in 0..total {
            let key = format!("key-{:05}", i).into_bytes();
            let mut op = w.put(&key, vec![(i % 256) as u8], 1, true, "power_test");
            let mut event = Event::Start;
            loop {
                if spent == budget {
                    break 'puts;
                }
                spent += 1;
                event = match op.step(event) {
                    Action::Open(_) => Event::Opened,
                    Action::Get(k) => Event::Value(store.get(&k).cloned()),
                    Action::Put(k, v) => {
                        store.insert(k, v);
                        Event::Applied
                    }
                    Action::Done(outcome) => {
                        assert_eq!(outcome, Ok(Reply::Unit));
                        break;
                    }
                    other => panic!("a put asked for {:?}", other),
                };
            }
        }
        let (r, _) = drive(&mut store, w.get_prefix(b"key-", "power_test"));
        let entries = match r {
            Ok(Reply::Entries(entries)) => entries,
            other => panic!("prefix read ended with {:?}", other),
        };
        assert!(entries.len() <= total as usize);
        for (i, (key, payload)) in entries.iter().enumerate() {
            assert_eq!(key, &format!("key-{:05}", i).into_bytes());
            assert_eq!(payload, &vec![(i % 256) as u8]);
        }
    }
}

#[test]
fn unlabelled_record_counts_as_default_level() {
    let w = wrap();
    let mut store = Store::new();
    store.insert(b"k".to_vec(), vec![42]);
    let (r, _) = drive(&mut store, w.put(b"k", vec![1], 2, false, "s"));
    assert_eq!(r, Err(DbError::LevelConflict { attempted: 2, existing: 3 }));
    assert_eq!(store.get(&b"k".to_vec()), Some(&vec![42]));
    let (r, _) = drive(&mut store, w.put(b"k", vec![1], 3, false, "s"));
    assert_eq!(r, Ok(Reply::Unit));
    assert_eq!(store.get(&b"k".to_vec()), Some(&vec![10, 3, 10, 1]));
}

#[test]
fn rejected_batch_writes_nothing() {
    let w = wrap();
    let mut store = Store::new();
    let (r, _) = drive(&mut store, w.put(b"k3", vec![9], 5, true, "s"));
    assert_eq!(r, Ok(Reply::Unit));
    let before = store.clone();
    let pairs = vec![
        (b"k1".to_vec(), vec![1]),
        (b"k2".to_vec(), vec![2]),
        (b"k3".to_vec(), vec![3]),
    ];
    let (r, trace) = drive(&mut store, w.put_batch(pairs, 3, false, "s"));
    assert_eq!(r, Err(DbError::LevelConflict { attempted: 3, existing: 5 }));
    assert_eq!(trace, vec!["open /data/s", "get", "get", "get"]);
    assert_eq!(store, before);
    let (r, _) = drive(&mut store, w.get(b"k1", "s"));
    assert_eq!(r, Ok(Reply::Value(None)));
    let (r, _) = drive(&mut store, w.get(b"k2", "s"));
    assert_eq!(r, Ok(Reply::Value(None)));
    let (r, _) = drive(&mut store, w.get(b"k3", "s"));
    assert_eq!(r, Ok(Reply::Value(Some(vec![9]))));
}

#[test]
fn rejected_batch_stops_at_the_first_conflict() {
    let w = wrap();
    let mut store = Store::new();
    store.insert(b"a".to_vec(), vec![10, 8, 10, 0]);
    store.insert(b"c".to_vec(), vec![10, 9, 10, 0]);
    let before = store.clone();
    let pairs = vec![
        (b"a".to_vec(), vec![1]),
        (b"b".to_vec(), vec![2]),
        (b"c".to_vec(), vec![3]),
    ];
    let (r, trace) = drive(&mut store, w.put_batch(pairs.clone(), 4, false, "s"));
    assert_eq!(r, Err(DbError::LevelConflict { attempted: 4, existing: 8 }));
    assert_eq!(trace, vec!["open /data/s", "get"]);
    assert_eq!(store, before);

    // forced, the same batch goes through whole
    let (r, _) = drive(&mut store, w.put_batch(pairs, 4, true, "s"));
    assert_eq!(r, Ok(Reply::Unit));
    assert_eq!(store.get(&b"a".to_vec()), Some(&vec![10, 4, 10, 1]));
    assert_eq!(store.get(&b"b".to_vec()), Some(&vec![10, 4, 10, 2]));
    assert_eq!(store.get(&b"c".to_vec()), Some(&vec![10, 4, 10, 3]));
}

#[test]
fn accepted_batch_writes_every_pair_at_once() {
    let w = wrap();
    let mut store = Store::new();
    let pairs = vec![
        (b"a".to_vec(), vec![1]),
        (b"b".to_vec(), vec![2]),
        (b"c".to_vec(), vec![3]),
    ];
    let (r, trace) = drive(&mut store, w.put_batch(pairs, 4, false, "s"));
    assert_eq!(r, Ok(Reply::Unit));
    assert_eq!(trace, vec!["open /data/s", "get", "get", "get", "batch 3 true"]);
    assert_eq!(store.get(&b"a".to_vec()), Some(&vec![10, 4, 10, 1]));
    assert_eq!(store.get(&b"b".to_vec()), Some(&vec![10, 4, 10, 2]));
    assert_eq!(store.get(&b"c".to_vec()), Some(&vec![10, 4, 10, 3]));
}

#[test]
fn batch_checks_see_the_state_before_the_batch() {
    let w = wrap();
    let mut store = Store::new();
    let pairs = vec![(b"a".to_vec(), vec![1]), (b"a".to_vec(), vec![2])];
    let (r, _) = drive(&mut store, w.put_batch(pairs, 9, false, "s"));
    assert_eq!(r, Ok(Reply::Unit));
    assert_eq!(store.get(&b"a".to_vec()), Some(&vec![10, 9, 10, 2]));
}

#[test]
fn empty_batch_goes_through() {
    let w = wrap();
    let mut store = Store::new();
    let (r, trace) = drive(&mut store, w.put_batch(Vec::new(), 1, false, "s"));
    assert_eq!(r, Ok(Reply::Unit));
    assert_eq!(trace, vec!["open /data/s", "batch 0 true"]);
}

#[test]
fn prefix_scan_returns_matching_keys_in_order() {
    let w = wrap();
    let mut store = seeded();
    let (r, trace) = drive(&mut store, w.get_prefix(b"a/", "s"));
    assert_eq!(
        r,
        Ok(Reply::Entries(vec![
            (b"a/1".to_vec(), b"a/1".to_vec()),
            (b"a/2".to_vec(), b"a/2".to_vec()),
        ]))
    );
    // the scan stops at the first key past the prefix
    assert_eq!(trace, vec!["open /data/s", "seek", "next", "next", "get", "get"]);
    let (r, _) = drive(&mut store, w.get_prefix(b"", "s"));
    assert_eq!(
        r,
        Ok(Reply::Entries(vec![
            (b"a/1".to_vec(), b"a/1".to_vec()),
            (b"a/2".to_vec(), b"a/2".to_vec()),
            (b"b/1".to_vec(), b"b/1".to_vec()),
        ]))
    );
    let (r, _) = drive(&mut store, w.get_prefix(b"c", "s"));
    assert_eq!(r, Ok(Reply::Entries(Vec::new())));
}

#[test]
fn prefix_delete_removes_matching_keys_only() {
    let w = wrap();
    let mut store = seeded();
    let (r, trace) = drive(&mut store, w.delete_prefix(b"a/", "s"));
    assert_eq!(r, Ok(Reply::Unit));
    assert_eq!(
        trace,
        vec!["open /data/s", "seek", "next", "next", "delete", "delete", "flush"]
    );
    let (r, _) = drive(&mut store, w.get_prefix(b"a/", "s"));
    assert_eq!(r, Ok(Reply::Entries(Vec::new())));
    let (r, _) = drive(&mut store, w.get(b"b/1", "s"));
    assert_eq!(r, Ok(Reply::Value(Some(b"b/1".to_vec()))));
}

#[test]
fn prefix_delete_with_no_match_does_not_flush() {
    let w = wrap();
    let mut store = seeded();
    let (r, trace) = drive(&mut store, w.delete_prefix(b"zz", "s"));
    assert_eq!(r, Ok(Reply::Unit));
    assert_eq!(trace, vec!["open /data/s", "seek"]);
    assert_eq!(store.len(), 3);
}

#[test]
fn empty_prefix_deletes_everything() {
    let w = wrap();
    let mut store = seeded();
    let (r, _) = drive(&mut store, w.delete_prefix(b"", "s"));
    assert_eq!(r, Ok(Reply::Unit));
    assert!(store.is_empty());
}

#[test]
fn delete_of_absent_key_goes_through() {
    let w = wrap();
    let mut store = Store::new();
    let (r, trace) = drive(&mut store, w.delete(b"nothing", "s"));
    assert_eq!(r, Ok(Reply::Unit));
    assert_eq!(trace, vec!["open /data/s", "delete", "flush"]);
    let (r, _) = drive(&mut store, w.delete(b"nothing", "s"));
    assert_eq!(r, Ok(Reply::Unit));
}

#[test]
fn delete_ignores_levels() {
    let w = wrap();
    let mut store = Store::new();
    let (r, _) = drive(&mut store, w.put(b"k", vec![1], 255, true, "s"));
    assert_eq!(r, Ok(Reply::Unit));
    let (r, _) = drive(&mut store, w.delete(b"k", "s"));
    assert_eq!(r, Ok(Reply::Unit));
    assert!(store.is_empty());
}

#[test]
fn delete_batch_removes_every_key_then_flushes() {
    let w = wrap();
    let mut store = seeded();
    let keys = vec![b"a/1".to_vec(), b"b/1".to_vec(), b"gone".to_vec()];
    let (r, trace) = drive(&mut store, w.delete_batch(keys, "s"));
    assert_eq!(r, Ok(Reply::Unit));
    assert_eq!(trace, vec!["open /data/s", "batch 3 false", "flush"]);
    assert_eq!(store.keys().cloned().collect::<Vec<_>>(), vec![b"a/2".to_vec()]);
}

#[test]
fn flush_asks_for_a_flush() {
    let w = wrap();
    let mut store = Store::new();
    let (r, trace) = drive(&mut store, w.flush("s"));
    assert_eq!(r, Ok(Reply::Unit));
    assert_eq!(trace, vec!["open /data/s", "flush"]);
}

#[test]
fn open_failure_is_an_open_error() {
    let w = wrap();
    let mut op = w.get(b"k", "s");
    assert_eq!(op.step(Event::Start), Action::Open("/data/s".to_string()));
    let action = op.step(Event::Failed("no such directory".to_string()));
    assert_eq!(action, Action::Done(Err(DbError::Open("no such directory".to_string()))));
    assert!(op.is_finished());
}

#[test]
fn engine_failure_is_an_engine_error() {
    let w = wrap();
    let mut op = w.put(b"k", vec![1], 1, false, "s");
    assert_eq!(op.step(Event::Start), Action::Open("/data/s".to_string()));
    assert_eq!(op.step(Event::Opened), Action::Get(b"k".to_vec()));
    assert_eq!(op.step(Event::Value(None)), Action::Put(b"k".to_vec(), vec![10, 1, 10, 1]));
    let action = op.step(Event::Failed("disk full".to_string()));
    assert_eq!(action, Action::Done(Err(DbError::Engine("disk full".to_string()))));
}

#[test]
fn answer_out_of_turn_ends_the_operation() {
    let w = wrap();
    let mut op = w.get(b"k", "s");
    assert_eq!(op.step(Event::Start), Action::Open("/data/s".to_string()));
    assert_eq!(op.step(Event::Opened), Action::Get(b"k".to_vec()));
    let action = op.step(Event::Applied);
    assert_eq!(
        action,
        Action::Done(Err(DbError::Engine("engine answered out of turn".to_string())))
    );
    let again = op.step(Event::Value(None));
    assert_eq!(
        again,
        Action::Done(Err(DbError::Engine("engine answered out of turn".to_string())))
    );
}

#[test]
fn vanished_key_is_passed_over_by_prefix_read() {
    let w = wrap();
    let mut op = w.get_prefix(b"a", "s");
    assert_eq!(op.step(Event::Start), Action::Open("/data/s".to_string()));
    assert_eq!(op.step(Event::Opened), Action::Seek(b"a".to_vec()));
    assert_eq!(op.step(Event::Key(Some(b"a1".to_vec()))), Action::Next);
    assert_eq!(op.step(Event::Key(Some(b"a2".to_vec()))), Action::Next);
    assert_eq!(op.step(Event::Key(None)), Action::Get(b"a1".to_vec()));
    assert_eq!(op.step(Event::Value(None)), Action::Get(b"a2".to_vec()));
    let action = op.step(Event::Value(Some(vec![10, 1, 10, 7])));
    assert_eq!(action, Action::Done(Ok(Reply::Entries(vec![(b"a2".to_vec(), vec![7])]))));
}

/// A small deterministic generator, enough to vary keys and levels.
fn next_random(state: &mut u64) -> u64 {
    *state = state.wrapping_mul(6364136223846793005).wrapping_add(1442695040888963407);
    *state >> 33
}

fn random_key(state: &mut u64) -> Vec<u8> {
    let len = next_random(state) % 4;
    (0..len).map(|_| b"ab/"[(next_random(state) % 3) as usize]).collect()
}

#[test]
fn operations_agree_with_a_plain_map() {
    let w = wrap();
    let mut state = 7u64;
    let mut store = Store::new();
    let mut plain: BTreeMap<Vec<u8>, (u8, Vec<u8>)> = BTreeMap::new();
    for round in 0..3000u32 {
        let key = random_key(&mut state);
        match next_random(&mut state) % 7 {
            0 | 1 | 2 => {
                let lv = (next_random(&mut state) % 6) as u8;
                let force = next_random(&mut state) % 4 == 0;
                let value = vec![(round % 251) as u8, lv];
                let (r, _) = drive(&mut store, w.put(&key, value.clone(), lv, force, "s"));
                let held = plain.get(&key).map(|(held, _)| *held);
                match held {
                    Some(held) if lv < held && !force => {
                        let conflict = DbError::LevelConflict { attempted: lv, existing: held };
                        assert_eq!(r, Err(conflict));
                    }
                    _ => {
                        assert_eq!(r, Ok(Reply::Unit));
                        plain.insert(key, (lv, value));
                    }
                }
            }
            3 => {
                let (r, _) = drive(&mut store, w.get(&key, "s"));
                assert_eq!(r, Ok(Reply::Value(plain.get(&key).map(|(_, v)| v.clone()))));
            }
            4 => {
                let (r, _) = drive(&mut store, w.get_prefix(&key, "s"));
                let expected: Vec<(Vec<u8>, Vec<u8>)> = plain
                    .iter()
                    .filter(|(k, _)| k.starts_with(&key))
                    .map(|(k, (_, v))| (k.clone(), v.clone()))
                    .collect();
                assert_eq!(r, Ok(Reply::Entries(expected)));
            }
            5 => {
                if next_random(&mut state) % 3 == 0 {
                    let (r, _) = drive(&mut store, w.delete_prefix(&key, "s"));
                    assert_eq!(r, Ok(Reply::Unit));
                    plain.retain(|k, _| !k.starts_with(&key));
                } else {
                    let (r, _) = drive(&mut store, w.delete(&key, "s"));
                    assert_eq!(r, Ok(Reply::Unit));
                    plain.remove(&key);
                }
            }
            _ => {
                let lv = (next_random(&mut state) % 6) as u8;
                let pairs: Vec<(Vec<u8>, Vec<u8>)> = (0..next_random(&mut state) % 4)
                    .map(|i| (random_key(&mut state), vec![i as u8]))
                    .collect();
                let before = store.clone();
                let (r, _) = drive(&mut store, w.put_batch(pairs.clone(), lv, false, "s"));
                let blocked = pairs.iter().find_map(|(k, _)| {
                    plain.get(k).map(|(held, _)| *held).filter(|held| lv < *held)
                });
                match blocked {
                    Some(held) => {
                        let conflict = DbError::LevelConflict { attempted: lv, existing: held };
                        assert_eq!(r, Err(conflict));
                        assert_eq!(store, before);
                    }
                    None => {
                        assert_eq!(r, Ok(Reply::Unit));
                        for (k, v) in pairs {
                            plain.insert(k, (lv, v));
                        }
                    }
                }
            }
        }
        assert_eq!(store.len(), plain.len());
    }
    for (k, (lv, v)) in &plain {
        let stored = store.get(k).unwrap();
        assert_eq!(stored.data_lv(), *lv);
        assert_eq!(&stored.data_without_lv(), v);
    }
}
