use message_board::store::{check_insert_count, rows_to_messages};
use message_board::{bindgen, build_board, LogStore, MessageLog, StoreError, StoredMessage};

#[test]
fn in_memory_store_round_trip() {
    let mut log = MessageLog::new();
    assert_eq!(log.read_all().unwrap().len(), 0);
    log.append(StoredMessage { time: 1, user: "a".to_string(), content: "x".to_string() })
        .unwrap();
    log.append(StoredMessage { time: 2, user: "b".to_string(), content: "y".to_string() })
        .unwrap();
    let all = log.read_all().unwrap();
    assert_eq!(all.len(), 2);
    assert_eq!(all[0].user, "a");
    assert_eq!(all[1].user, "b");
    assert_eq!(all[0].time, 1);
    assert_eq!(all[1].time, 2);
}

#[test]
fn rows_decode_in_order() {
    let rows = vec![
        (10_i64, "alice".to_string(), "hi".to_string()),
        (20_i64, "bob".to_string(), "yo".to_string()),
    ];
    let msgs = rows_to_messages(&rows);
    assert_eq!(msgs.len(), 2);
    assert_eq!(msgs[0].time, 10);
    assert_eq!(msgs[0].user, "alice");
    assert_eq!(msgs[0].content, "hi");
    assert_eq!(msgs[1].time, 20);
    assert_eq!(msgs[1].user, "bob");
    assert_eq!(msgs[1].content, "yo");

    let none: Vec<(i64, String, String)> = vec![];
    assert!(rows_to_messages(&none).is_empty());
}

#[test]
fn insert_count_must_be_one() {
    assert_eq!(check_insert_count(1), Ok(()));
    assert_eq!(check_insert_count(0), Err(StoreError::Corrupt));
    assert_eq!(check_insert_count(2), Err(StoreError::Corrupt));
}

#[test]
fn board_builder_copies_everything() {
    let msgs = vec![StoredMessage { time: 3, user: "a".to_string(), content: "x".to_string() }];
    let title = "Board".to_string();
    let b = build_board(&title, 1, 5, msgs);
    assert_eq!(b.title, "Board");
    assert_eq!(b.started_at, 1);
    assert_eq!(b.time, 5);
    assert_eq!(b.messages.len(), 1);
    assert_eq!(b.messages[0].content, "x");
}

#[test]
fn bindgen_collects_every_error_in_order() {
    let ok: Vec<Result<(), String>> = vec![Ok(()), Ok(())];
    assert!(bindgen(ok).is_ok());

    let none: Vec<Result<(), String>> = vec![];
    assert!(bindgen(none).is_ok());

    let mixed: Vec<Result<(), String>> =
        vec![Ok(()), Err("one".to_string()), Ok(()), Err("two".to_string())];
    let errs = bindgen(mixed).unwrap_err();
    assert_eq!(errs, vec!["one".to_string(), "two".to_string()]);
}
