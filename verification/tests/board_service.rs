use message_board::{
    is_valid_user, validate, Message, MessageLog, PostError, ServerStatus, ServiceError,
    ValidationError,
};

fn service(started_at: i64) -> ServerStatus<MessageLog> {
    ServerStatus::new("TestChat".to_string(), started_at, MessageLog::new())
}

fn msg(user: &str, content: &str) -> Message {
    Message { user: user.to_string(), content: content.to_string() }
}

#[test]
fn empty_board() {
    let s = service(1_000);
    let b = s.get_board(1_000).unwrap();
    assert_eq!(b.title, "TestChat");
    assert_eq!(b.time, 1_000);
    assert_eq!(b.started_at, 1_000);
    assert_eq!(b.time, b.started_at);
    assert!(b.messages.is_empty());
}

#[test]
fn single_post_then_read() {
    let mut s = service(1_000);
    assert!(s.post_message(msg("alice", "hi"), 1_500).is_ok());
    let b = s.get_board(2_000).unwrap();
    assert_eq!(b.messages.len(), 1);
    assert_eq!(b.messages[0].user, "alice");
    assert_eq!(b.messages[0].content, "hi");
    assert_eq!(b.messages[0].time, 1_500);
}

#[test]
fn rejected_post_leaves_board_unchanged() {
    let mut s = service(1_000);
    let before = s.get_board(1_000).unwrap().messages.len();
    let r = s.post_message(msg("", "hi"), 1_500);
    assert_eq!(r, Err(PostError::InvalidUser));
    let after = s.get_board(2_000).unwrap().messages.len();
    assert_eq!(before, after);
}

#[test]
fn user_length_boundary() {
    let user_32 = "a".repeat(32);
    let user_33 = "a".repeat(33);
    assert!(is_valid_user(&user_32));
    assert!(!is_valid_user(&user_33));
    assert!(!is_valid_user(""));

    let mut s = service(0);
    assert!(s.post_message(msg(&user_32, "x"), 1).is_ok());
    assert_eq!(s.post_message(msg(&user_33, "x"), 2), Err(PostError::InvalidUser));
    assert_eq!(s.post_message(msg("bob", ""), 3), Err(PostError::EmptyContent));
    assert!(s.post_message(msg("bob", "y"), 4).is_ok());
    assert_eq!(s.get_board(5).unwrap().messages.len(), 2);
}

#[test]
fn user_length_counts_utf8_bytes() {
    // Two-byte characters: 17 of them make 34 bytes, over the limit even
    // though only 17 characters; 16 of them make exactly 32 bytes.
    let wide_17 = "\u{e4}".repeat(17);
    let wide_16 = "\u{e4}".repeat(16);
    assert_eq!(wide_17.len(), 34);
    assert_eq!(wide_16.len(), 32);
    assert!(!is_valid_user(&wide_17));
    assert!(is_valid_user(&wide_16));

    let mut s = service(0);
    assert_eq!(s.post_message(msg(&wide_17, "x"), 1), Err(PostError::InvalidUser));
    assert!(s.post_message(msg(&wide_16, "x"), 2).is_ok());
    assert_eq!(s.get_board(3).unwrap().messages.len(), 1);
}

#[test]
fn validate_reports_user_before_content() {
    assert_eq!(validate(&msg("alice", "hi")), Ok(()));
    assert_eq!(validate(&msg("", "hi")), Err(ValidationError::InvalidUser));
    assert_eq!(validate(&msg("alice", "")), Err(ValidationError::EmptyContent));
    assert_eq!(validate(&msg("", "")), Err(ValidationError::InvalidUser));
}

#[test]
fn snapshot_times_non_decreasing() {
    let mut s = service(100);
    let b1 = s.get_board(150).unwrap();
    s.post_message(msg("alice", "hi"), 160).unwrap();
    let b2 = s.get_board(200).unwrap();
    let b3 = s.get_board(200).unwrap();
    assert!(b1.time <= b2.time && b2.time <= b3.time);
    assert_eq!(b1.started_at, b2.started_at);
    assert_eq!(b2.started_at, b3.started_at);
}

#[test]
fn appends_are_kept_in_order() {
    let mut s = service(0);
    s.post_message(msg("a", "first"), 1).unwrap();
    s.post_message(msg("b", "second"), 2).unwrap();
    s.post_message(msg("c", "third"), 3).unwrap();
    let b = s.get_board(4).unwrap();
    assert_eq!(b.messages.len(), 3);
    let contents: Vec<&str> = b.messages.iter().map(|m| m.content.as_str()).collect();
    assert_eq!(contents, vec!["first", "second", "third"]);
    let times: Vec<i64> = b.messages.iter().map(|m| m.time).collect();
    assert_eq!(times, vec![1, 2, 3]);
}

#[test]
fn clock_backed_service_round_trip() {
    let mut s = service(0);
    assert!(s.post_message_now(msg("alice", "hi")).is_ok());
    let b = s.get_board_now().unwrap();
    assert_eq!(b.started_at, 0);
    assert!(b.time >= b.started_at);
    assert_eq!(b.messages.len(), 1);
    assert_eq!(b.messages[0].user, "alice");
    // The wall clock assigned the message time; it is far past the epoch.
    assert!(b.messages[0].time > 0);
    assert_eq!(s.post_message_now(msg("", "hi")), Err(PostError::InvalidUser));
}

#[test]
fn clock_started_service_is_empty_and_consistent() {
    let s = ServerStatus::start_now("T".to_string(), MessageLog::new());
    let b = s.get_board_now().unwrap();
    assert_eq!(b.title, "T");
    assert!(b.time >= b.started_at);
    assert!(b.messages.is_empty());
}

#[test]
fn store_faults_surface_uniformly() {
    let e = message_board::service::service_error_of(&message_board::StoreError::Corrupt);
    assert_eq!(e, ServiceError::StoreUnavailable);
    let e = message_board::service::service_error_of(&message_board::StoreError::Unavailable);
    assert_eq!(e, ServiceError::StoreUnavailable);
}
