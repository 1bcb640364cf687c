use std::time::{Duration, Instant, SystemTime, UNIX_EPOCH};

use canela_server::access::{
    login_outcome, plan_connection, registration_outcome, ConnectError, ConnectPlan,
    ConnectionAttempt, ServerPolicy, INITIAL_CONNECTIONS_LEFT,
};
use canela_server::decimal::decimal_text;
use canela_server::delivery::{handle_sending, offline_save_outcome, ConnectedUsers, Delivery};
use canela_server::feedback::{
    error_kind, receive_step, sending_step, FrameKind, MessageSend, MessageSendError,
    ReceiveAction, ReciverFeedback, SendAction,
};
use canela_server::messages::{
    BLOBMessageRecivedRaw, ChatErrors, IncomingMessage, TextMessageRecivedRaw, ToProcessed,
};
use canela_server::session::{
    token_still_valid, SessionTable, LATEST_CHECK_TIME, SESSION_LIFETIME_TICKS, TICKS_PER_SECOND,
    TIME_TOLERANCE_TICKS,
};

fn attempt(password: &str, token: &str) -> ConnectionAttempt {
    ConnectionAttempt { password: password.to_string(), user: "ana".to_string(), token: token.to_string() }
}

fn text(to: &str, payload: &str) -> TextMessageRecivedRaw {
    TextMessageRecivedRaw { payload: payload.to_string(), destination: to.to_string() }
}

fn is_uuid_v4(t: &str) -> bool {
    let chars: Vec<char> = t.chars().collect();
    chars.len() == 36
        && chars.iter().enumerate().all(|(i, c)| {
            if i == 8 || i == 13 || i == 18 || i == 23 {
                *c == '-'
            } else {
                c.is_ascii_digit() || ('a'..='f').contains(c)
            }
        })
        && chars[14] == '4'
}

/// Waits until the clock is early in a second, so that a token issued next stays
/// valid for the checks that follow; returns that whole second in ticks.
fn fresh_second() -> u64 {
    loop {
        let now = SystemTime::now().duration_since(UNIX_EPOCH).unwrap();
        if now.subsec_millis() < 300 {
            return now.as_secs() * TICKS_PER_SECOND;
        }
    }
}

fn is_chrono_utc_text(t: &str) -> bool {
    let Some(body) = t.strip_suffix(" UTC") else { return false };
    let Some((date, time)) = body.split_once(' ') else { return false };
    let d: Vec<&str> = date.split('-').collect();
    let digits = |s: &str, n: usize| s.len() == n && s.chars().all(|c| c.is_ascii_digit());
    if d.len() != 3 || !(d[0].len() >= 4 && d[0].chars().all(|c| c.is_ascii_digit())) || !digits(d[1], 2) || !digits(d[2], 2) {
        return false;
    }
    let (clock, frac) = match time.split_once('.') {
        Some((c, f)) => (c, Some(f)),
        None => (time, None),
    };
    let c: Vec<&str> = clock.split(':').collect();
    if c.len() != 3 || !c.iter().all(|p| digits(p, 2)) {
        return false;
    }
    match frac {
        None => true,
        Some(f) => (f.len() == 3 || f.len() == 6 || f.len() == 9) && f.chars().all(|c| c.is_ascii_digit()),
    }
}

#[test]
fn wrong_password_is_rejected() {
    let p = ServerPolicy::current();
    match plan_connection(&attempt("secret", ""), &p) {
        ConnectPlan::Reject(e) => {
            assert_eq!(e, ConnectError::WrongPassword);
            assert_eq!(e.message(), "Wrong password");
        }
        other => panic!("unexpected plan {:?}", other),
    }
    match plan_connection(&attempt("secret", "some-token"), &p) {
        ConnectPlan::Reject(e) => assert_eq!(e, ConnectError::WrongPassword),
        other => panic!("unexpected plan {:?}", other),
    }
}

#[test]
fn client_without_token_is_registered_with_fresh_uuid() {
    let p = ServerPolicy::current();
    match plan_connection(&attempt("", ""), &p) {
        ConnectPlan::Register { token, connections_left } => {
            assert!(is_uuid_v4(&token), "{}", token);
            assert_eq!(connections_left, INITIAL_CONNECTIONS_LEFT);
            assert_eq!(connections_left, 20);
        }
        other => panic!("unexpected plan {:?}", other),
    }
}

#[test]
fn client_with_token_is_looked_up() {
    let p = ServerPolicy::current();
    match plan_connection(&attempt("", "tok-1"), &p) {
        ConnectPlan::Resume { token } => assert_eq!(token, "tok-1"),
        other => panic!("unexpected plan {:?}", other),
    }
}

#[test]
fn server_policy_defaults() {
    let p = ServerPolicy::current();
    assert!(p.require_password);
    assert!(p.can_generate_new_tokens);
    assert_eq!(p.password, "");
}

#[test]
fn policy_without_password_or_registration() {
    let p = ServerPolicy { require_password: false, can_generate_new_tokens: false, password: "x".to_string() };
    match plan_connection(&attempt("anything", ""), &p) {
        ConnectPlan::Resume { token } => assert_eq!(token, ""),
        other => panic!("unexpected plan {:?}", other),
    }
}

#[test]
fn registration_errors() {
    let mut sessions = SessionTable::new();
    let r = registration_outcome(&mut sessions, "t".to_string(), false, Some(3));
    assert_eq!(r.unwrap_err(), ConnectError::InsertFailed);
    assert_eq!(ConnectError::InsertFailed.message(), "Error inserting new user the db");
    let r = registration_outcome(&mut sessions, "t".to_string(), true, None);
    assert_eq!(r.unwrap_err(), ConnectError::NewUserNotFound);
    assert_eq!(ConnectError::NewUserNotFound.message(), "Weird unreacheble error?");
    assert_eq!(sessions.is_valid_connection(&"t".to_string(), &"x".to_string()), None);
}

#[test]
fn registration_issues_session() {
    fresh_second();
    let mut sessions = SessionTable::new();
    let token = "9b2d3f7e-1c4a-4b8e-9f00-123456789abc".to_string();
    let reply = registration_outcome(&mut sessions, token.clone(), true, Some(42)).unwrap();
    assert_eq!(reply.token, token);
    assert_eq!(reply.session_token.split('.').count(), 3);
    assert_eq!(sessions.is_valid_connection(&token, &reply.session_token), Some(true));
}

#[test]
fn login_of_unknown_user_fails() {
    let mut sessions = SessionTable::new();
    let r = login_outcome(&mut sessions, &"nobody".to_string(), None);
    assert_eq!(r.unwrap_err(), ConnectError::UserNotInServer);
    assert_eq!(ConnectError::UserNotInServer.message(), "User not In the Server");
    assert_eq!(ConnectError::SessionNotIssued.message(), "Could not sign a session token");
}

#[test]
fn login_of_known_user_says_established() {
    fresh_second();
    let mut sessions = SessionTable::new();
    let token = "tok-7".to_string();
    let reply = login_outcome(&mut sessions, &token, Some(7)).unwrap();
    assert_eq!(reply.token, "Connection stablished");
    assert_eq!(sessions.is_valid_connection(&token, &reply.session_token), Some(true));
}

#[test]
fn session_lookup_after_issue() {
    fresh_second();
    let mut sessions = SessionTable::new();
    let a = "user-a".to_string();
    let b = "user-b".to_string();
    assert_eq!(sessions.is_valid_connection(&a, &"jwt".to_string()), None);
    let ta = sessions.add_valid_connection(&a, "1".to_string()).unwrap();
    assert_eq!(sessions.is_valid_connection(&a, &ta), Some(true));
    assert_eq!(sessions.is_valid_connection(&b, &ta), None);
    let tb = sessions.add_valid_connection(&b, "2".to_string()).unwrap();
    assert_eq!(sessions.is_valid_connection(&a, &ta), Some(true));
    assert_eq!(sessions.is_valid_connection(&b, &tb), Some(true));
    // A token signed for one user does not verify under another user's key.
    assert_eq!(sessions.is_valid_connection(&b, &ta), Some(false));
}

#[test]
fn reissuing_replaces_the_key() {
    fresh_second();
    let mut sessions = SessionTable::new();
    let a = "user-a".to_string();
    let first = sessions.add_valid_connection(&a, "1".to_string()).unwrap();
    let second = sessions.add_valid_connection(&a, "1".to_string()).unwrap();
    assert_eq!(sessions.is_valid_connection(&a, &second), Some(true));
    assert_eq!(sessions.is_valid_connection(&a, &first), Some(false));
}

#[test]
fn garbage_session_token_is_invalid() {
    let mut sessions = SessionTable::new();
    let a = "user-a".to_string();
    sessions.add_valid_connection(&a, "1".to_string()).unwrap();
    assert_eq!(sessions.is_valid_connection(&a, &"not a token".to_string()), Some(false));
}

#[test]
fn session_token_expires_after_a_second() {
    fresh_second();
    let mut sessions = SessionTable::new();
    let a = "user-a".to_string();
    let t = sessions.add_valid_connection(&a, "1".to_string()).unwrap();
    assert_eq!(sessions.is_valid_connection(&a, &t), Some(true));
    let start = Instant::now();
    while start.elapsed() < Duration::from_millis(1300) {}
    assert_eq!(sessions.is_valid_connection(&a, &t), Some(false));
}

#[test]
fn token_validity_rule() {
    assert!(token_still_valid(Some(Some(100)), 100));
    assert!(token_still_valid(Some(Some(100)), 99));
    assert!(!token_still_valid(Some(Some(100)), 101));
    assert!(!token_still_valid(Some(None), 0));
    assert!(!token_still_valid(None, 0));
}

#[test]
fn decimal_texts() {
    assert_eq!(decimal_text(0), "0");
    assert_eq!(decimal_text(7), "7");
    assert_eq!(decimal_text(10), "10");
    assert_eq!(decimal_text(305), "305");
    assert_eq!(decimal_text(usize::MAX), usize::MAX.to_string());
}

#[test]
fn error_reports_as_json() {
    assert_eq!(
        MessageSendError::from_error("User Dont exist").format(),
        "{\"kind\":\"User Dont exist\"}"
    );
    assert_eq!(
        MessageSendError::from_error("say \"hi\"\n").format(),
        "{\"kind\":\"say \\\"hi\\\"\\n\"}"
    );
    assert_eq!(MessageSendError::from_error("abc").kind, "abc");
    assert_eq!(error_kind(ChatErrors::BadFormat), "Bad format!: Can serialize the JSON");
    assert_eq!(error_kind(ChatErrors::UserDontExist), "User Dont exist");
}

#[test]
fn sender_reports_errors_and_stops_when_closed() {
    let mut s = ReciverFeedback::new();
    assert!(!s.closed);
    assert!(s.error.is_none());
    assert!(matches!(sending_step(&s), SendAction::Wait));
    s.error = Some(ChatErrors::BadFormat);
    match sending_step(&s) {
        SendAction::Send(t) => assert_eq!(t, "{\"kind\":\"Bad format!: Can serialize the JSON\"}"),
        other => panic!("unexpected {:?}", other),
    }
    s.error = Some(ChatErrors::UserDontExist);
    match sending_step(&s) {
        SendAction::Send(t) => assert_eq!(t, "{\"kind\":\"User Dont exist\"}"),
        other => panic!("unexpected {:?}", other),
    }
    assert_eq!(receive_step(&mut s, FrameKind::Close), ReceiveAction::Stop);
    assert!(s.closed);
    assert!(matches!(sending_step(&s), SendAction::Stop));
}

#[test]
fn receiver_actions() {
    let mut s = ReciverFeedback::new();
    assert_eq!(receive_step(&mut s, FrameKind::Text), ReceiveAction::HandleText);
    assert_eq!(receive_step(&mut s, FrameKind::Binary), ReceiveAction::HandleBinary);
    assert_eq!(receive_step(&mut s, FrameKind::Other), ReceiveAction::Skip);
    assert!(!s.closed);
    receive_step(&mut s, FrameKind::Close);
    receive_step(&mut s, FrameKind::Text);
    assert!(s.closed);
}

#[test]
fn message_send_from_str() {
    assert_eq!(MessageSend::from_str("anything"), MessageSend {});
}

#[test]
fn processing_stamps_sender_and_time() {
    let m = text("bob", "hello").to_processed(&"ana".to_string());
    match &m {
        IncomingMessage::Text(t) => {
            assert_eq!(t.payload, "hello");
            assert_eq!(t.from, "ana");
            assert_eq!(t.to, "bob");
            assert!(is_chrono_utc_text(&t.time_sent), "{}", t.time_sent);
            assert!(t.time_sent.len() > 4);
        }
        other => panic!("unexpected {:?}", other),
    }
    assert_eq!(m.to(), "bob");
    let b = BLOBMessageRecivedRaw { payload: vec![1, 2, 3], destination: "carl".to_string() }
        .processed_at(&"ana".to_string(), "t0".to_string());
    match &b {
        IncomingMessage::Binary(v) => {
            assert_eq!(v.payload, vec![1, 2, 3]);
            assert_eq!(v.from, "ana");
            assert_eq!(v.time_sent, "t0");
        }
        other => panic!("unexpected {:?}", other),
    }
    assert_eq!(b.to(), "carl");
}

#[test]
fn delivery_to_online_user_keeps_order() {
    let mut users = ConnectedUsers::new();
    users.connect("bob".to_string());
    users.connect("carl".to_string());
    let d1 = handle_sending(&mut users, Some(text("bob", "one")), &"ana".to_string());
    let d2 = handle_sending(&mut users, Some(text("bob", "two")), &"ana".to_string());
    assert!(matches!(d1, Delivery::Delivered));
    assert!(matches!(d2, Delivery::Delivered));
    assert!(d1.error().is_none());
    let inbox = users.inbox(&"bob".to_string()).unwrap();
    assert_eq!(inbox.len(), 2);
    match (&inbox[0], &inbox[1]) {
        (IncomingMessage::Text(a), IncomingMessage::Text(b)) => {
            assert_eq!(a.payload, "one");
            assert_eq!(b.payload, "two");
            assert_eq!(a.from, "ana");
        }
        _ => panic!("unexpected inbox"),
    }
    assert_eq!(users.inbox(&"carl".to_string()).unwrap().len(), 0);
    // Connecting again keeps the inbox.
    users.connect("bob".to_string());
    assert_eq!(users.inbox(&"bob".to_string()).unwrap().len(), 2);
}

#[test]
fn delivery_to_offline_user_is_handed_back() {
    let mut users = ConnectedUsers::new();
    users.connect("bob".to_string());
    let d = handle_sending(
        &mut users,
        Some(BLOBMessageRecivedRaw { payload: vec![9], destination: "dave".to_string() }),
        &"ana".to_string(),
    );
    match d {
        Delivery::Offline(IncomingMessage::Binary(m)) => {
            assert_eq!(m.to, "dave");
            assert_eq!(m.payload, vec![9]);
            assert_eq!(m.from, "ana");
        }
        other => panic!("unexpected {:?}", other),
    }
    assert!(!users.is_online(&"dave".to_string()));
    assert_eq!(users.inbox(&"bob".to_string()).unwrap().len(), 0);
}

#[test]
fn unreadable_message_is_rejected() {
    let mut users = ConnectedUsers::new();
    users.connect("bob".to_string());
    let d = handle_sending::<TextMessageRecivedRaw>(&mut users, None, &"ana".to_string());
    assert_eq!(d.error(), Some(ChatErrors::BadFormat));
    assert_eq!(users.inbox(&"bob".to_string()).unwrap().len(), 0);
}

#[test]
fn offline_save_outcomes() {
    assert_eq!(offline_save_outcome(true), None);
    assert_eq!(offline_save_outcome(false), Some(ChatErrors::UserDontExist));
}

#[test]
fn recording_a_session_outcome() {
    let mut sessions = SessionTable::new();
    let a = "user-a".to_string();
    assert_eq!(sessions.record_session(&a, "1".to_string(), vec![7; 32], None), None);
    assert_eq!(sessions.is_valid_connection(&a, &"x".to_string()), None);
    assert_eq!(
        sessions.record_session(&a, "1".to_string(), vec![7; 32], Some("signed".to_string())),
        Some("signed".to_string())
    );
    // The recorded key is there, and a token it did not sign is refused.
    assert_eq!(sessions.is_valid_connection(&a, &"x".to_string()), Some(false));
}

#[test]
fn weak_recorded_key_never_validates() {
    let mut sessions = SessionTable::new();
    let a = "user-a".to_string();
    sessions.record_session(&a, "1".to_string(), vec![1, 2, 3], Some("t".to_string()));
    assert_eq!(sessions.is_valid_connection(&a, &"t".to_string()), Some(false));
}

#[test]
fn error_report_escapes_control_characters() {
    assert_eq!(
        MessageSendError::from_error("a\u{1}b\tc\\").format(),
        "{\"kind\":\"a\\u0001b\\tc\\\\\"}"
    );
    assert_eq!(MessageSendError::from_error("\u{1f}\u{8}\u{c}\r").format(), "{\"kind\":\"\\u001f\\b\\f\\r\"}");
}

#[test]
fn error_report_reads_back_as_json() {
    for kind in ["User Dont exist", "say \"hi\"", "tab\there", "\u{0}\u{1f}\\/", "ünïcødé ✓"] {
        let text = MessageSendError::from_error(kind).format();
        let value: serde_json::Value = serde_json::from_str(&text).unwrap();
        let object = value.as_object().unwrap();
        assert_eq!(object.len(), 1);
        assert_eq!(object.get("kind").unwrap().as_str().unwrap(), kind);
    }
}

#[test]
fn session_window_at_given_times() {
    let mut sessions = SessionTable::new();
    let a = "user-a".to_string();
    let issued = fresh_second();
    let t = sessions.add_valid_connection(&a, "1".to_string()).unwrap();
    let expiry = issued + SESSION_LIFETIME_TICKS;
    assert_eq!(SESSION_LIFETIME_TICKS, TICKS_PER_SECOND);
    assert_eq!(sessions.is_valid_connection_at(&a, &t, issued), Some(true));
    assert_eq!(sessions.is_valid_connection_at(&a, &t, expiry), Some(true));
    assert_eq!(sessions.is_valid_connection_at(&a, &t, expiry + 1), Some(false));
    assert_eq!(sessions.is_valid_connection_at(&a, &t, issued - TIME_TOLERANCE_TICKS), Some(true));
    assert_eq!(sessions.is_valid_connection_at(&a, &t, issued - TIME_TOLERANCE_TICKS - 1), Some(false));
    assert_eq!(sessions.is_valid_connection_at(&a, &"garbage".to_string(), issued), Some(false));
    assert_eq!(sessions.is_valid_connection_at(&"user-b".to_string(), &t, issued), None);
    assert_eq!(LATEST_CHECK_TIME, u64::MAX - TIME_TOLERANCE_TICKS);
    assert_eq!(TIME_TOLERANCE_TICKS, 900 * TICKS_PER_SECOND);
}

#[test]
fn binary_time_stamp_has_chrono_form() {
    let m = BLOBMessageRecivedRaw { payload: vec![1], destination: "bob".to_string() }
        .to_processed(&"ana".to_string());
    match m {
        IncomingMessage::Binary(v) => assert!(is_chrono_utc_text(&v.time_sent), "{}", v.time_sent),
        other => panic!("unexpected {:?}", other),
    }
}
