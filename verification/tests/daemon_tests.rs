use monsgeek_profile_switcher::daemon::{
    http_response, json_bool, json_bool_or_null, json_or_null, KeyboardWatch, Observation,
    ProfileState, Reported, Retry,
};

#[test]
fn a_new_record_knows_nothing() {
    let r = Reported::new(2, 1);
    assert_eq!(r.body(), r#"{"connected":false,"profile":null,"chat":null,"game":null}"#);
}

#[test]
fn chat_and_game_follow_the_profile() {
    let mut r = Reported::new(2, 1);
    r.publish(true, Some(2));
    assert_eq!(r.body(), r#"{"connected":true,"profile":2,"chat":true,"game":false}"#);
    r.publish(true, Some(3));
    assert_eq!(r.body(), r#"{"connected":true,"profile":3,"chat":false,"game":false}"#);
    r.publish(true, None);
    assert_eq!(r.body(), r#"{"connected":true,"profile":null,"chat":null,"game":null}"#);
    let mut same = Reported::new(1, 1);
    same.publish(true, Some(1));
    assert_eq!(same.body(), r#"{"connected":true,"profile":1,"chat":true,"game":true}"#);
}

#[test]
fn json_scalars() {
    assert_eq!(json_bool(true), "true");
    assert_eq!(json_bool(false), "false");
    assert_eq!(json_or_null(Some(255)), "255");
    assert_eq!(json_or_null(Some(0)), "0");
    assert_eq!(json_or_null(None), "null");
    assert_eq!(json_bool_or_null(Some(false)), "false");
    assert_eq!(json_bool_or_null(None), "null");
}

#[test]
fn the_http_response_counts_the_body_in_bytes() {
    let r = http_response("{}");
    assert_eq!(
        r,
        "HTTP/1.1 200 OK\r\nContent-Type: application/json\r\nContent-Length: 2\r\nConnection: close\r\n\r\n{}"
    );
    let r = http_response("é");
    assert!(r.contains("Content-Length: 2\r\n"));
    assert!(r.ends_with("\r\n\r\né"));
}

#[test]
fn a_profile_is_sent_once() {
    let mut st = ProfileState::default();
    assert!(st.needs_send(2));
    assert!(!st.record_send(2, true));
    assert!(!st.needs_send(2));
    assert!(st.needs_send(1));
    st.forget();
    assert!(st.needs_send(2));
    assert_eq!(st, ProfileState { last_sent: None, failed_for: None });
}

#[test]
fn a_failure_is_reported_once_per_profile() {
    let mut st = ProfileState::default();
    assert!(st.record_send(3, false));
    assert!(!st.record_send(3, false));
    assert!(st.needs_send(3));
    assert!(st.record_send(4, false));
    assert!(st.record_send(3, false));
    assert!(!st.record_send(3, true));
    assert_eq!(st.last_sent, Some(3));
}

#[test]
fn a_failure_after_a_success_is_reported_again() {
    let mut st = ProfileState::default();
    assert!(st.record_send(1, false));
    assert!(!st.record_send(1, true));
    assert!(st.record_send(1, false));
    assert_eq!(st.last_sent, Some(1));
    assert_eq!(st.failed_for, Some(1));
}

#[test]
fn the_watch_tracks_the_keyboard_path() {
    let mut w = KeyboardWatch::new(2, 2, 1);
    assert_eq!(w.observe(None), Observation::Absent);
    assert_eq!(w.observe(Some("/dev/hidraw3")), Observation::Arrived);
    w.connect("/dev/hidraw3".to_string(), true);
    assert_eq!(w.observe(Some("/dev/hidraw3")), Observation::Same);
    assert_eq!(w.observe(Some("/dev/hidraw5")), Observation::Arrived);
    assert_eq!(w.state.last_sent, Some(2));
    assert_eq!(w.observe(None), Observation::Lost);
    w.lose();
    assert_eq!(w.observe(None), Observation::Absent);
    assert_eq!(w.state, ProfileState { last_sent: None, failed_for: None });
    assert_eq!(w.last_path, None);
}

#[test]
fn a_failed_connect_sends_again_later() {
    let mut w = KeyboardWatch::new(3, 2, 1);
    w.connect("p".to_string(), false);
    assert!(w.state.needs_send(3));
    assert_eq!(w.observe(Some("p")), Observation::Same);
}

#[test]
fn the_hotkey_alternates_between_chat_and_game() {
    let mut w = KeyboardWatch::new(2, 2, 1);
    assert!(w.chat);
    assert_eq!(w.toggle(), 1);
    assert_eq!(w.toggle(), 2);
    assert_eq!(w.toggle(), 1);
    w.connect("p".to_string(), true);
    assert!(w.chat);
    assert_eq!(w.toggle(), 1);
}

#[test]
fn the_toggle_starts_from_the_on_connect_profile() {
    let mut w = KeyboardWatch::new(1, 2, 1);
    assert!(!w.chat);
    assert_eq!(w.toggle(), 2);
}

#[test]
fn retries_stop_after_the_last_attempt() {
    let mut r = Retry::new(3);
    assert!(r.after_failure());
    assert!(r.after_failure());
    assert!(!r.after_failure());
    assert_eq!(r.made, 3);
    let mut once = Retry::new(1);
    assert!(!once.after_failure());
}
