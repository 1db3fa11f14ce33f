use monsgeek_profile_switcher::daemon::{http_response, Reported};
use monsgeek_profile_switcher::status::{describe, field, parse, DaemonStatus};

const HEAD: &str = "HTTP/1.1 200 OK\r\nContent-Type: application/json\r\n\r\n";

#[test]
fn parses_a_full_response() {
    let s = parse(&format!(
        "{}{}",
        HEAD, r#"{"connected":true,"profile":2,"chat":true,"game":false}"#
    ));
    assert!(s.keyboard_connected);
    assert_eq!(s.profile, Some(2));
    assert_eq!(s.chat, Some(true));
    assert_eq!(s.game, Some(false));
}

#[test]
fn null_fields_read_as_none() {
    let s = parse(&format!(
        "{}{}",
        HEAD, r#"{"connected":true,"profile":null,"chat":null,"game":null}"#
    ));
    assert!(s.keyboard_connected);
    assert_eq!(s.profile, None);
    assert_eq!(s.chat, None);
    assert_eq!(s.game, None);
}

#[test]
fn disconnected_keyboard() {
    let s = parse(&format!(
        "{}{}",
        HEAD, r#"{"connected":false,"profile":null,"chat":null,"game":null}"#
    ));
    assert!(!s.keyboard_connected);
    assert_eq!(s.chat, None);
}

#[test]
fn tolerates_whitespace_between_tokens() {
    let s = parse(&format!(
        "{}{}",
        HEAD, "{ \"connected\" : true , \"profile\" : 3 , \"chat\" : false , \"game\" : true }"
    ));
    assert!(s.keyboard_connected);
    assert_eq!(s.profile, Some(3));
    assert_eq!(s.chat, Some(false));
    assert_eq!(s.game, Some(true));
}

/// Anything we cannot read must degrade to "nothing known", never panic.
#[test]
fn unknown_body_is_not_an_error() {
    let s = parse(&format!("{}{}", HEAD, "alive"));
    assert!(!s.keyboard_connected);
    assert_eq!(s.profile, None);
    assert_eq!(s.chat, None);

    let s = parse(&format!("{}{}", HEAD, r#"{"connected":"#));
    assert!(!s.keyboard_connected);
}

#[test]
fn describe_covers_the_states_the_gui_shows() {
    assert_eq!(describe(None), "(daemon not running)");
    assert_eq!(describe(Some(&DaemonStatus::default())), "(keyboard not connected)");
    let on_game = DaemonStatus {
        keyboard_connected: true,
        profile: Some(1),
        chat: Some(false),
        game: Some(true),
    };
    assert_eq!(describe(Some(&on_game)), "profile 1 - game");

    let on_neither = DaemonStatus {
        keyboard_connected: true,
        profile: Some(3),
        chat: Some(false),
        game: Some(false),
    };
    assert_eq!(describe(Some(&on_neither)), "profile 3");
}

#[test]
fn describe_prefers_chat_and_admits_an_unknown_profile() {
    let both = DaemonStatus {
        keyboard_connected: true,
        profile: Some(2),
        chat: Some(true),
        game: Some(true),
    };
    assert_eq!(describe(Some(&both)), "profile 2 - chat");
    let unknown = DaemonStatus { keyboard_connected: true, profile: None, chat: None, game: None };
    assert_eq!(describe(Some(&unknown)), "unknown (could not send to the keyboard)");
}

#[test]
fn a_response_without_a_header_is_read_whole() {
    let s = parse(r#"{"connected":true,"profile":2,"chat":true,"game":false}"#);
    assert!(s.keyboard_connected);
    assert_eq!(s.profile, Some(2));
    assert_eq!(s.chat, Some(true));
}

#[test]
fn out_of_range_and_malformed_values_read_as_none() {
    let s = parse(&format!(
        "{}{}",
        HEAD, r#"{"connected":yes,"profile":300,"chat":1,"game":"true"}"#
    ));
    assert!(!s.keyboard_connected);
    assert_eq!(s.profile, None);
    assert_eq!(s.chat, None);
    assert_eq!(s.game, None);
}

#[test]
fn field_reads_the_raw_text_up_to_the_next_delimiter() {
    let v = field(r#"{"a": 12 ,"b":x}"#, "a").unwrap();
    assert_eq!(v.iter().collect::<String>(), "12");
    let v = field(r#"{"a":1,"b": x }"#, "b").unwrap();
    assert_eq!(v.iter().collect::<String>(), "x");
    assert!(field(r#"{"a":1}"#, "c").is_none());
    assert!(field(r#"{"a" 1}"#, "a").is_none());
}

#[test]
fn what_the_daemon_publishes_reads_back_the_same() {
    let mut r = Reported::new(2, 1);
    for &(connected, profile) in &[(false, None), (true, None), (true, Some(2)), (true, Some(1)), (true, Some(4))] {
        r.publish(connected, profile);
        let body = r.body();
        let s = parse(&http_response(&body));
        assert_eq!(s.keyboard_connected, connected);
        assert_eq!(s.profile, profile);
        assert_eq!(s.chat, profile.map(|p| p == 2));
        assert_eq!(s.game, profile.map(|p| p == 1));
    }
}
