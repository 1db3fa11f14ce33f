use monsgeek_profile_switcher::cli::{
    parse_command, parse_profile_arg, parse_stress_mode, status_report, stress_profile,
    stress_seconds, Command, StressMode,
};
use monsgeek_profile_switcher::config::{ConfigVars, SwitcherConfig};

fn args(list: &[&str]) -> Vec<String> {
    list.iter().map(|s| s.to_string()).collect()
}

#[test]
fn no_command_shows_the_status() {
    assert_eq!(parse_command(&args(&["switcher"])), Command::Status);
    assert_eq!(parse_command(&args(&[])), Command::Status);
}

#[test]
fn simple_commands() {
    assert_eq!(parse_command(&args(&["x", "--help"])), Command::Help);
    assert_eq!(parse_command(&args(&["x", "-h"])), Command::Help);
    assert_eq!(parse_command(&args(&["x", "--list-hid"])), Command::ListHid);
    assert_eq!(parse_command(&args(&["x", "--get-profile", "ignored"])), Command::GetProfile);
    assert_eq!(parse_command(&args(&["x", "--daemon"])), Command::Daemon);
    assert_eq!(parse_command(&args(&["x", "--install"])), Command::Other);
    assert_eq!(parse_command(&args(&["x", "--HELP"])), Command::Other);
}

#[test]
fn set_profile_takes_one_to_four() {
    assert_eq!(parse_command(&args(&["x", "--set-profile", "3"])), Command::SetProfile(3));
    assert_eq!(parse_command(&args(&["x", "--set-profile", " 4 "])), Command::SetProfile(4));
    assert_eq!(parse_command(&args(&["x", "--set-profile", "5"])), Command::SetProfileUsage);
    assert_eq!(parse_command(&args(&["x", "--set-profile", "0"])), Command::SetProfileUsage);
    assert_eq!(parse_command(&args(&["x", "--set-profile"])), Command::SetProfileUsage);
    assert_eq!(parse_profile_arg(Some("x")), None);
    assert_eq!(parse_profile_arg(Some("+2")), Some(2));
}

#[test]
fn stress_takes_a_mode_and_seconds() {
    assert_eq!(
        parse_command(&args(&["x", "--stress", "switch", "10"])),
        Command::Stress { mode: StressMode::Switch, seconds: 10 }
    );
    assert_eq!(
        parse_command(&args(&["x", "--stress", "hid"])),
        Command::Stress { mode: StressMode::Hid, seconds: 30 }
    );
    assert_eq!(
        parse_command(&args(&["x", "--stress", "open", " 5"])),
        Command::Stress { mode: StressMode::Open, seconds: 30 }
    );
    assert_eq!(parse_command(&args(&["x", "--stress", "SEND"])), Command::StressUsage);
    assert_eq!(parse_command(&args(&["x", "--stress"])), Command::StressUsage);
    assert_eq!(stress_seconds(Some("18446744073709551615")), u64::MAX);
    assert_eq!(stress_seconds(Some("18446744073709551616")), 30);
    assert_eq!(parse_stress_mode("send"), Some(StressMode::Send));
    assert!(StressMode::Open.opens());
    assert!(!StressMode::Hid.writes());
    assert!(StressMode::Send.writes() && StressMode::Switch.writes());
}

#[test]
fn switch_flips_once_a_second() {
    let sent: Vec<u8> = (0..12).map(|t| stress_profile(StressMode::Switch, 1, t)).collect();
    assert_eq!(sent, vec![1, 1, 1, 1, 2, 2, 2, 2, 1, 1, 1, 1]);
    let sent: Vec<u8> = (0..9).map(|t| stress_profile(StressMode::Switch, 3, t)).collect();
    assert_eq!(sent, vec![3, 3, 3, 3, 1, 1, 1, 1, 3]);
    assert_eq!(stress_profile(StressMode::Send, 4, 5), 4);
}

#[test]
fn the_status_report() {
    let vars = ConfigVars {
        on_connect_profile: None,
        profile_chat: Some("3".to_string()),
        profile_game: None,
        status_port: None,
        profile_toggle_hotkey: None,
    };
    let config = SwitcherConfig::load(&vars);
    let r = status_report(true, false, "profile 3 - chat", "/usr/bin/s", "/home/me/.env", &config);
    assert_eq!(
        r,
        "MonsGeek Profile Switcher Status\n\n[Status]\n\
         - Installed:      Yes\n\
         - Running:        No\n\
         - Current:        profile 3 - chat\n\
         - Executable:     /usr/bin/s\n\
         - Configuration:  /home/me/.env\n\
         - On connect:     profile 2\n\
         - Chat:           profile 3\n\
         - Game:           profile 1\n\
         - Status port:    127.0.0.1:38415"
    );
    let r = status_report(false, true, "(daemon not running)", "/ignored", "c", &config);
    assert!(r.contains("- Installed:      No\n- Running:        Yes\n"));
    assert!(r.contains("- Executable:     (Will be set upon installation)\n"));
    assert!(!r.contains("/ignored"));
}
