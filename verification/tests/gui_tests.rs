use monsgeek_profile_switcher::gui::{
    button_states, chat_cell, executable_cell, flag_cell, game_cell, install_label,
    keyboard_cell, profile_cell, profile_setting_text, Action, Feedback,
};
use monsgeek_profile_switcher::status::DaemonStatus;

#[test]
fn cells_without_a_daemon_are_dimmed_placeholders() {
    let k = keyboard_cell(None);
    assert_eq!((k.text.as_str(), k.weak), ("(daemon not running)", true));
    let p = profile_cell(None);
    assert_eq!((p.text.as_str(), p.weak), ("-", true));
    let c = chat_cell(None);
    assert_eq!((c.text.as_str(), c.weak), ("-", true));
}

#[test]
fn cells_show_what_the_daemon_publishes() {
    let s = DaemonStatus { keyboard_connected: true, profile: Some(3), chat: Some(false), game: Some(true) };
    let k = keyboard_cell(Some(&s));
    assert_eq!((k.text.as_str(), k.weak), ("Connected", false));
    let p = profile_cell(Some(&s));
    assert_eq!((p.text.as_str(), p.weak), ("3", false));
    let c = chat_cell(Some(&s));
    assert_eq!((c.text.as_str(), c.weak), ("No", false));
    let g = game_cell(Some(&s));
    assert_eq!((g.text.as_str(), g.weak), ("Yes", false));
    let off = DaemonStatus::default();
    assert_eq!(keyboard_cell(Some(&off)).text, "Not connected");
    assert_eq!(profile_cell(Some(&off)).text, "-");
    assert_eq!(flag_cell(None).text, "-");
}

#[test]
fn executable_and_settings_cells() {
    let e = executable_cell(true, "C:\\Program Files\\s.exe");
    assert_eq!((e.text.as_str(), e.weak), ("C:\\Program Files\\s.exe", false));
    let e = executable_cell(false, "C:\\x");
    assert_eq!((e.text.as_str(), e.weak), ("(Will be set upon installation)", true));
    assert_eq!(profile_setting_text(4), "profile 4");
    assert_eq!(install_label(true), "Reinstall / Update");
    assert_eq!(install_label(false), "Install Service");
}

#[test]
fn buttons_follow_the_installation() {
    let b = button_states(false, false, false);
    assert!(b.install && !b.uninstall && b.open_folder && !b.daemon_row);
    let b = button_states(true, true, false);
    assert!(b.install && b.uninstall && b.daemon_row && !b.start && b.stop);
    let b = button_states(true, false, true);
    assert!(b.start && !b.stop);
    let b = button_states(false, false, true);
    assert!(!b.install && !b.uninstall && !b.open_folder && !b.start && !b.stop);
}

#[test]
fn feedback_after_actions() {
    let mut f = Feedback::new("A=1\n".to_string());
    assert!(f.message.is_none());
    f.begin(Action::Install);
    assert_eq!(f.message.as_deref(), Some("Installing service..."));
    f.failed(Action::Install, "access denied");
    assert_eq!(f.message.as_deref(), Some("Installation failed: access denied"));
    assert!(f.is_error);
    f.begin(Action::StartDaemon);
    assert!(!f.is_error);
    f.succeeded(Action::StartDaemon, "B=2\n".to_string());
    assert_eq!(f.message.as_deref(), Some("Daemon successfully started!"));
    assert_eq!(f.active_env, "B=2\n");
    f.succeeded(Action::Uninstall, "ignored".to_string());
    assert_eq!(f.message.as_deref(), Some("Service successfully uninstalled!"));
    assert_eq!(f.active_env, "");
    f.folder_failed("no such folder");
    assert_eq!(f.message.as_deref(), Some("Could not open folder: no such folder"));
    assert!(Action::Install.waits_for_daemon() && Action::StartDaemon.waits_for_daemon());
    assert!(!Action::StopDaemon.waits_for_daemon());
    assert_eq!(Action::StopDaemon.failure(), "Failed to stop daemon: ");
    assert_eq!(Action::Uninstall.progress(), "Uninstalling service...");
}

#[test]
fn a_changed_configuration_asks_for_a_restart_only_while_running() {
    let mut f = Feedback::new("A=1\n".to_string());
    f.refresh(true, "A=1\n");
    assert!(!f.env_changed);
    f.refresh(true, "A=2\n");
    assert!(f.env_changed);
    assert!(f.shows_restart_warning(true));
    assert!(!f.shows_restart_warning(false));
    f.refresh(false, "A=2\n");
    assert!(!f.env_changed);
    f.refresh(true, "A=2\n");
    f.succeeded(Action::StopDaemon, "A=2\n".to_string());
    assert!(!f.env_changed);
    f.refresh(true, "A=2\n");
    assert!(!f.env_changed);
}
