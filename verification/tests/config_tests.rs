use monsgeek_profile_switcher::config::{
    find_inactive_env_path, get_config_dir, get_config_path, get_daemon_port, load_env,
    needs_inactive_env, open_dir_in_file_manager, overrides_existing, parse_port, parse_profile, ConfigVars,
    DirVars, EnvLocation, EnvSource, OpenAction, Platform, SwitcherConfig, DEFAULT_STATUS_PORT,
};

fn no_dir_vars() -> DirVars {
    DirVars { appdata: None, userprofile: None, home: None, xdg_config_home: None }
}

fn no_config_vars() -> ConfigVars {
    ConfigVars {
        on_connect_profile: None,
        profile_chat: None,
        profile_game: None,
        status_port: None,
        profile_toggle_hotkey: None,
    }
}

#[test]
fn default_env_contents_match_spec() {
    let s = SwitcherConfig::default_env_contents();
    assert!(s.contains("ON_CONNECT_PROFILE=2"));
    assert!(s.contains("PROFILE_CHAT=2"));
    assert!(s.contains("PROFILE_GAME=1"));
}

#[test]
fn windows_config_dir_prefers_appdata() {
    let mut vars = no_dir_vars();
    vars.appdata = Some("C:\\Users\\me\\AppData\\Roaming".to_string());
    vars.userprofile = Some("C:\\Users\\me".to_string());
    let parts = get_config_dir("switcher", Platform::Windows, &vars);
    assert_eq!(parts, vec!["C:\\Users\\me\\AppData\\Roaming", "monsgeek-profile-switcher", "switcher"]);
}

#[test]
fn windows_config_dir_falls_back_to_userprofile() {
    let mut vars = no_dir_vars();
    vars.userprofile = Some("C:\\Users\\me".to_string());
    let parts = get_config_dir("switcher", Platform::Windows, &vars);
    assert_eq!(
        parts,
        vec!["C:\\Users\\me", "AppData", "Roaming", "monsgeek-profile-switcher", "switcher"]
    );
}

#[test]
fn macos_config_dir_is_under_application_support() {
    let mut vars = no_dir_vars();
    vars.home = Some("/Users/me".to_string());
    let parts = get_config_dir("switcher", Platform::MacOs, &vars);
    assert_eq!(
        parts,
        vec!["/Users/me", "Library", "Application Support", "monsgeek-profile-switcher", "switcher"]
    );
}

#[test]
fn linux_config_dir_prefers_xdg_then_home() {
    let mut vars = no_dir_vars();
    vars.home = Some("/home/me".to_string());
    assert_eq!(
        get_config_dir("switcher", Platform::Linux, &vars),
        vec!["/home/me", ".config", "monsgeek-profile-switcher", "switcher"]
    );
    vars.xdg_config_home = Some("/xdg".to_string());
    assert_eq!(
        get_config_dir("switcher", Platform::Linux, &vars),
        vec!["/xdg", "monsgeek-profile-switcher", "switcher"]
    );
}

#[test]
fn unset_home_gives_an_empty_first_component() {
    let parts = get_config_dir("switcher", Platform::MacOs, &no_dir_vars());
    assert_eq!(parts[0], "");
}

#[test]
fn other_platforms_use_the_working_folder() {
    assert_eq!(get_config_dir("switcher", Platform::Other, &no_dir_vars()), vec![".", "switcher"]);
}

#[test]
fn config_path_appends_dot_env() {
    let mut vars = no_dir_vars();
    vars.xdg_config_home = Some("/xdg".to_string());
    assert_eq!(
        get_config_path("switcher", Platform::Linux, &vars),
        vec!["/xdg", "monsgeek-profile-switcher", "switcher", ".env"]
    );
}

#[test]
fn profiles_outside_one_to_four_fall_back() {
    assert_eq!(parse_profile(Some("3"), 2), 3);
    assert_eq!(parse_profile(Some("  4\n"), 2), 4);
    assert_eq!(parse_profile(Some("+1"), 2), 1);
    assert_eq!(parse_profile(Some("0"), 2), 2);
    assert_eq!(parse_profile(Some("5"), 1), 1);
    assert_eq!(parse_profile(Some("256"), 2), 2);
    assert_eq!(parse_profile(Some("two"), 2), 2);
    assert_eq!(parse_profile(Some(""), 1), 1);
    assert_eq!(parse_profile(None, 1), 1);
}

#[test]
fn port_must_be_a_nonzero_u16() {
    assert_eq!(parse_port(Some("8080")), 8080);
    assert_eq!(parse_port(Some(" 65535 ")), 65535);
    assert_eq!(parse_port(Some("65536")), DEFAULT_STATUS_PORT);
    assert_eq!(parse_port(Some("0")), DEFAULT_STATUS_PORT);
    assert_eq!(parse_port(Some("-1")), DEFAULT_STATUS_PORT);
    assert_eq!(parse_port(None), 38415);
}

#[test]
fn load_applies_every_default() {
    let c = SwitcherConfig::load(&no_config_vars());
    assert_eq!(c.on_connect_profile, 2);
    assert_eq!(c.profile_chat, 2);
    assert_eq!(c.profile_game, 1);
    assert_eq!(c.status_port, 38415);
    assert_eq!(c.profile_toggle_hotkey, "Home");
}

#[test]
fn load_reads_every_variable() {
    let vars = ConfigVars {
        on_connect_profile: Some("1".to_string()),
        profile_chat: Some("3".to_string()),
        profile_game: Some("4".to_string()),
        status_port: Some("4000".to_string()),
        profile_toggle_hotkey: Some("Ctrl+F9".to_string()),
    };
    let c = SwitcherConfig::load(&vars);
    assert_eq!(c.on_connect_profile, 1);
    assert_eq!(c.profile_chat, 3);
    assert_eq!(c.profile_game, 4);
    assert_eq!(c.status_port, 4000);
    assert_eq!(c.profile_toggle_hotkey, "Ctrl+F9");
    assert_eq!(get_daemon_port("switcher", &vars), 4000);
}

#[test]
fn a_blank_hotkey_means_home() {
    let mut vars = no_config_vars();
    vars.profile_toggle_hotkey = Some("   ".to_string());
    assert_eq!(SwitcherConfig::load(&vars).profile_toggle_hotkey, "Home");
    vars.profile_toggle_hotkey = Some(" End ".to_string());
    assert_eq!(SwitcherConfig::load(&vars).profile_toggle_hotkey, " End ");
}

#[test]
fn inactive_env_search_next_to_a_plain_executable() {
    let s = find_inactive_env_path(Some("/opt/switcher"), false);
    assert_eq!(
        s.candidates,
        vec![
            EnvLocation::ExeDirAppType,
            EnvLocation::ExeDir,
            EnvLocation::CwdAppType,
            EnvLocation::Cwd
        ]
    );
    assert_eq!(s.fallback, EnvLocation::Cwd);
}

#[test]
fn inactive_env_search_skips_a_build_folder() {
    let s = find_inactive_env_path(Some("/src/app/target/debug"), false);
    assert_eq!(
        s.candidates,
        vec![EnvLocation::ExeDirAppType, EnvLocation::CwdAppType, EnvLocation::Cwd]
    );
    assert_eq!(s.fallback, EnvLocation::Cwd);
}

#[test]
fn inactive_env_search_beside_an_app_bundle() {
    let s = find_inactive_env_path(Some("/Users/me/Downloads/Switcher.app/Contents/MacOS"), true);
    assert_eq!(
        s.candidates,
        vec![
            EnvLocation::ExeDirAppType,
            EnvLocation::BundleParentAppType,
            EnvLocation::BundleParent
        ]
    );
    assert_eq!(s.fallback, EnvLocation::BundleParentAppType);
    let s = find_inactive_env_path(Some("/Users/me/Downloads/Switcher.app/Contents/MacOS"), false);
    assert_eq!(s.fallback, EnvLocation::Cwd);
    assert_eq!(s.candidates.len(), 4);
}

#[test]
fn inactive_env_search_without_an_executable_path() {
    let s = find_inactive_env_path(None, true);
    assert_eq!(s.candidates, vec![EnvLocation::CwdAppType, EnvLocation::Cwd]);
    assert_eq!(s.fallback, EnvLocation::Cwd);
}

#[test]
fn env_files_load_lowest_priority_first() {
    assert_eq!(load_env(true, true, true), vec![EnvSource::Installed, EnvSource::WorkingDir]);
    assert_eq!(load_env(false, false, true), vec![EnvSource::Inactive]);
    assert_eq!(load_env(false, false, false), Vec::<EnvSource>::new());
    assert_eq!(load_env(false, true, true), vec![EnvSource::WorkingDir]);
    assert_eq!(load_env(true, false, true), vec![EnvSource::Installed]);
    assert!(needs_inactive_env(false, false));
    assert!(!needs_inactive_env(true, false));
    assert!(!needs_inactive_env(false, true));
}

#[test]
fn folders_open_with_each_platforms_file_manager() {
    assert_eq!(open_dir_in_file_manager(Platform::Windows, false, false, false), OpenAction::Explorer);
    assert_eq!(open_dir_in_file_manager(Platform::MacOs, false, false, false), OpenAction::Open);
    assert_eq!(
        open_dir_in_file_manager(Platform::MacOs, true, true, false),
        OpenAction::RevealEnvInBundle
    );
    assert_eq!(open_dir_in_file_manager(Platform::MacOs, true, false, false), OpenAction::RevealBundle);
    assert_eq!(open_dir_in_file_manager(Platform::Linux, false, false, true), OpenAction::XdgOpen);
    assert_eq!(open_dir_in_file_manager(Platform::Linux, false, false, false), OpenAction::Nothing);
    assert_eq!(open_dir_in_file_manager(Platform::Other, false, false, true), OpenAction::Nothing);
}

#[test]
fn only_the_shipped_inactive_env_leaves_set_variables_alone() {
    assert!(!overrides_existing(EnvSource::Inactive));
    assert!(overrides_existing(EnvSource::Installed));
    assert!(overrides_existing(EnvSource::WorkingDir));
}
