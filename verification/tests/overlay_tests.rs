use monsgeek_profile_switcher::overlay::{overlay_origin, overlay_text, popup_origin, to_wide};
use monsgeek_profile_switcher::utils::{console_plan, is_double_clicked};
use monsgeek_profile_switcher::config::Platform;

#[test]
fn the_popup_names_the_mode_and_profile() {
    assert_eq!(overlay_text(2, true), "Chat (Profile 2)");
    assert_eq!(overlay_text(1, false), "Game (Profile 1)");
    assert_eq!(overlay_text(255, false), "Game (Profile 255)");
}

#[test]
fn the_popup_is_centred_above_the_bottom_edge() {
    assert_eq!(overlay_origin(0, 1920, 1080), (830, 920));
    assert_eq!(overlay_origin(1920, 4480, 1440), (1920 + 1150, 1280));
    // A monitor narrower than the popup: Rust's division rounds toward zero.
    assert_eq!(overlay_origin(0, 100, 200), (-80, 40));
    assert_eq!(overlay_origin(0, 259, 0), (0, -160));
    assert_eq!(overlay_origin(-1920, 0, 1080), (-1920 + 830, 920));
}

#[test]
fn wide_strings_are_nul_terminated_utf16() {
    assert_eq!(to_wide(""), vec![0]);
    assert_eq!(to_wide("Ab"), vec![0x41, 0x62, 0]);
    let s = "é😀";
    let expected: Vec<u16> = s.encode_utf16().chain(std::iter::once(0)).collect();
    assert_eq!(to_wide(s), expected);
    assert_eq!(to_wide("😀"), vec![0xD83D, 0xDE00, 0]);
}

#[test]
fn double_click_detection() {
    assert!(is_double_clicked(Platform::MacOs, false, false));
    assert!(!is_double_clicked(Platform::MacOs, true, true));
    assert!(is_double_clicked(Platform::Linux, true, false));
    assert!(!is_double_clicked(Platform::Linux, false, false));
    assert!(!is_double_clicked(Platform::Linux, true, true));
}

#[test]
fn redirected_handles_are_kept() {
    let p = console_plan(true, true, true);
    assert!(p.restore_out && p.restore_err && !p.open_conout && p.restore_in && !p.open_conin);
    let p = console_plan(false, true, false);
    assert!(!p.restore_out && p.restore_err && p.open_conout && p.conout_to_out && !p.conout_to_err);
    assert!(!p.restore_in && p.open_conin);
}

#[test]
fn an_unknown_monitor_falls_back_to_a_1080p_screen() {
    assert_eq!(popup_origin(None), (830, 920));
    assert_eq!(popup_origin(Some((100, 2660, 1440))), (100 + 1150, 1280));
}
