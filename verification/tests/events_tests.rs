use monsgeek_profile_switcher::events::{
    loop_action, rechecks_on, registration_modifiers, LoopAction, DBT_DEVICEARRIVAL,
    DBT_DEVICEREMOVECOMPLETE, HOTKEY_ID, WM_DEVICECHANGE, WM_HOTKEY,
};
use monsgeek_profile_switcher::hotkey::{MOD_ALT, MOD_NOREPEAT};

#[test]
fn only_our_hotkey_toggles() {
    assert_eq!(loop_action(WM_HOTKEY, HOTKEY_ID as usize), LoopAction::Toggle);
    assert_eq!(loop_action(WM_HOTKEY, 2), LoopAction::Dispatch);
    assert_eq!(loop_action(WM_DEVICECHANGE, HOTKEY_ID as usize), LoopAction::Dispatch);
}

#[test]
fn arrivals_and_removals_trigger_a_recheck() {
    assert!(rechecks_on(DBT_DEVICEARRIVAL));
    assert!(rechecks_on(DBT_DEVICEREMOVECOMPLETE));
    assert!(!rechecks_on(0x0007));
}

#[test]
fn the_hotkey_does_not_repeat() {
    assert_eq!(registration_modifiers(MOD_ALT), MOD_ALT | MOD_NOREPEAT);
    assert_eq!(registration_modifiers(0), 0x4000);
}
