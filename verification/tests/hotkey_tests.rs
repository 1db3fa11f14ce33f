use monsgeek_profile_switcher::hotkey::{
    parse_hotkey, MOD_ALT, MOD_CONTROL, MOD_SHIFT, MOD_WIN, VK_F1, VK_HOME, VK_NUMPAD0, VK_OEM_2,
    VK_OEM_5, VK_OEM_PLUS, VK_PRIOR, VK_RETURN,
};

#[test]
fn a_bare_key_has_no_modifiers() {
    let (modifiers, vk) = parse_hotkey("Home").unwrap();
    assert_eq!(modifiers, 0);
    assert_eq!(vk, VK_HOME);
}

#[test]
fn modifiers_combine() {
    let (modifiers, vk) = parse_hotkey("Ctrl+Alt+P").unwrap();
    assert_eq!(modifiers, MOD_CONTROL | MOD_ALT);
    assert_eq!(vk, b'P' as u32);
}

#[test]
fn is_case_insensitive() {
    assert_eq!(parse_hotkey("home"), parse_hotkey("HOME"));
    assert_eq!(parse_hotkey("ctrl+p"), parse_hotkey("CTRL+P"));
}

#[test]
fn function_keys_parse() {
    let (_, vk) = parse_hotkey("F13").unwrap();
    assert_eq!(vk, VK_F1 + 12);
}

#[test]
fn numpad_keys_parse() {
    let (_, vk) = parse_hotkey("Numpad5").unwrap();
    assert_eq!(vk, VK_NUMPAD0 + 5);
}

#[test]
fn an_unknown_key_name_does_not_parse() {
    assert!(parse_hotkey("NotAKey").is_none());
}

#[test]
fn an_unknown_modifier_does_not_parse() {
    assert!(parse_hotkey("Super+P").is_none());
}

#[test]
fn parts_are_trimmed_and_empty_parts_dropped() {
    assert_eq!(
        parse_hotkey(" ctrl + shift ++ home "),
        Some((MOD_CONTROL | MOD_SHIFT, VK_HOME))
    );
    assert_eq!(parse_hotkey("Win+Windows+Control+Enter"), Some((MOD_WIN | MOD_CONTROL, VK_RETURN)));
    assert_eq!(parse_hotkey(""), None);
    assert_eq!(parse_hotkey(" + + "), None);
}

#[test]
fn function_and_numpad_ranges_end() {
    assert_eq!(parse_hotkey("F1"), Some((0, VK_F1)));
    assert_eq!(parse_hotkey("f24"), Some((0, VK_F1 + 23)));
    assert_eq!(parse_hotkey("F25"), None);
    assert_eq!(parse_hotkey("F0"), None);
    assert_eq!(parse_hotkey("Num9"), Some((0, VK_NUMPAD0 + 9)));
    assert_eq!(parse_hotkey("Numpad10"), None);
}

#[test]
fn single_characters_and_symbols() {
    assert_eq!(parse_hotkey("a"), Some((0, b'A' as u32)));
    assert_eq!(parse_hotkey("7"), Some((0, b'7' as u32)));
    assert_eq!(parse_hotkey("/"), Some((0, VK_OEM_2)));
    assert_eq!(parse_hotkey("\\"), Some((0, VK_OEM_5)));
    assert_eq!(parse_hotkey("Alt+="), Some((MOD_ALT, VK_OEM_PLUS)));
    assert_eq!(parse_hotkey("PgUp"), Some((0, VK_PRIOR)));
    assert_eq!(parse_hotkey("é"), None);
}
