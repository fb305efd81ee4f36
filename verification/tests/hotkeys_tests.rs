use neovide_tabs::hotkeys::{
    is_profile_hotkey, is_tab_hotkey, parse_hotkey_string, profile_index_from_hotkey_id,
    tab_index_from_hotkey_id, MOD_ALT, MOD_CONTROL, MOD_SHIFT, MOD_WIN,
};

const VK_1: u32 = 0x31;
const VK_A: u32 = 0x41;
const VK_F1: u32 = 0x70;

#[test]
fn test_parse_hotkey_ctrl_shift_1() {
    let parsed = parse_hotkey_string("Ctrl+Shift+1").unwrap();
    assert_eq!(parsed.modifiers, MOD_CONTROL | MOD_SHIFT);
    assert_eq!(parsed.vk, VK_1);
}

#[test]
fn test_parse_hotkey_ctrl_shift_f1() {
    let parsed = parse_hotkey_string("Ctrl+Shift+F1").unwrap();
    assert_eq!(parsed.modifiers, MOD_CONTROL | MOD_SHIFT);
    assert_eq!(parsed.vk, VK_F1);
}

#[test]
fn test_parse_hotkey_alt_shift_a() {
    let parsed = parse_hotkey_string("Alt+Shift+A").unwrap();
    assert_eq!(parsed.modifiers, MOD_ALT | MOD_SHIFT);
    assert_eq!(parsed.vk, VK_A);
}

#[test]
fn test_parse_hotkey_case_insensitive() {
    let parsed = parse_hotkey_string("ctrl+SHIFT+f1").unwrap();
    assert_eq!(parsed.modifiers, MOD_CONTROL | MOD_SHIFT);
    assert_eq!(parsed.vk, VK_F1);
}

#[test]
fn test_parse_hotkey_control_alias() {
    let parsed = parse_hotkey_string("Control+Shift+1").unwrap();
    assert_eq!(parsed.modifiers, MOD_CONTROL | MOD_SHIFT);
}

#[test]
fn test_parse_hotkey_win_modifier() {
    let parsed = parse_hotkey_string("Win+A").unwrap();
    assert_eq!(parsed.modifiers, MOD_WIN);
    assert_eq!(parsed.vk, VK_A);
}

#[test]
fn test_parse_hotkey_windows_alias() {
    let parsed = parse_hotkey_string("Windows+A").unwrap();
    assert_eq!(parsed.modifiers, MOD_WIN);
}

#[test]
fn test_parse_hotkey_super_alias() {
    let parsed = parse_hotkey_string("Super+A").unwrap();
    assert_eq!(parsed.modifiers, MOD_WIN);
}

#[test]
fn test_parse_hotkey_no_modifier() {
    // No modifier should fail
    assert!(parse_hotkey_string("F1").is_none());
}

#[test]
fn test_parse_hotkey_invalid_key() {
    // Invalid key should fail
    assert!(parse_hotkey_string("Ctrl+InvalidKey").is_none());
}

#[test]
fn test_parse_hotkey_empty() {
    assert!(parse_hotkey_string("").is_none());
}

#[test]
fn test_parse_hotkey_all_function_keys() {
    for i in 1..=12 {
        let s = format!("Ctrl+F{}", i);
        let parsed = parse_hotkey_string(&s);
        assert!(parsed.is_some(), "Failed to parse {}", s);
    }
}

#[test]
fn test_parse_hotkey_all_numbers() {
    for i in 0..=9 {
        let s = format!("Ctrl+{}", i);
        let parsed = parse_hotkey_string(&s);
        assert!(parsed.is_some(), "Failed to parse {}", s);
    }
}

#[test]
fn test_parse_hotkey_all_letters() {
    for c in 'A'..='Z' {
        let s = format!("Ctrl+{}", c);
        let parsed = parse_hotkey_string(&s);
        assert!(parsed.is_some(), "Failed to parse {}", s);
    }
}

#[test]
fn test_parse_hotkey_f13_rejected() {
    assert!(parse_hotkey_string("Ctrl+F13").is_none());
    assert!(parse_hotkey_string("Ctrl+F0").is_none());
    // Leading zeros still name the same function key
    let parsed = parse_hotkey_string("Ctrl+F07").unwrap();
    assert_eq!(parsed.vk, 0x76);
}

#[test]
fn test_parse_hotkey_two_keys_rejected() {
    assert!(parse_hotkey_string("Ctrl+A+B").is_none());
}

#[test]
fn test_is_tab_hotkey() {
    assert!(is_tab_hotkey(1));
    assert!(is_tab_hotkey(10));
    assert!(!is_tab_hotkey(0));
    assert!(!is_tab_hotkey(11));
    assert!(!is_tab_hotkey(101));
}

#[test]
fn test_is_profile_hotkey() {
    assert!(is_profile_hotkey(101));
    assert!(is_profile_hotkey(112));
    assert!(!is_profile_hotkey(1));
    assert!(!is_profile_hotkey(100));
}

#[test]
fn test_tab_index_from_hotkey_id() {
    assert_eq!(tab_index_from_hotkey_id(1), Some(0));
    assert_eq!(tab_index_from_hotkey_id(10), Some(9));
    assert_eq!(tab_index_from_hotkey_id(101), None);
}

#[test]
fn test_profile_index_from_hotkey_id() {
    assert_eq!(profile_index_from_hotkey_id(101), Some(0));
    assert_eq!(profile_index_from_hotkey_id(102), Some(1));
    assert_eq!(profile_index_from_hotkey_id(1), None);
}
