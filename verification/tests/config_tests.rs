use neovide_tabs::config::{
    app_icon, config_dir_path, config_file_path_json, config_file_path_jsonc, data_dir_path,
    default_tab_hotkeys, expand_tilde, find_config_file, format_working_directory,
    generate_default_config, parse_hex_color, parse_hotkey_config, parse_profiles,
    resolve_icon_path, sanitize_title, strip_jsonc_comments, Config, ConfigFile, HotkeyConfig,
    HotkeyConfigFile, HotkeyMap, Profile, ProfileFile, DEFAULT_BACKGROUND_COLOR,
};
use neovide_tabs::config::{expand_title, TitleContext};

const DEFAULT_PROFILE_NAME: &str = "Default";
const DEFAULT_PROFILE_HOTKEY: &str = "Ctrl+Shift+F1";
const DEFAULT_ICON: &str = "neovide.png";
const DEFAULT_TITLE_FORMAT: &str = "%t";

#[test]
fn test_parse_hex_color_without_prefix() {
    assert_eq!(parse_hex_color("1a1b26"), Some(0x1a1b26));
    assert_eq!(parse_hex_color("ffffff"), Some(0xffffff));
    assert_eq!(parse_hex_color("000000"), Some(0x000000));
    assert_eq!(parse_hex_color("ABCDEF"), Some(0xABCDEF));
}

#[test]
fn test_parse_hex_color_with_prefix() {
    assert_eq!(parse_hex_color("#1a1b26"), Some(0x1a1b26));
    assert_eq!(parse_hex_color("#ffffff"), Some(0xffffff));
    assert_eq!(parse_hex_color("#000000"), Some(0x000000));
    assert_eq!(parse_hex_color("#ABCDEF"), Some(0xABCDEF));
}

#[test]
fn test_parse_hex_color_invalid() {
    assert_eq!(parse_hex_color(""), None);
    assert_eq!(parse_hex_color("#"), None);
    assert_eq!(parse_hex_color("1a1b2"), None); // Too short
    assert_eq!(parse_hex_color("1a1b267"), None); // Too long
    assert_eq!(parse_hex_color("#1a1b2"), None); // Too short with prefix
    assert_eq!(parse_hex_color("gggggg"), None); // Invalid hex chars
    assert_eq!(parse_hex_color("##1a1b26"), None); // Double prefix
}

#[test]
fn test_default_config() {
    let config = Config::default();
    assert_eq!(config.background_color, DEFAULT_BACKGROUND_COLOR);
    assert_eq!(config.profiles.len(), 1);
    assert_eq!(config.profiles[0].name, DEFAULT_PROFILE_NAME);
}

#[test]
fn test_config_from_file_with_valid_color() {
    let file = ConfigFile {
        background_color: Some("#ff0000".to_string()),
        profiles: None,
        hotkeys: None,
    };
    let config = Config::from_config_file(file, "/home/test");
    assert_eq!(config.background_color, 0xff0000);
}

#[test]
fn test_config_from_file_with_invalid_color() {
    let file = ConfigFile {
        background_color: Some("invalid".to_string()),
        profiles: None,
        hotkeys: None,
    };
    let config = Config::from_config_file(file, "/home/test");
    assert_eq!(config.background_color, DEFAULT_BACKGROUND_COLOR);
}

#[test]
fn test_config_from_file_with_no_color() {
    let file = ConfigFile {
        background_color: None,
        profiles: None,
        hotkeys: None,
    };
    let config = Config::from_config_file(file, "/home/test");
    assert_eq!(config.background_color, DEFAULT_BACKGROUND_COLOR);
}

#[test]
fn test_config_file_path_jsonc() {
    let path = config_file_path_jsonc("/home/test");
    assert!(path.ends_with("config.jsonc"));
    assert!(path.contains("neovide-tabs"));
}

#[test]
fn test_config_file_path_json() {
    let path = config_file_path_json("/home/test");
    assert!(path.ends_with("config.json"));
    assert!(path.contains("neovide-tabs"));
}

#[test]
fn test_find_config_file_prefers_jsonc() {
    assert_eq!(
        find_config_file("/h", true, true),
        Some("/h/.config/neovide-tabs/config.jsonc".to_string())
    );
    assert_eq!(
        find_config_file("/h", false, true),
        Some("/h/.config/neovide-tabs/config.json".to_string())
    );
    assert_eq!(find_config_file("/h", false, false), None);
}

#[test]
fn test_default_profile() {
    let profile = Profile::default_profile();
    assert_eq!(profile.name, DEFAULT_PROFILE_NAME);
    assert_eq!(profile.icon, "neovide.png");
    assert_eq!(profile.hotkey, Some(DEFAULT_PROFILE_HOTKEY.to_string()));
}

#[test]
fn config_test_data_dir_path() {
    let path = data_dir_path("/home/test");
    assert!(path.contains("neovide-tabs"));
    assert!(path.contains(".local"));
}

#[test]
fn test_parse_profiles_empty() {
    let profiles = parse_profiles(None, "/home/test");
    assert_eq!(profiles.len(), 1);
    assert_eq!(profiles[0].name, DEFAULT_PROFILE_NAME);
}

#[test]
fn test_parse_profiles_with_default() {
    let profile_files = vec![ProfileFile {
        name: "Default".to_string(),
        icon: Some("custom.png".to_string()),
        working_directory: Some("~".to_string()),
        hotkey: None,
        title: None,
    }];
    let profiles = parse_profiles(Some(profile_files), "/home/test");
    assert_eq!(profiles.len(), 1);
    assert_eq!(profiles[0].name, DEFAULT_PROFILE_NAME);
    assert_eq!(profiles[0].icon, "custom.png");
    // User-defined Default without hotkey should have no hotkey
    assert_eq!(profiles[0].hotkey, None);
    // Title should default to %t
    assert_eq!(profiles[0].title, DEFAULT_TITLE_FORMAT);
}

#[test]
fn test_parse_profiles_user_defined() {
    // User-defined profiles are used as-is without inserting Default
    let profile_files = vec![ProfileFile {
        name: "Work".to_string(),
        icon: None,
        working_directory: None,
        hotkey: None,
        title: None,
    }];
    let profiles = parse_profiles(Some(profile_files), "/home/test");
    assert_eq!(profiles.len(), 1);
    // First profile is the user-defined one
    assert_eq!(profiles[0].name, "Work");
    assert_eq!(profiles[0].hotkey, None);
    // Title should default to %t
    assert_eq!(profiles[0].title, DEFAULT_TITLE_FORMAT);
}

#[test]
fn test_parse_profiles_preserves_order() {
    // User-defined profiles maintain their order
    let profile_files = vec![
        ProfileFile {
            name: "Work".to_string(),
            icon: None,
            working_directory: None,
            hotkey: None,
            title: None,
        },
        ProfileFile {
            name: "Personal".to_string(),
            icon: None,
            working_directory: None,
            hotkey: Some("Ctrl+Shift+F2".to_string()),
            title: Some("%p: %w".to_string()),
        },
    ];
    let profiles = parse_profiles(Some(profile_files), "/home/test");
    assert_eq!(profiles.len(), 2);
    // Order is preserved - first defined profile is first
    assert_eq!(profiles[0].name, "Work");
    assert_eq!(profiles[0].hotkey, None);
    assert_eq!(profiles[0].title, DEFAULT_TITLE_FORMAT);
    assert_eq!(profiles[1].name, "Personal");
    assert_eq!(profiles[1].hotkey, Some("Ctrl+Shift+F2".to_string()));
    assert_eq!(profiles[1].title, "%p: %w");
}

#[test]
fn test_expand_tilde_home() {
    let resolved = expand_tilde("~", "/home/test");
    assert_eq!(resolved, "/home/test");
}

#[test]
fn test_expand_tilde_home_subdir() {
    let resolved = expand_tilde("~/projects", "/home/test");
    assert_eq!(resolved, "/home/test/projects");
}

#[test]
fn test_expand_tilde_no_tilde() {
    let resolved = expand_tilde("/absolute/path", "/home/test");
    assert_eq!(resolved, "/absolute/path");
}

#[test]
fn test_resolve_icon_path_with_tilde() {
    let icon = resolve_icon_path(Some("~/icons/my-icon.png".to_string()), "/home/test");
    assert_eq!(icon, "/home/test/icons/my-icon.png");
}

#[test]
fn test_resolve_icon_path_absolute() {
    let icon = resolve_icon_path(Some("/absolute/path/icon.png".to_string()), "/home/test");
    assert_eq!(icon, "/absolute/path/icon.png");
}

#[test]
fn test_resolve_icon_path_default() {
    let icon = resolve_icon_path(None, "/home/test");
    assert_eq!(icon, DEFAULT_ICON);
}

#[test]
fn test_app_icon_name() {
    assert_eq!(app_icon(), "neovide-tabs.png");
}

#[test]
fn test_config_default_profile_method() {
    let config = Config::default();
    let profile = config.default_profile();
    assert_eq!(profile.name, DEFAULT_PROFILE_NAME);
}

#[test]
fn test_config_get_profile() {
    let config = Config::default();
    assert!(config.get_profile(0).is_some());
    assert!(config.get_profile(100).is_none());
}

#[test]
fn test_default_tab_hotkeys() {
    let hotkeys = default_tab_hotkeys();
    assert_eq!(hotkeys.len(), 10);
    assert_eq!(hotkeys.get("Ctrl+Shift+1"), Some(1));
    assert_eq!(hotkeys.get("Ctrl+Shift+9"), Some(9));
    assert_eq!(hotkeys.get("Ctrl+Shift+0"), Some(10));
}

#[test]
fn test_hotkey_config_default() {
    let config = HotkeyConfig::default();
    assert_eq!(config.tab.len(), 10);
    assert_eq!(config.tab.get("Ctrl+Shift+1"), Some(1));
}

#[test]
fn test_parse_hotkey_config_none() {
    let config = parse_hotkey_config(None);
    // Should get defaults
    assert_eq!(config.tab.len(), 10);
}

#[test]
fn test_parse_hotkey_config_empty() {
    let config = parse_hotkey_config(Some(HotkeyConfigFile {
        tab: Some(HotkeyMap::new()),
    }));
    // Empty tab map disables tab hotkeys
    assert_eq!(config.tab.len(), 0);
}

#[test]
fn test_parse_hotkey_config_custom() {
    let mut tab = HotkeyMap::new();
    tab.insert("Alt+1".to_string(), 1);
    tab.insert("Alt+2".to_string(), 2);
    let config = parse_hotkey_config(Some(HotkeyConfigFile { tab: Some(tab) }));
    assert_eq!(config.tab.len(), 2);
    assert_eq!(config.tab.get("Alt+1"), Some(1));
    assert_eq!(config.tab.get("Alt+2"), Some(2));
}

#[test]
fn test_hotkey_map_insert_keeps_first_binding() {
    let mut tab = HotkeyMap::new();
    tab.insert("Alt+1".to_string(), 1);
    tab.insert("Alt+1".to_string(), 5);
    assert_eq!(tab.len(), 1);
    assert_eq!(tab.get("Alt+1"), Some(1));
    assert_eq!(tab.get("Alt+2"), None);
    assert!(!tab.is_empty());
}

#[test]
fn test_profile_with_hotkey() {
    let profile_files = vec![ProfileFile {
        name: "Work".to_string(),
        icon: None,
        working_directory: None,
        hotkey: Some("Ctrl+Shift+F2".to_string()),
        title: None,
    }];
    let profiles = parse_profiles(Some(profile_files), "/home/test");
    assert_eq!(profiles.len(), 1);
    // User profile with hotkey
    assert_eq!(profiles[0].name, "Work");
    assert_eq!(profiles[0].hotkey, Some("Ctrl+Shift+F2".to_string()));
}

#[test]
fn test_config_default_has_hotkeys() {
    let config = Config::default();
    // Default config should have default tab hotkeys
    assert_eq!(config.hotkeys.tab.len(), 10);
    // Default profile should have default hotkey
    assert_eq!(
        config.profiles[0].hotkey,
        Some(DEFAULT_PROFILE_HOTKEY.to_string())
    );
}

#[test]
fn test_generate_default_config_not_empty() {
    let content = generate_default_config();
    assert!(!content.is_empty());
}

#[test]
fn test_generate_default_config_contains_background_color() {
    let content = generate_default_config();
    assert!(content.contains("background_color"));
    assert!(content.contains("#1a1b26"));
}

#[test]
fn test_generate_default_config_contains_hotkeys() {
    let content = generate_default_config();
    assert!(content.contains("hotkeys"));
    assert!(content.contains("tab"));
    assert!(content.contains("Ctrl+Shift+1"));
    assert!(content.contains("Ctrl+Shift+0"));
}

#[test]
fn test_generate_default_config_contains_profiles() {
    let content = generate_default_config();
    assert!(content.contains("profiles"));
    assert!(content.contains("name"));
    assert!(content.contains("icon"));
    assert!(content.contains("working_directory"));
    assert!(content.contains("hotkey"));
    // Should contain the uncommented "Neovim" profile
    assert!(content.contains("\"Neovim\""));
    assert!(content.contains("\"Ctrl+Shift+F1\""));
}

#[test]
fn test_generate_default_config_uses_comment_syntax() {
    let content = generate_default_config();
    // Should contain // comments
    assert!(content.contains("//"));
}

#[test]
fn test_generate_default_config_is_valid_jsonc() {
    let content = generate_default_config();
    // Strip comments using the same method as config loading
    let stripped = strip_jsonc_comments(content);

    // The stripped content should be valid JSON with profiles array
    let result: Result<serde_json::Value, _> = serde_json::from_str(&stripped);
    assert!(
        result.is_ok(),
        "Stripped JSONC should be valid JSON: {}",
        stripped
    );

    // Verify it contains the Neovim profile
    let json = result.unwrap();
    assert!(json["profiles"].is_array());
    assert_eq!(json["profiles"][0]["name"], "Neovim");
}

#[test]
fn test_config_dir_path() {
    let path = config_dir_path("/home/test");
    assert!(path.contains("neovide-tabs"));
    assert!(path.contains(".config"));
}

#[test]
fn test_strip_jsonc_comments_line_comment() {
    let input = r#"{ // this is a comment
    "key": "value"
}"#;
    let output = strip_jsonc_comments(input);
    let parsed: serde_json::Value = serde_json::from_str(&output).unwrap();
    assert_eq!(parsed["key"], "value");
}

#[test]
fn test_strip_jsonc_comments_full_line_comment() {
    let input = r#"{
    // this is a full line comment
    "key": "value"
}"#;
    let output = strip_jsonc_comments(input);
    let parsed: serde_json::Value = serde_json::from_str(&output).unwrap();
    assert_eq!(parsed["key"], "value");
}

#[test]
fn test_strip_jsonc_comments_preserves_strings() {
    let input = r#"{ "key": "value with // not a comment" }"#;
    let output = strip_jsonc_comments(input);
    let parsed: serde_json::Value = serde_json::from_str(&output).unwrap();
    assert_eq!(parsed["key"], "value with // not a comment");
}

#[test]
fn test_strip_jsonc_comments_escaped_quotes() {
    let input = r#"{ "key": "value with \" escaped // quote" }"#;
    let output = strip_jsonc_comments(input);
    let parsed: serde_json::Value = serde_json::from_str(&output).unwrap();
    assert_eq!(parsed["key"], r#"value with " escaped // quote"#);
}

#[test]
fn test_strip_jsonc_comments_multiple_comments() {
    let input = r#"{
    // comment 1
    "a": 1, // inline comment
    // comment 2
    "b": 2
}"#;
    let output = strip_jsonc_comments(input);
    let parsed: serde_json::Value = serde_json::from_str(&output).unwrap();
    assert_eq!(parsed["a"], 1);
    assert_eq!(parsed["b"], 2);
}

#[test]
fn test_strip_jsonc_comments_no_comments() {
    let input = r#"{ "key": "value" }"#;
    let output = strip_jsonc_comments(input);
    assert_eq!(input, output);
}

#[test]
fn test_strip_jsonc_comments_empty() {
    let input = "";
    let output = strip_jsonc_comments(input);
    assert_eq!(output, "");
}

#[test]
fn test_strip_jsonc_parses_default_template() {
    let content = generate_default_config();
    let stripped = strip_jsonc_comments(content);
    let result: Result<serde_json::Value, _> = serde_json::from_str(&stripped);
    assert!(
        result.is_ok(),
        "Default template should parse after stripping comments"
    );
}

// Title expansion tests

#[test]
fn test_expand_title_profile_name() {
    let context = TitleContext {
        profile_name: "Work",
        working_directory: "/home/user/projects",
        window_title: "file.rs - Neovim",
    };
    let result = expand_title("%p", &context, None);
    assert_eq!(result, "Work");
}

#[test]
fn test_expand_title_window_title() {
    let context = TitleContext {
        profile_name: "Work",
        working_directory: "/home/user/projects",
        window_title: "file.rs - Neovim",
    };
    let result = expand_title("%t", &context, None);
    assert_eq!(result, "file.rs - Neovim");
}

#[test]
fn test_expand_title_working_directory_under_home() {
    let home = dirs::home_dir().unwrap();
    let home_str = home.to_str().unwrap().to_string();
    let projects_path = format!("{}/projects/myapp", home_str);
    let context = TitleContext {
        profile_name: "Work",
        working_directory: &projects_path,
        window_title: "file.rs",
    };
    let result = expand_title("%w", &context, Some(&home_str));
    assert_eq!(result, "~/projects/myapp");
}

#[test]
fn test_expand_title_working_directory_home() {
    let home = dirs::home_dir().unwrap();
    let home_str = home.to_str().unwrap().to_string();
    let context = TitleContext {
        profile_name: "Work",
        working_directory: &home_str,
        window_title: "file.rs",
    };
    let result = expand_title("%w", &context, Some(&home_str));
    assert_eq!(result, "~");
}

#[test]
fn test_expand_title_combined_tokens() {
    let home = dirs::home_dir().unwrap();
    let home_str = home.to_str().unwrap().to_string();
    let projects_path = format!("{}/projects", home_str);
    let context = TitleContext {
        profile_name: "Work",
        working_directory: &projects_path,
        window_title: "file.rs",
    };
    let result = expand_title("%p: %w", &context, Some(&home_str));
    assert_eq!(result, "Work: ~/projects");
}

#[test]
fn test_expand_title_strip_leading_dash() {
    let context = TitleContext {
        profile_name: "Work",
        working_directory: "/home/user",
        window_title: "- Neovim",
    };
    let result = expand_title("%t", &context, None);
    assert_eq!(result, "Neovim");
}

#[test]
fn test_expand_title_strip_trailing_dash() {
    let context = TitleContext {
        profile_name: "Work",
        working_directory: "/home/user",
        window_title: "Neovim -",
    };
    let result = expand_title("%t", &context, None);
    assert_eq!(result, "Neovim");
}

#[test]
fn test_expand_title_strip_whitespace() {
    let context = TitleContext {
        profile_name: "Work",
        working_directory: "/home/user",
        window_title: "  Neovim  ",
    };
    let result = expand_title("%t", &context, None);
    assert_eq!(result, "Neovim");
}

#[test]
fn test_expand_title_preserve_internal_dash() {
    let context = TitleContext {
        profile_name: "Work",
        working_directory: "/home/user",
        window_title: "file.rs - Neovim",
    };
    let result = expand_title("%t", &context, None);
    assert_eq!(result, "file.rs - Neovim");
}

#[test]
fn test_expand_title_empty_window_title() {
    let context = TitleContext {
        profile_name: "Work",
        working_directory: "/home/user",
        window_title: "",
    };
    let result = expand_title("%t", &context, None);
    assert_eq!(result, "");
}

#[test]
fn test_expand_title_literal_text() {
    let context = TitleContext {
        profile_name: "Work",
        working_directory: "/home/user",
        window_title: "file.rs",
    };
    let result = expand_title("Tab: %p", &context, None);
    assert_eq!(result, "Tab: Work");
}

#[test]
fn test_expand_title_escape_percent() {
    let context = TitleContext {
        profile_name: "Work",
        working_directory: "/home/user",
        window_title: "file.rs",
    };
    let result = expand_title("100%% complete", &context, None);
    assert_eq!(result, "100% complete");
}

#[test]
fn test_expand_title_unknown_token() {
    let context = TitleContext {
        profile_name: "Work",
        working_directory: "/home/user",
        window_title: "file.rs",
    };
    // Unknown tokens like %x are kept as-is (just the %)
    let result = expand_title("%x", &context, None);
    assert_eq!(result, "%x");
}

#[test]
fn test_format_working_directory_outside_home() {
    let result = format_working_directory("/srv/data", Some("/home/test"));
    assert_eq!(result, "/srv/data");
    let flipped = format_working_directory("C:\\code\\app", None);
    assert_eq!(flipped, "C:/code/app");
}

#[test]
fn test_sanitize_title_all_strip_chars() {
    let result = sanitize_title("---");
    assert_eq!(result, "");
}

#[test]
fn test_sanitize_title_mixed_strip_chars() {
    let result = sanitize_title("- \t");
    assert_eq!(result, "");
}

#[test]
fn test_profile_title_custom() {
    let profile_files = vec![ProfileFile {
        name: "Custom".to_string(),
        icon: None,
        working_directory: None,
        hotkey: None,
        title: Some("%p: %w".to_string()),
    }];
    let profiles = parse_profiles(Some(profile_files), "/home/test");
    assert_eq!(profiles[0].title, "%p: %w");
}

#[test]
fn test_default_profile_has_title() {
    let profile = Profile::default_profile();
    assert_eq!(profile.title, DEFAULT_TITLE_FORMAT);
}
