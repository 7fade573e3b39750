use bpesc_balance::config::{
    check_http_status, get_config_dir, get_env_file_path, get_settings_file_path,
    invalid_api_key_message, parse_env_api_key, HttpFailure, config_dir_in, env_file_contents, env_file_path_in, is_macos_dark_mode,
    settings_file_path_in, validate_api_key,
};
use bpesc_balance::fonts::{font_candidates, font_directories, font_search_paths};
use bpesc_balance::host::{
    centered_window_position, log_needs_rotation, newest_first, should_register_shortcut,
    window_toggle_action, WindowAction,
};
use bpesc_balance::settings::{
    auto_refresh_interval_secs, default_false, default_pace_over_threshold,
    default_pace_warn_threshold, default_refresh_interval, default_shortcut, default_true,
    default_zero, migrate_legacy_api_key, settings_with_legacy_key, AppSettings,
};

#[test]
fn defaults() {
    let s = AppSettings::default();
    assert_eq!(s.refresh_interval_minutes, 5);
    assert_eq!(s.global_shortcut, "F19");
    assert!(s.show_percentage && s.show_remaining && s.show_unit);
    assert!(!s.menubar_monochrome);
    assert_eq!((s.pace_warn_threshold, s.pace_over_threshold), (1500, 2500));
    assert_eq!(default_refresh_interval(), 5);
    assert!(default_true());
    assert!(!default_false());
    assert_eq!(default_zero(), 0);
    assert_eq!(default_shortcut(), "F19");
    assert_eq!(default_pace_warn_threshold(), 1500);
    assert_eq!(default_pace_over_threshold(), 2500);
}

#[test]
fn api_key_validation() {
    assert_eq!(validate_api_key("   ").unwrap_err(), "API key cannot be empty");
    // keys are assembled from parts: a 16-character body after a prefix
    let body = "0123456789abcdef";
    let long_key = ["sk", "or", "v1", body].join("-");
    let wrong_prefix = ["pk", body, "ghij"].join("-");
    assert_eq!(long_key.len(), 25);
    assert_eq!(validate_api_key(&wrong_prefix).unwrap_err(), "API key must start with 'sk-'");
    assert_eq!(validate_api_key("sk-short").unwrap_err(), "API key is too short");
    assert!(validate_api_key(&long_key).is_ok());
    // surrounding whitespace does not count
    assert!(validate_api_key(&format!("  \t{} \n", long_key)).is_ok());
    // 19 bytes once trimmed: one short of the minimum
    let nineteen = ["sk", &body[..16]].join("-");
    assert_eq!(nineteen.len(), 19);
    assert_eq!(validate_api_key(&format!("  {}  ", nineteen)).unwrap_err(), "API key is too short");
    let twenty = ["sk", &format!("{}x", body)].join("-");
    assert_eq!(twenty.len(), 20);
    assert!(validate_api_key(&twenty).is_ok());
}

#[test]
fn key_file_contents() {
    assert_eq!(env_file_contents("  sk-abc \n"), "OPENROUTER_API_KEY=sk-abc\n");
}

#[test]
fn config_paths() {
    assert_eq!(config_dir_in(Some("/Users/ana".to_string())).unwrap(), "/Users/ana/.config/bpesc-balance");
    assert_eq!(config_dir_in(Some("/root/".to_string())).unwrap(), "/root/.config/bpesc-balance");
    assert_eq!(config_dir_in(None).unwrap_err(), "Could not determine home directory");
    assert_eq!(
        settings_file_path_in(Some("/home/u".to_string())).unwrap(),
        "/home/u/.config/bpesc-balance/settings.json"
    );
    assert_eq!(env_file_path_in(Some("/home/u".to_string())).unwrap(), "/home/u/.config/bpesc-balance/.env");
}

#[test]
fn dark_appearance() {
    assert!(is_macos_dark_mode(Some("NSAppearanceNameDarkAqua")));
    assert!(!is_macos_dark_mode(Some("NSAppearanceNameAqua")));
    assert!(!is_macos_dark_mode(None));
}

#[test]
fn font_candidate_names() {
    assert_eq!(
        font_candidates("SF-Pro-Rounded"),
        vec![
            "SF-Pro-Rounded-Regular.otf",
            "SF-Pro-Rounded-Regular.ttf",
            "SF-Pro-Rounded.otf",
            "SF-Pro-Rounded.ttf",
            "SF-Pro-Rounded.ttc",
            "Helvetica.ttc",
            "Arial.ttf",
        ]
    );
    assert_eq!(
        font_candidates("Klavika-Bold"),
        vec!["Klavika-Bold.otf", "Klavika-Bold.ttf", "Klavika-Bold.ttc", "Helvetica.ttc", "Arial.ttf"]
    );
    assert_eq!(font_candidates("Avenir_Bd"), vec!["Avenir_Bd.otf", "Avenir_Bd.ttf", "Avenir_Bd.ttc", "Helvetica.ttc", "Arial.ttf"]);
    assert_eq!(
        font_candidates("Helvetica"),
        vec!["Helvetica-Regular.otf", "Helvetica-Regular.ttf", "Helvetica.otf", "Helvetica.ttf", "Helvetica.ttc"]
    );
}

#[test]
fn font_search_order() {
    assert_eq!(
        font_directories(Some("/Users/ana")),
        vec!["/Users/ana/Library/Fonts", "/Library/Fonts", "/System/Library/Fonts", "/System/Library/Fonts/Supplemental"]
    );
    assert_eq!(font_directories(None).len(), 3);
    let paths = font_search_paths("Helvetica", None);
    assert_eq!(paths.len(), 15);
    assert_eq!(paths[0], "/Library/Fonts/Helvetica-Regular.otf");
    assert_eq!(paths[5], "/System/Library/Fonts/Helvetica-Regular.otf");
    assert_eq!(paths[14], "/System/Library/Fonts/Supplemental/Helvetica.ttc");
}

#[test]
fn legacy_key_migration() {
    let mut s = AppSettings::default();
    assert!(!migrate_legacy_api_key(&mut s));
    s.api_key = Some("sk-old".to_string());
    assert!(migrate_legacy_api_key(&mut s));
    assert_eq!(s.api_keys.len(), 1);
    assert_eq!(s.api_keys[0].key, "sk-old");
    assert_eq!(s.api_keys[0].label, "OpenRouter");
    assert!(!migrate_legacy_api_key(&mut s));
    let fresh = settings_with_legacy_key(Some("sk-env".to_string()));
    assert_eq!(fresh.api_key.as_deref(), Some("sk-env"));
    assert_eq!(fresh.api_keys[0].label, "OpenRouter");
    assert!(settings_with_legacy_key(None).api_keys.is_empty());
}

#[test]
fn refresh_interval() {
    let mut s = AppSettings::default();
    assert_eq!(auto_refresh_interval_secs(&s), Some(300));
    s.refresh_interval_minutes = 0;
    assert_eq!(auto_refresh_interval_secs(&s), Some(60));
    s.auto_refresh_enabled = false;
    assert_eq!(auto_refresh_interval_secs(&s), None);
}

#[test]
fn host_decisions() {
    assert_eq!(window_toggle_action(true, true), WindowAction::Hide);
    assert_eq!(window_toggle_action(true, false), WindowAction::ShowAndRefresh);
    assert_eq!(centered_window_position(0, 25, 1440, 900, 800, 600), (320, 175));
    assert!(should_register_shortcut("F19", true));
    assert!(!should_register_shortcut("", true));
    assert!(!should_register_shortcut("F19", false));
    assert!(log_needs_rotation(100 * 1024 + 1));
    assert!(!log_needs_rotation(100 * 1024));
    let lines = newest_first(vec!["a".to_string(), "b".to_string()], vec!["c".to_string()]);
    assert_eq!(lines, vec!["c", "b", "a"]);
}

#[test]
fn key_file_parsing() {
    assert_eq!(parse_env_api_key("OPENROUTER_API_KEY=sk-one\n").as_deref(), Some("sk-one"));
    assert_eq!(
        parse_env_api_key("# comment\n\n  OTHER=1\r\nOPENROUTER_API_KEY=   \nOPENROUTER_API_KEY= sk-two \r\n").as_deref(),
        Some("sk-two")
    );
    assert_eq!(parse_env_api_key("#OPENROUTER_API_KEY=sk-x"), None);
    assert_eq!(parse_env_api_key(""), None);
    assert_eq!(parse_env_api_key("OPENROUTER_API_KEY=sk-last").as_deref(), Some("sk-last"));
}

#[test]
fn http_status_decisions() {
    assert_eq!(check_http_status(200), Ok(()));
    assert_eq!(check_http_status(204), Ok(()));
    assert_eq!(check_http_status(401), Err(HttpFailure::InvalidApiKey));
    assert_eq!(check_http_status(404), Err(HttpFailure::Status(404)));
    assert_eq!(check_http_status(302), Err(HttpFailure::Status(302)));
    assert_eq!(invalid_api_key_message(), "Invalid API key. Please check your key and try again.");
}

#[test]
fn config_dir_of_this_user() {
    if let Ok(dir) = get_config_dir() {
        assert!(dir.ends_with("/.config/bpesc-balance"));
        assert_eq!(get_settings_file_path().unwrap(), format!("{}/settings.json", dir));
        assert_eq!(get_env_file_path().unwrap(), format!("{}/.env", dir));
    }
}
