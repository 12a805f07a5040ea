use orbly::adblock::engine::{hide_rules, AdblockState};
use orbly::adblock::filter_lists::{FilterListManager, ListFetch, CACHE_MAX_AGE_SECS};
use orbly::commands::config_commands::{
    add_custom_adblock_rule, surface_change, update_adblock_config, SurfaceChange,
};
use orbly::config::models::{AdblockConfig, AppConfig, DarkModeType, NotificationStyle};
use orbly::hashing::sha256_hex;

const RULES: &str = "! a test list\n||ads.example.com^\nnews.example.com##.ad-banner\nnews.example.com###sponsored\n";

fn sorted(mut v: Vec<String>) -> Vec<String> {
    v.sort();
    v
}

#[test]
fn nothing_is_blocked_without_rules() {
    let state = AdblockState::new();
    assert!(!state.should_block("https://ads.example.com/ad.js", "https://news.example.com/", "script"));
    assert_eq!(state.get_filter_rules_text(), None);
    assert_eq!(state.get_content_blocking_json(), None);
    assert_eq!(state.get_blocked_count("a"), 0);
}

#[test]
fn requests_are_blocked_by_the_loaded_rules() {
    let mut state = AdblockState::new();
    state.load_rules(RULES, &[]);
    assert!(state.should_block("https://ads.example.com/ad.js", "https://news.example.com/", "script"));
    assert!(!state.should_block("https://cdn.example.com/app.js", "https://news.example.com/", "script"));
    assert!(!state.should_block("not a url", "https://news.example.com/", "script"));
    assert_eq!(state.get_filter_rules_text(), Some(RULES.to_string()));
}

#[test]
fn custom_rules_count_as_well() {
    let mut state = AdblockState::new();
    state.load_rules(RULES, &["||tracker.example.net^".to_string(), "this is ! not a rule ###".to_string()]);
    assert!(state.should_block("https://tracker.example.net/t.gif", "https://news.example.com/", "image"));
    assert!(state.should_block("https://ads.example.com/ad.js", "https://news.example.com/", "script"));
    state.load_rules(RULES, &["@@||ads.example.com^".to_string()]);
    assert!(!state.should_block("https://ads.example.com/ad.js", "https://news.example.com/", "script"));
}

#[test]
fn is_blocked_reads_the_verdict() {
    assert!(AdblockState::is_blocked(Some(true)));
    assert!(!AdblockState::is_blocked(Some(false)));
    assert!(!AdblockState::is_blocked(None));
}

#[test]
fn cosmetic_filters_hide_the_selectors_of_the_page() {
    let mut state = AdblockState::new();
    assert!(state.get_cosmetic_filters("https://news.example.com/").is_empty());
    state.load_rules(RULES, &["other.example.org##.promo".to_string()]);
    assert_eq!(
        sorted(state.get_cosmetic_filters("https://news.example.com/story")),
        vec![
            "#sponsored { display: none !important; }".to_string(),
            ".ad-banner { display: none !important; }".to_string(),
        ]
    );
    assert_eq!(
        state.get_cosmetic_filters("https://other.example.org/"),
        vec![".promo { display: none !important; }".to_string()]
    );
    assert!(state.get_cosmetic_filters("https://plain.example.net/").is_empty());
}

#[test]
fn cosmetic_filters_are_kept_until_rules_are_loaded() {
    let mut state = AdblockState::new();
    state.load_rules(RULES, &[]);
    let first = state.get_cosmetic_filters("https://news.example.com/");
    assert_eq!(state.get_cosmetic_filters("https://news.example.com/"), first);
    state.load_rules("news.example.com##.other\n", &[]);
    assert_eq!(
        state.get_cosmetic_filters("https://news.example.com/"),
        vec![".other { display: none !important; }".to_string()]
    );
}

#[test]
fn hide_rules_keep_the_order() {
    assert_eq!(
        hide_rules(&vec!["#a".to_string(), ".b".to_string(), "".to_string()]),
        vec![
            "#a { display: none !important; }".to_string(),
            ".b { display: none !important; }".to_string(),
            " { display: none !important; }".to_string(),
        ]
    );
    assert!(hide_rules(&vec![]).is_empty());
}

#[test]
fn blocked_requests_are_counted_for_each_instance() {
    let mut state = AdblockState::new();
    state.increment_blocked("a");
    state.increment_blocked("a");
    state.increment_blocked("b");
    assert_eq!(state.get_blocked_count("a"), 2);
    assert_eq!(state.get_blocked_count("b"), 1);
    state.reset_blocked_count("a");
    assert_eq!(state.get_blocked_count("a"), 0);
    assert_eq!(state.get_blocked_count("b"), 1);
    state.load_rules(RULES, &[]);
    assert_eq!(state.get_blocked_count("b"), 1);
}

#[test]
fn content_blocking_rules_are_computed_on_request() {
    let mut state = AdblockState::new();
    assert!(!state.refresh_content_blocking_json());
    assert_eq!(state.get_content_blocking_json(), None);
    state.load_rules(RULES, &[]);
    assert_eq!(state.get_content_blocking_json(), None);
    assert!(state.refresh_content_blocking_json());
    let json = state.get_content_blocking_json().expect("rules");
    assert!(json.starts_with('[') && json.ends_with(']'));
    assert!(json.contains("ads"));
    assert!(json.contains("example"));
}

#[test]
fn default_list_urls() {
    assert_eq!(
        FilterListManager::default_list_urls(),
        vec![
            "https://easylist.to/easylist/easylist.txt".to_string(),
            "https://easylist.to/easylist/easyprivacy.txt".to_string(),
        ]
    );
}

#[test]
fn cache_file_is_named_by_the_digest_of_the_url() {
    assert_eq!(sha256_hex("abc"), "ba7816bf8f01cfea414140de5dae2223b00361a396177a9cb410ff61f20015ad");
    assert_eq!(
        sha256_hex(""),
        "e3b0c44298fc1c149afbf4c8996fb92427ae41e4649b934ca495991b7852b855"
    );
    assert_eq!(FilterListManager::cache_file_name("abc"), "ba7816bf8f01cfea.txt");
    assert_eq!(FilterListManager::cache_file_name(""), "e3b0c44298fc1c14.txt");
    assert_eq!(FilterListManager::new("/data/adblock_cache".to_string()).cache_dir(), "/data/adblock_cache");
}

#[test]
fn cache_goes_stale_after_a_day() {
    assert!(FilterListManager::is_stale(None));
    assert!(!FilterListManager::is_stale(Some(0)));
    assert!(!FilterListManager::is_stale(Some(CACHE_MAX_AGE_SECS)));
    assert!(FilterListManager::is_stale(Some(86401)));
    assert!(FilterListManager::should_download(true, Some(0)));
    assert!(!FilterListManager::should_download(false, Some(10)));
    assert!(FilterListManager::should_download(false, None));
}

#[test]
fn filter_rules_are_put_together_list_by_list() {
    let fetched = vec![
        ListFetch { downloaded: Some("a\nb".to_string()), cached: Some("old".to_string()) },
        ListFetch { downloaded: None, cached: Some("c".to_string()) },
        ListFetch { downloaded: None, cached: None },
        ListFetch { downloaded: Some("".to_string()), cached: None },
    ];
    assert_eq!(FilterListManager::get_filter_rules(&fetched), "a\nb\nc\n\n");
    assert_eq!(FilterListManager::get_filter_rules(&vec![]), "");
}

#[test]
fn adblock_configuration_changes() {
    let mut state = AdblockState::new();
    let mut config = AdblockConfig::default();
    assert!(!update_adblock_config(&mut state, true, &config));
    assert_eq!(state.get_filter_rules_text(), None);
    state.load_rules(RULES, &[]);
    config.custom_rules = vec!["||tracker.example.net^".to_string()];
    assert!(update_adblock_config(&mut state, false, &config));
    assert!(state.should_block("https://tracker.example.net/t.gif", "https://news.example.com/", "image"));
    config.enabled = false;
    assert!(update_adblock_config(&mut state, true, &config));
    assert_eq!(state.get_filter_rules_text(), Some(String::new()));
    assert!(!state.should_block("https://ads.example.com/ad.js", "https://news.example.com/", "script"));
    assert!(!update_adblock_config(&mut state, false, &config));
}

#[test]
fn a_custom_rule_is_added_and_loaded() {
    let mut state = AdblockState::new();
    let mut config = AdblockConfig::default();
    add_custom_adblock_rule(&mut config, &mut state, "||ads.example.com^".to_string());
    assert_eq!(config.custom_rules, vec!["||ads.example.com^".to_string()]);
    assert_eq!(state.get_filter_rules_text(), Some(String::new()));
    assert!(state.should_block("https://ads.example.com/ad.js", "https://news.example.com/", "script"));
}

fn app(id: &str) -> AppConfig {
    AppConfig {
        id: id.to_string(),
        name: id.to_string(),
        service_type: "custom".to_string(),
        url: "https://a.example".to_string(),
        icon: String::new(),
        data_store_uuid: 0,
        enabled: true,
        hibernated: false,
        audio_muted: false,
        user_agent: String::new(),
        custom_css: String::new(),
        custom_js: String::new(),
        proxy: String::new(),
        dark_mode: DarkModeType::Off,
        dark_mode_brightness: 100,
        dark_mode_contrast: 90,
        dark_mode_sepia: 10,
        dark_mode_bg_color: String::new(),
        dark_mode_text_color: String::new(),
        hibernation_timeout_minutes: 15,
        download_directory: "~/Downloads".to_string(),
        skip_download_dialog: false,
        workspace: "default".to_string(),
        sidebar_section: String::new(),
        position: 0,
        notification_style: NotificationStyle::Full,
        adblock_enabled: true,
        zoom_level: 100,
    }
}

#[test]
fn surface_changes() {
    let old = app("a");
    assert_eq!(surface_change(&old, &app("a")), SurfaceChange::Nothing);
    let mut zoomed = app("a");
    zoomed.zoom_level = 120;
    assert_eq!(surface_change(&old, &zoomed), SurfaceChange::Zoom(120));
    let mut renamed = app("a");
    renamed.name = "Other".to_string();
    renamed.icon = "x".to_string();
    assert_eq!(surface_change(&old, &renamed), SurfaceChange::Nothing);
    let change = |f: &dyn Fn(&mut AppConfig)| {
        let mut new = app("a");
        new.zoom_level = 150;
        f(&mut new);
        surface_change(&old, &new)
    };
    assert_eq!(change(&|a| a.url = "https://b.example".to_string()), SurfaceChange::Recreate);
    assert_eq!(change(&|a| a.user_agent = "x".to_string()), SurfaceChange::Recreate);
    assert_eq!(change(&|a| a.custom_css = "x".to_string()), SurfaceChange::Recreate);
    assert_eq!(change(&|a| a.custom_js = "x".to_string()), SurfaceChange::Recreate);
    assert_eq!(change(&|a| a.proxy = "x".to_string()), SurfaceChange::Recreate);
    assert_eq!(change(&|a| a.service_type = "x".to_string()), SurfaceChange::Recreate);
}

#[test]
fn converted_rules_are_kept_and_a_failed_conversion_changes_nothing() {
    let mut state = AdblockState::new();
    assert!(!state.keep_content_blocking_json(None));
    assert_eq!(state.get_content_blocking_json(), None);
    assert!(state.keep_content_blocking_json(Some("[1]".to_string())));
    assert_eq!(state.get_content_blocking_json(), Some("[1]".to_string()));
    assert!(!state.keep_content_blocking_json(None));
    assert_eq!(state.get_content_blocking_json(), Some("[1]".to_string()));
    assert!(state.keep_content_blocking_json(Some(String::new())));
    assert_eq!(state.get_content_blocking_json(), Some(String::new()));
    state.load_rules("||ads.example.com^\n", &[]);
    assert_eq!(state.get_content_blocking_json(), Some(String::new()));
    assert_eq!(state.get_filter_rules_text(), Some("||ads.example.com^\n".to_string()));
}
