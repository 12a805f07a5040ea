use orbly::app_manager::state::AppManager;
use orbly::config::models::{AppConfig, DarkModeType, NotificationStyle, OrblyConfig};
use orbly::notifications::handler::{
    is_in_dnd_schedule, normalize_badge_count, on_badge_update, on_web_notification, parse_time,
    update_aggregated_badge, BadgeSummary, BadgeUpdate, NativeNotification, WebNotification,
    Weekday,
};
use orbly::number::{parse_u32, u32_to_string};

fn app(id: &str, name: &str, style: NotificationStyle) -> AppConfig {
    AppConfig {
        id: id.to_string(),
        name: name.to_string(),
        service_type: "custom".to_string(),
        url: format!("https://{}.example", id),
        icon: String::new(),
        data_store_uuid: 0,
        enabled: true,
        hibernated: false,
        audio_muted: false,
        user_agent: String::new(),
        custom_css: String::new(),
        custom_js: String::new(),
        proxy: String::new(),
        dark_mode: DarkModeType::Off,
        dark_mode_brightness: 100,
        dark_mode_contrast: 90,
        dark_mode_sepia: 10,
        dark_mode_bg_color: String::new(),
        dark_mode_text_color: String::new(),
        hibernation_timeout_minutes: 15,
        download_directory: "~/Downloads".to_string(),
        skip_download_dialog: false,
        workspace: "default".to_string(),
        sidebar_section: String::new(),
        position: 0,
        notification_style: style,
        adblock_enabled: true,
        zoom_level: 100,
    }
}

fn chars(s: &str) -> Vec<char> {
    s.chars().collect()
}

fn number(s: &str) -> Option<u32> {
    let c = chars(s);
    parse_u32(&c, 0, c.len())
}

#[test]
fn numbers_are_read_as_the_standard_library_reads_them() {
    for s in ["0", "7", "007", "+5", "4294967295", "4294967296", "99999999999999999999", "", "+", "-1", "1 ", " 1", "1_000", "12a", "++1", "٣"] {
        assert_eq!(number(s), s.parse::<u32>().ok(), "{:?}", s);
    }
    let c = chars("ab123cd");
    assert_eq!(parse_u32(&c, 2, 5), Some(123));
    assert_eq!(parse_u32(&c, 2, 2), None);
    assert_eq!(parse_u32(&c, 1, 5), None);
}

#[test]
fn numbers_are_written_in_base_ten() {
    for n in [0u32, 1, 9, 10, 11, 99, 100, 101, 12345, 4294967295] {
        assert_eq!(u32_to_string(n), n.to_string());
    }
}

#[test]
fn times_are_read_as_minutes_of_the_day() {
    assert_eq!(parse_time("18:00"), Some(1080));
    assert_eq!(parse_time("09:00"), Some(540));
    assert_eq!(parse_time("9:5"), Some(545));
    assert_eq!(parse_time("+1:+2"), Some(62));
    assert_eq!(parse_time("0:0"), Some(0));
    assert_eq!(parse_time("25:61"), Some(1561));
    assert_eq!(parse_time("71582788:15"), Some(4294967295));
}

#[test]
fn malformed_times_are_rejected() {
    for s in ["", "12", ":", "12:", ":30", "1:2:3", "a:b", "12:3x", " 1:2", "1::2", "-1:00", "71582788:16", "4294967295:1", "1:4294967296"] {
        assert_eq!(parse_time(s), None, "{:?}", s);
    }
}

fn schedule(start: &str, end: &str, days: &[&str]) -> OrblyConfig {
    let mut config = OrblyConfig::default();
    config.general.dnd_schedule_enabled = true;
    config.general.dnd_schedule_start = start.to_string();
    config.general.dnd_schedule_end = end.to_string();
    config.general.dnd_schedule_days = days.iter().map(|d| d.to_string()).collect();
    config
}

#[test]
fn overnight_schedule() {
    let mut config = OrblyConfig::default();
    assert!(!is_in_dnd_schedule(&config, Weekday::Mon, 19 * 60));
    config.general.dnd_schedule_enabled = true;
    assert!(is_in_dnd_schedule(&config, Weekday::Mon, 18 * 60));
    assert!(is_in_dnd_schedule(&config, Weekday::Mon, 23 * 60 + 59));
    assert!(!is_in_dnd_schedule(&config, Weekday::Mon, 18 * 60 - 1));
    assert!(!is_in_dnd_schedule(&config, Weekday::Mon, 8 * 60));
    assert!(is_in_dnd_schedule(&config, Weekday::Tue, 8 * 60));
    assert!(!is_in_dnd_schedule(&config, Weekday::Tue, 9 * 60));
    assert!(is_in_dnd_schedule(&config, Weekday::Sat, 8 * 60));
    assert!(!is_in_dnd_schedule(&config, Weekday::Sat, 19 * 60));
    assert!(!is_in_dnd_schedule(&config, Weekday::Sun, 8 * 60));
    assert!(!is_in_dnd_schedule(&config, Weekday::Sun, 22 * 60));
}

#[test]
fn same_day_schedule() {
    let config = schedule("09:00", "18:00", &["mon", "sun"]);
    assert!(is_in_dnd_schedule(&config, Weekday::Mon, 9 * 60));
    assert!(is_in_dnd_schedule(&config, Weekday::Sun, 17 * 60 + 59));
    assert!(!is_in_dnd_schedule(&config, Weekday::Mon, 18 * 60));
    assert!(!is_in_dnd_schedule(&config, Weekday::Mon, 8 * 60 + 59));
    assert!(!is_in_dnd_schedule(&config, Weekday::Tue, 10 * 60));
    let never = schedule("10:00", "10:00", &["mon"]);
    assert!(!is_in_dnd_schedule(&never, Weekday::Mon, 10 * 60));
}

#[test]
fn schedule_with_unreadable_times_or_days() {
    assert!(!is_in_dnd_schedule(&schedule("late", "09:00", &["mon"]), Weekday::Mon, 23 * 60));
    assert!(!is_in_dnd_schedule(&schedule("18:00", "", &["mon"]), Weekday::Mon, 23 * 60));
    assert!(!is_in_dnd_schedule(&schedule("18:00", "09:00", &["Mon", "monday"]), Weekday::Mon, 23 * 60));
    assert!(is_in_dnd_schedule(&schedule("18:00", "09:00", &["wed"]), Weekday::Thu, 0));
}

#[test]
fn weekdays() {
    let days = [Weekday::Mon, Weekday::Tue, Weekday::Wed, Weekday::Thu, Weekday::Fri, Weekday::Sat, Weekday::Sun];
    let names = ["mon", "tue", "wed", "thu", "fri", "sat", "sun"];
    for i in 0..7 {
        assert_eq!(days[i].as_str(), names[i]);
        assert_eq!(days[i].previous(), days[(i + 6) % 7]);
    }
}

#[test]
fn badge_counts_keep_three_signals() {
    assert_eq!(normalize_badge_count(None), None);
    assert_eq!(normalize_badge_count(Some(0)), Some(0));
    assert_eq!(normalize_badge_count(Some(12)), Some(12));
    assert_eq!(normalize_badge_count(Some(i32::MAX)), Some(i32::MAX));
    assert_eq!(normalize_badge_count(Some(-1)), Some(-1));
    assert_eq!(normalize_badge_count(Some(-50)), Some(-1));
    assert_eq!(normalize_badge_count(Some(i32::MIN)), Some(-1));
}

fn registry(ids: &[&str]) -> AppManager {
    let apps: Vec<AppConfig> = ids.iter().map(|id| app(id, id, NotificationStyle::Full)).collect();
    let mut manager = AppManager::new();
    manager.init_from_config(&apps);
    manager
}

#[test]
fn badge_updates_are_recorded_and_added_up() {
    let mut manager = registry(&["a", "b", "c", "d"]);
    assert_eq!(update_aggregated_badge(&manager), BadgeSummary { total: 0, has_unread_dot: false });
    assert_eq!(on_badge_update(&mut manager, &BadgeUpdate { app_id: "a".to_string(), count: Some(-7) }), Some(-1));
    assert_eq!(manager.get_state("a").unwrap().badge_count, Some(-1));
    assert_eq!(on_badge_update(&mut manager, &BadgeUpdate { app_id: "b".to_string(), count: Some(0) }), Some(0));
    let dot = update_aggregated_badge(&manager);
    assert_eq!(dot, BadgeSummary { total: 0, has_unread_dot: true });
    assert_eq!(dot.tray_count(), 1);
    on_badge_update(&mut manager, &BadgeUpdate { app_id: "c".to_string(), count: Some(3) });
    on_badge_update(&mut manager, &BadgeUpdate { app_id: "d".to_string(), count: Some(4) });
    on_badge_update(&mut manager, &BadgeUpdate { app_id: "nobody".to_string(), count: Some(100) });
    let sum = update_aggregated_badge(&manager);
    assert_eq!(sum, BadgeSummary { total: 7, has_unread_dot: false });
    assert_eq!(sum.tray_count(), 7);
    assert_eq!(on_badge_update(&mut manager, &BadgeUpdate { app_id: "c".to_string(), count: None }), None);
    assert_eq!(update_aggregated_badge(&manager).total, 4);
}

#[test]
fn badge_total_stops_at_the_largest_number() {
    let mut manager = registry(&["a", "b", "c"]);
    for id in ["a", "b", "c"] {
        manager.set_badge_count(id, Some(i32::MAX));
    }
    assert_eq!(update_aggregated_badge(&manager), BadgeSummary { total: u32::MAX, has_unread_dot: false });
    manager.set_badge_count("c", Some(1));
    assert_eq!(update_aggregated_badge(&manager).total, 4294967295);
    manager.set_badge_count("b", Some(-1));
    assert_eq!(update_aggregated_badge(&manager).total, 2147483648);
}

fn notification(app_id: &str, title: &str, body: &str) -> WebNotification {
    WebNotification {
        app_id: app_id.to_string(),
        title: title.to_string(),
        body: body.to_string(),
        icon: String::new(),
        tag: String::new(),
        style: "full".to_string(),
    }
}

#[test]
fn notifications_follow_the_style_of_the_instance() {
    let mut config = OrblyConfig::default();
    config.apps = vec![
        app("mail", "Mail", NotificationStyle::Full),
        app("chat", "Chat", NotificationStyle::Private),
        app("news", "News", NotificationStyle::Off),
    ];
    assert_eq!(
        on_web_notification(&config, &notification("mail", "Hello", "World"), false),
        Some(NativeNotification { title: "Mail: Hello".to_string(), body: "World".to_string(), app_id: "mail".to_string() })
    );
    assert_eq!(
        on_web_notification(&config, &notification("mail", "", "World"), false),
        Some(NativeNotification { title: "Mail".to_string(), body: "World".to_string(), app_id: "mail".to_string() })
    );
    assert_eq!(
        on_web_notification(&config, &notification("chat", "Secret", "Text"), false),
        Some(NativeNotification { title: "Chat".to_string(), body: "New notification".to_string(), app_id: "chat".to_string() })
    );
    assert_eq!(on_web_notification(&config, &notification("news", "a", "b"), false), None);
    assert_eq!(on_web_notification(&config, &notification("nobody", "a", "b"), false), None);
    assert_eq!(on_web_notification(&config, &notification("mail", "a", "b"), true), None);
    config.general.dnd_enabled = true;
    assert_eq!(on_web_notification(&config, &notification("mail", "a", "b"), false), None);
}
