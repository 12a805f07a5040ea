use orbly::app_manager::lifecycle::{elapsed_millis, LifecycleError, LifecycleEvent, Transition};
use orbly::app_manager::session_state::{SessionData, SessionState};
use orbly::app_manager::state::{AppManager, AppRuntime, AppRuntimeState};
use orbly::app_manager::supervisor::{auto_hibernate_candidates, crash_detection_sweep, Detection};
use orbly::commands::app_lifecycle_commands::{
    activate_app, auto_hibernate_app, disable_app, enable_app, finish_activation, frontend_ready,
    get_app_states, heartbeat, hibernate_app, journal_live_instances, on_page_load_error,
    on_url_changed, startup_plan, teardown_due, Activation, StartupReport, SurfaceOutcome,
    SurfaceRequest,
};
use orbly::commands::resource_commands::kill_app;
use orbly::config::models::{AppConfig, DarkModeType, NotificationStyle};

const SECOND: u64 = 1000;
const MINUTE: u64 = 60 * SECOND;

fn app(id: &str, url: &str) -> AppConfig {
    AppConfig {
        id: id.to_string(),
        name: format!("App {}", id),
        service_type: "custom".to_string(),
        url: url.to_string(),
        icon: String::new(),
        data_store_uuid: 0,
        enabled: true,
        hibernated: false,
        audio_muted: false,
        user_agent: String::new(),
        custom_css: String::new(),
        custom_js: String::new(),
        proxy: String::new(),
        dark_mode: DarkModeType::Off,
        dark_mode_brightness: 100,
        dark_mode_contrast: 90,
        dark_mode_sepia: 10,
        dark_mode_bg_color: String::new(),
        dark_mode_text_color: String::new(),
        hibernation_timeout_minutes: 15,
        download_directory: "~/Downloads".to_string(),
        skip_download_dialog: false,
        workspace: "default".to_string(),
        sidebar_section: String::new(),
        position: 0,
        notification_style: NotificationStyle::Full,
        adblock_enabled: true,
        zoom_level: 100,
    }
}

fn record(state: AppRuntimeState) -> AppRuntime {
    AppRuntime {
        state,
        badge_count: None,
        last_interaction: None,
        last_heartbeat: None,
        is_playing_media: false,
        is_visible: false,
        has_unsaved_work: false,
    }
}

fn loading(url: &str) -> AppRuntimeState {
    AppRuntimeState::Loading { target_url: url.to_string() }
}

fn active(url: &str) -> AppRuntimeState {
    AppRuntimeState::Active { current_url: url.to_string() }
}

fn hibernated(url: &str) -> AppRuntimeState {
    AppRuntimeState::Hibernated { last_url: url.to_string() }
}

fn error(message: &str) -> AppRuntimeState {
    AppRuntimeState::Error { message: message.to_string() }
}

fn registry(apps: &[AppConfig]) -> AppManager {
    let mut manager = AppManager::new();
    manager.init_from_config(apps);
    manager
}

fn journal(entries: &[(&str, &str)]) -> SessionState {
    SessionState::new(SessionData::from_entries(
        entries.iter().map(|(k, v)| (k.to_string(), v.to_string())).collect(),
    ))
}

fn state_of(manager: &AppManager, id: &str) -> AppRuntimeState {
    manager.get_state(id).expect("record").state
}

fn visible_ids(manager: &AppManager) -> Vec<String> {
    manager
        .snapshot()
        .into_iter()
        .filter(|(_, rt)| rt.is_visible)
        .map(|(id, _)| id)
        .collect()
}

/// Brings `id` up: both halves of an activation with a surface that loads `url`.
fn bring_up(manager: &mut AppManager, session: &mut SessionState, apps: &[AppConfig], id: &str, now: u64) {
    let plan = activate_app(manager, apps, id, false, now).expect("activation");
    assert!(plan.create_surface);
    assert_eq!(finish_activation(manager, session, id, Ok(())), Ok(true));
    let url = plan.url.clone();
    assert_eq!(on_url_changed(manager, session, id, url), Ok(Transition::Changed));
}

#[test]
fn initial_state_follows_the_configuration() {
    let mut off = app("off", "https://off.example");
    off.enabled = false;
    let mut asleep = app("asleep", "https://asleep.example");
    asleep.hibernated = true;
    let manager = registry(&[app("a", "https://a.example"), off, asleep]);
    assert_eq!(manager.len(), 3);
    assert_eq!(manager.get_state("a"), Some(record(hibernated("https://a.example"))));
    assert_eq!(manager.get_state("off"), Some(record(AppRuntimeState::Disabled)));
    assert_eq!(manager.get_state("asleep"), Some(record(hibernated("https://asleep.example"))));
    assert_eq!(manager.get_state("nobody"), None);
}

#[test]
fn init_replaces_the_record_of_a_repeated_id() {
    let mut second = app("a", "https://second.example");
    second.enabled = false;
    let manager = registry(&[app("a", "https://first.example"), second]);
    assert_eq!(manager.len(), 1);
    assert_eq!(state_of(&manager, "a"), AppRuntimeState::Disabled);
}

#[test]
fn single_field_mutators_change_one_field() {
    let mut manager = registry(&[app("a", "https://a.example")]);
    manager.set_badge_count("a", Some(-1));
    manager.touch_interaction("a", 7);
    manager.touch_heartbeat("a", 9);
    manager.set_visible("a", true);
    manager.set_media_playing("a", true);
    manager.set_has_unsaved_work("a", true);
    manager.set_state("a", active("https://a.example/inbox"));
    assert_eq!(
        manager.get_state("a"),
        Some(AppRuntime {
            state: active("https://a.example/inbox"),
            badge_count: Some(-1),
            last_interaction: Some(7),
            last_heartbeat: Some(9),
            is_playing_media: true,
            is_visible: true,
            has_unsaved_work: true,
        })
    );
    assert!(manager.check_unsaved_work("a"));
    assert!(!manager.check_unsaved_work("nobody"));
    manager.set_badge_count("a", Some(0));
    assert_eq!(manager.get_state("a").unwrap().badge_count, Some(0));
    manager.set_badge_count("a", None);
    assert_eq!(manager.get_state("a").unwrap().badge_count, None);
}

#[test]
fn mutators_leave_an_unknown_id_alone() {
    let mut manager = registry(&[app("a", "https://a.example")]);
    manager.set_state("b", AppRuntimeState::Crashed);
    manager.set_visible("b", true);
    manager.touch_interaction("b", 1);
    assert_eq!(manager.len(), 1);
    assert_eq!(manager.get_state("b"), None);
    assert_eq!(manager.get_state("a"), Some(record(hibernated("https://a.example"))));
}

#[test]
fn remove_drops_the_record() {
    let mut manager = registry(&[app("a", "https://a.example"), app("b", "https://b.example")]);
    manager.remove("a");
    assert_eq!(manager.get_state("a"), None);
    assert_eq!(manager.len(), 1);
    assert_eq!(manager.id_at(0), "b");
    manager.remove("a");
    assert_eq!(manager.len(), 1);
}

#[test]
fn pending_navigation_is_taken_once() {
    let mut manager = registry(&[app("a", "https://a.example")]);
    assert_eq!(manager.take_pending_navigation("a"), None);
    manager.set_pending_navigation("a", "https://a.example/1".to_string());
    manager.set_pending_navigation("a", "https://a.example/2".to_string());
    assert_eq!(manager.take_pending_navigation("a"), Some("https://a.example/2".to_string()));
    assert_eq!(manager.take_pending_navigation("a"), None);
}

#[test]
fn snapshot_copies_every_record() {
    let mut manager = registry(&[app("a", "https://a.example"), app("b", "https://b.example")]);
    let snapshot = manager.snapshot();
    manager.set_state("a", AppRuntimeState::Crashed);
    assert_eq!(
        snapshot,
        vec![
            ("a".to_string(), record(hibernated("https://a.example"))),
            ("b".to_string(), record(hibernated("https://b.example"))),
        ]
    );
}

#[test]
fn show_only_hides_every_other_record() {
    let mut manager = registry(&[
        app("a", "https://a.example"),
        app("b", "https://b.example"),
        app("c", "https://c.example"),
    ]);
    manager.set_visible("a", true);
    manager.set_visible("c", true);
    manager.show_only("b");
    assert_eq!(visible_ids(&manager), vec!["b".to_string()]);
    manager.show_only("nobody");
    assert!(visible_ids(&manager).is_empty());
}

#[test]
fn transition_table_activate() {
    let activate = |surface_exists| LifecycleEvent::Activate {
        default_url: "https://home.example".to_string(),
        surface_exists,
    };
    let mut r = record(hibernated("https://last.example"));
    assert_eq!(r.apply(activate(false)), Transition::Changed);
    assert_eq!(r.state, loading("https://last.example"));
    assert_eq!(r.apply(activate(false)), Transition::Rejected);
    assert_eq!(r.state, loading("https://last.example"));

    for from in [AppRuntimeState::Disabled, AppRuntimeState::Crashed, error("boom")] {
        let mut r = record(from);
        assert_eq!(r.apply(activate(false)), Transition::Changed);
        assert_eq!(r.state, loading("https://home.example"));
    }
    let mut r = record(AppRuntimeState::Crashed);
    assert_eq!(r.apply(activate(true)), Transition::Changed);
    assert_eq!(r.state, active("https://home.example"));

    let mut r = record(active("https://current.example"));
    assert_eq!(r.apply(activate(false)), Transition::Unchanged);
    assert_eq!(r.state, active("https://current.example"));
}

#[test]
fn transition_table_surface_reports() {
    let navigated = || LifecycleEvent::SurfaceNavigated { url: "https://new.example".to_string() };
    let failed = || LifecycleEvent::SurfaceLoadFailed { message: "dns".to_string() };
    for from in [loading("https://x"), active("https://x")] {
        let mut r = record(from);
        assert_eq!(r.apply(navigated()), Transition::Changed);
        assert_eq!(r.state, active("https://new.example"));
    }
    for from in [hibernated("https://x"), AppRuntimeState::Disabled, error("e"), AppRuntimeState::Crashed] {
        let mut r = record(from.clone());
        assert_eq!(r.apply(navigated()), Transition::Rejected);
        assert_eq!(r.state, from);
    }
    let mut r = record(loading("https://x"));
    assert_eq!(r.apply(failed()), Transition::Changed);
    assert_eq!(r.state, error("dns"));
    for from in [active("https://x"), hibernated("https://x"), AppRuntimeState::Disabled, error("e"), AppRuntimeState::Crashed] {
        let mut r = record(from.clone());
        assert_eq!(r.apply(failed()), Transition::Rejected);
        assert_eq!(r.state, from);
    }
}

#[test]
fn transition_table_hibernate() {
    let hibernate = |live: Option<&str>| LifecycleEvent::Hibernate {
        live_url: live.map(|s| s.to_string()),
        default_url: "https://home.example".to_string(),
    };
    for from in [active("https://x"), error("e"), AppRuntimeState::Crashed] {
        let mut r = record(from.clone());
        assert_eq!(r.apply(hibernate(Some("https://live.example"))), Transition::Changed);
        assert_eq!(r.state, hibernated("https://live.example"));
        let mut r = record(from);
        assert_eq!(r.apply(hibernate(None)), Transition::Changed);
        assert_eq!(r.state, hibernated("https://home.example"));
    }
    for from in [loading("https://x"), hibernated("https://x"), AppRuntimeState::Disabled] {
        let mut r = record(from.clone());
        assert_eq!(r.apply(hibernate(Some("https://live.example"))), Transition::Rejected);
        assert_eq!(r.state, from);
    }
}

#[test]
fn transition_table_disable_and_enable() {
    for from in [
        loading("https://x"),
        active("https://x"),
        hibernated("https://x"),
        AppRuntimeState::Disabled,
        error("e"),
        AppRuntimeState::Crashed,
    ] {
        let mut r = record(from.clone());
        assert_eq!(r.apply(LifecycleEvent::Disable), Transition::Changed);
        assert_eq!(r.state, AppRuntimeState::Disabled);

        let mut r = record(from.clone());
        let outcome = r.apply(LifecycleEvent::Enable { default_url: "https://home.example".to_string() });
        if from == AppRuntimeState::Disabled {
            assert_eq!(outcome, Transition::Changed);
            assert_eq!(r.state, hibernated("https://home.example"));
        } else {
            assert_eq!(outcome, Transition::Rejected);
            assert_eq!(r.state, from);
        }
    }
}

#[test]
fn transition_table_kill() {
    let kill = |live: Option<&str>| LifecycleEvent::Kill { live_url: live.map(|s| s.to_string()) };
    let mut r = record(active("https://current.example"));
    assert_eq!(r.apply(kill(None)), Transition::Changed);
    assert_eq!(r.state, hibernated("https://current.example"));
    let mut r = record(active("https://current.example"));
    assert_eq!(r.apply(kill(Some("https://live.example"))), Transition::Changed);
    assert_eq!(r.state, hibernated("https://live.example"));
    let mut r = record(loading("https://target.example"));
    assert_eq!(r.apply(kill(None)), Transition::Changed);
    assert_eq!(r.state, hibernated("https://target.example"));
    let mut r = record(loading("https://target.example"));
    assert_eq!(r.apply(kill(Some("https://live.example"))), Transition::Changed);
    assert_eq!(r.state, hibernated("https://live.example"));
    for from in [error("e"), AppRuntimeState::Crashed] {
        let mut r = record(from.clone());
        assert_eq!(r.apply(kill(Some("https://live.example"))), Transition::Changed);
        assert_eq!(r.state, hibernated("https://live.example"));
        let mut r = record(from);
        assert_eq!(r.apply(kill(None)), Transition::Changed);
        assert_eq!(r.state, hibernated(""));
    }
    for from in [hibernated("https://x"), AppRuntimeState::Disabled] {
        let mut r = record(from.clone());
        assert_eq!(r.apply(kill(Some("https://live.example"))), Transition::Unchanged);
        assert_eq!(r.state, from);
    }
}

#[test]
fn transition_table_supervisor_events() {
    let mut r = record(active("https://x"));
    assert_eq!(r.apply(LifecycleEvent::HeartbeatTimeout), Transition::Rejected);
    r.is_visible = true;
    assert_eq!(r.apply(LifecycleEvent::HeartbeatTimeout), Transition::Changed);
    assert_eq!(r.state, AppRuntimeState::Crashed);
    let mut r = record(loading("https://x"));
    r.is_visible = true;
    assert_eq!(r.apply(LifecycleEvent::HeartbeatTimeout), Transition::Rejected);

    let mut r = record(loading("https://x"));
    r.last_interaction = Some(1000);
    assert_eq!(r.apply(LifecycleEvent::StuckLoadTimeout { now: 31_000 }), Transition::Rejected);
    assert_eq!(r.apply(LifecycleEvent::StuckLoadTimeout { now: 31_001 }), Transition::Changed);
    assert_eq!(r.state, error("Page took too long to load"));
    let mut r = record(active("https://x"));
    r.last_interaction = Some(0);
    assert_eq!(r.apply(LifecycleEvent::StuckLoadTimeout { now: 100_000 }), Transition::Rejected);
}

#[test]
fn classify_tells_what_apply_does() {
    let event = LifecycleEvent::Hibernate { live_url: None, default_url: String::new() };
    assert_eq!(record(active("https://x")).classify(&event), Transition::Changed);
    assert_eq!(record(loading("https://x")).classify(&event), Transition::Rejected);
    assert_eq!(
        record(hibernated("https://x")).classify(&LifecycleEvent::Kill { live_url: None }),
        Transition::Unchanged
    );
}

#[test]
fn losing_the_surface_clears_heartbeat_and_visibility() {
    let mut r = record(active("https://x"));
    r.is_visible = true;
    r.last_heartbeat = Some(5);
    r.last_interaction = Some(6);
    r.badge_count = Some(3);
    assert_eq!(
        r.apply(LifecycleEvent::Hibernate { live_url: None, default_url: "https://h".to_string() }),
        Transition::Changed
    );
    assert_eq!(
        r,
        AppRuntime {
            state: hibernated("https://h"),
            badge_count: Some(3),
            last_interaction: Some(6),
            last_heartbeat: None,
            is_playing_media: false,
            is_visible: false,
            has_unsaved_work: false,
        }
    );
}

#[test]
fn activation_creates_a_surface_for_a_sleeping_instance() {
    let apps = [app("a", "https://a.example")];
    let mut manager = registry(&apps);
    let mut session = journal(&[]);
    manager.set_state("a", hibernated("https://a.example/last"));
    let plan = activate_app(&mut manager, &apps, "a", false, 5000);
    assert_eq!(
        plan,
        Ok(Activation { url: "https://a.example/last".to_string(), create_surface: true })
    );
    let rt = manager.get_state("a").unwrap();
    assert_eq!(rt.state, loading("https://a.example/last"));
    assert_eq!(rt.last_interaction, Some(5000));
    assert!(!rt.is_visible);
    assert_eq!(finish_activation(&mut manager, &mut session, "a", Ok(())), Ok(true));
    assert!(manager.get_state("a").unwrap().is_visible);
    assert_eq!(session.url_of("a"), Some(&"https://a.example/last".to_string()));
    assert_eq!(
        on_url_changed(&mut manager, &mut session, "a", "https://a.example/inbox".to_string()),
        Ok(Transition::Changed)
    );
    assert_eq!(state_of(&manager, "a"), active("https://a.example/inbox"));
    assert_eq!(session.url_of("a"), Some(&"https://a.example/inbox".to_string()));
}

#[test]
fn activation_twice_asks_for_one_surface() {
    let apps = [app("a", "https://a.example")];
    let mut manager = registry(&apps);
    let mut session = journal(&[]);
    bring_up(&mut manager, &mut session, &apps, "a", 1000);
    manager.set_state("a", active("https://a.example/deep"));
    for now in [2000, 3000] {
        let plan = activate_app(&mut manager, &apps, "a", true, now).unwrap();
        assert_eq!(plan, Activation { url: "https://a.example/deep".to_string(), create_surface: false });
        assert_eq!(finish_activation(&mut manager, &mut session, "a", Ok(())), Ok(true));
        assert_eq!(state_of(&manager, "a"), active("https://a.example/deep"));
        assert_eq!(manager.get_state("a").unwrap().last_interaction, Some(now));
    }
}

#[test]
fn activation_while_loading_asks_for_no_second_surface() {
    let apps = [app("a", "https://a.example")];
    let mut manager = registry(&apps);
    assert!(activate_app(&mut manager, &apps, "a", false, 1000).unwrap().create_surface);
    let again = activate_app(&mut manager, &apps, "a", false, 9000).unwrap();
    assert_eq!(again, Activation { url: "https://a.example".to_string(), create_surface: false });
    assert_eq!(manager.get_state("a").unwrap().last_interaction, Some(1000));
}

#[test]
fn activation_with_a_surface_left_goes_active_at_once() {
    let apps = [app("a", "https://a.example")];
    let mut manager = registry(&apps);
    manager.set_state("a", AppRuntimeState::Crashed);
    let plan = activate_app(&mut manager, &apps, "a", true, 10).unwrap();
    assert_eq!(plan, Activation { url: "https://a.example".to_string(), create_surface: false });
    assert_eq!(state_of(&manager, "a"), active("https://a.example"));
}

#[test]
fn activation_errors() {
    let mut off = app("off", "https://off.example");
    off.enabled = false;
    let apps = [app("a", "https://a.example"), off, app("ghost", "https://ghost.example")];
    let mut manager = registry(&apps);
    manager.remove("ghost");
    let before = manager.snapshot();
    assert_eq!(activate_app(&mut manager, &apps, "nobody", false, 1), Err(LifecycleError::UnknownInstance));
    assert_eq!(activate_app(&mut manager, &apps, "ghost", false, 1), Err(LifecycleError::UnknownInstance));
    assert_eq!(activate_app(&mut manager, &apps, "off", false, 1), Err(LifecycleError::InstanceDisabled));
    assert_eq!(manager.snapshot(), before);
}

#[test]
fn failed_creation_ends_in_error() {
    let apps = [app("a", "https://a.example"), app("b", "https://b.example")];
    let mut manager = registry(&apps);
    let mut session = journal(&[]);
    bring_up(&mut manager, &mut session, &apps, "b", 1);
    assert!(activate_app(&mut manager, &apps, "a", false, 2).unwrap().create_surface);
    assert_eq!(
        finish_activation(&mut manager, &mut session, "a", Err("no window".to_string())),
        Err(LifecycleError::SurfaceCreateFailed { message: "no window".to_string() })
    );
    assert_eq!(state_of(&manager, "a"), error("no window"));
    assert_eq!(visible_ids(&manager), vec!["b".to_string()]);
    assert_eq!(session.url_of("a"), None);
    assert_eq!(
        finish_activation(&mut manager, &mut session, "nobody", Ok(())),
        Err(LifecycleError::UnknownInstance)
    );
}

#[test]
fn finish_activation_shows_nothing_without_a_surface_state() {
    let apps = [app("a", "https://a.example")];
    let mut manager = registry(&apps);
    let mut session = journal(&[]);
    assert_eq!(finish_activation(&mut manager, &mut session, "a", Ok(())), Ok(false));
    assert!(visible_ids(&manager).is_empty());
    assert!(session.is_empty());
}

#[test]
fn at_most_one_instance_is_visible_after_activations() {
    let apps = [
        app("a", "https://a.example"),
        app("b", "https://b.example"),
        app("c", "https://c.example"),
    ];
    let mut manager = registry(&apps);
    let mut session = journal(&[]);
    let mut now = 0;
    for id in ["a", "b", "a", "c", "c", "b", "nobody", "a"] {
        now += 1000;
        if let Ok(plan) = activate_app(&mut manager, &apps, id, false, now) {
            let created = if id == "c" && plan.create_surface { Err("boom".to_string()) } else { Ok(()) };
            let _ = finish_activation(&mut manager, &mut session, id, created);
        }
        assert!(visible_ids(&manager).len() <= 1, "after {}", id);
    }
    assert_eq!(visible_ids(&manager), vec!["a".to_string()]);
}

#[test]
fn hibernate_keeps_the_live_url_and_clears_the_journal() {
    let apps = [app("a", "https://a.example")];
    let mut manager = registry(&apps);
    let mut session = journal(&[]);
    bring_up(&mut manager, &mut session, &apps, "a", 1);
    let event = LifecycleEvent::Hibernate { live_url: None, default_url: String::new() };
    assert_eq!(teardown_due(&manager, "a", &event), Ok(true));
    assert_eq!(
        hibernate_app(&mut manager, &mut session, &apps, "a", Ok(Some("https://a.example/live".to_string()))),
        Ok(Transition::Changed)
    );
    assert_eq!(manager.get_state("a"), Some(AppRuntime { last_interaction: Some(1), ..record(hibernated("https://a.example/live")) }));
    assert_eq!(session.url_of("a"), None);
    assert_eq!(teardown_due(&manager, "a", &event), Ok(false));
    assert_eq!(teardown_due(&manager, "nobody", &event), Err(LifecycleError::UnknownInstance));
}

#[test]
fn hibernate_proceeds_when_the_surface_cannot_be_destroyed() {
    let apps = [app("a", "https://a.example")];
    let mut manager = registry(&apps);
    let mut session = journal(&[]);
    bring_up(&mut manager, &mut session, &apps, "a", 1);
    manager.set_state("a", active("https://a.example/deep"));
    assert_eq!(
        hibernate_app(&mut manager, &mut session, &apps, "a", Err("close failed".to_string())),
        Ok(Transition::Changed)
    );
    assert_eq!(state_of(&manager, "a"), hibernated("https://a.example"));
    assert!(session.is_empty());
}

#[test]
fn hibernate_leaves_a_loading_instance_alone() {
    let apps = [app("a", "https://a.example")];
    let mut manager = registry(&apps);
    let mut session = journal(&[("a", "https://a.example")]);
    manager.set_state("a", loading("https://a.example"));
    assert_eq!(
        hibernate_app(&mut manager, &mut session, &apps, "a", Ok(None)),
        Ok(Transition::Rejected)
    );
    assert_eq!(state_of(&manager, "a"), loading("https://a.example"));
    assert_eq!(session.url_of("a"), Some(&"https://a.example".to_string()));
    assert_eq!(
        hibernate_app(&mut manager, &mut session, &apps, "nobody", Ok(None)),
        Err(LifecycleError::UnknownInstance)
    );
}

#[test]
fn kill_hibernates_a_live_instance() {
    let apps = [app("a", "https://a.example"), app("b", "https://b.example")];
    let mut manager = registry(&apps);
    let mut session = journal(&[]);
    bring_up(&mut manager, &mut session, &apps, "a", 1);
    manager.set_state("a", active("https://a.example/deep"));
    assert_eq!(kill_app(&mut manager, &mut session, "a", Ok(None)), Ok(Transition::Changed));
    assert_eq!(state_of(&manager, "a"), hibernated("https://a.example/deep"));
    assert!(session.is_empty());
    assert_eq!(kill_app(&mut manager, &mut session, "b", Ok(None)), Ok(Transition::Unchanged));
    assert_eq!(state_of(&manager, "b"), hibernated("https://b.example"));
    assert_eq!(kill_app(&mut manager, &mut session, "nobody", Ok(None)), Err(LifecycleError::UnknownInstance));
}

#[test]
fn disable_and_enable() {
    let apps = [app("a", "https://a.example")];
    let mut manager = registry(&apps);
    let mut session = journal(&[]);
    bring_up(&mut manager, &mut session, &apps, "a", 1);
    assert_eq!(disable_app(&mut manager, &mut session, "a"), Ok(Transition::Changed));
    assert_eq!(state_of(&manager, "a"), AppRuntimeState::Disabled);
    assert!(session.is_empty());
    assert_eq!(enable_app(&mut manager, &apps, "a"), Ok(Transition::Changed));
    assert_eq!(state_of(&manager, "a"), hibernated("https://a.example"));
    assert_eq!(enable_app(&mut manager, &apps, "a"), Ok(Transition::Rejected));
    assert_eq!(state_of(&manager, "a"), hibernated("https://a.example"));
    assert_eq!(enable_app(&mut manager, &apps, "nobody"), Err(LifecycleError::UnknownInstance));
    assert_eq!(disable_app(&mut manager, &mut session, "nobody"), Err(LifecycleError::UnknownInstance));
}

#[test]
fn late_surface_reports_change_nothing() {
    let apps = [app("a", "https://a.example")];
    let mut manager = registry(&apps);
    let mut session = journal(&[]);
    assert_eq!(
        on_url_changed(&mut manager, &mut session, "a", "https://late.example".to_string()),
        Ok(Transition::Rejected)
    );
    assert_eq!(on_page_load_error(&mut manager, "a", "late".to_string()), Ok(Transition::Rejected));
    assert_eq!(state_of(&manager, "a"), hibernated("https://a.example"));
    assert!(session.is_empty());
    assert_eq!(
        on_url_changed(&mut manager, &mut session, "nobody", "https://x".to_string()),
        Err(LifecycleError::UnknownInstance)
    );
    assert_eq!(on_page_load_error(&mut manager, "nobody", "x".to_string()), Err(LifecycleError::UnknownInstance));
}

#[test]
fn page_load_error_ends_a_load() {
    let apps = [app("a", "https://a.example")];
    let mut manager = registry(&apps);
    manager.set_state("a", loading("https://a.example"));
    assert_eq!(on_page_load_error(&mut manager, "a", "tls".to_string()), Ok(Transition::Changed));
    assert_eq!(state_of(&manager, "a"), error("tls"));
}

#[test]
fn heartbeat_is_recorded_for_a_live_instance_only() {
    let apps = [app("a", "https://a.example"), app("b", "https://b.example")];
    let mut manager = registry(&apps);
    manager.set_state("a", active("https://a.example"));
    assert_eq!(heartbeat(&mut manager, "a", 77), Ok(()));
    assert_eq!(heartbeat(&mut manager, "b", 77), Ok(()));
    assert_eq!(heartbeat(&mut manager, "nobody", 77), Err(LifecycleError::UnknownInstance));
    assert_eq!(manager.get_state("a").unwrap().last_heartbeat, Some(77));
    assert_eq!(manager.get_state("b").unwrap().last_heartbeat, None);
}

#[test]
fn idle_instance_is_hibernated_after_its_timeout() {
    let apps = [app("A", "https://a.example")];
    let mut manager = registry(&apps);
    let mut session = journal(&[]);
    let start = 100 * MINUTE;
    bring_up(&mut manager, &mut session, &apps, "A", start);
    on_url_changed(&mut manager, &mut session, "A", "https://a.example/last".to_string()).unwrap();
    assert_eq!(session.url_of("A"), Some(&"https://a.example/last".to_string()));
    let now = start + 16 * MINUTE;
    assert_eq!(auto_hibernate_candidates(&manager, &apps, now), vec!["A".to_string()]);
    assert_eq!(
        auto_hibernate_app(&mut manager, &mut session, &apps, "A", Ok(Some("https://a.example/last".to_string())), now),
        Ok(Transition::Changed)
    );
    assert_eq!(state_of(&manager, "A"), hibernated("https://a.example/last"));
    assert_eq!(session.url_of("A"), None);
    assert!(session.is_empty());
}

#[test]
fn idle_instance_stays_before_its_timeout() {
    let apps = [app("a", "https://a.example")];
    let mut manager = registry(&apps);
    let mut session = journal(&[]);
    bring_up(&mut manager, &mut session, &apps, "a", 0);
    assert!(auto_hibernate_candidates(&manager, &apps, 15 * MINUTE - 1).is_empty());
    assert_eq!(auto_hibernate_candidates(&manager, &apps, 15 * MINUTE), vec!["a".to_string()]);
    assert_eq!(
        auto_hibernate_app(&mut manager, &mut session, &apps, "a", Ok(None), 15 * MINUTE - 1),
        Ok(Transition::Rejected)
    );
    assert_eq!(state_of(&manager, "a"), active("https://a.example"));
    assert_eq!(session.url_of("a"), Some(&"https://a.example".to_string()));
}

#[test]
fn no_hibernation_within_a_minute_of_an_interaction() {
    let mut short = app("a", "https://a.example");
    short.hibernation_timeout_minutes = 1;
    let apps = [short];
    let mut manager = registry(&apps);
    let mut session = journal(&[]);
    bring_up(&mut manager, &mut session, &apps, "a", 0);
    manager.touch_interaction("a", 10 * SECOND);
    let now = 60 * SECOND;
    assert!(auto_hibernate_candidates(&manager, &apps, now).is_empty());
    assert_eq!(
        auto_hibernate_app(&mut manager, &mut session, &apps, "a", Ok(None), now),
        Ok(Transition::Rejected)
    );
    assert_eq!(state_of(&manager, "a"), active("https://a.example"));
    assert_eq!(auto_hibernate_candidates(&manager, &apps, 70 * SECOND), vec!["a".to_string()]);
}

#[test]
fn no_hibernation_for_timeout_zero_media_or_missing_interaction() {
    let mut never = app("never", "https://never.example");
    never.hibernation_timeout_minutes = 0;
    let apps = [never, app("media", "https://media.example"), app("fresh", "https://fresh.example"), app("asleep", "https://asleep.example")];
    let mut manager = registry(&apps);
    for id in ["never", "media", "fresh"] {
        manager.set_state(id, active("https://x"));
        manager.touch_interaction(id, 0);
    }
    manager.set_media_playing("media", true);
    manager.set_state("fresh", active("https://x"));
    let mut fresh = manager.get_state("fresh").unwrap();
    fresh.last_interaction = None;
    manager.remove("fresh");
    let _ = fresh;
    manager.touch_interaction("asleep", 0);
    assert!(auto_hibernate_candidates(&manager, &apps, 1000 * MINUTE).is_empty());
    let mut session = journal(&[]);
    assert_eq!(
        auto_hibernate_app(&mut manager, &mut session, &apps, "fresh", Ok(None), 1000 * MINUTE),
        Err(LifecycleError::UnknownInstance)
    );
}

#[test]
fn reverify_spares_an_instance_that_was_touched_meanwhile() {
    let apps = [app("a", "https://a.example")];
    let mut manager = registry(&apps);
    let mut session = journal(&[]);
    bring_up(&mut manager, &mut session, &apps, "a", 0);
    let now = 20 * MINUTE;
    assert_eq!(auto_hibernate_candidates(&manager, &apps, now), vec!["a".to_string()]);
    manager.touch_interaction("a", now - 1);
    assert_eq!(
        auto_hibernate_app(&mut manager, &mut session, &apps, "a", Ok(None), now),
        Ok(Transition::Rejected)
    );
    assert_eq!(state_of(&manager, "a"), active("https://a.example"));
}

#[test]
fn stuck_load_becomes_an_error() {
    let apps = [app("B", "https://b.example")];
    let mut manager = registry(&apps);
    manager.set_state("B", hibernated("https://x"));
    let t0 = 5 * MINUTE;
    let plan = activate_app(&mut manager, &apps, "B", false, t0).unwrap();
    assert_eq!(plan, Activation { url: "https://x".to_string(), create_surface: true });
    assert_eq!(state_of(&manager, "B"), loading("https://x"));
    assert!(crash_detection_sweep(&mut manager, t0 + 30 * SECOND).is_empty());
    assert_eq!(state_of(&manager, "B"), loading("https://x"));
    let found = crash_detection_sweep(&mut manager, t0 + 31 * SECOND);
    assert_eq!(found, vec![Detection { app_id: "B".to_string(), cause: LifecycleError::LoadTimedOut }]);
    assert_eq!(state_of(&manager, "B"), error("Page took too long to load"));
    assert!(crash_detection_sweep(&mut manager, t0 + 60 * SECOND).is_empty());
}

#[test]
fn lost_heartbeat_crashes_the_visible_instance_only() {
    let apps = [app("shown", "https://s.example"), app("hidden", "https://h.example"), app("silent", "https://q.example")];
    let mut manager = registry(&apps);
    for id in ["shown", "hidden", "silent"] {
        manager.set_state(id, active("https://x"));
    }
    manager.touch_heartbeat("shown", 0);
    manager.touch_heartbeat("hidden", 0);
    manager.show_only("shown");
    assert!(crash_detection_sweep(&mut manager, 90 * SECOND).is_empty());
    let found = crash_detection_sweep(&mut manager, 200 * SECOND);
    assert_eq!(found, vec![Detection { app_id: "shown".to_string(), cause: LifecycleError::HeartbeatLost }]);
    assert_eq!(state_of(&manager, "shown"), AppRuntimeState::Crashed);
    assert_eq!(state_of(&manager, "hidden"), active("https://x"));
    assert_eq!(state_of(&manager, "silent"), active("https://x"));
    assert!(visible_ids(&manager).is_empty());
    manager.show_only("silent");
    assert!(crash_detection_sweep(&mut manager, 1000 * SECOND).is_empty());
    assert_eq!(state_of(&manager, "silent"), active("https://x"));
}

#[test]
fn recovery_uses_the_journaled_url() {
    let apps = [app("C", "https://c.example")];
    let mut manager = registry(&apps);
    let mut session = journal(&[("C", "https://y/path")]);
    let plan = startup_plan(&apps, &session);
    assert_eq!(plan, vec![SurfaceRequest { app_id: "C".to_string(), url: "https://y/path".to_string() }]);
    let outcomes: Vec<SurfaceOutcome> = plan
        .into_iter()
        .map(|r| SurfaceOutcome { app_id: r.app_id, url: r.url, created: Ok(()) })
        .collect();
    let report = frontend_ready(&mut manager, &mut session, &outcomes, 42);
    assert_eq!(report, StartupReport { first_active: Some("C".to_string()), recovered: 1 });
    assert!(session.is_empty());
    assert_eq!(
        manager.get_state("C"),
        Some(AppRuntime { last_interaction: Some(42), is_visible: true, ..record(loading("https://y/path")) })
    );
}

#[test]
fn startup_plan_follows_configuration_and_journal() {
    let mut off = app("off", "https://off.example");
    off.enabled = false;
    let mut asleep = app("asleep", "https://asleep.example");
    asleep.hibernated = true;
    let mut woken = app("woken", "https://woken.example");
    woken.hibernated = true;
    let apps = [app("a", "https://a.example"), off, asleep, woken, app("blank", "https://blank.example")];
    let session = journal(&[("woken", "https://woken.example/deep"), ("off", "https://off.example/x"), ("blank", ""), ("gone", "https://gone.example")]);
    assert_eq!(
        startup_plan(&apps, &session),
        vec![
            SurfaceRequest { app_id: "a".to_string(), url: "https://a.example".to_string() },
            SurfaceRequest { app_id: "woken".to_string(), url: "https://woken.example/deep".to_string() },
            SurfaceRequest { app_id: "blank".to_string(), url: "https://blank.example".to_string() },
        ]
    );
}

#[test]
fn startup_shows_the_first_surface_that_came_up() {
    let apps = [app("a", "https://a.example"), app("b", "https://b.example"), app("c", "https://c.example")];
    let mut manager = registry(&apps);
    let mut session = journal(&[]);
    let outcomes = vec![
        SurfaceOutcome { app_id: "a".to_string(), url: "https://a.example".to_string(), created: Err("boom".to_string()) },
        SurfaceOutcome { app_id: "ghost".to_string(), url: "https://g.example".to_string(), created: Ok(()) },
        SurfaceOutcome { app_id: "b".to_string(), url: "https://b.example".to_string(), created: Ok(()) },
        SurfaceOutcome { app_id: "c".to_string(), url: "https://c.example".to_string(), created: Ok(()) },
    ];
    let report = frontend_ready(&mut manager, &mut session, &outcomes, 9);
    assert_eq!(report, StartupReport { first_active: Some("b".to_string()), recovered: 0 });
    assert_eq!(state_of(&manager, "a"), error("boom"));
    assert_eq!(state_of(&manager, "b"), loading("https://b.example"));
    assert_eq!(state_of(&manager, "c"), loading("https://c.example"));
    assert_eq!(visible_ids(&manager), vec!["b".to_string()]);
    assert_eq!(manager.len(), 3);
    let none = frontend_ready(&mut manager, &mut session, &Vec::new(), 10);
    assert_eq!(none, StartupReport { first_active: None, recovered: 0 });
    assert_eq!(visible_ids(&manager), vec!["b".to_string()]);
}

#[test]
fn app_states_for_the_user_interface() {
    let apps = [app("a", "https://a.example"), app("b", "https://b.example"), app("c", "https://c.example"), app("d", "https://d.example")];
    let mut manager = registry(&apps);
    manager.set_state("a", active("https://a.example/inbox"));
    manager.set_badge_count("a", Some(4));
    manager.set_state("b", error("dns"));
    manager.set_state("c", AppRuntimeState::Crashed);
    manager.remove("d");
    let infos = get_app_states(&manager, &apps);
    let summary: Vec<(String, String, Option<i32>, Option<String>, Option<String>)> = infos
        .into_iter()
        .map(|i| (i.id, i.state, i.badge_count, i.current_url, i.error_message))
        .collect();
    assert_eq!(
        summary,
        vec![
            ("a".to_string(), "active".to_string(), Some(4), Some("https://a.example/inbox".to_string()), None),
            ("b".to_string(), "error".to_string(), None, None, Some("dns".to_string())),
            ("c".to_string(), "crashed".to_string(), None, None, None),
            ("d".to_string(), "disabled".to_string(), None, None, None),
        ]
    );
    let mut manager = registry(&apps);
    manager.set_state("a", loading("https://a.example"));
    let infos = get_app_states(&manager, &apps[..2]);
    assert_eq!(infos[0].state, "loading");
    assert_eq!(infos[0].name, "App a");
    assert_eq!(infos[1].state, "hibernated");
    assert_eq!(infos[1].current_url, Some("https://b.example".to_string()));
}

#[test]
fn closing_the_window_journals_live_instances() {
    let apps = [app("a", "https://a.example"), app("b", "https://b.example"), app("c", "https://c.example")];
    let mut manager = registry(&apps);
    manager.set_state("a", active("https://a.example/now"));
    manager.set_state("b", loading("https://b.example/next"));
    let mut session = journal(&[("a", "https://a.example/old"), ("c", "https://c.example/kept")]);
    journal_live_instances(&manager, &mut session);
    let mut entries = session.get_previous_session();
    entries.sort();
    assert_eq!(
        entries,
        vec![
            ("a".to_string(), "https://a.example/now".to_string()),
            ("b".to_string(), "https://b.example/next".to_string()),
            ("c".to_string(), "https://c.example/kept".to_string()),
        ]
    );
}

#[test]
fn journal_basics() {
    let mut session = SessionState::new(SessionData::default());
    assert!(session.is_empty());
    session.set_active("a", "https://a.example");
    session.set_active("b", "https://b.example");
    session.set_active("a", "https://a.example/2");
    assert_eq!(session.len(), 2);
    assert_eq!(session.url_of("a"), Some(&"https://a.example/2".to_string()));
    session.remove("a");
    session.remove("nobody");
    assert_eq!(session.get_previous_session(), vec![("b".to_string(), "https://b.example".to_string())]);
    session.clear();
    assert!(session.is_empty());
    assert_eq!(session.len(), 0);
    let later = journal(&[("x", "1"), ("y", "2"), ("x", "3")]);
    assert_eq!(later.get_previous_session(), vec![("x".to_string(), "3".to_string()), ("y".to_string(), "2".to_string())]);
}

#[test]
fn startup_leaves_a_live_record_alone() {
    let apps = [app("a", "https://a.example"), app("b", "https://b.example")];
    let mut manager = registry(&apps);
    let mut session = journal(&[("a", "https://a.example/old")]);
    manager.set_state("a", active("https://a.example/now"));
    manager.touch_interaction("a", 5);
    manager.set_state("b", AppRuntimeState::Crashed);
    let outcomes = vec![
        SurfaceOutcome { app_id: "a".to_string(), url: "https://a.example/old".to_string(), created: Ok(()) },
        SurfaceOutcome { app_id: "b".to_string(), url: "https://b.example".to_string(), created: Ok(()) },
    ];
    let report = frontend_ready(&mut manager, &mut session, &outcomes, 100);
    assert_eq!(report, StartupReport { first_active: Some("a".to_string()), recovered: 1 });
    assert_eq!(
        manager.get_state("a"),
        Some(AppRuntime { last_interaction: Some(5), is_visible: true, ..record(active("https://a.example/now")) })
    );
    assert_eq!(
        manager.get_state("b"),
        Some(AppRuntime { last_interaction: Some(100), ..record(loading("https://b.example")) })
    );
}

#[test]
fn one_pass_finds_lost_heartbeats_and_stuck_loads() {
    let apps = [app("a", "https://a.example"), app("b", "https://b.example"), app("c", "https://c.example")];
    let mut manager = registry(&apps);
    manager.set_state("a", loading("https://a.example"));
    manager.touch_interaction("a", 0);
    manager.set_state("b", active("https://b.example"));
    manager.touch_heartbeat("b", 0);
    manager.show_only("b");
    manager.set_state("c", loading("https://c.example"));
    let found = crash_detection_sweep(&mut manager, 91 * SECOND);
    assert_eq!(
        found,
        vec![
            Detection { app_id: "a".to_string(), cause: LifecycleError::LoadTimedOut },
            Detection { app_id: "b".to_string(), cause: LifecycleError::HeartbeatLost },
        ]
    );
    assert_eq!(state_of(&manager, "a"), error("Page took too long to load"));
    assert_eq!(state_of(&manager, "b"), AppRuntimeState::Crashed);
    assert_eq!(state_of(&manager, "c"), loading("https://c.example"));
    assert_eq!(manager.get_state("b").unwrap().last_heartbeat, None);
}

#[test]
fn elapsed_time_is_never_negative() {
    assert_eq!(elapsed_millis(1000, 1999), 999);
    assert_eq!(elapsed_millis(1000, 1000), 0);
    assert_eq!(elapsed_millis(2000, 1000), 0);
    assert_eq!(elapsed_millis(0, u64::MAX), u64::MAX);
}

#[test]
fn thresholds_are_held_to_the_millisecond() {
    let apps = [app("hb", "https://h.example"), app("load", "https://l.example")];
    let mut manager = registry(&apps);
    manager.set_state("hb", active("https://h.example"));
    manager.touch_heartbeat("hb", 500);
    manager.show_only("hb");
    manager.set_state("load", loading("https://l.example"));
    manager.touch_interaction("load", 500);
    assert!(crash_detection_sweep(&mut manager, 30_500).is_empty());
    assert_eq!(
        crash_detection_sweep(&mut manager, 30_501),
        vec![Detection { app_id: "load".to_string(), cause: LifecycleError::LoadTimedOut }]
    );
    assert!(crash_detection_sweep(&mut manager, 90_500).is_empty());
    assert_eq!(state_of(&manager, "hb"), active("https://h.example"));
    assert_eq!(
        crash_detection_sweep(&mut manager, 90_501),
        vec![Detection { app_id: "hb".to_string(), cause: LifecycleError::HeartbeatLost }]
    );
    assert_eq!(state_of(&manager, "hb"), AppRuntimeState::Crashed);
}

#[test]
fn idle_timeout_is_held_to_the_millisecond() {
    let mut two = app("a", "https://a.example");
    two.hibernation_timeout_minutes = 2;
    let apps = [two];
    let mut manager = registry(&apps);
    manager.set_state("a", active("https://a.example"));
    manager.touch_interaction("a", 7);
    assert!(auto_hibernate_candidates(&manager, &apps, 7 + 2 * MINUTE - 1).is_empty());
    assert_eq!(auto_hibernate_candidates(&manager, &apps, 7 + 2 * MINUTE), vec!["a".to_string()]);
    assert!(auto_hibernate_candidates(&manager, &apps, 0).is_empty());
}

#[test]
fn killing_a_loading_instance_keeps_its_target() {
    let apps = [app("a", "https://a.example")];
    let mut manager = registry(&apps);
    let mut session = journal(&[]);
    manager.set_state("a", hibernated("https://a.example/deep"));
    assert!(activate_app(&mut manager, &apps, "a", false, 1).unwrap().create_surface);
    assert_eq!(finish_activation(&mut manager, &mut session, "a", Ok(())), Ok(true));
    assert_eq!(session.url_of("a"), Some(&"https://a.example/deep".to_string()));
    assert_eq!(kill_app(&mut manager, &mut session, "a", Ok(None)), Ok(Transition::Changed));
    assert_eq!(state_of(&manager, "a"), hibernated("https://a.example/deep"));
    assert!(session.is_empty());
    let again = activate_app(&mut manager, &apps, "a", false, 2).unwrap();
    assert_eq!(again, Activation { url: "https://a.example/deep".to_string(), create_surface: true });
    assert_eq!(
        kill_app(&mut manager, &mut session, "a", Err("close failed".to_string())),
        Ok(Transition::Changed)
    );
    assert_eq!(state_of(&manager, "a"), hibernated("https://a.example/deep"));
}
