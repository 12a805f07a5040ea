use orbly::adblock::engine::AdblockState;
use orbly::app_manager::init_script::{build_initialization_script, join, notification_style_name};
use orbly::commands::adblock_commands::{cosmetic_remove_script, cosmetic_update_script, toggle_adblock};
use orbly::commands::audio_commands::{get_audio_mute_init_script, get_mute_script};
use orbly::commands::find_commands::{clear_find_in_page, find_in_page, get_find_count};
use orbly::config::models::{AppConfig, DarkModeType, NotificationStyle};
use orbly::commands::link_routing_commands::navigate_script;
use orbly::darkmode::{dark_mode_name, parse_dark_mode, toggle_dark_mode, DarkModeManager};
use orbly::downloads::retry_download_script;
use orbly::notifications::badge_scripts::badge_scrape_script;
use orbly::notifications::scripts::notification_intercept_script;
use orbly::recipes::ServiceRecipe;

fn app(id: &str, url: &str) -> AppConfig {
    AppConfig {
        id: id.to_string(),
        name: format!("App {}", id),
        service_type: "custom".to_string(),
        url: url.to_string(),
        icon: String::new(),
        data_store_uuid: 0,
        enabled: true,
        hibernated: false,
        audio_muted: false,
        user_agent: String::new(),
        custom_css: String::new(),
        custom_js: String::new(),
        proxy: String::new(),
        dark_mode: DarkModeType::Off,
        dark_mode_brightness: 100,
        dark_mode_contrast: 90,
        dark_mode_sepia: 10,
        dark_mode_bg_color: String::new(),
        dark_mode_text_color: String::new(),
        hibernation_timeout_minutes: 15,
        download_directory: "~/Downloads".to_string(),
        skip_download_dialog: false,
        workspace: "default".to_string(),
        sidebar_section: String::new(),
        position: 0,
        notification_style: NotificationStyle::Full,
        adblock_enabled: true,
        zoom_level: 100,
    }
}

fn intercept(app_id: &str, style: &str) -> String {
    format!(
        r#"
(function() {{
    'use strict';
    const ORBLY_APP_ID = '{}';
    const ORBLY_NOTIFICATION_STYLE = '{}';

    class OrblyNotification {{
        constructor(title, options = {{}}) {{
            if (window.__TAURI_INTERNALS__) {{
                const payload = {{
                    app_id: ORBLY_APP_ID,
                    title: title,
                    body: options.body || '',
                    icon: options.icon || '',
                    tag: options.tag || '',
                    style: ORBLY_NOTIFICATION_STYLE,
                }};
                window.__TAURI_INTERNALS__.invoke('on_web_notification', {{ notification: payload }}).catch(function() {{}});
            }}

            this._title = title;
            this._options = options;
            this.onclick = null;
            this.onclose = null;
            this.onerror = null;
            this.onshow = null;
        }}

        get title() {{ return this._title; }}
        get body() {{ return this._options.body || ''; }}
        get icon() {{ return this._options.icon || ''; }}
        get tag() {{ return this._options.tag || ''; }}

        close() {{}}

        static get permission() {{ return 'granted'; }}
        static requestPermission(callback) {{
            var result = Promise.resolve('granted');
            if (callback) callback('granted');
            return result;
        }}
    }}

    window.Notification = OrblyNotification;
}})();
"#,
        app_id, style
    )
}

fn badge(app_id: &str) -> String {
    format!(
        r#"
(function() {{
    'use strict';
    var ORBLY_APP_ID = '{}';
    var lastReportedCount = undefined;

    function scrapeBadgeCount() {{
        var count = null;

        var titleMatch = document.title.match(/^\((\d+)\)/);
        if (titleMatch) {{
            count = parseInt(titleMatch[1], 10);
        }}

        if (count === null) {{
            var el = document.querySelector('[data-unread-count]');
            if (el) {{
                var attrVal = parseInt(el.getAttribute('data-unread-count'), 10);
                if (!isNaN(attrVal)) {{
                    count = attrVal;
                }}
            }}

            if (count === null) {{
                var selectors = [
                    '.unread-count',
                    '.badge-count',
                    '.notification-badge'
                ];
                for (var i = 0; i < selectors.length; i++) {{
                    var badgeEl = document.querySelector(selectors[i]);
                    if (badgeEl) {{
                        var text = badgeEl.textContent.trim();
                        var num = parseInt(text, 10);
                        if (!isNaN(num)) {{
                            count = num;
                            break;
                        }} else if (badgeEl.getClientRects().length > 0) {{
                            count = -1;
                            break;
                        }}
                    }}
                }}
            }}
        }}

        if (count !== lastReportedCount) {{
            lastReportedCount = count;
            if (window.__TAURI_INTERNALS__) {{
                window.__TAURI_INTERNALS__.invoke('on_badge_update', {{
                    app_id: ORBLY_APP_ID,
                    count: count,
                }}).catch(function() {{}});
            }}
        }}
    }}

    scrapeBadgeCount();
    setInterval(scrapeBadgeCount, 5000);

    var titleEl = document.querySelector('title');
    if (titleEl) {{
        var observer = new MutationObserver(scrapeBadgeCount);
        observer.observe(titleEl, {{ childList: true, characterData: true, subtree: true }});
    }}
}})();
"#,
        app_id
    )
}

fn mute() -> String {
    r#"
            (function() {
                document.querySelectorAll('audio, video').forEach(el => { el.muted = true; });
                if (!HTMLMediaElement.prototype._orblyOriginalPlay) {
                    HTMLMediaElement.prototype._orblyOriginalPlay = HTMLMediaElement.prototype.play;
                }
                HTMLMediaElement.prototype.play = function() {
                    this.muted = true;
                    return HTMLMediaElement.prototype._orblyOriginalPlay.call(this);
                };
            })();
        "#.to_string()
}

fn unmute() -> String {
    r#"
            (function() {
                document.querySelectorAll('audio, video').forEach(el => { el.muted = false; });
                if (HTMLMediaElement.prototype._orblyOriginalPlay) {
                    HTMLMediaElement.prototype.play = HTMLMediaElement.prototype._orblyOriginalPlay;
                    delete HTMLMediaElement.prototype._orblyOriginalPlay;
                }
            })();
        "#.to_string()
}

fn media(app_id: &str) -> String {
    format!(
        r#"
(function() {{
    'use strict';
    var ORBLY_APP_ID = '{}';
    var lastPlaying = false;

    function checkMediaPlaying() {{
        var playing = false;
        var elements = document.querySelectorAll('audio, video');
        for (var i = 0; i < elements.length; i++) {{
            if (!elements[i].paused && !elements[i].ended) {{
                playing = true;
                break;
            }}
        }}
        if (playing !== lastPlaying) {{
            lastPlaying = playing;
            if (window.__TAURI_INTERNALS__) {{
                window.__TAURI_INTERNALS__.invoke('set_media_playing', {{
                    app_id: ORBLY_APP_ID,
                    playing: playing
                }}).catch(function() {{}});
            }}
        }}
    }}

    setInterval(checkMediaPlaying, 3000);
}})();
"#,
        app_id
    )
}

fn interaction(app_id: &str) -> String {
    format!(
        r#"
(function() {{
    'use strict';
    var ORBLY_APP_ID = '{}';
    var lastReport = 0;

    function reportInteraction() {{
        var now = Date.now();
        if (now - lastReport < 30000) return;
        lastReport = now;
        if (window.__TAURI_INTERNALS__) {{
            window.__TAURI_INTERNALS__.invoke('notify_app_interaction', {{
                app_id: ORBLY_APP_ID
            }}).catch(function() {{}});
        }}
    }}

    document.addEventListener('mousemove', reportInteraction, true);
    document.addEventListener('mousedown', reportInteraction, true);
    document.addEventListener('keydown', reportInteraction, true);
    document.addEventListener('scroll', reportInteraction, true);
    document.addEventListener('touchstart', reportInteraction, true);
}})();
"#,
        app_id
    )
}

fn recipe_css(css_json: &str) -> String {
    format!(
        r#"(function() {{
                    const style = document.createElement('style');
                    style.id = '__orbly_recipe_css__';
                    style.textContent = {};
                    document.head.appendChild(style);
                }})();"#,
        css_json
    )
}

fn wrapped(js: &str) -> String {
    format!(r#"(function() {{ {} }})();"#, js)
}

fn custom_css(css_json: &str) -> String {
    format!(
        r#"(function() {{
                const style = document.createElement('style');
                style.textContent = {};
                document.head.appendChild(style);
            }})();"#,
        css_json
    )
}

fn cosmetic(css_json: &str) -> String {
    format!(
        r#"(function() {{
                        const style = document.createElement('style');
                        style.id = '__orbly_adblock_cosmetic__';
                        style.textContent = {};
                        document.head.appendChild(style);
                    }})();"#,
        css_json
    )
}

fn url_tracking(app_id: &str) -> String {
    format!(
        r#"
(function() {{
    'use strict';
    var ORBLY_APP_ID = '{}';
    var lastUrl = location.href;

    function reportUrlChange() {{
        var currentUrl = location.href;
        if (currentUrl !== lastUrl) {{
            lastUrl = currentUrl;
            if (window.__TAURI_INTERNALS__) {{
                window.__TAURI_INTERNALS__.invoke('on_url_changed', {{
                    app_id: ORBLY_APP_ID,
                    url: currentUrl
                }}).catch(function() {{}});
            }}
        }}
    }}

    window.addEventListener('popstate', reportUrlChange);
    window.addEventListener('hashchange', reportUrlChange);
    setInterval(reportUrlChange, 2000);
}})();
"#,
        app_id
    )
}

fn oauth() -> String {
    format!(
        r#"
(function() {{
    'use strict';
    var oauthPatterns = [
        'accounts.google.com/o/oauth',
        'accounts.google.com/signin/oauth',
        'login.microsoftonline.com',
        'github.com/login/oauth',
        'appleid.apple.com/auth',
        'www.facebook.com/v',
        'api.twitter.com/oauth',
        'discord.com/oauth2',
        'slack.com/oauth',
        'login.live.com/oauth'
    ];

    var origAssign = Object.getOwnPropertyDescriptor(Location.prototype, 'href');
    var observer = new MutationObserver(function() {{
        var url = location.href;
        for (var i = 0; i < oauthPatterns.length; i++) {{
            if (url.indexOf(oauthPatterns[i]) !== -1) {{
                if (window.__TAURI_INTERNALS__) {{
                    window.__TAURI_INTERNALS__.invoke('open_in_external_browser', {{ url: url }}).catch(function() {{}});
                    history.back();
                }}
                break;
            }}
        }}
    }});

    observer.observe(document.documentElement, {{ childList: true, subtree: true }});

    window.addEventListener('load', function() {{
        var url = location.href;
        for (var i = 0; i < oauthPatterns.length; i++) {{
            if (url.indexOf(oauthPatterns[i]) !== -1) {{
                if (window.__TAURI_INTERNALS__) {{
                    window.__TAURI_INTERNALS__.invoke('open_in_external_browser', {{ url: url }}).catch(function() {{}});
                    history.back();
                }}
                break;
            }}
        }}
    }});
}})();
"#
    )
}

fn links(app_id: &str) -> String {
    format!(
        r#"
(function() {{
    'use strict';
    var ORBLY_APP_ID = '{}';
    var pageOrigin = location.origin;

    // Intercept link clicks
    document.addEventListener('click', function(e) {{
        var link = e.target.closest('a[href]');
        if (!link) return;
        var href = link.href;
        if (!href) return;
        try {{
            var url = new URL(href, location.href);
            if (url.origin !== pageOrigin && (url.protocol === 'http:' || url.protocol === 'https:')) {{
                e.preventDefault();
                e.stopPropagation();
                if (window.__TAURI_INTERNALS__) {{
                    window.__TAURI_INTERNALS__.invoke('route_link', {{
                        url: url.href,
                        source_app_id: ORBLY_APP_ID
                    }}).catch(function() {{
                        window.open(url.href, '_self');
                    }});
                }}
            }}
        }} catch(ex) {{}}
    }}, true);

    // Override window.open for cross-origin
    var _origOpen = window.open;
    window.open = function(url, target, features) {{
        if (!url) return _origOpen.call(window, url, target, features);
        try {{
            var parsed = new URL(url, location.href);
            if (parsed.origin !== pageOrigin && (parsed.protocol === 'http:' || parsed.protocol === 'https:')) {{
                if (window.__TAURI_INTERNALS__) {{
                    window.__TAURI_INTERNALS__.invoke('route_link', {{
                        url: parsed.href,
                        source_app_id: ORBLY_APP_ID
                    }}).catch(function() {{}});
                }}
                return null;
            }}
        }} catch(ex) {{}}
        return _origOpen.call(window, url, target, features);
    }};
}})();
"#,
        app_id
    )
}

fn dark(inject: &str, mode: &str, b: u32, c: u32, s: u32, bg: &str, text: &str, css: &str) -> String {
    format!(
        r#"
{}

if (window.__ORBLY_DARK_MODE__) {{
    window.__ORBLY_DARK_MODE__.apply({{
        mode: {},
        brightness: {},
        contrast: {},
        sepia: {},
        bgColor: {},
        textColor: {},
        customCss: {}
    }});
}}
"#,
        inject, mode, b, c, s, bg, text, css
    )
}

#[test]
fn notification_script_carries_id_and_style() {
    assert_eq!(notification_intercept_script("mail", "private"), intercept("mail", "private"));
    assert_eq!(notification_intercept_script("", ""), intercept("", ""));
    assert!(notification_intercept_script("mail", "full").contains("const ORBLY_APP_ID = 'mail';"));
}

#[test]
fn badge_script_carries_the_id() {
    assert_eq!(badge_scrape_script("chat"), badge("chat"));
    assert!(badge_scrape_script("chat").contains("document.title.match(/^\\((\\d+)\\)/)"));
}

#[test]
fn mute_scripts() {
    assert_eq!(get_mute_script(true), mute());
    assert_eq!(get_mute_script(false), unmute());
    assert_eq!(get_audio_mute_init_script(true), mute());
    assert_eq!(get_audio_mute_init_script(false), "");
}

#[test]
fn dark_mode_injection_script() {
    let manager = DarkModeManager::new("/* reader */".to_string());
    assert_eq!(
        manager.get_injection_script("dynamic", 100, 90, 10, "#000", "#fff", "a { b: \"c\" }"),
        dark("/* reader */", "\"dynamic\"", 100, 90, 10, "\"#000\"", "\"#fff\"", "\"a { b: \\\"c\\\" }\"")
    );
    assert_eq!(
        manager.get_injection_script("off", 0, 4294967295, 7, "", "", ""),
        dark("/* reader */", "\"off\"", 0, 4294967295, 7, "\"\"", "\"\"", "\"\"")
    );
    let none = DarkModeManager::new(String::new());
    assert_eq!(none.get_injection_script("dynamic", 100, 90, 10, "", "", ""), "");
}

#[test]
fn dark_mode_apply_script() {
    let manager = DarkModeManager::new(String::new());
    assert_eq!(
        manager.get_apply_script("off", 1, 2, 3, "x", "y", "z"),
        "if (window.__ORBLY_DARK_MODE__) window.__ORBLY_DARK_MODE__.disable();"
    );
    assert_eq!(
        manager.get_apply_script("filter", 120, 95, 0, "#111", "", "p{}"),
        "if (window.__ORBLY_DARK_MODE__) window.__ORBLY_DARK_MODE__.apply({ mode: \"filter\", brightness: 120, contrast: 95, sepia: 0, bgColor: \"#111\", textColor: \"\", customCss: \"p{}\" });"
    );
}

#[test]
fn dark_mode_names_and_cycle() {
    let modes = [DarkModeType::Off, DarkModeType::Dynamic, DarkModeType::Filter, DarkModeType::Static];
    let names = ["off", "dynamic", "filter", "static"];
    for i in 0..4 {
        assert_eq!(dark_mode_name(modes[i]), names[i]);
        assert_eq!(parse_dark_mode(names[i]), modes[i]);
        assert_eq!(toggle_dark_mode(modes[i]), modes[(i + 1) % 4]);
    }
    assert_eq!(parse_dark_mode("Dynamic"), DarkModeType::Off);
    assert_eq!(parse_dark_mode(""), DarkModeType::Off);
}

#[test]
fn join_puts_the_separator_between() {
    assert_eq!(join(&vec![], ", "), "");
    assert_eq!(join(&vec!["a".to_string()], ", "), "a");
    assert_eq!(join(&vec!["a".to_string(), "".to_string(), "c".to_string()], ", "), "a, , c");
}

#[test]
fn notification_style_names() {
    assert_eq!(notification_style_name(NotificationStyle::Full), "full");
    assert_eq!(notification_style_name(NotificationStyle::Private), "private");
    assert_eq!(notification_style_name(NotificationStyle::Off), "off");
}

#[test]
fn initialization_script_of_a_plain_instance() {
    let mut a = app("mail", "https://mail.example");
    a.adblock_enabled = false;
    let script = build_initialization_script(&a, None, None, &vec![".ad { display: none !important; }".to_string()]);
    let expected = vec![
        intercept("mail", "full"),
        badge("mail"),
        media("mail"),
        interaction("mail"),
        url_tracking("mail"),
        oauth(),
        links("mail"),
    ]
    .join("\n");
    assert_eq!(script, expected);
}

#[test]
fn initialization_script_with_everything() {
    let mut a = app("chat", "https://chat.example");
    a.notification_style = NotificationStyle::Private;
    a.audio_muted = true;
    a.dark_mode = DarkModeType::Filter;
    a.dark_mode_bg_color = "#101010".to_string();
    a.custom_css = "body { color: \"red\"; }".to_string();
    a.custom_js = "console.log(1);".to_string();
    let recipe = ServiceRecipe {
        name: "Chat".to_string(),
        badge_script: Some("/* recipe badge */".to_string()),
        injection_css: Some(".x{}".to_string()),
        injection_js: Some("go();".to_string()),
        recommended_user_agent: None,
        sha256: String::new(),
    };
    let manager = DarkModeManager::new("/* reader */".to_string());
    let css = vec!["#a { display: none !important; }".to_string(), ".b { display: none !important; }".to_string()];
    let script = build_initialization_script(&a, Some(&recipe), Some(&manager), &css);
    let expected = vec![
        intercept("chat", "private"),
        "/* recipe badge */".to_string(),
        dark("/* reader */", "\"filter\"", 100, 90, 10, "\"#101010\"", "\"\"", "\"\""),
        mute(),
        media("chat"),
        interaction("chat"),
        recipe_css("\".x{}\""),
        wrapped("go();"),
        custom_css("\"body { color: \\\"red\\\"; }\""),
        wrapped("console.log(1);"),
        cosmetic("\"#a { display: none !important; }\\n.b { display: none !important; }\""),
        url_tracking("chat"),
        oauth(),
        links("chat"),
    ]
    .join("\n");
    assert_eq!(script, expected);
}

#[test]
fn initialization_script_uses_the_general_badge_script_without_a_recipe_script() {
    let a = app("x", "https://x.example");
    let recipe = ServiceRecipe {
        name: "X".to_string(),
        badge_script: None,
        injection_css: None,
        injection_js: None,
        recommended_user_agent: None,
        sha256: String::new(),
    };
    let empty = DarkModeManager::new(String::new());
    let script = build_initialization_script(&a, Some(&recipe), Some(&empty), &vec![]);
    let expected = vec![
        intercept("x", "full"),
        badge("x"),
        media("x"),
        interaction("x"),
        url_tracking("x"),
        oauth(),
        links("x"),
    ]
    .join("\n");
    assert_eq!(script, expected);
}

#[test]
fn initialization_script_with_rules_from_the_ad_blocker() {
    let a = app("news", "https://news.example.com/");
    let mut state = AdblockState::new();
    state.load_rules("news.example.com##.ad-banner\n", &[]);
    let css = state.get_cosmetic_filters(&a.url);
    assert_eq!(css, vec![".ad-banner { display: none !important; }".to_string()]);
    let script = build_initialization_script(&a, None, None, &css);
    assert!(script.contains(&cosmetic("\".ad-banner { display: none !important; }\"")));
}

#[test]
fn find_scripts() {
    assert_eq!(find_in_page("a \"b\"", true), "window.find(\"a \\\"b\\\"\", false, false, true, false, true, false)");
    assert_eq!(find_in_page("", false), "window.find(\"\", false, true, true, false, true, false)");
    assert_eq!(
        get_find_count("mail", "x\ny"),
        format!(
            r#"(function() {{
                var q = {};
                if (!q) {{ if (window.__TAURI_INTERNALS__) window.__TAURI_INTERNALS__.invoke('on_find_count', {{ app_id: '{}', count: 0 }}); return; }}
                var text = document.body.innerText || '';
                var lower = text.toLowerCase();
                var search = q.toLowerCase();
                var count = 0;
                var pos = 0;
                while ((pos = lower.indexOf(search, pos)) !== -1) {{ count++; pos += search.length; }}
                if (window.__TAURI_INTERNALS__) window.__TAURI_INTERNALS__.invoke('on_find_count', {{ app_id: '{}', count: count }});
            }})()"#,
            "\"x\\ny\"", "mail", "mail"
        )
    );
    assert_eq!(clear_find_in_page(), "window.getSelection().removeAllRanges()");
}

#[test]
fn cosmetic_scripts_for_a_running_page() {
    let update = |content: &str| {
        format!(
            r#"(function() {{
                        var el = document.getElementById('__orbly_adblock_cosmetic__');
                        if (!el) {{
                            el = document.createElement('style');
                            el.id = '__orbly_adblock_cosmetic__';
                            (document.head || document.documentElement).appendChild(el);
                        }}
                        el.textContent = {};
                    }})();"#,
            content
        )
    };
    assert_eq!(cosmetic_update_script(&vec![]), update("''"));
    assert_eq!(
        cosmetic_update_script(&vec!["#a { display: none !important; }".to_string(), ".b {}".to_string()]),
        update("\"#a { display: none !important; }\\n.b {}\"")
    );
    assert_eq!(cosmetic_remove_script(), r#"
                (function() {
                    var el = document.getElementById('__orbly_adblock_cosmetic__');
                    if (el) el.remove();
                })();
            "#);
    assert!(toggle_adblock(false));
    assert!(!toggle_adblock(true));
}

#[test]
fn navigation_and_retry_scripts() {
    assert_eq!(navigate_script("https://a.example/?q=\"x\""), "window.location.href = \"https://a.example/?q=\\\"x\\\"\";");
    assert_eq!(
        retry_download_script("https://a.example/f.zip"),
        format!(
            r#"(function() {{
            var a = document.createElement('a');
            a.href = {};
            a.download = '';
            a.style.display = 'none';
            document.body.appendChild(a);
            a.click();
            document.body.removeChild(a);
        }})();"#,
            "\"https://a.example/f.zip\""
        )
    );
}
