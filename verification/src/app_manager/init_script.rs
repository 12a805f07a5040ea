use vstd::prelude::*;

use crate::commands::audio_commands::{get_audio_mute_init_script, MUTE_SCRIPT};
use crate::config::models::{AppConfig, NotificationStyle};
use crate::darkmode::{dark_mode_name, injection_script_of, mode_name, DarkModeManager};
use crate::notifications::badge_scripts::{badge_scrape_script, badge_script_of};
use crate::notifications::scripts::{intercept_script_of, notification_intercept_script};
use crate::recipes::ServiceRecipe;
use crate::text::texts;
use crate::web::{json_quoted, json_string};

verus! {

/// The script that reports whether the page plays media, up to the instance id.
pub const MEDIA_SCRIPT_HEAD: &'static str = "
(function() {
    'use strict';
    var ORBLY_APP_ID = '";

/// The script that reports whether the page plays media, behind the instance id.
pub const MEDIA_SCRIPT_TAIL: &'static str = "';
    var lastPlaying = false;

    function checkMediaPlaying() {
        var playing = false;
        var elements = document.querySelectorAll('audio, video');
        for (var i = 0; i < elements.length; i++) {
            if (!elements[i].paused && !elements[i].ended) {
                playing = true;
                break;
            }
        }
        if (playing !== lastPlaying) {
            lastPlaying = playing;
            if (window.__TAURI_INTERNALS__) {
                window.__TAURI_INTERNALS__.invoke('set_media_playing', {
                    app_id: ORBLY_APP_ID,
                    playing: playing
                }).catch(function() {});
            }
        }
    }

    setInterval(checkMediaPlaying, 3000);
})();
";

/// The script that reports the user's interaction, up to the instance id.
pub const INTERACTION_SCRIPT_HEAD: &'static str = "
(function() {
    'use strict';
    var ORBLY_APP_ID = '";

/// The script that reports the user's interaction, behind the instance id.
pub const INTERACTION_SCRIPT_TAIL: &'static str = "';
    var lastReport = 0;

    function reportInteraction() {
        var now = Date.now();
        if (now - lastReport < 30000) return;
        lastReport = now;
        if (window.__TAURI_INTERNALS__) {
            window.__TAURI_INTERNALS__.invoke('notify_app_interaction', {
                app_id: ORBLY_APP_ID
            }).catch(function() {});
        }
    }

    document.addEventListener('mousemove', reportInteraction, true);
    document.addEventListener('mousedown', reportInteraction, true);
    document.addEventListener('keydown', reportInteraction, true);
    document.addEventListener('scroll', reportInteraction, true);
    document.addEventListener('touchstart', reportInteraction, true);
})();
";

/// The script that adds the style sheet of a recipe, up to the style sheet.
pub const RECIPE_CSS_HEAD: &'static str = "(function() {
                    const style = document.createElement('style');
                    style.id = '__orbly_recipe_css__';
                    style.textContent = ";

/// The script that adds the style sheet of a recipe, behind the style sheet.
pub const RECIPE_CSS_TAIL: &'static str = ";
                    document.head.appendChild(style);
                })();";

/// What stands before a script that runs in a function of its own.
pub const WRAP_HEAD: &'static str = "(function() { ";

/// What stands behind a script that runs in a function of its own.
pub const WRAP_TAIL: &'static str = " })();";

/// The script that adds the user's style sheet, up to the style sheet.
pub const CUSTOM_CSS_HEAD: &'static str = "(function() {
                const style = document.createElement('style');
                style.textContent = ";

/// The script that adds the user's style sheet, behind the style sheet.
pub const CUSTOM_CSS_TAIL: &'static str = ";
                document.head.appendChild(style);
            })();";

/// The script that adds the rules which hide ads, up to the rules.
pub const COSMETIC_CSS_HEAD: &'static str = "(function() {
                        const style = document.createElement('style');
                        style.id = '__orbly_adblock_cosmetic__';
                        style.textContent = ";

/// The script that adds the rules which hide ads, behind the rules.
pub const COSMETIC_CSS_TAIL: &'static str = ";
                        document.head.appendChild(style);
                    })();";

/// The script that reports a change of the URL, up to the instance id.
pub const URL_SCRIPT_HEAD: &'static str = "
(function() {
    'use strict';
    var ORBLY_APP_ID = '";

/// The script that reports a change of the URL, behind the instance id.
pub const URL_SCRIPT_TAIL: &'static str = "';
    var lastUrl = location.href;

    function reportUrlChange() {
        var currentUrl = location.href;
        if (currentUrl !== lastUrl) {
            lastUrl = currentUrl;
            if (window.__TAURI_INTERNALS__) {
                window.__TAURI_INTERNALS__.invoke('on_url_changed', {
                    app_id: ORBLY_APP_ID,
                    url: currentUrl
                }).catch(function() {});
            }
        }
    }

    window.addEventListener('popstate', reportUrlChange);
    window.addEventListener('hashchange', reportUrlChange);
    setInterval(reportUrlChange, 2000);
})();
";

/// The script that hands sign-in pages of known providers to the system browser.
pub const OAUTH_SCRIPT: &'static str = "
(function() {
    'use strict';
    var oauthPatterns = [
        'accounts.google.com/o/oauth',
        'accounts.google.com/signin/oauth',
        'login.microsoftonline.com',
        'github.com/login/oauth',
        'appleid.apple.com/auth',
        'www.facebook.com/v',
        'api.twitter.com/oauth',
        'discord.com/oauth2',
        'slack.com/oauth',
        'login.live.com/oauth'
    ];

    var origAssign = Object.getOwnPropertyDescriptor(Location.prototype, 'href');
    var observer = new MutationObserver(function() {
        var url = location.href;
        for (var i = 0; i < oauthPatterns.length; i++) {
            if (url.indexOf(oauthPatterns[i]) !== -1) {
                if (window.__TAURI_INTERNALS__) {
                    window.__TAURI_INTERNALS__.invoke('open_in_external_browser', { url: url }).catch(function() {});
                    history.back();
                }
                break;
            }
        }
    });

    observer.observe(document.documentElement, { childList: true, subtree: true });

    window.addEventListener('load', function() {
        var url = location.href;
        for (var i = 0; i < oauthPatterns.length; i++) {
            if (url.indexOf(oauthPatterns[i]) !== -1) {
                if (window.__TAURI_INTERNALS__) {
                    window.__TAURI_INTERNALS__.invoke('open_in_external_browser', { url: url }).catch(function() {});
                    history.back();
                }
                break;
            }
        }
    });
})();
";

/// The script that hands links to other sites to the host, up to the instance id.
pub const LINK_SCRIPT_HEAD: &'static str = "
(function() {
    'use strict';
    var ORBLY_APP_ID = '";

/// The script that hands links to other sites to the host, behind the instance id.
pub const LINK_SCRIPT_TAIL: &'static str = "';
    var pageOrigin = location.origin;

    // Intercept link clicks
    document.addEventListener('click', function(e) {
        var link = e.target.closest('a[href]');
        if (!link) return;
        var href = link.href;
        if (!href) return;
        try {
            var url = new URL(href, location.href);
            if (url.origin !== pageOrigin && (url.protocol === 'http:' || url.protocol === 'https:')) {
                e.preventDefault();
                e.stopPropagation();
                if (window.__TAURI_INTERNALS__) {
                    window.__TAURI_INTERNALS__.invoke('route_link', {
                        url: url.href,
                        source_app_id: ORBLY_APP_ID
                    }).catch(function() {
                        window.open(url.href, '_self');
                    });
                }
            }
        } catch(ex) {}
    }, true);

    // Override window.open for cross-origin
    var _origOpen = window.open;
    window.open = function(url, target, features) {
        if (!url) return _origOpen.call(window, url, target, features);
        try {
            var parsed = new URL(url, location.href);
            if (parsed.origin !== pageOrigin && (parsed.protocol === 'http:' || parsed.protocol === 'https:')) {
                if (window.__TAURI_INTERNALS__) {
                    window.__TAURI_INTERNALS__.invoke('route_link', {
                        url: parsed.href,
                        source_app_id: ORBLY_APP_ID
                    }).catch(function() {});
                }
                return null;
            }
        } catch(ex) {}
        return _origOpen.call(window, url, target, features);
    };
})();
";

/// The texts of `parts` with `sep` between each two of them.
pub open spec fn joined(parts: Seq<Seq<char>>, sep: Seq<char>) -> Seq<char>
    decreases parts.len(),
{
    if parts.len() == 0 {
        Seq::empty()
    } else if parts.len() == 1 {
        parts[0]
    } else {
        joined(parts.drop_last(), sep) + sep + parts.last()
    }
}

/// The texts of `parts` with `sep` between each two of them.
pub fn join(parts: &Vec<String>, sep: &str) -> (r: String)
    ensures
        r@ == joined(texts(parts@), sep@),
{
    let mut r = String::new();
    let mut i: usize = 0;
    while i < parts.len()
        invariant
            i <= parts.len(),
            r@ == joined(texts(parts@).take(i as int), sep@),
        decreases parts.len() - i,
    {
        proof {
            let next = texts(parts@).take(i + 1);
            assert(next.drop_last() =~= texts(parts@).take(i as int));
            assert(next.last() == parts@[i as int]@);
        }
        if i > 0 {
            r.append(sep);
        }
        r.append(parts[i].as_str());
        proof {
            if i == 0 {
                assert(Seq::<char>::empty() + parts@[0]@ =~= parts@[0]@);
            }
        }
        i += 1;
    }
    proof {
        assert(texts(parts@).take(parts.len() as int) =~= texts(parts@));
    }
    r
}

/// The name of a notification style in scripts.
pub open spec fn style_name(style: NotificationStyle) -> Seq<char> {
    match style {
        NotificationStyle::Full => "full"@,
        NotificationStyle::Private => "private"@,
        NotificationStyle::Off => "off"@,
    }
}

/// The name of a notification style in scripts.
pub fn notification_style_name(style: NotificationStyle) -> (name: &'static str)
    ensures
        name@ == style_name(style),
{
    match style {
        NotificationStyle::Full => "full",
        NotificationStyle::Private => "private",
        NotificationStyle::Off => "off",
    }
}

/// `parts` with `part` behind it if `wanted`.
pub open spec fn with_part(parts: Seq<Seq<char>>, wanted: bool, part: Seq<char>) -> Seq<Seq<char>> {
    if wanted {
        parts.push(part)
    } else {
        parts
    }
}

/// The script that reads the unread count: that of the recipe where it
/// brings one, else the general one.
pub open spec fn badge_part(app: AppConfig, recipe: Option<ServiceRecipe>) -> Seq<char> {
    match recipe {
        Some(r) => match r.badge_script {
            Some(script) => script@,
            None => badge_script_of(app.id@),
        },
        None => badge_script_of(app.id@),
    }
}

/// The dark mode script of the instance; empty without a manager or
/// without an injection script.
pub open spec fn dark_mode_part(app: AppConfig, inject: Option<Seq<char>>) -> Seq<char> {
    match inject {
        Some(script) => injection_script_of(
            script,
            mode_name(app.dark_mode),
            app.dark_mode_brightness,
            app.dark_mode_contrast,
            app.dark_mode_sepia,
            app.dark_mode_bg_color@,
            app.dark_mode_text_color@,
            Seq::<char>::empty(),
        ),
        None => Seq::<char>::empty(),
    }
}

/// The style sheet of the recipe, if it brings one.
pub open spec fn recipe_css(recipe: Option<ServiceRecipe>) -> Option<Seq<char>> {
    match recipe {
        Some(r) => match r.injection_css {
            Some(css) => Some(css@),
            None => None,
        },
        None => None,
    }
}

/// The script of the recipe, if it brings one.
pub open spec fn recipe_js(recipe: Option<ServiceRecipe>) -> Option<Seq<char>> {
    match recipe {
        Some(r) => match r.injection_js {
            Some(js) => Some(js@),
            None => None,
        },
        None => None,
    }
}

/// The scripts that a page of the instance starts with, in order: the
/// interception of notifications, the unread count, the dark mode, the
/// muting, the reports of media and of interaction, what the recipe brings,
/// what the user added, the rules that hide ads, the report of the URL, the
/// handing over of sign-in pages, and the routing of links.
pub open spec fn init_scripts(
    app: AppConfig,
    recipe: Option<ServiceRecipe>,
    inject: Option<Seq<char>>,
    cosmetic_css: Seq<Seq<char>>,
) -> Seq<Seq<char>> {
    let s1 = seq![
        intercept_script_of(app.id@, style_name(app.notification_style)),
        badge_part(app, recipe),
    ];
    let s2 = with_part(s1, dark_mode_part(app, inject).len() > 0, dark_mode_part(app, inject));
    let s3 = with_part(s2, app.audio_muted, MUTE_SCRIPT@);
    let s4 = s3.push(MEDIA_SCRIPT_HEAD@ + app.id@ + MEDIA_SCRIPT_TAIL@).push(
        INTERACTION_SCRIPT_HEAD@ + app.id@ + INTERACTION_SCRIPT_TAIL@,
    );
    let s5 = with_part(
        s4,
        recipe_css(recipe) is Some,
        RECIPE_CSS_HEAD@ + json_quoted(recipe_css(recipe)->0) + RECIPE_CSS_TAIL@,
    );
    let s6 = with_part(
        s5,
        recipe_js(recipe) is Some,
        WRAP_HEAD@ + recipe_js(recipe)->0 + WRAP_TAIL@,
    );
    let s7 = with_part(
        s6,
        app.custom_css@.len() > 0,
        CUSTOM_CSS_HEAD@ + json_quoted(app.custom_css@) + CUSTOM_CSS_TAIL@,
    );
    let s8 = with_part(s7, app.custom_js@.len() > 0, WRAP_HEAD@ + app.custom_js@ + WRAP_TAIL@);
    let s9 = with_part(
        s8,
        app.adblock_enabled && cosmetic_css.len() > 0,
        COSMETIC_CSS_HEAD@ + json_quoted(joined(cosmetic_css, "\n"@)) + COSMETIC_CSS_TAIL@,
    );
    s9.push(URL_SCRIPT_HEAD@ + app.id@ + URL_SCRIPT_TAIL@).push(OAUTH_SCRIPT@).push(
        LINK_SCRIPT_HEAD@ + app.id@ + LINK_SCRIPT_TAIL@,
    )
}

fn put(parts: &mut Vec<String>, part: String)
    ensures
        texts(final(parts)@) == texts(old(parts)@).push(part@),
{
    parts.push(part);
    assert(texts(parts@) =~= texts(old(parts)@).push(part@));
}

fn around(head: &str, middle: &str, tail: &str) -> (r: String)
    ensures
        r@ == head@ + middle@ + tail@,
{
    String::from_str(head).concat(middle).concat(tail)
}

/// The script that a page of the instance `app` starts with: the scripts
/// of `init_scripts`, one to a line. `recipe` is the recipe of the service of
/// the instance, `dark_mode` the dark mode manager if there is one, and
/// `cosmetic_css` the rules that hide ads on the home page of the instance.
pub fn build_initialization_script(
    app: &AppConfig,
    recipe: Option<&ServiceRecipe>,
    dark_mode: Option<&DarkModeManager>,
    cosmetic_css: &Vec<String>,
) -> (script: String)
    ensures
        script@ == joined(
            init_scripts(
                *app,
                match recipe {
                    Some(r) => Some(*r),
                    None => None,
                },
                match dark_mode {
                    Some(m) => Some(m.script()),
                    None => None,
                },
                texts(cosmetic_css@),
            ),
            "\n"@,
        ),
{
    let ghost rec: Option<ServiceRecipe> = match recipe {
        Some(r) => Some(*r),
        None => None,
    };
    let ghost inject: Option<Seq<char>> = match dark_mode {
        Some(m) => Some(m.script()),
        None => None,
    };
    let id = app.id.as_str();
    let mut scripts: Vec<String> = Vec::new();
    put(
        &mut scripts,
        notification_intercept_script(id, notification_style_name(app.notification_style)),
    );
    let badge = match recipe {
        Some(r) => match &r.badge_script {
            Some(script) => script.clone(),
            None => badge_scrape_script(id),
        },
        None => badge_scrape_script(id),
    };
    put(&mut scripts, badge);
    let ghost s1 = seq![
        intercept_script_of(app.id@, style_name(app.notification_style)),
        badge_part(*app, rec),
    ];
    assert(texts(scripts@) =~= s1);
    match dark_mode {
        Some(m) => {
            let dm = m.get_injection_script(
                dark_mode_name(app.dark_mode),
                app.dark_mode_brightness,
                app.dark_mode_contrast,
                app.dark_mode_sepia,
                app.dark_mode_bg_color.as_str(),
                app.dark_mode_text_color.as_str(),
                "",
            );
            proof {
                reveal_strlit("");
                assert(""@ =~= Seq::<char>::empty());
            }
            if !dm.as_str().is_empty() {
                put(&mut scripts, dm);
            }
        },
        None => {},
    }
    let ghost s2 = with_part(s1, dark_mode_part(*app, inject).len() > 0, dark_mode_part(*app, inject));
    assert(texts(scripts@) == s2);
    if app.audio_muted {
        put(&mut scripts, get_audio_mute_init_script(true));
    }
    let ghost s3 = with_part(s2, app.audio_muted, MUTE_SCRIPT@);
    assert(texts(scripts@) == s3);
    put(&mut scripts, around(MEDIA_SCRIPT_HEAD, id, MEDIA_SCRIPT_TAIL));
    put(&mut scripts, around(INTERACTION_SCRIPT_HEAD, id, INTERACTION_SCRIPT_TAIL));
    let ghost s4 = s3.push(MEDIA_SCRIPT_HEAD@ + app.id@ + MEDIA_SCRIPT_TAIL@).push(
        INTERACTION_SCRIPT_HEAD@ + app.id@ + INTERACTION_SCRIPT_TAIL@,
    );
    assert(texts(scripts@) == s4);
    match recipe {
        Some(r) => {
            match &r.injection_css {
                Some(css) => {
                    put(
                        &mut scripts,
                        around(RECIPE_CSS_HEAD, json_string(css.as_str()).as_str(), RECIPE_CSS_TAIL),
                    );
                },
                None => {},
            }
        },
        None => {},
    }
    let ghost s5 = with_part(
        s4,
        recipe_css(rec) is Some,
        RECIPE_CSS_HEAD@ + json_quoted(recipe_css(rec)->0) + RECIPE_CSS_TAIL@,
    );
    assert(texts(scripts@) == s5);
    match recipe {
        Some(r) => {
            match &r.injection_js {
                Some(js) => {
                    put(&mut scripts, around(WRAP_HEAD, js.as_str(), WRAP_TAIL));
                },
                None => {},
            }
        },
        None => {},
    }
    let ghost s6 = with_part(s5, recipe_js(rec) is Some, WRAP_HEAD@ + recipe_js(rec)->0 + WRAP_TAIL@);
    assert(texts(scripts@) == s6);
    if !app.custom_css.as_str().is_empty() {
        put(
            &mut scripts,
            around(CUSTOM_CSS_HEAD, json_string(app.custom_css.as_str()).as_str(), CUSTOM_CSS_TAIL),
        );
    }
    let ghost s7 = with_part(
        s6,
        app.custom_css@.len() > 0,
        CUSTOM_CSS_HEAD@ + json_quoted(app.custom_css@) + CUSTOM_CSS_TAIL@,
    );
    assert(texts(scripts@) == s7);
    if !app.custom_js.as_str().is_empty() {
        put(&mut scripts, around(WRAP_HEAD, app.custom_js.as_str(), WRAP_TAIL));
    }
    let ghost s8 = with_part(s7, app.custom_js@.len() > 0, WRAP_HEAD@ + app.custom_js@ + WRAP_TAIL@);
    assert(texts(scripts@) == s8);
    if app.adblock_enabled && cosmetic_css.len() > 0 {
        let css = join(cosmetic_css, "\n");
        put(
            &mut scripts,
            around(COSMETIC_CSS_HEAD, json_string(css.as_str()).as_str(), COSMETIC_CSS_TAIL),
        );
    }
    let ghost s9 = with_part(
        s8,
        app.adblock_enabled && texts(cosmetic_css@).len() > 0,
        COSMETIC_CSS_HEAD@ + json_quoted(joined(texts(cosmetic_css@), "\n"@)) + COSMETIC_CSS_TAIL@,
    );
    assert(texts(scripts@) == s9);
    put(&mut scripts, around(URL_SCRIPT_HEAD, id, URL_SCRIPT_TAIL));
    put(&mut scripts, String::from_str(OAUTH_SCRIPT));
    put(&mut scripts, around(LINK_SCRIPT_HEAD, id, LINK_SCRIPT_TAIL));
    join(&scripts, "\n")
}

} // verus!
