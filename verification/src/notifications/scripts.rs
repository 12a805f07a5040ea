use vstd::prelude::*;

verus! {

/// The script up to the instance id.
pub const INTERCEPT_SCRIPT_HEAD: &'static str = "
(function() {
    'use strict';
    const ORBLY_APP_ID = '";

/// The script between the instance id and the notification style.
pub const INTERCEPT_SCRIPT_MIDDLE: &'static str = "';
    const ORBLY_NOTIFICATION_STYLE = '";

/// The script behind the notification style.
pub const INTERCEPT_SCRIPT_TAIL: &'static str = "';

    class OrblyNotification {
        constructor(title, options = {}) {
            if (window.__TAURI_INTERNALS__) {
                const payload = {
                    app_id: ORBLY_APP_ID,
                    title: title,
                    body: options.body || '',
                    icon: options.icon || '',
                    tag: options.tag || '',
                    style: ORBLY_NOTIFICATION_STYLE,
                };
                window.__TAURI_INTERNALS__.invoke('on_web_notification', { notification: payload }).catch(function() {});
            }

            this._title = title;
            this._options = options;
            this.onclick = null;
            this.onclose = null;
            this.onerror = null;
            this.onshow = null;
        }

        get title() { return this._title; }
        get body() { return this._options.body || ''; }
        get icon() { return this._options.icon || ''; }
        get tag() { return this._options.tag || ''; }

        close() {}

        static get permission() { return 'granted'; }
        static requestPermission(callback) {
            var result = Promise.resolve('granted');
            if (callback) callback('granted');
            return result;
        }
    }

    window.Notification = OrblyNotification;
})();
";

/// The script that replaces the page's `Notification` by one that hands each
/// notification to the host, with the id and the notification style of the
/// instance written into it.
pub open spec fn intercept_script_of(app_id: Seq<char>, notification_style: Seq<char>) -> Seq<char> {
    INTERCEPT_SCRIPT_HEAD@ + app_id + INTERCEPT_SCRIPT_MIDDLE@ + notification_style
        + INTERCEPT_SCRIPT_TAIL@
}

/// The script that replaces the page's `Notification` by one that hands each
/// notification to the host.
pub fn notification_intercept_script(app_id: &str, notification_style: &str) -> (script: String)
    ensures
        script@ == intercept_script_of(app_id@, notification_style@),
{
    String::from_str(INTERCEPT_SCRIPT_HEAD).concat(app_id).concat(INTERCEPT_SCRIPT_MIDDLE).concat(
        notification_style,
    ).concat(INTERCEPT_SCRIPT_TAIL)
}

} // verus!
