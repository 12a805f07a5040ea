use vstd::prelude::*;

use crate::app_manager::state::{AppManager, Registry, RuntimeView};
use crate::config::models::{config_of, lookup_app, AppConfig, NotificationStyle, OrblyConfig};
use crate::number::{parse_u32, parsed_u32};
use crate::text::{chars_of, contains_text, texts};

verus! {

/// A notification that a page raised.
#[derive(Debug)]
pub struct WebNotification {
    pub app_id: String,
    pub title: String,
    pub body: String,
    pub icon: String,
    pub tag: String,
    pub style: String,
}

/// The unread count that a page reports.
#[derive(Debug)]
pub struct BadgeUpdate {
    pub app_id: String,
    pub count: Option<i32>,
}

/// A day of the week.
#[derive(Clone, Copy, Debug, PartialEq, Eq, Structural)]
pub enum Weekday {
    Mon,
    Tue,
    Wed,
    Thu,
    Fri,
    Sat,
    Sun,
}

impl Weekday {
    /// The name of the day in a schedule.
    pub open spec fn name(self) -> Seq<char> {
        match self {
            Weekday::Mon => "mon"@,
            Weekday::Tue => "tue"@,
            Weekday::Wed => "wed"@,
            Weekday::Thu => "thu"@,
            Weekday::Fri => "fri"@,
            Weekday::Sat => "sat"@,
            Weekday::Sun => "sun"@,
        }
    }

    /// The day before.
    pub open spec fn before(self) -> Weekday {
        match self {
            Weekday::Mon => Weekday::Sun,
            Weekday::Tue => Weekday::Mon,
            Weekday::Wed => Weekday::Tue,
            Weekday::Thu => Weekday::Wed,
            Weekday::Fri => Weekday::Thu,
            Weekday::Sat => Weekday::Fri,
            Weekday::Sun => Weekday::Sat,
        }
    }

    /// The name of the day in a schedule.
    pub fn as_str(self) -> (s: &'static str)
        ensures
            s@ == self.name(),
    {
        match self {
            Weekday::Mon => "mon",
            Weekday::Tue => "tue",
            Weekday::Wed => "wed",
            Weekday::Thu => "thu",
            Weekday::Fri => "fri",
            Weekday::Sat => "sat",
            Weekday::Sun => "sun",
        }
    }

    /// The day before.
    pub fn previous(self) -> (d: Weekday)
        ensures
            d == self.before(),
    {
        match self {
            Weekday::Mon => Weekday::Sun,
            Weekday::Tue => Weekday::Mon,
            Weekday::Wed => Weekday::Tue,
            Weekday::Thu => Weekday::Wed,
            Weekday::Fri => Weekday::Thu,
            Weekday::Sat => Weekday::Fri,
            Weekday::Sun => Weekday::Sat,
        }
    }
}

/// Whether position `k` holds the one colon of `s`.
pub open spec fn only_colon_at(s: Seq<char>, k: int) -> bool {
    &&& 0 <= k < s.len()
    &&& s[k] == ':'
    &&& forall|j: int| 0 <= j < s.len() && j != k ==> s[j] != ':'
}

/// The minute of the day that the text `s` names as hours and minutes with
/// one colon between them. Each part is a number on its own; the hours are
/// not held below 24 nor the minutes below 60.
pub open spec fn time_of(s: Seq<char>) -> Option<u32> {
    if exists|k: int| only_colon_at(s, k) {
        let k = choose|k: int| only_colon_at(s, k);
        let hours = parsed_u32(s.subrange(0, k));
        let minutes = parsed_u32(s.subrange(k + 1, s.len() as int));
        if hours is Some && minutes is Some && hours->0 * 60 + minutes->0 <= u32::MAX {
            Some((hours->0 * 60 + minutes->0) as u32)
        } else {
            None
        }
    } else {
        None
    }
}

/// Reads a time of day written as `hours:minutes` and gives it in minutes
/// since midnight. `None` where the text is not two numbers with one colon
/// between them, or the result does not fit in 32 bits.
pub fn parse_time(time_str: &str) -> (r: Option<u32>)
    ensures
        r == time_of(time_str@),
{
    let chars = chars_of(time_str);
    let n = chars.len();
    let mut k: usize = 0;
    while k < n && chars[k] != ':'
        invariant
            k <= n,
            n == chars@.len(),
            forall|j: int| 0 <= j < k ==> chars@[j] != ':',
        decreases n - k,
    {
        k += 1;
    }
    if k == n {
        return None;
    }
    let mut j: usize = k + 1;
    while j < n && chars[j] != ':'
        invariant
            k < j <= n,
            n == chars@.len(),
            forall|x: int| k < x < j ==> chars@[x] != ':',
        decreases n - j,
    {
        j += 1;
    }
    if j < n {
        proof {
            if exists|c: int| only_colon_at(chars@, c) {
                let c = choose|c: int| only_colon_at(chars@, c);
                assert(chars@[k as int] == ':' && chars@[j as int] == ':');
            }
        }
        return None;
    }
    proof {
        assert(only_colon_at(chars@, k as int));
        let c = choose|c: int| only_colon_at(chars@, c);
        assert(c == k);
    }
    let hours = match parse_u32(chars.as_slice(), 0, k) {
        Some(h) => h,
        None => {
            return None;
        },
    };
    let minutes = match parse_u32(chars.as_slice(), k + 1, n) {
        Some(m) => m,
        None => {
            return None;
        },
    };
    if hours > (u32::MAX - minutes) / 60 {
        return None;
    }
    Some(hours * 60 + minutes)
}

/// Whether the schedule silences notifications on day `today` at minute
/// `current_minutes` of the day.
///
/// A schedule whose start is not after its end covers the minutes from start
/// to end, the end excluded, on each of its days. A schedule whose start is
/// after its end runs overnight: it covers a scheduled day from its start on,
/// and the morning after a scheduled day up to its end. A schedule that is
/// switched off, or whose times cannot be read, covers nothing.
pub open spec fn in_dnd_schedule(config: OrblyConfig, today: Weekday, current_minutes: u32) -> bool {
    let days = texts(config.general.dnd_schedule_days@);
    let start = time_of(config.general.dnd_schedule_start@);
    let end = time_of(config.general.dnd_schedule_end@);
    if !config.general.dnd_schedule_enabled || start is None || end is None {
        false
    } else if start->0 <= end->0 {
        days.contains(today.name()) && start->0 <= current_minutes < end->0
    } else {
        (days.contains(today.name()) && current_minutes >= start->0) || (current_minutes < end->0
            && days.contains(today.before().name()))
    }
}

/// Whether the schedule silences notifications on day `today` at minute
/// `current_minutes` of the day, both read from the local clock.
pub fn is_in_dnd_schedule(config: &OrblyConfig, today: Weekday, current_minutes: u32) -> (r: bool)
    ensures
        r == in_dnd_schedule(*config, today, current_minutes),
{
    if !config.general.dnd_schedule_enabled {
        return false;
    }
    let day_enabled = contains_text(&config.general.dnd_schedule_days, today.as_str());
    let start = match parse_time(config.general.dnd_schedule_start.as_str()) {
        Some(t) => t,
        None => {
            return false;
        },
    };
    let end = match parse_time(config.general.dnd_schedule_end.as_str()) {
        Some(t) => t,
        None => {
            return false;
        },
    };
    if start <= end {
        if !day_enabled {
            return false;
        }
        current_minutes >= start && current_minutes < end
    } else {
        if day_enabled && current_minutes >= start {
            return true;
        }
        if current_minutes < end {
            return contains_text(&config.general.dnd_schedule_days, today.previous().as_str());
        }
        false
    }
}

/// The unread count as the registry keeps it: a count above zero as it is,
/// zero as zero, and every negative value as `-1`, which stands for unread
/// items of unknown number. No report stays no report.
pub open spec fn normalized_badge(count: Option<i32>) -> Option<i32> {
    match count {
        Some(c) => if c >= 0 {
            Some(c)
        } else {
            Some(-1i32)
        },
        None => None,
    }
}

/// The unread count as the registry keeps it.
pub fn normalize_badge_count(count: Option<i32>) -> (r: Option<i32>)
    ensures
        r == normalized_badge(count),
{
    match count {
        Some(c) => if c > 0 {
            Some(c)
        } else if c == 0 {
            Some(0)
        } else {
            Some(-1)
        },
        None => None,
    }
}

/// Records the unread count that a page reported, and returns it as it was recorded.
pub fn on_badge_update(manager: &mut AppManager, update: &BadgeUpdate) -> (count: Option<i32>)
    requires
        old(manager).wf(),
    ensures
        final(manager).wf(),
        final(manager).pending() == old(manager).pending(),
        final(manager).ids() == old(manager).ids(),
        count == normalized_badge(update.count),
        final(manager)@ == if old(manager)@.contains_key(update.app_id@) {
            old(manager)@.insert(
                update.app_id@,
                RuntimeView { badge_count: count, ..old(manager)@[update.app_id@] },
            )
        } else {
            old(manager)@
        },
{
    let count = normalize_badge_count(update.count);
    manager.set_badge_count(update.app_id.as_str(), count);
    count
}

/// The sum of the exact unread counts of the instances `ids`.
pub open spec fn unread_total(m: Registry, ids: Seq<Seq<char>>) -> nat
    decreases ids.len(),
{
    if ids.len() == 0 {
        0
    } else {
        unread_total(m, ids.drop_last()) + match m[ids.last()].badge_count {
            Some(c) => if c > 0 {
                c as nat
            } else {
                0
            },
            None => 0,
        }
    }
}

/// Whether one of the instances `ids` has unread items of unknown number.
pub open spec fn has_unknown_unread(m: Registry, ids: Seq<Seq<char>>) -> bool {
    exists|i: int|
        0 <= i < ids.len() && #[trigger] m[ids[i]].badge_count is Some
            && m[ids[i]].badge_count->0 < 0
}

/// The unread signal of all instances together.
#[derive(Clone, Copy, Debug, PartialEq, Eq, Structural)]
pub struct BadgeSummary {
    /// The sum of the exact counts, held at the largest number 32 bits can hold.
    pub total: u32,
    /// Whether no exact count is above zero while some instance has unread
    /// items of unknown number.
    pub has_unread_dot: bool,
}

impl BadgeSummary {
    /// The number that the tray shows: the total, or 1 for the dot.
    pub fn tray_count(&self) -> (n: u32)
        ensures
            n == if self.has_unread_dot {
                1
            } else {
                self.total
            },
    {
        if self.has_unread_dot {
            1
        } else {
            self.total
        }
    }
}

/// Adds up the unread counts of all instances.
pub fn update_aggregated_badge(manager: &AppManager) -> (summary: BadgeSummary)
    requires
        manager.wf(),
    ensures
        summary.total == if unread_total(manager@, manager.ids()) > u32::MAX {
            u32::MAX as nat
        } else {
            unread_total(manager@, manager.ids())
        },
        summary.has_unread_dot == (summary.total == 0 && has_unknown_unread(
            manager@,
            manager.ids(),
        )),
{
    let n = manager.len();
    let ghost ids = manager.ids();
    let mut total: u64 = 0;
    let mut unknown = false;
    let mut i: usize = 0;
    while i < n
        invariant
            i <= n,
            n == ids.len(),
            ids == manager.ids(),
            manager.wf(),
            total == if unread_total(manager@, ids.take(i as int)) > u32::MAX {
                u32::MAX as nat
            } else {
                unread_total(manager@, ids.take(i as int))
            },
            unknown == has_unknown_unread(manager@, ids.take(i as int)),
        decreases n - i,
    {
        let rt = manager.runtime_at(i);
        proof {
            assert(ids.take(i + 1).drop_last() =~= ids.take(i as int));
            assert(ids.take(i + 1).last() == ids[i as int]);
        }
        let ghost was = unknown;
        match rt.badge_count {
            Some(c) => {
                if c > 0 {
                    total = total + c as u64;
                    if total > u32::MAX as u64 {
                        total = u32::MAX as u64;
                    }
                } else if c < 0 {
                    unknown = true;
                }
            },
            None => {},
        }
        proof {
            let next = ids.take(i + 1);
            let done = ids.take(i as int);
            let neg = rt.badge_count is Some && rt.badge_count->0 < 0;
            if has_unknown_unread(manager@, next) {
                let x = choose|x: int|
                    0 <= x < next.len() && #[trigger] manager@[next[x]].badge_count is Some
                        && manager@[next[x]].badge_count->0 < 0;
                if x < i {
                    assert(done[x] == next[x]);
                    assert(manager@[done[x]].badge_count is Some);
                }
            }
            if was {
                let x = choose|x: int|
                    0 <= x < done.len() && #[trigger] manager@[done[x]].badge_count is Some
                        && manager@[done[x]].badge_count->0 < 0;
                assert(next[x] == done[x]);
                assert(manager@[next[x]].badge_count is Some);
            }
            if neg {
                assert(manager@[next[i as int]].badge_count is Some);
            }
        }
        i += 1;
    }
    proof {
        assert(ids.take(n as int) =~= ids);
    }
    let total = total as u32;
    BadgeSummary { total, has_unread_dot: total == 0 && unknown }
}

/// What is shown to the user for a notification.
#[derive(Debug, PartialEq, Eq)]
pub struct NativeNotification {
    pub title: String,
    pub body: String,
    pub app_id: String,
}

/// The title and body shown for a notification of `app`, if one is shown.
pub open spec fn shown_notification(app: AppConfig, n: WebNotification) -> Option<
    (Seq<char>, Seq<char>),
> {
    match app.notification_style {
        NotificationStyle::Off => None,
        NotificationStyle::Private => Some((app.name@, "New notification"@)),
        NotificationStyle::Full => Some(
            (
                if n.title@.len() == 0 {
                    app.name@
                } else {
                    app.name@ + ": "@ + n.title@
                },
                n.body@,
            ),
        ),
    }
}

/// Decides what to show for a notification that a page raised. Nothing is
/// shown while notifications are silenced, by hand or by the schedule
/// (`in_schedule`), for an instance that is not configured, or for one whose
/// notifications are off. A private instance shows its name alone; a full one
/// shows its name before the title, and the body.
pub fn on_web_notification(config: &OrblyConfig, notification: &WebNotification, in_schedule: bool) -> (r:
    Option<NativeNotification>)
    ensures
        match r {
            Some(shown) => {
                &&& !config.general.dnd_enabled
                &&& !in_schedule
                &&& config_of(config.apps@, notification.app_id@) is Some
                &&& shown_notification(
                    config_of(config.apps@, notification.app_id@)->0,
                    *notification,
                ) == Some((shown.title@, shown.body@))
                &&& shown.app_id@ == notification.app_id@
            },
            None => config.general.dnd_enabled || in_schedule || config_of(
                config.apps@,
                notification.app_id@,
            ) is None || shown_notification(
                config_of(config.apps@, notification.app_id@)->0,
                *notification,
            ) is None,
        },
{
    if config.general.dnd_enabled || in_schedule {
        return None;
    }
    let app = match lookup_app(config.apps.as_slice(), notification.app_id.as_str()) {
        Some(a) => a,
        None => {
            return None;
        },
    };
    match app.notification_style {
        NotificationStyle::Off => None,
        NotificationStyle::Private => Some(
            NativeNotification {
                title: app.name.clone(),
                body: String::from_str("New notification"),
                app_id: notification.app_id.clone(),
            },
        ),
        NotificationStyle::Full => {
            let title = if notification.title.as_str().is_empty() {
                app.name.clone()
            } else {
                let mut t = app.name.clone();
                t.append(": ");
                t.append(notification.title.as_str());
                t
            };
            Some(
                NativeNotification {
                    title,
                    body: notification.body.clone(),
                    app_id: notification.app_id.clone(),
                },
            )
        },
    }
}

} // verus!
