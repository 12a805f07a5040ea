use vstd::prelude::*;

use super::state::{AppRuntime, AppRuntimeState, RuntimeView, StateView};
use crate::text::opt_text;

verus! {

/// A surface that sent no heartbeat for longer than this many seconds is taken for dead.
pub const HEARTBEAT_TIMEOUT_SECS: u64 = 90;

/// A load that lasts longer than this many seconds is taken for stuck.
pub const STUCK_LOAD_SECS: u64 = 30;

/// No instance is hibernated for idleness sooner than this many seconds after
/// its last interaction, however short its configured timeout.
pub const MIN_IDLE_SECS: u64 = 60;

/// The message of the error state that a stuck load ends in.
pub open spec fn load_timeout_message() -> Seq<char> {
    "Page took too long to load"@
}

/// An input to the lifecycle state machine.
#[derive(Debug)]
pub enum LifecycleEvent {
    /// The user asks for the instance. `default_url` is its configured home URL;
    /// `surface_exists` tells whether the host still holds a surface for it.
    Activate { default_url: String, surface_exists: bool },
    /// The surface reports the URL that it shows.
    SurfaceNavigated { url: String },
    /// The surface could not be created, or its page failed to load.
    SurfaceLoadFailed { message: String },
    /// The user puts the instance to sleep. `live_url` is what the surface
    /// showed when it was destroyed, if that could be asked.
    Hibernate { live_url: Option<String>, default_url: String },
    Disable,
    Enable { default_url: String },
    /// The user kills the surface of the instance.
    Kill { live_url: Option<String> },
    /// The supervisor found no heartbeat from the surface.
    HeartbeatTimeout,
    /// The supervisor found the load unfinished at time `now`.
    StuckLoadTimeout { now: u64 },
    /// The supervisor found the instance idle at time `now`.
    AutoHibernateTimeout {
        now: u64,
        timeout_minutes: u32,
        live_url: Option<String>,
        default_url: String,
    },
}

/// The mathematical value of a [`LifecycleEvent`].
pub enum EventView {
    Activate { default_url: Seq<char>, surface_exists: bool },
    SurfaceNavigated { url: Seq<char> },
    SurfaceLoadFailed { message: Seq<char> },
    Hibernate { live_url: Option<Seq<char>>, default_url: Seq<char> },
    Disable,
    Enable { default_url: Seq<char> },
    Kill { live_url: Option<Seq<char>> },
    HeartbeatTimeout,
    StuckLoadTimeout { now: u64 },
    AutoHibernateTimeout {
        now: u64,
        timeout_minutes: u32,
        live_url: Option<Seq<char>>,
        default_url: Seq<char>,
    },
}

impl View for LifecycleEvent {
    type V = EventView;

    open spec fn view(&self) -> EventView {
        match *self {
            LifecycleEvent::Activate { default_url, surface_exists } => EventView::Activate {
                default_url: default_url@,
                surface_exists,
            },
            LifecycleEvent::SurfaceNavigated { url } => EventView::SurfaceNavigated { url: url@ },
            LifecycleEvent::SurfaceLoadFailed { message } => EventView::SurfaceLoadFailed {
                message: message@,
            },
            LifecycleEvent::Hibernate { live_url, default_url } => EventView::Hibernate {
                live_url: opt_text(live_url),
                default_url: default_url@,
            },
            LifecycleEvent::Disable => EventView::Disable,
            LifecycleEvent::Enable { default_url } => EventView::Enable {
                default_url: default_url@,
            },
            LifecycleEvent::Kill { live_url } => EventView::Kill { live_url: opt_text(live_url) },
            LifecycleEvent::HeartbeatTimeout => EventView::HeartbeatTimeout,
            LifecycleEvent::StuckLoadTimeout { now } => EventView::StuckLoadTimeout { now },
            LifecycleEvent::AutoHibernateTimeout {
                now,
                timeout_minutes,
                live_url,
                default_url,
            } => EventView::AutoHibernateTimeout {
                now,
                timeout_minutes,
                live_url: opt_text(live_url),
                default_url: default_url@,
            },
        }
    }
}

/// What can go wrong with a lifecycle request.
#[derive(Debug, PartialEq, Eq)]
pub enum LifecycleError {
    /// No instance has the given id.
    UnknownInstance,
    /// The instance is disabled and has to be enabled first.
    InstanceDisabled,
    /// The host could not create the surface.
    SurfaceCreateFailed { message: String },
    /// The host could not destroy the surface. This never stops a transition.
    SurfaceDestroyFailed { message: String },
    /// A load did not finish in time.
    LoadTimedOut,
    /// A visible surface stopped sending heartbeats.
    HeartbeatLost,
}

/// The mathematical value of a [`LifecycleError`].
pub enum ErrorView {
    UnknownInstance,
    InstanceDisabled,
    SurfaceCreateFailed { message: Seq<char> },
    SurfaceDestroyFailed { message: Seq<char> },
    LoadTimedOut,
    HeartbeatLost,
}

impl View for LifecycleError {
    type V = ErrorView;

    open spec fn view(&self) -> ErrorView {
        match *self {
            LifecycleError::UnknownInstance => ErrorView::UnknownInstance,
            LifecycleError::InstanceDisabled => ErrorView::InstanceDisabled,
            LifecycleError::SurfaceCreateFailed { message } => ErrorView::SurfaceCreateFailed {
                message: message@,
            },
            LifecycleError::SurfaceDestroyFailed { message } => ErrorView::SurfaceDestroyFailed {
                message: message@,
            },
            LifecycleError::LoadTimedOut => ErrorView::LoadTimedOut,
            LifecycleError::HeartbeatLost => ErrorView::HeartbeatLost,
        }
    }
}

/// What an event did to a record.
#[derive(Clone, Copy, Debug, PartialEq, Eq, Structural)]
pub enum Transition {
    /// The event applied and the record entered the state that the table gives.
    Changed,
    /// The event applies in this state and asks for nothing: the record is as before.
    Unchanged,
    /// The event does not apply in this state: the record is as before.
    Rejected,
}

/// The milliseconds of a second.
pub const MILLIS_PER_SECOND: u64 = 1000;

/// Milliseconds from `since` to `now`; zero where `now` is the earlier.
pub open spec fn elapsed_ms(since: u64, now: u64) -> int {
    if now >= since {
        now - since
    } else {
        0
    }
}

/// A load is stuck when the record has been `Loading` for more than
/// `STUCK_LOAD_SECS`, counted from the interaction that started the load.
pub open spec fn load_is_stuck(r: RuntimeView, now: u64) -> bool {
    &&& r.state is Loading
    &&& r.last_interaction is Some
    &&& elapsed_ms(r.last_interaction->0, now) > MILLIS_PER_SECOND * STUCK_LOAD_SECS
}

/// The heartbeat of a record is lost when it is the visible, active record,
/// has sent a heartbeat, and the last one is older than `HEARTBEAT_TIMEOUT_SECS`.
pub open spec fn heartbeat_lost(r: RuntimeView, now: u64) -> bool {
    &&& r.is_visible
    &&& r.state is Active
    &&& r.last_heartbeat is Some
    &&& elapsed_ms(r.last_heartbeat->0, now) > MILLIS_PER_SECOND * HEARTBEAT_TIMEOUT_SECS
}

/// A record is due for hibernation when it has a surface, plays no media, its
/// instance has a timeout, and its last interaction lies back at least the
/// timeout, which is in minutes, and at least `MIN_IDLE_SECS`.
pub open spec fn idle_expired(r: RuntimeView, timeout_minutes: u32, now: u64) -> bool {
    &&& r.state is Active || r.state is Loading
    &&& timeout_minutes != 0
    &&& !r.is_playing_media
    &&& r.last_interaction is Some
    &&& elapsed_ms(r.last_interaction->0, now) >= MILLIS_PER_SECOND * MIN_IDLE_SECS
    &&& elapsed_ms(r.last_interaction->0, now) >= MILLIS_PER_SECOND * 60 * timeout_minutes
}

/// The URL that an activation loads: the current one of an active instance,
/// the last one of a hibernated instance, else the configured one.
pub open spec fn activation_target(s: StateView, default_url: Seq<char>) -> Seq<char> {
    match s {
        StateView::Active { current_url } => current_url,
        StateView::Hibernated { last_url } => last_url,
        _ => default_url,
    }
}

/// The URL that a hibernated instance keeps: what the surface showed when it
/// was destroyed, else the configured URL.
pub open spec fn hibernation_url(live_url: Option<Seq<char>>, default_url: Seq<char>) -> Seq<char> {
    match live_url {
        Some(u) => u,
        None => default_url,
    }
}

/// The URL that a killed instance keeps, the last that is known of it: what
/// the surface showed when it was destroyed, else the URL that its state
/// carries, which is the current one of an active instance and the target of
/// a loading one. A state that carries no URL leaves the empty text.
pub open spec fn kill_url(s: StateView, live_url: Option<Seq<char>>) -> Seq<char> {
    match live_url {
        Some(u) => u,
        None => match s {
            StateView::Active { current_url } => current_url,
            StateView::Loading { target_url } => target_url,
            _ => Seq::<char>::empty(),
        },
    }
}

/// The transition table: what `e` does to a record `r`.
pub open spec fn transition_of(r: RuntimeView, e: EventView) -> Transition {
    match e {
        EventView::Activate { .. } => if r.state is Active {
            Transition::Unchanged
        } else if r.state is Loading {
            Transition::Rejected
        } else {
            Transition::Changed
        },
        EventView::SurfaceNavigated { .. } => if r.state is Loading || r.state is Active {
            Transition::Changed
        } else {
            Transition::Rejected
        },
        EventView::SurfaceLoadFailed { .. } => if r.state is Loading {
            Transition::Changed
        } else {
            Transition::Rejected
        },
        EventView::Hibernate { .. } => if r.state is Active || r.state is Error
            || r.state is Crashed {
            Transition::Changed
        } else {
            Transition::Rejected
        },
        EventView::Disable => Transition::Changed,
        EventView::Enable { .. } => if r.state is Disabled {
            Transition::Changed
        } else {
            Transition::Rejected
        },
        EventView::Kill { .. } => if r.state is Disabled || r.state is Hibernated {
            Transition::Unchanged
        } else {
            Transition::Changed
        },
        EventView::HeartbeatTimeout => if r.state is Active && r.is_visible {
            Transition::Changed
        } else {
            Transition::Rejected
        },
        EventView::StuckLoadTimeout { now } => if load_is_stuck(r, now) {
            Transition::Changed
        } else {
            Transition::Rejected
        },
        EventView::AutoHibernateTimeout { now, timeout_minutes, .. } => if idle_expired(
            r,
            timeout_minutes,
            now,
        ) {
            Transition::Changed
        } else {
            Transition::Rejected
        },
    }
}

/// The state that `e` moves a record `r` to, where `transition_of(r, e)` is `Changed`.
pub open spec fn target_state(r: RuntimeView, e: EventView) -> StateView {
    match e {
        EventView::Activate { default_url, surface_exists } => if surface_exists {
            StateView::Active { current_url: activation_target(r.state, default_url) }
        } else {
            StateView::Loading { target_url: activation_target(r.state, default_url) }
        },
        EventView::SurfaceNavigated { url } => StateView::Active { current_url: url },
        EventView::SurfaceLoadFailed { message } => StateView::Error { message },
        EventView::Hibernate { live_url, default_url } => StateView::Hibernated {
            last_url: hibernation_url(live_url, default_url),
        },
        EventView::Disable => StateView::Disabled,
        EventView::Enable { default_url } => StateView::Hibernated { last_url: default_url },
        EventView::Kill { live_url } => StateView::Hibernated {
            last_url: kill_url(r.state, live_url),
        },
        EventView::HeartbeatTimeout => StateView::Crashed,
        EventView::StuckLoadTimeout { .. } => StateView::Error { message: load_timeout_message() },
        EventView::AutoHibernateTimeout { live_url, default_url, .. } => StateView::Hibernated {
            last_url: hibernation_url(live_url, default_url),
        },
    }
}

/// The record `r` on entering state `s`. A state without a surface has no
/// heartbeat and is not visible.
pub open spec fn entered(r: RuntimeView, s: StateView) -> RuntimeView {
    if s.surface_gone() {
        RuntimeView { state: s, is_visible: false, last_heartbeat: None, ..r }
    } else {
        RuntimeView { state: s, ..r }
    }
}

/// The record `r` after event `e`.
pub open spec fn step(r: RuntimeView, e: EventView) -> RuntimeView {
    if transition_of(r, e) == Transition::Changed {
        entered(r, target_state(r, e))
    } else {
        r
    }
}

/// Milliseconds from `since` to `now`; zero where `now` is the earlier.
pub fn elapsed_millis(since: u64, now: u64) -> (r: u64)
    ensures
        r == elapsed_ms(since, now),
{
    if now >= since {
        now - since
    } else {
        0
    }
}

fn url_or(live_url: Option<String>, fallback: String) -> (r: String)
    ensures
        r@ == hibernation_url(opt_text(live_url), fallback@),
{
    match live_url {
        Some(u) => u,
        None => fallback,
    }
}

impl AppRuntime {
    /// Whether the load of this record is stuck at time `now`.
    pub fn load_is_stuck(&self, now: u64) -> (b: bool)
        ensures
            b == load_is_stuck(self@, now),
    {
        match (&self.state, self.last_interaction) {
            (AppRuntimeState::Loading { .. }, Some(last)) => elapsed_millis(last, now)
                > MILLIS_PER_SECOND * STUCK_LOAD_SECS,
            _ => false,
        }
    }

    /// Whether this record is visible and active and its heartbeat is lost at time `now`.
    pub fn heartbeat_lost(&self, now: u64) -> (b: bool)
        ensures
            b == heartbeat_lost(self@, now),
    {
        if !self.is_visible {
            return false;
        }
        match (&self.state, self.last_heartbeat) {
            (AppRuntimeState::Active { .. }, Some(last)) => elapsed_millis(last, now)
                > MILLIS_PER_SECOND * HEARTBEAT_TIMEOUT_SECS,
            _ => false,
        }
    }

    /// Whether this record is due for hibernation at time `now` under a
    /// timeout of `timeout_minutes`.
    pub fn idle_expired(&self, timeout_minutes: u32, now: u64) -> (b: bool)
        ensures
            b == idle_expired(self@, timeout_minutes, now),
    {
        let has_surface = match &self.state {
            AppRuntimeState::Active { .. } => true,
            AppRuntimeState::Loading { .. } => true,
            _ => false,
        };
        if !has_surface || timeout_minutes == 0 || self.is_playing_media {
            return false;
        }
        match self.last_interaction {
            Some(last) => {
                let idle = elapsed_millis(last, now);
                idle >= MILLIS_PER_SECOND * MIN_IDLE_SECS && idle >= MILLIS_PER_SECOND * 60
                    * (timeout_minutes as u64)
            },
            None => false,
        }
    }

    /// What `event` would do to this record, without doing it.
    pub fn classify(&self, event: &LifecycleEvent) -> (outcome: Transition)
        ensures
            outcome == transition_of(self@, event@),
    {
        match event {
            LifecycleEvent::Activate { .. } => match &self.state {
                AppRuntimeState::Active { .. } => Transition::Unchanged,
                AppRuntimeState::Loading { .. } => Transition::Rejected,
                _ => Transition::Changed,
            },
            LifecycleEvent::SurfaceNavigated { .. } => match &self.state {
                AppRuntimeState::Loading { .. } => Transition::Changed,
                AppRuntimeState::Active { .. } => Transition::Changed,
                _ => Transition::Rejected,
            },
            LifecycleEvent::SurfaceLoadFailed { .. } => match &self.state {
                AppRuntimeState::Loading { .. } => Transition::Changed,
                _ => Transition::Rejected,
            },
            LifecycleEvent::Hibernate { .. } => match &self.state {
                AppRuntimeState::Active { .. } => Transition::Changed,
                AppRuntimeState::Error { .. } => Transition::Changed,
                AppRuntimeState::Crashed => Transition::Changed,
                _ => Transition::Rejected,
            },
            LifecycleEvent::Disable => Transition::Changed,
            LifecycleEvent::Enable { .. } => match &self.state {
                AppRuntimeState::Disabled => Transition::Changed,
                _ => Transition::Rejected,
            },
            LifecycleEvent::Kill { .. } => match &self.state {
                AppRuntimeState::Disabled => Transition::Unchanged,
                AppRuntimeState::Hibernated { .. } => Transition::Unchanged,
                _ => Transition::Changed,
            },
            LifecycleEvent::HeartbeatTimeout => match &self.state {
                AppRuntimeState::Active { .. } => if self.is_visible {
                    Transition::Changed
                } else {
                    Transition::Rejected
                },
                _ => Transition::Rejected,
            },
            LifecycleEvent::StuckLoadTimeout { now } => if self.load_is_stuck(*now) {
                Transition::Changed
            } else {
                Transition::Rejected
            },
            LifecycleEvent::AutoHibernateTimeout { now, timeout_minutes, .. } => if self.idle_expired(
                *timeout_minutes,
                *now,
            ) {
                Transition::Changed
            } else {
                Transition::Rejected
            },
        }
    }

    fn enter(&mut self, state: AppRuntimeState)
        ensures
            final(self)@ == entered(old(self)@, state@),
    {
        let gone = match &state {
            AppRuntimeState::Hibernated { .. } => true,
            AppRuntimeState::Disabled => true,
            AppRuntimeState::Crashed => true,
            _ => false,
        };
        self.state = state;
        if gone {
            self.is_visible = false;
            self.last_heartbeat = None;
        }
    }

    /// Applies `event` to this record as the transition table says. An event
    /// that does not apply in the record's state leaves the record as it is.
    pub fn apply(&mut self, event: LifecycleEvent) -> (outcome: Transition)
        ensures
            outcome == transition_of(old(self)@, event@),
            final(self)@ == step(old(self)@, event@),
    {
        match event {
            LifecycleEvent::Activate { default_url, surface_exists } => {
                let target = match &self.state {
                    AppRuntimeState::Active { .. } => {
                        return Transition::Unchanged;
                    },
                    AppRuntimeState::Loading { .. } => {
                        return Transition::Rejected;
                    },
                    AppRuntimeState::Hibernated { last_url } => last_url.clone(),
                    _ => default_url,
                };
                if surface_exists {
                    self.enter(AppRuntimeState::Active { current_url: target });
                } else {
                    self.enter(AppRuntimeState::Loading { target_url: target });
                }
                Transition::Changed
            },
            LifecycleEvent::SurfaceNavigated { url } => {
                let applies = match &self.state {
                    AppRuntimeState::Loading { .. } => true,
                    AppRuntimeState::Active { .. } => true,
                    _ => false,
                };
                if applies {
                    self.enter(AppRuntimeState::Active { current_url: url });
                    Transition::Changed
                } else {
                    Transition::Rejected
                }
            },
            LifecycleEvent::SurfaceLoadFailed { message } => {
                let applies = match &self.state {
                    AppRuntimeState::Loading { .. } => true,
                    _ => false,
                };
                if applies {
                    self.enter(AppRuntimeState::Error { message });
                    Transition::Changed
                } else {
                    Transition::Rejected
                }
            },
            LifecycleEvent::Hibernate { live_url, default_url } => {
                let applies = match &self.state {
                    AppRuntimeState::Active { .. } => true,
                    AppRuntimeState::Error { .. } => true,
                    AppRuntimeState::Crashed => true,
                    _ => false,
                };
                if applies {
                    self.enter(AppRuntimeState::Hibernated { last_url: url_or(live_url, default_url) });
                    Transition::Changed
                } else {
                    Transition::Rejected
                }
            },
            LifecycleEvent::Disable => {
                self.enter(AppRuntimeState::Disabled);
                Transition::Changed
            },
            LifecycleEvent::Enable { default_url } => {
                let applies = match &self.state {
                    AppRuntimeState::Disabled => true,
                    _ => false,
                };
                if applies {
                    self.enter(AppRuntimeState::Hibernated { last_url: default_url });
                    Transition::Changed
                } else {
                    Transition::Rejected
                }
            },
            LifecycleEvent::Kill { live_url } => {
                let fallback = match &self.state {
                    AppRuntimeState::Disabled => {
                        return Transition::Unchanged;
                    },
                    AppRuntimeState::Hibernated { .. } => {
                        return Transition::Unchanged;
                    },
                    AppRuntimeState::Active { current_url } => current_url.clone(),
                    AppRuntimeState::Loading { target_url } => target_url.clone(),
                    _ => String::new(),
                };
                self.enter(AppRuntimeState::Hibernated { last_url: url_or(live_url, fallback) });
                Transition::Changed
            },
            LifecycleEvent::HeartbeatTimeout => {
                let applies = match &self.state {
                    AppRuntimeState::Active { .. } => self.is_visible,
                    _ => false,
                };
                if applies {
                    self.enter(AppRuntimeState::Crashed);
                    Transition::Changed
                } else {
                    Transition::Rejected
                }
            },
            LifecycleEvent::StuckLoadTimeout { now } => {
                if self.load_is_stuck(now) {
                    self.enter(
                        AppRuntimeState::Error {
                            message: String::from_str("Page took too long to load"),
                        },
                    );
                    Transition::Changed
                } else {
                    Transition::Rejected
                }
            },
            LifecycleEvent::AutoHibernateTimeout { now, timeout_minutes, live_url, default_url } => {
                if self.idle_expired(timeout_minutes, now) {
                    self.enter(AppRuntimeState::Hibernated { last_url: url_or(live_url, default_url) });
                    Transition::Changed
                } else {
                    Transition::Rejected
                }
            },
        }
    }
}

} // verus!
