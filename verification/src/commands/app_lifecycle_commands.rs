use vstd::prelude::*;

use crate::app_manager::lifecycle::{
    entered, step, transition_of, ErrorView, EventView, LifecycleError, LifecycleEvent,
    Transition,
};
use crate::app_manager::session_state::{Journal, SessionState};
use crate::app_manager::state::{
    after_event, shown_only, AppManager, AppRuntime, AppRuntimeState, Registry, RuntimeView,
    StateView,
};
use crate::config::models::{config_of, lookup_app, AppConfig};
use crate::text::opt_text;

verus! {

/// The URL that a destroyed surface showed last, where the host could tell.
/// A failed destruction tells nothing and stops nothing.
pub open spec fn live_url_of(destroyed: Result<Option<String>, String>) -> Option<Seq<char>> {
    match destroyed {
        Ok(u) => opt_text(u),
        Err(_) => None,
    }
}

/// The configured home URL of instance `id`; empty where it is not configured.
pub open spec fn home_url(apps: Seq<AppConfig>, id: Seq<char>) -> Seq<char> {
    match config_of(apps, id) {
        Some(a) => a.url@,
        None => Seq::<char>::empty(),
    }
}

/// The URL that a state carries; empty for a state without one.
pub open spec fn state_url(s: StateView) -> Seq<char> {
    match s {
        StateView::Loading { target_url } => target_url,
        StateView::Active { current_url } => current_url,
        StateView::Hibernated { last_url } => last_url,
        _ => Seq::<char>::empty(),
    }
}

/// The journal `j` once instance `id` has settled in registry `m`: an
/// instance without a surface is not journaled.
pub open spec fn journal_after(j: Journal, m: Registry, id: Seq<char>) -> Journal {
    if m.contains_key(id) && m[id].state.surface_gone() {
        j.remove(id)
    } else {
        j
    }
}

/// Sends `event` to instance `app_id` and takes the instance out of the
/// journal where it ends without a surface.
pub fn settle(
    manager: &mut AppManager,
    session: &mut SessionState,
    app_id: &str,
    event: LifecycleEvent,
) -> (r: Result<Transition, LifecycleError>)
    requires
        old(manager).wf(),
        old(session).wf(),
    ensures
        final(manager).wf(),
        final(session).wf(),
        final(manager).pending() == old(manager).pending(),
        final(manager).ids() == old(manager).ids(),
        final(manager)@ == after_event(old(manager)@, app_id@, event@),
        final(session)@ == journal_after(old(session)@, final(manager)@, app_id@),
        match r {
            Ok(t) => old(manager)@.contains_key(app_id@) && t == transition_of(
                old(manager)@[app_id@],
                event@,
            ),
            Err(e) => !old(manager)@.contains_key(app_id@) && e@ == ErrorView::UnknownInstance,
        },
{
    match manager.apply_event(app_id, event) {
        Some(t) => {
            let gone = match manager.get_state(app_id) {
                Some(rt) => match rt.state {
                    AppRuntimeState::Hibernated { .. } => true,
                    AppRuntimeState::Disabled => true,
                    AppRuntimeState::Crashed => true,
                    _ => false,
                },
                None => false,
            };
            if gone {
                session.remove(app_id);
            }
            Ok(t)
        },
        None => Err(LifecycleError::UnknownInstance),
    }
}

/// What the host has to do for an activation.
#[derive(Debug, PartialEq, Eq)]
pub struct Activation {
    /// The URL that the instance shows or is to load.
    pub url: String,
    /// Whether a surface has to be created at `url`.
    pub create_surface: bool,
}

/// Why instance `id` cannot be activated, if it cannot.
pub open spec fn activation_error(m: Registry, apps: Seq<AppConfig>, id: Seq<char>) -> Option<
    ErrorView,
> {
    if !m.contains_key(id) || config_of(apps, id) is None {
        Some(ErrorView::UnknownInstance)
    } else if !config_of(apps, id)->0.enabled {
        Some(ErrorView::InstanceDisabled)
    } else {
        None
    }
}

/// The event that an activation request sends.
pub open spec fn activate_event(apps: Seq<AppConfig>, id: Seq<char>, surface_exists: bool) -> EventView {
    EventView::Activate { default_url: home_url(apps, id), surface_exists }
}

/// The registry after an activation request for `id` at time `now`. A request
/// that the state machine takes counts as an interaction.
pub open spec fn activated(
    m: Registry,
    apps: Seq<AppConfig>,
    id: Seq<char>,
    surface_exists: bool,
    now: u64,
) -> Registry {
    if activation_error(m, apps, id) is Some || transition_of(
        m[id],
        activate_event(apps, id, surface_exists),
    ) == Transition::Rejected {
        m
    } else {
        m.insert(
            id,
            RuntimeView {
                last_interaction: Some(now),
                ..step(m[id], activate_event(apps, id, surface_exists))
            },
        )
    }
}

/// Whether the activation request for `id` asks the host for a new surface.
pub open spec fn creates_surface(
    m: Registry,
    apps: Seq<AppConfig>,
    id: Seq<char>,
    surface_exists: bool,
) -> bool {
    &&& activation_error(m, apps, id) is None
    &&& !surface_exists
    &&& transition_of(m[id], activate_event(apps, id, surface_exists)) == Transition::Changed
}

/// First half of an activation: decides what to load and marks the instance.
///
/// An instance that is `Active` stays as it is and needs no surface. One that
/// is `Hibernated`, `Disabled`, `Crashed` or in `Error` becomes `Loading`
/// where the host holds no surface for it, and a surface has to be created;
/// where the host still holds one it becomes `Active` at once. One that is
/// `Loading` stays so. The host then creates the surface if asked to and
/// reports through `finish_activation`.
///
/// Fails with `UnknownInstance` where the id is not configured or has no
/// record, and with `InstanceDisabled` where its configuration is not
/// enabled; the registry is then unchanged.
pub fn activate_app(
    manager: &mut AppManager,
    apps: &[AppConfig],
    app_id: &str,
    surface_exists: bool,
    now: u64,
) -> (r: Result<Activation, LifecycleError>)
    requires
        old(manager).wf(),
    ensures
        final(manager).wf(),
        final(manager).pending() == old(manager).pending(),
        final(manager).ids() == old(manager).ids(),
        final(manager)@ == activated(old(manager)@, apps@, app_id@, surface_exists, now),
        match r {
            Ok(a) => {
                &&& activation_error(old(manager)@, apps@, app_id@) is None
                &&& a.url@ == state_url(final(manager)@[app_id@].state)
                &&& a.create_surface == creates_surface(
                    old(manager)@,
                    apps@,
                    app_id@,
                    surface_exists,
                )
            },
            Err(e) => activation_error(old(manager)@, apps@, app_id@) == Some(e@),
        },
{
    let app = match lookup_app(apps, app_id) {
        Some(app) => app,
        None => {
            return Err(LifecycleError::UnknownInstance);
        },
    };
    if !manager.contains(app_id) {
        return Err(LifecycleError::UnknownInstance);
    }
    if !app.enabled {
        return Err(LifecycleError::InstanceDisabled);
    }
    let event = LifecycleEvent::Activate { default_url: app.url.clone(), surface_exists };
    let outcome = manager.apply_event(app_id, event);
    let taken = match outcome {
        Some(Transition::Rejected) => false,
        _ => true,
    };
    if taken {
        manager.touch_interaction(app_id, now);
    }
    let create_surface = !surface_exists && match outcome {
        Some(Transition::Changed) => true,
        _ => false,
    };
    let url = match manager.get_state(app_id) {
        Some(rt) => match rt.state {
            AppRuntimeState::Loading { target_url } => target_url,
            AppRuntimeState::Active { current_url } => current_url,
            AppRuntimeState::Hibernated { last_url } => last_url,
            _ => String::new(),
        },
        None => String::new(),
    };
    assert(manager@ =~= activated(old(manager)@, apps@, app_id@, surface_exists, now));
    Ok(Activation { url, create_surface })
}

/// The text of the error of a failed creation.
pub open spec fn creation_failure(created: Result<(), String>) -> Option<Seq<char>> {
    match created {
        Ok(_) => None,
        Err(message) => Some(message@),
    }
}

/// Whether the second half of an activation shows instance `id`: the host
/// has a surface for it and its record still expects one.
pub open spec fn shows(m: Registry, id: Seq<char>, created: Result<(), String>) -> bool {
    &&& created is Ok
    &&& m.contains_key(id)
    &&& (m[id].state is Loading || m[id].state is Active)
}

/// The registry after the second half of an activation of `id`.
pub open spec fn activation_finished(m: Registry, id: Seq<char>, created: Result<(), String>) -> Registry {
    match created {
        Err(message) => after_event(m, id, EventView::SurfaceLoadFailed { message: message@ }),
        Ok(_) => if shows(m, id, created) {
            shown_only(m, id)
        } else {
            m
        },
    }
}

/// Second half of an activation, after the host created the surface or found
/// that none was needed; `created` is what the creation returned.
///
/// On success the instance becomes the one visible instance and is journaled
/// at the URL of its state, provided its record still expects a surface. On
/// failure a `Loading` instance ends in `Error` with the host's message, no
/// other record changes, and the call fails with `SurfaceCreateFailed`.
pub fn finish_activation(
    manager: &mut AppManager,
    session: &mut SessionState,
    app_id: &str,
    created: Result<(), String>,
) -> (r: Result<bool, LifecycleError>)
    requires
        old(manager).wf(),
        old(session).wf(),
    ensures
        final(manager).wf(),
        final(session).wf(),
        final(manager).pending() == old(manager).pending(),
        final(manager).ids() == old(manager).ids(),
        final(manager)@ == activation_finished(old(manager)@, app_id@, created),
        final(session)@ == if shows(old(manager)@, app_id@, created) {
            old(session)@.insert(app_id@, state_url(old(manager)@[app_id@].state))
        } else {
            old(session)@
        },
        match r {
            Ok(shown) => created is Ok && old(manager)@.contains_key(app_id@) && shown == shows(
                old(manager)@,
                app_id@,
                created,
            ),
            Err(e) => match created {
                Ok(_) => !old(manager)@.contains_key(app_id@) && e@ == ErrorView::UnknownInstance,
                Err(message) => e@ == ErrorView::SurfaceCreateFailed { message: message@ },
            },
        },
{
    match created {
        Err(message) => {
            let _ = manager.apply_event(
                app_id,
                LifecycleEvent::SurfaceLoadFailed { message: message.clone() },
            );
            Err(LifecycleError::SurfaceCreateFailed { message })
        },
        Ok(_) => {
            let url = match manager.get_state(app_id) {
                Some(rt) => match rt.state {
                    AppRuntimeState::Loading { target_url } => Some(target_url),
                    AppRuntimeState::Active { current_url } => Some(current_url),
                    _ => None,
                },
                None => {
                    return Err(LifecycleError::UnknownInstance);
                },
            };
            match url {
                Some(url) => {
                    manager.show_only(app_id);
                    session.set_active(app_id, url.as_str());
                    Ok(true)
                },
                None => Ok(false),
            }
        },
    }
}

/// The event that a hibernation request sends, given what the destruction of
/// the surface returned.
pub open spec fn hibernate_event(
    apps: Seq<AppConfig>,
    id: Seq<char>,
    destroyed: Result<Option<String>, String>,
) -> EventView {
    EventView::Hibernate { live_url: live_url_of(destroyed), default_url: home_url(apps, id) }
}

/// Whether a request needs the surface of `app_id` destroyed before it is
/// carried out: whether `event` would change the record.
pub fn teardown_due(manager: &AppManager, app_id: &str, event: &LifecycleEvent) -> (r: Result<
    bool,
    LifecycleError,
>)
    requires
        manager.wf(),
    ensures
        match r {
            Ok(due) => manager@.contains_key(app_id@) && due == (transition_of(
                manager@[app_id@],
                event@,
            ) == Transition::Changed),
            Err(e) => !manager@.contains_key(app_id@) && e@ == ErrorView::UnknownInstance,
        },
{
    match manager.get_state(app_id) {
        Some(rt) => Ok(rt.classify(event) == Transition::Changed),
        None => Err(LifecycleError::UnknownInstance),
    }
}

/// Hibernates instance `app_id`, once the host was asked to destroy its
/// surface; `destroyed` is what the host answered. An instance that is
/// `Active`, `Crashed` or in `Error` becomes `Hibernated` at the URL that the
/// surface showed last, or at its configured URL where that is not known,
/// whether or not the destruction succeeded. It then leaves the journal.
pub fn hibernate_app(
    manager: &mut AppManager,
    session: &mut SessionState,
    apps: &[AppConfig],
    app_id: &str,
    destroyed: Result<Option<String>, String>,
) -> (r: Result<Transition, LifecycleError>)
    requires
        old(manager).wf(),
        old(session).wf(),
    ensures
        final(manager).wf(),
        final(session).wf(),
        final(manager).pending() == old(manager).pending(),
        final(manager).ids() == old(manager).ids(),
        final(manager)@ == after_event(
            old(manager)@,
            app_id@,
            hibernate_event(apps@, app_id@, destroyed),
        ),
        final(session)@ == journal_after(old(session)@, final(manager)@, app_id@),
        match r {
            Ok(t) => old(manager)@.contains_key(app_id@) && t == transition_of(
                old(manager)@[app_id@],
                hibernate_event(apps@, app_id@, destroyed),
            ),
            Err(e) => !old(manager)@.contains_key(app_id@) && e@ == ErrorView::UnknownInstance,
        },
{
    let default_url = match lookup_app(apps, app_id) {
        Some(app) => app.url.clone(),
        None => String::new(),
    };
    let live_url = match destroyed {
        Ok(u) => u,
        Err(_) => None,
    };
    settle(manager, session, app_id, LifecycleEvent::Hibernate { live_url, default_url })
}

/// The event that the idle supervisor sends for instance `id` at time `now`.
pub open spec fn auto_hibernate_event(
    apps: Seq<AppConfig>,
    id: Seq<char>,
    destroyed: Result<Option<String>, String>,
    now: u64,
) -> EventView {
    EventView::AutoHibernateTimeout {
        now,
        timeout_minutes: config_of(apps, id)->0.hibernation_timeout_minutes,
        live_url: live_url_of(destroyed),
        default_url: home_url(apps, id),
    }
}

/// Hibernates instance `app_id` for idleness, once the host was asked to
/// destroy its surface. The record is looked at again: the instance becomes
/// `Hibernated`, and leaves the journal, only if at time `now` it is still
/// idle beyond its configured timeout; else nothing changes.
///
/// Fails with `UnknownInstance` where the id is not configured or has no record.
pub fn auto_hibernate_app(
    manager: &mut AppManager,
    session: &mut SessionState,
    apps: &[AppConfig],
    app_id: &str,
    destroyed: Result<Option<String>, String>,
    now: u64,
) -> (r: Result<Transition, LifecycleError>)
    requires
        old(manager).wf(),
        old(session).wf(),
    ensures
        final(manager).wf(),
        final(session).wf(),
        final(manager).pending() == old(manager).pending(),
        final(manager).ids() == old(manager).ids(),
        match r {
            Ok(t) => {
                &&& old(manager)@.contains_key(app_id@)
                &&& config_of(apps@, app_id@) is Some
                &&& t == transition_of(
                    old(manager)@[app_id@],
                    auto_hibernate_event(apps@, app_id@, destroyed, now),
                )
                &&& final(manager)@ == after_event(
                    old(manager)@,
                    app_id@,
                    auto_hibernate_event(apps@, app_id@, destroyed, now),
                )
                &&& final(session)@ == journal_after(old(session)@, final(manager)@, app_id@)
            },
            Err(e) => {
                &&& !old(manager)@.contains_key(app_id@) || config_of(apps@, app_id@) is None
                &&& e@ == ErrorView::UnknownInstance
                &&& final(manager)@ == old(manager)@
                &&& final(session)@ == old(session)@
            },
        },
{
    let app = match lookup_app(apps, app_id) {
        Some(app) => app,
        None => {
            return Err(LifecycleError::UnknownInstance);
        },
    };
    if !manager.contains(app_id) {
        return Err(LifecycleError::UnknownInstance);
    }
    let live_url = match destroyed {
        Ok(u) => u,
        Err(_) => None,
    };
    settle(
        manager,
        session,
        app_id,
        LifecycleEvent::AutoHibernateTimeout {
            now,
            timeout_minutes: app.hibernation_timeout_minutes,
            live_url,
            default_url: app.url.clone(),
        },
    )
}

/// Disables instance `app_id`, whatever its state, and takes it out of the journal.
pub fn disable_app(manager: &mut AppManager, session: &mut SessionState, app_id: &str) -> (r:
    Result<Transition, LifecycleError>)
    requires
        old(manager).wf(),
        old(session).wf(),
    ensures
        final(manager).wf(),
        final(session).wf(),
        final(manager).pending() == old(manager).pending(),
        final(manager).ids() == old(manager).ids(),
        final(manager)@ == after_event(old(manager)@, app_id@, EventView::Disable),
        final(session)@ == old(session)@.remove(app_id@),
        match r {
            Ok(t) => old(manager)@.contains_key(app_id@) && t == Transition::Changed
                && final(manager)@[app_id@].state is Disabled,
            Err(e) => !old(manager)@.contains_key(app_id@) && e@ == ErrorView::UnknownInstance,
        },
{
    let r = settle(manager, session, app_id, LifecycleEvent::Disable);
    if r.is_err() {
        session.remove(app_id);
    }
    assert(session@ =~= old(session)@.remove(app_id@));
    r
}

/// The event that an enable request sends.
pub open spec fn enable_event(apps: Seq<AppConfig>, id: Seq<char>) -> EventView {
    EventView::Enable { default_url: home_url(apps, id) }
}

/// Enables instance `app_id`: a `Disabled` instance becomes `Hibernated` at
/// its configured URL and waits there for an activation.
///
/// Fails with `UnknownInstance` where the id is not configured or has no record.
pub fn enable_app(manager: &mut AppManager, apps: &[AppConfig], app_id: &str) -> (r: Result<
    Transition,
    LifecycleError,
>)
    requires
        old(manager).wf(),
    ensures
        final(manager).wf(),
        final(manager).pending() == old(manager).pending(),
        final(manager).ids() == old(manager).ids(),
        match r {
            Ok(t) => {
                &&& old(manager)@.contains_key(app_id@)
                &&& config_of(apps@, app_id@) is Some
                &&& t == transition_of(old(manager)@[app_id@], enable_event(apps@, app_id@))
                &&& final(manager)@ == after_event(
                    old(manager)@,
                    app_id@,
                    enable_event(apps@, app_id@),
                )
            },
            Err(e) => {
                &&& !old(manager)@.contains_key(app_id@) || config_of(apps@, app_id@) is None
                &&& e@ == ErrorView::UnknownInstance
                &&& final(manager)@ == old(manager)@
            },
        },
{
    let app = match lookup_app(apps, app_id) {
        Some(app) => app,
        None => {
            return Err(LifecycleError::UnknownInstance);
        },
    };
    match manager.apply_event(app_id, LifecycleEvent::Enable { default_url: app.url.clone() }) {
        Some(t) => Ok(t),
        None => Err(LifecycleError::UnknownInstance),
    }
}

/// The surface of `app_id` reports that it shows `url`: a `Loading` or
/// `Active` instance becomes `Active` at `url` and is journaled there. In any
/// other state the report comes too late and changes nothing.
pub fn on_url_changed(
    manager: &mut AppManager,
    session: &mut SessionState,
    app_id: &str,
    url: String,
) -> (r: Result<Transition, LifecycleError>)
    requires
        old(manager).wf(),
        old(session).wf(),
    ensures
        final(manager).wf(),
        final(session).wf(),
        final(manager).pending() == old(manager).pending(),
        final(manager).ids() == old(manager).ids(),
        final(manager)@ == after_event(
            old(manager)@,
            app_id@,
            EventView::SurfaceNavigated { url: url@ },
        ),
        final(session)@ == if r == Ok::<Transition, LifecycleError>(Transition::Changed) {
            old(session)@.insert(app_id@, url@)
        } else {
            old(session)@
        },
        match r {
            Ok(t) => old(manager)@.contains_key(app_id@) && t == transition_of(
                old(manager)@[app_id@],
                EventView::SurfaceNavigated { url: url@ },
            ),
            Err(e) => !old(manager)@.contains_key(app_id@) && e@ == ErrorView::UnknownInstance,
        },
{
    match manager.apply_event(app_id, LifecycleEvent::SurfaceNavigated { url: url.clone() }) {
        Some(t) => {
            if t == Transition::Changed {
                session.set_active(app_id, url.as_str());
            }
            Ok(t)
        },
        None => Err(LifecycleError::UnknownInstance),
    }
}

/// The surface of `app_id` reports that its page failed to load: a `Loading`
/// instance ends in `Error` with the message.
pub fn on_page_load_error(manager: &mut AppManager, app_id: &str, message: String) -> (r: Result<
    Transition,
    LifecycleError,
>)
    requires
        old(manager).wf(),
    ensures
        final(manager).wf(),
        final(manager).pending() == old(manager).pending(),
        final(manager).ids() == old(manager).ids(),
        final(manager)@ == after_event(
            old(manager)@,
            app_id@,
            EventView::SurfaceLoadFailed { message: message@ },
        ),
        match r {
            Ok(t) => old(manager)@.contains_key(app_id@) && t == transition_of(
                old(manager)@[app_id@],
                EventView::SurfaceLoadFailed { message: message@ },
            ),
            Err(e) => !old(manager)@.contains_key(app_id@) && e@ == ErrorView::UnknownInstance,
        },
{
    match manager.apply_event(app_id, LifecycleEvent::SurfaceLoadFailed { message }) {
        Some(t) => Ok(t),
        None => Err(LifecycleError::UnknownInstance),
    }
}

/// The surface of `app_id` reports that it is alive at time `now`. The
/// heartbeat is recorded for an instance whose state allows a surface.
pub fn heartbeat(manager: &mut AppManager, app_id: &str, now: u64) -> (r: Result<
    (),
    LifecycleError,
>)
    requires
        old(manager).wf(),
    ensures
        final(manager).wf(),
        final(manager).pending() == old(manager).pending(),
        final(manager).ids() == old(manager).ids(),
        r is Ok <==> old(manager)@.contains_key(app_id@),
        r is Err ==> r->Err_0@ == ErrorView::UnknownInstance,
        final(manager)@ == if old(manager)@.contains_key(app_id@) && !old(
            manager,
        )@[app_id@].state.surface_gone() {
            old(manager)@.insert(
                app_id@,
                RuntimeView { last_heartbeat: Some(now), ..old(manager)@[app_id@] },
            )
        } else {
            old(manager)@
        },
{
    match manager.get_state(app_id) {
        Some(rt) => {
            let gone = match rt.state {
                AppRuntimeState::Hibernated { .. } => true,
                AppRuntimeState::Disabled => true,
                AppRuntimeState::Crashed => true,
                _ => false,
            };
            if !gone {
                manager.touch_heartbeat(app_id, now);
            }
            Ok(())
        },
        None => Err(LifecycleError::UnknownInstance),
    }
}

/// What the user interface shows of one instance.
#[derive(Debug, PartialEq, Eq)]
pub struct AppStateInfo {
    pub id: String,
    pub name: String,
    /// `loading`, `active`, `hibernated`, `disabled`, `error` or `crashed`.
    pub state: String,
    pub badge_count: Option<i32>,
    pub current_url: Option<String>,
    pub error_message: Option<String>,
}

/// The mathematical value of an [`AppStateInfo`].
pub struct StateInfoView {
    pub id: Seq<char>,
    pub name: Seq<char>,
    pub state: Seq<char>,
    pub badge_count: Option<i32>,
    pub current_url: Option<Seq<char>>,
    pub error_message: Option<Seq<char>>,
}

impl View for AppStateInfo {
    type V = StateInfoView;

    open spec fn view(&self) -> StateInfoView {
        StateInfoView {
            id: self.id@,
            name: self.name@,
            state: self.state@,
            badge_count: self.badge_count,
            current_url: opt_text(self.current_url),
            error_message: opt_text(self.error_message),
        }
    }
}

/// The name by which the user interface knows a state.
pub open spec fn state_label(s: StateView) -> Seq<char> {
    match s {
        StateView::Loading { .. } => "loading"@,
        StateView::Active { .. } => "active"@,
        StateView::Hibernated { .. } => "hibernated"@,
        StateView::Disabled => "disabled"@,
        StateView::Error { .. } => "error"@,
        StateView::Crashed => "crashed"@,
    }
}

/// What the user interface shows of a configured instance. An instance
/// without a record is shown as disabled.
pub open spec fn state_info(app: AppConfig, m: Registry) -> StateInfoView {
    if m.contains_key(app.id@) {
        let r = m[app.id@];
        StateInfoView {
            id: app.id@,
            name: app.name@,
            state: state_label(r.state),
            badge_count: r.badge_count,
            current_url: match r.state {
                StateView::Loading { target_url } => Some(target_url),
                StateView::Active { current_url } => Some(current_url),
                StateView::Hibernated { last_url } => Some(last_url),
                _ => None,
            },
            error_message: match r.state {
                StateView::Error { message } => Some(message),
                _ => None,
            },
        }
    } else {
        StateInfoView {
            id: app.id@,
            name: app.name@,
            state: "disabled"@,
            badge_count: None,
            current_url: None,
            error_message: None,
        }
    }
}

fn describe(app: &AppConfig, runtime: Option<AppRuntime>) -> (info: AppStateInfo)
    ensures
        match runtime {
            Some(rt) => forall|m: Registry|
                m.contains_key(app.id@) && m[app.id@] == rt@ ==> info@ == #[trigger] state_info(
                    *app,
                    m,
                ),
            None => forall|m: Registry|
                !m.contains_key(app.id@) ==> info@ == #[trigger] state_info(*app, m),
        },
{
    let (state, badge_count, current_url, error_message) = match runtime {
        Some(rt) => {
            let badge = rt.badge_count;
            match rt.state {
                AppRuntimeState::Loading { target_url } => (
                    String::from_str("loading"),
                    badge,
                    Some(target_url),
                    None,
                ),
                AppRuntimeState::Active { current_url } => (
                    String::from_str("active"),
                    badge,
                    Some(current_url),
                    None,
                ),
                AppRuntimeState::Hibernated { last_url } => (
                    String::from_str("hibernated"),
                    badge,
                    Some(last_url),
                    None,
                ),
                AppRuntimeState::Disabled => (String::from_str("disabled"), badge, None, None),
                AppRuntimeState::Error { message } => (
                    String::from_str("error"),
                    badge,
                    None,
                    Some(message),
                ),
                AppRuntimeState::Crashed => (String::from_str("crashed"), badge, None, None),
            }
        },
        None => (String::from_str("disabled"), None, None, None),
    };
    AppStateInfo {
        id: app.id.clone(),
        name: app.name.clone(),
        state,
        badge_count,
        current_url,
        error_message,
    }
}

/// What the user interface shows of each configured instance, in the order
/// of the configuration.
pub fn get_app_states(manager: &AppManager, apps: &[AppConfig]) -> (infos: Vec<AppStateInfo>)
    requires
        manager.wf(),
    ensures
        infos@.len() == apps@.len(),
        forall|i: int|
            0 <= i < apps@.len() ==> (#[trigger] infos@[i])@ == state_info(apps@[i], manager@),
{
    let mut infos: Vec<AppStateInfo> = Vec::new();
    let mut i: usize = 0;
    while i < apps.len()
        invariant
            i <= apps.len(),
            manager.wf(),
            infos@.len() == i,
            forall|j: int|
                0 <= j < i ==> (#[trigger] infos@[j])@ == state_info(apps@[j], manager@),
        decreases apps.len() - i,
    {
        let app = &apps[i];
        let info = describe(app, manager.get_state(app.id.as_str()));
        assert(info@ == state_info(*app, manager@));
        infos.push(info);
        i += 1;
    }
    infos
}

/// A surface that the host is asked to create at startup.
#[derive(Debug, PartialEq, Eq)]
pub struct SurfaceRequest {
    pub app_id: String,
    pub url: String,
}

/// The id and URL of each request, in order.
pub open spec fn request_views(plan: Seq<SurfaceRequest>) -> Seq<(Seq<char>, Seq<char>)> {
    plan.map_values(|r: SurfaceRequest| (r.app_id@, r.url@))
}

/// Whether an instance gets a surface at startup: it is enabled, and it was
/// not put to sleep or the journal says that it was live when the previous
/// session ended.
pub open spec fn wants_surface(app: AppConfig, j: Journal) -> bool {
    app.enabled && (!app.hibernated || j.contains_key(app.id@))
}

/// The URL at which an instance comes up at startup: the one that the
/// journal holds for it, if it holds one that is not empty, else the configured one.
pub open spec fn recovery_url(app: AppConfig, j: Journal) -> Seq<char> {
    if j.contains_key(app.id@) && j[app.id@].len() > 0 {
        j[app.id@]
    } else {
        app.url@
    }
}

/// The surfaces to create at startup, in the order of the configuration.
pub open spec fn startup_requests(apps: Seq<AppConfig>, j: Journal) -> Seq<(Seq<char>, Seq<char>)>
    decreases apps.len(),
{
    if apps.len() == 0 {
        Seq::empty()
    } else if wants_surface(apps.last(), j) {
        startup_requests(apps.drop_last(), j).push((apps.last().id@, recovery_url(apps.last(), j)))
    } else {
        startup_requests(apps.drop_last(), j)
    }
}

/// Decides which surfaces the host creates at startup, and where. The journal
/// of the previous session overrides the configured URL of an instance.
pub fn startup_plan(apps: &[AppConfig], session: &SessionState) -> (plan: Vec<SurfaceRequest>)
    requires
        session.wf(),
    ensures
        request_views(plan@) == startup_requests(apps@, session@),
{
    let mut plan: Vec<SurfaceRequest> = Vec::new();
    let mut i: usize = 0;
    assert(request_views(plan@) =~= startup_requests(apps@.take(0), session@));
    while i < apps.len()
        invariant
            i <= apps.len(),
            session.wf(),
            request_views(plan@) == startup_requests(apps@.take(i as int), session@),
        decreases apps.len() - i,
    {
        let app = &apps[i];
        let journaled = session.url_of(app.id.as_str());
        let ghost plan_before = plan@;
        proof {
            assert(apps@.take(i + 1).drop_last() =~= apps@.take(i as int));
            assert(apps@.take(i + 1).last() == *app);
        }
        if app.enabled && (!app.hibernated || journaled.is_some()) {
            let url = match journaled {
                Some(u) => if u.as_str().is_empty() {
                    app.url.clone()
                } else {
                    u.clone()
                },
                None => app.url.clone(),
            };
            plan.push(SurfaceRequest { app_id: app.id.clone(), url });
            assert(request_views(plan@) =~= request_views(plan_before).push(
                (app.id@, recovery_url(*app, session@)),
            ));
        }
        i += 1;
    }
    proof {
        assert(apps@.take(apps.len() as int) =~= apps@);
    }
    plan
}

/// What became of a surface that the host was asked to create at startup.
#[derive(Debug, PartialEq, Eq)]
pub struct SurfaceOutcome {
    pub app_id: String,
    pub url: String,
    pub created: Result<(), String>,
}

/// The record of an instance after the startup tried to bring it up at
/// `url`. A record that already expects a surface is left alone; else a
/// created surface makes it `Loading` at `url` from time `now`, and a failed
/// creation leaves it in `Error` with the host's message.
pub open spec fn recovered_record(r: RuntimeView, o: SurfaceOutcome, now: u64) -> RuntimeView {
    if r.state is Loading || r.state is Active {
        r
    } else {
        match o.created {
            Ok(_) => RuntimeView {
                last_interaction: Some(now),
                ..entered(r, StateView::Loading { target_url: o.url@ })
            },
            Err(message) => entered(r, StateView::Error { message: message@ }),
        }
    }
}

/// The registry after the startup handled each outcome in order.
pub open spec fn registry_recovered(m: Registry, outcomes: Seq<SurfaceOutcome>, now: u64) -> Registry
    decreases outcomes.len(),
{
    if outcomes.len() == 0 {
        m
    } else {
        let before = registry_recovered(m, outcomes.drop_last(), now);
        let o = outcomes.last();
        if before.contains_key(o.app_id@) {
            before.insert(o.app_id@, recovered_record(before[o.app_id@], o, now))
        } else {
            before
        }
    }
}

/// Whether outcome `i` is the first whose surface exists for a known instance.
pub open spec fn is_first_created(m: Registry, outcomes: Seq<SurfaceOutcome>, i: int) -> bool {
    &&& 0 <= i < outcomes.len()
    &&& outcomes[i].created is Ok
    &&& m.contains_key(outcomes[i].app_id@)
    &&& forall|j: int|
        0 <= j < i ==> !((#[trigger] outcomes[j]).created is Ok && m.contains_key(
            outcomes[j].app_id@,
        ))
}

/// The instance that the startup shows: the first whose surface exists.
pub open spec fn first_created(m: Registry, outcomes: Seq<SurfaceOutcome>) -> Option<Seq<char>> {
    if exists|i: int| is_first_created(m, outcomes, i) {
        Some(outcomes[choose|i: int| is_first_created(m, outcomes, i)].app_id@)
    } else {
        None
    }
}

/// What the startup tells the user interface.
#[derive(Debug, PartialEq, Eq)]
pub struct StartupReport {
    /// The instance that is shown.
    pub first_active: Option<String>,
    /// How many instances the journal of the previous session held; more
    /// than none tells that the session did not end cleanly.
    pub recovered: usize,
}

/// Completes the startup once the host tried to create the planned surfaces.
/// Each instance is marked as its outcome says, the first that came up
/// becomes the one visible instance, and the journal, now replayed, is cleared.
pub fn frontend_ready(
    manager: &mut AppManager,
    session: &mut SessionState,
    outcomes: &Vec<SurfaceOutcome>,
    now: u64,
) -> (report: StartupReport)
    requires
        old(manager).wf(),
        old(session).wf(),
    ensures
        final(manager).wf(),
        final(session).wf(),
        final(manager).pending() == old(manager).pending(),
        final(manager).ids() == old(manager).ids(),
        final(session)@ == Map::<Seq<char>, Seq<char>>::empty(),
        report.recovered == old(session)@.dom().len(),
        opt_text(report.first_active) == first_created(old(manager)@, outcomes@),
        final(manager)@ == match first_created(old(manager)@, outcomes@) {
            Some(id) => shown_only(registry_recovered(old(manager)@, outcomes@, now), id),
            None => registry_recovered(old(manager)@, outcomes@, now),
        },
{
    let recovered = session.len();
    let mut first: Option<usize> = None;
    let mut i: usize = 0;
    let ghost m0 = manager@;
    while i < outcomes.len()
        invariant
            i <= outcomes.len(),
            m0 == old(manager)@,
            manager.wf(),
            manager.pending() == old(manager).pending(),
            manager.ids() == old(manager).ids(),
            manager@ == registry_recovered(m0, outcomes@.take(i as int), now),
            manager@.dom() == m0.dom(),
            match first {
                Some(f) => f < i && is_first_created(m0, outcomes@, f as int),
                None => forall|j: int|
                    0 <= j < i ==> !((#[trigger] outcomes@[j]).created is Ok && m0.contains_key(
                        outcomes@[j].app_id@,
                    )),
            },
        decreases outcomes.len() - i,
    {
        let o = &outcomes[i];
        let ghost before = manager@;
        proof {
            assert(outcomes@.take(i + 1).drop_last() =~= outcomes@.take(i as int));
            assert(outcomes@.take(i + 1).last() == *o);
        }
        match manager.get_state(o.app_id.as_str()) {
            Some(rt) => {
                let live = match rt.state {
                    AppRuntimeState::Loading { .. } => true,
                    AppRuntimeState::Active { .. } => true,
                    _ => false,
                };
                match &o.created {
                    Ok(_) => {
                        if !live {
                            manager.set_state(
                                o.app_id.as_str(),
                                AppRuntimeState::Loading { target_url: o.url.clone() },
                            );
                            manager.touch_interaction(o.app_id.as_str(), now);
                        }
                        if first.is_none() {
                            first = Some(i);
                        }
                    },
                    Err(message) => {
                        if !live {
                            manager.set_state(
                                o.app_id.as_str(),
                                AppRuntimeState::Error { message: message.clone() },
                            );
                        }
                    },
                }
                proof {
                    assert(manager@ =~= before.insert(
                        o.app_id@,
                        recovered_record(before[o.app_id@], *o, now),
                    ));
                    assert(manager@.dom() =~= m0.dom());
                }
            },
            None => {},
        }
        i += 1;
    }
    proof {
        assert(outcomes@.take(outcomes.len() as int) =~= outcomes@);
    }
    session.clear();
    let first_active = match first {
        Some(f) => {
            proof {
                let c = choose|c: int| is_first_created(m0, outcomes@, c);
                assert(c == f) by {
                    if c < f {
                        assert(!(outcomes@[c].created is Ok && m0.contains_key(
                            outcomes@[c].app_id@,
                        )));
                    }
                    if f < c {
                        assert(!(outcomes@[f as int].created is Ok && m0.contains_key(
                            outcomes@[f as int].app_id@,
                        )));
                    }
                }
            }
            manager.show_only(outcomes[f].app_id.as_str());
            Some(outcomes[f].app_id.clone())
        },
        None => {
            proof {
                if exists|c: int| is_first_created(m0, outcomes@, c) {
                    let c = choose|c: int| is_first_created(m0, outcomes@, c);
                    assert(!(outcomes@[c].created is Ok && m0.contains_key(outcomes@[c].app_id@)));
                }
            }
            None
        },
    };
    StartupReport { first_active, recovered }
}

/// Whether instance `k` has a surface as far as registry `m` knows.
pub open spec fn is_live(m: Registry, k: Seq<char>) -> bool {
    m.contains_key(k) && (m[k].state is Active || m[k].state is Loading)
}

/// The journal `j` with every instance among `ids` that has a surface
/// written to it at the URL of its state.
spec fn journal_with_live_among(j: Journal, m: Registry, ids: Seq<Seq<char>>) -> Journal {
    Map::new(
        |k: Seq<char>| j.contains_key(k) || (ids.contains(k) && is_live(m, k)),
        |k: Seq<char>| if ids.contains(k) && is_live(m, k) {
            state_url(m[k].state)
        } else {
            j[k]
        },
    )
}

/// The journal `j` with every instance of `m` that has a surface written to
/// it at the URL of its state.
pub open spec fn journal_with_live(j: Journal, m: Registry) -> Journal {
    Map::new(
        |k: Seq<char>| j.contains_key(k) || is_live(m, k),
        |k: Seq<char>| if is_live(m, k) {
            state_url(m[k].state)
        } else {
            j[k]
        },
    )
}

/// Writes every instance that has a surface to the journal, as is done when
/// the window closes for good.
pub fn journal_live_instances(manager: &AppManager, session: &mut SessionState)
    requires
        manager.wf(),
        old(session).wf(),
    ensures
        final(session).wf(),
        final(session)@ == journal_with_live(old(session)@, manager@),
{
    let n = manager.len();
    let ghost ids = manager.ids();
    let ghost j0 = session@;
    proof {
        manager.lemma_ids();
        assert(session@ =~= journal_with_live_among(j0, manager@, ids.take(0)));
    }
    let mut i: usize = 0;
    while i < n
        invariant
            i <= n,
            n == ids.len(),
            ids == manager.ids(),
            manager.wf(),
            session.wf(),
            session@ == journal_with_live_among(j0, manager@, ids.take(i as int)),
        decreases n - i,
    {
        let id = manager.id_at(i);
        let rt = manager.runtime_at(i);
        match &rt.state {
            AppRuntimeState::Active { current_url } => {
                session.set_active(id.as_str(), current_url.as_str());
            },
            AppRuntimeState::Loading { target_url } => {
                session.set_active(id.as_str(), target_url.as_str());
            },
            _ => {},
        }
        proof {
            let done = ids.take(i as int);
            let next = ids.take(i + 1);
            assert(next =~= done.push(ids[i as int]));
            assert forall|k: Seq<char>| next.contains(k) <==> done.contains(k) || k
                == ids[i as int] by {
                if done.contains(k) {
                    let x = choose|x: int| 0 <= x < done.len() && done[x] == k;
                    assert(next[x] == k);
                }
                if k == ids[i as int] {
                    assert(next[i as int] == k);
                }
            }
            assert(session@ =~= journal_with_live_among(j0, manager@, next));
        }
        i += 1;
    }
    proof {
        assert(ids.take(n as int) =~= ids);
        assert forall|k: Seq<char>| is_live(manager@, k) implies ids.contains(k) by {
            assert(ids.to_set().contains(k));
        }
        assert(session@ =~= journal_with_live(j0, manager@));
    }
}

} // verus!
