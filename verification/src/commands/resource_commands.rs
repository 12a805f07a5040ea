use vstd::prelude::*;

use super::app_lifecycle_commands::{journal_after, live_url_of, settle};
use crate::app_manager::lifecycle::{
    transition_of, ErrorView, EventView, LifecycleError, LifecycleEvent, Transition,
};
use crate::app_manager::session_state::SessionState;
use crate::app_manager::state::{after_event, AppManager};

verus! {

/// The event that a kill request sends, given what the destruction of the surface returned.
pub open spec fn kill_event(destroyed: Result<Option<String>, String>) -> EventView {
    EventView::Kill { live_url: live_url_of(destroyed) }
}

/// Kills instance `app_id`, once the host was asked to destroy its surface;
/// `destroyed` is what the host answered. A live instance becomes
/// `Hibernated`, whether or not the destruction succeeded; a hibernated or
/// disabled instance stays as it is. The instance leaves the journal.
pub fn kill_app(
    manager: &mut AppManager,
    session: &mut SessionState,
    app_id: &str,
    destroyed: Result<Option<String>, String>,
) -> (r: Result<Transition, LifecycleError>)
    requires
        old(manager).wf(),
        old(session).wf(),
    ensures
        final(manager).wf(),
        final(session).wf(),
        final(manager).pending() == old(manager).pending(),
        final(manager).ids() == old(manager).ids(),
        final(manager)@ == after_event(old(manager)@, app_id@, kill_event(destroyed)),
        final(session)@ == journal_after(old(session)@, final(manager)@, app_id@),
        match r {
            Ok(t) => old(manager)@.contains_key(app_id@) && t == transition_of(
                old(manager)@[app_id@],
                kill_event(destroyed),
            ),
            Err(e) => !old(manager)@.contains_key(app_id@) && e@ == ErrorView::UnknownInstance,
        },
{
    let live_url = match destroyed {
        Ok(u) => u,
        Err(_) => None,
    };
    settle(manager, session, app_id, LifecycleEvent::Kill { live_url })
}

} // verus!
