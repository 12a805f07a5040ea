use vstd::prelude::*;

use super::lifecycle::{step, target_state, transition_of, EventView, Transition, MIN_IDLE_SECS};
use super::state::{
    after_event, at_most_one_visible, registry_with, shown_only, Registry, RuntimeView,
};
use super::supervisor::{hibernation_due, swept};
use crate::commands::app_lifecycle_commands::{
    activate_event, activated, activation_error, activation_finished, creates_surface,
    first_created, recovered_record, registry_recovered, SurfaceOutcome,
};
use crate::config::models::{app_ids, AppConfig};

verus! {

/// An event that does not change a record leaves every part of it as it was.
pub proof fn lemma_no_change_keeps_record(r: RuntimeView, e: EventView)
    requires
        transition_of(r, e) != Transition::Changed,
    ensures
        step(r, e) == r,
{
}

/// An event that changes a record puts it in the state that the table gives
/// and touches nothing but the state, and the visibility and heartbeat of a
/// record that lost its surface.
pub proof fn lemma_change_enters_target(r: RuntimeView, e: EventView)
    requires
        transition_of(r, e) == Transition::Changed,
    ensures
        step(r, e).state == target_state(r, e),
        step(r, e).badge_count == r.badge_count,
        step(r, e).last_interaction == r.last_interaction,
        step(r, e).is_playing_media == r.is_playing_media,
        step(r, e).has_unsaved_work == r.has_unsaved_work,
        step(r, e).state.surface_gone() ==> !step(r, e).is_visible && step(r, e).last_heartbeat
            is None,
        !step(r, e).state.surface_gone() ==> step(r, e).is_visible == r.is_visible && step(
            r,
            e,
        ).last_heartbeat == r.last_heartbeat,
{
}

/// A load ends in `Active` through a navigation report and through nothing else.
pub proof fn lemma_loading_exits_by_navigation(r: RuntimeView, e: EventView)
    requires
        r.state is Loading,
        step(r, e).state is Active,
    ensures
        e is SurfaceNavigated,
{
}

/// `Disable` applies in every state.
pub proof fn lemma_disable_from_any_state(r: RuntimeView)
    ensures
        transition_of(r, EventView::Disable) == Transition::Changed,
        step(r, EventView::Disable).state is Disabled,
{
}

/// No event makes a hidden record visible.
pub proof fn lemma_step_never_shows(r: RuntimeView, e: EventView)
    ensures
        step(r, e).is_visible ==> r.is_visible,
{
}

/// Activating an instance that is `Active` asks for no surface and keeps its
/// state, current URL included; so does activating it once more.
pub proof fn lemma_activate_is_idempotent(
    m: Registry,
    apps: Seq<AppConfig>,
    id: Seq<char>,
    first_surface_exists: bool,
    first_now: u64,
    second_surface_exists: bool,
    second_now: u64,
)
    requires
        activation_error(m, apps, id) is None,
        m[id].state is Active,
    ensures
        !creates_surface(m, apps, id, first_surface_exists),
        activated(m, apps, id, first_surface_exists, first_now)[id].state == m[id].state,
        !creates_surface(
            activated(m, apps, id, first_surface_exists, first_now),
            apps,
            id,
            second_surface_exists,
        ),
        activated(
            activated(m, apps, id, first_surface_exists, first_now),
            apps,
            id,
            second_surface_exists,
            second_now,
        )[id].state == m[id].state,
{
    let m1 = activated(m, apps, id, first_surface_exists, first_now);
    assert(m1.contains_key(id));
    assert(m1[id].state == m[id].state);
    assert(activation_error(m1, apps, id) is None);
}

/// An activation that was asked to create a surface is followed by no second
/// request for one while the first load lasts.
pub proof fn lemma_no_second_surface_while_loading(
    m: Registry,
    apps: Seq<AppConfig>,
    id: Seq<char>,
    now: u64,
    surface_exists: bool,
)
    requires
        creates_surface(m, apps, id, false),
    ensures
        activated(m, apps, id, false, now)[id].state is Loading,
        !creates_surface(activated(m, apps, id, false, now), apps, id, surface_exists),
{
    let m1 = activated(m, apps, id, false, now);
    assert(m1.contains_key(id));
}

/// In a registry that shows one instance only, at most one record is visible.
pub proof fn lemma_shown_only_single_visible(m: Registry, id: Seq<char>)
    ensures
        at_most_one_visible(shown_only(m, id)),
        forall|k: Seq<char>| #[trigger]
            shown_only(m, id).contains_key(k) ==> (shown_only(m, id)[k].is_visible <==> k == id),
{
}

/// Replacing a record by one that is visible only if it was visible before
/// keeps the registry at one visible record at most.
pub proof fn lemma_update_keeps_single_visible(m: Registry, id: Seq<char>, r: RuntimeView)
    requires
        at_most_one_visible(m),
        m.contains_key(id),
        r.is_visible ==> m[id].is_visible,
    ensures
        at_most_one_visible(m.insert(id, r)),
{
    let m2 = m.insert(id, r);
    assert forall|a: Seq<char>, b: Seq<char>|
        m2.contains_key(a) && m2.contains_key(b) && m2[a].is_visible
            && m2[b].is_visible implies a == b by {
        assert(m.contains_key(a) && m.contains_key(b));
        assert(m[a].is_visible && m[b].is_visible);
    }
}

/// No event breaks the rule that at most one record is visible.
pub proof fn lemma_event_keeps_single_visible(m: Registry, id: Seq<char>, e: EventView)
    requires
        at_most_one_visible(m),
    ensures
        at_most_one_visible(after_event(m, id, e)),
{
    if m.contains_key(id) {
        lemma_update_keeps_single_visible(m, id, step(m[id], e));
    }
}

/// The crash sweep does not break the rule that at most one record is visible.
pub proof fn lemma_sweep_keeps_single_visible(m: Registry, now: u64)
    requires
        at_most_one_visible(m),
    ensures
        at_most_one_visible(swept(m, now)),
{
    let m2 = swept(m, now);
    assert forall|a: Seq<char>, b: Seq<char>|
        m2.contains_key(a) && m2.contains_key(b) && m2[a].is_visible
            && m2[b].is_visible implies a == b by {
        assert(m[a].is_visible && m[b].is_visible);
    }
}

/// One activation request as the registry sees it: the first half, and the
/// second half with what the creation of the surface returned.
pub struct ActivationCall {
    pub id: Seq<char>,
    pub surface_exists: bool,
    pub now: u64,
    pub created: Result<(), String>,
}

/// The registry after one activation request. A request that fails in its
/// first half has no second half.
pub open spec fn after_activation(m: Registry, apps: Seq<AppConfig>, c: ActivationCall) -> Registry {
    if activation_error(m, apps, c.id) is Some {
        m
    } else {
        activation_finished(activated(m, apps, c.id, c.surface_exists, c.now), c.id, c.created)
    }
}

/// The registry after a sequence of activation requests.
pub open spec fn after_activations(m: Registry, apps: Seq<AppConfig>, calls: Seq<ActivationCall>) -> Registry
    decreases calls.len(),
{
    if calls.len() == 0 {
        m
    } else {
        after_activation(after_activations(m, apps, calls.drop_last()), apps, calls.last())
    }
}

/// One activation request, however it ends, keeps the registry at one visible
/// record at most; one that succeeds leaves its instance as the visible one.
pub proof fn lemma_activation_keeps_single_visible(m: Registry, apps: Seq<AppConfig>, c: ActivationCall)
    requires
        at_most_one_visible(m),
    ensures
        at_most_one_visible(after_activation(m, apps, c)),
{
    if activation_error(m, apps, c.id) is None {
        let e = activate_event(apps, c.id, c.surface_exists);
        let m1 = activated(m, apps, c.id, c.surface_exists, c.now);
        assert(at_most_one_visible(m1)) by {
            if transition_of(m[c.id], e) != Transition::Rejected {
                lemma_update_keeps_single_visible(
                    m,
                    c.id,
                    RuntimeView { last_interaction: Some(c.now), ..step(m[c.id], e) },
                );
            }
        }
        match c.created {
            Err(message) => {
                lemma_event_keeps_single_visible(
                    m1,
                    c.id,
                    EventView::SurfaceLoadFailed { message: message@ },
                );
            },
            Ok(_) => {
                lemma_shown_only_single_visible(m1, c.id);
            },
        }
    }
}

/// After any sequence of activation requests on a registry with at most one
/// visible record, at most one record is visible.
pub proof fn lemma_single_visible_after_activations(
    m: Registry,
    apps: Seq<AppConfig>,
    calls: Seq<ActivationCall>,
)
    requires
        at_most_one_visible(m),
    ensures
        at_most_one_visible(after_activations(m, apps, calls)),
    decreases calls.len(),
{
    if calls.len() > 0 {
        lemma_single_visible_after_activations(m, apps, calls.drop_last());
        lemma_activation_keeps_single_visible(
            after_activations(m, apps, calls.drop_last()),
            apps,
            calls.last(),
        );
    }
}

/// A registry that was filled from the configuration alone shows no instance:
/// it has a record for each configured id and for no other, and none is visible.
pub proof fn lemma_initial_registry(apps: Seq<AppConfig>)
    ensures
        forall|k: Seq<char>| #[trigger]
            registry_with(Map::empty(), apps).contains_key(k) <==> app_ids(apps).contains(k),
        forall|k: Seq<char>| #[trigger]
            registry_with(Map::empty(), apps).contains_key(k) ==> !registry_with(
                Map::empty(),
                apps,
            )[k].is_visible && registry_with(Map::empty(), apps)[k].state.surface_gone(),
        at_most_one_visible(registry_with(Map::empty(), apps)),
    decreases apps.len(),
{
    let m = registry_with(Map::<Seq<char>, RuntimeView>::empty(), apps);
    if apps.len() > 0 {
        let rest = apps.drop_last();
        lemma_initial_registry(rest);
        let mr = registry_with(Map::<Seq<char>, RuntimeView>::empty(), rest);
        assert forall|k: Seq<char>| #[trigger] m.contains_key(k) <==> app_ids(apps).contains(
            k,
        ) by {
            if app_ids(apps).contains(k) {
                let i = choose|i: int| 0 <= i < app_ids(apps).len() && app_ids(apps)[i] == k;
                if i < rest.len() {
                    assert(app_ids(rest)[i] == k);
                }
            }
            if mr.contains_key(k) {
                let i = choose|i: int| 0 <= i < app_ids(rest).len() && app_ids(rest)[i] == k;
                assert(app_ids(apps)[i] == k);
            }
            if k == apps.last().id@ {
                assert(app_ids(apps)[apps.len() - 1] == k);
            }
        }
    } else {
        assert forall|k: Seq<char>| #[trigger] m.contains_key(k) <==> app_ids(apps).contains(
            k,
        ) by {}
    }
}

/// After any sequence of activation requests on a registry that was filled
/// from a configuration alone, at most one record is visible.
pub proof fn lemma_single_visible_from_startup(
    configured: Seq<AppConfig>,
    apps: Seq<AppConfig>,
    calls: Seq<ActivationCall>,
)
    ensures
        at_most_one_visible(
            after_activations(registry_with(Map::empty(), configured), apps, calls),
        ),
{
    lemma_initial_registry(configured);
    lemma_single_visible_after_activations(registry_with(Map::empty(), configured), apps, calls);
}

/// Bringing the planned surfaces up at startup makes no record visible.
pub proof fn lemma_recovery_keeps_single_visible(m: Registry, outcomes: Seq<SurfaceOutcome>, now: u64)
    requires
        at_most_one_visible(m),
    ensures
        at_most_one_visible(registry_recovered(m, outcomes, now)),
    decreases outcomes.len(),
{
    if outcomes.len() > 0 {
        lemma_recovery_keeps_single_visible(m, outcomes.drop_last(), now);
        let before = registry_recovered(m, outcomes.drop_last(), now);
        let o = outcomes.last();
        if before.contains_key(o.app_id@) {
            lemma_update_keeps_single_visible(
                before,
                o.app_id@,
                recovered_record(before[o.app_id@], o, now),
            );
        }
    }
}

/// After the startup at most one record is visible: the first instance that
/// came up, if one did.
pub proof fn lemma_startup_single_visible(m: Registry, outcomes: Seq<SurfaceOutcome>, now: u64)
    requires
        at_most_one_visible(m),
    ensures
        at_most_one_visible(
            match first_created(m, outcomes) {
                Some(id) => shown_only(registry_recovered(m, outcomes, now), id),
                None => registry_recovered(m, outcomes, now),
            },
        ),
{
    lemma_recovery_keeps_single_visible(m, outcomes, now);
    match first_created(m, outcomes) {
        Some(id) => {
            lemma_shown_only_single_visible(registry_recovered(m, outcomes, now), id);
        },
        None => {},
    }
}

/// An instance is due for hibernation only when at least `MIN_IDLE_SECS`
/// have passed since its last recorded interaction, whatever its timeout.
pub proof fn lemma_due_respects_grace_period(
    m: Registry,
    apps: Seq<AppConfig>,
    id: Seq<char>,
    now: u64,
)
    requires
        hibernation_due(m, apps, id, now),
    ensures
        m[id].last_interaction is Some,
        now - m[id].last_interaction->0 >= 1000 * MIN_IDLE_SECS,
        !m[id].is_playing_media,
{
}

} // verus!
