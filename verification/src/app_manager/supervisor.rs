use vstd::prelude::*;

use super::lifecycle::{
    heartbeat_lost, idle_expired, load_is_stuck, step, transition_of, ErrorView, EventView,
    LifecycleError, LifecycleEvent, Transition, MIN_IDLE_SECS,
};
use super::state::{AppManager, Registry, RuntimeView};
use crate::config::models::{config_of, lookup_app, AppConfig};
use crate::text::texts;

verus! {

/// Seconds between two passes of the crash supervisor.
pub const CRASH_SWEEP_PERIOD_SECS: u64 = 30;

/// Seconds between two passes of the idle supervisor.
pub const IDLE_SWEEP_PERIOD_SECS: u64 = 60;

/// What a sweep found wrong with one instance.
#[derive(Debug, PartialEq, Eq)]
pub struct Detection {
    pub app_id: String,
    /// `HeartbeatLost` or `LoadTimedOut`.
    pub cause: LifecycleError,
}

/// The ids of a list of detections, in order.
pub open spec fn detection_ids(found: Seq<Detection>) -> Seq<Seq<char>> {
    found.map_values(|d: Detection| d.app_id@)
}

/// What the crash sweep finds wrong with a record at time `now`, if anything.
pub open spec fn detected(r: RuntimeView, now: u64) -> Option<ErrorView> {
    if heartbeat_lost(r, now) {
        Some(ErrorView::HeartbeatLost)
    } else if load_is_stuck(r, now) {
        Some(ErrorView::LoadTimedOut)
    } else {
        None
    }
}

/// A record after the crash sweep at time `now`: a lost heartbeat fires
/// `HeartbeatTimeout`, a stuck load fires `StuckLoadTimeout`.
pub open spec fn swept_record(r: RuntimeView, now: u64) -> RuntimeView {
    if heartbeat_lost(r, now) {
        step(r, EventView::HeartbeatTimeout)
    } else if load_is_stuck(r, now) {
        step(r, EventView::StuckLoadTimeout { now })
    } else {
        r
    }
}

/// The registry after the crash sweep at time `now`.
pub open spec fn swept(m: Registry, now: u64) -> Registry {
    Map::new(|k: Seq<char>| m.contains_key(k), |k: Seq<char>| swept_record(m[k], now))
}

/// One pass of the crash supervisor over the registry: every visible, active
/// instance whose heartbeat is lost becomes `Crashed`, every instance whose
/// load is stuck becomes `Error`. Returns what was found, one detection for
/// each instance that changed.
pub fn crash_detection_sweep(manager: &mut AppManager, now: u64) -> (found: Vec<Detection>)
    requires
        old(manager).wf(),
    ensures
        final(manager).wf(),
        final(manager).pending() == old(manager).pending(),
        final(manager).ids() == old(manager).ids(),
        final(manager)@ == swept(old(manager)@, now),
        detection_ids(found@).no_duplicates(),
        forall|k: Seq<char>|
            detection_ids(found@).contains(k) <==> old(manager)@.contains_key(k) && detected(
                old(manager)@[k],
                now,
            ) is Some,
        forall|x: int|
            0 <= x < found@.len() ==> old(manager)@.contains_key((#[trigger] found@[x]).app_id@)
                && detected(old(manager)@[found@[x].app_id@], now) == Some(found@[x].cause@),
{
    let n = manager.len();
    let ghost ids = manager.ids();
    let ghost m0 = manager@;
    proof {
        manager.lemma_ids();
    }
    let mut found: Vec<Detection> = Vec::new();
    let mut i: usize = 0;
    while i < n
        invariant
            i <= n,
            n == ids.len(),
            ids == old(manager).ids(),
            m0 == old(manager)@,
            ids.no_duplicates(),
            ids.to_set() == m0.dom(),
            manager.wf(),
            manager.ids() == ids,
            manager.pending() == old(manager).pending(),
            manager@.dom() == m0.dom(),
            forall|j: int|
                0 <= j < n ==> manager@[#[trigger] ids[j]] == (if j < i {
                    swept_record(m0[ids[j]], now)
                } else {
                    m0[ids[j]]
                }),
            detection_ids(found@).no_duplicates(),
            forall|x: int|
                0 <= x < found@.len() ==> exists|j: int|
                    0 <= j < i && ids[j] == (#[trigger] found@[x]).app_id@,
            forall|x: int|
                0 <= x < found@.len() ==> m0.contains_key((#[trigger] found@[x]).app_id@)
                    && detected(m0[found@[x].app_id@], now) == Some(found@[x].cause@),
            forall|j: int|
                0 <= j < i && detected(m0[#[trigger] ids[j]], now) is Some ==> detection_ids(
                    found@,
                ).contains(ids[j]),
        decreases n - i,
    {
        let ghost before = manager@;
        let ghost found_before = found@;
        assert(ids.to_set().contains(ids[i as int]));
        assert(manager@[ids[i as int]] == m0[ids[i as int]]);
        let lost = manager.runtime_at(i).heartbeat_lost(now);
        let stuck = manager.runtime_at(i).load_is_stuck(now);
        if lost || stuck {
            let id = manager.id_at(i).clone();
            let cause = if lost {
                let _ = manager.apply_at(i, LifecycleEvent::HeartbeatTimeout);
                LifecycleError::HeartbeatLost
            } else {
                let _ = manager.apply_at(i, LifecycleEvent::StuckLoadTimeout { now });
                LifecycleError::LoadTimedOut
            };
            found.push(Detection { app_id: id, cause });
            proof {
                assert(manager@.dom() =~= m0.dom());
                assert(detection_ids(found@) =~= detection_ids(found_before).push(ids[i as int]));
                assert(!detection_ids(found_before).contains(ids[i as int])) by {
                    if detection_ids(found_before).contains(ids[i as int]) {
                        let x = choose|x: int|
                            0 <= x < found_before.len() && detection_ids(found_before)[x]
                                == ids[i as int];
                        assert(found_before[x].app_id@ == ids[i as int]);
                        let j = choose|j: int| 0 <= j < i && ids[j] == found_before[x].app_id@;
                        assert(ids[j] == ids[i as int]);
                    }
                }
                assert forall|x: int| 0 <= x < found@.len() implies exists|j: int|
                    0 <= j < i + 1 && ids[j] == (#[trigger] found@[x]).app_id@ by {
                    if x < found_before.len() {
                        assert(found@[x] == found_before[x]);
                        let j = choose|j: int| 0 <= j < i && ids[j] == found_before[x].app_id@;
                        assert(0 <= j < i + 1 && ids[j] == found@[x].app_id@);
                    } else {
                        assert(ids[i as int] == found@[x].app_id@);
                    }
                }
                assert forall|j: int|
                    0 <= j < i + 1 && detected(m0[#[trigger] ids[j]], now) is Some implies detection_ids(
                    found@,
                ).contains(ids[j]) by {
                    if j < i {
                        let x = choose|x: int|
                            0 <= x < found_before.len() && detection_ids(found_before)[x]
                                == ids[j];
                        assert(detection_ids(found@)[x] == ids[j]);
                    } else {
                        assert(detection_ids(found@)[found_before.len() as int] == ids[j]);
                    }
                }
            }
        }
        proof {
            assert forall|j: int| 0 <= j < n implies manager@[#[trigger] ids[j]] == (if j < i + 1 {
                swept_record(m0[ids[j]], now)
            } else {
                m0[ids[j]]
            }) by {
                if j != i {
                    assert(ids[j] != ids[i as int]);
                    assert(before[ids[j]] == manager@[ids[j]]);
                }
            }
        }
        i += 1;
    }
    proof {
        assert(manager@ =~= swept(m0, now)) by {
            assert forall|k: Seq<char>| m0.contains_key(k) implies #[trigger] manager@[k]
                == swept_record(m0[k], now) by {
                assert(ids.to_set().contains(k));
                let j = choose|j: int| 0 <= j < ids.len() && ids[j] == k;
                assert(manager@[ids[j]] == swept_record(m0[ids[j]], now));
            }
        }
        assert forall|k: Seq<char>|
            detection_ids(found@).contains(k) <==> m0.contains_key(k) && detected(m0[k], now)
                is Some by {
            if detection_ids(found@).contains(k) {
                let x = choose|x: int| 0 <= x < found@.len() && detection_ids(found@)[x] == k;
                assert(found@[x].app_id@ == k);
            }
            if m0.contains_key(k) && detected(m0[k], now) is Some {
                assert(ids.to_set().contains(k));
                let j = choose|j: int| 0 <= j < ids.len() && ids[j] == k;
                assert(detection_ids(found@).contains(ids[j]));
            }
        }
    }
    found
}

/// Whether instance `id` is due for hibernation at time `now`: it is
/// configured, and its record is idle beyond the configured timeout.
pub open spec fn hibernation_due(m: Registry, apps: Seq<AppConfig>, id: Seq<char>, now: u64) -> bool {
    &&& m.contains_key(id)
    &&& config_of(apps, id) is Some
    &&& idle_expired(m[id], config_of(apps, id)->0.hibernation_timeout_minutes, now)
}

/// The instances that are due for hibernation at time `now`, each once. The
/// caller destroys their surfaces and then asks for each transition, which
/// looks at the record again.
pub fn auto_hibernate_candidates(manager: &AppManager, apps: &[AppConfig], now: u64) -> (due: Vec<
    String,
>)
    requires
        manager.wf(),
    ensures
        texts(due@).no_duplicates(),
        forall|k: Seq<char>| texts(due@).contains(k) <==> hibernation_due(manager@, apps@, k, now),
{
    let n = manager.len();
    let ghost ids = manager.ids();
    proof {
        manager.lemma_ids();
    }
    let mut due: Vec<String> = Vec::new();
    let mut i: usize = 0;
    while i < n
        invariant
            i <= n,
            n == ids.len(),
            ids == manager.ids(),
            ids.no_duplicates(),
            ids.to_set() == manager@.dom(),
            manager.wf(),
            texts(due@).no_duplicates(),
            forall|x: int|
                0 <= x < due@.len() ==> exists|j: int|
                    0 <= j < i && ids[j] == #[trigger] texts(due@)[x],
            forall|x: int|
                0 <= x < due@.len() ==> hibernation_due(
                    manager@,
                    apps@,
                    #[trigger] texts(due@)[x],
                    now,
                ),
            forall|j: int|
                0 <= j < i && hibernation_due(manager@, apps@, #[trigger] ids[j], now) ==> texts(
                    due@,
                ).contains(ids[j]),
        decreases n - i,
    {
        let ghost due_before = due@;
        let id = manager.id_at(i);
        let expired = match lookup_app(apps, id.as_str()) {
            Some(app) => manager.runtime_at(i).idle_expired(app.hibernation_timeout_minutes, now),
            None => false,
        };
        assert(expired == hibernation_due(manager@, apps@, ids[i as int], now));
        if expired {
            due.push(id.clone());
            proof {
                assert(texts(due@) =~= texts(due_before).push(ids[i as int]));
                assert(!texts(due_before).contains(ids[i as int])) by {
                    if texts(due_before).contains(ids[i as int]) {
                        let x = choose|x: int|
                            0 <= x < due_before.len() && texts(due_before)[x] == ids[i as int];
                        let j = choose|j: int| 0 <= j < i && ids[j] == texts(due_before)[x];
                        assert(ids[j] == ids[i as int]);
                    }
                }
            }
        }
        proof {
            assert forall|x: int| 0 <= x < due@.len() implies exists|j: int|
                0 <= j < i + 1 && ids[j] == #[trigger] texts(due@)[x] by {
                if x < due_before.len() {
                    assert(texts(due@)[x] == texts(due_before)[x]);
                    let j = choose|j: int| 0 <= j < i && ids[j] == texts(due_before)[x];
                    assert(0 <= j < i + 1 && ids[j] == texts(due@)[x]);
                } else {
                    assert(0 <= i < i + 1 && ids[i as int] == texts(due@)[x]);
                }
            }
            assert forall|x: int| 0 <= x < due@.len() implies hibernation_due(
                manager@,
                apps@,
                #[trigger] texts(due@)[x],
                now,
            ) by {
                if x < due_before.len() {
                    assert(texts(due@)[x] == texts(due_before)[x]);
                }
            }
            assert forall|j: int|
                0 <= j < i + 1 && hibernation_due(
                    manager@,
                    apps@,
                    #[trigger] ids[j],
                    now,
                ) implies texts(due@).contains(ids[j]) by {
                if j < i {
                    let x = choose|x: int|
                        0 <= x < due_before.len() && texts(due_before)[x] == ids[j];
                    assert(texts(due@)[x] == ids[j]);
                } else {
                    assert(texts(due@)[due_before.len() as int] == ids[j]);
                }
            }
        }
        i += 1;
    }
    proof {
        assert forall|k: Seq<char>|
            texts(due@).contains(k) <==> hibernation_due(manager@, apps@, k, now) by {
            if texts(due@).contains(k) {
                let x = choose|x: int| 0 <= x < due@.len() && texts(due@)[x] == k;
                assert(hibernation_due(manager@, apps@, texts(due@)[x], now));
            }
            if hibernation_due(manager@, apps@, k, now) {
                assert(ids.to_set().contains(k));
                let j = choose|j: int| 0 <= j < ids.len() && ids[j] == k;
                assert(texts(due@).contains(ids[j]));
            }
        }
    }
    due
}

/// No instance is hibernated for idleness within `MIN_IDLE_SECS` of its last
/// interaction, whatever timeout is configured: the event leaves such a
/// record as it is.
pub proof fn lemma_idle_grace_period(
    r: RuntimeView,
    now: u64,
    timeout_minutes: u32,
    live_url: Option<Seq<char>>,
    default_url: Seq<char>,
)
    requires
        r.last_interaction is Some,
        now < r.last_interaction->0 + 1000 * MIN_IDLE_SECS,
    ensures
        !idle_expired(r, timeout_minutes, now),
        transition_of(
            r,
            EventView::AutoHibernateTimeout { now, timeout_minutes, live_url, default_url },
        ) == Transition::Rejected,
        step(r, EventView::AutoHibernateTimeout { now, timeout_minutes, live_url, default_url })
            == r,
{
}

/// An instance without a recorded interaction is never hibernated for idleness.
pub proof fn lemma_idle_needs_interaction(r: RuntimeView, now: u64, timeout_minutes: u32)
    requires
        r.last_interaction is None,
    ensures
        !idle_expired(r, timeout_minutes, now),
{
}

/// The heartbeat timeout reaches visible instances only: a hidden record is
/// not found by the crash sweep for its heartbeat, however old that is, and
/// does not become `Crashed` by the sweep or by the event.
pub proof fn lemma_hidden_never_crashes(r: RuntimeView, now: u64)
    requires
        !r.is_visible,
    ensures
        !heartbeat_lost(r, now),
        detected(r, now) != Some(ErrorView::HeartbeatLost),
        step(r, EventView::HeartbeatTimeout) == r,
        swept_record(r, now).state is Crashed ==> r.state is Crashed,
{
}

/// The crash sweep turns a record `Crashed` only where it was visible and
/// active with a heartbeat older than the timeout.
pub proof fn lemma_crash_needs_lost_heartbeat(r: RuntimeView, now: u64)
    requires
        !(r.state is Crashed),
        swept_record(r, now).state is Crashed,
    ensures
        heartbeat_lost(r, now),
        r.is_visible,
        r.state is Active,
{
}

} // verus!
