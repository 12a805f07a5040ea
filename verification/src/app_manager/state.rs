use vstd::prelude::*;

use super::lifecycle::{step, transition_of, LifecycleEvent, Transition};
use crate::config::models::AppConfig;
use crate::string_map::{lemma_value_updated, StringMap};

verus! {

/// Where an instance stands in its lifecycle.
#[derive(Debug, PartialEq, Eq)]
pub enum AppRuntimeState {
    /// The surface is being created; no navigation has been reported yet.
    Loading { target_url: String },
    /// The surface is alive and loaded.
    Active { current_url: String },
    /// The surface was destroyed; the URL is kept for a quick wake.
    Hibernated { last_url: String },
    /// The surface was destroyed because the user disabled the instance.
    Disabled,
    /// The page failed to load.
    Error { message: String },
    /// The surface stopped answering.
    Crashed,
}

/// The mathematical value of an [`AppRuntimeState`].
pub enum StateView {
    Loading { target_url: Seq<char> },
    Active { current_url: Seq<char> },
    Hibernated { last_url: Seq<char> },
    Disabled,
    Error { message: Seq<char> },
    Crashed,
}

impl StateView {
    /// States in which no surface exists.
    pub open spec fn surface_gone(self) -> bool {
        self is Hibernated || self is Disabled || self is Crashed
    }
}

impl View for AppRuntimeState {
    type V = StateView;

    open spec fn view(&self) -> StateView {
        match *self {
            AppRuntimeState::Loading { target_url } => StateView::Loading {
                target_url: target_url@,
            },
            AppRuntimeState::Active { current_url } => StateView::Active {
                current_url: current_url@,
            },
            AppRuntimeState::Hibernated { last_url } => StateView::Hibernated {
                last_url: last_url@,
            },
            AppRuntimeState::Disabled => StateView::Disabled,
            AppRuntimeState::Error { message } => StateView::Error { message: message@ },
            AppRuntimeState::Crashed => StateView::Crashed,
        }
    }
}

impl Clone for AppRuntimeState {
    fn clone(&self) -> (r: Self)
        ensures
            r == *self,
    {
        match self {
            AppRuntimeState::Loading { target_url } => AppRuntimeState::Loading {
                target_url: target_url.clone(),
            },
            AppRuntimeState::Active { current_url } => AppRuntimeState::Active {
                current_url: current_url.clone(),
            },
            AppRuntimeState::Hibernated { last_url } => AppRuntimeState::Hibernated {
                last_url: last_url.clone(),
            },
            AppRuntimeState::Disabled => AppRuntimeState::Disabled,
            AppRuntimeState::Error { message } => AppRuntimeState::Error {
                message: message.clone(),
            },
            AppRuntimeState::Crashed => AppRuntimeState::Crashed,
        }
    }
}

/// The mutable record that the registry keeps for one instance.
///
/// Times are milliseconds on a monotonic clock that the caller reads.
#[derive(Debug, PartialEq, Eq)]
pub struct AppRuntime {
    pub state: AppRuntimeState,
    /// The last unread count that the surface reported: `Some(n)` with `n >= 0`
    /// is an exact count, a negative value means unread items of unknown number.
    pub badge_count: Option<i32>,
    pub last_interaction: Option<u64>,
    /// `None` while the instance has never been rendered or is not rendered now.
    pub last_heartbeat: Option<u64>,
    pub is_playing_media: bool,
    pub is_visible: bool,
    pub has_unsaved_work: bool,
}

/// The mathematical value of an [`AppRuntime`].
pub struct RuntimeView {
    pub state: StateView,
    pub badge_count: Option<i32>,
    pub last_interaction: Option<u64>,
    pub last_heartbeat: Option<u64>,
    pub is_playing_media: bool,
    pub is_visible: bool,
    pub has_unsaved_work: bool,
}

impl View for AppRuntime {
    type V = RuntimeView;

    open spec fn view(&self) -> RuntimeView {
        RuntimeView {
            state: self.state@,
            badge_count: self.badge_count,
            last_interaction: self.last_interaction,
            last_heartbeat: self.last_heartbeat,
            is_playing_media: self.is_playing_media,
            is_visible: self.is_visible,
            has_unsaved_work: self.has_unsaved_work,
        }
    }
}

impl Clone for AppRuntime {
    fn clone(&self) -> (r: Self)
        ensures
            r == *self,
    {
        AppRuntime {
            state: self.state.clone(),
            badge_count: self.badge_count,
            last_interaction: self.last_interaction,
            last_heartbeat: self.last_heartbeat,
            is_playing_media: self.is_playing_media,
            is_visible: self.is_visible,
            has_unsaved_work: self.has_unsaved_work,
        }
    }
}

/// The registry as a map from instance id to record.
pub type Registry = Map<Seq<char>, RuntimeView>;

/// The record that a fresh process keeps for a configured instance: `Disabled`
/// where the instance is not enabled, else `Hibernated` at its home URL, since
/// no surface exists yet.
pub open spec fn initial_runtime(app: AppConfig) -> RuntimeView {
    RuntimeView {
        state: if !app.enabled {
            StateView::Disabled
        } else {
            StateView::Hibernated { last_url: app.url@ }
        },
        badge_count: None,
        last_interaction: None,
        last_heartbeat: None,
        is_playing_media: false,
        is_visible: false,
        has_unsaved_work: false,
    }
}

/// The registry `m` after each instance of `apps`, in order, got its initial record.
pub open spec fn registry_with(m: Registry, apps: Seq<AppConfig>) -> Registry
    decreases apps.len(),
{
    if apps.len() == 0 {
        m
    } else {
        registry_with(m, apps.drop_last()).insert(apps.last().id@, initial_runtime(apps.last()))
    }
}

/// The registry `m` with `id` as the one visible instance.
pub open spec fn shown_only(m: Registry, id: Seq<char>) -> Registry {
    Map::new(
        |k: Seq<char>| m.contains_key(k),
        |k: Seq<char>| RuntimeView { is_visible: k == id, ..m[k] },
    )
}

/// The registry `m` after event `e` reached the record of `id`.
pub open spec fn after_event(m: Registry, id: Seq<char>, e: super::lifecycle::EventView) -> Registry {
    if m.contains_key(id) {
        m.insert(id, step(m[id], e))
    } else {
        m
    }
}

/// At most one record of `m` is visible.
pub open spec fn at_most_one_visible(m: Registry) -> bool {
    forall|a: Seq<char>, b: Seq<char>|
        m.contains_key(a) && m.contains_key(b) && m[a].is_visible && m[b].is_visible ==> a == b
}

/// The instance registry, with the navigations that wait for an instance to wake.
pub struct AppManager {
    apps: StringMap<AppRuntime>,
    pending_navigations: StringMap<String>,
}

impl View for AppManager {
    type V = Registry;

    closed spec fn view(&self) -> Registry {
        self.apps@.map_values(|r: AppRuntime| r@)
    }
}

impl AppManager {
    /// Each id has one record, and one pending navigation at most.
    pub closed spec fn wf(&self) -> bool {
        self.apps.wf() && self.pending_navigations.wf()
    }

    /// The URLs queued for navigation once an instance is activated, by instance id.
    pub closed spec fn pending(&self) -> Map<Seq<char>, Seq<char>> {
        self.pending_navigations@.map_values(|s: String| s@)
    }

    /// The ids in the order in which the registry walks them. Each id of the
    /// registry occurs once.
    pub closed spec fn ids(&self) -> Seq<Seq<char>> {
        self.apps.key_seq()
    }

    /// `ids` lists the keys of the view, each once.
    pub proof fn lemma_ids(&self)
        requires
            self.wf(),
        ensures
            self.ids().no_duplicates(),
            self.ids().to_set() == self@.dom(),
            self@.dom().finite(),
            self@.dom().len() == self.ids().len(),
    {
        self.apps.lemma_len();
        assert(self@.dom() =~= self.apps@.dom());
    }

    proof fn lemma_record_changed(before: &AppManager, after: &AppManager, i: int, rec: AppRuntime)
        requires
            before.wf(),
            0 <= i < before.apps.key_seq().len(),
            after.apps.key_seq() == before.apps.key_seq(),
            after.apps.value_seq() == before.apps.value_seq().update(i, rec),
            after.pending_navigations == before.pending_navigations,
        ensures
            after.wf(),
            after.pending() == before.pending(),
            after.ids() == before.ids(),
            before@.contains_key(before.apps.key_seq()[i]),
            after@ == before@.insert(before.apps.key_seq()[i], rec@),
    {
        lemma_value_updated(before.apps, after.apps, i, rec);
        before.apps.lemma_entry(i);
        assert(after@ =~= before@.insert(before.apps.key_seq()[i], rec@));
    }

    pub fn new() -> (m: Self)
        ensures
            m.wf(),
            m@ == Map::<Seq<char>, RuntimeView>::empty(),
            m.pending() == Map::<Seq<char>, Seq<char>>::empty(),
    {
        let m = AppManager { apps: StringMap::new(), pending_navigations: StringMap::new() };
        assert(m@ =~= Map::<Seq<char>, RuntimeView>::empty());
        assert(m.pending() =~= Map::<Seq<char>, Seq<char>>::empty());
        m
    }

    /// Gives each configured instance its initial record, replacing a record
    /// that the registry already holds under the same id.
    pub fn init_from_config(&mut self, apps: &[AppConfig])
        requires
            old(self).wf(),
        ensures
            final(self).wf(),
            final(self)@ == registry_with(old(self)@, apps@),
            final(self).pending() == old(self).pending(),
    {
        let mut i: usize = 0;
        while i < apps.len()
            invariant
                i <= apps.len(),
                self.wf(),
                self@ == registry_with(old(self)@, apps@.take(i as int)),
                self.pending() == old(self).pending(),
            decreases apps.len() - i,
        {
            let app = &apps[i];
            let state = if !app.enabled {
                AppRuntimeState::Disabled
            } else {
                AppRuntimeState::Hibernated { last_url: app.url.clone() }
            };
            let runtime = AppRuntime {
                state,
                badge_count: None,
                last_interaction: None,
                last_heartbeat: None,
                is_playing_media: false,
                is_visible: false,
                has_unsaved_work: false,
            };
            let ghost before = self@;
            let ghost rec = runtime;
            self.apps.insert(app.id.clone(), runtime);
            proof {
                assert(self@ =~= before.insert(app.id@, rec@));
                assert(rec@ == initial_runtime(*app));
                assert(apps@.take(i + 1).drop_last() =~= apps@.take(i as int));
                assert(apps@.take(i + 1).last() == *app);
            }
            i += 1;
        }
        proof {
            assert(apps@.take(apps.len() as int) =~= apps@);
        }
    }

    /// A copy of the record of `app_id`.
    pub fn get_state(&self, app_id: &str) -> (r: Option<AppRuntime>)
        requires
            self.wf(),
        ensures
            match r {
                Some(rt) => self@.contains_key(app_id@) && rt@ == self@[app_id@],
                None => !self@.contains_key(app_id@),
            },
    {
        match self.apps.get(app_id) {
            Some(rt) => Some(rt.clone()),
            None => None,
        }
    }

    /// Whether the registry holds a record for `app_id`.
    pub fn contains(&self, app_id: &str) -> (b: bool)
        requires
            self.wf(),
        ensures
            b == self@.contains_key(app_id@),
    {
        self.apps.contains_key(app_id)
    }

    /// The number of records.
    pub fn len(&self) -> (n: usize)
        requires
            self.wf(),
        ensures
            n == self.ids().len(),
            n == self@.dom().len(),
    {
        proof {
            self.lemma_ids();
        }
        self.apps.len()
    }

    /// The id at position `i` of the walk.
    pub fn id_at(&self, i: usize) -> (id: &String)
        requires
            self.wf(),
            i < self.ids().len(),
        ensures
            id@ == self.ids()[i as int],
            self@.contains_key(id@),
    {
        proof {
            self.apps.lemma_entry(i as int);
        }
        self.apps.key_at(i)
    }

    /// The record at position `i` of the walk.
    pub fn runtime_at(&self, i: usize) -> (rt: &AppRuntime)
        requires
            self.wf(),
            i < self.ids().len(),
        ensures
            self@.contains_key(self.ids()[i as int]),
            rt@ == self@[self.ids()[i as int]],
    {
        proof {
            self.apps.lemma_entry(i as int);
        }
        self.apps.value_at(i)
    }

    /// Applies `event` to the record at position `i` of the walk.
    pub fn apply_at(&mut self, i: usize, event: LifecycleEvent) -> (outcome: Transition)
        requires
            old(self).wf(),
            i < old(self).ids().len(),
        ensures
            final(self).wf(),
            final(self).pending() == old(self).pending(),
            final(self).ids() == old(self).ids(),
            old(self)@.contains_key(old(self).ids()[i as int]),
            outcome == transition_of(old(self)@[old(self).ids()[i as int]], event@),
            final(self)@ == old(self)@.insert(
                old(self).ids()[i as int],
                step(old(self)@[old(self).ids()[i as int]], event@),
            ),
    {
        proof {
            old(self).apps.lemma_entry(i as int);
        }
        let outcome = self.apps.value_mut(i).apply(event);
        proof {
            let rec = self.apps.value_seq()[i as int];
            Self::lemma_record_changed(&*old(self), &*self, i as int, rec);
        }
        outcome
    }

    /// Applies `event` to the record of `app_id`. Returns `None`, and changes
    /// nothing, where the registry holds no such record.
    pub fn apply_event(&mut self, app_id: &str, event: LifecycleEvent) -> (r: Option<Transition>)
        requires
            old(self).wf(),
        ensures
            final(self).wf(),
            final(self).pending() == old(self).pending(),
            final(self).ids() == old(self).ids(),
            r == if old(self)@.contains_key(app_id@) {
                Some(transition_of(old(self)@[app_id@], event@))
            } else {
                None::<Transition>
            },
            final(self)@ == after_event(old(self)@, app_id@, event@),
    {
        match self.apps.index_of(app_id) {
            Some(i) => Some(self.apply_at(i, event)),
            None => None,
        }
    }

    /// Replaces the state of `app_id`; an unknown id is left alone.
    pub fn set_state(&mut self, app_id: &str, state: AppRuntimeState)
        requires
            old(self).wf(),
        ensures
            final(self).wf(),
            final(self).pending() == old(self).pending(),
            final(self).ids() == old(self).ids(),
            final(self)@ == if old(self)@.contains_key(app_id@) {
                old(self)@.insert(app_id@, RuntimeView { state: state@, ..old(self)@[app_id@] })
            } else {
                old(self)@
            },
    {
        match self.apps.index_of(app_id) {
            Some(i) => {
                let ghost rec = AppRuntime { state, ..old(self).apps.value_seq()[i as int] };
                self.apps.value_mut(i).state = state;
                proof {
                    Self::lemma_record_changed(&*old(self), &*self, i as int, rec);
                }
            },
            None => {},
        }
    }

    /// Records the unread count that the surface of `app_id` reported.
    pub fn set_badge_count(&mut self, app_id: &str, count: Option<i32>)
        requires
            old(self).wf(),
        ensures
            final(self).wf(),
            final(self).pending() == old(self).pending(),
            final(self).ids() == old(self).ids(),
            final(self)@ == if old(self)@.contains_key(app_id@) {
                old(self)@.insert(
                    app_id@,
                    RuntimeView { badge_count: count, ..old(self)@[app_id@] },
                )
            } else {
                old(self)@
            },
    {
        match self.apps.index_of(app_id) {
            Some(i) => {
                let ghost rec = AppRuntime {
                    badge_count: count,
                    ..old(self).apps.value_seq()[i as int]
                };
                self.apps.value_mut(i).badge_count = count;
                proof {
                    Self::lemma_record_changed(&*old(self), &*self, i as int, rec);
                }
            },
            None => {},
        }
    }

    /// Records that the user interacted with `app_id` at time `now`.
    pub fn touch_interaction(&mut self, app_id: &str, now: u64)
        requires
            old(self).wf(),
        ensures
            final(self).wf(),
            final(self).pending() == old(self).pending(),
            final(self).ids() == old(self).ids(),
            final(self)@ == if old(self)@.contains_key(app_id@) {
                old(self)@.insert(
                    app_id@,
                    RuntimeView { last_interaction: Some(now), ..old(self)@[app_id@] },
                )
            } else {
                old(self)@
            },
    {
        match self.apps.index_of(app_id) {
            Some(i) => {
                let ghost rec = AppRuntime {
                    last_interaction: Some(now),
                    ..old(self).apps.value_seq()[i as int]
                };
                self.apps.value_mut(i).last_interaction = Some(now);
                proof {
                    Self::lemma_record_changed(&*old(self), &*self, i as int, rec);
                }
            },
            None => {},
        }
    }

    /// Records that the surface of `app_id` was alive at time `now`.
    pub fn touch_heartbeat(&mut self, app_id: &str, now: u64)
        requires
            old(self).wf(),
        ensures
            final(self).wf(),
            final(self).pending() == old(self).pending(),
            final(self).ids() == old(self).ids(),
            final(self)@ == if old(self)@.contains_key(app_id@) {
                old(self)@.insert(
                    app_id@,
                    RuntimeView { last_heartbeat: Some(now), ..old(self)@[app_id@] },
                )
            } else {
                old(self)@
            },
    {
        match self.apps.index_of(app_id) {
            Some(i) => {
                let ghost rec = AppRuntime {
                    last_heartbeat: Some(now),
                    ..old(self).apps.value_seq()[i as int]
                };
                self.apps.value_mut(i).last_heartbeat = Some(now);
                proof {
                    Self::lemma_record_changed(&*old(self), &*self, i as int, rec);
                }
            },
            None => {},
        }
    }

    /// Marks `app_id` as shown or hidden. The other records are not touched:
    /// `show_only` is the operation that keeps one instance visible.
    pub fn set_visible(&mut self, app_id: &str, visible: bool)
        requires
            old(self).wf(),
        ensures
            final(self).wf(),
            final(self).pending() == old(self).pending(),
            final(self).ids() == old(self).ids(),
            final(self)@ == if old(self)@.contains_key(app_id@) {
                old(self)@.insert(
                    app_id@,
                    RuntimeView { is_visible: visible, ..old(self)@[app_id@] },
                )
            } else {
                old(self)@
            },
    {
        match self.apps.index_of(app_id) {
            Some(i) => {
                let ghost rec = AppRuntime {
                    is_visible: visible,
                    ..old(self).apps.value_seq()[i as int]
                };
                self.apps.value_mut(i).is_visible = visible;
                proof {
                    Self::lemma_record_changed(&*old(self), &*self, i as int, rec);
                }
            },
            None => {},
        }
    }

    /// Records whether the surface of `app_id` plays media.
    pub fn set_media_playing(&mut self, app_id: &str, playing: bool)
        requires
            old(self).wf(),
        ensures
            final(self).wf(),
            final(self).pending() == old(self).pending(),
            final(self).ids() == old(self).ids(),
            final(self)@ == if old(self)@.contains_key(app_id@) {
                old(self)@.insert(
                    app_id@,
                    RuntimeView { is_playing_media: playing, ..old(self)@[app_id@] },
                )
            } else {
                old(self)@
            },
    {
        match self.apps.index_of(app_id) {
            Some(i) => {
                let ghost rec = AppRuntime {
                    is_playing_media: playing,
                    ..old(self).apps.value_seq()[i as int]
                };
                self.apps.value_mut(i).is_playing_media = playing;
                proof {
                    Self::lemma_record_changed(&*old(self), &*self, i as int, rec);
                }
            },
            None => {},
        }
    }

    /// Records whether the surface of `app_id` reports unsaved work.
    pub fn set_has_unsaved_work(&mut self, app_id: &str, has_unsaved: bool)
        requires
            old(self).wf(),
        ensures
            final(self).wf(),
            final(self).pending() == old(self).pending(),
            final(self).ids() == old(self).ids(),
            final(self)@ == if old(self)@.contains_key(app_id@) {
                old(self)@.insert(
                    app_id@,
                    RuntimeView { has_unsaved_work: has_unsaved, ..old(self)@[app_id@] },
                )
            } else {
                old(self)@
            },
    {
        match self.apps.index_of(app_id) {
            Some(i) => {
                let ghost rec = AppRuntime {
                    has_unsaved_work: has_unsaved,
                    ..old(self).apps.value_seq()[i as int]
                };
                self.apps.value_mut(i).has_unsaved_work = has_unsaved;
                proof {
                    Self::lemma_record_changed(&*old(self), &*self, i as int, rec);
                }
            },
            None => {},
        }
    }

    /// Whether the surface of `app_id` reported unsaved work; `false` for an unknown id.
    pub fn check_unsaved_work(&self, app_id: &str) -> (b: bool)
        requires
            self.wf(),
        ensures
            b == (self@.contains_key(app_id@) && self@[app_id@].has_unsaved_work),
    {
        match self.apps.get(app_id) {
            Some(rt) => rt.has_unsaved_work,
            None => false,
        }
    }

    /// Makes `app_id` the one visible instance and hides every other.
    pub fn show_only(&mut self, app_id: &str)
        requires
            old(self).wf(),
        ensures
            final(self).wf(),
            final(self).pending() == old(self).pending(),
            final(self).ids() == old(self).ids(),
            final(self)@ == shown_only(old(self)@, app_id@),
    {
        let n = self.apps.len();
        let mut i: usize = 0;
        while i < n
            invariant
                i <= n,
                n == old(self).apps.key_seq().len(),
                old(self).wf(),
                self.apps.wf(),
                self.pending_navigations == old(self).pending_navigations,
                self.apps.key_seq() == old(self).apps.key_seq(),
                self.apps.value_seq().len() == n,
                forall|j: int|
                    0 <= j < i ==> (#[trigger] self.apps.value_seq()[j])@ == (RuntimeView {
                        is_visible: old(self).apps.key_seq()[j] == app_id@,
                        ..old(self).apps.value_seq()[j]@
                    }),
                forall|j: int|
                    i <= j < n ==> #[trigger] self.apps.value_seq()[j] == old(
                        self,
                    ).apps.value_seq()[j],
            decreases n - i,
        {
            let shown = self.apps.key_at(i).as_str().eq(app_id);
            self.apps.value_mut(i).is_visible = shown;
            i += 1;
        }
        proof {
            assert(self@ =~= shown_only(old(self)@, app_id@)) by {
                assert forall|k: Seq<char>| self@.contains_key(k) implies #[trigger] self@[k]
                    == shown_only(old(self)@, app_id@)[k] by {
                    let j = self.apps.key_seq().index_of(k);
                    assert(0 <= j < n && self.apps.key_seq()[j] == k);
                    self.apps.lemma_entry(j);
                    old(self).apps.lemma_entry(j);
                }
            }
        }
    }

    /// Removes the record of `app_id`. Its pending navigation stays.
    pub fn remove(&mut self, app_id: &str)
        requires
            old(self).wf(),
        ensures
            final(self).wf(),
            final(self)@ == old(self)@.remove(app_id@),
            final(self).pending() == old(self).pending(),
    {
        let _ = self.apps.remove(app_id);
        assert(self@ =~= old(self)@.remove(app_id@));
    }

    /// Queues `url` for `app_id`, in place of a URL queued before.
    pub fn set_pending_navigation(&mut self, app_id: &str, url: String)
        requires
            old(self).wf(),
        ensures
            final(self).wf(),
            final(self)@ == old(self)@,
            final(self).ids() == old(self).ids(),
            final(self).pending() == old(self).pending().insert(app_id@, url@),
    {
        let _ = self.pending_navigations.insert(app_id.to_owned(), url);
        assert(self.pending() =~= old(self).pending().insert(app_id@, url@));
    }

    /// Takes the URL queued for `app_id` out of the queue.
    pub fn take_pending_navigation(&mut self, app_id: &str) -> (r: Option<String>)
        requires
            old(self).wf(),
        ensures
            final(self).wf(),
            final(self)@ == old(self)@,
            final(self).ids() == old(self).ids(),
            final(self).pending() == old(self).pending().remove(app_id@),
            match r {
                Some(url) => old(self).pending().contains_key(app_id@) && url@ == old(
                    self,
                ).pending()[app_id@],
                None => !old(self).pending().contains_key(app_id@),
            },
    {
        let r = self.pending_navigations.remove(app_id);
        assert(self.pending() =~= old(self).pending().remove(app_id@));
        r
    }

    /// A copy of every record, for a caller that must not hold the registry
    /// while it works through them. Entry `i` is the record of `ids()[i]`.
    pub fn snapshot(&self) -> (r: Vec<(String, AppRuntime)>)
        requires
            self.wf(),
        ensures
            r@.len() == self.ids().len(),
            forall|i: int|
                0 <= i < r@.len() ==> (#[trigger] r@[i]).0@ == self.ids()[i] && self@.contains_key(
                    r@[i].0@,
                ) && r@[i].1@ == self@[r@[i].0@],
            self.ids().no_duplicates(),
            self.ids().to_set() == self@.dom(),
    {
        proof {
            self.lemma_ids();
        }
        let n = self.apps.len();
        let mut r: Vec<(String, AppRuntime)> = Vec::new();
        let mut i: usize = 0;
        while i < n
            invariant
                i <= n,
                n == self.ids().len(),
                self.wf(),
                r@.len() == i,
                forall|j: int|
                    0 <= j < i ==> (#[trigger] r@[j]).0@ == self.ids()[j] && self@.contains_key(
                        r@[j].0@,
                    ) && r@[j].1@ == self@[r@[j].0@],
            decreases n - i,
        {
            let id = self.id_at(i).clone();
            let rt = self.runtime_at(i).clone();
            r.push((id, rt));
            i += 1;
        }
        r
    }
}

} // verus!
