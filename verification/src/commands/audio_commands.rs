use vstd::prelude::*;

use crate::config::models::AppConfig;
use crate::string_map::StringMap;

verus! {

/// The script that mutes every media element of a page and keeps those
/// that start later muted.
pub const MUTE_SCRIPT: &'static str = "
            (function() {
                document.querySelectorAll('audio, video').forEach(el => { el.muted = true; });
                if (!HTMLMediaElement.prototype._orblyOriginalPlay) {
                    HTMLMediaElement.prototype._orblyOriginalPlay = HTMLMediaElement.prototype.play;
                }
                HTMLMediaElement.prototype.play = function() {
                    this.muted = true;
                    return HTMLMediaElement.prototype._orblyOriginalPlay.call(this);
                };
            })();
        ";

/// The script that takes the muting back.
pub const UNMUTE_SCRIPT: &'static str = "
            (function() {
                document.querySelectorAll('audio, video').forEach(el => { el.muted = false; });
                if (HTMLMediaElement.prototype._orblyOriginalPlay) {
                    HTMLMediaElement.prototype.play = HTMLMediaElement.prototype._orblyOriginalPlay;
                    delete HTMLMediaElement.prototype._orblyOriginalPlay;
                }
            })();
        ";

/// The script that mutes a page or takes the muting back.
pub fn get_mute_script(muted: bool) -> (script: String)
    ensures
        script@ == if muted {
            MUTE_SCRIPT@
        } else {
            UNMUTE_SCRIPT@
        },
{
    if muted {
        String::from_str(MUTE_SCRIPT)
    } else {
        String::from_str(UNMUTE_SCRIPT)
    }
}

/// The script that a page starts with: the muting script for a muted
/// instance, nothing for any other.
pub fn get_audio_mute_init_script(muted: bool) -> (script: String)
    ensures
        script@ == if muted {
            MUTE_SCRIPT@
        } else {
            Seq::<char>::empty()
        },
{
    if muted {
        get_mute_script(true)
    } else {
        String::new()
    }
}

/// Whether all instances are muted at once, and what each was set to before.
pub struct GlobalMuteState {
    prior_states: StringMap<bool>,
    is_globally_muted: bool,
}

/// The mute settings of the enabled instances of `apps`, by id.
pub open spec fn mute_settings(apps: Seq<AppConfig>) -> Map<Seq<char>, bool>
    decreases apps.len(),
{
    if apps.len() == 0 {
        Map::empty()
    } else if apps.last().enabled {
        mute_settings(apps.drop_last()).insert(apps.last().id@, apps.last().audio_muted)
    } else {
        mute_settings(apps.drop_last())
    }
}

/// An instance under the global mute: muted if it is enabled.
pub open spec fn silenced(app: AppConfig) -> AppConfig {
    if app.enabled {
        AppConfig { audio_muted: true, ..app }
    } else {
        app
    }
}

/// An instance after the global mute: an enabled one is set to what `prior`
/// holds for it, and is not muted where `prior` holds nothing.
pub open spec fn restored(app: AppConfig, prior: Map<Seq<char>, bool>) -> AppConfig {
    if app.enabled {
        AppConfig {
            audio_muted: if prior.contains_key(app.id@) {
                prior[app.id@]
            } else {
                false
            },
            ..app
        }
    } else {
        app
    }
}

/// The id and mute setting of each enabled instance of `apps`, in order.
pub open spec fn enabled_settings(apps: Seq<AppConfig>) -> Seq<(Seq<char>, bool)>
    decreases apps.len(),
{
    if apps.len() == 0 {
        Seq::empty()
    } else if apps.last().enabled {
        enabled_settings(apps.drop_last()).push((apps.last().id@, apps.last().audio_muted))
    } else {
        enabled_settings(apps.drop_last())
    }
}

/// The id and mute setting of each entry, in order.
pub open spec fn setting_views(changed: Seq<(String, bool)>) -> Seq<(Seq<char>, bool)> {
    changed.map_values(|c: (String, bool)| (c.0@, c.1))
}

/// What a toggle of the global mute did.
#[derive(Debug, PartialEq, Eq)]
pub struct MuteToggle {
    /// Whether all instances are muted now.
    pub muted: bool,
    /// Each enabled instance with its new mute setting, for the host to apply.
    pub changed: Vec<(String, bool)>,
}

impl GlobalMuteState {
    pub closed spec fn wf(&self) -> bool {
        self.prior_states.wf()
    }

    /// What each instance was set to before the global mute, by id.
    pub closed spec fn prior(&self) -> Map<Seq<char>, bool> {
        self.prior_states@
    }

    /// Whether all instances are muted at once.
    pub closed spec fn muted(&self) -> bool {
        self.is_globally_muted
    }

    /// Whether all instances are muted at once.
    pub fn is_globally_muted(&self) -> (b: bool)
        ensures
            b == self.muted(),
    {
        self.is_globally_muted
    }

    pub fn new() -> (s: Self)
        ensures
            s.wf(),
            !s.muted(),
            s.prior() == Map::<Seq<char>, bool>::empty(),
    {
        GlobalMuteState { prior_states: StringMap::new(), is_globally_muted: false }
    }

    /// What instance `app_id` was set to before the global mute.
    pub fn prior_state(&self, app_id: &str) -> (r: Option<bool>)
        requires
            self.wf(),
        ensures
            r == if self.prior().contains_key(app_id@) {
                Some(self.prior()[app_id@])
            } else {
                None::<bool>
            },
    {
        match self.prior_states.get(app_id) {
            Some(b) => Some(*b),
            None => None,
        }
    }
}

/// Switches the global mute. Switching it on remembers the mute setting of
/// each enabled instance and mutes them all; switching it off sets each
/// enabled instance back to what was remembered for it, and unmutes one for
/// which nothing was remembered. Disabled instances are not touched.
pub fn toggle_global_mute(state: &mut GlobalMuteState, apps: &mut Vec<AppConfig>) -> (r: MuteToggle)
    requires
        old(state).wf(),
    ensures
        final(state).wf(),
        r.muted == !old(state).muted(),
        final(state).muted() == r.muted,
        final(apps)@.len() == old(apps)@.len(),
        old(state).muted() ==> final(state).prior() == old(state).prior() && forall|
            i: int,
        |
            0 <= i < old(apps)@.len() ==> #[trigger] final(apps)@[i] == restored(
                old(apps)@[i],
                old(state).prior(),
            ),
        !old(state).muted() ==> final(state).prior() == mute_settings(old(apps)@)
            && forall|i: int|
            0 <= i < old(apps)@.len() ==> #[trigger] final(apps)@[i] == silenced(old(apps)@[i]),
        setting_views(r.changed@) == enabled_settings(final(apps)@),
{
    let n = apps.len();
    if state.is_globally_muted {
        let mut i: usize = 0;
        while i < n
            invariant
                i <= n,
                n == apps@.len(),
                n == old(apps)@.len(),
                state.wf(),
                state.prior() == old(state).prior(),
                state.is_globally_muted == old(state).is_globally_muted,
                forall|j: int|
                    0 <= j < i ==> #[trigger] apps@[j] == restored(
                        old(apps)@[j],
                        old(state).prior(),
                    ),
                forall|j: int| i <= j < n ==> #[trigger] apps@[j] == old(apps)@[j],
            decreases n - i,
        {
            if apps[i].enabled {
                let restore = match state.prior_state(apps[i].id.as_str()) {
                    Some(b) => b,
                    None => false,
                };
                apps[i].audio_muted = restore;
            }
            i += 1;
        }
        state.is_globally_muted = false;
    } else {
        state.prior_states.clear();
        let mut i: usize = 0;
        assert(state.prior() =~= mute_settings(old(apps)@.take(0)));
        while i < n
            invariant
                i <= n,
                n == apps@.len(),
                n == old(apps)@.len(),
                state.wf(),
                state.prior() == mute_settings(old(apps)@.take(i as int)),
                state.is_globally_muted == old(state).is_globally_muted,
                forall|j: int| 0 <= j < i ==> #[trigger] apps@[j] == silenced(old(apps)@[j]),
                forall|j: int| i <= j < n ==> #[trigger] apps@[j] == old(apps)@[j],
            decreases n - i,
        {
            proof {
                assert(old(apps)@.take(i + 1).drop_last() =~= old(apps)@.take(i as int));
                assert(old(apps)@.take(i + 1).last() == old(apps)@[i as int]);
            }
            if apps[i].enabled {
                let id = apps[i].id.clone();
                let was = apps[i].audio_muted;
                let _ = state.prior_states.insert(id, was);
                apps[i].audio_muted = true;
            }
            i += 1;
        }
        proof {
            assert(old(apps)@.take(n as int) =~= old(apps)@);
        }
        state.is_globally_muted = true;
    }
    let mut changed: Vec<(String, bool)> = Vec::new();
    let mut i: usize = 0;
    assert(setting_views(changed@) =~= enabled_settings(apps@.take(0)));
    while i < n
        invariant
            i <= n,
            n == apps@.len(),
            setting_views(changed@) == enabled_settings(apps@.take(i as int)),
        decreases n - i,
    {
        proof {
            assert(apps@.take(i + 1).drop_last() =~= apps@.take(i as int));
            assert(apps@.take(i + 1).last() == apps@[i as int]);
        }
        if apps[i].enabled {
            let ghost before = changed@;
            changed.push((apps[i].id.clone(), apps[i].audio_muted));
            assert(setting_views(changed@) =~= setting_views(before).push(
                (apps@[i as int].id@, apps@[i as int].audio_muted),
            ));
        }
        i += 1;
    }
    proof {
        assert(apps@.take(n as int) =~= apps@);
    }
    MuteToggle { muted: state.is_globally_muted, changed }
}

} // verus!
