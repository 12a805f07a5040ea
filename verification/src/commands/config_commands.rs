use vstd::prelude::*;

use crate::adblock::engine::AdblockState;
use crate::config::models::{AdblockConfig, AppConfig};
use crate::text::texts;

verus! {

/// What a change of the configuration of an instance asks of its surface.
#[derive(Clone, Copy, Debug, PartialEq, Eq, Structural)]
pub enum SurfaceChange {
    /// The surface has to be created anew.
    Recreate,
    /// The surface takes the new zoom level, in percent.
    Zoom(u32),
    /// The surface stays as it is.
    Nothing,
}

/// Whether a surface has to be created anew for the change from `old` to
/// `new`: the URL, the user agent, the user's style sheet or script, the
/// proxy or the kind of service differs.
pub open spec fn needs_recreate(old: AppConfig, new: AppConfig) -> bool {
    old.url@ != new.url@ || old.user_agent@ != new.user_agent@ || old.custom_css@
        != new.custom_css@ || old.custom_js@ != new.custom_js@ || old.proxy@ != new.proxy@
        || old.service_type@ != new.service_type@
}

/// What the change from `old` to `new` asks of the surface of the instance.
pub fn surface_change(old: &AppConfig, new: &AppConfig) -> (change: SurfaceChange)
    ensures
        change == if needs_recreate(*old, *new) {
            SurfaceChange::Recreate
        } else if old.zoom_level != new.zoom_level {
            SurfaceChange::Zoom(new.zoom_level)
        } else {
            SurfaceChange::Nothing
        },
{
    if old.url != new.url || old.user_agent != new.user_agent || old.custom_css != new.custom_css
        || old.custom_js != new.custom_js || old.proxy != new.proxy || old.service_type
        != new.service_type {
        SurfaceChange::Recreate
    } else if old.zoom_level != new.zoom_level {
        SurfaceChange::Zoom(new.zoom_level)
    } else {
        SurfaceChange::Nothing
    }
}

/// Brings the ad blocker in line with a new configuration. While blocking
/// is on, the loaded list is loaded again with the new custom rules; when
/// blocking goes off, an empty list takes its place. Returns whether
/// blocking went on or off, which the pages have to be told.
pub fn update_adblock_config(state: &mut AdblockState, old_enabled: bool, adblock: &AdblockConfig) -> (switched:
    bool)
    requires
        old(state).wf(),
    ensures
        final(state).wf(),
        switched == (old_enabled != adblock.enabled),
        final(state).counts() == old(state).counts(),
        final(state).content_blocking() == old(state).content_blocking(),
        adblock.enabled && old(state).rules() is Some ==> final(state).rules() == old(
            state,
        ).rules() && final(state).custom() == texts(adblock.custom_rules@) && final(state).cache() == Map::<Seq<char>, Seq<Seq<char>>>::empty(),
        !adblock.enabled && old_enabled ==> final(state).rules() == Some(Seq::<char>::empty())
            && final(state).custom().len() == 0 && final(state).cache() == Map::<
            Seq<char>,
            Seq<Seq<char>>,
        >::empty(),
        (adblock.enabled && old(state).rules() is None) || (!adblock.enabled && !old_enabled)
            ==> final(state).rules() == old(state).rules() && final(state).custom() == old(
            state,
        ).custom() && final(state).cache() == old(state).cache(),
{
    if adblock.enabled {
        match state.get_filter_rules_text() {
            Some(rules_text) => {
                state.load_rules(rules_text.as_str(), adblock.custom_rules.as_slice());
            },
            None => {},
        }
    } else if old_enabled {
        let none: Vec<String> = Vec::new();
        state.load_rules("", none.as_slice());
        proof {
            reveal_strlit("");
            assert(""@ =~= Seq::<char>::empty());
        }
    }
    old_enabled != adblock.enabled
}

/// Adds a custom rule to the configuration and loads the rules again with
/// it, over the loaded list or over an empty one where none is loaded.
pub fn add_custom_adblock_rule(adblock: &mut AdblockConfig, state: &mut AdblockState, rule: String)
    requires
        old(state).wf(),
    ensures
        final(state).wf(),
        final(adblock).enabled == old(adblock).enabled,
        final(adblock).filter_lists == old(adblock).filter_lists,
        final(adblock).last_updated == old(adblock).last_updated,
        final(adblock).custom_rules@ == old(adblock).custom_rules@.push(rule),
        final(state).rules() == Some(
            match old(state).rules() {
                Some(t) => t,
                None => Seq::<char>::empty(),
            },
        ),
        final(state).custom() == texts(final(adblock).custom_rules@),
        final(state).cache() == Map::<Seq<char>, Seq<Seq<char>>>::empty(),
        final(state).counts() == old(state).counts(),
{
    adblock.custom_rules.push(rule);
    let rules_text = match state.get_filter_rules_text() {
        Some(t) => t,
        None => String::new(),
    };
    state.load_rules(rules_text.as_str(), adblock.custom_rules.as_slice());
}

} // verus!
