use vstd::prelude::*;

use super::models::{DarkModeType, LinkRoutingRule, NotificationStyle, Workspace};
use crate::text::texts;

verus! {

pub fn default_true() -> (r: bool)
    ensures
        r,
{
    true
}

pub fn default_1() -> (r: u32)
    ensures
        r == 1,
{
    1
}

pub fn default_10() -> (r: u32)
    ensures
        r == 10,
{
    10
}

pub fn default_15() -> (r: u32)
    ensures
        r == 15,
{
    15
}

pub fn default_90() -> (r: u32)
    ensures
        r == 90,
{
    90
}

pub fn default_100() -> (r: u32)
    ensures
        r == 100,
{
    100
}

pub fn default_service_type() -> (r: String)
    ensures
        r@ == "custom"@,
{
    String::from_str("custom")
}

pub fn default_dark_mode() -> (r: DarkModeType)
    ensures
        r == DarkModeType::Off,
{
    DarkModeType::Off
}

pub fn default_notification_style() -> (r: NotificationStyle)
    ensures
        r == NotificationStyle::Full,
{
    NotificationStyle::Full
}

pub fn default_download_dir() -> (r: String)
    ensures
        r@ == "~/Downloads"@,
{
    String::from_str("~/Downloads")
}

pub fn default_workspace() -> (r: String)
    ensures
        r@ == "default"@,
{
    String::from_str("default")
}

pub fn default_dnd_start() -> (r: String)
    ensures
        r@ == "18:00"@,
{
    String::from_str("18:00")
}

pub fn default_dnd_end() -> (r: String)
    ensures
        r@ == "09:00"@,
{
    String::from_str("09:00")
}

pub fn default_dnd_days() -> (r: Vec<String>)
    ensures
        texts(r@) == seq!["mon"@, "tue"@, "wed"@, "thu"@, "fri"@],
{
    let mut r: Vec<String> = Vec::new();
    r.push(String::from_str("mon"));
    r.push(String::from_str("tue"));
    r.push(String::from_str("wed"));
    r.push(String::from_str("thu"));
    r.push(String::from_str("fri"));
    assert(texts(r@) =~= seq!["mon"@, "tue"@, "wed"@, "thu"@, "fri"@]);
    r
}

pub fn default_filter_lists() -> (r: Vec<String>)
    ensures
        texts(r@) == seq![
            "https://easylist.to/easylist/easylist.txt"@,
            "https://easylist.to/easylist/easyprivacy.txt"@,
        ],
{
    let mut r: Vec<String> = Vec::new();
    r.push(String::from_str("https://easylist.to/easylist/easylist.txt"));
    r.push(String::from_str("https://easylist.to/easylist/easyprivacy.txt"));
    assert(texts(r@) =~= seq![
        "https://easylist.to/easylist/easylist.txt"@,
        "https://easylist.to/easylist/easyprivacy.txt"@,
    ]);
    r
}

pub fn default_shortcut_quick_switcher() -> (r: String)
    ensures
        r@ == "CmdOrCtrl+K"@,
{
    String::from_str("CmdOrCtrl+K")
}

pub fn default_shortcut_toggle_dnd() -> (r: String)
    ensures
        r@ == "CmdOrCtrl+Shift+D"@,
{
    String::from_str("CmdOrCtrl+Shift+D")
}

pub fn default_shortcut_toggle_sidebar() -> (r: String)
    ensures
        r@ == "CmdOrCtrl+\\"@,
{
    String::from_str("CmdOrCtrl+\\")
}

pub fn default_shortcut_next_app() -> (r: String)
    ensures
        r@ == "CmdOrCtrl+Tab"@,
{
    String::from_str("CmdOrCtrl+Tab")
}

pub fn default_shortcut_prev_app() -> (r: String)
    ensures
        r@ == "CmdOrCtrl+Shift+Tab"@,
{
    String::from_str("CmdOrCtrl+Shift+Tab")
}

pub fn default_shortcut_global_mute() -> (r: String)
    ensures
        r@ == "CmdOrCtrl+Shift+M"@,
{
    String::from_str("CmdOrCtrl+Shift+M")
}

/// One rule, which sends every link to the system browser.
pub fn default_link_routing_rules() -> (r: Vec<LinkRoutingRule>)
    ensures
        r@.len() == 1,
        r@[0].pattern@ == "*"@,
        r@[0].target@ == "external"@,
{
    let mut r: Vec<LinkRoutingRule> = Vec::new();
    r.push(LinkRoutingRule { pattern: String::from_str("*"), target: String::from_str("external") });
    r
}

/// One workspace, `default`, which holds no instance of its own.
pub fn default_workspace_items() -> (r: Vec<Workspace>)
    ensures
        r@.len() == 1,
        r@[0].id@ == "default"@,
        r@[0].name@ == "All Apps"@,
        r@[0].app_ids@.len() == 0,
{
    let mut r: Vec<Workspace> = Vec::new();
    r.push(
        Workspace {
            id: String::from_str("default"),
            name: String::from_str("All Apps"),
            app_ids: Vec::new(),
        },
    );
    r
}

} // verus!
