use vstd::prelude::*;

use super::defaults::{
    default_dnd_days, default_dnd_end, default_dnd_start, default_download_dir,
    default_filter_lists, default_link_routing_rules, default_shortcut_global_mute,
    default_shortcut_next_app, default_shortcut_prev_app, default_shortcut_quick_switcher,
    default_shortcut_toggle_dnd, default_shortcut_toggle_sidebar, default_workspace,
    default_workspace_items,
};
use crate::text::{clone_strings, texts};

verus! {

#[derive(Clone, Copy, Debug, PartialEq, Eq, Structural)]
pub enum DarkModeType {
    Off,
    Dynamic,
    Filter,
    Static,
}

#[derive(Clone, Copy, Debug, PartialEq, Eq, Structural)]
pub enum NotificationStyle {
    Full,
    Private,
    Off,
}

#[derive(Clone, Copy, Debug, PartialEq, Eq, Structural)]
pub enum ThemeMode {
    System,
    Light,
    Dark,
}

impl Default for ThemeMode {
    fn default() -> (r: Self)
        ensures
            r == ThemeMode::System,
    {
        ThemeMode::System
    }
}

/// One configured hosted service.
#[derive(Debug)]
pub struct AppConfig {
    pub id: String,
    pub name: String,
    pub service_type: String,
    pub url: String,
    pub icon: String,
    /// Identifies the instance's isolated data store; zero until one is assigned.
    pub data_store_uuid: u128,
    pub enabled: bool,
    pub hibernated: bool,
    pub audio_muted: bool,
    pub user_agent: String,
    pub custom_css: String,
    pub custom_js: String,
    pub proxy: String,
    pub dark_mode: DarkModeType,
    pub dark_mode_brightness: u32,
    pub dark_mode_contrast: u32,
    pub dark_mode_sepia: u32,
    pub dark_mode_bg_color: String,
    pub dark_mode_text_color: String,
    /// Minutes without interaction after which the instance is hibernated; 0 means never.
    pub hibernation_timeout_minutes: u32,
    pub download_directory: String,
    pub skip_download_dialog: bool,
    pub workspace: String,
    pub sidebar_section: String,
    pub position: u32,
    pub notification_style: NotificationStyle,
    pub adblock_enabled: bool,
    pub zoom_level: u32,
}

impl Clone for AppConfig {
    fn clone(&self) -> (r: Self)
        ensures
            r == *self,
    {
        AppConfig {
            id: self.id.clone(),
            name: self.name.clone(),
            service_type: self.service_type.clone(),
            url: self.url.clone(),
            icon: self.icon.clone(),
            data_store_uuid: self.data_store_uuid,
            enabled: self.enabled,
            hibernated: self.hibernated,
            audio_muted: self.audio_muted,
            user_agent: self.user_agent.clone(),
            custom_css: self.custom_css.clone(),
            custom_js: self.custom_js.clone(),
            proxy: self.proxy.clone(),
            dark_mode: self.dark_mode,
            dark_mode_brightness: self.dark_mode_brightness,
            dark_mode_contrast: self.dark_mode_contrast,
            dark_mode_sepia: self.dark_mode_sepia,
            dark_mode_bg_color: self.dark_mode_bg_color.clone(),
            dark_mode_text_color: self.dark_mode_text_color.clone(),
            hibernation_timeout_minutes: self.hibernation_timeout_minutes,
            download_directory: self.download_directory.clone(),
            skip_download_dialog: self.skip_download_dialog,
            workspace: self.workspace.clone(),
            sidebar_section: self.sidebar_section.clone(),
            position: self.position,
            notification_style: self.notification_style,
            adblock_enabled: self.adblock_enabled,
            zoom_level: self.zoom_level,
        }
    }
}

/// The ids of a list of instances, in order.
pub open spec fn app_ids(apps: Seq<AppConfig>) -> Seq<Seq<char>> {
    apps.map_values(|a: AppConfig| a.id@)
}

/// A copy of a list of instances.
pub fn clone_apps(apps: &Vec<AppConfig>) -> (r: Vec<AppConfig>)
    ensures
        r@ == apps@,
{
    let mut r: Vec<AppConfig> = Vec::new();
    let mut i: usize = 0;
    while i < apps.len()
        invariant
            i <= apps.len(),
            r@ == apps@.take(i as int),
        decreases apps.len() - i,
    {
        r.push(apps[i].clone());
        i += 1;
    }
    r
}

/// Whether `i` is the position of the first instance of `apps` with id `id`.
pub open spec fn is_first_app(apps: Seq<AppConfig>, id: Seq<char>, i: int) -> bool {
    &&& 0 <= i < apps.len()
    &&& apps[i].id@ == id
    &&& forall|j: int| 0 <= j < i ==> (#[trigger] apps[j]).id@ != id
}

/// The configuration of instance `id`: the first of `apps` with that id.
pub open spec fn config_of(apps: Seq<AppConfig>, id: Seq<char>) -> Option<AppConfig> {
    if exists|i: int| is_first_app(apps, id, i) {
        Some(apps[choose|i: int| is_first_app(apps, id, i)])
    } else {
        None
    }
}

/// The configuration of instance `app_id`.
pub fn lookup_app<'a>(apps: &'a [AppConfig], app_id: &str) -> (r: Option<&'a AppConfig>)
    ensures
        match r {
            Some(a) => config_of(apps@, app_id@) == Some(*a),
            None => config_of(apps@, app_id@) is None,
        },
        r is Some <==> app_ids(apps@).contains(app_id@),
{
    match find_app(apps, app_id) {
        Some(i) => {
            proof {
                assert(is_first_app(apps@, app_id@, i as int));
                let c = choose|c: int| is_first_app(apps@, app_id@, c);
                assert(c == i) by {
                    if c < i {
                        assert(apps@[c].id@ != app_id@);
                    }
                    if i < c {
                        assert(apps@[i as int].id@ != app_id@);
                    }
                }
                assert(app_ids(apps@)[i as int] == app_id@);
            }
            Some(&apps[i])
        },
        None => {
            proof {
                if exists|i: int| is_first_app(apps@, app_id@, i) {
                    let c = choose|c: int| is_first_app(apps@, app_id@, c);
                    assert(app_ids(apps@)[c] == app_id@);
                }
            }
            None
        },
    }
}

/// The position of the first instance with the given id.
pub fn find_app(apps: &[AppConfig], app_id: &str) -> (r: Option<usize>)
    ensures
        match r {
            Some(i) => i < apps.len() && apps[i as int].id@ == app_id@ && forall|j: int|
                0 <= j < i ==> (#[trigger] apps[j]).id@ != app_id@,
            None => !app_ids(apps@).contains(app_id@),
        },
{
    let mut i: usize = 0;
    while i < apps.len()
        invariant
            i <= apps.len(),
            forall|j: int| 0 <= j < i ==> apps[j].id@ != app_id@,
        decreases apps.len() - i,
    {
        if apps[i].id.as_str().eq(app_id) {
            return Some(i);
        }
        i += 1;
    }
    assert(!app_ids(apps@).contains(app_id@)) by {
        if app_ids(apps@).contains(app_id@) {
            let j = choose|j: int| 0 <= j < app_ids(apps@).len() && app_ids(apps@)[j] == app_id@;
            assert(apps[j].id@ == app_id@);
        }
    }
    None
}

#[derive(Debug)]
pub struct GeneralConfig {
    pub config_version: u32,
    pub theme: ThemeMode,
    pub dnd_enabled: bool,
    pub dnd_schedule_enabled: bool,
    pub dnd_schedule_start: String,
    pub dnd_schedule_end: String,
    pub dnd_schedule_days: Vec<String>,
    pub tray_mode: bool,
    pub show_badge_in_tray: bool,
    pub launch_at_login: bool,
    pub check_for_updates: bool,
    pub developer_mode: bool,
}

impl Clone for GeneralConfig {
    fn clone(&self) -> (r: Self)
        ensures
            r == (GeneralConfig { dnd_schedule_days: r.dnd_schedule_days, ..*self }),
            r.dnd_schedule_days@ == self.dnd_schedule_days@,
    {
        let days = clone_strings(&self.dnd_schedule_days);
        GeneralConfig {
            config_version: self.config_version,
            theme: self.theme,
            dnd_enabled: self.dnd_enabled,
            dnd_schedule_enabled: self.dnd_schedule_enabled,
            dnd_schedule_start: self.dnd_schedule_start.clone(),
            dnd_schedule_end: self.dnd_schedule_end.clone(),
            dnd_schedule_days: days,
            tray_mode: self.tray_mode,
            show_badge_in_tray: self.show_badge_in_tray,
            launch_at_login: self.launch_at_login,
            check_for_updates: self.check_for_updates,
            developer_mode: self.developer_mode,
        }
    }
}

impl Default for GeneralConfig {
    fn default() -> (r: Self)
        ensures
            r.config_version == 1,
            r.theme == ThemeMode::System,
            !r.dnd_enabled,
            !r.dnd_schedule_enabled,
            r.dnd_schedule_start@ == "18:00"@,
            r.dnd_schedule_end@ == "09:00"@,
            texts(r.dnd_schedule_days@) == seq!["mon"@, "tue"@, "wed"@, "thu"@, "fri"@],
            r.tray_mode,
            r.show_badge_in_tray,
            !r.launch_at_login,
            r.check_for_updates,
            !r.developer_mode,
    {
        GeneralConfig {
            config_version: 1,
            theme: ThemeMode::System,
            dnd_enabled: false,
            dnd_schedule_enabled: false,
            dnd_schedule_start: default_dnd_start(),
            dnd_schedule_end: default_dnd_end(),
            dnd_schedule_days: default_dnd_days(),
            tray_mode: true,
            show_badge_in_tray: true,
            launch_at_login: false,
            check_for_updates: true,
            developer_mode: false,
        }
    }
}

#[derive(Debug)]
pub struct AdblockConfig {
    pub enabled: bool,
    pub custom_rules: Vec<String>,
    pub filter_lists: Vec<String>,
    pub last_updated: String,
}

impl Default for AdblockConfig {
    fn default() -> (r: Self)
        ensures
            r.enabled,
            r.custom_rules@.len() == 0,
            texts(r.filter_lists@) == seq![
                "https://easylist.to/easylist/easylist.txt"@,
                "https://easylist.to/easylist/easyprivacy.txt"@,
            ],
            r.last_updated@.len() == 0,
    {
        AdblockConfig {
            enabled: true,
            custom_rules: Vec::new(),
            filter_lists: default_filter_lists(),
            last_updated: String::new(),
        }
    }
}

#[derive(Debug)]
pub struct ShortcutConfig {
    pub quick_switcher: String,
    pub toggle_dnd: String,
    pub toggle_sidebar: String,
    pub next_app: String,
    pub prev_app: String,
    pub global_mute: String,
}

impl Default for ShortcutConfig {
    fn default() -> (r: Self)
        ensures
            r.quick_switcher@ == "CmdOrCtrl+K"@,
            r.toggle_dnd@ == "CmdOrCtrl+Shift+D"@,
            r.toggle_sidebar@ == "CmdOrCtrl+\\"@,
            r.next_app@ == "CmdOrCtrl+Tab"@,
            r.prev_app@ == "CmdOrCtrl+Shift+Tab"@,
            r.global_mute@ == "CmdOrCtrl+Shift+M"@,
    {
        ShortcutConfig {
            quick_switcher: default_shortcut_quick_switcher(),
            toggle_dnd: default_shortcut_toggle_dnd(),
            toggle_sidebar: default_shortcut_toggle_sidebar(),
            next_app: default_shortcut_next_app(),
            prev_app: default_shortcut_prev_app(),
            global_mute: default_shortcut_global_mute(),
        }
    }
}

/// Sends links whose URL matches `pattern` to `target`: an instance id, or
/// `external` for the system browser.
#[derive(Debug)]
pub struct LinkRoutingRule {
    pub pattern: String,
    pub target: String,
}

#[derive(Debug)]
pub struct LinkRoutingConfig {
    pub rules: Vec<LinkRoutingRule>,
}

impl Default for LinkRoutingConfig {
    fn default() -> (r: Self)
        ensures
            r.rules@.len() == 1,
            r.rules@[0].pattern@ == "*"@,
            r.rules@[0].target@ == "external"@,
    {
        LinkRoutingConfig { rules: default_link_routing_rules() }
    }
}

#[derive(Debug)]
pub struct Workspace {
    pub id: String,
    pub name: String,
    pub app_ids: Vec<String>,
}

#[derive(Debug)]
pub struct WorkspacesConfig {
    pub active: String,
    pub items: Vec<Workspace>,
    pub auto_hibernate_on_workspace_switch: bool,
}

impl Default for WorkspacesConfig {
    fn default() -> (r: Self)
        ensures
            r.active@ == "default"@,
            r.items@.len() == 1,
            r.items@[0].id@ == "default"@,
            r.items@[0].name@ == "All Apps"@,
            r.items@[0].app_ids@.len() == 0,
            !r.auto_hibernate_on_workspace_switch,
    {
        WorkspacesConfig {
            active: default_workspace(),
            items: default_workspace_items(),
            auto_hibernate_on_workspace_switch: false,
        }
    }
}

#[derive(Debug)]
pub struct DownloadGlobalConfig {
    pub unified_manager_enabled: bool,
    pub default_directory: String,
}

impl Default for DownloadGlobalConfig {
    fn default() -> (r: Self)
        ensures
            r.unified_manager_enabled,
            r.default_directory@ == "~/Downloads"@,
    {
        DownloadGlobalConfig {
            unified_manager_enabled: true,
            default_directory: default_download_dir(),
        }
    }
}

#[derive(Clone, Copy, Debug)]
pub struct SyncConfig {
    pub enabled: bool,
}

impl Default for SyncConfig {
    fn default() -> (r: Self)
        ensures
            !r.enabled,
    {
        SyncConfig { enabled: false }
    }
}

/// The whole configuration: global settings and the configured instances.
#[derive(Debug)]
pub struct OrblyConfig {
    pub general: GeneralConfig,
    pub adblock: AdblockConfig,
    pub shortcuts: ShortcutConfig,
    pub link_routing: LinkRoutingConfig,
    pub workspaces: WorkspacesConfig,
    pub downloads: DownloadGlobalConfig,
    pub sync: SyncConfig,
    pub apps: Vec<AppConfig>,
}

impl Default for OrblyConfig {
    fn default() -> (r: Self)
        ensures
            r.general.config_version == 1,
            r.general.tray_mode,
            r.general.show_badge_in_tray,
            r.adblock.enabled,
            r.workspaces.active@ == "default"@,
            !r.sync.enabled,
            r.apps@.len() == 0,
    {
        OrblyConfig {
            general: GeneralConfig::default(),
            adblock: AdblockConfig::default(),
            shortcuts: ShortcutConfig::default(),
            link_routing: LinkRoutingConfig::default(),
            workspaces: WorkspacesConfig::default(),
            downloads: DownloadGlobalConfig::default(),
            sync: SyncConfig::default(),
            apps: Vec::new(),
        }
    }
}

} // verus!
