use vstd::prelude::*;

use super::models::{config_of, find_app, is_first_app, AppConfig, OrblyConfig};

verus! {

/// The version of the configuration that this library writes.
pub const CONFIG_VERSION: u32 = 1;

/// Why a change of the configuration was not made.
#[derive(Debug, PartialEq, Eq)]
pub enum ConfigError {
    /// No instance has the given id.
    AppNotFound { app_id: String },
}

impl ConfigError {
    /// The error in words.
    pub fn message(&self) -> (m: String)
        ensures
            m@ == match *self {
                ConfigError::AppNotFound { app_id } => "App '"@ + app_id@ + "' not found"@,
            },
    {
        match self {
            ConfigError::AppNotFound { app_id } => String::from_str("App '").concat(
                app_id.as_str(),
            ).concat("' not found"),
        }
    }
}

/// The version field of a version 4 UUID: bits 76 to 79.
pub open spec fn uuid_version(id: u128) -> int {
    (id as int / 0x1000_0000_0000_0000_0000) % 16
}

/// `uuid::Uuid::new_v4`, as a number: a random UUID of version 4.
#[verifier::external_body]
fn new_uuid() -> (id: u128)
    ensures
        uuid_version(id) == 4,
{
    ::uuid::Uuid::new_v4().as_u128()
}

/// The configuration version after the migration: version 0 becomes
/// version 1, every other version stays.
pub open spec fn migrated_version(v: u32) -> u32 {
    if v == 0 {
        1
    } else {
        v
    }
}

/// The configuration in memory. The caller stores it after each change.
pub struct ConfigManager {
    config: OrblyConfig,
}

impl ConfigManager {
    /// The configuration that is held.
    pub closed spec fn config(&self) -> OrblyConfig {
        self.config
    }

    /// Holds the configuration that was read, brought to the current version.
    pub fn new(config: OrblyConfig) -> (m: Self)
        ensures
            m.config() == (OrblyConfig {
                general: crate::config::models::GeneralConfig {
                    config_version: migrated_version(config.general.config_version),
                    ..config.general
                },
                ..config
            }),
    {
        let mut config = config;
        Self::migrate_config(&mut config);
        ConfigManager { config }
    }

    /// The configuration that is held.
    pub fn get_config(&self) -> (c: &OrblyConfig)
        ensures
            *c == self.config(),
    {
        &self.config
    }

    /// Holds `config` in place of the configuration held so far.
    pub fn save_config(&mut self, config: OrblyConfig)
        ensures
            final(self).config() == config,
    {
        self.config = config;
    }

    /// Brings a configuration that was read to the current version. A
    /// version that is not known is left alone.
    pub fn migrate_config(config: &mut OrblyConfig)
        ensures
            *final(config) == (OrblyConfig {
                general: crate::config::models::GeneralConfig {
                    config_version: migrated_version(old(config).general.config_version),
                    ..old(config).general
                },
                ..*old(config)
            }),
    {
        if config.general.config_version == 0 {
            config.general.config_version = 1;
        }
    }

    /// The configuration of instance `app_id`.
    pub fn get_app(&self, app_id: &str) -> (r: Option<AppConfig>)
        ensures
            r == config_of(self.config().apps@, app_id@),
    {
        match crate::config::models::lookup_app(self.config.apps.as_slice(), app_id) {
            Some(app) => Some(app.clone()),
            None => None,
        }
    }

    /// Adds an instance at the end. An instance without a data store id
    /// gets `uuid` as its id.
    pub fn add_app_with(&mut self, app: AppConfig, uuid: u128)
        ensures
            final(self).config() == (OrblyConfig {
                apps: final(self).config().apps,
                ..old(self).config()
            }),
            final(self).config().apps@ == old(self).config().apps@.push(
                if app.data_store_uuid == 0 {
                    AppConfig { data_store_uuid: uuid, ..app }
                } else {
                    app
                },
            ),
    {
        let mut app = app;
        if app.data_store_uuid == 0 {
            app.data_store_uuid = uuid;
        }
        self.config.apps.push(app);
    }

    /// Adds an instance at the end. An instance without a data store id
    /// gets a fresh random one.
    pub fn add_app(&mut self, app: AppConfig)
        ensures
            final(self).config() == (OrblyConfig {
                apps: final(self).config().apps,
                ..old(self).config()
            }),
            final(self).config().apps@.len() == old(self).config().apps@.len() + 1,
            final(self).config().apps@.drop_last() == old(self).config().apps@,
            final(self).config().apps@.last() == (AppConfig {
                data_store_uuid: final(self).config().apps@.last().data_store_uuid,
                ..app
            }),
            final(self).config().apps@.last().data_store_uuid != 0,
            app.data_store_uuid != 0 ==> final(self).config().apps@.last() == app,
    {
        let uuid = new_uuid();
        self.add_app_with(app, uuid);
        assert(self.config().apps@.drop_last() =~= old(self).config().apps@);
    }

    /// Puts `app` in the place of the first instance with its id. Fails,
    /// and changes nothing, where there is none.
    pub fn update_app(&mut self, app: AppConfig) -> (r: Result<(), ConfigError>)
        ensures
            final(self).config() == (OrblyConfig {
                apps: final(self).config().apps,
                ..old(self).config()
            }),
            match r {
                Ok(_) => exists|i: int|
                    is_first_app(old(self).config().apps@, app.id@, i) && final(self).config().apps@ == old(self).config().apps@.update(i, app),
                Err(ConfigError::AppNotFound { app_id }) => app_id@ == app.id@ && config_of(
                    old(self).config().apps@,
                    app.id@,
                ) is None && final(self).config().apps@ == old(self).config().apps@,
            },
    {
        match find_app(self.config.apps.as_slice(), app.id.as_str()) {
            Some(i) => {
                let ghost id = app.id@;
                self.config.apps[i] = app;
                assert(is_first_app(old(self).config().apps@, id, i as int));
                Ok(())
            },
            None => {
                proof {
                    if exists|i: int| is_first_app(self.config.apps@, app.id@, i) {
                        let c = choose|c: int| is_first_app(self.config.apps@, app.id@, c);
                        assert(crate::config::models::app_ids(self.config.apps@)[c] == app.id@);
                    }
                }
                Err(ConfigError::AppNotFound { app_id: app.id.clone() })
            },
        }
    }

    /// Takes the first instance with the id `app_id` out of the
    /// configuration and returns it.
    pub fn remove_app(&mut self, app_id: &str) -> (r: Option<AppConfig>)
        ensures
            final(self).config() == (OrblyConfig {
                apps: final(self).config().apps,
                ..old(self).config()
            }),
            r == config_of(old(self).config().apps@, app_id@),
            match r {
                Some(_) => exists|i: int|
                    is_first_app(old(self).config().apps@, app_id@, i) && final(self).config().apps@ == old(self).config().apps@.remove(i),
                None => final(self).config().apps@ == old(self).config().apps@,
            },
    {
        match find_app(self.config.apps.as_slice(), app_id) {
            Some(i) => {
                proof {
                    assert(is_first_app(self.config.apps@, app_id@, i as int));
                    let c = choose|c: int| is_first_app(self.config.apps@, app_id@, c);
                    if c < i {
                        assert(self.config.apps@[c].id@ != app_id@);
                    }
                    if i < c {
                        assert(self.config.apps@[i as int].id@ != app_id@);
                    }
                }
                Some(self.config.apps.remove(i))
            },
            None => {
                proof {
                    if exists|i: int| is_first_app(self.config.apps@, app_id@, i) {
                        let c = choose|c: int| is_first_app(self.config.apps@, app_id@, c);
                        assert(crate::config::models::app_ids(self.config.apps@)[c] == app_id@);
                    }
                }
                None
            },
        }
    }

    /// Records whether instance `app_id` was put to sleep. Returns whether
    /// the instance is configured.
    pub fn set_hibernated(&mut self, app_id: &str, hibernated: bool) -> (found: bool)
        ensures
            final(self).config() == (OrblyConfig {
                apps: final(self).config().apps,
                ..old(self).config()
            }),
            found == config_of(old(self).config().apps@, app_id@) is Some,
            found ==> exists|i: int|
                is_first_app(old(self).config().apps@, app_id@, i) && final(self).config().apps@
                    == old(self).config().apps@.update(
                    i,
                    AppConfig { hibernated, ..old(self).config().apps@[i] },
                ),
            !found ==> final(self).config().apps@ == old(self).config().apps@,
    {
        match find_app(self.config.apps.as_slice(), app_id) {
            Some(i) => {
                self.config.apps[i].hibernated = hibernated;
                assert(is_first_app(old(self).config().apps@, app_id@, i as int));
                true
            },
            None => {
                proof {
                    if exists|i: int| is_first_app(self.config.apps@, app_id@, i) {
                        let c = choose|c: int| is_first_app(self.config.apps@, app_id@, c);
                        assert(crate::config::models::app_ids(self.config.apps@)[c] == app_id@);
                    }
                }
                false
            },
        }
    }

    /// Records whether instance `app_id` is enabled. An instance that is
    /// enabled counts as awake. Returns whether the instance is configured.
    pub fn set_enabled(&mut self, app_id: &str, enabled: bool) -> (found: bool)
        ensures
            final(self).config() == (OrblyConfig {
                apps: final(self).config().apps,
                ..old(self).config()
            }),
            found == config_of(old(self).config().apps@, app_id@) is Some,
            found ==> exists|i: int|
                is_first_app(old(self).config().apps@, app_id@, i) && final(self).config().apps@
                    == old(self).config().apps@.update(
                    i,
                    AppConfig {
                        enabled,
                        hibernated: if enabled {
                            false
                        } else {
                            old(self).config().apps@[i].hibernated
                        },
                        ..old(self).config().apps@[i]
                    },
                ),
            !found ==> final(self).config().apps@ == old(self).config().apps@,
    {
        match find_app(self.config.apps.as_slice(), app_id) {
            Some(i) => {
                self.config.apps[i].enabled = enabled;
                if enabled {
                    self.config.apps[i].hibernated = false;
                }
                assert(is_first_app(old(self).config().apps@, app_id@, i as int));
                true
            },
            None => {
                proof {
                    if exists|i: int| is_first_app(self.config.apps@, app_id@, i) {
                        let c = choose|c: int| is_first_app(self.config.apps@, app_id@, c);
                        assert(crate::config::models::app_ids(self.config.apps@)[c] == app_id@);
                    }
                }
                false
            },
        }
    }
}

} // verus!
