//! SettingsService: the application settings and the service that holds
//! them. Reading and writing the TOML file is done by the caller, which
//! hands the service what it parsed.

use vstd::prelude::*;

verus! {

/// Application settings.
#[derive(Debug)]
pub struct AppSettings {
    pub engine_dir: String,
    pub socks_port: u16,
    pub auto_start: bool,
    pub check_interval_secs: u64,
    pub evolution_interval_mins: u64,
    pub max_parallel_checks: usize,
    pub probe_timeout_secs: u64,
    pub log_level: String,
    pub auto_update: bool,
    pub update_channel: String,
}

/// The settings hold their default values.
pub open spec fn is_default_settings(s: AppSettings) -> bool {
    &&& s.engine_dir@ == "engine"@
    &&& s.socks_port == 1080
    &&& s.auto_start
    &&& s.check_interval_secs == 30
    &&& s.evolution_interval_mins == 60
    &&& s.max_parallel_checks == 6
    &&& s.probe_timeout_secs == 5
    &&& s.log_level@ == "info"@
    &&& s.auto_update
    &&& s.update_channel@ == "stable"@
}

impl Default for AppSettings {
    fn default() -> (r: Self)
        ensures
            is_default_settings(r),
    {
        AppSettings {
            engine_dir: String::from_str("engine"),
            socks_port: 1080,
            auto_start: true,
            check_interval_secs: 30,
            evolution_interval_mins: 60,
            max_parallel_checks: 6,
            probe_timeout_secs: 5,
            log_level: String::from_str("info"),
            auto_update: true,
            update_channel: String::from_str("stable"),
        }
    }
}

impl Clone for AppSettings {
    fn clone(&self) -> (r: Self)
        ensures
            r == *self,
    {
        AppSettings {
            engine_dir: self.engine_dir.clone(),
            socks_port: self.socks_port,
            auto_start: self.auto_start,
            check_interval_secs: self.check_interval_secs,
            evolution_interval_mins: self.evolution_interval_mins,
            max_parallel_checks: self.max_parallel_checks,
            probe_timeout_secs: self.probe_timeout_secs,
            log_level: self.log_level.clone(),
            auto_update: self.auto_update,
            update_channel: self.update_channel.clone(),
        }
    }
}

/// The settings service: a settings file path and the settings in use.
pub struct SettingsService {
    path: String,
    settings: AppSettings,
}

impl SettingsService {
    pub closed spec fn spec_path(&self) -> Seq<char> {
        self.path@
    }

    pub closed spec fn spec_settings(&self) -> AppSettings {
        self.settings
    }

    /// A service for the file at `path`, with the settings read from it:
    /// `loaded` is what parsing the file gave, `None` when it is missing or
    /// unreadable, and then the defaults apply.
    pub fn new(path: String, loaded: Option<AppSettings>) -> (r: Self)
        ensures
            r.spec_path() == path@,
            loaded matches Some(s) ==> r.spec_settings() == s,
            loaded is None ==> is_default_settings(r.spec_settings()),
    {
        let settings = match loaded {
            Some(s) => s,
            None => AppSettings::default(),
        };
        SettingsService { path, settings }
    }

    /// The path of the settings file.
    pub fn path(&self) -> (r: &str)
        ensures
            r@ == self.spec_path(),
    {
        self.path.as_str()
    }

    /// The settings in use.
    pub fn get(&self) -> (r: &AppSettings)
        ensures
            *r == self.spec_settings(),
    {
        &self.settings
    }

    /// The settings in use, for changing.
    pub fn get_mut(&mut self) -> (r: &mut AppSettings)
        ensures
            *r == old(self).spec_settings(),
            final(self).spec_settings() == *final(r),
            final(self).spec_path() == old(self).spec_path(),
    {
        &mut self.settings
    }

    /// Takes the settings read again from the file: `loaded` is what parsing
    /// gave, `None` when the file is missing or unreadable, and then the
    /// settings stay as they are.
    pub fn reload(&mut self, loaded: Option<AppSettings>)
        ensures
            final(self).spec_path() == old(self).spec_path(),
            loaded matches Some(s) ==> final(self).spec_settings() == s,
            loaded is None ==> final(self).spec_settings() == old(self).spec_settings(),
    {
        if let Some(s) = loaded {
            self.settings = s;
        }
    }
}

} // verus!
