use vstd::prelude::*;

use crate::error::PolicyError;
use crate::profile::{Profile, profile_from_id};

verus! {

/// The whole persisted power policy: defaults, thresholds and per-profile tuning.
#[derive(Clone, Debug, PartialEq, Eq)]
pub struct Config {
    pub defaults: ConfigDefaults,
    pub thresholds: ConfigThresholds,
    pub profiles: ConfigProfiles,
}

/// Which profile to use on each power source, and the last one activated.
#[derive(Clone, Copy, Debug, PartialEq, Eq, Structural)]
pub struct ConfigDefaults {
    pub battery: Profile,
    pub ac: Profile,
    pub last_profile: Profile,
    pub experimental: bool,
}

/// Battery percentages that drive automatic switching to the power-saving profile.
#[derive(Clone, Copy, Debug, PartialEq, Eq, Structural)]
pub struct ConfigThresholds {
    pub critical: u8,
    pub normal: u8,
}

/// One tuning descriptor for each profile.
#[derive(Clone, Debug, PartialEq, Eq)]
pub struct ConfigProfiles {
    pub battery: ConfigProfile,
    pub balanced: ConfigProfile,
    pub performance: ConfigProfile,
}

/// Hardware directives of one profile; an absent part leaves that subsystem untouched.
#[derive(Clone, Debug, PartialEq, Eq)]
pub struct ConfigProfile {
    pub backlight: Option<ConfigBacklight>,
    pub pstate: Option<ConfigPState>,
    pub script: Option<String>,
}

/// Keyboard and screen backlight levels, in percent.
#[derive(Clone, Copy, Debug, PartialEq, Eq, Structural)]
pub struct ConfigBacklight {
    pub keyboard: u8,
    pub screen: u8,
}

/// CPU performance-state bounds, in percent, and whether turbo is allowed.
#[derive(Clone, Copy, Debug, PartialEq, Eq, Structural)]
pub struct ConfigPState {
    pub min: u8,
    pub max: u8,
    pub turbo: bool,
}

/// What was found where the configuration document is kept.
#[derive(Clone, Debug, PartialEq, Eq)]
pub enum Stored {
    /// No document exists.
    Missing,
    /// A document exists but could not be read or parsed.
    Unreadable,
    /// A document was read and parsed into this configuration.
    Parsed(Config),
}

pub open spec fn default_backlight(p: Profile) -> ConfigBacklight {
    match p {
        Profile::Battery => ConfigBacklight { keyboard: 0, screen: 10 },
        Profile::Balanced => ConfigBacklight { keyboard: 50, screen: 40 },
        Profile::Performance => ConfigBacklight { keyboard: 100, screen: 100 },
    }
}

pub open spec fn default_pstate(p: Profile) -> ConfigPState {
    match p {
        Profile::Battery => ConfigPState { min: 0, max: 50, turbo: false },
        Profile::Balanced => ConfigPState { min: 0, max: 100, turbo: true },
        Profile::Performance => ConfigPState { min: 50, max: 100, turbo: true },
    }
}

pub open spec fn default_profile(p: Profile) -> ConfigProfile {
    ConfigProfile {
        backlight: Some(default_backlight(p)),
        pstate: Some(default_pstate(p)),
        script: None,
    }
}

pub open spec fn default_defaults() -> ConfigDefaults {
    ConfigDefaults {
        battery: Profile::Balanced,
        ac: Profile::Performance,
        last_profile: Profile::Balanced,
        experimental: false,
    }
}

pub open spec fn default_thresholds() -> ConfigThresholds {
    ConfigThresholds { critical: 25, normal: 50 }
}

pub open spec fn default_profiles() -> ConfigProfiles {
    ConfigProfiles {
        battery: default_profile(Profile::Battery),
        balanced: default_profile(Profile::Balanced),
        performance: default_profile(Profile::Performance),
    }
}

/// The compiled-in configuration.
pub open spec fn default_config() -> Config {
    Config {
        defaults: default_defaults(),
        thresholds: default_thresholds(),
        profiles: default_profiles(),
    }
}

/// The profile that automatic switching selects, with hysteresis between the
/// critical and the normal battery level.
pub open spec fn automatic_profile(
    c: Config,
    battery_percent: u8,
    on_ac: bool,
    last_profile: Profile,
) -> Profile {
    if !on_ac && battery_percent <= c.thresholds.critical {
        Profile::Battery
    } else if !on_ac && last_profile == Profile::Battery && battery_percent < c.thresholds.normal {
        Profile::Battery
    } else if on_ac {
        c.defaults.ac
    } else {
        c.defaults.battery
    }
}

impl ConfigBacklight {
    pub open spec fn wf(self) -> bool {
        self.keyboard <= 100 && self.screen <= 100
    }

    pub fn battery() -> (r: Self)
        ensures
            r == default_backlight(Profile::Battery),
    {
        ConfigBacklight { keyboard: 0, screen: 10 }
    }

    pub fn balanced() -> (r: Self)
        ensures
            r == default_backlight(Profile::Balanced),
    {
        ConfigBacklight { keyboard: 50, screen: 40 }
    }

    pub fn performance() -> (r: Self)
        ensures
            r == default_backlight(Profile::Performance),
    {
        ConfigBacklight { keyboard: 100, screen: 100 }
    }
}

impl ConfigPState {
    pub open spec fn wf(self) -> bool {
        self.min <= self.max <= 100
    }

    pub fn battery() -> (r: Self)
        ensures
            r == default_pstate(Profile::Battery),
    {
        ConfigPState { min: 0, max: 50, turbo: false }
    }

    pub fn balanced() -> (r: Self)
        ensures
            r == default_pstate(Profile::Balanced),
    {
        ConfigPState { min: 0, max: 100, turbo: true }
    }

    pub fn performance() -> (r: Self)
        ensures
            r == default_pstate(Profile::Performance),
    {
        ConfigPState { min: 50, max: 100, turbo: true }
    }
}

impl ConfigProfile {
    pub open spec fn wf(self) -> bool {
        &&& (self.backlight matches Some(b) ==> b.wf())
        &&& (self.pstate matches Some(p) ==> p.wf())
    }

    pub fn battery() -> (r: Self)
        ensures
            r == default_profile(Profile::Battery),
    {
        ConfigProfile {
            backlight: Some(ConfigBacklight::battery()),
            pstate: Some(ConfigPState::battery()),
            script: None,
        }
    }

    pub fn balanced() -> (r: Self)
        ensures
            r == default_profile(Profile::Balanced),
    {
        ConfigProfile {
            backlight: Some(ConfigBacklight::balanced()),
            pstate: Some(ConfigPState::balanced()),
            script: None,
        }
    }

    pub fn performance() -> (r: Self)
        ensures
            r == default_profile(Profile::Performance),
    {
        ConfigProfile {
            backlight: Some(ConfigBacklight::performance()),
            pstate: Some(ConfigPState::performance()),
            script: None,
        }
    }

    /// Whether every present part of this descriptor is within its bounds.
    pub fn is_valid(&self) -> (r: bool)
        ensures
            r == self.wf(),
    {
        let backlight_ok = match &self.backlight {
            Some(b) => b.keyboard <= 100 && b.screen <= 100,
            None => true,
        };
        let pstate_ok = match &self.pstate {
            Some(p) => p.min <= p.max && p.max <= 100,
            None => true,
        };
        backlight_ok && pstate_ok
    }
}

impl ConfigProfiles {
    pub open spec fn wf(self) -> bool {
        self.battery.wf() && self.balanced.wf() && self.performance.wf()
    }

    /// The descriptor that belongs to `p`.
    pub open spec fn spec_get(self, p: Profile) -> ConfigProfile {
        match p {
            Profile::Battery => self.battery,
            Profile::Balanced => self.balanced,
            Profile::Performance => self.performance,
        }
    }

    /// The descriptor that belongs to `profile`.
    pub fn get(&self, profile: Profile) -> (r: &ConfigProfile)
        ensures
            *r == self.spec_get(profile),
    {
        match profile {
            Profile::Battery => &self.battery,
            Profile::Balanced => &self.balanced,
            Profile::Performance => &self.performance,
        }
    }
}

impl Default for ConfigProfiles {
    fn default() -> (r: Self)
        ensures
            r == default_profiles(),
    {
        ConfigProfiles {
            battery: ConfigProfile::battery(),
            balanced: ConfigProfile::balanced(),
            performance: ConfigProfile::performance(),
        }
    }
}

impl Default for ConfigDefaults {
    fn default() -> (r: Self)
        ensures
            r == default_defaults(),
    {
        ConfigDefaults {
            battery: Profile::battery_default(),
            ac: Profile::ac_default(),
            last_profile: Profile::battery_default(),
            experimental: false,
        }
    }
}

impl ConfigThresholds {
    pub open spec fn wf(self) -> bool {
        self.critical < self.normal <= 100
    }

    /// Builds a threshold pair; the critical level must lie below the normal one,
    /// and both are percentages.
    pub fn new(critical: u8, normal: u8) -> (r: Result<ConfigThresholds, PolicyError>)
        ensures
            r matches Ok(t) <==> critical < normal <= 100,
            r matches Ok(t) ==> t.critical == critical && t.normal == normal,
            r matches Err(e) ==> e == PolicyError::InvalidThresholds,
    {
        if critical < normal && normal <= 100 {
            Ok(ConfigThresholds { critical, normal })
        } else {
            Err(PolicyError::InvalidThresholds)
        }
    }
}

impl Default for ConfigThresholds {
    fn default() -> (r: Self)
        ensures
            r == default_thresholds(),
    {
        ConfigThresholds { critical: 25, normal: 50 }
    }
}

impl Default for Config {
    fn default() -> (r: Self)
        ensures
            r == default_config(),
    {
        Config {
            defaults: ConfigDefaults::default(),
            thresholds: ConfigThresholds::default(),
            profiles: ConfigProfiles::default(),
        }
    }
}

impl Config {
    pub open spec fn wf(self) -> bool {
        self.thresholds.wf() && self.profiles.wf()
    }

    /// Decides which configuration to run with, given what was found on disk, and
    /// whether it should be written out.
    ///
    /// A missing document yields the compiled-in defaults, to be written out. An
    /// unreadable one yields the defaults too, and is never overwritten. A parsed
    /// one is used when every value lies within its bounds; otherwise it is
    /// treated as unreadable.
    pub fn new(stored: Stored) -> (r: (Config, bool))
        ensures
            match stored {
                Stored::Missing => r.0 == default_config() && r.1,
                Stored::Unreadable => r.0 == default_config() && !r.1,
                Stored::Parsed(c) => r.0 == (if c.wf() { c } else { default_config() }) && !r.1,
            },
    {
        match stored {
            Stored::Missing => (Config::default(), true),
            Stored::Unreadable => (Config::default(), false),
            Stored::Parsed(c) => {
                if c.is_valid() {
                    (c, false)
                } else {
                    (Config::default(), false)
                }
            },
        }
    }

    /// Whether thresholds and every descriptor are within their bounds.
    pub fn is_valid(&self) -> (r: bool)
        ensures
            r == self.wf(),
    {
        self.thresholds.critical < self.thresholds.normal && self.thresholds.normal <= 100
            && self.profiles.battery.is_valid() && self.profiles.balanced.is_valid()
            && self.profiles.performance.is_valid()
    }

    /// The profile that automatic switching selects for the given battery level,
    /// power source and previously active profile.
    pub fn resolve_automatic_profile(&self, battery_percent: u8, on_ac: bool, last_profile: Profile) -> (r: Profile)
        ensures
            r == automatic_profile(*self, battery_percent, on_ac, last_profile),
    {
        if !on_ac && battery_percent <= self.thresholds.critical {
            Profile::Battery
        } else if !on_ac && last_profile == Profile::Battery && battery_percent < self.thresholds.normal {
            Profile::Battery
        } else if on_ac {
            self.defaults.ac
        } else {
            self.defaults.battery
        }
    }

    /// One step of automatic switching: resolves the profile for the given
    /// battery level and power source against the active profile, records it,
    /// and returns it when it differs from the one that was active.
    pub fn automatic_switch(&mut self, battery_percent: u8, on_ac: bool) -> (r: Option<Profile>)
        ensures
            ({
                let next = automatic_profile(*old(self), battery_percent, on_ac, old(self).defaults.last_profile);
                &&& *final(self) == old(self).with_last_profile(next)
                &&& r == if next == old(self).defaults.last_profile { None } else { Some(next) }
            }),
    {
        let last = self.defaults.last_profile;
        let next = self.resolve_automatic_profile(battery_percent, on_ac, last);
        self.set_profile(next);
        if next == last {
            None
        } else {
            Some(next)
        }
    }

    /// The active profile.
    pub fn get_profile(&self) -> (r: Profile)
        ensures
            r == self.defaults.last_profile,
    {
        self.defaults.last_profile
    }

    /// This configuration with `p` recorded as the active profile.
    pub open spec fn with_last_profile(self, p: Profile) -> Config {
        Config { defaults: ConfigDefaults { last_profile: p, ..self.defaults }, ..self }
    }

    /// Records `profile` as the active profile; nothing else changes.
    pub fn set_profile(&mut self, profile: Profile)
        ensures
            *final(self) == old(self).with_last_profile(profile),
    {
        self.defaults.last_profile = profile;
    }

    /// Records the profile named `name` as the active profile. An unknown name
    /// is refused and changes nothing.
    pub fn set_profile_named(&mut self, name: &str) -> (r: Result<(), PolicyError>)
        ensures
            match profile_from_id(name@) {
                Ok(p) => r is Ok && *final(self) == old(self).with_last_profile(p),
                Err(e) => r == Err::<(), PolicyError>(e) && *final(self) == *old(self),
            },
    {
        match Profile::parse(name) {
            Ok(p) => {
                self.set_profile(p);
                Ok(())
            },
            Err(e) => Err(e),
        }
    }
}

} // verus!
