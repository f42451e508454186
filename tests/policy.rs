use power_policy::{
    Config, ConfigBacklight, ConfigDefaults, ConfigPState, ConfigProfile, ConfigProfiles,
    ConfigThresholds, Mode, PolicyError, Profile, Stored, select_mode,
};

const DEFAULT_DOCUMENT: &str = "# This config is automatically generated by system76-power.

[defaults]
# The default profile that will be set on disconnecting from AC.
battery = 'balanced'
# The default profile that will be set on connecting to AC.
ac = 'performance'
# The last profile that was activated
last_profile = 'balanced'
# Uncomment to enable extra untested power-saving features
# experimental = true

[threshold]
# Defines what percentage of battery is required to set the profile to 'battery'.
crtical = 25
# Defines what percentage of battery is required to revert the critical change.
normal = 50

[profiles.battery]
backlight = { keyboard = 0, screen = 10 }
pstate = { min = 0, max = 50, turbo = false }
# script = '$PATH'

[profiles.balanced]
backlight = { keyboard = 50, screen = 40 }
pstate = { min = 0, max = 100, turbo = true }
# script = '$PATH'

[profiles.performance]
backlight = { keyboard = 100, screen = 100 }
pstate = { min = 50, max = 100, turbo = true }
# script = '$PATH'

";

fn profile_of(v: &toml::Value) -> Profile {
    Profile::parse(v.as_str().unwrap()).unwrap()
}

fn byte_of(v: &toml::Value) -> u8 {
    v.as_integer().unwrap() as u8
}

fn read_profile(v: &toml::Value) -> ConfigProfile {
    ConfigProfile {
        backlight: v.get("backlight").map(|b| ConfigBacklight {
            keyboard: byte_of(&b["keyboard"]),
            screen: byte_of(&b["screen"]),
        }),
        pstate: v.get("pstate").map(|p| ConfigPState {
            min: byte_of(&p["min"]),
            max: byte_of(&p["max"]),
            turbo: p["turbo"].as_bool().unwrap(),
        }),
        script: v.get("battery").map(|s| s.as_str().unwrap().to_string()),
    }
}

fn read_document(bytes: &[u8]) -> Config {
    let text = std::str::from_utf8(bytes).unwrap();
    let doc: toml::Value = text.parse().unwrap();
    let d = &doc["defaults"];
    let t = &doc["threshold"];
    let p = &doc["profiles"];
    Config {
        defaults: ConfigDefaults {
            battery: profile_of(&d["battery"]),
            ac: profile_of(&d["ac"]),
            last_profile: profile_of(&d["last_profile"]),
            experimental: d.get("experimental").map(|e| e.as_bool().unwrap()).unwrap_or(false),
        },
        thresholds: ConfigThresholds { critical: byte_of(&t["crtical"]), normal: byte_of(&t["normal"]) },
        profiles: ConfigProfiles {
            battery: read_profile(&p["battery"]),
            balanced: read_profile(&p["balanced"]),
            performance: read_profile(&p["performance"]),
        },
    }
}

fn custom_config() -> Config {
    Config {
        defaults: ConfigDefaults {
            battery: Profile::Battery,
            ac: Profile::Balanced,
            last_profile: Profile::Performance,
            experimental: true,
        },
        thresholds: ConfigThresholds { critical: 7, normal: 100 },
        profiles: ConfigProfiles {
            battery: ConfigProfile { backlight: None, pstate: None, script: None },
            balanced: ConfigProfile {
                backlight: Some(ConfigBacklight { keyboard: 9, screen: 99 }),
                pstate: None,
                script: Some("/usr/local/bin/balanced.sh".to_string()),
            },
            performance: ConfigProfile {
                backlight: None,
                pstate: Some(ConfigPState { min: 10, max: 90, turbo: false }),
                script: None,
            },
        },
    }
}

#[test]
fn identifiers_round_trip() {
    for p in [Profile::Battery, Profile::Balanced, Profile::Performance] {
        assert_eq!(Profile::parse(p.as_str()), Ok(p));
    }
    assert_eq!(Profile::Battery.as_str(), "battery");
    assert_eq!(Profile::Balanced.as_str(), "balanced");
    assert_eq!(Profile::Performance.as_str(), "performance");
}

#[test]
fn unknown_identifiers_refused() {
    for s in ["", "Battery", "BALANCED", " battery", "performance ", "power-saver", "batter", "balanced\n"] {
        assert_eq!(Profile::parse(s), Err(PolicyError::InvalidProfile));
    }
}

#[test]
fn profiles_listed_in_order() {
    assert_eq!(Profile::all(), vec![Profile::Battery, Profile::Balanced, Profile::Performance]);
    assert_eq!(Profile::ac_default(), Profile::Performance);
    assert_eq!(Profile::battery_default(), Profile::Balanced);
}

#[test]
fn thresholds_must_be_ordered() {
    assert_eq!(ConfigThresholds::new(50, 25), Err(PolicyError::InvalidThresholds));
    assert_eq!(ConfigThresholds::new(25, 25), Err(PolicyError::InvalidThresholds));
    assert_eq!(ConfigThresholds::new(25, 50), Ok(ConfigThresholds { critical: 25, normal: 50 }));
    assert_eq!(ConfigThresholds::new(0, 100), Ok(ConfigThresholds { critical: 0, normal: 100 }));
    assert_eq!(ConfigThresholds::new(255, 0), Err(PolicyError::InvalidThresholds));
    assert_eq!(ConfigThresholds::new(10, 101), Err(PolicyError::InvalidThresholds));
}

#[test]
fn hysteresis_band() {
    let c = Config::default();
    assert_eq!(c.thresholds, ConfigThresholds { critical: 25, normal: 50 });
    assert_eq!(c.resolve_automatic_profile(40, false, Profile::Battery), Profile::Battery);
    assert_eq!(c.resolve_automatic_profile(55, false, Profile::Battery), Profile::Balanced);
    assert_eq!(c.resolve_automatic_profile(10, false, Profile::Balanced), Profile::Battery);
    assert_eq!(c.resolve_automatic_profile(25, false, Profile::Performance), Profile::Battery);
    assert_eq!(c.resolve_automatic_profile(50, false, Profile::Battery), Profile::Balanced);
    assert_eq!(c.resolve_automatic_profile(40, false, Profile::Performance), Profile::Balanced);
    assert_eq!(c.resolve_automatic_profile(10, true, Profile::Battery), Profile::Performance);
}

#[test]
fn missing_document_gives_defaults_to_write() {
    let (config, write) = Config::new(Stored::Missing);
    assert_eq!(config, Config::default());
    assert!(write);
    let (again, write_again) = Config::new(Stored::Parsed(read_document(&config.serialize())));
    assert_eq!(again, Config::default());
    assert!(!write_again);
}

#[test]
fn unreadable_document_gives_defaults_untouched() {
    let (config, write) = Config::new(Stored::Unreadable);
    assert_eq!(config, Config::default());
    assert!(!write);
    assert!("[defaults\nbattery = ".parse::<toml::Value>().is_err());
}

#[test]
fn parsed_document_is_used() {
    let (config, write) = Config::new(Stored::Parsed(custom_config()));
    assert_eq!(config, custom_config());
    assert!(!write);
}

#[test]
fn out_of_range_document_gives_defaults() {
    let mut equal = custom_config();
    equal.thresholds = ConfigThresholds { critical: 50, normal: 50 };
    assert_eq!(Config::new(Stored::Parsed(equal)), (Config::default(), false));
    let mut high = custom_config();
    high.thresholds = ConfigThresholds { critical: 10, normal: 255 };
    assert_eq!(Config::new(Stored::Parsed(high)), (Config::default(), false));
    let mut bright = custom_config();
    bright.profiles.battery.backlight = Some(ConfigBacklight { keyboard: 101, screen: 0 });
    assert_eq!(Config::new(Stored::Parsed(bright)), (Config::default(), false));
    let mut bounds = custom_config();
    bounds.profiles.performance.pstate = Some(ConfigPState { min: 80, max: 20, turbo: true });
    assert_eq!(Config::new(Stored::Parsed(bounds)), (Config::default(), false));
}

#[test]
fn default_document_text() {
    let text = Config::default().serialize();
    assert_eq!(String::from_utf8(text).unwrap(), DEFAULT_DOCUMENT);
}

#[test]
fn default_descriptors() {
    let c = Config::default();
    assert_eq!(c.defaults.battery, Profile::Balanced);
    assert_eq!(c.defaults.ac, Profile::Performance);
    assert_eq!(c.defaults.last_profile, Profile::Balanced);
    assert!(!c.defaults.experimental);
    assert_eq!(c.profiles.battery, ConfigProfile::battery());
    assert_eq!(ConfigBacklight::battery(), ConfigBacklight { keyboard: 0, screen: 10 });
    assert_eq!(ConfigBacklight::balanced(), ConfigBacklight { keyboard: 50, screen: 40 });
    assert_eq!(ConfigBacklight::performance(), ConfigBacklight { keyboard: 100, screen: 100 });
    assert_eq!(ConfigPState::battery(), ConfigPState { min: 0, max: 50, turbo: false });
    assert_eq!(ConfigPState::balanced(), ConfigPState { min: 0, max: 100, turbo: true });
    assert_eq!(ConfigPState::performance(), ConfigPState { min: 50, max: 100, turbo: true });
    assert_eq!(c.profiles.get(Profile::Performance).script, None);
    assert!(c.is_valid());
}

#[test]
fn validity_checks() {
    let mut c = Config::default();
    c.profiles.balanced.pstate = Some(ConfigPState { min: 60, max: 40, turbo: true });
    assert!(!c.is_valid());
    let mut c = Config::default();
    c.profiles.battery.backlight = Some(ConfigBacklight { keyboard: 101, screen: 0 });
    assert!(!c.is_valid());
    let mut c = Config::default();
    c.thresholds = ConfigThresholds { critical: 50, normal: 50 };
    assert!(!c.is_valid());
    let mut c = Config::default();
    c.thresholds = ConfigThresholds { critical: 50, normal: 101 };
    assert!(!c.is_valid());
    assert!(custom_config().is_valid());
}

#[test]
fn serialize_then_parse_round_trip() {
    assert_eq!(read_document(&Config::default().serialize()), Config::default());
    assert_eq!(read_document(&custom_config().serialize()), custom_config());
}

#[test]
fn partial_descriptor_text() {
    let mut out = Vec::new();
    custom_config().profiles.serialize_toml(&mut out);
    let expected = "[profiles.battery]\n# script = '$PATH'\n\n\
        [profiles.balanced]\nbacklight = { keyboard = 9, screen = 99 }\nbattery = '/usr/local/bin/balanced.sh'\n\n\
        [profiles.performance]\npstate = { min = 10, max = 90, turbo = false }\n# script = '$PATH'\n\n";
    assert_eq!(String::from_utf8(out).unwrap(), expected);
}

#[test]
fn numbers_in_decimal() {
    for (n, s) in [(0u8, "0"), (7, "7"), (10, "10"), (99, "99"), (100, "100"), (255, "255")] {
        let mut out = Vec::new();
        ConfigBacklight { keyboard: n, screen: n }.serialize_toml(&mut out);
        assert_eq!(String::from_utf8(out).unwrap(), format!("backlight = {{ keyboard = {}, screen = {} }}\n", s, s));
    }
}

#[test]
fn experimental_switch_text() {
    let mut out = Vec::new();
    let d = ConfigDefaults { experimental: true, ..ConfigDefaults::default() };
    d.serialize_toml(&mut out);
    let text = String::from_utf8(out).unwrap();
    assert!(text.ends_with("\nexperimental = true\n\n"));
}

#[test]
fn set_then_get_profile() {
    let mut c = Config::default();
    c.set_profile(Profile::Performance);
    assert_eq!(c.get_profile(), Profile::Performance);
    let text = String::from_utf8(c.serialize()).unwrap();
    assert!(text.contains("last_profile = 'performance'\n"));
    assert_eq!(read_document(&c.serialize()).defaults.last_profile, Profile::Performance);
}

#[test]
fn set_profile_by_name() {
    let mut c = Config::default();
    assert_eq!(c.set_profile_named("battery"), Ok(()));
    assert_eq!(c.get_profile(), Profile::Battery);
    assert_eq!(c.set_profile_named("Performance"), Err(PolicyError::InvalidProfile));
    assert_eq!(c.get_profile(), Profile::Battery);
    let mut expected = Config::default();
    expected.defaults.last_profile = Profile::Battery;
    assert_eq!(c, expected);
}

#[test]
fn later_change_wins() {
    let mut c = Config::default();
    c.set_profile(Profile::Battery);
    c.set_profile(Profile::Performance);
    assert_eq!(c.get_profile(), Profile::Performance);
    let mut d = Config::default();
    d.set_profile(Profile::Performance);
    assert_eq!(c, d);
}

#[test]
fn error_messages() {
    assert_eq!(PolicyError::InvalidProfile.message(), "invalid profile");
    assert_eq!(
        PolicyError::InvalidThresholds.message(),
        "critical threshold must be below the normal threshold"
    );
}

#[test]
fn daemon_needs_privilege() {
    assert_eq!(select_mode("daemon", true), Ok(Mode::ControlSurface));
    assert_eq!(select_mode("daemon", false), Err(PolicyError::PermissionDenied));
    assert_eq!(select_mode("profile", false), Ok(Mode::Caller));
    assert_eq!(select_mode("config", true), Ok(Mode::Caller));
    assert_eq!(select_mode("Daemon", true), Ok(Mode::Caller));
    assert_eq!(PolicyError::PermissionDenied.message(), "must be run as root");
}

#[test]
fn automatic_switch_steps() {
    let mut c = Config::default();
    assert_eq!(c.automatic_switch(20, false), Some(Profile::Battery));
    assert_eq!(c.get_profile(), Profile::Battery);
    assert_eq!(c.automatic_switch(40, false), None);
    assert_eq!(c.get_profile(), Profile::Battery);
    assert_eq!(c.automatic_switch(60, false), Some(Profile::Balanced));
    assert_eq!(c.automatic_switch(60, true), Some(Profile::Performance));
    assert_eq!(c.automatic_switch(60, true), None);
    assert_eq!(c.get_profile(), Profile::Performance);
}
