use vstd::prelude::*;

use vstd::string::StringSliceAdditionalSpecFns;
use vstd::utf8::encode_utf8;

use crate::config::{
    Config, ConfigBacklight, ConfigDefaults, ConfigPState, ConfigProfile, ConfigProfiles,
    ConfigThresholds,
};
use crate::profile::{Profile, profile_id};

verus! {

/// The decimal digits of `n`, most significant first, as ASCII bytes.
pub open spec fn decimal(n: nat) -> Seq<u8>
    decreases n,
{
    if n < 10 {
        seq![(48 + n) as u8]
    } else {
        decimal(n / 10).push((48 + n % 10) as u8)
    }
}

/// The bytes of a boolean as the document writes it.
pub open spec fn bool_text(b: bool) -> Seq<u8> {
    if b {
        "true".spec_bytes()
    } else {
        "false".spec_bytes()
    }
}

/// The bytes of a profile's identifier.
pub open spec fn id_text(p: Profile) -> Seq<u8> {
    encode_utf8(profile_id(p))
}

/// The line that records the active profile.
pub open spec fn last_profile_line(p: Profile) -> Seq<u8> {
    "last_profile = '".spec_bytes() + id_text(p) + "'\n".spec_bytes()
}

/// The `[defaults]` section.
pub open spec fn defaults_text(d: ConfigDefaults) -> Seq<u8> {
    defaults_head(d) + last_profile_line(d.last_profile) + experimental_text(d.experimental)
}

/// The `[defaults]` section up to the line of the active profile.
pub open spec fn defaults_head(d: ConfigDefaults) -> Seq<u8> {
    "[defaults]\n# The default profile that will be set on disconnecting from AC.\nbattery = '".spec_bytes()
        + id_text(d.battery)
        + "'\n# The default profile that will be set on connecting to AC.\nac = '".spec_bytes()
        + id_text(d.ac)
        + "'\n# The last profile that was activated\n".spec_bytes()
}

/// The experimental switch, commented out when it is off.
pub open spec fn experimental_text(on: bool) -> Seq<u8> {
    if on {
        "# Uncomment to enable extra untested power-saving features\nexperimental = true\n\n".spec_bytes()
    } else {
        "# Uncomment to enable extra untested power-saving features\n# experimental = true\n\n".spec_bytes()
    }
}

/// The `[threshold]` section; the key `crtical` is spelled as deployed documents have it.
pub open spec fn thresholds_text(t: ConfigThresholds) -> Seq<u8> {
    "[threshold]\n# Defines what percentage of battery is required to set the profile to 'battery'.\ncrtical = ".spec_bytes()
        + decimal(t.critical as nat)
        + "\n# Defines what percentage of battery is required to revert the critical change.\nnormal = ".spec_bytes()
        + decimal(t.normal as nat)
        + "\n\n".spec_bytes()
}

/// The `backlight` line of a profile section.
pub open spec fn backlight_text(b: ConfigBacklight) -> Seq<u8> {
    "backlight = { keyboard = ".spec_bytes() + decimal(b.keyboard as nat) + ", screen = ".spec_bytes()
        + decimal(b.screen as nat) + " }\n".spec_bytes()
}

/// The `pstate` line of a profile section.
pub open spec fn pstate_text(p: ConfigPState) -> Seq<u8> {
    "pstate = { min = ".spec_bytes() + decimal(p.min as nat) + ", max = ".spec_bytes() + decimal(p.max as nat)
        + ", turbo = ".spec_bytes() + bool_text(p.turbo) + " }\n".spec_bytes()
}

/// The `backlight` line, if there is a backlight setting.
pub open spec fn backlight_part(b: Option<ConfigBacklight>) -> Seq<u8> {
    if let Some(b) = b { backlight_text(b) } else { Seq::empty() }
}

/// The `pstate` line, if there are performance-state bounds.
pub open spec fn pstate_part(p: Option<ConfigPState>) -> Seq<u8> {
    if let Some(p) = p { pstate_text(p) } else { Seq::empty() }
}

/// The script line, commented out when there is no script.
pub open spec fn script_part(s: Option<String>) -> Seq<u8> {
    if let Some(s) = s {
        "battery = '".spec_bytes() + encode_utf8(s@) + "'\n".spec_bytes()
    } else {
        "# script = '$PATH'\n".spec_bytes()
    }
}

/// The body of one profile section: only the parts that are present, then the
/// script line, then a blank line.
pub open spec fn profile_text(c: ConfigProfile) -> Seq<u8> {
    backlight_part(c.backlight) + pstate_part(c.pstate) + script_part(c.script) + "\n".spec_bytes()
}

/// The three profile sections, in taxonomy order.
pub open spec fn profiles_text(p: ConfigProfiles) -> Seq<u8> {
    "[profiles.battery]\n".spec_bytes() + profile_text(p.battery)
        + "[profiles.balanced]\n".spec_bytes() + profile_text(p.balanced)
        + "[profiles.performance]\n".spec_bytes() + profile_text(p.performance)
}

/// The header comment of the document.
pub open spec fn header_text() -> Seq<u8> {
    "# This config is automatically generated by system76-power.\n\n".spec_bytes()
}

/// The whole persisted document.
pub open spec fn document_text(c: Config) -> Seq<u8> {
    header_text() + defaults_text(c.defaults) + thresholds_text(c.thresholds) + profiles_text(c.profiles)
}

/// Appends the UTF-8 bytes of `s`.
pub(crate) fn emit(out: &mut Vec<u8>, s: &str)
    ensures
        final(out)@ == old(out)@ + s.spec_bytes(),
{
    let b = s.as_bytes();
    let mut i: usize = 0;
    while i < b.len()
        invariant
            b@ == s.spec_bytes(),
            0 <= i <= b@.len(),
            out@ == old(out)@ + b@.subrange(0, i as int),
        decreases b@.len() - i,
    {
        out.push(b[i]);
        i = i + 1;
        assert(b@.subrange(0, i as int) =~= b@.subrange(0, i - 1).push(b@[i - 1]));
    }
    assert(b@.subrange(0, i as int) =~= b@);
}

/// Appends `n` in decimal.
pub(crate) fn emit_u8(out: &mut Vec<u8>, n: u8)
    ensures
        final(out)@ == old(out)@ + decimal(n as nat),
{
    proof {
        reveal_with_fuel(decimal, 3);
    }
    let start = Ghost(out@);
    if n >= 100 {
        out.push(48u8 + n / 100);
    }
    if n >= 10 {
        out.push(48u8 + (n / 10) % 10);
    }
    out.push(48u8 + n % 10);
    proof {
        let d = decimal(n as nat);
        if n >= 100 {
            assert(((n / 10) as nat) / 10 == (n / 100) as nat);
            assert(d =~= seq![(48 + n / 100) as u8, (48 + (n / 10) % 10) as u8, (48 + n % 10) as u8]);
        } else if n >= 10 {
            assert(d =~= seq![(48 + n / 10) as u8, (48 + n % 10) as u8]);
        } else {
            assert(d =~= seq![(48 + n) as u8]);
        }
        assert(out@ =~= start@ + d);
    }
}

/// Appends `true` or `false`.
pub(crate) fn emit_bool(out: &mut Vec<u8>, b: bool)
    ensures
        final(out)@ == old(out)@ + bool_text(b),
{
    if b {
        emit(out, "true");
    } else {
        emit(out, "false");
    }
}

impl ConfigDefaults {
    pub fn serialize_toml(&self, out: &mut Vec<u8>)
        ensures
            final(out)@ == old(out)@ + defaults_text(*self),
    {
        let ghost start = out@;
        emit(out, "[defaults]\n# The default profile that will be set on disconnecting from AC.\nbattery = '");
        emit(out, self.battery.as_str());
        emit(out, "'\n# The default profile that will be set on connecting to AC.\nac = '");
        emit(out, self.ac.as_str());
        emit(out, "'\n# The last profile that was activated\n");
        let ghost head = out@;
        emit(out, "last_profile = '");
        emit(out, self.last_profile.as_str());
        emit(out, "'\n");
        let ghost line = out@;
        if self.experimental {
            emit(out, "# Uncomment to enable extra untested power-saving features\nexperimental = true\n\n");
        } else {
            emit(out, "# Uncomment to enable extra untested power-saving features\n# experimental = true\n\n");
        }
        proof {
            let d = *self;
            assert(head =~= start + defaults_head(d));
            assert(line =~= start + defaults_head(d) + last_profile_line(d.last_profile));
            assert(out@ =~= old(out)@ + defaults_text(d));
        }
    }
}

impl ConfigThresholds {
    pub fn serialize_toml(&self, out: &mut Vec<u8>)
        ensures
            final(out)@ == old(out)@ + thresholds_text(*self),
    {
        emit(out, "[threshold]\n# Defines what percentage of battery is required to set the profile to 'battery'.\ncrtical = ");
        emit_u8(out, self.critical);
        emit(out, "\n# Defines what percentage of battery is required to revert the critical change.\nnormal = ");
        emit_u8(out, self.normal);
        emit(out, "\n\n");
        assert(out@ =~= old(out)@ + thresholds_text(*self));
    }
}

impl ConfigBacklight {
    pub fn serialize_toml(&self, out: &mut Vec<u8>)
        ensures
            final(out)@ == old(out)@ + backlight_text(*self),
    {
        emit(out, "backlight = { keyboard = ");
        emit_u8(out, self.keyboard);
        emit(out, ", screen = ");
        emit_u8(out, self.screen);
        emit(out, " }\n");
        assert(out@ =~= old(out)@ + backlight_text(*self));
    }
}

impl ConfigPState {
    pub fn serialize_toml(&self, out: &mut Vec<u8>)
        ensures
            final(out)@ == old(out)@ + pstate_text(*self),
    {
        emit(out, "pstate = { min = ");
        emit_u8(out, self.min);
        emit(out, ", max = ");
        emit_u8(out, self.max);
        emit(out, ", turbo = ");
        emit_bool(out, self.turbo);
        emit(out, " }\n");
        assert(out@ =~= old(out)@ + pstate_text(*self));
    }
}

impl ConfigProfile {
    pub fn serialize_toml(&self, out: &mut Vec<u8>)
        ensures
            final(out)@ == old(out)@ + profile_text(*self),
    {
        let ghost start = out@;
        if let Some(b) = &self.backlight {
            b.serialize_toml(out);
        }
        assert(out@ =~= start + backlight_part(self.backlight));
        let ghost after_backlight = out@;
        if let Some(p) = &self.pstate {
            p.serialize_toml(out);
        }
        assert(out@ =~= after_backlight + pstate_part(self.pstate));
        let ghost after_pstate = out@;
        match &self.script {
            Some(script) => {
                emit(out, "battery = '");
                emit(out, script.as_str());
                emit(out, "'\n");
            },
            None => {
                emit(out, "# script = '$PATH'\n");
            },
        }
        assert(out@ =~= after_pstate + script_part(self.script));
        emit(out, "\n");
        proof {
            assert(out@ =~= old(out)@ + profile_text(*self));
        }
    }
}

impl ConfigProfiles {
    pub fn serialize_toml(&self, out: &mut Vec<u8>)
        ensures
            final(out)@ == old(out)@ + profiles_text(*self),
    {
        emit(out, "[profiles.battery]\n");
        self.battery.serialize_toml(out);
        emit(out, "[profiles.balanced]\n");
        self.balanced.serialize_toml(out);
        emit(out, "[profiles.performance]\n");
        self.performance.serialize_toml(out);
        assert(out@ =~= old(out)@ + profiles_text(*self));
    }
}

impl Config {
    /// The persisted document: a header comment, then the defaults, the
    /// thresholds and one section per profile in taxonomy order.
    pub fn serialize(&self) -> (r: Vec<u8>)
        ensures
            r@ == document_text(*self),
    {
        let mut out: Vec<u8> = Vec::with_capacity(8192);
        emit(&mut out, "# This config is automatically generated by system76-power.\n\n");
        self.defaults.serialize_toml(&mut out);
        self.thresholds.serialize_toml(&mut out);
        self.profiles.serialize_toml(&mut out);
        assert(out@ =~= document_text(*self));
        out
    }
}

} // verus!
