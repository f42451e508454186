use vstd::prelude::*;

use crate::config::{Config, automatic_profile, default_config};
use crate::document::{
    defaults_head, document_text, experimental_text, header_text, last_profile_line,
    profiles_text, thresholds_text,
};
use crate::error::PolicyError;
use crate::profile::{Profile, is_profile_id, profile_from_id, profile_id};

verus! {

/// Reading back the identifier of any profile gives that profile.
pub proof fn lemma_identifier_round_trip(p: Profile)
    ensures
        profile_from_id(profile_id(p)) == Ok::<Profile, PolicyError>(p),
{
    reveal_strlit("battery");
    reveal_strlit("balanced");
    reveal_strlit("performance");
    assert("battery"@.len() == 7);
    assert("balanced"@.len() == 8);
    assert("performance"@.len() == 11);
}

/// A string that is not one of the canonical identifiers (another case, added
/// whitespace, anything else) is refused as an invalid profile.
pub proof fn lemma_unknown_identifier_refused(s: Seq<char>)
    requires
        !is_profile_id(s),
    ensures
        profile_from_id(s) == Err::<Profile, PolicyError>(PolicyError::InvalidProfile),
{
    if s == "battery"@ {
        assert(profile_id(Profile::Battery) == s);
    } else if s == "balanced"@ {
        assert(profile_id(Profile::Balanced) == s);
    } else if s == "performance"@ {
        assert(profile_id(Profile::Performance) == s);
    }
}

/// The compiled-in configuration satisfies every invariant of its parts.
pub proof fn lemma_default_config_valid()
    ensures
        default_config().wf(),
{
}

/// On battery power: at or below the critical level the power-saving profile is
/// forced; between the critical and the normal level it is kept if it was
/// active; at or above the normal level the battery default applies.
pub proof fn lemma_hysteresis(c: Config, battery_percent: u8, last_profile: Profile)
    ensures
        battery_percent <= c.thresholds.critical ==> automatic_profile(c, battery_percent, false, last_profile)
            == Profile::Battery,
        c.thresholds.critical < battery_percent < c.thresholds.normal && last_profile == Profile::Battery
            ==> automatic_profile(c, battery_percent, false, last_profile) == Profile::Battery,
        c.thresholds.critical < battery_percent && c.thresholds.normal <= battery_percent
            ==> automatic_profile(c, battery_percent, false, last_profile) == c.defaults.battery,
        automatic_profile(c, battery_percent, true, last_profile) == c.defaults.ac,
{
}

/// Of two profile changes in a row, the later one alone determines the result:
/// the earlier one leaves no trace.
pub proof fn lemma_last_change_wins(c: Config, first: Profile, second: Profile)
    ensures
        c.with_last_profile(first).with_last_profile(second) == c.with_last_profile(second),
        c.with_last_profile(first).with_last_profile(second).defaults.last_profile == second,
{
}

/// Whether `needle` occurs in `hay` at some position.
pub open spec fn occurs_in(needle: Seq<u8>, hay: Seq<u8>) -> bool {
    exists|i: int| 0 <= i <= hay.len() - needle.len() && #[trigger] hay.subrange(i, i + needle.len()) == needle
}

/// The persisted document of a configuration in which `p` was made the active
/// profile records `p` on its `last_profile` line.
pub proof fn lemma_document_records_profile(c: Config, p: Profile)
    ensures
        occurs_in(last_profile_line(p), document_text(c.with_last_profile(p))),
{
    let d = c.with_last_profile(p);
    lemma_occurs_within(
        header_text(),
        defaults_head(d.defaults),
        last_profile_line(p),
        experimental_text(d.defaults.experimental),
        thresholds_text(d.thresholds),
        profiles_text(d.profiles),
    );
}

proof fn lemma_occurs_within(a: Seq<u8>, b: Seq<u8>, n: Seq<u8>, c: Seq<u8>, t: Seq<u8>, q: Seq<u8>)
    ensures
        occurs_in(n, a + (b + n + c) + t + q),
{
    let whole = a + (b + n + c) + t + q;
    let i: int = (a.len() + b.len()) as int;
    assert(whole.subrange(i, i + n.len()) =~= n);
}

} // verus!
