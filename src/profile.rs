use vstd::prelude::*;

use crate::error::PolicyError;
use vstd::string::StringSliceAdditionalSpecFns;

verus! {

/// The closed set of named power profiles.
#[derive(Clone, Copy, Debug, PartialEq, Eq, Structural)]
pub enum Profile {
    Battery,
    Balanced,
    Performance,
}

/// The canonical identifier of a profile, as it appears on the wire and on disk.
pub open spec fn profile_id(p: Profile) -> Seq<char> {
    match p {
        Profile::Battery => "battery"@,
        Profile::Balanced => "balanced"@,
        Profile::Performance => "performance"@,
    }
}

/// The profile whose canonical identifier is `s`, if any.
pub open spec fn profile_from_id(s: Seq<char>) -> Result<Profile, PolicyError> {
    if s == "battery"@ {
        Ok(Profile::Battery)
    } else if s == "balanced"@ {
        Ok(Profile::Balanced)
    } else if s == "performance"@ {
        Ok(Profile::Performance)
    } else {
        Err(PolicyError::InvalidProfile)
    }
}

/// Whether `s` is the canonical identifier of some profile.
pub open spec fn is_profile_id(s: Seq<char>) -> bool {
    exists|p: Profile| profile_id(p) == s
}

/// The profiles in their fixed taxonomy order.
pub open spec fn profile_order() -> Seq<Profile> {
    seq![Profile::Battery, Profile::Balanced, Profile::Performance]
}

impl Profile {
    /// The canonical identifier of this profile.
    pub fn as_str(self) -> (r: &'static str)
        ensures
            r@ == profile_id(self),
    {
        match self {
            Profile::Battery => "battery",
            Profile::Balanced => "balanced",
            Profile::Performance => "performance",
        }
    }

    /// Reads a profile from its canonical identifier: exact, case-sensitive, untrimmed.
    pub fn parse(s: &str) -> (r: Result<Profile, PolicyError>)
        ensures
            r == profile_from_id(s@),
    {
        proof {
            reveal_strlit("battery");
            reveal_strlit("balanced");
            reveal_strlit("performance");
        }
        if str_eq(s, "battery") {
            Ok(Profile::Battery)
        } else if str_eq(s, "balanced") {
            Ok(Profile::Balanced)
        } else if str_eq(s, "performance") {
            Ok(Profile::Performance)
        } else {
            Err(PolicyError::InvalidProfile)
        }
    }

    /// The profile chosen by default while on AC power.
    pub fn ac_default() -> (r: Profile)
        ensures
            r == Profile::Performance,
    {
        Profile::Performance
    }

    /// The profile chosen by default while on battery power.
    pub fn battery_default() -> (r: Profile)
        ensures
            r == Profile::Balanced,
    {
        Profile::Balanced
    }

    /// Every profile, in the fixed taxonomy order.
    pub fn all() -> (r: Vec<Profile>)
        ensures
            r@ == profile_order(),
    {
        let v = vec![Profile::Battery, Profile::Balanced, Profile::Performance];
        assert(v@ =~= profile_order());
        v
    }
}

/// Character-by-character equality of two strings.
pub(crate) fn str_eq(a: &str, b: &str) -> (r: bool)
    ensures
        r == (a@ == b@),
{
    let ab = a.as_bytes();
    let bb = b.as_bytes();
    if ab.len() != bb.len() {
        return false;
    }
    let mut i: usize = 0;
    while i < ab.len()
        invariant
            ab@ == a.spec_bytes(),
            bb@ == b.spec_bytes(),
            ab@.len() == bb@.len(),
            0 <= i <= ab@.len(),
            forall|j: int| 0 <= j < i ==> ab@[j] == bb@[j],
        decreases ab@.len() - i,
    {
        if ab[i] != bb[i] {
            return false;
        }
        i = i + 1;
    }
    assert(ab@ =~= bb@);
    proof {
        vstd::utf8::encode_utf8_decode_utf8(a@);
        vstd::utf8::encode_utf8_decode_utf8(b@);
    }
    true
}

} // verus!
