use vstd::prelude::*;

verus! {

/// Errors that come from invalid caller input; none of them changes any state.
#[derive(Clone, Copy, Debug, PartialEq, Eq, Structural)]
pub enum PolicyError {
    /// A profile name that is not one of the canonical identifiers.
    InvalidProfile,
    /// A threshold pair whose critical level is not below its normal level.
    InvalidThresholds,
    /// The control surface was started without elevated privileges.
    PermissionDenied,
}

impl PolicyError {
    /// A human-readable description of the error.
    pub fn message(&self) -> (r: &'static str)
        ensures
            r@ == self.message_text(),
    {
        match self {
            PolicyError::InvalidProfile => "invalid profile",
            PolicyError::InvalidThresholds => "critical threshold must be below the normal threshold",
            PolicyError::PermissionDenied => "must be run as root",
        }
    }

    pub open spec fn message_text(&self) -> Seq<char> {
        match self {
            PolicyError::InvalidProfile => "invalid profile"@,
            PolicyError::InvalidThresholds => "critical threshold must be below the normal threshold"@,
            PolicyError::PermissionDenied => "must be run as root"@,
        }
    }
}

} // verus!
