use vstd::prelude::*;

use crate::error::PolicyError;
use crate::profile::str_eq;

verus! {

/// The role a process takes for its whole lifetime.
#[derive(Clone, Copy, Debug, PartialEq, Eq, Structural)]
pub enum Mode {
    /// The privileged process that owns the policy and applies it.
    ControlSurface,
    /// A process that asks the control surface to act.
    Caller,
}

/// The role that `subcommand` selects: `daemon` runs the control surface and
/// needs elevated privileges; every other command is a caller.
pub open spec fn mode_for(subcommand: Seq<char>, privileged: bool) -> Result<Mode, PolicyError> {
    if subcommand == "daemon"@ {
        if privileged {
            Ok(Mode::ControlSurface)
        } else {
            Err(PolicyError::PermissionDenied)
        }
    } else {
        Ok(Mode::Caller)
    }
}

/// Chooses the role of this process from its subcommand and whether it runs
/// with elevated privileges.
pub fn select_mode(subcommand: &str, privileged: bool) -> (r: Result<Mode, PolicyError>)
    ensures
        r == mode_for(subcommand@, privileged),
{
    if str_eq(subcommand, "daemon") {
        if privileged {
            Ok(Mode::ControlSurface)
        } else {
            Err(PolicyError::PermissionDenied)
        }
    } else {
        Ok(Mode::Caller)
    }
}

} // verus!
