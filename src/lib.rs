//! Power-management policy: the profile taxonomy, per-profile hardware tuning,
//! battery thresholds with hysteresis, and the persisted configuration document.

pub mod config;
pub mod document;
pub mod error;
pub mod laws;
pub mod power;
pub mod profile;
pub mod router;

pub use config::{
    Config, ConfigBacklight, ConfigDefaults, ConfigPState, ConfigProfile, ConfigProfiles,
    ConfigThresholds, Stored,
};
pub use error::PolicyError;
pub use power::Power;
pub use profile::Profile;
pub use router::{Mode, select_mode};
