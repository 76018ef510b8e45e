//! Browser profiles: named identities with their proxy and stealth level.
pub mod profile;

pub use profile::Profile;
