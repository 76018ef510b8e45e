//! A persistent browser profile.
use vstd::prelude::*;

verus! {

/// A browser profile: its id, name, proxy, stealth level and creation time
/// (RFC 3339).
#[derive(Debug, Clone)]
pub struct Profile {
    pub id: String,
    pub name: String,
    pub proxy: Option<String>,
    pub stealth_level: String,
    pub created_at: String,
}

} // verus!
