//! The profile creation tool.
use vstd::prelude::*;

use super::{Tool, ToolCall};
use super::catalog::{ToolKind, ToolSchema};

verus! {

/// The `browser_create_profile` tool.
pub struct BrowserCreateProfileTool;

impl BrowserCreateProfileTool {
    pub fn new() -> Self {
        BrowserCreateProfileTool
    }
}

impl Tool for BrowserCreateProfileTool {
    open spec fn kind(&self) -> ToolKind {
        ToolKind::CreateProfile
    }

    fn name(&self) -> (r: &'static str) {
        ToolKind::CreateProfile.name()
    }

    fn description(&self) -> (r: &'static str) {
        ToolKind::CreateProfile.description()
    }

    fn input_schema(&self) -> (r: ToolSchema) {
        ToolKind::CreateProfile.input_schema()
    }

    fn call(&self, _arguments: &serde_json::Value) -> (r: ToolCall) {
        ToolCall::routed()
    }
}


/// The stealth level of a new profile: the one given, else `high`.
pub fn profile_stealth_level(level: Option<&str>) -> (r: &str)
    ensures
        level matches Some(l) ==> r@ == l@,
        level is None ==> r@ == "high"@,
{
    match level {
        Some(l) => l,
        None => "high",
    }
}

} // verus!
