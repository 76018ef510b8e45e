//! The profile loading tool.
use vstd::prelude::*;

use super::{Tool, ToolCall};
use super::catalog::{ToolKind, ToolSchema};
use crate::text::{append_chars, chars_of, string_of};

verus! {

/// The `browser_load_profile` tool.
pub struct BrowserLoadProfileTool;

impl BrowserLoadProfileTool {
    pub fn new() -> Self {
        BrowserLoadProfileTool
    }
}

impl Tool for BrowserLoadProfileTool {
    open spec fn kind(&self) -> ToolKind {
        ToolKind::LoadProfile
    }

    fn name(&self) -> (r: &'static str) {
        ToolKind::LoadProfile.name()
    }

    fn description(&self) -> (r: &'static str) {
        ToolKind::LoadProfile.description()
    }

    fn input_schema(&self) -> (r: ToolSchema) {
        ToolKind::LoadProfile.input_schema()
    }

    fn call(&self, _arguments: &serde_json::Value) -> (r: ToolCall) {
        ToolCall::routed()
    }
}


/// The error of loading a profile that does not exist.
pub fn profile_not_found(profile_id: &str) -> (r: String)
    ensures
        r@ == "Profile '"@ + profile_id@ + "' not found"@,
{
    let mut cs = chars_of("Profile '");
    let id = chars_of(profile_id);
    append_chars(&mut cs, id.as_slice());
    let tail = chars_of("' not found");
    append_chars(&mut cs, tail.as_slice());
    string_of(cs.as_slice())
}

} // verus!
