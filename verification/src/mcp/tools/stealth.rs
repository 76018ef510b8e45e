//! The fingerprint rotation tool.
use vstd::prelude::*;

use super::{Tool, ToolCall};
use super::catalog::{ToolKind, ToolSchema};

verus! {

/// The `browser_stealth_rotate` tool.
pub struct BrowserStealthRotateTool;

impl BrowserStealthRotateTool {
    pub fn new() -> Self {
        BrowserStealthRotateTool
    }
}

impl Tool for BrowserStealthRotateTool {
    open spec fn kind(&self) -> ToolKind {
        ToolKind::StealthRotate
    }

    fn name(&self) -> (r: &'static str) {
        ToolKind::StealthRotate.name()
    }

    fn description(&self) -> (r: &'static str) {
        ToolKind::StealthRotate.description()
    }

    fn input_schema(&self) -> (r: ToolSchema) {
        ToolKind::StealthRotate.input_schema()
    }

    fn call(&self, _arguments: &serde_json::Value) -> (r: ToolCall) {
        ToolCall::routed()
    }
}

} // verus!
