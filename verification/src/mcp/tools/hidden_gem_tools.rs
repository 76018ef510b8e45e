//! Tools over the page analysis engines: element targeting, article extraction and schema extraction.
use vstd::prelude::*;

use super::{Tool, ToolCall};
use super::catalog::{ToolKind, ToolSchema};

verus! {

/// Stagehand-style element targeting using natural language.
pub struct BrowserFindElementTool;

impl BrowserFindElementTool {
    pub fn new() -> Self {
        BrowserFindElementTool
    }
}

impl Tool for BrowserFindElementTool {
    open spec fn kind(&self) -> ToolKind {
        ToolKind::FindElement
    }

    fn name(&self) -> (r: &'static str) {
        ToolKind::FindElement.name()
    }

    fn description(&self) -> (r: &'static str) {
        ToolKind::FindElement.description()
    }

    fn input_schema(&self) -> (r: ToolSchema) {
        ToolKind::FindElement.input_schema()
    }

    fn call(&self, _arguments: &serde_json::Value) -> (r: ToolCall) {
        ToolCall::routed()
    }
}

/// Trafilatura-style article extraction.
pub struct BrowserTrafilaturaTool;

impl BrowserTrafilaturaTool {
    pub fn new() -> Self {
        BrowserTrafilaturaTool
    }
}

impl Tool for BrowserTrafilaturaTool {
    open spec fn kind(&self) -> ToolKind {
        ToolKind::Trafilatura
    }

    fn name(&self) -> (r: &'static str) {
        ToolKind::Trafilatura.name()
    }

    fn description(&self) -> (r: &'static str) {
        ToolKind::Trafilatura.description()
    }

    fn input_schema(&self) -> (r: ToolSchema) {
        ToolKind::Trafilatura.input_schema()
    }

    fn call(&self, _arguments: &serde_json::Value) -> (r: ToolCall) {
        ToolCall::routed()
    }
}

/// Firecrawl-style structured extraction with a schema.
pub struct BrowserFirecrawlExtractTool;

impl BrowserFirecrawlExtractTool {
    pub fn new() -> Self {
        BrowserFirecrawlExtractTool
    }
}

impl Tool for BrowserFirecrawlExtractTool {
    open spec fn kind(&self) -> ToolKind {
        ToolKind::FirecrawlExtract
    }

    fn name(&self) -> (r: &'static str) {
        ToolKind::FirecrawlExtract.name()
    }

    fn description(&self) -> (r: &'static str) {
        ToolKind::FirecrawlExtract.description()
    }

    fn input_schema(&self) -> (r: ToolSchema) {
        ToolKind::FirecrawlExtract.input_schema()
    }

    fn call(&self, _arguments: &serde_json::Value) -> (r: ToolCall) {
        ToolCall::routed()
    }
}

} // verus!
