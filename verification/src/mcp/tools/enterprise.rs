//! Bot-protection handling and the health check.
use vstd::prelude::*;

use super::{Tool, ToolCall};
use super::catalog::{ToolKind, ToolSchema};
use crate::hidden_gems::crawl4ai::ProtectionReport;
use crate::text::{chars_of, str_equal, string_of};

verus! {

/// Bot-protection detection from the page HTML.
pub struct BrowserHandleCaptchaTool;

impl BrowserHandleCaptchaTool {
    pub fn new() -> Self {
        BrowserHandleCaptchaTool
    }
}

impl Tool for BrowserHandleCaptchaTool {
    open spec fn kind(&self) -> ToolKind {
        ToolKind::HandleCaptcha
    }

    fn name(&self) -> (r: &'static str) {
        ToolKind::HandleCaptcha.name()
    }

    fn description(&self) -> (r: &'static str) {
        ToolKind::HandleCaptcha.description()
    }

    fn input_schema(&self) -> (r: ToolSchema) {
        ToolKind::HandleCaptcha.input_schema()
    }

    fn call(&self, _arguments: &serde_json::Value) -> (r: ToolCall) {
        ToolCall::routed()
    }
}

/// The health check of the browser engine.
pub struct BrowserHealthCheckTool;

impl BrowserHealthCheckTool {
    pub fn new() -> Self {
        BrowserHealthCheckTool
    }
}

impl Tool for BrowserHealthCheckTool {
    open spec fn kind(&self) -> ToolKind {
        ToolKind::HealthCheck
    }

    fn name(&self) -> (r: &'static str) {
        ToolKind::HealthCheck.name()
    }

    fn description(&self) -> (r: &'static str) {
        ToolKind::HealthCheck.description()
    }

    fn input_schema(&self) -> (r: ToolSchema) {
        ToolKind::HealthCheck.input_schema()
    }

    fn call(&self, _arguments: &serde_json::Value) -> (r: ToolCall) {
        ToolCall::routed()
    }
}


/// What the bot-protection tool is asked to do.
pub enum CaptchaAction {
    /// Report the protection found on the page.
    Detect,
    /// Inject the high stealth fingerprint into the active tab.
    Bypass,
    /// Anything else: refused with `Unknown action: <action>`.
    Unknown(String),
}

/// The action named `action` (`detect` when none is given).
pub fn captcha_action(action: Option<&str>) -> (r: CaptchaAction)
    ensures
        action is None ==> r is Detect,
        action matches Some(a) ==> (a@ == "detect"@ <==> r is Detect),
        action matches Some(a) ==> (a@ == "bypass"@ <==> r is Bypass),
        action matches Some(a) ==> (r matches CaptchaAction::Unknown(n) ==> n@ == a@),
{
    proof {
        reveal_strlit("detect");
        reveal_strlit("bypass");
        assert("detect"@[0] != "bypass"@[0]);
    }
    match action {
        None => CaptchaAction::Detect,
        Some(a) => if str_equal(a, "detect") {
            CaptchaAction::Detect
        } else if str_equal(a, "bypass") {
            CaptchaAction::Bypass
        } else {
            CaptchaAction::Unknown(crate::text::owned(a))
        },
    }
}

/// Whether a detection report counts as a CAPTCHA or bot wall: something
/// was detected.
pub fn captcha_detected(report: &ProtectionReport) -> (r: bool)
    ensures
        r == (report.detections@.len() > 0),
{
    report.detections.len() > 0
}

/// The message of a detection answer.
pub fn detection_message(detected: bool) -> (r: &'static str)
    ensures
        detected ==> r@ == "Bot protection detected on live page"@,
        !detected ==> r@ == "No bot protection detected"@,
{
    if detected {
        "Bot protection detected on live page"
    } else {
        "No bot protection detected"
    }
}

/// The message refusing an unknown action.
pub fn unknown_action_message(action: &str) -> (r: String)
    ensures
        r@ == "Unknown action: "@ + action@,
{
    let mut cs = chars_of("Unknown action: ");
    let a = chars_of(action);
    crate::text::append_chars(&mut cs, a.as_slice());
    string_of(cs.as_slice())
}

} // verus!
