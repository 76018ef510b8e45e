//! The retrying navigation tool.
use vstd::prelude::*;

use super::{Tool, ToolCall};
use super::catalog::{ToolKind, ToolSchema};
use super::navigation::StealthLevel;
use crate::text::owned;

verus! {

/// The `browser_smart_retry` tool.
pub struct BrowserSmartRetryTool;

impl BrowserSmartRetryTool {
    pub fn new() -> Self {
        BrowserSmartRetryTool
    }
}

impl Tool for BrowserSmartRetryTool {
    open spec fn kind(&self) -> ToolKind {
        ToolKind::SmartRetry
    }

    fn name(&self) -> (r: &'static str) {
        ToolKind::SmartRetry.name()
    }

    fn description(&self) -> (r: &'static str) {
        ToolKind::SmartRetry.description()
    }

    fn input_schema(&self) -> (r: ToolSchema) {
        ToolKind::SmartRetry.input_schema()
    }

    fn call(&self, _arguments: &serde_json::Value) -> (r: ToolCall) {
        ToolCall::routed()
    }
}


/// The stealth level of retry attempt `attempt` (from zero): low, medium,
/// then high for every later attempt.
pub open spec fn retry_level_spec(attempt: u64) -> StealthLevel {
    if attempt == 0 {
        StealthLevel::Low
    } else if attempt == 1 {
        StealthLevel::Medium
    } else {
        StealthLevel::High
    }
}

/// The stealth level of retry attempt `attempt`.
pub fn retry_level(attempt: u64) -> (r: StealthLevel)
    ensures
        r == retry_level_spec(attempt),
{
    if attempt == 0 {
        StealthLevel::Low
    } else if attempt == 1 {
        StealthLevel::Medium
    } else {
        StealthLevel::High
    }
}

/// The pause after failed attempt `attempt`, in milliseconds: half a second
/// times the number of attempts made.
pub fn retry_delay_ms(attempt: u64) -> (r: u64)
    requires
        500 * (attempt + 1) <= u64::MAX,
    ensures
        r == 500 * (attempt + 1),
{
    500 * (attempt + 1)
}

/// How a retry attempt went.
pub enum AttemptOutcome {
    /// The page loaded; whether strong bot protection was found on it.
    Loaded(bool),
    /// The navigation failed with this error.
    Failed(String),
}

/// A retrying navigation: the attempts allowed and made, the error of the
/// last failed attempt, and whether an attempt succeeded.
pub struct SmartRetry {
    pub max_retries: u64,
    pub attempts: u64,
    pub last_error: String,
    pub succeeded: bool,
}

impl SmartRetry {
    /// A retry run allowing `max_retries` attempts.
    pub fn new(max_retries: u64) -> (r: Self)
        ensures
            r.max_retries == max_retries,
            r.attempts == 0,
            r.last_error@ == Seq::<char>::empty(),
            !r.succeeded,
    {
        SmartRetry { max_retries, attempts: 0, last_error: String::new(), succeeded: false }
    }

    /// The stealth level of the next attempt, or `None` when the run is
    /// over: an attempt succeeded or all were made.
    pub fn next_level(&self) -> (r: Option<StealthLevel>)
        ensures
            r matches Some(l) ==> !self.succeeded && self.attempts < self.max_retries && l
                == retry_level_spec(self.attempts),
            r is None ==> self.succeeded || self.attempts >= self.max_retries,
    {
        if !self.succeeded && self.attempts < self.max_retries {
            Some(retry_level(self.attempts))
        } else {
            None
        }
    }

    /// Records how the current attempt went: a loaded page without strong
    /// protection ends the run with success; otherwise the error is kept
    /// (`Page loaded but bot protection detected` for a protected page)
    /// and the attempt is counted.
    pub fn record(&mut self, outcome: AttemptOutcome)
        requires
            !old(self).succeeded,
            old(self).attempts < old(self).max_retries,
        ensures
            final(self).max_retries == old(self).max_retries,
            final(self).attempts == old(self).attempts + 1,
            outcome matches AttemptOutcome::Loaded(blocked) ==> final(self).succeeded == !blocked,
            outcome matches AttemptOutcome::Loaded(blocked) ==> (blocked ==> final(self).last_error@
                == "Page loaded but bot protection detected"@),
            outcome matches AttemptOutcome::Loaded(blocked) ==> (!blocked ==> final(self).last_error
                == old(self).last_error),
            outcome matches AttemptOutcome::Failed(e) ==> !final(self).succeeded
                && final(self).last_error@ == e@,
    {
        match outcome {
            AttemptOutcome::Loaded(blocked) => {
                if blocked {
                    self.last_error = owned("Page loaded but bot protection detected");
                } else {
                    self.succeeded = true;
                }
            },
            AttemptOutcome::Failed(e) => {
                self.last_error = e;
            },
        }
        self.attempts = self.attempts + 1;
    }
}

/// A retry run escalates: each attempt's stealth is at least the previous
/// one's, and from the third attempt on it is high.
pub proof fn lemma_retry_escalates(a: u64, b: u64)
    requires
        a <= b,
    ensures
        retry_level_spec(a) == StealthLevel::High ==> retry_level_spec(b) == StealthLevel::High,
        retry_level_spec(a) == StealthLevel::Medium ==> retry_level_spec(b) != StealthLevel::Low,
        b >= 2 ==> retry_level_spec(b) == StealthLevel::High,
{
}

/// The first retry attempt runs with low stealth, the second with medium
/// and every later one with high.
pub proof fn lemma_retry_levels(a: u64)
    ensures
        a == 0 ==> retry_level_spec(a) == StealthLevel::Low,
        a == 1 ==> retry_level_spec(a) == StealthLevel::Medium,
        a >= 2 ==> retry_level_spec(a) == StealthLevel::High,
{
}

} // verus!
