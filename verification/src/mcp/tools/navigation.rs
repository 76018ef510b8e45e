//! Navigation tools: page loads, clicks, scripts, forms, history, waits and tabs.
use vstd::prelude::*;

use super::{Tool, ToolCall};
use super::catalog::{ToolKind, ToolSchema};
use crate::hidden_gems::crawl4ai::ProtectionLevel;
use crate::text::{chars_of, string_of};

verus! {

/// The `browser_navigate` tool.
pub struct BrowserNavigateTool;

impl BrowserNavigateTool {
    pub fn new() -> Self {
        BrowserNavigateTool
    }
}

impl Tool for BrowserNavigateTool {
    open spec fn kind(&self) -> ToolKind {
        ToolKind::Navigate
    }

    fn name(&self) -> (r: &'static str) {
        ToolKind::Navigate.name()
    }

    fn description(&self) -> (r: &'static str) {
        ToolKind::Navigate.description()
    }

    fn input_schema(&self) -> (r: ToolSchema) {
        ToolKind::Navigate.input_schema()
    }

    fn call(&self, _arguments: &serde_json::Value) -> (r: ToolCall) {
        ToolCall::routed()
    }
}

/// The `browser_click` tool.
pub struct BrowserClickTool;

impl BrowserClickTool {
    pub fn new() -> Self {
        BrowserClickTool
    }
}

impl Tool for BrowserClickTool {
    open spec fn kind(&self) -> ToolKind {
        ToolKind::Click
    }

    fn name(&self) -> (r: &'static str) {
        ToolKind::Click.name()
    }

    fn description(&self) -> (r: &'static str) {
        ToolKind::Click.description()
    }

    fn input_schema(&self) -> (r: ToolSchema) {
        ToolKind::Click.input_schema()
    }

    fn call(&self, _arguments: &serde_json::Value) -> (r: ToolCall) {
        ToolCall::routed()
    }
}

/// The `browser_evaluate` tool.
pub struct BrowserEvaluateTool;

impl BrowserEvaluateTool {
    pub fn new() -> Self {
        BrowserEvaluateTool
    }
}

impl Tool for BrowserEvaluateTool {
    open spec fn kind(&self) -> ToolKind {
        ToolKind::Evaluate
    }

    fn name(&self) -> (r: &'static str) {
        ToolKind::Evaluate.name()
    }

    fn description(&self) -> (r: &'static str) {
        ToolKind::Evaluate.description()
    }

    fn input_schema(&self) -> (r: ToolSchema) {
        ToolKind::Evaluate.input_schema()
    }

    fn call(&self, _arguments: &serde_json::Value) -> (r: ToolCall) {
        ToolCall::routed()
    }
}

/// The `browser_fill_form` tool.
pub struct BrowserFillFormTool;

impl BrowserFillFormTool {
    pub fn new() -> Self {
        BrowserFillFormTool
    }
}

impl Tool for BrowserFillFormTool {
    open spec fn kind(&self) -> ToolKind {
        ToolKind::FillForm
    }

    fn name(&self) -> (r: &'static str) {
        ToolKind::FillForm.name()
    }

    fn description(&self) -> (r: &'static str) {
        ToolKind::FillForm.description()
    }

    fn input_schema(&self) -> (r: ToolSchema) {
        ToolKind::FillForm.input_schema()
    }

    fn call(&self, _arguments: &serde_json::Value) -> (r: ToolCall) {
        ToolCall::routed()
    }
}

/// The `browser_back` tool.
pub struct BrowserBackTool;

impl BrowserBackTool {
    pub fn new() -> Self {
        BrowserBackTool
    }
}

impl Tool for BrowserBackTool {
    open spec fn kind(&self) -> ToolKind {
        ToolKind::Back
    }

    fn name(&self) -> (r: &'static str) {
        ToolKind::Back.name()
    }

    fn description(&self) -> (r: &'static str) {
        ToolKind::Back.description()
    }

    fn input_schema(&self) -> (r: ToolSchema) {
        ToolKind::Back.input_schema()
    }

    fn call(&self, _arguments: &serde_json::Value) -> (r: ToolCall) {
        ToolCall::routed()
    }
}

/// The `browser_reload` tool.
pub struct BrowserReloadTool;

impl BrowserReloadTool {
    pub fn new() -> Self {
        BrowserReloadTool
    }
}

impl Tool for BrowserReloadTool {
    open spec fn kind(&self) -> ToolKind {
        ToolKind::Reload
    }

    fn name(&self) -> (r: &'static str) {
        ToolKind::Reload.name()
    }

    fn description(&self) -> (r: &'static str) {
        ToolKind::Reload.description()
    }

    fn input_schema(&self) -> (r: ToolSchema) {
        ToolKind::Reload.input_schema()
    }

    fn call(&self, _arguments: &serde_json::Value) -> (r: ToolCall) {
        ToolCall::routed()
    }
}

/// The `browser_wait_for` tool.
pub struct BrowserWaitForTool;

impl BrowserWaitForTool {
    pub fn new() -> Self {
        BrowserWaitForTool
    }
}

impl Tool for BrowserWaitForTool {
    open spec fn kind(&self) -> ToolKind {
        ToolKind::WaitFor
    }

    fn name(&self) -> (r: &'static str) {
        ToolKind::WaitFor.name()
    }

    fn description(&self) -> (r: &'static str) {
        ToolKind::WaitFor.description()
    }

    fn input_schema(&self) -> (r: ToolSchema) {
        ToolKind::WaitFor.input_schema()
    }

    fn call(&self, _arguments: &serde_json::Value) -> (r: ToolCall) {
        ToolCall::routed()
    }
}

/// The `browser_tab_new` tool.
pub struct BrowserTabNewTool;

impl BrowserTabNewTool {
    pub fn new() -> Self {
        BrowserTabNewTool
    }
}

impl Tool for BrowserTabNewTool {
    open spec fn kind(&self) -> ToolKind {
        ToolKind::TabNew
    }

    fn name(&self) -> (r: &'static str) {
        ToolKind::TabNew.name()
    }

    fn description(&self) -> (r: &'static str) {
        ToolKind::TabNew.description()
    }

    fn input_schema(&self) -> (r: ToolSchema) {
        ToolKind::TabNew.input_schema()
    }

    fn call(&self, _arguments: &serde_json::Value) -> (r: ToolCall) {
        ToolCall::routed()
    }
}

/// The `browser_tab_switch` tool.
pub struct BrowserTabSwitchTool;

impl BrowserTabSwitchTool {
    pub fn new() -> Self {
        BrowserTabSwitchTool
    }
}

impl Tool for BrowserTabSwitchTool {
    open spec fn kind(&self) -> ToolKind {
        ToolKind::TabSwitch
    }

    fn name(&self) -> (r: &'static str) {
        ToolKind::TabSwitch.name()
    }

    fn description(&self) -> (r: &'static str) {
        ToolKind::TabSwitch.description()
    }

    fn input_schema(&self) -> (r: ToolSchema) {
        ToolKind::TabSwitch.input_schema()
    }

    fn call(&self, _arguments: &serde_json::Value) -> (r: ToolCall) {
        ToolCall::routed()
    }
}

/// The `browser_tab_close` tool.
pub struct BrowserTabCloseTool;

impl BrowserTabCloseTool {
    pub fn new() -> Self {
        BrowserTabCloseTool
    }
}

impl Tool for BrowserTabCloseTool {
    open spec fn kind(&self) -> ToolKind {
        ToolKind::TabClose
    }

    fn name(&self) -> (r: &'static str) {
        ToolKind::TabClose.name()
    }

    fn description(&self) -> (r: &'static str) {
        ToolKind::TabClose.description()
    }

    fn input_schema(&self) -> (r: ToolSchema) {
        ToolKind::TabClose.input_schema()
    }

    fn call(&self, _arguments: &serde_json::Value) -> (r: ToolCall) {
        ToolCall::routed()
    }
}


/// A stealth level for the fingerprint scripts.
#[derive(Clone, Copy, PartialEq, Eq, Structural, Debug)]
pub enum StealthLevel {
    Low,
    Medium,
    High,
}

/// The name of a stealth level, as the stealth engine takes it.
pub open spec fn stealth_name(l: StealthLevel) -> Seq<char> {
    match l {
        StealthLevel::Low => "low"@,
        StealthLevel::Medium => "medium"@,
        StealthLevel::High => "high"@,
    }
}

impl StealthLevel {
    /// The name of the level.
    pub fn as_str(self) -> (r: &'static str)
        ensures
            r@ == stealth_name(self),
    {
        match self {
            StealthLevel::Low => "low",
            StealthLevel::Medium => "medium",
            StealthLevel::High => "high",
        }
    }
}

/// The most attempts a navigation makes.
pub open spec fn max_navigation_attempts() -> nat {
    2
}

/// The state of a navigation: how many attempts were made and the stealth
/// level of the next one.
#[derive(Clone, Copy, PartialEq, Eq, Structural, Debug)]
pub struct NavigateState {
    pub attempts: u32,
    pub stealth: StealthLevel,
}

/// What happened to a navigation attempt.
#[derive(Clone, Copy, PartialEq, Eq, Structural, Debug)]
pub enum NavigateEvent {
    /// The page loaded; the bot protection then found on it.
    Loaded(ProtectionLevel),
    /// The page did not load.
    Failed,
}

/// What a navigation does next.
#[derive(Clone, Copy, PartialEq, Eq, Structural, Debug)]
pub enum NavigateAction {
    /// Make another attempt, with the state's stealth level.
    Attempt,
    /// Keep the loaded page.
    Accept,
    /// Report the load error of the last attempt, after that many attempts.
    Fail(u32),
    /// Stop without a page.
    Exhausted,
}

/// The start of a navigation: no attempt yet; high stealth when the page
/// the browser shows now is strongly protected, medium otherwise.
pub open spec fn navigate_start_spec(protection: ProtectionLevel) -> NavigateState {
    NavigateState {
        attempts: 0,
        stealth: if protection == ProtectionLevel::High {
            StealthLevel::High
        } else {
            StealthLevel::Medium
        },
    }
}

/// Before each attempt: attempt if fewer than two were made (counting it),
/// else stop without a page.
pub open spec fn navigate_next_spec(s: NavigateState) -> (NavigateState, NavigateAction) {
    if s.attempts < max_navigation_attempts() {
        (NavigateState { attempts: (s.attempts + 1) as u32, ..s }, NavigateAction::Attempt)
    } else {
        (s, NavigateAction::Exhausted)
    }
}

/// After an attempt: a page still strongly protected while the stealth was
/// below high raises the stealth to high and goes on; another loaded page
/// is kept; a failure ends the navigation after the last attempt, and
/// otherwise raises the stealth to high and goes on.
pub open spec fn navigate_after_spec(s: NavigateState, e: NavigateEvent) -> (NavigateState, NavigateAction) {
    match e {
        NavigateEvent::Loaded(p) => if p == ProtectionLevel::High && s.stealth != StealthLevel::High {
            (NavigateState { stealth: StealthLevel::High, ..s }, NavigateAction::Attempt)
        } else {
            (s, NavigateAction::Accept)
        },
        NavigateEvent::Failed => if s.attempts >= max_navigation_attempts() {
            (s, NavigateAction::Fail(s.attempts))
        } else {
            (NavigateState { stealth: StealthLevel::High, ..s }, NavigateAction::Attempt)
        },
    }
}

impl NavigateState {
    /// The state a navigation starts in, given the protection of the page
    /// the browser shows now.
    pub fn start(protection: ProtectionLevel) -> (r: Self)
        ensures
            r == navigate_start_spec(protection),
    {
        NavigateState {
            attempts: 0,
            stealth: match protection {
                ProtectionLevel::High => StealthLevel::High,
                _ => StealthLevel::Medium,
            },
        }
    }

    /// Decides whether to make another attempt.
    pub fn next(&mut self) -> (a: NavigateAction)
        ensures
            (*final(self), a) == navigate_next_spec(*old(self)),
    {
        if self.attempts < 2 {
            self.attempts = self.attempts + 1;
            NavigateAction::Attempt
        } else {
            NavigateAction::Exhausted
        }
    }

    /// Decides what follows an attempt. An `Attempt` answer goes back to
    /// `next`.
    pub fn after(&mut self, e: NavigateEvent) -> (a: NavigateAction)
        ensures
            (*final(self), a) == navigate_after_spec(*old(self), e),
    {
        match e {
            NavigateEvent::Loaded(p) => {
                if p == ProtectionLevel::High && self.stealth != StealthLevel::High {
                    self.stealth = StealthLevel::High;
                    NavigateAction::Attempt
                } else {
                    NavigateAction::Accept
                }
            },
            NavigateEvent::Failed => {
                if self.attempts >= 2 {
                    NavigateAction::Fail(self.attempts)
                } else {
                    self.stealth = StealthLevel::High;
                    NavigateAction::Attempt
                }
            },
        }
    }
}

/// A navigation makes at most two attempts, its stealth never drops below
/// where it started and, once high, stays high; it keeps a page only when
/// the page is not strongly protected or the stealth was already high.
pub proof fn lemma_navigation_bounded(s: NavigateState, e: NavigateEvent)
    requires
        s.attempts <= max_navigation_attempts(),
    ensures
        navigate_next_spec(s).0.attempts <= max_navigation_attempts(),
        navigate_after_spec(s, e).0.attempts == s.attempts,
        navigate_next_spec(s).1 == NavigateAction::Attempt ==> navigate_next_spec(s).0.attempts
            == s.attempts + 1,
        s.stealth == StealthLevel::High ==> navigate_after_spec(s, e).0.stealth == StealthLevel::High,
        navigate_after_spec(s, e).0.stealth == s.stealth || navigate_after_spec(s, e).0.stealth
            == StealthLevel::High,
        navigate_after_spec(s, e).1 == NavigateAction::Accept ==> (e matches NavigateEvent::Loaded(p)
            && (p != ProtectionLevel::High || s.stealth == StealthLevel::High)),
{
}

/// Every retry runs with high stealth; a failed attempt is retried exactly
/// when fewer than two attempts were made, and otherwise ends the
/// navigation with the load error after those attempts; a loaded page is
/// kept exactly when it is not strongly protected or the stealth was
/// already high; keeping a page or failing changes nothing.
pub proof fn lemma_retry_at_high_stealth(s: NavigateState, e: NavigateEvent)
    ensures
        navigate_after_spec(s, e).1 == NavigateAction::Attempt ==> navigate_after_spec(s, e).0.stealth
            == StealthLevel::High,
        e == NavigateEvent::Failed ==> (navigate_after_spec(s, e).1 == NavigateAction::Attempt <==> s.attempts < 2),
        e == NavigateEvent::Failed && s.attempts >= 2 ==> navigate_after_spec(s, e) == (s, NavigateAction::Fail(s.attempts)),
        e matches NavigateEvent::Loaded(p) ==> (navigate_after_spec(s, e).1 == NavigateAction::Accept <==> (p
            != ProtectionLevel::High || s.stealth == StealthLevel::High)),
        navigate_after_spec(s, e).1 == NavigateAction::Accept ==> navigate_after_spec(s, e).0 == s,
        navigate_after_spec(s, e).1 is Attempt || navigate_after_spec(s, e).1 is Accept
            || navigate_after_spec(s, e).1 is Fail,
{
}

/// Whatever the page showed at the start, a navigation whose first load
/// fails makes a second attempt at high stealth, and when that fails too it
/// reports the failure after two attempts; a third attempt is never made.
pub proof fn lemma_two_failures(p: ProtectionLevel)
    ensures
        ({
            let s0 = navigate_start_spec(p);
            let (s1, a1) = navigate_next_spec(s0);
            let (s2, a2) = navigate_after_spec(s1, NavigateEvent::Failed);
            let (s3, a3) = navigate_next_spec(s2);
            let (s4, a4) = navigate_after_spec(s3, NavigateEvent::Failed);
            &&& s0.attempts == 0
            &&& s0.stealth == (if p == ProtectionLevel::High { StealthLevel::High } else { StealthLevel::Medium })
            &&& a1 == NavigateAction::Attempt && s1.attempts == 1
            &&& a2 == NavigateAction::Attempt && s2.stealth == StealthLevel::High
            &&& a3 == NavigateAction::Attempt && s3.attempts == 2 && s3.stealth == StealthLevel::High
            &&& a4 == NavigateAction::Fail(2)
            &&& navigate_next_spec(s4).1 == NavigateAction::Exhausted
        }),
{
}

/// What a wait waits for.
pub enum WaitCondition {
    /// An element matching the selector.
    Selector(String),
    /// The page body's text to contain a text: the script that tests it.
    Text(String),
    /// A fixed delay of one second.
    Delay,
}

/// The plain-value view of a wait condition.
pub enum WaitView {
    Selector(Seq<char>),
    Text(Seq<char>),
    Delay,
}

impl View for WaitCondition {
    type V = WaitView;

    open spec fn view(&self) -> WaitView {
        match self {
            WaitCondition::Selector(s) => WaitView::Selector(s@),
            WaitCondition::Text(s) => WaitView::Text(s@),
            WaitCondition::Delay => WaitView::Delay,
        }
    }
}

impl WaitCondition {
    /// The name of the condition, as the wait reports it.
    pub fn name(&self) -> (r: &'static str)
        ensures
            self is Selector ==> r@ == "selector"@,
            self is Text ==> r@ == "text"@,
            self is Delay ==> r@ == "delay"@,
    {
        match self {
            WaitCondition::Selector(_) => "selector",
            WaitCondition::Text(_) => "text",
            WaitCondition::Delay => "delay",
        }
    }
}

/// The lower-case hexadecimal digit for `d` (below sixteen).
pub open spec fn lower_hex(d: u32) -> char {
    if d < 10 {
        (0x30 + d) as char
    } else {
        (0x61 - 10 + d) as char
    }
}

/// A character as a JSON string holds it: quote, backslash and the control
/// characters escaped (the short forms for backspace, tab, line feed, form
/// feed and carriage return, `\u00XX` for the others), everything else as
/// it is.
pub open spec fn json_escape(c: char) -> Seq<char> {
    let u = c as u32;
    if c == '"' {
        seq!['\\', '"']
    } else if c == '\\' {
        seq!['\\', '\\']
    } else if u == 0x08 {
        seq!['\\', 'b']
    } else if u == 0x09 {
        seq!['\\', 't']
    } else if u == 0x0A {
        seq!['\\', 'n']
    } else if u == 0x0C {
        seq!['\\', 'f']
    } else if u == 0x0D {
        seq!['\\', 'r']
    } else if u < 0x20 {
        seq!['\\', 'u', '0', '0', lower_hex(u / 16), lower_hex(u % 16)]
    } else {
        seq![c]
    }
}

/// The characters of `s`, each escaped for JSON.
pub open spec fn json_escaped(s: Seq<char>) -> Seq<char>
    decreases s.len(),
{
    if s.len() == 0 {
        Seq::empty()
    } else {
        json_escape(s[0]) + json_escaped(s.skip(1))
    }
}

/// The value of a hexadecimal digit, or -1.
pub open spec fn hex_value(c: char) -> int {
    let u = c as u32;
    if 0x30 <= u <= 0x39 {
        u - 0x30
    } else if 0x61 <= u <= 0x66 {
        u - 0x61 + 10
    } else if 0x41 <= u <= 0x46 {
        u - 0x41 + 10
    } else {
        -1
    }
}

/// The character a JSON escape sequence `\\` + `e` stands for (the
/// four-digit `\\u` form aside).
pub open spec fn short_escape(e: char) -> Option<char> {
    if e == '"' || e == '\\' || e == '/' {
        Some(e)
    } else if e == 'b' {
        Some(0x08 as char)
    } else if e == 't' {
        Some(0x09 as char)
    } else if e == 'n' {
        Some(0x0A as char)
    } else if e == 'f' {
        Some(0x0C as char)
    } else if e == 'r' {
        Some(0x0D as char)
    } else {
        None
    }
}

/// What the body of a JSON string literal stands for: its characters with
/// the escape sequences decoded; `None` when it holds a bare quote or
/// control character, or a malformed escape (the literal would end early
/// or not parse).
pub open spec fn json_decode(t: Seq<char>) -> Option<Seq<char>>
    decreases t.len(),
{
    if t.len() == 0 {
        Some(Seq::empty())
    } else if t[0] == '\\' {
        if t.len() >= 2 && short_escape(t[1]) is Some {
            match json_decode(t.skip(2)) {
                Some(rest) => Some(seq![short_escape(t[1])->0] + rest),
                None => None,
            }
        } else if t.len() >= 6 && t[1] == 'u' && hex_value(t[2]) >= 0 && hex_value(t[3]) >= 0
            && hex_value(t[4]) >= 0 && hex_value(t[5]) >= 0 {
            let v = 4096 * hex_value(t[2]) + 256 * hex_value(t[3]) + 16 * hex_value(t[4]) + hex_value(t[5]);
            if 0xD800 <= v <= 0xDFFF {
                None
            } else {
                match json_decode(t.skip(6)) {
                    Some(rest) => Some(seq![v as char] + rest),
                    None => None,
                }
            }
        } else {
            None
        }
    } else if t[0] == '"' || (t[0] as u32) < 0x20 {
        None
    } else {
        match json_decode(t.skip(1)) {
            Some(rest) => Some(seq![t[0]] + rest),
            None => None,
        }
    }
}

/// A character is the character of its code point.
proof fn lemma_char_code(c: char, d: char)
    ensures
        (c as u32) as char == c,
        (c as u32) as int as char == c,
        (c as u32) == (d as u32) ==> c == d,
{
}

/// No text can break out of the wait script: the JSON literal that carries
/// a text has no bare quote or control character, and it decodes back to
/// exactly that text.
pub proof fn lemma_json_round_trip(s: Seq<char>)
    ensures
        json_decode(json_escaped(s)) == Some(s),
    decreases s.len(),
{
    if s.len() > 0 {
        lemma_json_round_trip(s.skip(1));
        let c = s[0];
        let e = json_escape(c);
        let rest = json_escaped(s.skip(1));
        let t = e + rest;
        assert(json_escaped(s) == t);
        let u = c as u32;
        lemma_char_code(c, 0x08 as char);
        lemma_char_code(c, 0x09 as char);
        lemma_char_code(c, 0x0A as char);
        lemma_char_code(c, 0x0C as char);
        lemma_char_code(c, 0x0D as char);
        if c == '"' || c == '\\' || u == 0x08 || u == 0x09 || u == 0x0A || u == 0x0C || u == 0x0D {
            assert(t.skip(2) =~= rest);
            assert(short_escape(t[1]) == Some(c)) by {
                if u == 0x08 {
                    assert((0x08 as char) as u32 == 0x08);
                    assert(c == 0x08 as char);
                }
                if u == 0x09 {
                    assert((0x09 as char) as u32 == 0x09);
                    assert(c == 0x09 as char);
                }
                if u == 0x0A {
                    assert((0x0A as char) as u32 == 0x0A);
                    assert(c == 0x0A as char);
                }
                if u == 0x0C {
                    assert((0x0C as char) as u32 == 0x0C);
                    assert(c == 0x0C as char);
                }
                if u == 0x0D {
                    assert((0x0D as char) as u32 == 0x0D);
                    assert(c == 0x0D as char);
                }
            }
        } else if u < 0x20 {
            assert(t.skip(6) =~= rest);
            assert(hex_value(lower_hex(u / 16)) == u / 16);
            assert(hex_value(lower_hex(u % 16)) == u % 16);
            assert(hex_value('0') == 0);
            let v = 4096 * hex_value(t[2]) + 256 * hex_value(t[3]) + 16 * hex_value(t[4]) + hex_value(t[5]);
            assert(v == u);
            assert((u as char) == c);
            assert(v as char == c);
        } else {
            assert(t.skip(1) =~= rest);
        }
        assert(seq![c] + s.skip(1) =~= s);
    } else {
        assert(json_escaped(s) =~= Seq::<char>::empty());
    }
}

/// `s` as a JSON string literal.
pub open spec fn json_quoted(s: Seq<char>) -> Seq<char> {
    seq!['"'] + json_escaped(s) + seq!['"']
}

/// Serializes `s` with `serde_json::to_string`, which writes a string as a
/// quoted JSON literal, escaping quote, backslash and control characters;
/// the contract states that encoding. Serializing a string does not fail;
/// the `null` arm is never taken.
#[verifier::external_body]
fn json_string_literal(s: &str) -> (r: String)
    ensures
        r@ == json_quoted(s@),
{
    serde_json::to_string(s).unwrap_or_else(|_| "null".to_string())
}

/// The script that tests whether the page body's text contains `text`.
pub open spec fn text_wait_script(text: Seq<char>) -> Seq<char> {
    "document.body.innerText.includes("@ + json_quoted(text) + ")"@
}

/// The wait's condition: the selector when one is given, else the text
/// (tested by a script that carries it as a JSON string, so that no text
/// can break out of the script), else a delay.
pub fn wait_condition(selector: Option<&str>, text: Option<&str>) -> (r: WaitCondition)
    ensures
        selector matches Some(s) ==> r@ == WaitView::Selector(s@),
        selector is None ==> (text matches Some(t) ==> r@ == WaitView::Text(text_wait_script(t@))),
        selector is None && text is None ==> r@ == WaitView::Delay,
{
    match selector {
        Some(s) => WaitCondition::Selector(crate::text::owned(s)),
        None => match text {
            Some(t) => {
                let mut cs = chars_of("document.body.innerText.includes(");
                let lit = json_string_literal(t);
                let lc = chars_of(lit.as_str());
                crate::text::append_chars(&mut cs, lc.as_slice());
                let close = chars_of(")");
                crate::text::append_chars(&mut cs, close.as_slice());
                WaitCondition::Text(string_of(cs.as_slice()))
            },
            None => WaitCondition::Delay,
        },
    }
}

/// The wait's timeout in milliseconds: the one given, else thirty seconds.
pub fn wait_timeout(timeout: Option<u64>) -> (r: u64)
    ensures
        r == match timeout {
            Some(t) => t,
            None => 30000,
        },
{
    match timeout {
        Some(t) => t,
        None => 30000,
    }
}

/// What a text wait does after a poll.
#[derive(Clone, Copy, PartialEq, Eq, Structural, Debug)]
pub enum WaitStep {
    /// The text is there.
    Done,
    /// The timeout has passed.
    TimedOut,
    /// Poll again after 200 ms.
    Again,
}

/// After a poll that found the text or not, `elapsed_ms` after the wait
/// began: done when found, timed out when more than the timeout has
/// passed, else poll again.
pub fn text_wait_step(found: bool, elapsed_ms: u128, timeout_ms: u64) -> (r: WaitStep)
    ensures
        found ==> r == WaitStep::Done,
        !found && elapsed_ms > timeout_ms ==> r == WaitStep::TimedOut,
        !found && elapsed_ms <= timeout_ms ==> r == WaitStep::Again,
{
    if found {
        WaitStep::Done
    } else if elapsed_ms > timeout_ms as u128 {
        WaitStep::TimedOut
    } else {
        WaitStep::Again
    }
}

} // verus!
