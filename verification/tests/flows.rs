use nexusmcp::hidden_gems::crawl4ai::{Crawl4AIDetector, ProtectionLevel};
use nexusmcp::hidden_gems::stagehand::StagehandEngine;
use nexusmcp::mcp::tools::agent_superpowers::{
    observe_page, plan_act, wants_element_match, ActPlan, ActStep, Observation,
};
use nexusmcp::mcp::tools::enterprise::{
    captcha_action, captcha_detected, detection_message, unknown_action_message, CaptchaAction,
};
use nexusmcp::mcp::tools::error_recovery::{retry_delay_ms, retry_level, AttemptOutcome, SmartRetry};
use nexusmcp::mcp::tools::extraction::{encode_capture, extract_summary, page_links};
use nexusmcp::mcp::tools::navigation::{
    text_wait_step, wait_condition, wait_timeout, NavigateAction, NavigateEvent, NavigateState,
    StealthLevel, WaitCondition, WaitStep,
};
use nexusmcp::mcp::tools::profile_persistence::profile_not_found;
use nexusmcp::mcp::tools::research::{research_concurrency, research_mode, research_page_content, research_page_title};
use nexusmcp::mcp::tools::session::profile_stealth_level;

#[test]
fn navigation_upgrades_stealth_once() {
    let mut s = NavigateState::start(ProtectionLevel::Clear);
    assert_eq!(s.stealth, StealthLevel::Medium);
    assert_eq!(s.next(), NavigateAction::Attempt);
    assert_eq!(s.attempts, 1);
    assert_eq!(s.after(NavigateEvent::Loaded(ProtectionLevel::High)), NavigateAction::Attempt);
    assert_eq!(s.stealth, StealthLevel::High);
    assert_eq!(s.next(), NavigateAction::Attempt);
    assert_eq!(s.after(NavigateEvent::Loaded(ProtectionLevel::High)), NavigateAction::Accept);
    assert_eq!(s.attempts, 2);
    assert_eq!(s.next(), NavigateAction::Exhausted);
}

#[test]
fn navigation_fails_after_two_errors() {
    let mut s = NavigateState::start(ProtectionLevel::High);
    assert_eq!(s.stealth, StealthLevel::High);
    assert_eq!(s.stealth.as_str(), "high");
    assert_eq!(s.next(), NavigateAction::Attempt);
    assert_eq!(s.after(NavigateEvent::Failed), NavigateAction::Attempt);
    assert_eq!(s.next(), NavigateAction::Attempt);
    assert_eq!(s.after(NavigateEvent::Failed), NavigateAction::Fail(2));
    let mut t = NavigateState::start(ProtectionLevel::Medium);
    t.next();
    assert_eq!(t.after(NavigateEvent::Loaded(ProtectionLevel::Medium)), NavigateAction::Accept);
    assert_eq!(t.stealth, StealthLevel::Medium);
}

#[test]
fn smart_retry_escalates() {
    assert_eq!(retry_level(0), StealthLevel::Low);
    assert_eq!(retry_level(1), StealthLevel::Medium);
    assert_eq!(retry_level(2), StealthLevel::High);
    assert_eq!(retry_level(7), StealthLevel::High);
    assert_eq!(retry_delay_ms(0), 500);
    assert_eq!(retry_delay_ms(2), 1500);
    let mut r = SmartRetry::new(3);
    assert_eq!(r.next_level(), Some(StealthLevel::Low));
    r.record(AttemptOutcome::Loaded(true));
    assert_eq!(r.last_error, "Page loaded but bot protection detected");
    assert_eq!(r.next_level(), Some(StealthLevel::Medium));
    r.record(AttemptOutcome::Failed("timeout".to_string()));
    assert_eq!(r.last_error, "timeout");
    assert_eq!(r.next_level(), Some(StealthLevel::High));
    r.record(AttemptOutcome::Loaded(false));
    assert!(r.succeeded);
    assert_eq!(r.attempts, 3);
    assert_eq!(r.next_level(), None);
    let mut z = SmartRetry::new(0);
    assert_eq!(z.next_level(), None);
    z.max_retries = 1;
    z.record(AttemptOutcome::Failed("x".to_string()));
    assert_eq!(z.next_level(), None);
    assert!(!z.succeeded);
}

#[test]
fn wait_conditions_escape_text() {
    match wait_condition(Some("#a"), Some("t")) {
        WaitCondition::Selector(s) => assert_eq!(s, "#a"),
        _ => panic!("selector first"),
    }
    let c = wait_condition(None, Some("it's \"quoted\"\\\n\u{1}"));
    assert_eq!(c.name(), "text");
    match c {
        WaitCondition::Text(script) => assert_eq!(
            script,
            "document.body.innerText.includes(\"it's \\\"quoted\\\"\\\\\\n\\u0001\")"
        ),
        _ => panic!("text"),
    }
    let d = wait_condition(None, None);
    assert_eq!(d.name(), "delay");
    assert_eq!(wait_timeout(None), 30000);
    assert_eq!(wait_timeout(Some(5)), 5);
    assert_eq!(text_wait_step(true, 99999, 10), WaitStep::Done);
    assert_eq!(text_wait_step(false, 11, 10), WaitStep::TimedOut);
    assert_eq!(text_wait_step(false, 10, 10), WaitStep::Again);
}

#[test]
fn observe_inventories_page() {
    let html = r#"<html><body><form id="f" action="/go"><input id="e" type="email" placeholder="mail"></form>
        <button id="b">  Submit  </button><a href="/x">Link</a><div role="button">Fake</div><select id="s"></select></body></html>"#;
    let o = observe_page(html);
    assert_eq!((o.forms, o.inputs, o.buttons, o.links), (1, 2, 1, 1));
    assert_eq!(o.observations.len(), 5);
    assert!(matches!(&o.observations[0], Observation::Form { id, action } if id == "f" && action == "/go"));
    assert!(matches!(&o.observations[1], Observation::Input { tag, id, input_type, placeholder }
        if tag == "input" && id == "e" && input_type == "email" && placeholder == "mail"));
    assert!(matches!(&o.observations[2], Observation::Button { id, text } if id == "b" && text == "Submit"));
    assert!(matches!(&o.observations[3], Observation::Link { text, href } if text == "Link" && href == "/x"));
    let many: String = (0..25).map(|i| format!("<a href='/{}'>l{}</a>", i, i)).collect();
    let o = observe_page(&many);
    assert_eq!(o.links, 25);
    assert_eq!(o.observations.len(), 20);
    // Texts are cut at the last character boundary at or before byte 50.
    let long = format!("<button>{}é</button><a href='/y'>{}</a>", "b".repeat(49), "c".repeat(60));
    let o = observe_page(&long);
    assert_eq!((o.buttons, o.links), (1, 1));
    assert!(matches!(&o.observations[0], Observation::Button { text, .. } if *text == "b".repeat(49)));
    assert!(matches!(&o.observations[1], Observation::Link { text, href } if *text == "c".repeat(50) && href == "/y"));
    assert!(wants_element_match("find login form"));
    assert!(!wants_element_match("analyze page"));
}

#[test]
fn act_plans_follow_roles() {
    let e = StagehandEngine::new();
    let page = r#"<html><body><input id="email" type="text" placeholder="email"><button id="go">Submit</button></body></html>"#;
    let search = e.find_element("email", page);
    match plan_act(&search, Some("me@x.dev")) {
        ActPlan::Act { selector, role, step: ActStep::Type(v) } => {
            assert_eq!(selector, "#email");
            assert_eq!(role, "textbox");
            assert_eq!(v, "me@x.dev");
        },
        _ => panic!("type into the text box"),
    }
    assert!(matches!(plan_act(&search, None), ActPlan::Act { step: ActStep::Focus, .. }));
    assert!(matches!(plan_act(&search, Some("")), ActPlan::Act { step: ActStep::Focus, .. }));
    let click = e.find_element("submit", page);
    assert!(matches!(plan_act(&click, None), ActPlan::Act { step: ActStep::Click, .. }));
    let none = e.find_element("nothing here", "<p>x</p>");
    assert!(matches!(plan_act(&none, None), ActPlan::NoTarget));
}

#[test]
fn captcha_actions() {
    assert!(matches!(captcha_action(None), CaptchaAction::Detect));
    assert!(matches!(captcha_action(Some("detect")), CaptchaAction::Detect));
    assert!(matches!(captcha_action(Some("bypass")), CaptchaAction::Bypass));
    assert!(matches!(captcha_action(Some("solve")), CaptchaAction::Unknown(a) if a == "solve"));
    assert_eq!(unknown_action_message("solve"), "Unknown action: solve");
    let d = Crawl4AIDetector::new();
    let r = d.detect_protection("", "<div class='h-captcha'></div>");
    assert!(captcha_detected(&r));
    assert_eq!(detection_message(true), "Bot protection detected on live page");
    assert!(!captcha_detected(&d.detect_protection("", "<p>ok</p>")));
    assert_eq!(detection_message(false), "No bot protection detected");
}

#[test]
fn extraction_fallbacks() {
    let s = extract_summary("<html><head><title>T</title></head><body>one two  three</body></html>");
    assert_eq!(s.title, "T");
    assert_eq!(s.word_count, 3);
    assert_eq!(s.snippet, "one two  three");
    let long = format!("<html><body>{}</body></html>", "ab ".repeat(300));
    let s = extract_summary(&long);
    assert_eq!(s.title, "No Title");
    assert_eq!(s.word_count, 300);
    assert_eq!(s.snippet.chars().count(), 500);
    let links = page_links("<a href='/a'> A </a><a>none</a><a href='/b'>B</a>");
    assert_eq!(links.len(), 2);
    assert_eq!(links[0].url, "/a");
    assert_eq!(links[0].text, "A");
    assert_eq!(links[1].url, "/b");
}

#[test]
fn research_tool_pages() {
    assert_eq!(research_page_title("<html><title>Hi</title></html>"), "Hi");
    assert_eq!(research_page_title("<p>none</p>"), "Page");
    assert_eq!(research_page_title("<title>A<title>B</title>"), "A");
    assert_eq!(research_page_title("x<title>open"), "open");
    let raw: String = "x".repeat(2500);
    assert_eq!(research_page_content(&raw, "json").len(), 2000);
    assert_eq!(research_page_content("<h1>T</h1>", "markdown"), html2md::parse_html("<h1>T</h1>"));
    assert_eq!(research_mode(None), "markdown");
    assert_eq!(research_mode(Some("links")), "links");
    assert_eq!(research_concurrency(None), 8);
    assert_eq!(research_concurrency(Some(2)), 2);
    assert_eq!(profile_stealth_level(None), "high");
    assert_eq!(profile_stealth_level(Some("low")), "low");
    assert_eq!(profile_not_found("p1"), "Profile 'p1' not found");
}

#[test]
fn captures_travel_as_base64() {
    assert_eq!(encode_capture(b""), "");
    assert_eq!(encode_capture(b"f"), "Zg==");
    assert_eq!(encode_capture(b"fo"), "Zm8=");
    assert_eq!(encode_capture(b"foo"), "Zm9v");
    assert_eq!(encode_capture(b"foobar"), "Zm9vYmFy");
    assert_eq!(encode_capture(&[0x89, 0x50, 0x4E, 0x47, 0xff]), "iVBOR/8=");
}

#[test]
fn wait_script_carries_text_exactly() {
    let text = "'); alert(\"x\"); ('\\\u{7}\u{1f}é";
    match wait_condition(None, Some(text)) {
        WaitCondition::Text(script) => {
            let literal = script
                .strip_prefix("document.body.innerText.includes(")
                .and_then(|s| s.strip_suffix(')'))
                .unwrap();
            let back: String = serde_json::from_str(literal).unwrap();
            assert_eq!(back, text);
        },
        _ => panic!("text wait"),
    }
}
