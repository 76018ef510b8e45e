use nexusmcp::mcp::tools::catalog::{DefaultValue, ToolKind, ValueType};
use nexusmcp::mcp::tools::agent_superpowers::{BrowserActTool, BrowserObserveTool};
use nexusmcp::mcp::tools::enterprise::{BrowserHandleCaptchaTool, BrowserHealthCheckTool};
use nexusmcp::mcp::tools::error_recovery::BrowserSmartRetryTool;
use nexusmcp::mcp::tools::extraction::{
    BrowserExtractTool, BrowserLinksTool, BrowserMarkdownTool, BrowserPdfTool, BrowserScreenshotTool,
};
use nexusmcp::mcp::tools::hidden_gem_tools::{
    BrowserFindElementTool, BrowserFirecrawlExtractTool, BrowserTrafilaturaTool,
};
use nexusmcp::mcp::tools::navigation::{
    BrowserBackTool, BrowserClickTool, BrowserEvaluateTool, BrowserFillFormTool, BrowserNavigateTool,
    BrowserReloadTool, BrowserTabCloseTool, BrowserTabNewTool, BrowserTabSwitchTool, BrowserWaitForTool,
};
use nexusmcp::mcp::tools::profile_persistence::BrowserLoadProfileTool;
use nexusmcp::mcp::tools::research::BrowserResearchTool;
use nexusmcp::mcp::tools::session::BrowserCreateProfileTool;
use nexusmcp::mcp::tools::stealth::BrowserStealthRotateTool;
use nexusmcp::mcp::tools::{Tool, ToolCall, ToolError, ToolRegistry};

#[test]
fn tool_structs_describe_themselves() {
    let t = BrowserNavigateTool::new();
    assert_eq!(t.name(), "browser_navigate");
    assert_eq!(t.description(), "Navigate to a URL using the real headless Chromium browser engine.");
    let s = t.input_schema();
    assert_eq!(s.required, vec!["url"]);
    assert_eq!(s.properties.len(), 4);
    assert_eq!(s.properties[1].name, "wait_until");
    assert_eq!(s.properties[1].choices, vec!["load", "domcontentloaded", "networkidle0"]);
    assert!(matches!(s.properties[1].default_value, Some(DefaultValue::Text("load"))));
    assert!(matches!(s.properties[2].default_value, Some(DefaultValue::Integer(30000))));
    assert_eq!(s.properties[2].value_type, ValueType::Integer);

    let w = BrowserWaitForTool::new();
    assert_eq!(w.name(), "browser_wait_for");
    assert!(w.input_schema().required.is_empty());

    let r = BrowserStealthRotateTool::new().input_schema();
    assert_eq!(r.properties[0].choices, vec!["low", "medium", "high"]);
    assert!(matches!(r.properties[0].default_value, Some(DefaultValue::Text("high"))));

    assert_eq!(BrowserFindElementTool::new().input_schema().required, vec!["instruction"]);
    assert!(BrowserHealthCheckTool::new().input_schema().properties.is_empty());
    let research = BrowserResearchTool::new().input_schema();
    assert_eq!(research.properties[0].value_type, ValueType::StringList);
    assert!(matches!(research.properties[2].default_value, Some(DefaultValue::Integer(8))));
}

#[test]
fn registration_lists_each_tool_once() {
    let mut reg = ToolRegistry::new();
    assert!(reg.list_tools().is_empty());
    reg.register_tools(true, None);
    let tools = reg.list_tools();
    assert_eq!(tools.len(), 27);
    assert!(tools.contains(&ToolKind::StealthRotate));
    let mut names: Vec<&str> = tools.iter().map(|k| k.name()).collect();
    names.sort();
    names.dedup();
    assert_eq!(names.len(), 27);
    // Registering again changes nothing.
    reg.register_tools(true, Some("socks5://p:1".to_string()));
    assert_eq!(reg.list_tools().len(), 27);

    let mut plain = ToolRegistry::new();
    plain.register_tools(false, None);
    let tools = plain.list_tools();
    assert_eq!(tools.len(), 26);
    assert!(!tools.contains(&ToolKind::StealthRotate));
    assert_eq!(tools[15], ToolKind::Research);
}

#[test]
fn every_schema_requires_declared_properties() {
    let mut reg = ToolRegistry::new();
    reg.register_tools(true, None);
    for k in reg.list_tools() {
        let s = k.input_schema();
        for r in &s.required {
            assert!(s.properties.iter().any(|p| p.name == *r), "{}", k.name());
        }
    }
}

#[test]
fn dispatch_routes_names() {
    let mut reg = ToolRegistry::new();
    assert!(matches!(reg.dispatch("browser_research"), Err(ToolError::NotFound(_))));
    assert!(matches!(reg.dispatch("browser_click"), Ok(ToolKind::Click)));
    reg.register_tools(false, None);
    for k in reg.list_tools() {
        let routed = reg.dispatch(k.name()).ok().unwrap();
        if k == ToolKind::FirecrawlExtract {
            assert_eq!(routed, ToolKind::Extract);
        } else {
            assert_eq!(routed, k);
        }
    }
    assert!(matches!(reg.dispatch("browser_stealth_rotate"), Ok(ToolKind::StealthRotate)));
    match reg.dispatch("browser_fly") {
        Err(e) => {
            assert!(matches!(&e, ToolError::NotFound(n) if n == "browser_fly"));
            assert_eq!(e.message(), "Tool 'browser_fly' not found");
        },
        Ok(_) => panic!("unknown tool dispatched"),
    }
}

#[test]
fn registry_health_and_memory() {
    let mut reg = ToolRegistry::new();
    reg.register_tools(true, None);
    reg.push_memory("Navigated to: https://example.com".to_string());
    let h = reg.health(false);
    assert_eq!(h.active_sessions, 0);
    assert!(!h.browser_launched);
    assert!(!h.has_active_tab);
    assert_eq!(h.memory_entries, 1);
    assert_eq!(h.tools_registered, 27);
}

#[test]
fn direct_calls_are_routed_except_research() {
    let args = serde_json::Value::Object(serde_json::Map::new());
    let routed: Vec<Box<dyn Tool>> = vec![
        Box::new(BrowserNavigateTool::new()),
        Box::new(BrowserClickTool::new()),
        Box::new(BrowserEvaluateTool::new()),
        Box::new(BrowserFillFormTool::new()),
        Box::new(BrowserBackTool::new()),
        Box::new(BrowserReloadTool::new()),
        Box::new(BrowserWaitForTool::new()),
        Box::new(BrowserTabNewTool::new()),
        Box::new(BrowserTabSwitchTool::new()),
        Box::new(BrowserTabCloseTool::new()),
        Box::new(BrowserMarkdownTool::new()),
        Box::new(BrowserExtractTool::new()),
        Box::new(BrowserLinksTool::new()),
        Box::new(BrowserPdfTool::new()),
        Box::new(BrowserScreenshotTool::new()),
        Box::new(BrowserFindElementTool::new()),
        Box::new(BrowserTrafilaturaTool::new()),
        Box::new(BrowserFirecrawlExtractTool::new()),
        Box::new(BrowserObserveTool::new()),
        Box::new(BrowserActTool::new()),
        Box::new(BrowserSmartRetryTool::new()),
        Box::new(BrowserLoadProfileTool::new()),
        Box::new(BrowserCreateProfileTool::new()),
        Box::new(BrowserHandleCaptchaTool::new()),
        Box::new(BrowserHealthCheckTool::new()),
        Box::new(BrowserStealthRotateTool::new()),
    ];
    assert_eq!(routed.len(), 26);
    for t in routed.iter() {
        match t.call(&args) {
            ToolCall::Refused(m) => assert_eq!(m, "Routed via ToolRegistry::call_tool"),
            ToolCall::RunResearch => panic!("{} runs research", t.name()),
        }
    }
    let mut urls = serde_json::Map::new();
    urls.insert("urls".to_string(), serde_json::Value::Array(vec![serde_json::Value::String("https://a".to_string())]));
    assert!(matches!(BrowserResearchTool::new().call(&serde_json::Value::Object(urls)), ToolCall::RunResearch));
    assert!(matches!(BrowserResearchTool::new().call(&args), ToolCall::RunResearch));
}
