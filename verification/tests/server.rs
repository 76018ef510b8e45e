use nexusmcp::mcp::http_server::allow_origin;
use nexusmcp::mcp::server::{handle_request, server_info, tool_call_content, RpcReply};

#[test]
fn notifications_get_no_answer() {
    assert!(matches!(handle_request(false, "initialize", false, None), RpcReply::NoResponse));
    assert!(matches!(handle_request(false, "tools/call", true, Some("x")), RpcReply::NoResponse));
}

#[test]
fn requests_get_their_answers() {
    assert!(matches!(handle_request(true, "initialize", false, None), RpcReply::Initialize));
    assert!(matches!(handle_request(true, "tools/list", false, None), RpcReply::ToolList));
    match handle_request(true, "tools/call", true, Some("browser_click")) {
        RpcReply::CallTool(n) => assert_eq!(n, "browser_click"),
        _ => panic!("expected a call"),
    }
    assert!(matches!(handle_request(true, "tools/call", false, Some("x")), RpcReply::Error(-32602, "Missing params")));
    assert!(matches!(handle_request(true, "tools/call", true, None), RpcReply::Error(-32602, "Missing tool name")));
    assert!(matches!(handle_request(true, "ping", false, None), RpcReply::Error(-32601, "Method not found")));
}

#[test]
fn tool_call_results() {
    let (t, e) = tool_call_content(Ok("done".to_string()));
    assert_eq!(t, "done");
    assert!(!e);
    let (t, e) = tool_call_content(Err("Missing url".to_string()));
    assert_eq!(t, "Error executing tool: Missing url");
    assert!(e);
    let info = server_info();
    assert_eq!(info.protocol_version, "2024-11-05");
    assert_eq!(info.name, "nexusmcp");
    assert_eq!(info.version, "0.1.0");
}

#[test]
fn only_local_origins_allowed() {
    assert!(allow_origin("http://localhost:3000"));
    assert!(allow_origin("https://127.0.0.1:8443"));
    assert!(allow_origin("https://localhost:1"));
    assert!(allow_origin("http://127.0.0.1:5173"));
    assert!(!allow_origin("http://localhost"));
    assert!(!allow_origin("http://localhost.evil.com"));
    assert!(!allow_origin("https://example.com"));
    assert!(!allow_origin(""));
}
