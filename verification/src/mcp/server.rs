//! The JSON-RPC side of the MCP server: what each request is answered with.
use vstd::prelude::*;

use crate::text::{chars_of, owned, str_equal, string_of};

verus! {

/// How the server answers a request.
pub enum RpcReply {
    /// A notification (a request without an id) gets no answer.
    NoResponse,
    /// The `initialize` result: protocol version, capabilities, server info.
    Initialize,
    /// The list of registered tools.
    ToolList,
    /// The result of calling the named tool.
    CallTool(String),
    /// A JSON-RPC error with its code and message.
    Error(i32, &'static str),
}

/// The plain-value view of an `RpcReply`.
pub enum ReplyView {
    NoResponse,
    Initialize,
    ToolList,
    CallTool(Seq<char>),
    Error(int, Seq<char>),
}

impl View for RpcReply {
    type V = ReplyView;

    open spec fn view(&self) -> ReplyView {
        match self {
            RpcReply::NoResponse => ReplyView::NoResponse,
            RpcReply::Initialize => ReplyView::Initialize,
            RpcReply::ToolList => ReplyView::ToolList,
            RpcReply::CallTool(n) => ReplyView::CallTool(n@),
            RpcReply::Error(c, m) => ReplyView::Error(*c as int, m@),
        }
    }
}

/// The answer to a request: none without an id; `initialize` and
/// `tools/list` by their results; `tools/call` by calling the named tool,
/// or error -32602 when the parameters or the tool name are missing; any
/// other method by error -32601.
pub open spec fn reply_for(
    has_id: bool,
    method: Seq<char>,
    has_params: bool,
    tool_name: Option<Seq<char>>,
) -> ReplyView {
    if !has_id {
        ReplyView::NoResponse
    } else if method == "initialize"@ {
        ReplyView::Initialize
    } else if method == "tools/list"@ {
        ReplyView::ToolList
    } else if method == "tools/call"@ {
        if !has_params {
            ReplyView::Error(-32602, "Missing params"@)
        } else {
            match tool_name {
                Some(n) => ReplyView::CallTool(n),
                None => ReplyView::Error(-32602, "Missing tool name"@),
            }
        }
    } else {
        ReplyView::Error(-32601, "Method not found"@)
    }
}

/// How the server answers a request with method `method`: `has_id` tells
/// whether it carries an id, `has_params` whether it carries parameters,
/// and `tool_name` is the string `name` parameter, if any.
pub fn handle_request(has_id: bool, method: &str, has_params: bool, tool_name: Option<&str>) -> (r:
    RpcReply)
    ensures
        r@ == reply_for(has_id, method@, has_params, match tool_name {
            Some(n) => Some(n@),
            None => None,
        }),
{
    if !has_id {
        return RpcReply::NoResponse;
    }
    if str_equal(method, "initialize") {
        RpcReply::Initialize
    } else if str_equal(method, "tools/list") {
        RpcReply::ToolList
    } else if str_equal(method, "tools/call") {
        if !has_params {
            error_response(-32602, "Missing params")
        } else {
            match tool_name {
                Some(n) => RpcReply::CallTool(owned(n)),
                None => error_response(-32602, "Missing tool name"),
            }
        }
    } else {
        error_response(-32601, "Method not found")
    }
}

/// A JSON-RPC error answer.
pub fn error_response(code: i32, message: &'static str) -> (r: RpcReply)
    ensures
        r@ == ReplyView::Error(code as int, message@),
{
    RpcReply::Error(code, message)
}

/// The text content of a `tools/call` answer and whether it reports an
/// error: the tool's output, or `Error executing tool: ` and the error.
pub fn tool_call_content(result: Result<String, String>) -> (r: (String, bool))
    ensures
        result matches Ok(out) ==> r.0@ == out@ && !r.1,
        result matches Err(e) ==> r.0@ == "Error executing tool: "@ + e@ && r.1,
{
    match result {
        Ok(out) => (out, false),
        Err(e) => {
            let mut cs = chars_of("Error executing tool: ");
            let ec = chars_of(e.as_str());
            crate::text::append_chars(&mut cs, ec.as_slice());
            (string_of(cs.as_slice()), true)
        },
    }
}

/// What the server tells a client that initializes: the protocol version,
/// its name and its version.
pub struct ServerInfo {
    pub protocol_version: &'static str,
    pub name: &'static str,
    pub version: &'static str,
}

/// The server's `initialize` answer.
pub fn server_info() -> (r: ServerInfo)
    ensures
        r.protocol_version@ == "2024-11-05"@,
        r.name@ == "nexusmcp"@,
        r.version@ == "0.1.0"@,
{
    ServerInfo { protocol_version: "2024-11-05", name: "nexusmcp", version: "0.1.0" }
}

/// A notification is never answered, whatever its method.
pub proof fn lemma_notifications_unanswered(method: Seq<char>, has_params: bool, tool_name: Option<
    Seq<char>,
>)
    ensures
        reply_for(false, method, has_params, tool_name) == ReplyView::NoResponse,
{
}

/// Every request with an id is answered.
pub proof fn lemma_requests_answered(method: Seq<char>, has_params: bool, tool_name: Option<
    Seq<char>,
>)
    ensures
        reply_for(true, method, has_params, tool_name) != ReplyView::NoResponse,
{
}

/// A tool call request with parameters and a tool name is answered by
/// calling that tool; without parameters or without a name it is refused
/// as invalid (-32602); a request for any method other than `initialize`,
/// `tools/list` and `tools/call` is refused as unknown (-32601).
pub proof fn lemma_tool_calls_dispatched(method: Seq<char>, has_params: bool, tool_name: Option<Seq<char>>)
    ensures
        method == "tools/call"@ && has_params && tool_name is Some ==> reply_for(true, method, has_params, tool_name)
            == ReplyView::CallTool(tool_name->Some_0),
        method == "tools/call"@ && (!has_params || tool_name is None) ==> (reply_for(true, method, has_params, tool_name)
            matches ReplyView::Error(c, _) && c == -32602),
        method != "initialize"@ && method != "tools/list"@ && method != "tools/call"@ ==> reply_for(
            true,
            method,
            has_params,
            tool_name,
        ) == ReplyView::Error(-32601, "Method not found"@),
{
    reveal_strlit("tools/call");
    reveal_strlit("tools/list");
    reveal_strlit("initialize");
    assert("tools/call"@.len() == 10 && "tools/list"@.len() == 10 && "initialize"@.len() == 10);
    assert("tools/call"@[6] != "tools/list"@[6] && "tools/call"@[0] != "initialize"@[0]);
}

} // verus!
