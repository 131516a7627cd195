//! The MCP protocol decisions: which handler answers a JSON-RPC request,
//! which error a refused request gets, and the session's state.
use crate::config::jira::JiraConfig;
use crate::text::str_equal;
use vstd::prelude::*;

verus! {

/// JSON-RPC error code: the method does not exist.
pub const METHOD_NOT_FOUND: i32 = -32601;

/// JSON-RPC error code: the request's parameters are missing or invalid.
pub const INVALID_PARAMS: i32 = -32602;

/// JSON-RPC error code: the server failed while handling the request.
pub const INTERNAL_ERROR: i32 = -32603;

/// The MCP protocol version the server speaks.
pub const PROTOCOL_VERSION: &'static str = "2024-11-05";

/// The name the server reports about itself.
pub const SERVER_NAME: &'static str = "rust-jira-mcp";

/// The version of JSON-RPC used in every response.
pub const JSONRPC_VERSION: &'static str = "2.0";

/// The kinds of request the server tells apart by their method.
#[derive(Debug, Clone, Copy, PartialEq, Eq, Structural)]
pub enum RequestKind {
    Initialize,
    ListTools,
    CallTool,
    InitializedNotification,
    Unknown,
}

/// The method name of each kind of request.
pub open spec fn method_kind(method: Seq<char>) -> RequestKind {
    if method == "initialize"@ {
        RequestKind::Initialize
    } else if method == "tools/list"@ {
        RequestKind::ListTools
    } else if method == "tools/call"@ {
        RequestKind::CallTool
    } else if method == "notifications/initialized"@ {
        RequestKind::InitializedNotification
    } else {
        RequestKind::Unknown
    }
}

/// Tells the kind of a request from its method name.
pub fn classify_method(method: &str) -> (r: RequestKind)
    ensures
        r == method_kind(method@),
{
    if str_equal(method, "initialize") {
        RequestKind::Initialize
    } else if str_equal(method, "tools/list") {
        RequestKind::ListTools
    } else if str_equal(method, "tools/call") {
        RequestKind::CallTool
    } else if str_equal(method, "notifications/initialized") {
        RequestKind::InitializedNotification
    } else {
        RequestKind::Unknown
    }
}

/// A JSON-RPC error: its code and message.
#[derive(Debug, Clone, PartialEq, Eq)]
pub struct RpcErrorInfo {
    pub code: i32,
    pub message: String,
}

/// What the server does with a request.
#[derive(Debug)]
pub enum Route {
    /// Answer with the server's description.
    Initialize,
    /// Answer with the list of tools.
    ListTools,
    /// Run the named tool.
    CallTool,
    /// A notification: nothing is sent back.
    NoReply,
    /// Answer with this error.
    Reject(RpcErrorInfo),
}

/// The error a request is refused with: its code and message.
pub open spec fn rejection(kind: RequestKind, has_params: bool) -> Option<(i32, Seq<char>)> {
    match kind {
        RequestKind::Unknown => Some((METHOD_NOT_FOUND, "Method not found"@)),
        RequestKind::InitializedNotification => None,
        _ => if has_params {
            None
        } else {
            Some((INVALID_PARAMS, "Invalid params"@))
        },
    }
}

/// How a request of a kind, with or without parameters, is handled.
pub open spec fn route_matches(r: Route, kind: RequestKind, has_params: bool) -> bool {
    match rejection(kind, has_params) {
        Some((code, message)) => r matches Route::Reject(e) && e.code == code && e.message@ == message,
        None => match kind {
            RequestKind::Initialize => r is Initialize,
            RequestKind::ListTools => r is ListTools,
            RequestKind::CallTool => r is CallTool,
            _ => r is NoReply,
        },
    }
}

/// The state of an MCP session with one client.
pub struct McpSession {
    initialized: bool,
}

impl McpSession {
    /// Whether the client has said it finished initializing.
    pub closed spec fn client_ready(&self) -> bool {
        self.initialized
    }

    /// A session that has not yet heard from its client.
    pub fn new() -> (r: Self)
        ensures
            !r.client_ready(),
    {
        McpSession { initialized: false }
    }

    /// Whether the client has said it finished initializing.
    pub fn is_initialized(&self) -> (r: bool)
        ensures
            r == self.client_ready(),
    {
        self.initialized
    }

    /// Decides how to handle a request with the given method, with or
    /// without parameters. The notification that the client is initialized
    /// marks the session ready and gets no answer.
    pub fn route(&mut self, method: &str, has_params: bool) -> (r: Route)
        ensures
            route_matches(r, method_kind(method@), has_params),
            final(self).client_ready() == (old(self).client_ready() || method_kind(method@)
                == RequestKind::InitializedNotification),
    {
        let kind = classify_method(method);
        proof {
            reveal_strlit("Method not found");
            reveal_strlit("Invalid params");
        }
        match kind {
            RequestKind::Unknown => Route::Reject(
                RpcErrorInfo { code: METHOD_NOT_FOUND, message: "Method not found".to_owned() },
            ),
            RequestKind::InitializedNotification => {
                self.initialized = true;
                Route::NoReply
            },
            _ => {
                if !has_params {
                    Route::Reject(
                        RpcErrorInfo { code: INVALID_PARAMS, message: "Invalid params".to_owned() },
                    )
                } else {
                    match kind {
                        RequestKind::Initialize => Route::Initialize,
                        RequestKind::ListTools => Route::ListTools,
                        _ => Route::CallTool,
                    }
                }
            },
        }
    }
}

/// The error sent when a tool fails.
pub fn tool_failure() -> (r: RpcErrorInfo)
    ensures
        r.code == INTERNAL_ERROR,
        r.message@ == "Tool execution failed"@,
{
    proof {
        reveal_strlit("Tool execution failed");
    }
    RpcErrorInfo { code: INTERNAL_ERROR, message: "Tool execution failed".to_owned() }
}

/// The error sent when the server fails on a request it could not read.
pub fn internal_failure() -> (r: RpcErrorInfo)
    ensures
        r.code == INTERNAL_ERROR,
        r.message@ == "Internal error"@,
{
    proof {
        reveal_strlit("Internal error");
    }
    RpcErrorInfo { code: INTERNAL_ERROR, message: "Internal error".to_owned() }
}

/// The tool that checks the configured credentials.
pub struct TestAuthTool {
    config: JiraConfig,
}

impl TestAuthTool {
    /// The configuration the tool reports on.
    pub closed spec fn settings(&self) -> JiraConfig {
        self.config
    }

    /// A tool for the given configuration.
    pub fn new(config: JiraConfig) -> (r: Self)
        ensures
            r.settings() == config,
    {
        TestAuthTool { config }
    }

    /// The configuration the tool reports on.
    pub fn config(&self) -> (r: &JiraConfig)
        ensures
            *r == self.settings(),
    {
        &self.config
    }
}

/// A request is never answered both with a result and an error: an unknown
/// method is refused as not found, a known one without parameters as having
/// invalid parameters, and the notification is never answered.
pub proof fn law_refusals(r: Route, method: Seq<char>, has_params: bool)
    requires
        route_matches(r, method_kind(method), has_params),
    ensures
        method_kind(method) == RequestKind::Unknown ==> (r matches Route::Reject(e) && e.code
            == METHOD_NOT_FOUND),
        method_kind(method) == RequestKind::InitializedNotification ==> r is NoReply,
        method_kind(method) != RequestKind::Unknown && method_kind(method)
            != RequestKind::InitializedNotification && !has_params ==> (r matches Route::Reject(e)
            && e.code == INVALID_PARAMS),
        method == "tools/call"@ && has_params ==> r is CallTool,
{
    reveal_strlit("initialize");
    reveal_strlit("tools/list");
    reveal_strlit("tools/call");
    assert("tools/call"@[0] != "initialize"@[0]);
    assert("tools/call"@[6] != "tools/list"@[6]);
}

} // verus!
