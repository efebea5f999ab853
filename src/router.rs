//! The fixed tool table and the dispatcher that routes a named call to it.

use vstd::prelude::*;
use crate::handler::{ErrorCode, ToolError};
use crate::models::{CloseWindowParams, EmptyParams, ScreenshotParams, WindowScreenshotParams};
use crate::params::{optional_u32, required_u32, RawParams};

verus! {

/// The parameters a tool declares.
#[derive(Clone, Copy, Debug, PartialEq, Eq, Structural)]
pub enum ParamsShape {
    /// No parameters.
    Empty,
    /// An optional unsigned `monitor_index`.
    MonitorIndex,
    /// A required unsigned `window_id`.
    WindowId,
}

/// One registered tool: its name, what it does, and its parameters.
#[derive(Clone, Debug)]
pub struct ToolSpec {
    pub name: String,
    pub description: String,
    pub params: ParamsShape,
}

/// A routed call: the tool to run and its decoded parameters.
#[derive(Clone, Copy, Debug, PartialEq, Eq, Structural)]
pub enum ToolCall {
    ListMonitors(EmptyParams),
    CaptureMonitor(ScreenshotParams),
    ListWindows(EmptyParams),
    CaptureWindow(WindowScreenshotParams),
    CloseWindow(CloseWindowParams),
}

/// What the server declares when a session is negotiated.
#[derive(Clone, Debug)]
pub struct ServerInfo {
    pub protocol_version: String,
    pub name: String,
    pub version: String,
    pub instructions: String,
    /// The server offers tools; it declares no other capability.
    pub tools: bool,
}

/// The server: a fixed, immutable tool table, shared by every session.
#[derive(Clone, Copy, Debug, PartialEq, Eq, Structural)]
pub struct WindowCapServer {}

/// The names of the tools, in the order they are listed.
pub open spec fn tool_names() -> Seq<Seq<char>> {
    seq![
        "get_monitor_count"@,
        "get_screen_screenshot"@,
        "get_window_list"@,
        "get_window_screenshot"@,
        "close_window"@,
    ]
}

/// The parameters of each tool, in the order they are listed.
pub open spec fn tool_shapes() -> Seq<ParamsShape> {
    seq![
        ParamsShape::Empty,
        ParamsShape::MonitorIndex,
        ParamsShape::Empty,
        ParamsShape::WindowId,
        ParamsShape::WindowId,
    ]
}

/// Some tool is registered under `name`.
pub open spec fn is_registered(name: Seq<char>) -> bool {
    tool_names().contains(name)
}

/// The error message of an argument object that does not decode.
pub open spec fn decode_failure(reason: Seq<char>) -> Seq<char> {
    "invalid parameters: "@ + reason
}

/// The error message of an unknown tool.
pub open spec fn unknown_tool() -> Seq<char> {
    "tool not found"@
}

/// Where a call to `name` with the argument entries `entries` is routed, or
/// the kind and message of the error it gets.
pub open spec fn dispatched(name: Seq<char>, entries: Seq<(String, crate::params::ParamValue)>) -> Result<
    ToolCall,
    (ErrorCode, Seq<char>),
> {
    if name == "get_monitor_count"@ {
        Ok(ToolCall::ListMonitors(EmptyParams {  }))
    } else if name == "get_screen_screenshot"@ {
        match optional_u32(entries, "monitor_index"@) {
            Ok(m) => Ok(ToolCall::CaptureMonitor(ScreenshotParams { monitor_index: m })),
            Err(e) => Err((ErrorCode::InvalidParams, decode_failure(e))),
        }
    } else if name == "get_window_list"@ {
        Ok(ToolCall::ListWindows(EmptyParams {  }))
    } else if name == "get_window_screenshot"@ {
        match required_u32(entries, "window_id"@) {
            Ok(id) => Ok(ToolCall::CaptureWindow(WindowScreenshotParams { window_id: id })),
            Err(e) => Err((ErrorCode::InvalidParams, decode_failure(e))),
        }
    } else if name == "close_window"@ {
        match required_u32(entries, "window_id"@) {
            Ok(id) => Ok(ToolCall::CloseWindow(CloseWindowParams { window_id: id })),
            Err(e) => Err((ErrorCode::InvalidParams, decode_failure(e))),
        }
    } else {
        Err((ErrorCode::MethodNotFound, unknown_tool()))
    }
}

fn invalid_params(reason: String) -> (r: ToolError)
    ensures
        r.code == ErrorCode::InvalidParams,
        r.message@ == decode_failure(reason@),
{
    let mut message = String::from_str("invalid parameters: ");
    message.append(reason.as_str());
    ToolError { code: ErrorCode::InvalidParams, message }
}

fn tool(name: &str, description: &str, params: ParamsShape) -> (r: ToolSpec)
    ensures
        r.name@ == name@,
        r.description@ == description@,
        r.params == params,
{
    ToolSpec { name: String::from_str(name), description: String::from_str(description), params }
}

impl WindowCapServer {
    /// A server with the fixed tool table.
    pub fn new() -> (r: WindowCapServer) {
        WindowCapServer {  }
    }

    /// The registered tools, each with its name, description and parameters.
    pub fn tools(&self) -> (r: Vec<ToolSpec>)
        ensures
            r@.len() == 5,
            forall|i: int| 0 <= i < 5 ==> (#[trigger] r@[i]).name@ == tool_names()[i]
                && r@[i].params == tool_shapes()[i],
            r@[0].description@ == "Get the number and details of monitors"@,
            r@[1].description@ == "Get a screenshot of the specified monitor"@,
            r@[2].description@ == "Get a list of all windows"@,
            r@[3].description@ == "Get a screenshot of the specified window"@,
            r@[4].description@ == "Close a window"@,
    {
        vec![
            tool(
                "get_monitor_count",
                "Get the number and details of monitors",
                ParamsShape::Empty,
            ),
            tool(
                "get_screen_screenshot",
                "Get a screenshot of the specified monitor",
                ParamsShape::MonitorIndex,
            ),
            tool("get_window_list", "Get a list of all windows", ParamsShape::Empty),
            tool(
                "get_window_screenshot",
                "Get a screenshot of the specified window",
                ParamsShape::WindowId,
            ),
            tool("close_window", "Close a window", ParamsShape::WindowId),
        ]
    }

    /// What the server declares to a client: protocol version 2024-11-05,
    /// the tools capability and nothing else.
    pub fn get_info(&self) -> (r: ServerInfo)
        ensures
            r.protocol_version@ == "2024-11-05"@,
            r.name@ == "window-cap-mcp"@,
            r.version@ == "0.2.0"@,
            r.instructions@ == "Cross-platform window and screen screenshot MCP server."@,
            r.tools,
    {
        ServerInfo {
            protocol_version: String::from_str("2024-11-05"),
            name: String::from_str("window-cap-mcp"),
            version: String::from_str("0.2.0"),
            instructions: String::from_str(
                "Cross-platform window and screen screenshot MCP server.",
            ),
            tools: true,
        }
    }

    /// Routes a call to the tool named `name`, decoding `params` against the
    /// parameters that tool declares.
    pub fn dispatch(&self, name: &String, params: &RawParams) -> (r: Result<ToolCall, ToolError>)
        ensures
            match (r, dispatched(name@, params.entries@)) {
                (Ok(c), Ok(d)) => c == d,
                (Err(e), Err((code, message))) => e.code == code && e.message@ == message,
                _ => false,
            },
    {
        if *name == String::from_str("get_monitor_count") {
            Ok(ToolCall::ListMonitors(EmptyParams::decode(params)))
        } else if *name == String::from_str("get_screen_screenshot") {
            match ScreenshotParams::decode(params) {
                Ok(p) => Ok(ToolCall::CaptureMonitor(p)),
                Err(e) => Err(invalid_params(e)),
            }
        } else if *name == String::from_str("get_window_list") {
            Ok(ToolCall::ListWindows(EmptyParams::decode(params)))
        } else if *name == String::from_str("get_window_screenshot") {
            match WindowScreenshotParams::decode(params) {
                Ok(p) => Ok(ToolCall::CaptureWindow(p)),
                Err(e) => Err(invalid_params(e)),
            }
        } else if *name == String::from_str("close_window") {
            match CloseWindowParams::decode(params) {
                Ok(p) => Ok(ToolCall::CloseWindow(p)),
                Err(e) => Err(invalid_params(e)),
            }
        } else {
            Err(ToolError { code: ErrorCode::MethodNotFound, message: String::from_str("tool not found") })
        }
    }
}

} // verus!
