//! The MCP server's side of JSON-RPC 2.0: what a message asks for, and what is
//! answered. Messages and answers are JSON texts of one line each.

use crate::envelope::{law_tenant_settings_pass_through, nobody};
use crate::error::{ErrorView, GatewayError, GatewayResult};
use crate::ids::Uuid;
use crate::json::{
    compact_text, display_text, json_compact, json_pretty, json_read, pretty_text, read, reads_as,
    reads_back, Json, JsonView,
};
use crate::text::{
    decimal, decimal_text, is_middle, joined, law_blank_is_whitespace_alone,
    law_trimmed_is_the_middle, same, trim, trimmed, whitespace,
};
use crate::tools::{optional_json, RunRequestView, RunSubagentRequest};
use crate::urn::UrnView;
use vstd::prelude::*;

verus! {

broadcast use vstd::string::group_string_axioms;

/// The protocol version that the server offers.
pub const MCP_PROTOCOL_VERSION: &'static str = "2024-11-05";

// ---------------------------------------------------------------------------
// Answers
// ---------------------------------------------------------------------------

/// The answer that a request failed.
pub open spec fn error_reply(id: JsonView, code: int, message: Seq<char>) -> JsonView {
    JsonView::object().with("jsonrpc"@, JsonView::Text("2.0"@)).with("id"@, id).with(
        "error"@,
        JsonView::object().with("code"@, JsonView::Int(code)).with(
            "message"@,
            JsonView::Text(message),
        ),
    )
}

/// The answer that a request succeeded.
pub open spec fn result_reply(id: JsonView, result: JsonView) -> JsonView {
    JsonView::object().with("jsonrpc"@, JsonView::Text("2.0"@)).with("id"@, id).with(
        "result"@,
        result,
    )
}

impl ErrorView {
    /// The JSON-RPC code of the error.
    pub open spec fn code(self) -> int {
        match self {
            ErrorView::Unsupported(_) => -32601,
            ErrorView::Invalid(_) => -32602,
            ErrorView::TaskTimeout { .. } => -32000,
            ErrorView::TaskFailed(_) => -32000,
            ErrorView::ControlPlane(_) => -32001,
            ErrorView::Io(_) => -32603,
        }
    }

    /// What the answer says of the error.
    pub open spec fn reply_text(self) -> Seq<char> {
        match self {
            ErrorView::Unsupported(feature) => feature,
            ErrorView::Invalid(message) => message,
            ErrorView::TaskTimeout { seconds } => "task timeout after "@ + decimal(seconds as nat)
                + "s"@,
            ErrorView::TaskFailed(message) => "task failed: "@ + message,
            ErrorView::ControlPlane(message) => "control-plane: "@ + message,
            ErrorView::Io(message) => "io: "@ + message,
        }
    }
}

/// The answer to a request that ended so.
pub open spec fn reply(id: JsonView, outcome: Result<JsonView, ErrorView>) -> JsonView {
    match outcome {
        Ok(result) => result_reply(id, result),
        Err(error) => error_reply(id, error.code(), error.reply_text()),
    }
}

/// The answer to a message that ended so: none where the message has no id.
pub open spec fn reply_if_asked(
    id: Option<JsonView>,
    outcome: Result<JsonView, ErrorView>,
) -> Option<JsonView> {
    match id {
        Some(id) => Some(reply(id, outcome)),
        None => None,
    }
}

/// The answer that a request failed.
pub fn error_response(id: Json, code: i64, message: String) -> (response: Json)
    ensures
        response@ == error_reply(id@, code as int, message@),
{
    Json::object().with("jsonrpc", Json::text("2.0")).with("id", id).with(
        "error",
        Json::object().with("code", Json::Int(code)).with("message", Json::Text(message)),
    )
}

/// The answer to a message that ended so: none where the message has no id.
pub fn respond(id: Option<Json>, outcome: GatewayResult<Json>) -> (response: Option<Json>)
    ensures
        optional_json(response) == reply_if_asked(
            optional_json(id),
            crate::error::outcome(outcome),
        ),
{
    let id = match id {
        Some(id) => id,
        None => {
            return None;
        },
    };
    let response = match outcome {
        Ok(result) => Json::object().with("jsonrpc", Json::text("2.0")).with("id", id).with(
            "result",
            result,
        ),
        Err(GatewayError::Unsupported(feature)) => {
            error_response(id, -32601, feature.to_owned())
        },
        Err(GatewayError::Invalid(message)) => error_response(id, -32602, message),
        Err(GatewayError::TaskTimeout { seconds }) => {
            let text = joined(&joined("task timeout after ", &decimal_text(seconds)), "s");
            error_response(id, -32000, text)
        },
        Err(GatewayError::TaskFailed(message)) => {
            error_response(id, -32000, joined("task failed: ", &message))
        },
        Err(GatewayError::ControlPlane(message)) => {
            error_response(id, -32001, joined("control-plane: ", &message))
        },
        Err(GatewayError::Io(message)) => error_response(id, -32603, joined("io: ", &message)),
    };
    Some(response)
}

// ---------------------------------------------------------------------------
// What the server says of itself
// ---------------------------------------------------------------------------

/// The result of `initialize`, for a server of the given version.
pub open spec fn initialize_result(version: Seq<char>) -> JsonView {
    JsonView::object().with("protocolVersion"@, JsonView::Text(MCP_PROTOCOL_VERSION@)).with(
        "capabilities"@,
        JsonView::object().with("tools"@, JsonView::object()),
    ).with(
        "serverInfo"@,
        JsonView::object().with("name"@, JsonView::Text("hive-mcp-gateway"@)).with(
            "version"@,
            JsonView::Text(version),
        ),
    )
}

/// The result of `initialize`, for a server of the given version.
pub fn handle_initialize(version: &str) -> (result: Json)
    ensures
        result@ == initialize_result(version@),
{
    Json::object().with("protocolVersion", Json::text(MCP_PROTOCOL_VERSION)).with(
        "capabilities",
        Json::object().with("tools", Json::object()),
    ).with(
        "serverInfo",
        Json::object().with("name", Json::text("hive-mcp-gateway")).with(
            "version",
            Json::text(version),
        ),
    )
}

/// A tool in the list: its name, what it does, and the arguments it takes.
pub open spec fn tool_entry(
    name: Seq<char>,
    description: Seq<char>,
    properties: JsonView,
    required: JsonView,
) -> JsonView {
    JsonView::object().with("name"@, JsonView::Text(name)).with(
        "description"@,
        JsonView::Text(description),
    ).with(
        "inputSchema"@,
        JsonView::object().with("type"@, JsonView::Text("object"@)).with(
            "properties"@,
            properties,
        ).with("required"@, required),
    )
}

fn tool(name: &str, description: &str, properties: Json, required: Json) -> (entry: Json)
    ensures
        entry@ == tool_entry(name@, description@, properties@, required@),
{
    Json::object().with("name", Json::text(name)).with(
        "description",
        Json::text(description),
    ).with(
        "inputSchema",
        Json::object().with("type", Json::text("object")).with("properties", properties).with(
            "required",
            required,
        ),
    )
}

/// An argument that is a text.
pub open spec fn text_argument(description: Seq<char>) -> JsonView {
    JsonView::object().with("type"@, JsonView::Text("string"@)).with(
        "description"@,
        JsonView::Text(description),
    )
}

fn text_property(description: &str) -> (property: Json)
    ensures
        property@ == text_argument(description@),
{
    Json::object().with("type", Json::text("string")).with("description", Json::text(description))
}

/// An argument that is an integer from `least` on.
pub open spec fn integer_argument(least: int) -> JsonView {
    JsonView::object().with("type"@, JsonView::Text("integer"@)).with(
        "minimum"@,
        JsonView::Int(least),
    )
}

fn integer_property(least: i64) -> (property: Json)
    ensures
        property@ == integer_argument(least as int),
{
    Json::object().with("type", Json::text("integer")).with("minimum", Json::Int(least))
}

/// The arguments of `run_subagent`.
pub open spec fn run_subagent_arguments() -> JsonView {
    JsonView::object().with(
        "model_id"@,
        text_argument(
            "Canonical model identifier, e.g. \"qwen2.5:0.5b\", \"gemma:2b\", \"llama3.2:3b\". Pick one of model_id or capability_urn."@,
        ),
    ).with(
        "capability_urn"@,
        text_argument(
            "Full capability URN, e.g. \"oasf://commons/inference/qwen2.5-0.5b/v1\". Pick one of model_id or capability_urn. If both are given, capability_urn wins."@,
        ),
    ).with(
        "prompt"@,
        text_argument(
            "The instruction. Encodes the workload. Examples: \"Classify: 'great game!' as positive | negative.\" or \"Summarise in one sentence: <text>\" or \"Extract entities from: <text>\"."@,
        ),
    ).with(
        "profile"@,
        text_argument("LLM profile name on the comb. Defaults to \"default\"."@).with(
            "default"@,
            JsonView::Text("default"@),
        ),
    ).with("timeout_seconds"@, integer_argument(1).with("default"@, JsonView::Int(60)))
}

fn run_subagent_properties() -> (properties: Json)
    ensures
        properties@ == run_subagent_arguments(),
{
    Json::object().with(
        "model_id",
        text_property(
            "Canonical model identifier, e.g. \"qwen2.5:0.5b\", \"gemma:2b\", \"llama3.2:3b\". Pick one of model_id or capability_urn.",
        ),
    ).with(
        "capability_urn",
        text_property(
            "Full capability URN, e.g. \"oasf://commons/inference/qwen2.5-0.5b/v1\". Pick one of model_id or capability_urn. If both are given, capability_urn wins.",
        ),
    ).with(
        "prompt",
        text_property(
            "The instruction. Encodes the workload. Examples: \"Classify: 'great game!' as positive | negative.\" or \"Summarise in one sentence: <text>\" or \"Extract entities from: <text>\".",
        ),
    ).with(
        "profile",
        text_property("LLM profile name on the comb. Defaults to \"default\".").with(
            "default",
            Json::text("default"),
        ),
    ).with("timeout_seconds", integer_property(1).with("default", Json::Int(60)))
}

/// The entry of `describe_cluster`.
pub open spec fn describe_cluster_entry() -> JsonView {
    tool_entry(
        "describe_cluster"@,
        "List the capabilities (workloads) HiveFabric can serve, with cost estimates and live worker counts."@,
        JsonView::object(),
        JsonView::array(),
    )
}

/// The entry of `run_subagent`.
pub open spec fn run_subagent_entry() -> JsonView {
    tool_entry(
        "run_subagent"@,
        "Run a generic-inference task on the HiveFabric network. Pick a model (by model_id like \"qwen2.5:0.5b\" OR by full capability_urn like \"oasf://commons/inference/qwen2.5-0.5b/v1\") and send a prompt. The 'what' (classify, summarise, extract, rerank, …) lives in the prompt itself — there are no special-case workload schemas. Returns the model's response synchronously after the task completes or fails."@,
        run_subagent_arguments(),
        JsonView::array().item(JsonView::Text("prompt"@)),
    )
}

/// The entry of `estimate_cost`.
pub open spec fn estimate_cost_entry() -> JsonView {
    tool_entry(
        "estimate_cost"@,
        "Pre-execution cost estimate for a HiveFabric capability call."@,
        JsonView::object().with(
            "capability_urn"@,
            JsonView::object().with("type"@, JsonView::Text("string"@)),
        ).with("input_size_tokens"@, integer_argument(0)),
        JsonView::array().item(JsonView::Text("capability_urn"@)).item(
            JsonView::Text("input_size_tokens"@),
        ),
    )
}

/// The result of `tools/list`.
pub open spec fn tools_list_result() -> JsonView {
    JsonView::object().with(
        "tools"@,
        JsonView::array().item(describe_cluster_entry()).item(run_subagent_entry()).item(
            estimate_cost_entry(),
        ),
    )
}

/// The result of `tools/list`.
pub fn handle_tools_list() -> (result: Json)
    ensures
        result@ == tools_list_result(),
{
    let describe_cluster = tool(
        "describe_cluster",
        "List the capabilities (workloads) HiveFabric can serve, with cost estimates and live worker counts.",
        Json::object(),
        Json::array(),
    );
    let run_subagent = tool(
        "run_subagent",
        "Run a generic-inference task on the HiveFabric network. Pick a model (by model_id like \"qwen2.5:0.5b\" OR by full capability_urn like \"oasf://commons/inference/qwen2.5-0.5b/v1\") and send a prompt. The 'what' (classify, summarise, extract, rerank, …) lives in the prompt itself — there are no special-case workload schemas. Returns the model's response synchronously after the task completes or fails.",
        run_subagent_properties(),
        Json::array().item(Json::text("prompt")),
    );
    let estimate_cost = tool(
        "estimate_cost",
        "Pre-execution cost estimate for a HiveFabric capability call.",
        Json::object().with(
            "capability_urn",
            Json::object().with("type", Json::text("string")),
        ).with("input_size_tokens", integer_property(0)),
        Json::array().item(Json::text("capability_urn")).item(Json::text("input_size_tokens")),
    );
    Json::object().with(
        "tools",
        Json::array().item(describe_cluster).item(run_subagent).item(estimate_cost),
    )
}

// ---------------------------------------------------------------------------
// What a message asks for
// ---------------------------------------------------------------------------

/// A tool to call, with its arguments.
#[derive(Debug, Clone)]
pub enum ToolCall {
    DescribeCluster,
    RunSubagent { arguments: Json },
    EstimateCost { arguments: Json },
}

/// Which tool is to be called, and with what.
pub enum CallView {
    DescribeCluster,
    RunSubagent { arguments: JsonView },
    EstimateCost { arguments: JsonView },
}

impl View for ToolCall {
    type V = CallView;

    open spec fn view(&self) -> CallView {
        match self {
            ToolCall::DescribeCluster => CallView::DescribeCluster,
            ToolCall::RunSubagent { arguments } => CallView::RunSubagent { arguments: arguments@ },
            ToolCall::EstimateCost { arguments } => {
                CallView::EstimateCost { arguments: arguments@ }
            },
        }
    }
}

/// What to do about a message.
#[derive(Debug)]
pub enum Action {
    /// Nothing.
    Silence,
    /// Answer so.
    Reply(Json),
    /// Call the tool, and finish with its outcome. The id is that of the
    /// message, if it has one.
    Call { id: Option<Json>, call: ToolCall },
}

/// What is to be done about a message.
pub enum ActionView {
    Silence,
    Reply(JsonView),
    Call { id: Option<JsonView>, call: CallView },
}

impl View for Action {
    type V = ActionView;

    open spec fn view(&self) -> ActionView {
        match self {
            Action::Silence => ActionView::Silence,
            Action::Reply(json) => ActionView::Reply(json@),
            Action::Call { id, call } => ActionView::Call { id: optional_json(*id), call: call@ },
        }
    }
}

/// The member `name` as a text, if it is one.
pub open spec fn text_member(json: JsonView, name: Seq<char>) -> Option<Seq<char>> {
    match json.get(name) {
        Some(member) => member.as_str(),
        None => None,
    }
}

/// The member `name`, or null.
pub open spec fn member_or_null(json: JsonView, name: Seq<char>) -> JsonView {
    match json.get(name) {
        Some(member) => member,
        None => JsonView::Null,
    }
}

/// The arguments for a task without the members that a raw caller does not set:
/// the tenant and the sensitivity tier.
pub open spec fn of_raw_caller(arguments: JsonView) -> JsonView {
    arguments.without("tenant_id"@).without("sensitivity_required"@)
}

/// The tool that `tools/call` asks for with these parameters, or why there is
/// none.
pub open spec fn tool_call_of(params: JsonView) -> Result<CallView, ErrorView> {
    let arguments = member_or_null(params, "arguments"@);
    match text_member(params, "name"@) {
        None => Err(ErrorView::Invalid("missing tool name"@)),
        Some(name) => if name == "describe_cluster"@ {
            Ok(CallView::DescribeCluster)
        } else if name == "run_subagent"@ {
            Ok(CallView::RunSubagent { arguments: of_raw_caller(arguments) })
        } else if name == "estimate_cost"@ {
            Ok(CallView::EstimateCost { arguments })
        } else {
            Err(ErrorView::Invalid("unknown tool: "@ + name))
        },
    }
}

/// What to do about a message that ended so: answer it if it has an id.
pub open spec fn ended_with(
    id: Option<JsonView>,
    outcome: Result<JsonView, ErrorView>,
) -> ActionView {
    match reply_if_asked(id, outcome) {
        Some(reply) => ActionView::Reply(reply),
        None => ActionView::Silence,
    }
}

/// The method that a message names; none is the empty text.
pub open spec fn method_of(message: JsonView) -> Seq<char> {
    match text_member(message, "method"@) {
        Some(method) => method,
        None => ""@,
    }
}

/// What to do about a message, for a server of the given version.
pub open spec fn action_of(message: JsonView, version: Seq<char>) -> ActionView {
    let id = message.get("id"@);
    let method = method_of(message);
    if method == "initialize"@ {
        ended_with(id, Ok(initialize_result(version)))
    } else if method == "tools/list"@ {
        ended_with(id, Ok(tools_list_result()))
    } else if method == "tools/call"@ {
        match tool_call_of(member_or_null(message, "params"@)) {
            Ok(call) => ActionView::Call { id, call },
            Err(error) => ended_with(id, Err(error)),
        }
    } else if method == "notifications/initialized"@ || method == "notifications/cancelled"@ {
        ActionView::Silence
    } else if method == "ping"@ {
        ended_with(id, Ok(JsonView::object()))
    } else {
        ended_with(id, Err(ErrorView::Invalid("unknown method: "@ + method)))
    }
}

/// What to do about a text that was read as a message, or was not.
pub open spec fn action_on_read(
    message: Result<JsonView, Seq<char>>,
    version: Seq<char>,
) -> ActionView {
    match message {
        Ok(message) => action_of(message, version),
        Err(error) => ActionView::Reply(
            error_reply(JsonView::Null, -32700, "parse error: "@ + error),
        ),
    }
}

/// The member `name`, or null.
fn copy_or_null(json: &Json, name: &str) -> (member: Json)
    ensures
        member@ == member_or_null(json@, name@),
{
    match json.get(name) {
        Some(member) => member.clone(),
        None => Json::Null,
    }
}

/// The tool that `tools/call` asks for with these parameters, or why there is
/// none.
pub fn handle_tools_call(params: &Json) -> (call: GatewayResult<ToolCall>)
    ensures
        crate::error::outcome(call) == tool_call_of(params@),
{
    let name = match params.get("name") {
        Some(member) => member.as_str(),
        None => None,
    };
    let name = match name {
        Some(name) => name,
        None => {
            return Err(GatewayError::invalid("missing tool name"));
        },
    };
    let arguments = copy_or_null(params, "arguments");
    if same(name, "describe_cluster") {
        Ok(ToolCall::DescribeCluster)
    } else if same(name, "run_subagent") {
        let arguments = arguments.without("tenant_id").without("sensitivity_required");
        Ok(ToolCall::RunSubagent { arguments })
    } else if same(name, "estimate_cost") {
        Ok(ToolCall::EstimateCost { arguments })
    } else {
        Err(GatewayError::Invalid(joined("unknown tool: ", name)))
    }
}

/// The task that a raw caller asks for: it says neither which tenant it is nor
/// which sensitivity tier it needs, however its arguments were written.
pub fn for_raw_caller(request: RunSubagentRequest) -> (taken: RunSubagentRequest)
    ensures
        taken@ == (RunRequestView { tenant_id: None, sensitivity_required: None, ..request@ }),
        taken@ == request@.for_raw_caller(),
{
    let mut taken = request;
    taken.tenant_id = None;
    taken.sensitivity_required = None;
    taken
}

/// What to do about a message that ended so: answer it if it has an id.
fn end_with(id: Option<Json>, outcome: GatewayResult<Json>) -> (action: Action)
    ensures
        action@ == ended_with(optional_json(id), crate::error::outcome(outcome)),
{
    match respond(id, outcome) {
        Some(response) => Action::Reply(response),
        None => Action::Silence,
    }
}

/// What to do about a message, for a server of the given version.
pub fn dispatch(message: &Json, version: &str) -> (action: Action)
    ensures
        action@ == action_of(message@, version@),
{
    let id = match message.get("id") {
        Some(id) => Some(id.clone()),
        None => None,
    };
    let method = match message.get("method") {
        Some(member) => member.as_str(),
        None => None,
    };
    let method = match method {
        Some(method) => method,
        None => "",
    };
    if same(method, "initialize") {
        end_with(id, Ok(handle_initialize(version)))
    } else if same(method, "tools/list") {
        end_with(id, Ok(handle_tools_list()))
    } else if same(method, "tools/call") {
        match handle_tools_call(&copy_or_null(message, "params")) {
            Ok(call) => Action::Call { id, call },
            Err(error) => end_with(id, Err(error)),
        }
    } else if same(method, "notifications/initialized") || same(
        method,
        "notifications/cancelled",
    ) {
        Action::Silence
    } else if same(method, "ping") {
        end_with(id, Ok(Json::object()))
    } else {
        end_with(id, Err(GatewayError::Invalid(joined("unknown method: ", method))))
    }
}

/// What to do about a line that was read as a message, or was not; the error is
/// the reader's.
pub fn dispatch_read(message: Result<Json, String>, version: &str) -> (action: Action)
    ensures
        action@ == action_on_read(
            (match message {
                Ok(message) => Ok(message@),
                Err(error) => Err(error@),
            }),
            version@,
        ),
{
    match message {
        Ok(message) => dispatch(&message, version),
        Err(error) => Action::Reply(
            error_response(Json::Null, -32700, joined("parse error: ", &error)),
        ),
    }
}

/// What to do about a message in JSON, for a server of the given version.
pub fn handle_message(line: &str, version: &str) -> (action: Action)
    ensures
        action@ == action_on_read(json_read(line@), version@),
{
    dispatch_read(read(line), version)
}

/// What to do about a line of input: nothing if it is blank.
pub open spec fn action_on_line(line: Seq<char>, version: Seq<char>) -> ActionView {
    if trimmed(line).len() == 0 {
        ActionView::Silence
    } else {
        action_on_read(json_read(trimmed(line)), version)
    }
}

/// What to do about a line of input: nothing if it is blank.
pub fn handle_line(line: &str, version: &str) -> (action: Action)
    ensures
        action@ == action_on_line(line@, version@),
        action@ == (if trimmed(line@).len() == 0 {
            ActionView::Silence
        } else {
            action_on_read(json_read(trimmed(line@)), version@)
        }),
{
    let message = trim(line);
    if message.is_empty() {
        return Action::Silence;
    }
    handle_message(message, version)
}

// ---------------------------------------------------------------------------
// Finishing a call
// ---------------------------------------------------------------------------

/// The result of `tools/call`: one piece of text.
pub open spec fn text_result(text: Seq<char>) -> JsonView {
    JsonView::object().with(
        "content"@,
        JsonView::array().item(
            JsonView::object().with("type"@, JsonView::Text("text"@)).with(
                "text"@,
                JsonView::Text(text),
            ),
        ),
    )
}

/// The text in which a tool's response is handed out: the indented JSON, or
/// the JSON on one line where that cannot be written.
pub open spec fn response_text(value: JsonView) -> Seq<char> {
    match json_pretty(value) {
        Some(text) => text,
        None => json_compact(value)->Some_0,
    }
}

/// The result of `tools/call` for a tool's response.
pub open spec fn tool_result(value: JsonView) -> JsonView {
    text_result(response_text(value))
}

/// The result of `tools/call`: one piece of text.
pub fn wrap_text(text: String) -> (result: Json)
    ensures
        result@ == text_result(text@),
{
    Json::object().with(
        "content",
        Json::array().item(
            Json::object().with("type", Json::text("text")).with("text", Json::Text(text)),
        ),
    )
}

/// The result of `tools/call` for a tool's response. Its text reads back as the
/// response.
pub fn wrap_tool_result(value: &Json) -> (result: Json)
    ensures
        result@ == tool_result(value@),
        reads_back(value@) ==> reads_as(response_text(value@), value@),
{
    match pretty_text(value) {
        Some(text) => wrap_text(text),
        None => wrap_text(display_text(value)),
    }
}

/// What a call of a tool ended with, as the answer gives it.
pub open spec fn tool_outcome(outcome: Result<JsonView, ErrorView>) -> Result<JsonView, ErrorView> {
    match outcome {
        Ok(value) => Ok(tool_result(value)),
        Err(error) => Err(error),
    }
}

/// The answer to a message whose tool ended so: none where the message has no
/// id.
pub fn finish_call(id: Option<Json>, outcome: GatewayResult<Json>) -> (response: Option<Json>)
    ensures
        optional_json(response) == reply_if_asked(
            optional_json(id),
            tool_outcome(crate::error::outcome(outcome)),
        ),
{
    match outcome {
        Ok(value) => respond(id, Ok(wrap_tool_result(&value))),
        Err(error) => respond(id, Err(error)),
    }
}

/// The error for arguments that `tool` cannot take, for the reason given.
pub fn bad_arguments(tool: &str, reason: &str) -> (error: GatewayError)
    ensures
        error@ == ErrorView::Invalid(tool@ + " args: "@ + reason@),
{
    let mut message = joined(tool, " args: ");
    message.append(reason);
    GatewayError::Invalid(message)
}

/// The line that answers, without its line feed.
pub open spec fn line_of(written: Option<Seq<char>>) -> Seq<char> {
    match written {
        Some(text) => text,
        None => "{\"error\":{\"code\":-32603,\"message\":\"internal serialize\"},\"jsonrpc\":\"2.0\"}"@,
    }
}

/// The line that answers, without its line feed: the answer as it was written,
/// or an internal error where it was not.
pub fn line_or_internal_error(written: Option<String>) -> (line: String)
    ensures
        line@ == line_of(written.deep_view()),
        (written matches Some(text) ==> !text@.contains('\n')) ==> !line@.contains('\n'),
{
    match written {
        Some(text) => text,
        None => {
            proof {
                reveal_strlit(
                    "{\"error\":{\"code\":-32603,\"message\":\"internal serialize\"},\"jsonrpc\":\"2.0\"}",
                );
            }
            "{\"error\":{\"code\":-32603,\"message\":\"internal serialize\"},\"jsonrpc\":\"2.0\"}".to_owned()
        },
    }
}

/// The line that answers, without its line feed. It holds no line feed itself,
/// so an answer is one line, and it reads back as the answer.
pub fn response_line(response: &Json) -> (line: String)
    ensures
        line@ == line_of(json_compact(response@)),
        !line@.contains('\n'),
        reads_back(response@) ==> reads_as(line@, response@),
{
    line_or_internal_error(compact_text(response))
}

// ---------------------------------------------------------------------------
// Laws
// ---------------------------------------------------------------------------

/// An answer carries the protocol's version and the id that it answers, and
/// either a result or an error, not both.
pub proof fn law_answer_carries_the_id(id: JsonView, outcome: Result<JsonView, ErrorView>)
    ensures
        reply(id, outcome).get("jsonrpc"@) == Some(JsonView::Text("2.0"@)),
        reply(id, outcome).get("id"@) == Some(id),
        reply(id, outcome).get("result"@) == (match outcome {
            Ok(result) => Some(result),
            Err(_) => None,
        }),
        reply(id, outcome).get("error"@) is Some <==> outcome is Err,
{
    reveal_strlit("jsonrpc");
    reveal_strlit("id");
    reveal_strlit("result");
    reveal_strlit("error");
    assert("jsonrpc"@.len() == 7);
    assert("id"@.len() == 2);
    assert("result"@.len() == 6);
    assert("error"@.len() == 5);
}

/// A message without an id is never answered, whatever it asks for and
/// whatever comes of it.
pub proof fn law_no_id_no_answer(
    message: JsonView,
    version: Seq<char>,
    outcome: Result<JsonView, ErrorView>,
)
    requires
        message.get("id"@) is None,
    ensures
        action_of(message, version) !is Reply,
        action_of(message, version) matches ActionView::Call { id, call: _ } ==> reply_if_asked(
            id,
            outcome,
        ) is None,
{
}

/// A notification, whichever it is, is taken without a word.
pub proof fn law_notifications_are_silent(message: JsonView, version: Seq<char>)
    requires
        message.get("id"@) is None,
        "notifications/"@.is_prefix_of(method_of(message)),
    ensures
        action_of(message, version) == ActionView::Silence,
{
    reveal_strlit("notifications/");
    reveal_strlit("tools/call");
    assert("notifications/"@.len() == 14);
    assert("tools/call"@.len() == 10);
}

/// A message with an id is answered under that id, at once or after a call,
/// unless it is one of the two notifications.
pub proof fn law_requests_are_answered(
    message: JsonView,
    version: Seq<char>,
    id: JsonView,
    outcome: Result<JsonView, ErrorView>,
)
    requires
        message.get("id"@) == Some(id),
        method_of(message) != "notifications/initialized"@,
        method_of(message) != "notifications/cancelled"@,
    ensures
        match action_of(message, version) {
            ActionView::Silence => false,
            ActionView::Reply(answer) => exists|o: Result<JsonView, ErrorView>|
                answer == #[trigger] reply(id, o),
            ActionView::Call { id: asked, call: _ } => reply_if_asked(asked, outcome) == Some(
                reply(id, outcome),
            ),
        },
{
    let method = method_of(message);
    if method == "initialize"@ {
        assert(action_of(message, version) == ActionView::Reply(
            reply(id, Ok(initialize_result(version))),
        ));
    } else if method == "tools/list"@ {
        assert(action_of(message, version) == ActionView::Reply(
            reply(id, Ok(tools_list_result())),
        ));
    } else if method == "tools/call"@ {
        if let Err(error) = tool_call_of(member_or_null(message, "params"@)) {
            assert(action_of(message, version) == ActionView::Reply(reply(id, Err(error))));
        }
    } else if method == "ping"@ {
        assert(action_of(message, version) == ActionView::Reply(
            reply(id, Ok(JsonView::object())),
        ));
    } else {
        assert(action_of(message, version) == ActionView::Reply(
            reply(id, Err(ErrorView::Invalid("unknown method: "@ + method))),
        ));
    }
}

/// A raw caller cannot say which tenant it is, nor which sensitivity tier it
/// needs: whatever it asks for, the task carries neither, and nobody is its
/// origin. Its prompt, its budget and the jurisdictions are what it asked for.
pub proof fn law_raw_callers_set_no_tenant(
    request: RunRequestView,
    task_id: Uuid,
    capability: UrnView,
)
    ensures
        request.for_raw_caller().task(task_id) matches Ok(task) ==> {
            &&& task.payload(capability).get("tenant_id"@) is None
            &&& task.payload(capability).get("sensitivity_required"@) is None
            &&& task.origin() == nobody()
            &&& task.prompt == request.prompt
            &&& task.credits_budget == request.credits_budget
            &&& task.jurisdiction_required == request.jurisdiction_required
        },
        request.for_raw_caller().refusal() == request.refusal(),
{
    if let Ok(task) = request.for_raw_caller().task(task_id) {
        law_tenant_settings_pass_through(task, capability);
    }
}

/// Arguments that name a tenant or a sensitivity tier reach the tool without
/// these members, and with the others as they came.
pub proof fn law_named_tenant_is_dropped(params: JsonView, name: Seq<char>)
    ensures
        tool_call_of(params) matches Ok(CallView::RunSubagent { arguments }) ==> {
            &&& arguments.get("tenant_id"@) is None
            &&& arguments.get("sensitivity_required"@) is None
            &&& name != "tenant_id"@ && name != "sensitivity_required"@ ==> arguments.get(name)
                == member_or_null(params, "arguments"@).get(name)
        },
{
}

/// The names of the tools in the list.
pub open spec fn listed(name: Seq<char>) -> bool {
    exists|i: int|
        0 <= i < (tools_list_result().get("tools"@)->Some_0)->Array_0.len() && text_member(
            #[trigger] (tools_list_result().get("tools"@)->Some_0)->Array_0[i],
            "name"@,
        ) == Some(name)
}

/// The tools that can be called are those in the list: each of them is called
/// by its name, and any other name is refused.
pub proof fn law_listed_tools_are_the_callable_ones(params: JsonView, name: Seq<char>)
    requires
        text_member(params, "name"@) == Some(name),
    ensures
        tool_call_of(params) is Ok <==> listed(name),
        !listed(name) ==> tool_call_of(params) == Err::<CallView, ErrorView>(
            ErrorView::Invalid("unknown tool: "@ + name),
        ),
{
    reveal_strlit("name");
    reveal_strlit("description");
    reveal_strlit("inputSchema");
    assert("name"@.len() == 4);
    assert("description"@.len() == 11);
    assert("inputSchema"@.len() == 11);
    let tools = (tools_list_result().get("tools"@)->Some_0)->Array_0;
    assert(tools.len() == 3);
    assert(text_member(tools[0], "name"@) == Some("describe_cluster"@));
    assert(text_member(tools[1], "name"@) == Some("run_subagent"@));
    assert(text_member(tools[2], "name"@) == Some("estimate_cost"@));
}

/// A failed request is answered with these three members: the version, the id,
/// and the error with its code and message.
pub proof fn law_failures_are_answered(id: JsonView, error: ErrorView)
    ensures
        reply(id, Err(error)) == JsonView::Object(
            map![
                "jsonrpc"@ => JsonView::Text("2.0"@),
                "id"@ => id,
                "error"@ => JsonView::Object(
                    map![
                        "code"@ => JsonView::Int(error.code()),
                        "message"@ => JsonView::Text(error.reply_text()),
                    ],
                ),
            ],
        ),
{
}

/// A request that succeeded is answered with these three members: the version,
/// the id, and the result.
pub proof fn law_successes_are_answered(id: JsonView, result: JsonView)
    ensures
        reply(id, Ok(result)) == JsonView::Object(
            map!["jsonrpc"@ => JsonView::Text("2.0"@), "id"@ => id, "result"@ => result],
        ),
{
}

/// Each kind of error has its code, and its answer says what the error holds.
pub proof fn law_codes_and_messages(text: Seq<char>, seconds: u64)
    ensures
        ErrorView::Unsupported(text).code() == -32601,
        ErrorView::Unsupported(text).reply_text() == text,
        ErrorView::Invalid(text).code() == -32602,
        ErrorView::Invalid(text).reply_text() == text,
        (ErrorView::TaskTimeout { seconds }).code() == -32000,
        (ErrorView::TaskTimeout { seconds }).reply_text() == "task timeout after "@ + decimal(
            seconds as nat,
        ) + seq!['s'],
        ErrorView::TaskFailed(text).code() == -32000,
        ErrorView::TaskFailed(text).reply_text() == "task failed: "@ + text,
        ErrorView::ControlPlane(text).code() == -32001,
        ErrorView::ControlPlane(text).reply_text() == "control-plane: "@ + text,
        ErrorView::Io(text).code() == -32603,
        ErrorView::Io(text).reply_text() == "io: "@ + text,
{
    reveal_strlit("s");
    assert("s"@ =~= seq!['s']);
}

/// A message with an id is answered, and one without is not.
pub proof fn law_an_id_asks_for_an_answer(id: JsonView, outcome: Result<JsonView, ErrorView>)
    ensures
        reply_if_asked(Some(id), outcome) == Some(reply(id, outcome)),
        reply_if_asked(None, outcome) is None,
        ended_with(Some(id), outcome) == ActionView::Reply(reply(id, outcome)),
        ended_with(None, outcome) == ActionView::Silence,
{
}

/// The server says which protocol it speaks, that it has tools, and what it is.
pub proof fn law_server_says_what_it_is(version: Seq<char>)
    ensures
        initialize_result(version) == JsonView::Object(
            map![
                "protocolVersion"@ => JsonView::Text("2024-11-05"@),
                "capabilities"@ => JsonView::Object(
                    map!["tools"@ => JsonView::Object(Map::empty())],
                ),
                "serverInfo"@ => JsonView::Object(
                    map![
                        "name"@ => JsonView::Text("hive-mcp-gateway"@),
                        "version"@ => JsonView::Text(version),
                    ],
                ),
            ],
        ),
{
}

/// An entry of the list gives a tool's name, what it does, and the arguments it
/// takes and requires.
pub proof fn law_entries_describe_their_tool(
    name: Seq<char>,
    description: Seq<char>,
    properties: JsonView,
    required: JsonView,
)
    ensures
        tool_entry(name, description, properties, required) == JsonView::Object(
            map![
                "name"@ => JsonView::Text(name),
                "description"@ => JsonView::Text(description),
                "inputSchema"@ => JsonView::Object(
                    map![
                        "type"@ => JsonView::Text("object"@),
                        "properties"@ => properties,
                        "required"@ => required,
                    ],
                ),
            ],
        ),
{
}

/// The list is three tools: the cluster's description takes no arguments, a task
/// takes five and requires the prompt, and an estimate takes and requires two.
pub proof fn law_the_list_is_three_tools()
    ensures
        tools_list_result() == JsonView::Object(
            map![
                "tools"@ => JsonView::Array(
                    seq![
                        tool_entry(
                            "describe_cluster"@,
                            "List the capabilities (workloads) HiveFabric can serve, with cost estimates and live worker counts."@,
                            JsonView::Object(Map::empty()),
                            JsonView::Array(Seq::empty()),
                        ),
                        tool_entry(
                            "run_subagent"@,
                            "Run a generic-inference task on the HiveFabric network. Pick a model (by model_id like \"qwen2.5:0.5b\" OR by full capability_urn like \"oasf://commons/inference/qwen2.5-0.5b/v1\") and send a prompt. The 'what' (classify, summarise, extract, rerank, …) lives in the prompt itself — there are no special-case workload schemas. Returns the model's response synchronously after the task completes or fails."@,
                            run_subagent_arguments(),
                            JsonView::Array(seq![JsonView::Text("prompt"@)]),
                        ),
                        tool_entry(
                            "estimate_cost"@,
                            "Pre-execution cost estimate for a HiveFabric capability call."@,
                            JsonView::Object(
                                map![
                                    "capability_urn"@ => JsonView::Object(
                                        map!["type"@ => JsonView::Text("string"@)],
                                    ),
                                    "input_size_tokens"@ => JsonView::Object(
                                        map![
                                            "type"@ => JsonView::Text("integer"@),
                                            "minimum"@ => JsonView::Int(0),
                                        ],
                                    ),
                                ],
                            ),
                            JsonView::Array(
                                seq![
                                    JsonView::Text("capability_urn"@),
                                    JsonView::Text("input_size_tokens"@),
                                ],
                            ),
                        ),
                    ],
                ),
            ],
        ),
{
    let integer = JsonView::Object(
        map!["type"@ => JsonView::Text("integer"@), "minimum"@ => JsonView::Int(0)],
    );
    let string = JsonView::Object(map!["type"@ => JsonView::Text("string"@)]);
    assert(integer_argument(0) == integer);
    assert(JsonView::object().with("type"@, JsonView::Text("string"@)) == string);
    assert(JsonView::object().with("capability_urn"@, string).with("input_size_tokens"@, integer)
        == JsonView::Object(map!["capability_urn"@ => string, "input_size_tokens"@ => integer]));
    let entries = seq![describe_cluster_entry(), run_subagent_entry(), estimate_cost_entry()];
    assert(Seq::empty().push(entries[0]).push(entries[1]).push(entries[2]) =~= entries);
    assert(Seq::empty().push(JsonView::Text("capability_urn"@)).push(
        JsonView::Text("input_size_tokens"@),
    ) =~= seq![JsonView::Text("capability_urn"@), JsonView::Text("input_size_tokens"@)]);
    assert(tools_list_result() == JsonView::Object(map!["tools"@ => JsonView::Array(entries)]));
}

/// A task takes a model or a URN, a prompt, a profile and a time limit, with the
/// defaults that a task gets.
pub proof fn law_a_task_takes_five_arguments()
    ensures
        run_subagent_arguments() == JsonView::Object(
            map![
                "model_id"@ => JsonView::Object(
                    map![
                        "type"@ => JsonView::Text("string"@),
                        "description"@ => JsonView::Text(
                            "Canonical model identifier, e.g. \"qwen2.5:0.5b\", \"gemma:2b\", \"llama3.2:3b\". Pick one of model_id or capability_urn."@,
                        ),
                    ],
                ),
                "capability_urn"@ => JsonView::Object(
                    map![
                        "type"@ => JsonView::Text("string"@),
                        "description"@ => JsonView::Text(
                            "Full capability URN, e.g. \"oasf://commons/inference/qwen2.5-0.5b/v1\". Pick one of model_id or capability_urn. If both are given, capability_urn wins."@,
                        ),
                    ],
                ),
                "prompt"@ => JsonView::Object(
                    map![
                        "type"@ => JsonView::Text("string"@),
                        "description"@ => JsonView::Text(
                            "The instruction. Encodes the workload. Examples: \"Classify: 'great game!' as positive | negative.\" or \"Summarise in one sentence: <text>\" or \"Extract entities from: <text>\"."@,
                        ),
                    ],
                ),
                "profile"@ => JsonView::Object(
                    map![
                        "type"@ => JsonView::Text("string"@),
                        "description"@ => JsonView::Text(
                            "LLM profile name on the comb. Defaults to \"default\"."@,
                        ),
                        "default"@ => JsonView::Text("default"@),
                    ],
                ),
                "timeout_seconds"@ => JsonView::Object(
                    map![
                        "type"@ => JsonView::Text("integer"@),
                        "minimum"@ => JsonView::Int(1),
                        "default"@ => JsonView::Int(60),
                    ],
                ),
            ],
        ),
{
}

/// A call and an action are what they say.
pub proof fn law_actions_are_what_they_say(json: Json, id: Json, call: ToolCall)
    ensures
        ToolCall::DescribeCluster@ == CallView::DescribeCluster,
        (ToolCall::RunSubagent { arguments: json })@ == (CallView::RunSubagent {
            arguments: json@,
        }),
        (ToolCall::EstimateCost { arguments: json })@ == (CallView::EstimateCost {
            arguments: json@,
        }),
        Action::Silence@ == ActionView::Silence,
        Action::Reply(json)@ == ActionView::Reply(json@),
        (Action::Call { id: Some(id), call })@ == (ActionView::Call { id: Some(id@), call: call@ }),
        (Action::Call { id: None, call })@ == (ActionView::Call { id: None, call: call@ }),
{
}

/// A member is read as it is: as a text where it is one, or as null where it is
/// missing. A message without a method names the empty one.
pub proof fn law_members_are_read_as_they_are(json: JsonView, name: Seq<char>, text: Seq<char>)
    ensures
        text_member(json, name) == Some(text) <==> json.get(name) == Some(JsonView::Text(text)),
        json.get(name) matches Some(member) ==> member_or_null(json, name) == member,
        json.get(name) is None ==> member_or_null(json, name) == JsonView::Null,
        json.get("method"@) == Some(JsonView::Text(text)) ==> method_of(json) == text,
        (json.get("method"@) is None || json.get("method"@)->Some_0 !is Text) ==> method_of(
            json,
        ).len() == 0,
{
    reveal_strlit("");
}

/// The name in the parameters decides which tool is called. An estimate gets the
/// arguments that came, all of them and as they came, or null where none did; a
/// task gets them but for the two that a raw caller does not set.
pub proof fn law_the_name_picks_the_tool(params: JsonView, member: Seq<char>)
    ensures
        params.get("name"@) == Some(JsonView::Text("describe_cluster"@)) ==> tool_call_of(params)
            == Ok::<CallView, ErrorView>(CallView::DescribeCluster),
        params.get("name"@) == Some(JsonView::Text("estimate_cost"@)) ==> {
            &&& tool_call_of(params) matches Ok(CallView::EstimateCost { arguments })
            &&& params.get("arguments"@) matches Some(came) ==> arguments == came
            &&& params.get("arguments"@) is None ==> arguments == JsonView::Null
        },
        params.get("name"@) == Some(JsonView::Text("run_subagent"@)) ==> {
            &&& tool_call_of(params) matches Ok(CallView::RunSubagent { arguments })
            &&& params.get("arguments"@) is None ==> arguments == JsonView::Null
            &&& params.get("arguments"@) matches Some(came) ==> {
                &&& came !is Object ==> arguments == came
                &&& came is Object ==> arguments is Object
                &&& member != "tenant_id"@ && member != "sensitivity_required"@ ==> arguments.get(
                    member,
                ) == came.get(member)
                &&& arguments.get("tenant_id"@) is None
                &&& arguments.get("sensitivity_required"@) is None
            }
        },
{
    reveal_strlit("describe_cluster");
    reveal_strlit("run_subagent");
    reveal_strlit("estimate_cost");
    assert("describe_cluster"@.len() == 16);
    assert("run_subagent"@.len() == 12);
    assert("estimate_cost"@.len() == 13);
}

/// Parameters that name no tool, or one that is not offered, are refused for
/// that.
pub proof fn law_other_names_are_refused(params: JsonView, name: Seq<char>)
    ensures
        (params.get("name"@) is None || params.get("name"@)->Some_0 !is Text) ==> tool_call_of(
            params,
        ) == Err::<CallView, ErrorView>(ErrorView::Invalid("missing tool name"@)),
        params.get("name"@) == Some(JsonView::Text(name)) && name != "describe_cluster"@ && name
            != "run_subagent"@ && name != "estimate_cost"@ ==> tool_call_of(params) == Err::<
            CallView,
            ErrorView,
        >(ErrorView::Invalid("unknown tool: "@ + name)),
{
}

/// A task's arguments are those that came but for the tenant and the sensitivity
/// tier.
pub proof fn law_raw_arguments(arguments: JsonView, name: Seq<char>)
    ensures
        of_raw_caller(arguments).get("tenant_id"@) is None,
        of_raw_caller(arguments).get("sensitivity_required"@) is None,
        name != "tenant_id"@ && name != "sensitivity_required"@ ==> of_raw_caller(arguments).get(
            name,
        ) == arguments.get(name),
        arguments !is Object ==> of_raw_caller(arguments) == arguments,
{
}

proof fn lemma_methods_differ()
    ensures
        "initialize"@ != "tools/list"@,
        "initialize"@ != "tools/call"@,
        "initialize"@ != "ping"@,
        "tools/list"@ != "tools/call"@,
        "tools/list"@ != "ping"@,
        "tools/call"@ != "ping"@,
        "notifications/initialized"@ != "initialize"@,
        "notifications/initialized"@ != "tools/list"@,
        "notifications/initialized"@ != "tools/call"@,
        "notifications/initialized"@ != "ping"@,
        "notifications/cancelled"@ != "initialize"@,
        "notifications/cancelled"@ != "tools/list"@,
        "notifications/cancelled"@ != "tools/call"@,
        "notifications/cancelled"@ != "ping"@,
{
    reveal_strlit("initialize");
    reveal_strlit("tools/list");
    reveal_strlit("tools/call");
    reveal_strlit("ping");
    reveal_strlit("notifications/initialized");
    reveal_strlit("notifications/cancelled");
    assert("initialize"@[0] == 'i');
    assert("tools/list"@[0] == 't');
    assert("tools/list"@[6] == 'l');
    assert("tools/call"@[0] == 't');
    assert("tools/call"@[6] == 'c');
    assert("ping"@[0] == 'p');
    assert("notifications/initialized"@[0] == 'n');
    assert("notifications/cancelled"@[0] == 'n');
}

/// A request, which has an id, is answered under it with what its method asks
/// for, and with an error where the method is not one of the five that are
/// answered; a call is made first.
pub proof fn law_the_method_says_what_is_asked(
    message: JsonView,
    version: Seq<char>,
    id: JsonView,
    method: Seq<char>,
)
    requires
        message.get("id"@) == Some(id),
        method_of(message) == method,
    ensures
        method == "initialize"@ ==> action_of(message, version) == ActionView::Reply(
            reply(id, Ok(initialize_result(version))),
        ),
        method == "tools/list"@ ==> action_of(message, version) == ActionView::Reply(
            reply(id, Ok(tools_list_result())),
        ),
        method == "ping"@ ==> action_of(message, version) == ActionView::Reply(
            reply(id, Ok(JsonView::Object(Map::empty()))),
        ),
        method == "tools/call"@ ==> {
            &&& tool_call_of(member_or_null(message, "params"@)) matches Ok(call) ==> action_of(
                message,
                version,
            ) == (ActionView::Call { id: Some(id), call })
            &&& tool_call_of(member_or_null(message, "params"@)) matches Err(error) ==> action_of(
                message,
                version,
            ) == ActionView::Reply(reply(id, Err(error)))
        },
        method == "notifications/initialized"@ || method == "notifications/cancelled"@
            ==> action_of(message, version) == ActionView::Silence,
        method != "initialize"@ && method != "tools/list"@ && method != "ping"@ && method
            != "tools/call"@ && method != "notifications/initialized"@ && method
            != "notifications/cancelled"@ ==> action_of(message, version) == ActionView::Reply(
            reply(id, Err(ErrorView::Invalid("unknown method: "@ + method))),
        ),
{
    lemma_methods_differ();
}

/// A message without an id has its tool called all the same, and nothing else is
/// done about it.
pub proof fn law_calls_without_an_id_are_made(message: JsonView, version: Seq<char>)
    requires
        message.get("id"@) is None,
    ensures
        method_of(message) == "tools/call"@ ==> (tool_call_of(member_or_null(message, "params"@))
            matches Ok(call) ==> action_of(message, version) == (ActionView::Call {
            id: None,
            call,
        })),
        method_of(message) == "tools/call"@ && tool_call_of(
            member_or_null(message, "params"@),
        ) is Err ==> action_of(message, version) == ActionView::Silence,
        method_of(message) != "tools/call"@ ==> action_of(message, version)
            == ActionView::Silence,
{
    lemma_methods_differ();
}

/// A text that is no JSON is answered under no id with the reader's message; one
/// that is JSON is the message it holds.
pub proof fn law_unreadable_texts_are_answered(
    message: JsonView,
    error: Seq<char>,
    version: Seq<char>,
)
    ensures
        action_on_read(Err(error), version) == ActionView::Reply(
            JsonView::Object(
                map![
                    "jsonrpc"@ => JsonView::Text("2.0"@),
                    "id"@ => JsonView::Null,
                    "error"@ => JsonView::Object(
                        map![
                            "code"@ => JsonView::Int(-32700),
                            "message"@ => JsonView::Text("parse error: "@ + error),
                        ],
                    ),
                ],
            ),
        ),
        action_on_read(Ok(message), version) == action_of(message, version),
{
}

/// A tool's response is handed out as one piece of text, which is the response in
/// indented JSON where that was written; a tool's error stays the error it is.
pub proof fn law_responses_are_one_text(value: JsonView, text: Seq<char>, error: ErrorView)
    ensures
        json_pretty(value) == Some(text) ==> tool_outcome(Ok(value)) == Ok::<JsonView, ErrorView>(
            JsonView::Object(
                map![
                    "content"@ => JsonView::Array(
                        seq![
                            JsonView::Object(
                                map![
                                    "type"@ => JsonView::Text("text"@),
                                    "text"@ => JsonView::Text(text),
                                ],
                            ),
                        ],
                    ),
                ],
            ),
        ),
        json_pretty(value) is None && json_compact(value) == Some(text) ==> tool_result(value)
            == text_result(text),
        tool_outcome(Err(error)) == Err::<JsonView, ErrorView>(error),
{
}

/// The line that answers is the answer as it was written, or the internal error.
pub proof fn law_lines_are_what_was_written(text: Seq<char>)
    ensures
        line_of(Some(text)) == text,
        line_of(None)
            == "{\"error\":{\"code\":-32603,\"message\":\"internal serialize\"},\"jsonrpc\":\"2.0\"}"@,
{
}


/// A line of whitespace alone is passed over; any other is the message that it
/// holds between the whitespace at its ends.
pub proof fn law_lines_hold_a_message(line: Seq<char>, version: Seq<char>, from: int, to: int)
    ensures
        (forall|i: int| 0 <= i < line.len() ==> whitespace(#[trigger] line[i])) ==> action_on_line(
            line,
            version,
        ) == ActionView::Silence,
        is_middle(line, from, to) && from < to ==> action_on_line(line, version) == action_on_read(
            json_read(line.subrange(from, to)),
            version,
        ),
{
    law_blank_is_whitespace_alone(line);
    law_trimmed_is_the_middle(line);
    let (first, last) = choose|first: int, last: int| #[trigger]
        is_middle(line, first, last) && trimmed(line) == line.subrange(first, last);
    if is_middle(line, from, to) && from < to {
        assert(!whitespace(line[from]));
        assert(!whitespace(line[to - 1]));
        if from < first {
            assert(whitespace(line[from]));
        }
        if last < to {
            assert(whitespace(line[to - 1]));
        }
        if first < last {
            if first < from {
                assert(whitespace(line[first]));
            }
            if to < last {
                assert(whitespace(line[last - 1]));
            }
        }
    }
}

} // verus!
