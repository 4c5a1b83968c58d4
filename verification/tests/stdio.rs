use hive_mcp_gateway::ids::Uuid;
use hive_mcp_gateway::json::{
    compact_text, display_text, from_value, read, to_value, Json, DEEPEST,
};
use hive_mcp_gateway::stdio::{
    bad_arguments, dispatch_read, error_response, finish_call, for_raw_caller, handle_line, handle_message,
    line_or_internal_error, response_line, wrap_tool_result, Action, ToolCall,
    MCP_PROTOCOL_VERSION,
};
use hive_mcp_gateway::{GatewayError, RunSubagentRequest};
use serde::de::{Deserializer, Error, IgnoredAny, MapAccess, Visitor};
use serde_json::Value;

fn reply(action: Action) -> Value {
    match action {
        Action::Reply(json) => to_value(&json),
        other => panic!("{:?}", other),
    }
}

fn handled(line: &str) -> Value {
    reply(handle_message(line, "0.1.0"))
}

fn code_of(error: GatewayError) -> (i64, String) {
    let response = to_value(&finish_call(Some(Json::Int(1)), Err(error)).unwrap());
    (
        response["error"]["code"].as_i64().unwrap(),
        response["error"]["message"].as_str().unwrap().to_string(),
    )
}

#[test]
fn initialize_returns_server_info() {
    let resp = handled("{\"jsonrpc\":\"2.0\",\"id\":1,\"method\":\"initialize\",\"params\":{}}");
    assert_eq!(resp["jsonrpc"], "2.0");
    assert_eq!(resp["id"], 1);
    assert_eq!(resp["result"]["serverInfo"]["name"], "hive-mcp-gateway");
    assert_eq!(resp["result"]["serverInfo"]["version"], "0.1.0");
    assert_eq!(resp["result"]["protocolVersion"], MCP_PROTOCOL_VERSION);
    assert_eq!(resp["result"]["protocolVersion"], "2024-11-05");
    assert!(resp["result"]["capabilities"]["tools"].is_object());
}

#[test]
fn tools_list_returns_three_tools() {
    let resp = handled("{\"jsonrpc\":\"2.0\",\"id\":2,\"method\":\"tools/list\"}");
    let tools = resp["result"]["tools"].as_array().expect("tools array");
    assert_eq!(tools.len(), 3);
    let names: Vec<&str> = tools.iter().map(|t| t["name"].as_str().unwrap()).collect();
    assert!(names.contains(&"describe_cluster"));
    assert!(names.contains(&"run_subagent"));
    assert!(names.contains(&"estimate_cost"));
}

#[test]
fn tools_list_gives_the_arguments() {
    let resp = handled("{\"id\":2,\"method\":\"tools/list\"}");
    let run = &resp["result"]["tools"][1];
    assert_eq!(run["inputSchema"]["type"], "object");
    assert_eq!(
        run["inputSchema"]["required"],
        Value::Array(vec![Value::String("prompt".to_string())])
    );
    let properties = &run["inputSchema"]["properties"];
    assert_eq!(properties.as_object().unwrap().len(), 5);
    assert_eq!(properties["profile"]["default"], "default");
    assert_eq!(properties["timeout_seconds"]["type"], "integer");
    assert_eq!(properties["timeout_seconds"]["minimum"], 1);
    assert_eq!(properties["timeout_seconds"]["default"], 60);
    assert_eq!(properties["model_id"]["type"], "string");
    let cost = &resp["result"]["tools"][2]["inputSchema"];
    assert_eq!(cost["properties"]["capability_urn"]["type"], "string");
    assert_eq!(cost["properties"]["input_size_tokens"]["minimum"], 0);
    assert_eq!(cost["required"].as_array().unwrap().len(), 2);
    let cluster = &resp["result"]["tools"][0]["inputSchema"];
    assert_eq!(cluster["required"].as_array().unwrap().len(), 0);
}

#[test]
fn unknown_method_returns_error() {
    let resp = handled("{\"jsonrpc\":\"2.0\",\"id\":3,\"method\":\"totally/unknown\"}");
    assert_eq!(resp["error"]["code"], -32602);
    assert_eq!(resp["error"]["message"], "unknown method: totally/unknown");
}

#[test]
fn notification_returns_none() {
    let line = "{\"jsonrpc\":\"2.0\",\"method\":\"notifications/initialized\"}";
    assert!(matches!(handle_message(line, "0.1.0"), Action::Silence));
}

#[test]
fn malformed_json_returns_parse_error() {
    let resp = handled("{ not json");
    assert_eq!(resp["error"]["code"], -32700);
    assert!(resp["id"].is_null());
    assert!(resp["error"]["message"]
        .as_str()
        .unwrap()
        .starts_with("parse error: "));
}

/// Decodes the arguments of `run_subagent`.
struct Arguments;

impl<'de> Visitor<'de> for Arguments {
    type Value = RunSubagentRequest;

    fn expecting(&self, f: &mut std::fmt::Formatter<'_>) -> std::fmt::Result {
        f.write_str("struct RunSubagentRequest")
    }

    fn visit_map<A: MapAccess<'de>>(self, mut map: A) -> Result<RunSubagentRequest, A::Error> {
        let mut prompt = None;
        let mut request = RunSubagentRequest {
            model_id: None,
            capability_urn: None,
            prompt: String::new(),
            profile: None,
            timeout_seconds: None,
            tenant_id: None,
            sensitivity_required: None,
            jurisdiction_required: Vec::new(),
            credits_budget: None,
        };
        while let Some(name) = map.next_key::<String>()? {
            match name.as_str() {
                "model_id" => request.model_id = map.next_value()?,
                "capability_urn" => request.capability_urn = map.next_value()?,
                "prompt" => prompt = Some(map.next_value()?),
                "profile" => request.profile = map.next_value()?,
                "timeout_seconds" => request.timeout_seconds = map.next_value()?,
                _ => {
                    map.next_value::<IgnoredAny>()?;
                }
            }
        }
        request.prompt = prompt.ok_or_else(|| A::Error::custom("missing field `prompt`"))?;
        Ok(request)
    }
}

fn decoded(arguments: &Json) -> Result<RunSubagentRequest, String> {
    to_value(arguments)
        .deserialize_struct("RunSubagentRequest", &[], Arguments)
        .map_err(|e| e.to_string())
}

#[test]
fn run_subagent_without_args_returns_invalid() {
    let line = "{\"jsonrpc\":\"2.0\",\"id\":4,\"method\":\"tools/call\",\"params\":{\"name\":\"run_subagent\"}}";
    let (id, arguments) = match handle_message(line, "0.1.0") {
        Action::Call { id, call: ToolCall::RunSubagent { arguments } } => (id, arguments),
        other => panic!("{:?}", other),
    };
    let reason = decoded(&arguments).expect_err("null is no request");
    let error = bad_arguments("run_subagent", &reason);
    let resp = to_value(&finish_call(id, Err(error)).expect("response"));
    assert_eq!(resp["id"], 4);
    assert_eq!(resp["error"]["code"], -32602);
    assert_eq!(
        resp["error"]["message"],
        "run_subagent args: invalid type: null, expected struct RunSubagentRequest"
    );
}

#[test]
fn run_subagent_request_roundtrips_json_with_model_id() {
    let prompt = "Classify: 'great game!' as positive or negative.";
    let json = Json::object()
        .with("model_id", Json::text("qwen2.5:0.5b"))
        .with("prompt", Json::text(prompt))
        .with("profile", Json::text("default"))
        .with("timeout_seconds", Json::UInt(30));
    let s = compact_text(&json).unwrap();
    let r2 = decoded(&read(&s).unwrap()).unwrap();
    assert_eq!(r2.model_id, Some("qwen2.5:0.5b".to_string()));
    assert_eq!(r2.prompt, prompt);
    assert_eq!(r2.timeout_seconds, Some(30));
}

#[test]
fn raw_callers_name_no_tenant() {
    let line = "{\"id\":1,\"method\":\"tools/call\",\"params\":{\"name\":\"run_subagent\",\"arguments\":{\"model_id\":\"qwen2.5:0.5b\",\"tenant_id\":\"00000000-0000-0000-0000-000000000002\",\"prompt\":\"x\",\"sensitivity_required\":\"private\",\"timeout_seconds\":5}}}";
    match handle_message(line, "0") {
        Action::Call { call: ToolCall::RunSubagent { arguments }, .. } => {
            let value = to_value(&arguments);
            assert!(value.get("tenant_id").is_none());
            assert!(value.get("sensitivity_required").is_none());
            assert_eq!(value["model_id"], "qwen2.5:0.5b");
            assert_eq!(value["prompt"], "x");
            assert_eq!(value["timeout_seconds"], 5);
            assert_eq!(value.as_object().unwrap().len(), 3);
        }
        other => panic!("{:?}", other),
    }
    let twice = Json::object().with("k", Json::Null).with("l", Json::Null).with("k", Json::Null);
    assert_eq!(compact_text(&twice.without("k")).unwrap(), "{\"l\":null}");
    assert_eq!(compact_text(&Json::Int(3).without("k")).unwrap(), "3");
}

#[test]
fn raw_callers_set_no_tenant_however_they_write_it() {
    let line = "{\"id\":1,\"method\":\"tools/call\",\"params\":{\"name\":\"run_subagent\",\"arguments\":[null,\"oasf://a/b/c/v1\",\"x\",null,null,\"00000000-0000-0000-0000-000000000002\",\"private\"]}}";
    assert!(matches!(
        handle_message(line, "0"),
        Action::Call { call: ToolCall::RunSubagent { arguments: Json::Array(_) }, .. }
    ));
    let taken = for_raw_caller(RunSubagentRequest {
        model_id: None,
        capability_urn: Some("oasf://a/b/c/v1".to_string()),
        prompt: "x".to_string(),
        profile: Some("p".to_string()),
        timeout_seconds: Some(5),
        tenant_id: Some(Uuid { bits: 2 }),
        sensitivity_required: Some("private".to_string()),
        jurisdiction_required: vec!["eu-gdpr".to_string()],
        credits_budget: Some(3),
    });
    assert_eq!(taken.tenant_id, None);
    assert_eq!(taken.sensitivity_required, None);
    assert_eq!(taken.capability_urn, Some("oasf://a/b/c/v1".to_string()));
    assert_eq!(taken.prompt, "x");
    assert_eq!(taken.profile, Some("p".to_string()));
    assert_eq!(taken.timeout_seconds, Some(5));
    assert_eq!(taken.jurisdiction_required, vec!["eu-gdpr".to_string()]);
    assert_eq!(taken.credits_budget, Some(3));
}

#[test]
fn tool_results_read_back() {
    let mut value = Json::object()
        .with("a\n\u{1}\"\\é", Json::text("\u{0}\u{7f}\u{2028}😀"))
        .with("b", Json::array().item(Json::Int(i64::MIN)).item(Json::UInt(u64::MAX)))
        .with("c", Json::object())
        .with("d", Json::Bool(false))
        .with("e", Json::Null);
    for _ in 2..DEEPEST {
        value = Json::array().item(value);
    }
    let result = to_value(&wrap_tool_result(&value));
    let text = result["content"][0]["text"].as_str().unwrap();
    assert_eq!(to_value(&read(text).unwrap()), to_value(&value));
    assert_eq!(to_value(&read(&response_line(&value)).unwrap()), to_value(&value));
    let deeper = Json::array().item(value);
    assert!(read(&response_line(&deeper)).is_err());
}

#[test]
fn notifications_with_an_id_are_silent_too() {
    for method in ["notifications/initialized", "notifications/cancelled"] {
        let line = format!("{{\"id\":9,\"method\":\"{}\"}}", method);
        assert!(matches!(handle_message(&line, "0"), Action::Silence));
    }
}

#[test]
fn messages_without_an_id_are_not_answered() {
    for method in ["ping", "initialize", "tools/list", "nonsense", "tools/call"] {
        let line = format!("{{\"method\":\"{}\"}}", method);
        assert!(matches!(handle_message(&line, "0"), Action::Silence));
    }
    let line = "{\"method\":\"tools/call\",\"params\":{\"name\":\"describe_cluster\"}}";
    match handle_message(line, "0") {
        Action::Call { id, call: ToolCall::DescribeCluster } => {
            assert!(finish_call(id, Ok(Json::object())).is_none())
        }
        other => panic!("{:?}", other),
    }
}

#[test]
fn any_notification_is_silent() {
    for method in ["notifications/", "notifications/roots/list_changed"] {
        let line = format!("{{\"method\":\"{}\"}}", method);
        assert!(matches!(handle_message(&line, "0"), Action::Silence));
    }
}

#[test]
fn listed_tools_can_be_called() {
    let resp = handled("{\"id\":2,\"method\":\"tools/list\"}");
    for tool in resp["result"]["tools"].as_array().unwrap() {
        let line = format!(
            "{{\"id\":1,\"method\":\"tools/call\",\"params\":{{\"name\":{}}}}}",
            tool["name"]
        );
        assert!(matches!(handle_message(&line, "0"), Action::Call { .. }));
    }
}

#[test]
fn a_null_id_is_an_id() {
    let resp = handled("{\"id\":null,\"method\":\"ping\"}");
    assert!(resp["id"].is_null());
    assert_eq!(resp["result"].as_object().unwrap().len(), 0);
}

#[test]
fn any_id_comes_back_as_it_came() {
    for id in ["7", "-1", "1.5", "1e300", "18446744073709551615", "\"a\\nb\"", "[1,{\"x\":[true]}]"] {
        let line = format!("{{\"id\":{},\"method\":\"ping\"}}", id);
        let expected: Value = serde_json::from_str(id).unwrap();
        assert_eq!(handled(&line)["id"], expected);
    }
}

#[test]
fn messages_that_are_no_objects_are_not_answered() {
    for line in ["[]", "3", "\"ping\"", "null", "[{\"id\":1,\"method\":\"ping\"}]"] {
        assert!(matches!(handle_message(line, "0"), Action::Silence));
    }
    let resp = handled("{\"id\":1,\"method\":5}");
    assert_eq!(resp["error"]["message"], "unknown method: ");
}

#[test]
fn the_later_of_two_members_counts() {
    let resp = handled("{\"id\":1,\"id\":2,\"method\":\"ping\"}");
    assert_eq!(resp["id"], 2);
}

#[test]
fn tool_calls_are_routed_by_name() {
    let line = "{\"id\":1,\"method\":\"tools/call\",\"params\":{\"name\":\"estimate_cost\",\"arguments\":{\"input_size_tokens\":3}}}";
    match handle_message(line, "0") {
        Action::Call { id: Some(id), call: ToolCall::EstimateCost { arguments } } => {
            assert_eq!(to_value(&id), 1);
            assert_eq!(to_value(&arguments)["input_size_tokens"], 3);
        }
        other => panic!("{:?}", other),
    }
    let resp = handled("{\"id\":1,\"method\":\"tools/call\",\"params\":{\"name\":\"get_balance\"}}");
    assert_eq!(resp["error"]["code"], -32602);
    assert_eq!(resp["error"]["message"], "unknown tool: get_balance");
    let resp = handled("{\"id\":1,\"method\":\"tools/call\",\"params\":{\"name\":1}}");
    assert_eq!(resp["error"]["message"], "missing tool name");
    let resp = handled("{\"id\":1,\"method\":\"tools/call\"}");
    assert_eq!(resp["error"]["message"], "missing tool name");
}

#[test]
fn errors_have_their_codes() {
    assert_eq!(
        code_of(GatewayError::Unsupported("estimate_cost")),
        (-32601, "estimate_cost".to_string())
    );
    assert_eq!(
        code_of(GatewayError::Invalid("m".to_string())),
        (-32602, "m".to_string())
    );
    assert_eq!(
        code_of(GatewayError::TaskTimeout { seconds: 60 }),
        (-32000, "task timeout after 60s".to_string())
    );
    assert_eq!(
        code_of(GatewayError::TaskFailed("m".to_string())),
        (-32000, "task failed: m".to_string())
    );
    assert_eq!(
        code_of(GatewayError::ControlPlane("m".to_string())),
        (-32001, "control-plane: m".to_string())
    );
    assert_eq!(
        code_of(GatewayError::Io("m".to_string())),
        (-32603, "io: m".to_string())
    );
}

#[test]
fn errors_are_put_in_words() {
    assert_eq!(
        GatewayError::ControlPlane("m".to_string()).message(),
        "control-plane HTTP error: m"
    );
    assert_eq!(
        GatewayError::Invalid("m".to_string()).message(),
        "invalid input: m"
    );
    assert_eq!(
        GatewayError::TaskTimeout { seconds: u64::MAX }.message(),
        "task timeout after 18446744073709551615s"
    );
    assert_eq!(
        GatewayError::TaskTimeout { seconds: 0 }.message(),
        "task timeout after 0s"
    );
    assert_eq!(
        GatewayError::TaskFailed("m".to_string()).message(),
        "task failed: m"
    );
    assert_eq!(
        GatewayError::Unsupported("f").message(),
        "unsupported feature: f"
    );
    assert_eq!(GatewayError::Io("m".to_string()).message(), "io error: m");
}

#[test]
fn tool_results_are_indented_text() {
    let value = Json::object().with("a", Json::Int(1)).with("b", Json::array());
    let wrapped = to_value(&wrap_tool_result(&value));
    assert_eq!(wrapped["content"][0]["type"], "text");
    assert_eq!(
        wrapped["content"][0]["text"],
        "{\n  \"a\": 1,\n  \"b\": []\n}"
    );
    let resp = to_value(&finish_call(Some(Json::Int(3)), Ok(value)).unwrap());
    assert_eq!(resp["result"], wrapped);
    assert_eq!(resp["id"], 3);
}

#[test]
fn blank_lines_are_passed_over() {
    assert!(matches!(handle_line("", "0"), Action::Silence));
    assert!(matches!(handle_line(" \t \r\n", "0"), Action::Silence));
    let resp = reply(handle_line("  {\"id\":1,\"method\":\"ping\"}\r\n", "0"));
    assert_eq!(resp["id"], 1);
}

#[test]
fn answers_are_one_line() {
    let response = error_response(Json::text("a\nb"), -1, "c\r\nd\u{1}".to_string());
    let line = response_line(&response);
    assert_eq!(
        line,
        "{\"error\":{\"code\":-1,\"message\":\"c\\r\\nd\\u0001\"},\"id\":\"a\\nb\",\"jsonrpc\":\"2.0\"}"
    );
    assert_eq!(
        line_or_internal_error(None),
        "{\"error\":{\"code\":-32603,\"message\":\"internal serialize\"},\"jsonrpc\":\"2.0\"}"
    );
}

#[test]
fn unreadable_messages_are_reported() {
    let resp = reply(dispatch_read(Err("bad".to_string()), "0"));
    assert_eq!(resp["error"]["message"], "parse error: bad");
    assert!(resp["id"].is_null());
}

#[test]
fn trees_and_values_hold_the_same() {
    let text = "{\"a\":[null,true,-3,18446744073709551615,2.5,\"x\"],\"b\":{\"c\":{}}}";
    let value: Value = serde_json::from_str(text).unwrap();
    let json = from_value(value.clone());
    assert_eq!(to_value(&json), value);
    assert_eq!(to_value(&json.clone()), value);
    assert_eq!(compact_text(&json).unwrap(), text);
    assert_eq!(display_text(&json), text);
    assert!(json.get("a").is_some());
    assert!(json.get("z").is_none());
    assert!(Json::Null.get("a").is_none());
    let twice = Json::object().with("k", Json::Int(1)).with("k", Json::UInt(2));
    assert_eq!(to_value(&twice)["k"], 2);
    assert_eq!(to_value(twice.get("k").unwrap()), 2);
    assert_eq!(to_value(&Json::Null.with("k", Json::Null)), Value::Null);
    assert_eq!(to_value(&Json::Null.item(Json::Null)), Value::Null);
}
