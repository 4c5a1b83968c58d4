use hive_mcp_gateway::client::{Exchange, Method};
use hive_mcp_gateway::clock::{Moment, LAST_SECOND};
use hive_mcp_gateway::envelope::{build_task_create_body, mint_traceparent, traceparent, Task};
use hive_mcp_gateway::ids::Uuid;
use hive_mcp_gateway::json::{to_value, Json};
use hive_mcp_gateway::size::{class, names_size, Class};
use hive_mcp_gateway::tools::{credits, estimate, tier};
use hive_mcp_gateway::urn::{parse_urn, urn_for_model, CapabilityUrn};
use hive_mcp_gateway::{
    CapabilityInfo, EstimateCostRequest, GatewayError, HoneycombClient, HttpMcpTools,
    RunSubagentRequest,
};
use serde_json::Value;

fn request() -> RunSubagentRequest {
    RunSubagentRequest {
        model_id: None,
        capability_urn: None,
        prompt: "x".to_string(),
        profile: None,
        timeout_seconds: None,
        tenant_id: None,
        sensitivity_required: None,
        jurisdiction_required: Vec::new(),
        credits_budget: None,
    }
}

fn tools() -> HttpMcpTools {
    HttpMcpTools::new(HoneycombClient::new("http://localhost:1".to_string(), None))
}

fn parsed(urn: &str) -> Value {
    to_value(&parse_urn(urn).unwrap())
}

fn refused(result: Result<Json, GatewayError>) -> String {
    match result {
        Err(GatewayError::Invalid(message)) => message,
        other => panic!("{:?}", other),
    }
}

#[test]
fn resolved_capability_urn_prefers_explicit_urn_over_model_id() {
    let mut req = request();
    req.model_id = Some("qwen2.5:0.5b".to_string());
    req.capability_urn = Some("oasf://commons/inference/gemma-2b/v1".to_string());
    assert_eq!(
        req.resolved_capability_urn().unwrap(),
        "oasf://commons/inference/gemma-2b/v1"
    );
}

#[test]
fn resolved_capability_urn_derives_from_model_id() {
    let mut req = request();
    req.model_id = Some("qwen2.5:0.5b".to_string());
    assert_eq!(
        req.resolved_capability_urn().unwrap(),
        "oasf://commons/inference/qwen2.5-0.5b/v1"
    );
}

#[test]
fn resolved_capability_urn_errors_when_neither_provided() {
    let req = request();
    assert!(matches!(
        req.resolved_capability_urn(),
        Err(GatewayError::Invalid(_))
    ));
}

#[test]
fn resolved_capability_urn_trims_the_model_id() {
    let mut req = request();
    req.model_id = Some(" \t\u{a0}gemma:2b:q4\u{2003}\n".to_string());
    assert_eq!(
        req.resolved_capability_urn().unwrap(),
        "oasf://commons/inference/gemma-2b-q4/v1"
    );
}

#[test]
fn resolved_capability_urn_refuses_a_blank_model_id() {
    let mut req = request();
    req.model_id = Some(" \n ".to_string());
    match req.resolved_capability_urn() {
        Err(GatewayError::Invalid(message)) => assert_eq!(message, "model_id is empty"),
        other => panic!("{:?}", other),
    }
}

#[test]
fn parse_urn_round_trips_canonical() {
    let v = parsed("oasf://commons/inference/qwen2.5-0.5b/v1");
    assert_eq!(v["namespace"], "commons");
    assert_eq!(v["domain"], "inference");
    assert_eq!(v["operation"], "qwen2.5-0.5b");
    assert_eq!(v["version"], 1);
}

#[test]
fn parse_urn_rejects_wrong_scheme() {
    assert!(parse_urn("https://commons/inference/q/v1").is_err());
}

#[test]
fn parse_urn_rejects_missing_version_prefix() {
    assert!(parse_urn("oasf://commons/inference/q/2").is_err());
}

#[test]
fn parse_urn_says_what_is_wrong() {
    assert_eq!(refused(parse_urn("x")), "URN must start with oasf://: x");
    assert_eq!(
        refused(parse_urn("oasf://a/b/v1")),
        "URN must have 4 segments after oasf://: oasf://a/b/v1"
    );
    assert_eq!(
        refused(parse_urn("oasf://a/b/c/v1/d")),
        "URN must have 4 segments after oasf://: oasf://a/b/c/v1/d"
    );
    assert_eq!(
        refused(parse_urn("oasf://a/b/c/")),
        "URN version must start with 'v': oasf://a/b/c/"
    );
    for version in ["v", "v+", "v-1", "v1x", "v 1", "v4294967296", "v++1", "v1_0"] {
        let urn = format!("oasf://a/b/c/{}", version);
        assert_eq!(
            refused(parse_urn(&urn)),
            format!("URN version not an integer: {}", urn)
        );
    }
}

#[test]
fn parse_urn_reads_versions_as_unsigned_integers() {
    assert_eq!(parsed("oasf://a/b/c/v0")["version"], 0);
    assert_eq!(parsed("oasf://a/b/c/v+7")["version"], 7);
    assert_eq!(parsed("oasf://a/b/c/v0000000000012")["version"], 12);
    assert_eq!(parsed("oasf://a/b/c/v4294967295")["version"], 4294967295u64);
}

#[test]
fn parse_urn_accepts_empty_segments() {
    let v = parsed("oasf:////é/v1");
    assert_eq!(v["namespace"], "");
    assert_eq!(v["domain"], "");
    assert_eq!(v["operation"], "é");
}

#[test]
fn a_model_urn_reads_back() {
    let urn = urn_for_model("llama3.2:3b").unwrap();
    let capability = CapabilityUrn::parse(&urn).unwrap();
    assert_eq!(capability.namespace, "commons");
    assert_eq!(capability.domain, "inference");
    assert_eq!(capability.operation, "llama3.2-3b");
    assert_eq!(capability.version, 1);
    assert!(parse_urn(&urn_for_model("library/llama").unwrap()).is_err());
}

fn body(
    prompt: &str,
    tenant_id: Option<Uuid>,
    sensitivity: Option<String>,
    jurisdiction: Vec<String>,
    credits: Option<i64>,
) -> (Uuid, Value) {
    let task_id = Uuid::new_v4();
    let body = build_task_create_body(
        task_id,
        "oasf://commons/inference/qwen2.5-0.5b/v1",
        "default",
        prompt,
        tenant_id,
        sensitivity,
        jurisdiction,
        credits,
    )
    .expect("the clock is far from its end")
    .unwrap();
    (task_id, to_value(&body))
}

#[test]
fn task_create_body_is_valid_acp_envelope_for_honeycomb() {
    let tenant_id = Uuid::new_v4();
    let (task_id, envelope) = body(
        "Classify: 'great game!'",
        Some(tenant_id),
        None,
        Vec::new(),
        Some(500),
    );

    assert_eq!(envelope["task_id"], task_id.hyphenated());
    assert!(envelope["traceparent"].as_str().unwrap().starts_with("00-"));
    assert_eq!(envelope["idempotency_key"], task_id.simple());
    assert_eq!(envelope["origin_user_id"], tenant_id.hyphenated());

    let inner = &envelope["payload"];
    assert_eq!(inner["task_id"], task_id.hyphenated());
    assert_eq!(inner["tenant_id"], tenant_id.hyphenated());
    assert_eq!(inner["owner_id"], "00000000-0000-0000-0000-000000000000");
    assert_eq!(inner["execution_type"], "llm");
    assert_eq!(inner["allowed_nodes"], "hive-wide");
    assert_eq!(inner["payload"]["profile"], "default");
    assert_eq!(inner["payload"]["prompt"], "Classify: 'great game!'");
    assert!(inner["required_capabilities"]["cpu_cores"].is_null());
    assert!(inner["required_capabilities"]["memory_mb"].is_null());
    assert_eq!(
        inner["required_capabilities"]["llm_profiles"]
            .as_array()
            .unwrap()
            .len(),
        0
    );
    let urn = &inner["capability_urn"];
    assert_eq!(urn["namespace"], "commons");
    assert_eq!(urn["operation"], "qwen2.5-0.5b");
    assert_eq!(urn["version"], 1);

    let budget = &envelope["budget_context"];
    assert_eq!(budget["credits_remaining"], 500);
    assert!(budget["credits_remaining"].as_i64().unwrap() > 0);
    assert!(budget["spawn_depth_remaining"].as_u64().unwrap() > 0);
    assert_eq!(budget["input_tokens_remaining"], 4096);
    assert_eq!(budget["output_tokens_remaining"], 4096);
    let deadline =
        chrono::DateTime::parse_from_rfc3339(budget["wall_clock_deadline"].as_str().unwrap())
            .unwrap();
    assert!(deadline > chrono::Utc::now());
}

#[test]
fn task_create_body_inner_omits_tenant_id_when_none() {
    let (_, body) = body("x", None, None, Vec::new(), None);
    assert!(body["payload"].get("tenant_id").is_none());
    assert!(body["payload"].get("sensitivity_required").is_none());
    assert!(body["payload"].get("jurisdiction_required").is_none());
    assert_eq!(body["origin_user_id"], "00000000-0000-0000-0000-000000000000");
}

#[test]
fn task_create_body_threads_sensitivity_and_jurisdiction() {
    let (_, body) = body(
        "Classify: 'great game!'",
        None,
        Some("semi_private".to_string()),
        vec!["eu-gdpr".to_string()],
        None,
    );
    let inner = &body["payload"];
    assert_eq!(inner["sensitivity_required"], "semi_private");
    assert_eq!(
        inner["jurisdiction_required"],
        Value::Array(vec![Value::String("eu-gdpr".to_string())])
    );
}

#[test]
fn task_create_body_credits_budget_overrides_default() {
    let (_, body) = body("x", None, None, Vec::new(), Some(42));
    assert_eq!(body["budget_context"]["credits_remaining"], 42);
}

#[test]
fn task_create_body_credits_budget_defaults_to_1000_when_none() {
    let (_, body) = body("x", None, None, Vec::new(), None);
    assert_eq!(body["budget_context"]["credits_remaining"], 1000);
}

#[test]
fn task_create_body_refuses_a_bad_urn() {
    let body = build_task_create_body(
        Uuid::nil(),
        "urn:x",
        "default",
        "x",
        None,
        None,
        Vec::new(),
        None,
    );
    assert_eq!(refused(body.unwrap()), "URN must start with oasf://: urn:x");
}

#[test]
fn a_body_is_due_a_minute_after_its_moment() {
    let task = Task {
        task_id: Uuid { bits: 1 },
        urn: "oasf://a/b/c/v1".to_string(),
        profile: "p".to_string(),
        prompt: "q".to_string(),
        tenant_id: None,
        sensitivity_required: None,
        jurisdiction_required: Vec::new(),
        credits_budget: Some(-5),
    };
    let now = Moment { seconds: 1_431_648_000, nanos: 0 };
    let body = to_value(&task.body(Uuid { bits: 2 }, now).unwrap());
    assert_eq!(
        body["budget_context"]["wall_clock_deadline"],
        "2015-05-15T00:01:00+00:00"
    );
    assert_eq!(body["budget_context"]["credits_remaining"], -5);
    let last = Moment { seconds: LAST_SECOND - 60, nanos: 999_999_999 };
    assert!(task.body_if_due(Uuid { bits: 2 }, last).unwrap().is_ok());
    let late = Moment { seconds: LAST_SECOND - 59, nanos: 0 };
    assert!(task.body_if_due(Uuid { bits: 2 }, late).is_none());
    let task = Task { urn: "nonsense".to_string(), ..task };
    assert_eq!(
        refused(task.body_if_due(Uuid { bits: 2 }, late).unwrap()),
        "URN must start with oasf://: nonsense"
    );
    assert_eq!(last.text_after(60), "+262142-12-31T23:59:59.999999999+00:00");
}

#[test]
fn the_present_moment_is_the_clocks() {
    let before = chrono::Utc::now().timestamp();
    let now = Moment::now();
    let after = chrono::Utc::now().timestamp();
    assert!(before <= now.seconds && now.seconds <= after);
    assert!(now.nanos < 1_000_000_000);
}

#[test]
fn uuids_are_written_in_both_forms() {
    let id = Uuid { bits: 0xa1a2a3a4b1b2c1c2d1d2d3d4d5d6d7d8 };
    assert_eq!(id.simple(), "a1a2a3a4b1b2c1c2d1d2d3d4d5d6d7d8");
    assert_eq!(id.hyphenated(), "a1a2a3a4-b1b2-c1c2-d1d2-d3d4d5d6d7d8");
    assert_eq!(Uuid::nil().bits, 0);
    assert_eq!(Uuid { bits: 15 }.simple(), "0000000000000000000000000000000f");
}

#[test]
fn random_uuids_have_version_and_variant() {
    let first = Uuid::new_v4();
    let second = Uuid::new_v4();
    assert_ne!(first, second);
    let text = first.simple();
    assert_eq!(&text[12..13], "4");
    assert!("89ab".contains(&text[16..17]));
}

#[test]
fn traceparents_have_the_w3c_form() {
    let task_id = Uuid { bits: 0xa1a2a3a4b1b2c1c2d1d2d3d4d5d6d7d8 };
    let span = Uuid { bits: 0x00112233445566778899aabbccddeeff };
    assert_eq!(
        traceparent(task_id, span),
        "00-a1a2a3a4b1b2c1c2d1d2d3d4d5d6d7d8-0011223344556677-01"
    );
    let minted = mint_traceparent(task_id);
    assert_eq!(minted.len(), 55);
    assert!(minted.starts_with("00-a1a2a3a4b1b2c1c2d1d2d3d4d5d6d7d8-"));
    assert!(minted.ends_with("-01"));
}

#[test]
fn estimate_cost_returns_credits_based_on_urn() {
    let tools = tools();
    // 20 credits for a thousand tokens: 1000 tokens are 20 credits.
    let resp = tools
        .estimate_cost(EstimateCostRequest {
            capability_urn: "oasf://commons/inference/qwen2.5-0.5b/v1".to_string(),
            input_size_tokens: 1000,
        })
        .expect("estimate should succeed");
    assert_eq!(resp.credits_estimate, 20);

    // 100 credits for a thousand tokens: 500 tokens are 50 credits.
    let resp70b = tools
        .estimate_cost(EstimateCostRequest {
            capability_urn: "oasf://commons/inference/llama3-70b/v1".to_string(),
            input_size_tokens: 500,
        })
        .expect("estimate should succeed");
    assert_eq!(resp70b.credits_estimate, 50);

    // One credit at the least.
    let resp_min = tools
        .estimate_cost(EstimateCostRequest {
            capability_urn: "oasf://commons/inference/qwen2.5-0.5b/v1".to_string(),
            input_size_tokens: 1,
        })
        .expect("estimate should succeed");
    assert_eq!(resp_min.credits_estimate, 1);
}

#[test]
fn estimate_cost_looks_at_the_urn_in_lower_case() {
    let resp = tools()
        .estimate_cost(EstimateCostRequest {
            capability_urn: "oasf://commons/Inference/LLAMA-13B-GPU/v1".to_string(),
            input_size_tokens: 1001,
        })
        .unwrap();
    assert_eq!(resp.credits_estimate, 41);
    let applied = to_value(&resp.multipliers_applied);
    assert_eq!(
        applied["capability_urn"],
        "oasf://commons/Inference/LLAMA-13B-GPU/v1"
    );
    assert_eq!(applied["category"], "inference/13b-cpu");
    assert_eq!(applied["credits_per_1k_tokens"], 40);
    assert_eq!(applied["input_size_tokens"], 1001);
    assert_eq!(
        applied["note"],
        "Phase 1 estimate — based on model size from URN, not profiled benchmarks"
    );
    assert_eq!(applied.as_object().unwrap().len(), 5);
}

#[test]
fn tiers_go_by_what_the_urn_holds() {
    assert_eq!(tier("a-70b-gpu"), (100, "inference/70b-cpu"));
    assert_eq!(tier("a-13b-gpu"), (40, "inference/13b-cpu"));
    assert_eq!(tier("oasf://x/gpu/code/v1"), (5, "inference/7b-gpu"));
    assert_eq!(tier("oasf://x/code/run/v1"), (2000, "code/exec"));
    assert_eq!(tier("oasf://x/exec/run/v1"), (2000, "code/exec"));
    assert_eq!(tier("oasf://x/web/get/v1"), (5000, "web/search"));
    assert_eq!(tier("oasf://x/search/get/v1"), (5000, "web/search"));
    assert_eq!(tier("oasf://x/codes/webs/v1"), (20, "inference/7b-cpu"));
    assert_eq!(tier(""), (20, "inference/7b-cpu"));
}

fn cost(urn: &str) -> u64 {
    tools()
        .estimate_cost(EstimateCostRequest {
            capability_urn: urn.to_string(),
            input_size_tokens: 1000,
        })
        .unwrap()
        .credits_estimate
}

#[test]
fn tiny_small_and_large_models_have_their_prices() {
    let model = |name: &str| cost(&format!("oasf://commons/inference/{}/v1", name));
    for tiny in ["smollm-135m", "SmolLM2-360M-instruct", "gemma3-270m", "smol-0.36b"] {
        assert_eq!(model(tiny), 5);
    }
    for small in ["qwen2.5-0.5b", "tinyllama-1.1b", "smollm2-1.7b", "phi-2.7b", "llama3.2-3b"] {
        assert_eq!(model(small), 20);
    }
    for large in ["mistral-7b", "llama3.1-8B", "gemma2-9b", "solar-10.7b", "llama2-13b", "qwen-14b"] {
        assert_eq!(model(large), 40);
    }
    for other in ["qwen2.5-0.5b-8bit", "gemma-27b", "mixtral-8x7b", "phi4-14.7b", "phi3-3.8b", "x"] {
        assert_eq!(model(other), 20);
    }
    assert_eq!(model("mistral-7b-gpu"), 5);
}

#[test]
fn the_operation_names_the_model() {
    assert_eq!(cost("oasf://team-7b/inference/qwen2.5-0.5b/v1"), 20);
    assert_eq!(cost("oasf://commons/llama-8b/chat/v1"), 20);
    assert_eq!(cost("oasf://team-13b/inference/qwen2.5-0.5b/v1"), 20);
    assert_eq!(cost("oasf://team-13b/inference/smollm-135m/v1"), 5);
    assert_eq!(cost("mistral-7b"), 40);
}

#[test]
fn thirteen_billion_is_told_from_other_numbers() {
    assert_eq!(tier("oasf://commons/inference/llama2-13b/v1"), (40, "inference/13b-cpu"));
    assert_eq!(tier("oasf://commons/inference/danube-1.13b/v1"), (20, "inference/7b-cpu"));
    assert_eq!(tier("oasf://commons/inference/big-113b/v1"), (30, "inference/13b-cpu"));
    assert_eq!(tier("oasf://commons/inference/tiny-0.213b/v1"), (5, "inference/tiny-cpu"));
}

#[test]
fn sizes_are_read_from_names() {
    let large = |name: &str| names_size(name, 7_000_000, 14_000_000);
    assert!(large("7b"));
    assert!(large("a-07.9b"));
    assert!(large("bb-2b-14.000b_q4"));
    assert!(large("7000m"));
    assert!(large("llama7b"));
    assert!(large("x7b"));
    assert!(!large("2x7b"));
    assert!(!large("a-14.001b"));
    assert!(!large("a-15b"));
    assert!(!large("a-6.9b"));
    assert!(!large("a-99999999999999999999b"));
    assert!(!large("a-7bx"));
    assert!(!large("a-7m"));
    assert!(!large("a-1.2.7b"));
    assert!(!large(".7b"));
    assert!(!large(""));
    assert!(!names_size("b", 0, 0));
    assert!(names_size("0b", 0, 0));
    assert!(names_size("1.2345m", 1234, 1234));
    assert!(names_size("1.2345678b", 1_234_567, 1_234_567));
    assert_eq!(class("llama-13b-draft-135m"), Class::Large);
    assert_eq!(class("a-0.5b"), Class::Small);
    assert_eq!(class("a-499m"), Class::Other);
    assert_eq!(class("a-135m"), Class::Tiny);
}

#[test]
fn different_tasks_have_different_keys() {
    let (first, first_body) = body("x", None, None, Vec::new(), None);
    let (second, second_body) = body("x", None, None, Vec::new(), None);
    assert_ne!(first, second);
    assert_ne!(first_body["idempotency_key"], second_body["idempotency_key"]);
    assert_ne!(Uuid { bits: 1 }.simple(), Uuid { bits: 1 << 127 }.simple());
}

#[test]
fn credits_are_rounded_up() {
    assert_eq!(credits(0, 20), 1);
    assert_eq!(credits(50, 20), 1);
    assert_eq!(credits(51, 20), 2);
    assert_eq!(credits(1000, 5000), 5000);
    assert_eq!(credits(1001, 5000), 5005);
    assert_eq!(credits(7000, 30), 210);
    let mut before = 0;
    for tokens in 0..500 {
        let cost = credits(tokens, 30);
        assert!(cost >= before);
        before = cost;
    }
}

#[test]
fn estimates_that_do_not_fit_are_not_made() {
    let most = (u64::MAX - 999) / 5000;
    let call = |tokens: u64| EstimateCostRequest {
        capability_urn: "oasf://x/web/get/v1".to_string(),
        input_size_tokens: tokens,
    };
    let fits = tools().try_estimate_cost(call(most)).unwrap().unwrap();
    assert_eq!(fits.credits_estimate, (most * 5000 + 999) / 1000);
    assert!(tools().try_estimate_cost(call(most + 1)).is_none());
    assert!(tools().try_estimate_cost(call(u64::MAX)).is_none());
    assert_eq!(
        estimate(&call(3), "gpu").credits_estimate,
        1
    );
}

#[test]
fn capabilities_are_asked_for_and_handed_out() {
    let tools = HttpMcpTools::new(HoneycombClient::new(
        "http://hive:8080/".to_string(),
        Some("key".to_string()),
    ));
    let request = tools.describe_cluster_request();
    assert_eq!(request.method, Method::Get);
    assert_eq!(request.url, "http://hive:8080/api/capabilities");
    assert_eq!(request.api_key, Some("key".to_string()));
    assert!(request.body.is_none());

    let info = CapabilityInfo {
        urn: "oasf://a/b/c/v1".to_string(),
        workload: "inference".to_string(),
        description: "d".to_string(),
        model_ref: "m".to_string(),
        lora_ref: None,
        latency_p50_ms: 12,
        min_tier_band: "t".to_string(),
        lifecycle: "ga".to_string(),
    };
    let response = tools
        .describe_cluster(Exchange::Decoded(vec![info]))
        .unwrap();
    assert_eq!(response.capabilities.len(), 1);
    assert_eq!(response.capabilities[0].latency_p50_ms, 12);

    match tools.describe_cluster(Exchange::Refused("404 Not Found".to_string())) {
        Err(GatewayError::ControlPlane(message)) => {
            assert_eq!(message, "HTTP 404 Not Found for GET /api/capabilities")
        }
        other => panic!("{:?}", other),
    }
}
