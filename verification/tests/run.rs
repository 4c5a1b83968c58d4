use hive_mcp_gateway::client::{Exchange, Method};
use hive_mcp_gateway::clock::{Moment, LAST_SECOND};
use hive_mcp_gateway::ids::Uuid;
use hive_mcp_gateway::json::{to_value, Json};
use hive_mcp_gateway::run::{
    has_ended, Poll, PollStep, TaskStatus, WaitAct, WaitEvent, POLL_MILLIS,
};
use hive_mcp_gateway::{GatewayError, HoneycombClient, HttpMcpTools, RunSubagentRequest};

fn tools() -> HttpMcpTools {
    HttpMcpTools::new(HoneycombClient::new(
        "http://hive:8080//".to_string(),
        Some("key".to_string()),
    ))
}

fn request() -> RunSubagentRequest {
    RunSubagentRequest {
        model_id: Some("qwen2.5:0.5b".to_string()),
        capability_urn: None,
        prompt: " Classify. ".to_string(),
        profile: None,
        timeout_seconds: None,
        tenant_id: None,
        sensitivity_required: None,
        jurisdiction_required: Vec::new(),
        credits_budget: None,
    }
}

fn status(text: &str) -> Exchange<TaskStatus> {
    Exchange::Decoded(TaskStatus {
        status: text.to_string(),
        output: Some(Json::text("positive")),
        last_error: Some("none".to_string()),
    })
}

fn poll() -> Poll {
    Poll { task_id: Uuid { bits: 7 }, timeout_seconds: 2 }
}

fn invalid<T: std::fmt::Debug>(result: Result<T, GatewayError>) -> String {
    match result {
        Err(GatewayError::Invalid(message)) => message,
        other => panic!("{:?}", other),
    }
}

#[test]
fn a_task_is_handed_over_in_its_envelope() {
    let now = Moment { seconds: 1_431_648_000, nanos: 0 };
    let submission = tools()
        .submission(&request(), Uuid { bits: 7 }, Uuid { bits: 9 }, now)
        .unwrap();
    assert_eq!(submission.method, Method::Post);
    assert_eq!(submission.url, "http://hive:8080/api/tasks/create");
    assert_eq!(submission.api_key, Some("key".to_string()));
    let body = to_value(&submission.body.unwrap());
    assert_eq!(body["task_id"], "00000000-0000-0000-0000-000000000007");
    assert_eq!(body["payload"]["payload"]["profile"], "default");
    assert_eq!(body["payload"]["payload"]["prompt"], " Classify. ");
    assert_eq!(body["payload"]["capability_urn"]["operation"], "qwen2.5-0.5b");
}

#[test]
fn a_task_is_not_handed_over_at_the_end_of_time() {
    let tools = tools();
    let id = Uuid { bits: 7 };
    let last = Moment { seconds: LAST_SECOND - 60, nanos: 0 };
    let late = Moment { seconds: LAST_SECOND - 59, nanos: 0 };
    let submission = tools.submission_if_due(&request(), id, id, last).unwrap().unwrap();
    assert_eq!(submission.url, "http://hive:8080/api/tasks/create");
    assert!(tools.submission_if_due(&request(), id, id, late).is_none());
    let mut req = request();
    req.prompt = "\t\u{3000}".to_string();
    assert_eq!(
        invalid(tools.submission_if_due(&req, id, id, late).unwrap()),
        "prompt is empty"
    );
    req.prompt = "x".to_string();
    req.model_id = Some("library/llama3".to_string());
    assert_eq!(
        invalid(tools.submission_if_due(&req, id, id, late).unwrap()),
        "URN must have 4 segments after oasf://: oasf://commons/inference/library/llama3/v1"
    );
}

#[test]
fn a_task_gets_a_random_identifier() {
    let first = tools().run_subagent_request(&request()).unwrap().unwrap();
    let second = tools().run_subagent_request(&request()).unwrap().unwrap();
    let first = to_value(&first.body.unwrap());
    let second = to_value(&second.body.unwrap());
    assert_ne!(first["task_id"], second["task_id"]);
    assert_eq!(first["task_id"], first["payload"]["task_id"]);
}

#[test]
fn requests_are_refused_for_the_first_fault() {
    let mut req = request();
    req.model_id = None;
    req.prompt = "  ".to_string();
    assert_eq!(
        invalid(tools().run_subagent_request(&req).unwrap()),
        "run_subagent requires `capability_urn` or `model_id`"
    );
    req.capability_urn = Some("nonsense".to_string());
    assert_eq!(
        invalid(tools().run_subagent_request(&req).unwrap()),
        "prompt is empty"
    );
    req.prompt = "x".to_string();
    assert_eq!(
        invalid(tools().run_subagent_request(&req).unwrap()),
        "URN must start with oasf://: nonsense"
    );
    req.capability_urn = None;
    req.model_id = Some("a/b".to_string());
    assert!(tools().run_subagent_request(&req).unwrap().is_err());
}

#[test]
fn a_task_is_given_its_profile() {
    let mut req = request();
    req.profile = Some("fast".to_string());
    let task = req
        .task_given(Ok("oasf://a/b/c/v1".to_string()), false, Uuid { bits: 1 })
        .unwrap();
    assert_eq!(task.profile, "fast");
    assert_eq!(
        invalid(req.task_given(Ok("u".to_string()), true, Uuid { bits: 1 })),
        "prompt is empty"
    );
}

#[test]
fn the_control_plane_names_the_task() {
    let mut req = request();
    let followed = tools()
        .submitted(&req, Exchange::Decoded(Uuid { bits: 5 }))
        .unwrap();
    assert_eq!(followed, Poll { task_id: Uuid { bits: 5 }, timeout_seconds: 60 });
    req.timeout_seconds = Some(3);
    let followed = tools()
        .submitted(&req, Exchange::Decoded(Uuid { bits: 5 }))
        .unwrap();
    assert_eq!(followed.timeout_seconds, 3);
    match tools().submitted(&req, Exchange::Refused("500 Internal Server Error".to_string())) {
        Err(GatewayError::ControlPlane(message)) => assert_eq!(
            message,
            "HTTP 500 Internal Server Error for POST /api/tasks/create"
        ),
        other => panic!("{:?}", other),
    }
}

#[test]
fn a_task_is_looked_at_until_its_time_is_up() {
    let client = HoneycombClient::new("http://hive:8080".to_string(), None);
    let look = poll().look(&client, 1_999_999_999).unwrap();
    assert_eq!(look.method, Method::Get);
    assert_eq!(
        look.url,
        "http://hive:8080/api/tasks/00000000-0000-0000-0000-000000000007"
    );
    assert_eq!(look.api_key, None);
    assert!(matches!(
        poll().look(&client, 2_000_000_000),
        Err(GatewayError::TaskTimeout { seconds: 2 })
    ));
    let at_once = Poll { task_id: Uuid { bits: 7 }, timeout_seconds: 0 };
    assert!(matches!(
        at_once.look(&client, 0),
        Err(GatewayError::TaskTimeout { seconds: 0 })
    ));
    let forever = Poll { task_id: Uuid { bits: 7 }, timeout_seconds: u64::MAX };
    assert!(forever.look(&client, u64::MAX as u128 * 1_000_000_000 - 1).is_ok());
}

#[test]
fn ended_tasks_are_handed_out() {
    for text in ["Succeeded", "completed", "FAILED", "timed_Out", "cancelled"] {
        match poll().step(status(text)).unwrap() {
            PollStep::Done(response) => {
                assert_eq!(response.task_id, Uuid { bits: 7 });
                assert_eq!(response.status, text);
                assert_eq!(to_value(&response.output.unwrap()), "positive");
                assert_eq!(response.error, Some("none".to_string()));
            }
            other => panic!("{:?}", other),
        }
    }
}

#[test]
fn other_tasks_are_looked_at_again() {
    for text in ["", "running", "queued", "succeeded ", "ſucceeded"] {
        assert!(matches!(
            poll().step(status(text)).unwrap(),
            PollStep::Wait { millis: 500 }
        ));
    }
    assert!(!has_ended("timed-out"));
}

#[test]
fn failed_looks_end_the_wait() {
    match poll().step(Exchange::Unreachable("connection refused".to_string())) {
        Err(GatewayError::ControlPlane(message)) => assert_eq!(message, "connection refused"),
        other => panic!("{:?}", other),
    }
    match poll().step(Exchange::Garbled("expected value".to_string())) {
        Err(GatewayError::ControlPlane(message)) => assert_eq!(message, "expected value"),
        other => panic!("{:?}", other),
    }
    match poll().step(Exchange::Refused("404 Not Found".to_string())) {
        Err(GatewayError::ControlPlane(message)) => assert_eq!(
            message,
            "HTTP 404 Not Found for GET /api/tasks/00000000-0000-0000-0000-000000000007"
        ),
        other => panic!("{:?}", other),
    }
}

#[test]
fn a_wait_takes_the_first_ended_look() {
    let client = HoneycombClient::new("http://hive:8080".to_string(), None);
    let looks = [(0u128, "queued"), (600_000_000, "running"), (1_200_000_000, "completed")];
    let mut answer = None;
    for (elapsed, text) in looks {
        assert!(poll().look(&client, elapsed).is_ok());
        if let PollStep::Done(response) = poll().step(status(text)).unwrap() {
            answer = Some(response.status);
        }
    }
    assert_eq!(answer, Some("completed".to_string()));
}

/// Waits for a task that shows these statuses in turn; each look takes no time.
fn waited(poll: Poll, shown: Vec<Exchange<TaskStatus>>) -> (usize, Result<String, GatewayError>) {
    let client = HoneycombClient::new("http://hive:8080".to_string(), None);
    let mut shown = shown.into_iter();
    let mut looks = 0;
    let mut elapsed_nanos = 0u128;
    let mut event = WaitEvent::Woken { elapsed_nanos };
    loop {
        event = match poll.act(&client, event) {
            WaitAct::Look(request) => {
                assert_eq!(request.url, client.url(&poll.path()));
                looks += 1;
                WaitEvent::Seen(shown.next().unwrap())
            }
            WaitAct::Pause { millis } => {
                assert_eq!(millis, POLL_MILLIS);
                elapsed_nanos += millis as u128 * 1_000_000;
                WaitEvent::Woken { elapsed_nanos }
            }
            WaitAct::End(result) => return (looks, result.map(|response| response.status)),
        };
    }
}

#[test]
fn a_wait_runs_to_its_end() {
    let (looks, ended) = waited(poll(), vec![status("queued"), status("running"), status("failed")]);
    assert_eq!(looks, 3);
    assert_eq!(ended.unwrap(), "failed");
}

#[test]
fn a_wait_looks_twice_a_second_and_then_gives_up() {
    let shown = (0..10).map(|_| status("running")).collect();
    let (looks, ended) = waited(poll(), shown);
    assert_eq!(looks, 4);
    assert!(matches!(ended, Err(GatewayError::TaskTimeout { seconds: 2 })));
}

#[test]
fn a_failed_look_ends_a_wait_wherever_it_comes() {
    let shown = vec![
        status("running"),
        Exchange::Refused("502 Bad Gateway".to_string()),
        status("completed"),
    ];
    let (looks, ended) = waited(poll(), shown);
    assert_eq!(looks, 2);
    match ended {
        Err(GatewayError::ControlPlane(message)) => assert_eq!(
            message,
            "HTTP 502 Bad Gateway for GET /api/tasks/00000000-0000-0000-0000-000000000007"
        ),
        other => panic!("{:?}", other),
    }
}
