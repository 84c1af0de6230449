use airo_wingman::cog::{
    frame_input, is_success, reply_kind, Connector, Error, HTTPValidationError, Health,
    HealthCheck, Method, PredictionResponse, Probe, Reply, ReplyKind, SetupResult, Status,
    ValidationError,
};
use airo_wingman::types::{ExecutionResult, Failure};
use serde_json::Value;

fn health(status: Health) -> HealthCheck {
    HealthCheck {
        status,
        setup: SetupResult {
            started_at: "2024-01-01T00:00:00Z".to_string(),
            completed_at: "2024-01-01T00:00:01Z".to_string(),
            logs: String::new(),
            status: Status::Succeeded,
        },
    }
}

fn response(status: Status, output: Option<Value>) -> PredictionResponse {
    PredictionResponse {
        input: None,
        output,
        id: None,
        version: None,
        created_at: None,
        started_at: None,
        completed_at: None,
        logs: String::new(),
        error: None,
        status,
        metrics: None,
    }
}

#[test]
fn test_openapi_schema() {
    let connector = Connector::new(&format!("http://localhost:{}", 5000)).unwrap();
    let request = connector.openapi_schema().unwrap();
    assert_eq!(request.method, Method::Get);
    assert_eq!(request.url, "http://localhost:5000/openapi.json");
    assert!(request.body.is_none());
}

#[test]
fn test_health_check() {
    let connector = Connector::new(&format!("http://localhost:{}", 5000)).unwrap();
    let request = connector.health_check().unwrap();
    assert_eq!(request.method, Method::Get);
    assert_eq!(request.url, "http://localhost:5000/health-check");
    assert!(request.body.is_none());
}

#[test]
fn test_ensure_ready() {
    let connector = Connector::new(&format!("http://localhost:{}", 5000)).unwrap();
    assert!(matches!(connector.ensure_ready(&Ok(health(Health::Ready))), Probe::Ready));
    assert!(matches!(
        connector.ensure_ready(&Ok(health(Health::SetupFailed))),
        Probe::Failed(Error::SetupFailed)
    ));
    for status in [Health::Unknown, Health::Starting, Health::Busy] {
        assert!(matches!(connector.ensure_ready(&Ok(health(status))), Probe::Wait(1000)));
    }
    let down = Err(Failure::Outside("connection refused".to_string()));
    assert!(matches!(connector.ensure_ready(&down), Probe::Wait(1000)));
}

#[test]
fn test_predict_hello_world() {
    let connector = Connector::new(&format!("http://localhost:{}", 5000)).unwrap();
    let mut input = serde_json::Map::new();
    input.insert("text".to_owned(), Value::String("Dummy".to_owned()));
    let request = connector.predict(&Value::Object(input)).unwrap();
    assert_eq!(request.method, Method::Post);
    assert_eq!(request.url, "http://localhost:5000/predictions");
    assert_eq!(request.body.unwrap(), b"{\"input\":{\"text\":\"Dummy\"}}".to_vec());

    let answer = response(Status::Succeeded, Some(Value::String("hello Dummy".to_owned())));
    let prediction = Connector::prediction(Reply::Answer(answer)).unwrap();
    assert_eq!(prediction.output.unwrap(), "hello Dummy");
}

#[test]
fn connector_refuses_what_is_no_address() {
    assert!(matches!(Connector::new("not an address"), Err(Failure::Outside(_))));
    assert!(matches!(Connector::new(""), Err(Failure::Outside(_))));
    assert!(Connector::new("http://example.net").is_ok());
}

#[test]
fn requests_go_below_the_base_address() {
    let connector = Connector::new("http://example.net:8080/").unwrap();
    assert_eq!(connector.health_check().unwrap().url, "http://example.net:8080/health-check");
    let connector = Connector::new("http://example.net/models/resnet/").unwrap();
    assert_eq!(
        connector.health_check().unwrap().url,
        "http://example.net/models/resnet/health-check"
    );
}

#[test]
fn prediction_input_is_framed_as_the_input_field() {
    assert_eq!(frame_input(b"1".to_vec()), b"{\"input\":1}".to_vec());
    assert_eq!(frame_input(b"\"x\"".to_vec()), b"{\"input\":\"x\"}".to_vec());
    assert_eq!(frame_input(Vec::new()), b"{\"input\":}".to_vec());
}

#[test]
fn predict_written_fails_when_the_input_could_not_be_written() {
    let connector = Connector::new("http://localhost:5000").unwrap();
    let failed = connector.predict_written(Err("no".to_string()));
    assert!(matches!(failed, Err(Failure::Outside(ref words)) if words == "no"));
    let made = connector.predict_written(Ok(b"null".to_vec())).unwrap();
    assert_eq!(made.body.unwrap(), b"{\"input\":null}".to_vec());
}

#[test]
fn status_codes_say_how_to_read_the_answer() {
    assert_eq!(reply_kind(422), ReplyKind::Rejected);
    assert_eq!(reply_kind(200), ReplyKind::Answer);
    assert_eq!(reply_kind(201), ReplyKind::Answer);
    assert_eq!(reply_kind(299), ReplyKind::Answer);
    assert_eq!(reply_kind(199), ReplyKind::Failed);
    assert_eq!(reply_kind(300), ReplyKind::Failed);
    assert_eq!(reply_kind(404), ReplyKind::Failed);
    assert_eq!(reply_kind(500), ReplyKind::Failed);
    assert!(is_success(200));
    assert!(is_success(299));
    assert!(!is_success(199));
    assert!(!is_success(300));
    assert!(!is_success(422));
}

#[test]
fn rejected_input_becomes_input_validation() {
    let complaint = HTTPValidationError {
        detail: vec![ValidationError {
            location: vec!["body".to_string(), "input".to_string(), "text".to_string()],
            message: "field required".to_string(),
            error_type: "value_error.missing".to_string(),
        }],
    };
    match Connector::prediction(Reply::Rejected(complaint)) {
        Err(Failure::Connector(Error::InputValidation { errors })) => {
            assert_eq!(errors.len(), 1);
            assert_eq!(errors[0].location, vec!["body", "input", "text"]);
            assert_eq!(errors[0].message, "field required");
            assert_eq!(errors[0].error_type, "value_error.missing");
        },
        other => panic!("unexpected {:?}", other),
    }
}

#[test]
fn failed_request_hands_its_failure_on() {
    let failed = Reply::Failed(Failure::Outside("500".to_string()));
    assert!(matches!(
        Connector::prediction(failed),
        Err(Failure::Outside(ref words)) if words == "500"
    ));
}

#[test]
fn statuses_are_written_in_lower_case() {
    assert_eq!(Status::Starting.to_string(), "starting");
    assert_eq!(Status::Processing.to_string(), "processing");
    assert_eq!(Status::Succeeded.to_string(), "succeeded");
    assert_eq!(Status::Canceled.to_string(), "canceled");
    assert_eq!(Status::Failed.to_string(), "failed");
}

#[test]
fn execution_result_keeps_what_the_server_answered() {
    let mut answer = response(Status::Failed, None);
    answer.error = Some("out of memory".to_string());
    answer.started_at = Some("t0".to_string());
    answer.completed_at = Some("t1".to_string());
    let result = ExecutionResult::from(answer);
    assert_eq!(result.status, "failed");
    assert!(result.output.is_none());
    assert_eq!(result.error.as_deref(), Some("out of memory"));
    assert_eq!(result.started_at.as_deref(), Some("t0"));
    assert_eq!(result.completed_at.as_deref(), Some("t1"));
}

#[test]
fn execution_result_is_stored_as_one_json_object() {
    let result = ExecutionResult::from(response(
        Status::Succeeded,
        Some(Value::String("ok".to_owned())),
    ));
    let bytes = result.encode().unwrap();
    assert_eq!(
        String::from_utf8(bytes).unwrap(),
        "{\"status\":\"succeeded\",\"output\":\"ok\",\"error\":null,\"started_at\":null,\"completed_at\":null}"
    );
}

#[test]
fn stored_strings_are_escaped() {
    let mut answer = response(Status::Failed, None);
    answer.error = Some("line \"1\"\nline 2".to_string());
    answer.started_at = Some("2024-01-01T00:00:00Z".to_string());
    let mut output = serde_json::Map::new();
    output.insert("b".to_owned(), Value::Bool(true));
    output.insert("a".to_owned(), Value::Null);
    answer.output = Some(Value::Object(output));
    let bytes = ExecutionResult::from(answer).encode().unwrap();
    let text = String::from_utf8(bytes).unwrap();
    assert_eq!(
        text,
        "{\"status\":\"failed\",\"output\":{\"a\":null,\"b\":true},\"error\":\"line \\\"1\\\"\\nline 2\",\"started_at\":\"2024-01-01T00:00:00Z\",\"completed_at\":null}"
    );
    let read: Value = serde_json::from_str(&text).unwrap();
    assert_eq!(read["error"], "line \"1\"\nline 2");
    assert_eq!(read["output"]["b"], true);
}
