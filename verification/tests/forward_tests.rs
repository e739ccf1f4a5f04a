use manatan_proxy::forward::{plan_forward, response_head_for, BackendOutcome};

fn h(name: &str, value: &str) -> (String, String) {
    (name.to_string(), value.to_string())
}

#[test]
fn health_forward_plan_rebuilds_the_request() {
    let headers = vec![h("host", "proxy.local"), h("accept", "*/*")];
    let plan = plan_forward("http://127.0.0.1:4569", "", "GET".to_string(), "/health", &headers);
    assert_eq!(plan.url, "http://127.0.0.1:4569/health");
    assert_eq!(plan.method, "GET");
    assert_eq!(plan.headers, vec![h("accept", "*/*")]);
}

#[test]
fn forward_plan_keeps_query_and_method() {
    let headers = vec![h("content-type", "application/json")];
    let plan = plan_forward(
        "http://127.0.0.1:4569",
        "",
        "POST".to_string(),
        "/api/v1/library?offset=10",
        &headers,
    );
    assert_eq!(plan.url, "http://127.0.0.1:4569/api/v1/library?offset=10");
    assert_eq!(plan.method, "POST");
    assert_eq!(plan.headers, headers);
}

#[test]
fn forward_plan_strips_a_configured_prefix() {
    let headers = Vec::new();
    let plan = plan_forward("http://127.0.0.1:4569", "/app", "GET".to_string(), "/app/health", &headers);
    assert_eq!(plan.url, "http://127.0.0.1:4569/health");
    let plan = plan_forward("http://127.0.0.1:4569", "/app", "GET".to_string(), "/health", &headers);
    assert_eq!(plan.url, "http://127.0.0.1:4569/health");
}

#[test]
fn backend_response_passes_through_verbatim() {
    let outcome = BackendOutcome::Responded {
        status: 200,
        headers: vec![h("content-type", "text/plain"), h("content-length", "2")],
    };
    let head = response_head_for(outcome);
    assert_eq!(head.status, 200);
    assert_eq!(head.headers, vec![h("content-type", "text/plain"), h("content-length", "2")]);
    assert!(head.stream_backend_body);
}

#[test]
fn unreachable_backend_answers_bad_gateway_with_empty_body() {
    let head = response_head_for(BackendOutcome::Unreachable);
    assert_eq!(head.status, 502);
    assert!(head.headers.is_empty());
    assert!(!head.stream_backend_body);
}

#[test]
fn error_statuses_from_the_backend_are_not_rewritten() {
    let head = response_head_for(BackendOutcome::Responded { status: 404, headers: Vec::new() });
    assert_eq!(head.status, 404);
    assert!(head.stream_backend_body);
}
