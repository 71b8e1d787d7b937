use apialerts::client::push_decimal;
use apialerts::{
    configure, configure_with_overrides, global_client, read_reply, ApiAlertsClient,
    ApiAlertsError, ApiResponse, Event, HttpReply, PostRequest, SendPlan, SendResult, API_URL,
    INTEGRATION_NAME, INTEGRATION_VERSION, TIMEOUT_SECONDS,
};

const TEST_URL: &str = "http://127.0.0.1:4010/event";

fn client_for() -> ApiAlertsClient {
    let mut client = ApiAlertsClient::new("test-api-key");
    client.set_overrides("rust-test", "2.0.0", TEST_URL);
    client
}

fn reply(status: u16, body: Option<ApiResponse>) -> Result<HttpReply, String> {
    Ok(HttpReply { status, body })
}

fn success_body(workspace: &str, channel: &str) -> Option<ApiResponse> {
    Some(ApiResponse {
        workspace: workspace.to_string(),
        channel: channel.to_string(),
        warnings: vec![],
    })
}

fn success_body_with_warnings(workspace: &str, channel: &str) -> Option<ApiResponse> {
    Some(ApiResponse {
        workspace: workspace.to_string(),
        channel: channel.to_string(),
        warnings: vec!["This channel will be deprecated soon".to_string()],
    })
}

fn header<'a>(req: &'a PostRequest, name: &str) -> Option<&'a str> {
    req.headers
        .iter()
        .find(|(n, _)| n == name)
        .map(|(_, v)| v.as_str())
}

fn error_text(r: Result<SendResult, ApiAlertsError>) -> String {
    r.unwrap_err().message()
}

// ── Constants ────────────────────────────────────────────────────────────────

#[test]
fn integration_name_is_rust() {
    assert_eq!(INTEGRATION_NAME, "rust");
}

#[test]
fn base_url_is_production_event_endpoint() {
    assert_eq!(API_URL, "https://api.apialerts.com/event");
}

#[test]
fn timeout_is_30_seconds() {
    assert_eq!(TIMEOUT_SECONDS, 30);
}

#[test]
fn version_is_a_1_x_release() {
    let parts: Vec<&str> = INTEGRATION_VERSION.split(['.', '-', '+']).collect();
    assert_eq!(
        parts[0], "1",
        "expected a 1.x version, got {INTEGRATION_VERSION}"
    );
    assert!(
        parts.len() >= 3,
        "expected semver x.y.z, got {INTEGRATION_VERSION}"
    );
    assert!(
        parts[1].parse::<u32>().is_ok(),
        "minor not numeric: {INTEGRATION_VERSION}"
    );
    assert!(
        parts[2].parse::<u32>().is_ok(),
        "patch not numeric: {INTEGRATION_VERSION}"
    );
}

// ── Validation ───────────────────────────────────────────────────────────────

#[test]
fn test_missing_message_returns_error() {
    let client = client_for();
    let result = client.prepare_post(Event::new(""));
    assert!(result.is_err());
    assert_eq!(result.unwrap_err().message(), "message is required");
}

#[test]
fn test_missing_api_key_returns_error() {
    let mut client = ApiAlertsClient::new("");
    client.set_overrides("rust-test", "2.0.0", TEST_URL);
    let result = client.prepare_post(Event::new("test"));
    assert!(result.is_err());
    assert_eq!(result.unwrap_err().message(), "api key is missing");
}

#[test]
fn missing_key_is_reported_before_missing_message() {
    let client = ApiAlertsClient::new("");
    let result = client.prepare_post(Event::new(""));
    assert!(matches!(result, Err(ApiAlertsError::ApiKeyMissing)));
}

// ── Reply status codes ───────────────────────────────────────────────────────

#[test]
fn test_200_returns_send_result() {
    let result = read_reply(reply(200, success_body("My Workspace", "general")));
    assert!(result.is_ok());
    let r = result.unwrap();
    assert_eq!(r.workspace, "My Workspace");
    assert_eq!(r.channel, "general");
    assert!(r.warnings.is_empty());
}

#[test]
fn test_200_with_warnings() {
    let result = read_reply(reply(200, success_body_with_warnings("My Workspace", "general")));
    assert!(result.is_ok());
    let r = result.unwrap();
    assert_eq!(r.warnings.len(), 1);
    assert_eq!(r.warnings[0], "This channel will be deprecated soon");
}

#[test]
fn test_400_returns_bad_request() {
    let result = read_reply(reply(400, None));
    assert!(result.is_err());
    assert_eq!(error_text(result), "bad request");
}

#[test]
fn test_401_returns_unauthorized() {
    let result = read_reply(reply(401, None));
    assert!(result.is_err());
    assert_eq!(error_text(result), "unauthorized - check your api key");
}

#[test]
fn test_403_returns_forbidden() {
    let result = read_reply(reply(403, None));
    assert!(result.is_err());
    assert_eq!(error_text(result), "forbidden");
}

#[test]
fn test_429_returns_rate_limit_exceeded() {
    let result = read_reply(reply(429, None));
    assert!(result.is_err());
    assert_eq!(error_text(result), "rate limit exceeded");
}

#[test]
fn test_500_returns_unexpected_status() {
    let result = read_reply(reply(500, None));
    assert!(result.is_err());
    assert_eq!(error_text(result), "unexpected status: 500");
}

#[test]
fn test_invalid_json_response_returns_invalid_response() {
    let result = read_reply(reply(200, None));
    assert!(result.is_err());
    assert_eq!(error_text(result), "invalid response from server");
}

#[test]
fn http_errors_keep_their_status_code() {
    for code in [400u16, 401, 403, 429, 500, 502, 7, 65535] {
        match read_reply(reply(code, success_body("W", "C"))) {
            Err(ApiAlertsError::HttpError(c, _)) => assert_eq!(c, code),
            _ => panic!("expected an HTTP error for {}", code),
        }
    }
}

#[test]
fn unexpected_status_texts_are_decimal() {
    assert_eq!(error_text(read_reply(reply(0, None))), "unexpected status: 0");
    assert_eq!(error_text(read_reply(reply(9, None))), "unexpected status: 9");
    assert_eq!(error_text(read_reply(reply(10, None))), "unexpected status: 10");
    assert_eq!(error_text(read_reply(reply(302, None))), "unexpected status: 302");
    assert_eq!(error_text(read_reply(reply(65535, None))), "unexpected status: 65535");
}

#[test]
fn network_failure_is_a_network_error() {
    let result = read_reply(Err("connection refused".to_string()));
    match result {
        Err(ApiAlertsError::NetworkError(msg)) => assert_eq!(msg, "connection refused"),
        _ => panic!("expected a network error"),
    }
}

#[test]
fn push_decimal_appends_digits() {
    let mut s = "n=".to_string();
    push_decimal(&mut s, 0);
    assert_eq!(s, "n=0");
    let mut s = String::new();
    push_decimal(&mut s, 18446744073709551615);
    assert_eq!(s, "18446744073709551615");
    let mut s = String::new();
    push_decimal(&mut s, 1000);
    assert_eq!(s, "1000");
}

// ── Error texts ──────────────────────────────────────────────────────────────

#[test]
fn error_messages_read_as_documented() {
    assert_eq!(ApiAlertsError::NotConfigured.message(), "client not configured");
    assert_eq!(ApiAlertsError::ApiKeyMissing.message(), "api key is missing");
    assert_eq!(ApiAlertsError::MessageRequired.message(), "message is required");
    assert_eq!(ApiAlertsError::NetworkError("boom".to_string()).message(), "boom");
    assert_eq!(ApiAlertsError::HttpError(418, "teapot".to_string()).message(), "teapot");
    assert_eq!(ApiAlertsError::InvalidResponse.message(), "invalid response from server");
}

#[test]
fn log_line_prefixes_the_message() {
    assert_eq!(
        ApiAlertsError::ApiKeyMissing.log_line(),
        "x (apialerts.com) Error: api key is missing"
    );
    assert_eq!(
        ApiAlertsError::NotConfigured.log_line(),
        "x (apialerts.com) Error: client not configured"
    );
}

// ── Request headers ──────────────────────────────────────────────────────────

#[test]
fn test_authorization_header_is_sent() {
    let req = client_for().prepare_post(Event::new("test")).unwrap();
    assert_eq!(header(&req, "Authorization"), Some("Bearer test-api-key"));
    assert_eq!(header(&req, "Content-Type"), Some("application/json"));
    assert_eq!(req.url, TEST_URL);
}

#[test]
fn test_integration_headers_are_sent() {
    let req = client_for().prepare_post(Event::new("test")).unwrap();
    assert_eq!(header(&req, "X-Integration"), Some("rust-test"));
    assert_eq!(header(&req, "X-Version"), Some("2.0.0"));
}

#[test]
fn test_set_overrides_changes_headers() {
    let mut client = ApiAlertsClient::new("test-api-key");
    client.set_overrides("github-actions", "1.0.0", TEST_URL);
    let req = client.prepare_post(Event::new("test")).unwrap();
    assert_eq!(header(&req, "X-Integration"), Some("github-actions"));
    assert_eq!(header(&req, "X-Version"), Some("1.0.0"));
    assert_eq!(header(&req, "Authorization"), Some("Bearer test-api-key"));
}

#[test]
fn new_client_uses_the_defaults() {
    let req = ApiAlertsClient::new("k").prepare_post(Event::new("m")).unwrap();
    assert_eq!(req.url, "https://api.apialerts.com/event");
    assert_eq!(header(&req, "X-Integration"), Some("rust"));
    assert_eq!(header(&req, "X-Version"), Some(INTEGRATION_VERSION));
    assert_eq!(req.headers.len(), 4);
}

#[test]
fn test_send_async_with_key_uses_provided_key() {
    let mut client = ApiAlertsClient::new("original-key");
    client.set_overrides("rust-test", "2.0.0", TEST_URL);
    let req = client
        .prepare_post_with_key("override-key", Event::new("test"))
        .unwrap();
    assert_eq!(header(&req, "Authorization"), Some("Bearer override-key"));
}

// ── Events ───────────────────────────────────────────────────────────────────

#[test]
fn test_full_event_payload() {
    let data = serde_json::Value::Object(
        [("version".to_string(), serde_json::Value::String("2.0.0".to_string()))]
            .into_iter()
            .collect(),
    );
    let req = client_for()
        .prepare_post(
            Event::new("Full payload test")
                .channel("developer")
                .event("ci.deploy")
                .title("Deployed")
                .tags(vec!["CI/CD", "Rust"])
                .link("https://github.com")
                .data(data.clone()),
        )
        .unwrap();
    let e = &req.event;
    assert_eq!(e.message, "Full payload test");
    assert_eq!(e.channel.as_deref(), Some("developer"));
    assert_eq!(e.event_key.as_deref(), Some("ci.deploy"));
    assert_eq!(e.title.as_deref(), Some("Deployed"));
    assert_eq!(e.tags, Some(vec!["CI/CD".to_string(), "Rust".to_string()]));
    assert_eq!(e.link.as_deref(), Some("https://github.com"));
    assert_eq!(e.data, Some(data));

    let result = read_reply(reply(200, success_body("W", "developer")));
    assert_eq!(result.unwrap().channel, "developer");
}

#[test]
fn minimal_event_sets_no_optional_field() {
    let e = Event::new("minimal");
    assert_eq!(e.message, "minimal");
    assert!(e.channel.is_none());
    assert!(e.event_key.is_none());
    assert!(e.title.is_none());
    assert!(e.tags.is_none());
    assert!(e.link.is_none());
    assert!(e.data.is_none());
}

#[test]
fn builders_keep_other_fields() {
    let e = Event::new("m").title("t").channel("c").title("t2");
    assert_eq!(e.message, "m");
    assert_eq!(e.title.as_deref(), Some("t2"));
    assert_eq!(e.channel.as_deref(), Some("c"));
    assert!(e.link.is_none());
    let e = e.tags(vec![]);
    assert_eq!(e.tags, Some(vec![]));
    assert_eq!(e.channel.as_deref(), Some("c"));
}

// ── Fire-and-forget ──────────────────────────────────────────────────────────

#[test]
fn test_send_does_not_panic_on_error() {
    let client = client_for();
    match client.plan_send(Event::new("test")) {
        SendPlan::Post(req) => assert_eq!(req.url, TEST_URL),
        SendPlan::Log(_) => panic!("a valid event is posted"),
    }
    let outcome = read_reply(reply(401, None));
    assert!(client.delivery_log(&outcome).is_empty());
}

#[test]
fn refused_send_is_logged_whatever_debug_is() {
    let client = client_for();
    match client.plan_send_with_key("", Event::new("test")) {
        SendPlan::Log(line) => assert_eq!(line, "x (apialerts.com) Error: api key is missing"),
        SendPlan::Post(_) => panic!("an event without key is refused"),
    }
    match client.plan_send(Event::new("")) {
        SendPlan::Log(line) => assert_eq!(line, "x (apialerts.com) Error: message is required"),
        SendPlan::Post(_) => panic!("an event without message is refused"),
    }
}

#[test]
fn debug_logs_delivery_and_warnings() {
    let mut client = client_for();
    client.set_debug(true);
    let outcome = read_reply(reply(200, success_body_with_warnings("My Workspace", "general")));
    let lines = client.delivery_log(&outcome);
    assert_eq!(
        lines,
        vec![
            "\u{2713} (apialerts.com) Alert sent to My Workspace (general)".to_string(),
            "! (apialerts.com) Warning: This channel will be deprecated soon".to_string(),
        ]
    );
    let failed = read_reply(reply(403, None));
    assert_eq!(
        client.delivery_log(&failed),
        vec!["x (apialerts.com) Error: forbidden".to_string()]
    );
    client.set_debug(false);
    assert!(client.delivery_log(&outcome).is_empty());
}

// ── Global client ────────────────────────────────────────────────────────────

#[test]
fn unconfigured_global_client_is_an_error() {
    let slot: Option<ApiAlertsClient> = None;
    match global_client(&slot) {
        Err(e) => assert_eq!(e.message(), "client not configured"),
        Ok(_) => panic!("no client was configured"),
    }
}

#[test]
fn first_configure_wins() {
    let mut slot = None;
    configure(&mut slot, "first-key");
    configure(&mut slot, "second-key");
    configure_with_overrides(&mut slot, "third-key", "gh", "9.9.9", TEST_URL);
    let client = global_client(&slot).unwrap();
    let req = client.prepare_post(Event::new("m")).unwrap();
    assert_eq!(header(&req, "Authorization"), Some("Bearer first-key"));
    assert_eq!(req.url, API_URL);
}

#[test]
fn configure_with_overrides_sets_headers() {
    let mut slot = None;
    configure_with_overrides(&mut slot, "k", "github-actions", "1.0.0", TEST_URL);
    let req = global_client(&slot)
        .unwrap()
        .prepare_post(Event::new("m"))
        .unwrap();
    assert_eq!(header(&req, "X-Integration"), Some("github-actions"));
    assert_eq!(header(&req, "X-Version"), Some("1.0.0"));
    assert_eq!(req.url, TEST_URL);
}
