use okcvm_desktop::sidecar::health::{
    check_health, is_success_code, HealthReply, HealthResponse, HEALTH_REQUEST_TIMEOUT_SECS,
};

fn answer(code: u16, status: &str) -> HealthReply {
    HealthReply::Answered {
        code,
        body: Ok(HealthResponse { status: status.to_string(), version: None }),
    }
}

#[test]
fn test_health_check_invalid_url() {
    // Nothing can answer at http://127.0.0.1:99999/api/health: the port does not exist.
    let result = check_health(HealthReply::Unreachable {
        reason: "invalid port number in http://127.0.0.1:99999/api/health".to_string(),
    });
    assert!(result.is_err());
}

#[test]
fn unreachable_keeps_its_reason() {
    let result = check_health(HealthReply::Unreachable { reason: "connection refused".to_string() });
    assert_eq!(result, Err("connection refused".to_string()));
}

#[test]
fn ok_and_healthy_are_healthy() {
    assert_eq!(check_health(answer(200, "ok")), Ok(true));
    assert_eq!(check_health(answer(200, "healthy")), Ok(true));
    assert_eq!(check_health(answer(204, "healthy")), Ok(true));
    assert_eq!(check_health(answer(299, "ok")), Ok(true));
}

#[test]
fn other_status_texts_are_unhealthy() {
    assert_eq!(check_health(answer(200, "degraded")), Ok(false));
    assert_eq!(check_health(answer(200, "")), Ok(false));
    assert_eq!(check_health(answer(200, "OK")), Ok(false));
    assert_eq!(check_health(answer(200, "Healthy")), Ok(false));
    assert_eq!(check_health(answer(200, "ok ")), Ok(false));
}

#[test]
fn non_success_code_is_unhealthy_not_an_error() {
    assert_eq!(check_health(answer(500, "ok")), Ok(false));
    assert_eq!(check_health(answer(404, "healthy")), Ok(false));
    assert_eq!(check_health(answer(199, "ok")), Ok(false));
    assert_eq!(check_health(answer(300, "ok")), Ok(false));
    let reply = HealthReply::Answered { code: 503, body: Err("not json".to_string()) };
    assert_eq!(check_health(reply), Ok(false));
}

#[test]
fn undecodable_body_is_an_error() {
    let reply = HealthReply::Answered { code: 200, body: Err("expected value".to_string()) };
    assert_eq!(check_health(reply), Err("expected value".to_string()));
}

#[test]
fn version_does_not_matter() {
    let reply = HealthReply::Answered {
        code: 200,
        body: Ok(HealthResponse { status: "ok".to_string(), version: Some("1.2.3".to_string()) }),
    };
    assert_eq!(check_health(reply), Ok(true));
}

#[test]
fn success_codes_are_the_two_hundreds() {
    assert!(!is_success_code(0));
    assert!(!is_success_code(199));
    assert!(is_success_code(200));
    assert!(is_success_code(299));
    assert!(!is_success_code(300));
    assert!(!is_success_code(65535));
    assert_eq!(HEALTH_REQUEST_TIMEOUT_SECS, 5);
}
