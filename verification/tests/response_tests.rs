use iota_supply::errors::{ApiError, ErrorResponse};
use iota_supply::handlers::{forbidden_response, handle_supply_result, supply_success};

#[test]
fn success_response_body() {
    let r = supply_success(7_000_000_000);
    assert_eq!(r.status, 200);
    assert_eq!(r.body, "{\"0\":7}");
}

#[test]
fn success_response_floors() {
    let r = supply_success(999_999_999);
    assert_eq!(r.status, 200);
    assert_eq!(r.body, "{\"0\":0}");
}

#[test]
fn ok_outcome_becomes_success() {
    let r = handle_supply_result(Ok(4_500_000_000_000));
    assert_eq!(r.status, 200);
    assert_eq!(r.body, "{\"0\":4500}");
}

#[test]
fn failed_outcome_becomes_service_unavailable() {
    let r = handle_supply_result(Err(String::from("connection lost")));
    assert_eq!(r.status, 503);
    assert_eq!(
        r.body,
        "{\"error_code\":\"503\",\"error_message\":\"service unavailable: connection lost\"}"
    );
    assert!(r.body.contains("\"error_message\":\"service unavailable: "));
}

#[test]
fn failure_detail_is_escaped() {
    let r = handle_supply_result(Err(String::from("he said \"hi\"\\\n\u{1}")));
    assert_eq!(r.status, 503);
    assert_eq!(
        r.body,
        "{\"error_code\":\"503\",\"error_message\":\"service unavailable: he said \\\"hi\\\"\\\\\\n\\u0001\"}"
    );
}

#[test]
fn forbidden_response_body() {
    let r = forbidden_response();
    assert_eq!(r.status, 403);
    assert_eq!(r.body, "{\"error_code\":\"403\",\"error_message\":\"forbidden\"}");
}

#[test]
fn api_error_status_codes() {
    assert_eq!(ApiError::ServiceUnavailable(String::from("x")).status_code(), 503);
    assert_eq!(ApiError::Forbidden.status_code(), 403);
}

#[test]
fn api_error_messages() {
    assert_eq!(
        ApiError::ServiceUnavailable(String::from("timed out")).message(),
        "service unavailable: timed out"
    );
    assert_eq!(ApiError::Forbidden.message(), "forbidden");
}

#[test]
fn error_response_fields() {
    let e = ApiError::ServiceUnavailable(String::from("no route to host"));
    let f = ErrorResponse::from_error(&e);
    assert_eq!(f.error_code, "503");
    assert_eq!(f.error_message, "service unavailable: no route to host");
    assert_eq!(
        f.to_json(),
        "{\"error_code\":\"503\",\"error_message\":\"service unavailable: no route to host\"}"
    );
}
