use repogen::session::{interpret_device_response, DeviceResponseError};
use repogen::validator::{
    http_success, interpret_identity_response, pat_format_ok, IdentityError,
};

const DEVICE_BODY: &str = "{\"device_code\":\"3584d83530557fdd1f46af8289938c8ef79f9dc5\",\
\"user_code\":\"WDJB-MJHT\",\
\"verification_uri\":\"https://github.com/login/device\",\
\"expires_in\":900,\
\"interval\":5}";

#[test]
fn device_response_yields_session_fields_verbatim() {
    let s = interpret_device_response(200, DEVICE_BODY).expect("a valid body must parse");
    assert_eq!(s.device_code, "3584d83530557fdd1f46af8289938c8ef79f9dc5");
    assert_eq!(s.user_code, "WDJB-MJHT");
    assert_eq!(s.verification_uri, "https://github.com/login/device");
    assert_eq!(s.expires_in, 900);
    assert_eq!(s.interval, 5);
}

#[test]
fn device_response_missing_field_is_rejected() {
    let body = "{\"device_code\":\"dc\",\"user_code\":\"uc\",\"expires_in\":900,\"interval\":5}";
    assert_eq!(
        interpret_device_response(200, body),
        Err(DeviceResponseError::MissingField)
    );
}

#[test]
fn device_response_wrong_type_is_rejected() {
    let body = "{\"device_code\":\"dc\",\"user_code\":\"uc\",\
\"verification_uri\":\"https://x\",\"expires_in\":\"900\",\"interval\":5}";
    assert_eq!(
        interpret_device_response(200, body),
        Err(DeviceResponseError::MissingField)
    );
}

#[test]
fn device_response_zero_interval_is_rejected() {
    let body = "{\"device_code\":\"dc\",\"user_code\":\"uc\",\
\"verification_uri\":\"https://x\",\"expires_in\":900,\"interval\":0}";
    assert_eq!(
        interpret_device_response(200, body),
        Err(DeviceResponseError::InvalidTiming)
    );
}

#[test]
fn device_response_zero_expiry_is_rejected() {
    let body = "{\"device_code\":\"dc\",\"user_code\":\"uc\",\
\"verification_uri\":\"https://x\",\"expires_in\":0,\"interval\":5}";
    assert_eq!(
        interpret_device_response(200, body),
        Err(DeviceResponseError::InvalidTiming)
    );
}

#[test]
fn device_response_error_status_is_surfaced() {
    let r = interpret_device_response(404, "not found");
    assert_eq!(
        r,
        Err(DeviceResponseError::Status(404, "not found".to_string()))
    );
}

#[test]
fn identity_response_yields_identity_fields_verbatim() {
    let body = "{\"login\":\"octocat\",\"name\":\"The Octocat\",\"email\":\"octo@github.com\"}";
    let id = interpret_identity_response(200, body).expect("a valid body must parse");
    assert_eq!(id.login, "octocat");
    assert_eq!(id.name, Some("The Octocat".to_string()));
    assert_eq!(id.email, Some("octo@github.com".to_string()));
}

#[test]
fn identity_response_null_fields_become_none() {
    let body = "{\"login\":\"octocat\",\"name\":null,\"email\":null}";
    let id = interpret_identity_response(200, body).expect("a valid body must parse");
    assert_eq!(id.login, "octocat");
    assert_eq!(id.name, None);
    assert_eq!(id.email, None);
}

#[test]
fn identity_response_unauthorized_status_carries_401() {
    // A token the service refuses: the validator reports the status and
    // the body, and produces no identity.
    let body = "{\"message\":\"Bad credentials\"}";
    let r = interpret_identity_response(401, body);
    assert_eq!(r, Err(IdentityError::Status(401, body.to_string())));
}

#[test]
fn identity_response_without_login_is_rejected() {
    let body = "{\"id\":583231}";
    assert_eq!(
        interpret_identity_response(200, body),
        Err(IdentityError::MissingLogin)
    );
}

#[test]
fn http_success_range_is_two_hundreds() {
    assert!(http_success(200));
    assert!(http_success(299));
    assert!(!http_success(199));
    assert!(!http_success(300));
    assert!(!http_success(401));
}

#[test]
fn pat_format_requires_prefix_and_length() {
    assert!(pat_format_ok("ghp_1234567"));
    assert!(!pat_format_ok("ghp_123456"));
    assert!(!pat_format_ok("gho_12345678901"));
    assert!(!pat_format_ok(""));
    assert!(!pat_format_ok("ghp"));
}
