use blog::api::middleware::console::{
    body_read_error, body_record, client_ip, is_client_error, is_server_error, log_mask_value,
    log_request, log_response, mask_json_field, message_type, Direction, Level,
};

#[test]
fn status_classes() {
    assert!(is_server_error(500));
    assert!(is_server_error(599));
    assert!(!is_server_error(600));
    assert!(!is_server_error(499));
    assert!(is_client_error(400));
    assert!(is_client_error(499));
    assert!(!is_client_error(399));
    assert!(!is_client_error(500));
}

#[test]
fn plain_request_is_logged_as_it_is() {
    let r = log_request("request", "POST", "10.0.0.1", "/posts", "{\"title\":\"t\"}").unwrap();
    assert_eq!(r.level, Level::Info);
    assert_eq!(r.message_type, "request");
    assert_eq!(r.method.as_deref(), Some("POST"));
    assert_eq!(r.client_ip, "10.0.0.1");
    assert_eq!(r.path, "/posts");
    assert_eq!(r.status, None);
    assert_eq!(r.message, "{\"title\":\"t\"}");
}

#[test]
fn login_request_password_is_masked() {
    let r = log_request(
        "request",
        "POST",
        "10.0.0.1",
        "/auth/login",
        "{\"login\":\"ann\",\"password\":\"hunter2\"}",
    )
    .unwrap();
    assert_eq!(r.level, Level::Info);
    assert_eq!(r.method.as_deref(), Some("POST"));
    assert_eq!(r.status, None);
    assert_eq!(r.message, "{\"login\":\"ann\",\"password\":\"***\"}");
    assert!(!r.message.contains("hunter2"));
}

#[test]
fn login_request_without_string_password_is_not_logged() {
    assert!(log_request("request", "POST", "ip", "/auth/login", "{\"password\":5}").is_none());
    assert!(log_request("request", "POST", "ip", "/auth/login", "{\"login\":\"a\"}").is_none());
    assert!(log_request("request", "POST", "ip", "/auth/login", "not json").is_none());
    assert!(log_request("request", "POST", "ip", "/auth/login", "[\"password\"]").is_none());
}

#[test]
fn login_prefix_covers_longer_paths() {
    let r = log_request("request", "POST", "ip", "/auth/login/again", "{\"password\":\"p\"}").unwrap();
    assert_eq!(r.message, "{\"password\":\"***\"}");
    let r = log_request("request", "POST", "ip", "/auth/logi", "{\"password\":\"p\"}").unwrap();
    assert_eq!(r.message, "{\"password\":\"p\"}");
}

#[test]
fn server_errors_are_logged_at_error_level() {
    let r = log_response("response", "ip", "/auth/login", 503, "{\"token\":\"t\"}").unwrap();
    assert_eq!(r.level, Level::Error);
    assert_eq!(r.status, Some(503));
    assert_eq!(r.method, None);
    assert_eq!(r.message, "{\"token\":\"t\"}");
}

#[test]
fn client_errors_are_logged_at_warn_level() {
    let r = log_response("response", "ip", "/posts/9", 404, "not found").unwrap();
    assert_eq!(r.level, Level::Warn);
    assert_eq!(r.status, Some(404));
    assert_eq!(r.message, "not found");
}

#[test]
fn login_answer_token_is_masked() {
    let r = log_response("response", "ip", "/auth/login", 200, "{\"token\":\"eyJ.abc.def\"}").unwrap();
    assert_eq!(r.level, Level::Info);
    assert_eq!(r.status, Some(200));
    assert_eq!(r.method, None);
    assert_eq!(r.message, "{\"token\":\"***\"}");
}

#[test]
fn other_answers_are_logged_as_they_are() {
    let r = log_response("response", "ip", "/posts", 200, "{\"posts\":[]}").unwrap();
    assert_eq!(r.level, Level::Info);
    assert_eq!(r.message, "{\"posts\":[]}");
    assert_eq!(r.path, "/posts");
    assert_eq!(r.client_ip, "ip");
}

#[test]
fn mask_value_needs_a_status_or_a_method() {
    assert!(log_mask_value("request", None, "ip", "/auth/login", None, "{\"password\":\"p\"}", "password").is_none());
    let r = log_mask_value("x", Some("GET"), "ip", "/p", Some(201), "{\"a\":\"b\"}", "a").unwrap();
    assert_eq!(r.status, Some(201));
    assert_eq!(r.method, None);
    assert_eq!(r.message, "{\"a\":\"***\"}");
}

#[test]
fn mask_json_field_keeps_other_members() {
    let masked = mask_json_field("{\"b\":1,\"a\":\"secret\",\"c\":[true,null]}", "a").unwrap();
    assert_eq!(masked, "{\"a\":\"***\",\"b\":1,\"c\":[true,null]}");
    assert!(mask_json_field("{\"a\":{\"x\":1}}", "a").is_none());
    assert!(mask_json_field("{}", "a").is_none());
}

#[test]
fn body_records() {
    let r = body_record(&Direction::Request, "GET", "ip", "/posts", b"hello").unwrap();
    assert_eq!(r.message_type, "request");
    assert_eq!(r.message, "hello");
    assert_eq!(r.method.as_deref(), Some("GET"));
    let r = body_record(&Direction::Response(201), "GET", "ip", "/posts", b"ok").unwrap();
    assert_eq!(r.message_type, "response");
    assert_eq!(r.status, Some(201));
    assert_eq!(r.method, None);
    assert!(body_record(&Direction::Request, "GET", "ip", "/posts", &[0xff, 0xfe]).is_none());
}

#[test]
fn body_read_error_names_the_body() {
    let (status, message) = body_read_error(&Direction::Request, "stream closed");
    assert_eq!(status, 400);
    assert_eq!(message, "failed to read request body: stream closed");
    let (_, message) = body_read_error(&Direction::Response(200), "x");
    assert_eq!(message, "failed to read response body: x");
    assert_eq!(message_type(&Direction::Request), "request");
}

#[test]
fn client_ip_falls_back_to_unknown() {
    assert_eq!(client_ip(Some("192.168.1.7")), "192.168.1.7");
    assert_eq!(client_ip(None), "Unknown");
}

#[test]
fn login_log_does_not_depend_on_the_password() {
    let a = log_request("request", "POST", "ip", "/auth/login", "{\"login\":\"ann\",\"n\":[1,2.5],\"password\":\"one\"}").unwrap();
    let b = log_request("request", "POST", "ip", "/auth/login", "{\"password\":\"two\",\"n\":[1,2.5],\"login\":\"ann\"}").unwrap();
    assert_eq!(a.message, b.message);
    assert_eq!(a.message, "{\"login\":\"ann\",\"n\":[1,2.5],\"password\":\"***\"}");
}

#[test]
fn login_answer_log_does_not_depend_on_the_token() {
    let a = log_response("response", "ip", "/auth/login", 200, "{\"token\":\"aaa\",\"exp\":1}").unwrap();
    let b = log_response("response", "ip", "/auth/login", 200, "{\"exp\":1,\"token\":\"bbb\"}").unwrap();
    assert_eq!(a.message, b.message);
    assert_eq!(a.message, "{\"exp\":1,\"token\":\"***\"}");
}
