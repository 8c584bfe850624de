use blog::api::error::{replace_newlines_in, Error};

#[test]
fn database_error_is_internal_with_its_text() {
    let r = Error::DatabaseError("connection refused".to_string()).into_response();
    assert_eq!(r.status, 500);
    assert_eq!(r.message, "connection refused");
}

#[test]
fn validation_error_is_framed_and_on_one_line() {
    let r = Error::ValidationError("title: too short\npost: empty".to_string()).into_response();
    assert_eq!(r.status, 400);
    assert_eq!(r.message, "Input validation error: [title: too short, post: empty]");
    assert!(!r.message.contains('\n'));
}

#[test]
fn json_rejection_is_bad_request() {
    let r = Error::JsonRejection("missing field `title`".to_string()).into_response();
    assert_eq!(r.status, 400);
    assert_eq!(r.message, "missing field `title`");
}

#[test]
fn unauthorized_answers_with_fixed_sentence() {
    let r = Error::Unauthorized.into_response();
    assert_eq!(r.status, 401);
    assert_eq!(r.message, "Invalid login or password");
}

#[test]
fn not_found_is_404() {
    let r = Error::NotFound("no such post".to_string()).into_response();
    assert_eq!(r.status, 404);
    assert_eq!(r.message, "no such post");
}

#[test]
fn conflict_answers_with_fixed_sentence() {
    let r = Error::Conflict.into_response();
    assert_eq!(r.status, 409);
    assert_eq!(r.message, "Resource already exists");
}

#[test]
fn bad_request_and_internal_error_keep_their_text() {
    let r = Error::BadRequest("bad id".to_string()).into_response();
    assert_eq!((r.status, r.message.as_str()), (400, "bad id"));
    let r = Error::InternalServerError("boom".to_string()).into_response();
    assert_eq!((r.status, r.message.as_str()), (500, "boom"));
}

#[test]
fn error_texts() {
    assert_eq!(Error::Unauthorized.text(), "Invalid login or password");
    assert_eq!(Error::Conflict.text(), "Resource already exists");
    assert_eq!(Error::BadRequest("x".to_string()).text(), "x");
}

#[test]
fn every_status_is_an_error_class() {
    let errors = vec![
        Error::DatabaseError(String::new()),
        Error::ValidationError(String::new()),
        Error::JsonRejection(String::new()),
        Error::Unauthorized,
        Error::NotFound(String::new()),
        Error::Conflict,
        Error::BadRequest(String::new()),
        Error::InternalServerError(String::new()),
    ];
    for e in errors {
        let s = e.into_response().status;
        assert!((400..600).contains(&s));
    }
}

#[test]
fn replace_newlines_replaces_each_line_feed() {
    assert_eq!(replace_newlines_in("a\nb\n\nc"), "a, b, , c");
    assert_eq!(replace_newlines_in("no line feed"), "no line feed");
    assert_eq!(replace_newlines_in(""), "");
    assert_eq!(replace_newlines_in("é\n→"), "é, →");
}
