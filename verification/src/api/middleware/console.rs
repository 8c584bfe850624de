//! The request log: what is written of each request and each answer, at
//! which level, and with which sensitive values masked.

use vstd::prelude::*;
use vstd::string::StringExecFns;
use vstd::utf8::{decode_utf8, valid_utf8};

use crate::api::middleware::json::{
    json_member_is_string, json_object_text, json_object_to_text, JsonValue,
    json_set_string_member, parse_json_object, parsed_json_object,
};
use crate::text::{starts_with, utf8_text};

verus! {

broadcast use vstd::string::group_string_axioms;

/// What replaces a masked value in the log.
pub const SENSITIVE_MASK: &'static str = "***";

/// Whether a body belongs to a request or to an answer with its status code.
#[derive(Debug, Clone, Copy)]
pub enum Direction {
    Request,
    Response(u16),
}

/// The level of a log record.
#[derive(Debug, Clone, Copy, PartialEq, Eq, Structural)]
pub enum Level {
    Info,
    Warn,
    Error,
}

/// A record of the request log: its level and its fields.
pub struct LogRecord {
    pub level: Level,
    pub message_type: String,
    pub method: Option<String>,
    pub client_ip: String,
    pub path: String,
    pub status: Option<u16>,
    pub message: String,
}

/// A log record as text: what its fields say.
pub struct LogEntry {
    pub level: Level,
    pub message_type: Seq<char>,
    pub method: Option<Seq<char>>,
    pub client_ip: Seq<char>,
    pub path: Seq<char>,
    pub status: Option<u16>,
    pub message: Seq<char>,
}

impl View for LogRecord {
    type V = LogEntry;

    open spec fn view(&self) -> LogEntry {
        LogEntry {
            level: self.level,
            message_type: self.message_type@,
            method: match self.method {
                Some(m) => Some(m@),
                None => None,
            },
            client_ip: self.client_ip@,
            path: self.path@,
            status: self.status,
            message: self.message@,
        }
    }
}

/// The entry that an optional record stands for.
pub open spec fn entry_of(r: Option<LogRecord>) -> Option<LogEntry> {
    match r {
        Some(record) => Some(record@),
        None => None,
    }
}

/// The text of an optional text.
pub open spec fn text_of(t: Option<&str>) -> Option<Seq<char>> {
    match t {
        Some(s) => Some(s@),
        None => None,
    }
}

/// A status code of the server-error class (500 to 599).
pub open spec fn spec_is_server_error(status: u16) -> bool {
    500 <= status < 600
}

/// A status code of the client-error class (400 to 499).
pub open spec fn spec_is_client_error(status: u16) -> bool {
    400 <= status < 500
}

/// Whether a status code is of the server-error class.
pub fn is_server_error(status: u16) -> (r: bool)
    ensures
        r == spec_is_server_error(status),
        r == (500 <= status && status <= 599),
{
    status >= 500 && status < 600
}

/// Whether a status code is of the client-error class.
pub fn is_client_error(status: u16) -> (r: bool)
    ensures
        r == spec_is_client_error(status),
        r == (400 <= status && status <= 499),
{
    status >= 400 && status < 500
}

/// The paths whose bodies carry credentials.
pub open spec fn is_login_path(path: Seq<char>) -> bool {
    "/auth/login"@.is_prefix_of(path)
}

/// Whether `message` is a JSON object whose member `field` holds a string,
/// the case in which that member can be masked.
pub open spec fn can_mask(message: Seq<char>, field: Seq<char>) -> bool {
    match parsed_json_object(message) {
        Some(members) => members.contains_key(field) && members[field] is String,
        None => false,
    }
}

/// The JSON text of `message` with the string in its member `field` replaced
/// by the mask: the text of the object that `message` parses to, with that
/// one member changed.
pub open spec fn masked_text(message: Seq<char>, field: Seq<char>) -> Seq<char> {
    json_object_text(parsed_json_object(message).unwrap().insert(field, JsonValue::String("***"@)))
}

/// The JSON text of `message` with the string in its member `field` masked,
/// where `message` is a JSON object whose member `field` holds a string.
pub fn mask_json_field(message: &str, field: &str) -> (r: Option<String>)
    ensures
        r is Some <==> can_mask(message@, field@),
        r matches Some(masked) ==> masked@ == masked_text(message@, field@),
{
    match parse_json_object(message) {
        Some(object) => {
            let mut object = object;
            if json_member_is_string(&object, field) {
                json_set_string_member(&mut object, field, SENSITIVE_MASK);
                let text = json_object_to_text(object);
                Some(text)
            } else {
                None
            }
        },
        None => None,
    }
}

/// What masking logs: where `message` is a JSON object whose member `field`
/// holds a string and a status or a method is given, one record at level
/// info with the given fields (the method only where no status is given)
/// and the masked text of `message`; nothing otherwise.
pub open spec fn mask_log(
    message_type: Seq<char>,
    method: Option<Seq<char>>,
    client_ip: Seq<char>,
    path: Seq<char>,
    status: Option<u16>,
    message: Seq<char>,
    field: Seq<char>,
) -> Option<LogEntry> {
    if can_mask(message, field) && (status is Some || method is Some) {
        Some(
            LogEntry {
                level: Level::Info,
                message_type,
                method: if status is Some {
                    None
                } else {
                    method
                },
                client_ip,
                path,
                status,
                message: masked_text(message, field),
            },
        )
    } else {
        None
    }
}

/// What is logged of a request body: on the login paths the body with its
/// password masked (or nothing, where it has no password to mask); elsewhere
/// the body as it is, at level info.
pub open spec fn request_log(
    message_type: Seq<char>,
    method: Seq<char>,
    client_ip: Seq<char>,
    path: Seq<char>,
    message: Seq<char>,
) -> Option<LogEntry> {
    if is_login_path(path) {
        mask_log(message_type, Some(method), client_ip, path, None, message, "password"@)
    } else {
        Some(
            LogEntry {
                level: Level::Info,
                message_type,
                method: Some(method),
                client_ip,
                path,
                status: None,
                message,
            },
        )
    }
}

/// The record of an answer's body as it is, at the given level.
pub open spec fn response_entry(
    level: Level,
    message_type: Seq<char>,
    client_ip: Seq<char>,
    path: Seq<char>,
    status: u16,
    message: Seq<char>,
) -> LogEntry {
    LogEntry {
        level,
        message_type,
        method: None,
        client_ip,
        path,
        status: Some(status),
        message,
    }
}

/// What is logged of an answer's body: at level error for a server error, at
/// level warn for a client error; otherwise, on the login paths, the body with
/// its token masked (or nothing, where it has no token to mask), and elsewhere
/// the body as it is, at level info.
pub open spec fn response_log(
    message_type: Seq<char>,
    client_ip: Seq<char>,
    path: Seq<char>,
    status: u16,
    message: Seq<char>,
) -> Option<LogEntry> {
    if spec_is_server_error(status) {
        Some(response_entry(Level::Error, message_type, client_ip, path, status, message))
    } else if spec_is_client_error(status) {
        Some(response_entry(Level::Warn, message_type, client_ip, path, status, message))
    } else if is_login_path(path) {
        mask_log(message_type, None, client_ip, path, Some(status), message, "token"@)
    } else {
        Some(response_entry(Level::Info, message_type, client_ip, path, status, message))
    }
}

/// Logs a body with the string in its member `field` masked: a record at level
/// info, with the status where one is given and else with the method. Nothing
/// is logged where the body is no JSON object whose member `field` holds a
/// string, or where neither a status nor a method is given.
pub fn log_mask_value(
    message_type: &str,
    method: Option<&str>,
    client_ip: &str,
    path: &str,
    status: Option<u16>,
    message: &str,
    field: &str,
) -> (r: Option<LogRecord>)
    ensures
        entry_of(r) == mask_log(
            message_type@,
            text_of(method),
            client_ip@,
            path@,
            status,
            message@,
            field@,
        ),
{
    match mask_json_field(message, field) {
        Some(masked) => {
            if let Some(status) = status {
                Some(
                    LogRecord {
                        level: Level::Info,
                        message_type: String::from_str(message_type),
                        method: None,
                        client_ip: String::from_str(client_ip),
                        path: String::from_str(path),
                        status: Some(status),
                        message: masked,
                    },
                )
            } else if let Some(method) = method {
                Some(
                    LogRecord {
                        level: Level::Info,
                        message_type: String::from_str(message_type),
                        method: Some(String::from_str(method)),
                        client_ip: String::from_str(client_ip),
                        path: String::from_str(path),
                        status: None,
                        message: masked,
                    },
                )
            } else {
                None
            }
        },
        None => None,
    }
}

/// Logs a request body: on the login paths with its password masked,
/// elsewhere as it is.
pub fn log_request(
    message_type: &str,
    method: &str,
    client_ip: &str,
    path: &str,
    message: &str,
) -> (r: Option<LogRecord>)
    ensures
        entry_of(r) == request_log(message_type@, method@, client_ip@, path@, message@),
{
    if starts_with(path, "/auth/login") {
        log_mask_value(message_type, Some(method), client_ip, path, None, message, "password")
    } else {
        Some(
            LogRecord {
                level: Level::Info,
                message_type: String::from_str(message_type),
                method: Some(String::from_str(method)),
                client_ip: String::from_str(client_ip),
                path: String::from_str(path),
                status: None,
                message: String::from_str(message),
            },
        )
    }
}

/// The record of an answer's body as it is, at the given level.
fn response_record(
    level: Level,
    message_type: &str,
    client_ip: &str,
    path: &str,
    status: u16,
    message: &str,
) -> (r: LogRecord)
    ensures
        r@ == response_entry(level, message_type@, client_ip@, path@, status, message@),
{
    LogRecord {
        level,
        message_type: String::from_str(message_type),
        method: None,
        client_ip: String::from_str(client_ip),
        path: String::from_str(path),
        status: Some(status),
        message: String::from_str(message),
    }
}

/// Logs an answer's body: errors at level error or warn by their class;
/// successful answers on the login paths with their token masked, elsewhere
/// as they are.
pub fn log_response(
    message_type: &str,
    client_ip: &str,
    path: &str,
    status: u16,
    message: &str,
) -> (r: Option<LogRecord>)
    ensures
        entry_of(r) == response_log(message_type@, client_ip@, path@, status, message@),
{
    if is_server_error(status) {
        Some(response_record(Level::Error, message_type, client_ip, path, status, message))
    } else if is_client_error(status) {
        Some(response_record(Level::Warn, message_type, client_ip, path, status, message))
    } else if starts_with(path, "/auth/login") {
        log_mask_value(message_type, None, client_ip, path, Some(status), message, "token")
    } else {
        Some(response_record(Level::Info, message_type, client_ip, path, status, message))
    }
}

/// The name under which a body is logged.
pub open spec fn direction_name(direction: Direction) -> Seq<char> {
    match direction {
        Direction::Request => "request"@,
        Direction::Response(_) => "response"@,
    }
}

/// The name under which a body is logged: "request" or "response".
pub fn message_type(direction: &Direction) -> (r: &'static str)
    ensures
        r@ == direction_name(*direction),
{
    match direction {
        Direction::Request => "request",
        Direction::Response(_) => "response",
    }
}

/// What is logged of a body read in full: nothing where it is not valid
/// UTF-8; otherwise its text, logged as a request or as an answer.
pub open spec fn body_log(
    direction: Direction,
    method: Seq<char>,
    client_ip: Seq<char>,
    path: Seq<char>,
    body: Seq<u8>,
) -> Option<LogEntry> {
    if !valid_utf8(body) {
        None
    } else {
        match direction {
            Direction::Request => request_log(
                "request"@,
                method,
                client_ip,
                path,
                decode_utf8(body),
            ),
            Direction::Response(status) => response_log(
                "response"@,
                client_ip,
                path,
                status,
                decode_utf8(body),
            ),
        }
    }
}

/// The record, if any, of a body that was read in full.
pub fn body_record(
    direction: &Direction,
    method: &str,
    client_ip: &str,
    path: &str,
    body: &[u8],
) -> (r: Option<LogRecord>)
    ensures
        entry_of(r) == body_log(*direction, method@, client_ip@, path@, body@),
{
    let name = message_type(direction);
    match utf8_text(body) {
        Some(text) => match direction {
            Direction::Request => log_request(name, method, client_ip, path, text),
            Direction::Response(status) => log_response(name, client_ip, path, *status, text),
        },
        None => None,
    }
}

/// The answer when a body cannot be read: status 400 and a sentence that
/// names the body and the reason.
pub fn body_read_error(direction: &Direction, reason: &str) -> (r: (u16, String))
    ensures
        r.0 == 400,
        r.1@ == "failed to read "@ + direction_name(*direction) + " body: "@ + reason@,
{
    let message = String::from_str("failed to read ").concat(message_type(direction)).concat(
        " body: ",
    ).concat(reason);
    (400, message)
}

/// The client address of a request: the `x-forwarded-for` header where it
/// is present and readable as text, else "Unknown".
pub fn client_ip(forwarded_for: Option<&str>) -> (r: String)
    ensures
        r@ == match forwarded_for {
            Some(address) => address@,
            None => "Unknown"@,
        },
{
    match forwarded_for {
        Some(address) => String::from_str(address),
        None => String::from_str("Unknown"),
    }
}

/// Two messages that parse to objects which differ at most in the string held
/// by the member `field` both can be masked, and have the same masked text:
/// the masked text does not depend on the value that it hides.
pub proof fn lemma_masked_text_ignores_hidden_value(
    m1: Seq<char>,
    m2: Seq<char>,
    field: Seq<char>,
)
    requires
        parsed_json_object(m1) is Some,
        parsed_json_object(m2) is Some,
        parsed_json_object(m1).unwrap().contains_key(field),
        parsed_json_object(m2).unwrap().contains_key(field),
        parsed_json_object(m1).unwrap()[field] is String,
        parsed_json_object(m2).unwrap()[field] is String,
        parsed_json_object(m1).unwrap().remove(field) == parsed_json_object(m2).unwrap().remove(
            field,
        ),
    ensures
        can_mask(m1, field),
        can_mask(m2, field),
        masked_text(m1, field) == masked_text(m2, field),
{
    let p1 = parsed_json_object(m1).unwrap();
    let p2 = parsed_json_object(m2).unwrap();
    let mask = JsonValue::String("***"@);
    let r1 = p1.remove(field);
    let r2 = p2.remove(field);
    assert forall|k: Seq<char>| k != field && #[trigger] p1.contains_key(k) implies p2.contains_key(k)
        && p1[k] == p2[k] by {
        assert(r1.contains_key(k) && r1[k] == p1[k]);
        assert(r2.contains_key(k) && r2[k] == p2[k]);
    }
    assert forall|k: Seq<char>| k != field && #[trigger] p2.contains_key(k) implies p1.contains_key(k) by {
        assert(r2.contains_key(k));
        assert(r1.contains_key(k));
    }
    assert(p1.insert(field, mask) =~= p2.insert(field, mask));
}

/// A request body on a login path is never logged as it is: where anything is
/// logged, it is at level info, with the method and no status, and its message
/// is the body's JSON object written again with the password masked.
pub proof fn lemma_login_request_is_masked(
    message_type: Seq<char>,
    method: Seq<char>,
    client_ip: Seq<char>,
    path: Seq<char>,
    message: Seq<char>,
)
    requires
        is_login_path(path),
    ensures
        request_log(message_type, method, client_ip, path, message) is Some <==> can_mask(
            message,
            "password"@,
        ),
        request_log(message_type, method, client_ip, path, message) matches Some(e) ==> e == (
        LogEntry {
            level: Level::Info,
            message_type,
            method: Some(method),
            client_ip,
            path,
            status: None,
            message: masked_text(message, "password"@),
        }),
{
}

/// What is logged of a login request does not depend on the password: two
/// bodies whose objects differ only in the string of their password log the
/// same record.
pub proof fn lemma_login_request_ignores_password(
    message_type: Seq<char>,
    method: Seq<char>,
    client_ip: Seq<char>,
    path: Seq<char>,
    m1: Seq<char>,
    m2: Seq<char>,
)
    requires
        is_login_path(path),
        parsed_json_object(m1) is Some,
        parsed_json_object(m2) is Some,
        parsed_json_object(m1).unwrap().contains_key("password"@),
        parsed_json_object(m2).unwrap().contains_key("password"@),
        parsed_json_object(m1).unwrap()["password"@] is String,
        parsed_json_object(m2).unwrap()["password"@] is String,
        parsed_json_object(m1).unwrap().remove("password"@) == parsed_json_object(
            m2,
        ).unwrap().remove("password"@),
    ensures
        request_log(message_type, method, client_ip, path, m1) == request_log(
            message_type,
            method,
            client_ip,
            path,
            m2,
        ),
{
    lemma_masked_text_ignores_hidden_value(m1, m2, "password"@);
}

/// A successful answer on a login path is never logged as it is: where
/// anything is logged, it is at level info, with the status and no method, and
/// its message is the body's JSON object written again with the token masked.
pub proof fn lemma_login_answer_is_masked(
    message_type: Seq<char>,
    client_ip: Seq<char>,
    path: Seq<char>,
    status: u16,
    message: Seq<char>,
)
    requires
        is_login_path(path),
        !spec_is_client_error(status),
        !spec_is_server_error(status),
    ensures
        response_log(message_type, client_ip, path, status, message) is Some <==> can_mask(
            message,
            "token"@,
        ),
        response_log(message_type, client_ip, path, status, message) matches Some(e) ==> e
            == response_entry(
            Level::Info,
            message_type,
            client_ip,
            path,
            status,
            masked_text(message, "token"@),
        ),
{
}

/// What is logged of a successful login answer does not depend on the token:
/// two bodies whose objects differ only in the string of their token log the
/// same record.
pub proof fn lemma_login_answer_ignores_token(
    message_type: Seq<char>,
    client_ip: Seq<char>,
    path: Seq<char>,
    status: u16,
    m1: Seq<char>,
    m2: Seq<char>,
)
    requires
        is_login_path(path),
        !spec_is_client_error(status),
        !spec_is_server_error(status),
        parsed_json_object(m1) is Some,
        parsed_json_object(m2) is Some,
        parsed_json_object(m1).unwrap().contains_key("token"@),
        parsed_json_object(m2).unwrap().contains_key("token"@),
        parsed_json_object(m1).unwrap()["token"@] is String,
        parsed_json_object(m2).unwrap()["token"@] is String,
        parsed_json_object(m1).unwrap().remove("token"@) == parsed_json_object(
            m2,
        ).unwrap().remove("token"@),
    ensures
        response_log(message_type, client_ip, path, status, m1) == response_log(
            message_type,
            client_ip,
            path,
            status,
            m2,
        ),
{
    lemma_masked_text_ignores_hidden_value(m1, m2, "token"@);
}

/// The level of an answer's record follows the class of its status code:
/// error for server errors, warn for client errors, info otherwise; and the
/// record carries the answer's status, path and client address.
pub proof fn lemma_answer_level_follows_status(
    message_type: Seq<char>,
    client_ip: Seq<char>,
    path: Seq<char>,
    status: u16,
    message: Seq<char>,
)
    ensures
        response_log(message_type, client_ip, path, status, message) matches Some(e) ==> e.level
            == (if spec_is_server_error(status) {
            Level::Error
        } else if spec_is_client_error(status) {
            Level::Warn
        } else {
            Level::Info
        }) && e.status == Some(status) && e.path == path && e.client_ip == client_ip,
{
}

/// A status code is of the client-error class exactly when it lies between
/// 400 and 499, and of the server-error class exactly when it lies between
/// 500 and 599.
pub proof fn lemma_status_classes_are_ranges(status: u16)
    ensures
        spec_is_client_error(status) <==> 400 <= status && status <= 499,
        spec_is_server_error(status) <==> 500 <= status && status <= 599,
{
}

/// Every answer of the client-error class is logged, on every path: at level
/// warn, with its status, path, client address and body as they are.
pub proof fn lemma_client_error_answer_is_logged_as_warn(
    message_type: Seq<char>,
    client_ip: Seq<char>,
    path: Seq<char>,
    status: u16,
    message: Seq<char>,
)
    requires
        400 <= status && status <= 499,
    ensures
        response_log(message_type, client_ip, path, status, message) == Some(
            LogEntry {
                level: Level::Warn,
                message_type,
                method: None,
                client_ip,
                path,
                status: Some(status),
                message,
            },
        ),
{
}

/// Every answer of the server-error class is logged, on every path: at level
/// error, with its status, path, client address and body as they are.
pub proof fn lemma_server_error_answer_is_logged_as_error(
    message_type: Seq<char>,
    client_ip: Seq<char>,
    path: Seq<char>,
    status: u16,
    message: Seq<char>,
)
    requires
        500 <= status && status <= 599,
    ensures
        response_log(message_type, client_ip, path, status, message) == Some(
            LogEntry {
                level: Level::Error,
                message_type,
                method: None,
                client_ip,
                path,
                status: Some(status),
                message,
            },
        ),
{
}

/// Every other answer off the login paths is logged at level info, with its
/// status, path, client address and body as they are.
pub proof fn lemma_other_answer_off_login_path_is_logged_as_is(
    message_type: Seq<char>,
    client_ip: Seq<char>,
    path: Seq<char>,
    status: u16,
    message: Seq<char>,
)
    requires
        !(400 <= status && status <= 599),
        !"/auth/login"@.is_prefix_of(path),
    ensures
        response_log(message_type, client_ip, path, status, message) == Some(
            LogEntry {
                level: Level::Info,
                message_type,
                method: None,
                client_ip,
                path,
                status: Some(status),
                message,
            },
        ),
{
}

/// Every request off the login paths is logged, whatever its body (an empty
/// one too): at level info, with its method, no status, and the body as it
/// is.
pub proof fn lemma_request_off_login_path_is_logged_as_is(
    message_type: Seq<char>,
    method: Seq<char>,
    client_ip: Seq<char>,
    path: Seq<char>,
    message: Seq<char>,
)
    requires
        !"/auth/login"@.is_prefix_of(path),
    ensures
        request_log(message_type, method, client_ip, path, message) == Some(
            LogEntry {
                level: Level::Info,
                message_type,
                method: Some(method),
                client_ip,
                path,
                status: None,
                message,
            },
        ),
{
}

/// A body that is not valid UTF-8 is not logged; the record of one that is
/// carries the request's own path and client address, names the direction of
/// the body, and carries the answer's status or the request's method.
pub proof fn lemma_body_record_keeps_the_request_fields(
    direction: Direction,
    method: Seq<char>,
    client_ip: Seq<char>,
    path: Seq<char>,
    body: Seq<u8>,
)
    ensures
        !valid_utf8(body) ==> body_log(direction, method, client_ip, path, body) is None,
        body_log(direction, method, client_ip, path, body) matches Some(e) ==> {
            &&& e.path == path
            &&& e.client_ip == client_ip
            &&& match direction {
                Direction::Request => e.message_type == "request"@ && e.method == Some(method)
                    && e.status is None,
                Direction::Response(status) => e.message_type == "response"@ && e.method is None
                    && e.status == Some(status),
            }
        },
{
}

/// A request body off the login paths is logged as its text, whatever it
/// holds; a request body on a login path is logged only as its JSON object
/// with the password masked, so that two bodies that differ only in the
/// password's string give the same record.
pub proof fn lemma_request_body_record(
    method: Seq<char>,
    client_ip: Seq<char>,
    path: Seq<char>,
    body: Seq<u8>,
)
    requires
        valid_utf8(body),
    ensures
        !"/auth/login"@.is_prefix_of(path) ==> body_log(
            Direction::Request,
            method,
            client_ip,
            path,
            body,
        ) == Some(
            LogEntry {
                level: Level::Info,
                message_type: "request"@,
                method: Some(method),
                client_ip,
                path,
                status: None,
                message: decode_utf8(body),
            },
        ),
        "/auth/login"@.is_prefix_of(path) ==> (body_log(
            Direction::Request,
            method,
            client_ip,
            path,
            body,
        ) is Some <==> can_mask(decode_utf8(body), "password"@)),
        "/auth/login"@.is_prefix_of(path) ==> (body_log(
            Direction::Request,
            method,
            client_ip,
            path,
            body,
        ) matches Some(e) ==> e == LogEntry {
            level: Level::Info,
            message_type: "request"@,
            method: Some(method),
            client_ip,
            path,
            status: None,
            message: json_object_text(
                parsed_json_object(decode_utf8(body)).unwrap().insert(
                    "password"@,
                    JsonValue::String("***"@),
                ),
            ),
        }),
{
}

} // verus!
