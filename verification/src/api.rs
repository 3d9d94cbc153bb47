use vstd::prelude::*;
use crate::errors::{
    CliError, CliErrorView, ErrorCategory, ErrorSource, cli_error_spec, cli_error_str, cli_error_detail,
};
use crate::json::{Json, JsonView, object, push_field, json_str, field_models};
use crate::text::{drop_trailing, char_pred, eq_ignore_case_spec, trim_end_char, eq_ignore_case};

verus! {

pub open spec fn version_path() -> Seq<char> {
    "/api/info/version"@
}

pub open spec fn close_path() -> Seq<char> {
    "/api/core/close"@
}

pub open spec fn queue_get_path() -> Seq<char> {
    "/api/queue/get"@
}

pub open spec fn dispatch_start_path() -> Seq<char> {
    "/api/dispatch/start"@
}

/// The URL of an endpoint: the API base without trailing `/`, then the path.
pub open spec fn api_url_spec(base: Seq<char>, path: Seq<char>) -> Seq<char> {
    drop_trailing(base, char_pred('/')) + path
}

/// The URL of an endpoint under the API base.
pub fn api_url(base: &str, path: &str) -> (r: String)
    ensures
        r@ == api_url_spec(base@, path@),
{
    let mut u = trim_end_char(base, '/');
    u.append(path);
    u
}

/// An HTTP status in the success class.
pub open spec fn is_success_spec(code: u16) -> bool {
    200 <= code <= 299
}

/// `StatusCode::is_success`.
pub fn status_is_success(code: u16) -> (r: bool)
    ensures
        r == is_success_spec(code),
{
    200 <= code && code <= 299
}

/// The `code` field of a reply as an integer, 200 when there is none.
pub open spec fn payload_code(v: JsonView) -> i64 {
    match v.get("code"@) {
        Some(c) => match c.as_i64() {
            Some(i) => i,
            None => 200,
        },
        None => 200,
    }
}

/// The `status` field of a reply is the string `error`, in any ASCII case.
pub open spec fn status_is_error(v: JsonView) -> bool {
    match v.str_at("status"@) {
        Some(s) => eq_ignore_case_spec(s, "error"@),
        None => false,
    }
}

/// A backend reply that reports a failure.
pub open spec fn is_backend_error_spec(v: JsonView) -> bool {
    status_is_error(v) || payload_code(v) >= 400
}

/// Whether a backend reply reports a failure: its `status` is `error` or its
/// `code` is 400 or more.
pub fn is_backend_error_payload(value: &Json) -> (r: bool)
    ensures
        r == is_backend_error_spec(value@),
{
    let status_is_error = match value.str_at("status") {
        Some(s) => eq_ignore_case(s, "error"),
        None => false,
    };
    let code: i64 = match value.get("code") {
        Some(c) => match c.as_i64() {
            Some(i) => i,
            None => 200,
        },
        None => 200,
    };
    status_is_error || code >= 400
}

/// The message of a failure the backend reported.
pub open spec fn backend_message(payload: JsonView) -> Seq<char> {
    match payload.str_at("message"@) {
        Some(m) => m,
        None => "后端返回错误"@,
    }
}

pub open spec fn backend_error_spec(payload: JsonView, category: ErrorCategory) -> CliErrorView {
    CliErrorView {
        message: backend_message(payload),
        category,
        source: ErrorSource::Backend,
        backend_payload: Some(payload),
    }
}

/// The failure for a backend reply: its message (or a default) and the reply itself.
pub fn error_from_backend_or_default(backend_payload: Json, fallback_category: ErrorCategory) -> (e:
    CliError)
    ensures
        e@ == backend_error_spec(backend_payload@, fallback_category),
{
    let message = match backend_payload.str_at("message") {
        Some(m) => String::from_str(m),
        None => String::from_str("后端返回错误"),
    };
    CliError {
        message,
        category: fallback_category,
        source: ErrorSource::Backend,
        backend_payload: Some(backend_payload),
    }
}

/// What came of one HTTP request to the backend.
pub enum HttpOutcome {
    /// The HTTP client could not be built; the error text.
    ClientError(String),
    /// The request could not be sent or no response came.
    SendError,
    /// A response: its status, its body text, and that text parsed as JSON if it is JSON.
    Response { status: u16, text: String, body: Option<Json> },
}

pub enum HttpOutcomeView {
    ClientError(Seq<char>),
    SendError,
    Response { status: u16, text: Seq<char>, body: Option<JsonView> },
}

impl View for HttpOutcome {
    type V = HttpOutcomeView;

    open spec fn view(&self) -> HttpOutcomeView {
        match self {
            HttpOutcome::ClientError(e) => HttpOutcomeView::ClientError(e@),
            HttpOutcome::SendError => HttpOutcomeView::SendError,
            HttpOutcome::Response { status, text, body } => HttpOutcomeView::Response {
                status: *status,
                text: text@,
                body: crate::errors::opt_model(*body),
            },
        }
    }
}

/// The reply that stands for a body that is not JSON.
pub open spec fn fallback_reply_spec(status: u16, text: Seq<char>) -> JsonView {
    JsonView::Object(
        seq![
            ("code"@, JsonView::Int(status as i64)),
            ("status"@, JsonView::Str(if is_success_spec(status) { "success"@ } else { "error"@ })),
            ("message"@, JsonView::Str(text)),
        ],
    )
}

fn fallback_reply(status: u16, text: &str) -> (j: Json)
    ensures
        j@ == fallback_reply_spec(status, text@),
{
    let mut fields: Vec<(String, Json)> = Vec::new();
    push_field(&mut fields, "code", Json::Int(status as i64));
    let s = if status_is_success(status) {
        json_str("success")
    } else {
        json_str("error")
    };
    push_field(&mut fields, "status", s);
    push_field(&mut fields, "message", json_str(text));
    let j = object(fields);
    assert(j@->Object_0 =~= fallback_reply_spec(status, text@)->Object_0);
    j
}

/// The result of a request to the backend, from what came of it.
pub open spec fn api_post_spec(outcome: HttpOutcomeView) -> Result<JsonView, CliErrorView> {
    match outcome {
        HttpOutcomeView::ClientError(e) => Err(
            cli_error_spec(
                ErrorCategory::InvalidRuntimeConfiguration,
                "创建 HTTP 客户端失败"@ + ": "@ + e,
            ),
        ),
        HttpOutcomeView::SendError => Err(
            cli_error_spec(ErrorCategory::BackendUnreachable, "后端未运行，无法执行命令"@),
        ),
        HttpOutcomeView::Response { status, text, body } => {
            let reply = match body {
                Some(b) => b,
                None => fallback_reply_spec(status, text),
            };
            if !is_success_spec(status) || is_backend_error_spec(reply) {
                Err(backend_error_spec(reply, ErrorCategory::BackendBusinessError))
            } else {
                Ok(reply)
            }
        },
    }
}

pub open spec fn result_view(r: Result<Json, CliError>) -> Result<JsonView, CliErrorView> {
    match r {
        Ok(j) => Ok(j@),
        Err(e) => Err(e@),
    }
}

/// A backend request's result: a failure when the client could not be built,
/// the request not sent, the status not a success, or the reply reports a failure;
/// the reply otherwise.
pub fn api_post_result(outcome: HttpOutcome) -> (r: Result<Json, CliError>)
    ensures
        result_view(r) == api_post_spec(outcome@),
{
    match outcome {
        HttpOutcome::ClientError(e) => Err(
            cli_error_detail(
                ErrorCategory::InvalidRuntimeConfiguration,
                "创建 HTTP 客户端失败",
                e.as_str(),
            ),
        ),
        HttpOutcome::SendError => Err(
            cli_error_str(ErrorCategory::BackendUnreachable, "后端未运行，无法执行命令"),
        ),
        HttpOutcome::Response { status, text, body } => {
            let reply = match body {
                Some(b) => b,
                None => fallback_reply(status, text.as_str()),
            };
            if !status_is_success(status) {
                return Err(
                    error_from_backend_or_default(reply, ErrorCategory::BackendBusinessError),
                );
            }
            if is_backend_error_payload(&reply) {
                return Err(
                    error_from_backend_or_default(reply, ErrorCategory::BackendBusinessError),
                );
            }
            Ok(reply)
        },
    }
}

/// The body `{}`.
pub fn empty_body() -> (j: Json)
    ensures
        j@ == JsonView::Object(Seq::empty()),
{
    let fields: Vec<(String, Json)> = Vec::new();
    let j = object(fields);
    assert(j@->Object_0 =~= Seq::<(Seq<char>, JsonView)>::empty());
    j
}

pub open spec fn queue_get_body_spec() -> JsonView {
    JsonView::Object(seq![("queueId"@, JsonView::Null)])
}

/// The body of a queue listing: `{"queueId": null}`.
pub fn queue_get_body() -> (j: Json)
    ensures
        j@ == queue_get_body_spec(),
{
    let mut fields: Vec<(String, Json)> = Vec::new();
    push_field(&mut fields, "queueId", Json::Null);
    let j = object(fields);
    assert(j@->Object_0 =~= queue_get_body_spec()->Object_0);
    j
}

pub open spec fn dispatch_body_spec(queue_id: Seq<char>, mode: Seq<char>) -> JsonView {
    JsonView::Object(seq![("mode"@, JsonView::Str(mode)), ("taskId"@, JsonView::Str(queue_id))])
}

/// The body that starts a queue: `{"mode": mode, "taskId": queue_id}`.
pub fn dispatch_start_body(queue_id: &str, mode: &str) -> (j: Json)
    ensures
        j@ == dispatch_body_spec(queue_id@, mode@),
{
    let mut fields: Vec<(String, Json)> = Vec::new();
    push_field(&mut fields, "mode", json_str(mode));
    push_field(&mut fields, "taskId", json_str(queue_id));
    let j = object(fields);
    assert(j@->Object_0 =~= dispatch_body_spec(queue_id@, mode@)->Object_0);
    j
}

} // verus!
