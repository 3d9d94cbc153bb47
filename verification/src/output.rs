use vstd::prelude::*;
use crate::context::{RuntimeContext, ContextView};
use crate::errors::{CliError, CliErrorView, category_name, source_name};
use crate::json::{Json, JsonView, object, push_field, json_str, json_opt_str, opt_str_model, field_models, models};
use crate::text::{decimal, decimal_spec, opt_view, views};

verus! {

/// What a command prints.
#[derive(Debug)]
pub enum Output {
    /// One JSON value on stdout.
    Json(Json),
    /// Lines of text on stdout.
    Lines(Vec<String>),
    /// One line on stderr.
    ErrorLine(String),
}

pub enum OutputView {
    Json(JsonView),
    Lines(Seq<Seq<char>>),
    ErrorLine(Seq<char>),
}

impl View for Output {
    type V = OutputView;

    open spec fn view(&self) -> OutputView {
        match self {
            Output::Json(j) => OutputView::Json(j@),
            Output::Lines(l) => OutputView::Lines(views(l@)),
            Output::ErrorLine(s) => OutputView::ErrorLine(s@),
        }
    }
}

/// The uniform reply of the CLI's own commands and errors.
pub struct CliEnvelope {
    pub code: i64,
    pub status: String,
    pub message: String,
    pub data: Option<Json>,
    pub source: Option<String>,
    pub category: Option<String>,
}

pub open spec fn opt_field(key: Seq<char>, v: Option<JsonView>) -> Seq<(Seq<char>, JsonView)> {
    match v {
        Some(x) => seq![(key, x)],
        None => Seq::empty(),
    }
}

pub open spec fn opt_str_field(key: Seq<char>, v: Option<Seq<char>>) -> Seq<(Seq<char>, JsonView)> {
    match v {
        Some(x) => seq![(key, JsonView::Str(x))],
        None => Seq::empty(),
    }
}

/// An envelope as JSON: `code`, `status`, `message`, then `data`, `source` and
/// `category` where present.
pub open spec fn envelope_spec(
    code: i64,
    status: Seq<char>,
    message: Seq<char>,
    data: Option<JsonView>,
    source: Option<Seq<char>>,
    category: Option<Seq<char>>,
) -> JsonView {
    JsonView::Object(
        seq![
            ("code"@, JsonView::Int(code)),
            ("status"@, JsonView::Str(status)),
            ("message"@, JsonView::Str(message)),
        ] + opt_field("data"@, data) + opt_str_field("source"@, source) + opt_str_field(
            "category"@,
            category,
        ),
    )
}

impl CliEnvelope {
    pub open spec fn spec_json(&self) -> JsonView {
        envelope_spec(
            self.code,
            self.status@,
            self.message@,
            crate::errors::opt_model(self.data),
            opt_view(self.source),
            opt_view(self.category),
        )
    }

    /// The envelope as JSON; absent fields are left out.
    pub fn to_json(self) -> (j: Json)
        ensures
            j@ == self.spec_json(),
    {
        let ghost spec = self.spec_json();
        let mut fields: Vec<(String, Json)> = Vec::new();
        push_field(&mut fields, "code", Json::Int(self.code));
        push_field(&mut fields, "status", Json::Str(self.status));
        push_field(&mut fields, "message", Json::Str(self.message));
        let ghost f3 = field_models(fields@);
        match self.data {
            Some(d) => push_field(&mut fields, "data", d),
            None => {},
        }
        let ghost f4 = field_models(fields@);
        match self.source {
            Some(s) => push_field(&mut fields, "source", Json::Str(s)),
            None => {},
        }
        let ghost f5 = field_models(fields@);
        match self.category {
            Some(c) => push_field(&mut fields, "category", Json::Str(c)),
            None => {},
        }
        let j = object(fields);
        assert(j@->Object_0 =~= spec->Object_0);
        j
    }
}

/// A successful envelope of code 200.
pub fn success_envelope(message: &str, data: Json) -> (j: Json)
    ensures
        j@ == envelope_spec(200, "success"@, message@, Some(data@), None, None),
{
    let env = CliEnvelope {
        code: 200,
        status: String::from_str("success"),
        message: String::from_str(message),
        data: Some(data),
        source: None,
        category: None,
    };
    env.to_json()
}

pub open spec fn opt_pid_model(pid: Option<u32>) -> JsonView {
    match pid {
        Some(p) => JsonView::Int(p as i64),
        None => JsonView::Null,
    }
}

fn json_opt_pid(pid: Option<u32>) -> (j: Json)
    ensures
        j@ == opt_pid_model(pid),
{
    match pid {
        Some(p) => Json::Int(p as i64),
        None => Json::Null,
    }
}

/// `data` of `backend status`: for a remote backend only `ready` and `apiUrl` say anything.
pub open spec fn status_data_spec(
    api_url: Seq<char>,
    app_root: Option<Seq<char>>,
    python: Option<Seq<char>>,
    is_local: bool,
    started_by_cli: bool,
    tracked_pid: Option<u32>,
    ready: bool,
) -> JsonView {
    JsonView::Object(
        seq![
            ("ready"@, JsonView::Bool(ready)),
            ("startedByCli"@, if is_local { JsonView::Bool(started_by_cli) } else { JsonView::Null }),
            ("trackedPid"@, if is_local { opt_pid_model(tracked_pid) } else { JsonView::Null }),
            ("appRoot"@, if is_local { opt_str_model(app_root) } else { JsonView::Null }),
            ("pythonExecutable"@, if is_local { opt_str_model(python) } else { JsonView::Null }),
            ("apiUrl"@, JsonView::Str(api_url)),
        ],
    )
}

pub open spec fn ctx_status_data(ctx: ContextView, ready: bool) -> JsonView {
    status_data_spec(
        ctx.api_url,
        ctx.app_root,
        ctx.python_executable,
        ctx.is_local_api,
        ctx.state.started_by_cli,
        ctx.state.tracked_pid,
        ready,
    )
}

/// The `data` of `backend status`.
pub fn status_data(ctx: &RuntimeContext, ready: bool) -> (j: Json)
    ensures
        j@ == ctx_status_data(ctx@, ready),
{
    let local = ctx.is_local_api;
    let mut fields: Vec<(String, Json)> = Vec::new();
    push_field(&mut fields, "ready", Json::Bool(ready));
    push_field(
        &mut fields,
        "startedByCli",
        if local {
            Json::Bool(ctx.state.started_by_cli)
        } else {
            Json::Null
        },
    );
    push_field(
        &mut fields,
        "trackedPid",
        if local {
            json_opt_pid(ctx.state.tracked_pid)
        } else {
            Json::Null
        },
    );
    push_field(
        &mut fields,
        "appRoot",
        if local {
            json_opt_str(&ctx.app_root)
        } else {
            Json::Null
        },
    );
    push_field(
        &mut fields,
        "pythonExecutable",
        if local {
            json_opt_str(&ctx.python_executable)
        } else {
            Json::Null
        },
    );
    push_field(&mut fields, "apiUrl", json_str(ctx.api_url.as_str()));
    let j = object(fields);
    assert(j@->Object_0 =~= ctx_status_data(ctx@, ready)->Object_0);
    j
}

/// A line `label` followed by `value`.
fn labeled(label: &str, value: &str) -> (s: String)
    ensures
        s@ == label@ + value@,
{
    let mut s = String::from_str(label);
    s.append(value);
    s
}

fn push_line(lines: &mut Vec<String>, line: String)
    ensures
        views(final(lines)@) == views(old(lines)@).push(line@),
{
    let ghost before = views(lines@);
    lines.push(line);
    assert(views(lines@) =~= before.push(line@));
}

pub open spec fn opt_line(label: Seq<char>, v: Option<Seq<char>>) -> Seq<Seq<char>> {
    match v {
        Some(x) => seq![label + x],
        None => Seq::empty(),
    }
}

/// The text lines that describe a running backend.
pub open spec fn running_lines(
    api_url: Seq<char>,
    app_root: Option<Seq<char>>,
    python: Option<Seq<char>>,
) -> Seq<Seq<char>> {
    seq!["backend: running"@, "apiUrl: "@ + api_url] + opt_line("appRoot: "@, app_root) + opt_line(
        "python: "@,
        python,
    )
}

fn push_running_lines(lines: &mut Vec<String>, ctx: &RuntimeContext)
    requires
        views(old(lines)@) == Seq::<Seq<char>>::empty(),
    ensures
        views(final(lines)@) == running_lines(ctx.api_url@, opt_view(ctx.app_root), opt_view(ctx.python_executable)),
{
    push_line(lines, String::from_str("backend: running"));
    push_line(lines, labeled("apiUrl: ", ctx.api_url.as_str()));
    let ghost l2 = views(lines@);
    match &ctx.app_root {
        Some(r) => push_line(lines, labeled("appRoot: ", r.as_str())),
        None => {},
    }
    let ghost l3 = views(lines@);
    match &ctx.python_executable {
        Some(p) => push_line(lines, labeled("python: ", p.as_str())),
        None => {},
    }
    assert(views(lines@) =~= running_lines(
        ctx.api_url@,
        opt_view(ctx.app_root),
        opt_view(ctx.python_executable),
    ));
}

/// What `backend status` prints.
pub open spec fn status_output_spec(json: bool, ctx: ContextView, ready: bool) -> OutputView {
    if json {
        OutputView::Json(
            envelope_spec(
                200,
                "success"@,
                if ready { "后端运行中"@ } else { "后端未运行"@ },
                Some(ctx_status_data(ctx, ready)),
                None,
                None,
            ),
        )
    } else if ready {
        OutputView::Lines(running_lines(ctx.api_url, ctx.app_root, ctx.python_executable))
    } else {
        OutputView::Lines(seq!["backend: stopped"@, "message: 后端未运行"@, "apiUrl: "@ + ctx.api_url])
    }
}

/// What `backend status` prints: the status envelope, or text lines.
pub fn status_output(json: bool, ctx: &RuntimeContext, ready: bool) -> (o: Output)
    ensures
        o@ == status_output_spec(json, ctx@, ready),
{
    if json {
        let data = status_data(ctx, ready);
        let message = if ready {
            "后端运行中"
        } else {
            "后端未运行"
        };
        Output::Json(success_envelope(message, data))
    } else {
        let mut lines: Vec<String> = Vec::new();
        assert(views(lines@) =~= Seq::<Seq<char>>::empty());
        if ready {
            push_running_lines(&mut lines, ctx);
        } else {
            push_line(&mut lines, String::from_str("backend: stopped"));
            push_line(&mut lines, String::from_str("message: 后端未运行"));
            push_line(&mut lines, labeled("apiUrl: ", ctx.api_url.as_str()));
            assert(views(lines@) =~= seq!["backend: stopped"@, "message: 后端未运行"@, "apiUrl: "@ + ctx.api_url@]);
        }
        Output::Lines(lines)
    }
}

/// `data` once the backend is ready: the runtime information after the probe,
/// with whether this CLI started the backend as the context's state says.
pub open spec fn ready_data_spec(ctx: ContextView, tracked_pid: Option<u32>) -> JsonView {
    JsonView::Object(
        seq![
            ("ready"@, JsonView::Bool(true)),
            ("startedByCli"@, JsonView::Bool(ctx.state.started_by_cli)),
            ("trackedPid"@, opt_pid_model(tracked_pid)),
            ("appRoot"@, opt_str_model(ctx.app_root)),
            ("pythonExecutable"@, opt_str_model(ctx.python_executable)),
            ("apiUrl"@, JsonView::Str(ctx.api_url)),
        ],
    )
}

pub open spec fn pid_line(pid: Option<u32>) -> Seq<Seq<char>> {
    match pid {
        Some(p) => seq!["pid: "@ + decimal_spec(p as nat)],
        None => Seq::empty(),
    }
}

/// What is printed once the backend is ready.
pub open spec fn ready_output_spec(json: bool, ctx: ContextView, tracked_pid: Option<u32>) -> OutputView {
    if json {
        OutputView::Json(
            envelope_spec(200, "success"@, "后端已就绪"@, Some(ready_data_spec(ctx, tracked_pid)), None, None),
        )
    } else {
        OutputView::Lines(
            running_lines(ctx.api_url, ctx.app_root, ctx.python_executable) + pid_line(
                tracked_pid,
            ),
        )
    }
}

/// What is printed once the backend is ready (`emit_backend_ready`).
pub fn backend_ready_output(json: bool, ctx: &RuntimeContext, tracked_pid: Option<u32>) -> (o: Output)
    ensures
        o@ == ready_output_spec(json, ctx@, tracked_pid),
{
    if json {
        let mut fields: Vec<(String, Json)> = Vec::new();
        push_field(&mut fields, "ready", Json::Bool(true));
        push_field(&mut fields, "startedByCli", Json::Bool(ctx.state.started_by_cli));
        push_field(&mut fields, "trackedPid", json_opt_pid(tracked_pid));
        push_field(&mut fields, "appRoot", json_opt_str(&ctx.app_root));
        push_field(&mut fields, "pythonExecutable", json_opt_str(&ctx.python_executable));
        push_field(&mut fields, "apiUrl", json_str(ctx.api_url.as_str()));
        let data = object(fields);
        assert(data@->Object_0 =~= ready_data_spec(ctx@, tracked_pid)->Object_0);
        Output::Json(success_envelope("后端已就绪", data))
    } else {
        let mut lines: Vec<String> = Vec::new();
        assert(views(lines@) =~= Seq::<Seq<char>>::empty());
        push_running_lines(&mut lines, ctx);
        let ghost l = views(lines@);
        match tracked_pid {
            Some(p) => {
                let d = decimal(p);
                push_line(&mut lines, labeled("pid: ", d.as_str()));
            },
            None => {},
        }
        assert(views(lines@) =~= l + pid_line(tracked_pid));
        Output::Lines(lines)
    }
}

pub open spec fn handoff_message() -> Seq<char> {
    "已请求管理员权限，命令将在提权后继续执行"@
}

/// What is printed when the command continues in an elevated process.
pub open spec fn handoff_output_spec(json: bool) -> OutputView {
    if json {
        OutputView::Json(
            envelope_spec(
                200,
                "success"@,
                handoff_message(),
                Some(JsonView::Object(seq![("elevated"@, JsonView::Bool(true)), ("restarted"@, JsonView::Bool(true))])),
                None,
                None,
            ),
        )
    } else {
        OutputView::Lines(seq![handoff_message()])
    }
}

/// What is printed when the command continues in an elevated process (`emit_elevation_handoff`).
pub fn elevation_handoff_output(json: bool) -> (o: Output)
    ensures
        o@ == handoff_output_spec(json),
{
    if json {
        let mut fields: Vec<(String, Json)> = Vec::new();
        push_field(&mut fields, "elevated", Json::Bool(true));
        push_field(&mut fields, "restarted", Json::Bool(true));
        let data = object(fields);
        assert(data@->Object_0 =~= seq![("elevated"@, JsonView::Bool(true)), ("restarted"@, JsonView::Bool(true))]);
        Output::Json(success_envelope("已请求管理员权限，命令将在提权后继续执行", data))
    } else {
        let mut lines: Vec<String> = Vec::new();
        push_line(&mut lines, String::from_str("已请求管理员权限，命令将在提权后继续执行"));
        assert(views(lines@) =~= seq![handoff_message()]);
        Output::Lines(lines)
    }
}

pub open spec fn target_name(is_local: bool) -> Seq<char> {
    if is_local { "local"@ } else { "remote"@ }
}

/// What `backend stop` prints once the close request was accepted.
pub open spec fn stop_output_spec(json: bool, api_url: Seq<char>, is_local: bool) -> OutputView {
    if json {
        OutputView::Json(
            envelope_spec(
                200,
                "success"@,
                "后端关闭请求已发送"@,
                Some(JsonView::Object(seq![("requestAccepted"@, JsonView::Bool(true)), ("target"@, JsonView::Str(target_name(is_local)))])),
                None,
                None,
            ),
        )
    } else {
        OutputView::Lines(seq!["后端关闭请求已发送"@, "target: "@ + target_name(is_local), "apiUrl: "@ + api_url])
    }
}

/// What `backend stop` prints once the close request was accepted.
pub fn stop_output(json: bool, api_url: &str, is_local: bool) -> (o: Output)
    ensures
        o@ == stop_output_spec(json, api_url@, is_local),
{
    let target = if is_local {
        "local"
    } else {
        "remote"
    };
    if json {
        let mut fields: Vec<(String, Json)> = Vec::new();
        push_field(&mut fields, "requestAccepted", Json::Bool(true));
        push_field(&mut fields, "target", json_str(target));
        let data = object(fields);
        assert(data@->Object_0 =~= seq![("requestAccepted"@, JsonView::Bool(true)), ("target"@, JsonView::Str(target_name(is_local)))]);
        Output::Json(success_envelope("后端关闭请求已发送", data))
    } else {
        let mut lines: Vec<String> = Vec::new();
        push_line(&mut lines, String::from_str("后端关闭请求已发送"));
        push_line(&mut lines, labeled("target: ", target));
        push_line(&mut lines, labeled("apiUrl: ", api_url));
        assert(views(lines@) =~= seq!["后端关闭请求已发送"@, "target: "@ + target_name(is_local), "apiUrl: "@ + api_url@]);
        Output::Lines(lines)
    }
}

/// What `queue start` prints: the backend's reply as is, or text lines.
pub open spec fn queue_start_output_spec(json: bool, reply: JsonView, queue_id: Seq<char>, mode: Seq<char>) -> OutputView {
    if json {
        OutputView::Json(reply)
    } else {
        OutputView::Lines(seq!["queue start accepted"@, "queueId: "@ + queue_id, "mode: "@ + mode])
    }
}

pub fn queue_start_output(json: bool, reply: Json, queue_id: &str, mode: &str) -> (o: Output)
    ensures
        o@ == queue_start_output_spec(json, reply@, queue_id@, mode@),
{
    if json {
        Output::Json(reply)
    } else {
        let mut lines: Vec<String> = Vec::new();
        push_line(&mut lines, String::from_str("queue start accepted"));
        push_line(&mut lines, labeled("queueId: ", queue_id));
        push_line(&mut lines, labeled("mode: ", mode));
        assert(views(lines@) =~= seq!["queue start accepted"@, "queueId: "@ + queue_id@, "mode: "@ + mode@]);
        Output::Lines(lines)
    }
}

/// What is printed for a failure: the backend's own reply when it sent one, the
/// error envelope otherwise, or the `错误:` line in text mode.
pub open spec fn error_output_spec(json: bool, err: CliErrorView) -> OutputView {
    if json {
        match err.backend_payload {
            Some(p) => OutputView::Json(p),
            None => OutputView::Json(
                envelope_spec(
                    500,
                    "error"@,
                    err.message,
                    None,
                    Some(source_name(err.source)),
                    Some(category_name(err.category)),
                ),
            ),
        }
    } else {
        OutputView::ErrorLine("错误: "@ + err.message)
    }
}

/// What is printed for a failure (`emit_error`).
pub fn error_output(json: bool, err: CliError) -> (o: Output)
    ensures
        o@ == error_output_spec(json, err@),
{
    if json {
        match err.backend_payload {
            Some(p) => Output::Json(p),
            None => {
                let env = CliEnvelope {
                    code: 500,
                    status: String::from_str("error"),
                    message: err.message,
                    data: None,
                    source: Some(String::from_str(err.source.name())),
                    category: Some(String::from_str(err.category.name())),
                };
                Output::Json(env.to_json())
            },
        }
    } else {
        Output::ErrorLine(labeled("错误: ", err.message.as_str()))
    }
}

} // verus!
