use vstd::prelude::*;
use crate::api::{
    api_post_spec, api_url_spec, close_path, dispatch_body_spec, dispatch_start_path,
    queue_get_body_spec, queue_get_path, version_path, HttpOutcomeView,
};
use crate::context::{BackendStateView, CliView, CommandView, ContextView, default_state_view};
use crate::errors::{CliErrorView, ErrorCategory, cli_error_spec};
use crate::json::JsonView;
use crate::output::{
    OutputView, error_output_spec, handoff_output_spec, queue_start_output_spec,
    ready_output_spec, status_output_spec, stop_output_spec,
};
use crate::queue_output::queue_table_spec;
use crate::runtime::{
    candidates_check_paths_spec, discover_root_spec, embedded_check_paths_spec,
    embedded_python_spec, given_python_spec, is_admin_spec, is_local_spec, located_spec,
    locator_spec, plan_spec, relaunch_result_spec, relaunch_spec, root_candidates_spec,
    spawn_error_spec, state_dir_spec, state_file_spec,
};
use crate::session::{
    EffectView, EnvironmentView, Phase, Probe, ReplyView, RequestView, SessionView, StepView,
};

verus! {

/// How many times the backend is probed after it was started here.
pub open spec fn start_probe_limit() -> u32 {
    30
}

/// How many times the backend is probed after an elevated process took over.
pub open spec fn handoff_probe_limit() -> u32 {
    60
}

/// The pause between probes, in milliseconds.
pub open spec fn probe_pause_millis() -> u64 {
    500
}

/// The environment before it is read.
pub open spec fn unread_environment() -> EnvironmentView {
    EnvironmentView {
        windows: false,
        home: None,
        user_profile: None,
        auto_mas_root: None,
        auto_mas_python: None,
        current_dir: None,
        exe_dirs: Seq::empty(),
    }
}

/// A session that has not read anything yet.
pub open spec fn initial_session(cli: CliView) -> SessionView {
    SessionView {
        cli,
        env: unread_environment(),
        state_dir: None,
        state_path: None,
        ctx: ContextView {
            api_url: cli.api_url,
            app_root: None,
            python_executable: None,
            is_local_api: false,
            state: default_state_view(),
        },
        located: None,
        via_queue: false,
        started_for_request: false,
        pid: None,
        phase: Phase::AwaitEnvironment,
    }
}

/// The first step: the banner unless output is JSON, then read the environment.
pub open spec fn run_spec(cli: CliView) -> (SessionView, StepView) {
    (
        initial_session(cli),
        StepView {
            effects: if cli.json { Seq::empty() } else { seq![EffectView::Banner] },
            request: RequestView::Environment,
        },
    )
}

/// Stop with exit code 0 after the given effects.
pub open spec fn finish(s: SessionView, fx: Seq<EffectView>) -> (SessionView, StepView) {
    (SessionView { phase: Phase::Finished, ..s }, StepView { effects: fx, request: RequestView::Exit { code: 0 } })
}

/// Report a failure and stop with exit code 1.
pub open spec fn fail(s: SessionView, fx: Seq<EffectView>, e: CliErrorView) -> (SessionView, StepView) {
    (
        SessionView { phase: Phase::Finished, ..s },
        StepView {
            effects: fx.push(EffectView::Print(error_output_spec(s.cli.json, e))),
            request: RequestView::Exit { code: 1 },
        },
    )
}

/// The request that probes the backend: `POST /api/info/version` with `{}`.
pub open spec fn probe_request(ctx: ContextView) -> RequestView {
    RequestView::Http { url: api_url_spec(ctx.api_url, version_path()), body: JsonView::Object(Seq::empty()) }
}

/// The request that asks the backend to close: `POST /api/core/close` with `{}`.
pub open spec fn close_request(ctx: ContextView) -> RequestView {
    RequestView::Http { url: api_url_spec(ctx.api_url, close_path()), body: JsonView::Object(Seq::empty()) }
}

pub open spec fn probe(s: SessionView, purpose: Probe, fx: Seq<EffectView>) -> (SessionView, StepView) {
    (
        SessionView { phase: Phase::AwaitProbe { purpose }, ..s },
        StepView { effects: fx, request: probe_request(s.ctx) },
    )
}

/// The request of a queue command.
pub open spec fn queue_request_of(s: SessionView) -> RequestView {
    match s.cli.command {
        CommandView::QueueStart { queue_id, mode } => RequestView::Http {
            url: api_url_spec(s.ctx.api_url, dispatch_start_path()),
            body: dispatch_body_spec(queue_id, mode),
        },
        _ => RequestView::Http { url: api_url_spec(s.ctx.api_url, queue_get_path()), body: queue_get_body_spec() },
    }
}

pub open spec fn queue_request(s: SessionView, fx: Seq<EffectView>) -> (SessionView, StepView) {
    (SessionView { phase: Phase::AwaitQueueRequest, ..s }, StepView { effects: fx, request: queue_request_of(s) })
}

/// What a queue command prints for the backend's reply.
pub open spec fn queue_output_spec(cli: CliView, reply: JsonView) -> OutputView {
    match cli.command {
        CommandView::QueueStart { queue_id, mode } => queue_start_output_spec(cli.json, reply, queue_id, mode),
        _ => if cli.json {
            OutputView::Json(reply)
        } else {
            OutputView::Lines(queue_table_spec(reply))
        },
    }
}

/// Forget the tracked backend if it is the one at the API URL: read the state file first.
pub open spec fn clear_state(s: SessionView, fx: Seq<EffectView>) -> (SessionView, StepView) {
    match s.state_path {
        Some(p) => (SessionView { phase: Phase::AwaitClearState, ..s }, StepView { effects: fx, request: RequestView::LoadState { path: p } }),
        None => finish(s, fx),
    }
}

pub open spec fn admin_check_script_spec() -> Seq<char> {
    "[bool]([Security.Principal.WindowsPrincipal][Security.Principal.WindowsIdentity]::GetCurrent()).IsInRole([Security.Principal.WindowsBuiltInRole]::Administrator)"@
}

/// `backend start`: only for a local backend; on Windows, unless already
/// elevated, first check for administrator rights; then probe.
pub open spec fn begin_start(s: SessionView, fx: Seq<EffectView>) -> (SessionView, StepView) {
    if !s.ctx.is_local_api {
        fail(s, fx, cli_error_spec(ErrorCategory::InvalidRuntimeConfiguration, "远端 apiUrl 不支持 backend start"@))
    } else if s.env.windows && !s.cli.elevated {
        (
            SessionView { phase: Phase::AwaitAdminCheck, ..s },
            StepView { effects: fx, request: RequestView::Powershell { script: admin_check_script_spec() } },
        )
    } else {
        probe(s, Probe::Start, fx)
    }
}

/// What starting the backend reports: its output, except in JSON mode when the
/// start serves a queue command, whose reply is then the one JSON value printed.
pub open spec fn start_report(s: SessionView, o: OutputView) -> Seq<EffectView> {
    if s.via_queue && s.cli.json {
        Seq::empty()
    } else {
        seq![EffectView::Print(o)]
    }
}

/// After `backend start` ended: a queue command goes on (waiting for an elevated
/// process's backend first); `backend start` itself is done.
pub open spec fn after_start(s: SessionView, fx: Seq<EffectView>, handed_off: bool) -> (SessionView, StepView) {
    if s.via_queue {
        let s2 = SessionView { started_for_request: true, ..s };
        if handed_off {
            probe(s2, Probe::Ready { attempt: 0, limit: handoff_probe_limit(), after_handoff: true }, fx)
        } else {
            queue_request(s2, fx)
        }
    } else {
        finish(s, fx)
    }
}

/// Dispatch on the command once the context is known.
pub open spec fn execute_spec(s: SessionView, fx: Seq<EffectView>) -> (SessionView, StepView) {
    match s.cli.command {
        CommandView::Status => probe(s, Probe::Status, fx),
        CommandView::Start => begin_start(s, fx),
        CommandView::Stop => probe(s, Probe::Stop, fx),
        _ => probe(s, Probe::Queue, fx),
    }
}

pub open spec fn with_python(s: SessionView, p: Option<Seq<char>>) -> SessionView {
    SessionView { ctx: ContextView { python_executable: p, ..s.ctx }, ..s }
}

pub open spec fn with_state(s: SessionView, st: BackendStateView) -> SessionView {
    SessionView { ctx: ContextView { state: st, ..s.ctx }, ..s }
}

/// Look for `python3` (or, the second time, `python`) on `PATH`.
pub open spec fn locate(s: SessionView, second: bool, fx: Seq<EffectView>) -> (SessionView, StepView) {
    (
        SessionView { phase: Phase::AwaitLocate { second }, ..s },
        StepView {
            effects: fx,
            request: RequestView::Locate {
                program: locator_spec(s.env.windows),
                name: if second { "python"@ } else { "python3"@ },
            },
        },
    )
}

/// The interpreter: `--python-exe`, `AUTO_MAS_PYTHON`, the built-in runtime of the
/// application root, then `python3` and `python` on `PATH`.
pub open spec fn discover_python(s: SessionView, fx: Seq<EffectView>) -> (SessionView, StepView) {
    match given_python_spec(s.cli.python_exe, s.env.auto_mas_python) {
        Some(p) => execute_spec(with_python(s, Some(p)), fx),
        None => match s.ctx.app_root {
            Some(r) => (
                SessionView { phase: Phase::AwaitEmbeddedInfo, ..s },
                StepView { effects: fx, request: RequestView::Inspect { paths: embedded_check_paths_spec(r, s.env.windows) } },
            ),
            None => locate(s, false, fx),
        },
    }
}

pub open spec fn root_candidates_of(s: SessionView) -> (Seq<Seq<char>>, bool) {
    root_candidates_spec(s.cli.app_root, s.env.auto_mas_root, s.env.current_dir, s.env.exe_dirs)
}

/// With the state loaded: for a local API, find the application root and the
/// interpreter; then run the command.
pub open spec fn build_context_spec(s: SessionView, fx: Seq<EffectView>) -> (SessionView, StepView) {
    let local = is_local_spec(s.cli.api_url);
    let s1 = SessionView { ctx: ContextView { is_local_api: local, ..s.ctx }, ..s };
    if local {
        (
            SessionView { phase: Phase::AwaitRootInfo, ..s1 },
            StepView {
                effects: fx,
                request: RequestView::Inspect { paths: candidates_check_paths_spec(root_candidates_of(s1).0, s.env.windows) },
            },
        )
    } else {
        execute_spec(s1, fx)
    }
}

/// The state written once a backend this CLI started is ready.
pub open spec fn started_state(s: SessionView) -> BackendStateView {
    BackendStateView {
        started_by_cli: true,
        tracked_pid: s.pid,
        app_root: s.ctx.app_root,
        python_executable: s.ctx.python_executable,
        api_url: Some(s.ctx.api_url),
    }
}

pub open spec fn save_effects(path: Option<Seq<char>>, st: BackendStateView) -> Seq<EffectView> {
    match path {
        Some(p) => seq![EffectView::SaveState { path: p, state: st }],
        None => Seq::empty(),
    }
}

pub open spec fn spawn_plan_of(s: SessionView) -> crate::session::SpawnPlanView {
    plan_spec(s.state_dir, s.ctx.python_executable->0, s.ctx.app_root->0, s.env.windows)
}

/// The answer to a probe.
pub open spec fn on_probe(s: SessionView, purpose: Probe, o: HttpOutcomeView) -> (SessionView, StepView) {
    let up = api_post_spec(o) is Ok;
    let json = s.cli.json;
    match purpose {
        Probe::Status => finish(s, seq![EffectView::Print(status_output_spec(json, s.ctx, up))]),
        Probe::Stop => if !up {
            fail(s, Seq::empty(), cli_error_spec(ErrorCategory::BackendUnreachable, "后端未运行，无法执行命令"@))
        } else {
            (SessionView { phase: Phase::AwaitStopClose, ..s }, StepView { effects: Seq::empty(), request: close_request(s.ctx) })
        },
        Probe::Start => if up {
            after_start(s, start_report(s, ready_output_spec(json, s.ctx, s.ctx.state.tracked_pid)), false)
        } else if s.ctx.app_root is None {
            fail(
                s,
                Seq::empty(),
                cli_error_spec(ErrorCategory::InvalidRuntimeConfiguration, "无法解析应用根目录，请通过 --app-root 或 AUTO_MAS_ROOT 指定"@),
            )
        } else if s.ctx.python_executable is None {
            fail(
                s,
                Seq::empty(),
                cli_error_spec(ErrorCategory::InvalidRuntimeConfiguration, "无法解析 Python 解释器，请通过 --python-exe 或 AUTO_MAS_PYTHON 指定"@),
            )
        } else {
            (
                SessionView { phase: Phase::AwaitSpawn, ..s },
                StepView { effects: Seq::empty(), request: RequestView::Spawn { plan: spawn_plan_of(s) } },
            )
        },
        Probe::Queue => if up {
            queue_request(s, Seq::empty())
        } else if s.cli.no_auto_start {
            fail(s, Seq::empty(), cli_error_spec(ErrorCategory::BackendUnreachable, "后端未运行，无法执行命令"@))
        } else if !s.ctx.is_local_api {
            fail(s, Seq::empty(), cli_error_spec(ErrorCategory::BackendUnreachable, "远端后端不可达，且无法自动启动"@))
        } else {
            begin_start(SessionView { via_queue: true, ..s }, Seq::empty())
        },
        Probe::Ready { attempt, limit, after_handoff } => if up {
            if after_handoff {
                queue_request(s, Seq::empty())
            } else {
                let st = started_state(s);
                let s1 = with_state(s, st);
                after_start(
                    s1,
                    save_effects(s.state_path, st) + start_report(s, ready_output_spec(json, s1.ctx, s.pid)),
                    false,
                )
            }
        } else {
            let fx = seq![EffectView::Sleep { millis: probe_pause_millis() }];
            if attempt + 1 < limit {
                probe(s, Probe::Ready { attempt: (attempt + 1) as u32, limit, after_handoff }, fx)
            } else {
                fail(s, fx, cli_error_spec(ErrorCategory::BackendStartupFailed, "后端启动超时，探活未通过"@))
            }
        },
    }
}

/// Whether a reply answers what the session waits for.
pub open spec fn fits(s: SessionView, r: ReplyView) -> bool {
    match s.phase {
        Phase::AwaitEnvironment => r is Environment,
        Phase::AwaitStateDir => r is Done,
        Phase::AwaitStateLoad => r is State,
        Phase::AwaitRootInfo => r matches ReplyView::Paths(infos) && infos.len() == 3 * root_candidates_of(s).0.len(),
        Phase::AwaitEmbeddedInfo => r matches ReplyView::Paths(infos) && infos.len() == 6,
        Phase::AwaitLocate { .. } => r is Command,
        Phase::AwaitLocatedInfo { .. } => r matches ReplyView::Paths(infos) && infos.len() == 1,
        Phase::AwaitProbe { .. } => r is Http,
        Phase::AwaitAdminCheck => r is Command,
        Phase::AwaitLaunchInfo => r is Launch,
        Phase::AwaitElevation => r is Status,
        Phase::AwaitSpawn => r is Spawned,
        Phase::AwaitStopClose => r is Http,
        Phase::AwaitQueueRequest => r is Http,
        Phase::AwaitQueueClose => r is Http,
        Phase::AwaitClearState => r is State,
        Phase::Finished => false,
    }
}

/// One step of a session: from what it waits for and the reply, the next session
/// and what to do next.
pub open spec fn next(s: SessionView, r: ReplyView) -> (SessionView, StepView) {
    let json = s.cli.json;
    let none = Seq::<EffectView>::empty();
    match (s.phase, r) {
        (Phase::AwaitEnvironment, ReplyView::Environment(e)) => {
            let s1 = SessionView { env: e, ..s };
            match state_dir_spec(e.home, e.user_profile, e.windows) {
                Some(d) => (SessionView { phase: Phase::AwaitStateDir, ..s1 }, StepView { effects: none, request: RequestView::CreateDir { path: d } }),
                None => build_context_spec(with_state(s1, default_state_view()), none),
            }
        },
        (Phase::AwaitStateDir, ReplyView::Done(ok)) => {
            let sd = if ok { state_dir_spec(s.env.home, s.env.user_profile, s.env.windows) } else { None };
            let sp = state_file_spec(sd, s.env.windows);
            let s1 = SessionView { state_dir: sd, state_path: sp, ..s };
            match sp {
                Some(p) => (SessionView { phase: Phase::AwaitStateLoad, ..s1 }, StepView { effects: none, request: RequestView::LoadState { path: p } }),
                None => build_context_spec(with_state(s1, default_state_view()), none),
            }
        },
        (Phase::AwaitStateLoad, ReplyView::State(st)) => build_context_spec(
            with_state(s, match st { Some(x) => x, None => default_state_view() }),
            none,
        ),
        (Phase::AwaitRootInfo, ReplyView::Paths(infos)) => {
            let (cands, explicit) = root_candidates_of(s);
            match discover_root_spec(cands, explicit, infos) {
                Err(e) => fail(s, none, e),
                Ok(root) => discover_python(SessionView { ctx: ContextView { app_root: root, ..s.ctx }, ..s }, none),
            }
        },
        (Phase::AwaitEmbeddedInfo, ReplyView::Paths(infos)) => match embedded_python_spec(s.ctx.app_root->0, s.env.windows, infos) {
            Some(p) => execute_spec(with_python(s, Some(p)), none),
            None => locate(s, false, none),
        },
        (Phase::AwaitLocate { second }, ReplyView::Command(c)) => {
            let found = match c {
                Ok(o) => located_spec(o.success, o.stdout),
                Err(_) => None,
            };
            match found {
                Some(p) => (
                    SessionView { located: Some(p), phase: Phase::AwaitLocatedInfo { second }, ..s },
                    StepView { effects: none, request: RequestView::Inspect { paths: seq![p] } },
                ),
                None => if !second { locate(s, true, none) } else { execute_spec(s, none) },
            }
        },
        (Phase::AwaitLocatedInfo { second }, ReplyView::Paths(infos)) => if infos[0].is_file {
            execute_spec(with_python(s, s.located), none)
        } else if !second {
            locate(s, true, none)
        } else {
            execute_spec(s, none)
        },
        (Phase::AwaitProbe { purpose }, ReplyView::Http(o)) => on_probe(s, purpose, o),
        (Phase::AwaitAdminCheck, ReplyView::Command(c)) => {
            let admin = match c {
                Ok(o) => is_admin_spec(true, o.success, o.stdout),
                Err(_) => false,
            };
            if admin {
                probe(s, Probe::Start, none)
            } else {
                (SessionView { phase: Phase::AwaitLaunchInfo, ..s }, StepView { effects: none, request: RequestView::LaunchInfo })
            }
        },
        (Phase::AwaitLaunchInfo, ReplyView::Launch(l)) => match relaunch_spec(l.current_exe, l.current_dir, l.args) {
            Err(e) => fail(s, none, e),
            Ok(script) => (SessionView { phase: Phase::AwaitElevation, ..s }, StepView { effects: none, request: RequestView::Elevate { script } }),
        },
        (Phase::AwaitElevation, ReplyView::Status(st)) => match relaunch_result_spec(st) {
            Err(e) => fail(s, none, e),
            Ok(_) => after_start(s, start_report(s, handoff_output_spec(json)), true),
        },
        (Phase::AwaitSpawn, ReplyView::Spawned(res)) => match res {
            Err(f) => {
                let plan = spawn_plan_of(s);
                fail(s, none, spawn_error_spec(f, plan.python, plan.stdout_log, plan.stderr_log))
            },
            Ok(pid) => probe(
                SessionView { pid: Some(pid), ..s },
                Probe::Ready { attempt: 0, limit: start_probe_limit(), after_handoff: false },
                none,
            ),
        },
        (Phase::AwaitStopClose, ReplyView::Http(o)) => match api_post_spec(o) {
            Err(e) => fail(s, none, e),
            Ok(_) => clear_state(s, seq![EffectView::Print(stop_output_spec(json, s.ctx.api_url, s.ctx.is_local_api))]),
        },
        (Phase::AwaitQueueRequest, ReplyView::Http(o)) => match api_post_spec(o) {
            Err(e) => fail(s, none, e),
            Ok(reply) => {
                let fx = seq![EffectView::Print(queue_output_spec(s.cli, reply))];
                if s.started_for_request && !s.cli.keep_backend {
                    (SessionView { phase: Phase::AwaitQueueClose, ..s }, StepView { effects: fx, request: close_request(s.ctx) })
                } else {
                    finish(s, fx)
                }
            },
        },
        (Phase::AwaitQueueClose, ReplyView::Http(_)) => clear_state(s, none),
        (Phase::AwaitClearState, ReplyView::State(st)) => match st {
            Some(x) => if x.api_url == Some(s.ctx.api_url) {
                finish(s, seq![EffectView::RemoveFile { path: s.state_path->0 }])
            } else {
                finish(s, none)
            },
            None => finish(s, none),
        },
        _ => (s, StepView { effects: none, request: RequestView::Exit { code: 1 } }),
    }
}

} // verus!
