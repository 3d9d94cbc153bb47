use vstd::prelude::*;
use crate::context::{CliView, CommandView};
use crate::flow::{close_request, fits, next, run_spec};
use crate::machine::wf;
use crate::output::OutputView;
use crate::session::{EffectView, Phase, Probe, ReplyView, RequestView, SessionView, StepView};

verus! {

pub open spec fn is_queue(c: CommandView) -> bool {
    c is QueueList || c is QueueStart
}

/// Phases that belong to starting the backend.
pub open spec fn starting_phase(p: Phase) -> bool {
    ||| p == (Phase::AwaitProbe { purpose: Probe::Start })
    ||| p == Phase::AwaitAdminCheck
    ||| p == Phase::AwaitLaunchInfo
    ||| p == Phase::AwaitElevation
    ||| p == Phase::AwaitSpawn
    ||| p matches Phase::AwaitProbe { purpose: Probe::Ready { .. } }
}

/// Phases before the command runs, while the context is being found.
pub open spec fn context_phase(p: Phase) -> bool {
    ||| p == Phase::AwaitEnvironment
    ||| p == Phase::AwaitStateDir
    ||| p == Phase::AwaitStateLoad
    ||| p == Phase::AwaitRootInfo
    ||| p == Phase::AwaitEmbeddedInfo
    ||| p is AwaitLocate
    ||| p is AwaitLocatedInfo
}

/// How the phase of a session fits its command.
pub open spec fn consistent(s: SessionView) -> bool {
    let cmd = s.cli.command;
    &&& context_phase(s.phase) ==> !s.via_queue && !s.started_for_request
    &&& s.phase == (Phase::AwaitProbe { purpose: Probe::Status }) ==> cmd is Status
    &&& (s.phase == (Phase::AwaitProbe { purpose: Probe::Stop }) || s.phase == Phase::AwaitStopClose) ==> cmd is Stop
    &&& starting_phase(s.phase) ==> s.ctx.is_local_api && (cmd is Start || (is_queue(cmd) && s.via_queue))
    &&& s.via_queue ==> is_queue(cmd) && !s.cli.no_auto_start && s.ctx.is_local_api
    &&& (s.phase == (Phase::AwaitProbe { purpose: Probe::Queue }) || s.phase == Phase::AwaitQueueRequest
        || s.phase == Phase::AwaitQueueClose) ==> is_queue(cmd)
    &&& s.phase == Phase::AwaitQueueClose ==> s.started_for_request && !s.cli.keep_backend
    &&& s.started_for_request ==> s.via_queue
    &&& s.phase matches Phase::AwaitProbe { purpose: Probe::Ready { after_handoff: true, .. } } ==> s.via_queue
}

/// What holds of every session a run goes through.
pub open spec fn inv(s: SessionView) -> bool {
    wf(s) && consistent(s)
}

/// A run starts in a session where the invariant holds.
pub proof fn law_run_establishes(cli: CliView)
    ensures
        inv(run_spec(cli).0),
{
}

/// Every step keeps the invariant.
#[verifier::spinoff_prover]
#[verifier::rlimit(50)]
pub proof fn law_step_preserves(s: SessionView, r: ReplyView)
    requires
        inv(s),
        fits(s, r),
    ensures
        inv(next(s, r).0),
{
    match s.phase {
        Phase::AwaitEnvironment => {},
        Phase::AwaitStateDir => {},
        Phase::AwaitStateLoad => {},
        Phase::AwaitRootInfo => {},
        Phase::AwaitEmbeddedInfo => {},
        Phase::AwaitLocate { .. } => {},
        Phase::AwaitLocatedInfo { .. } => {},
        Phase::AwaitProbe { purpose } => {},
        Phase::AwaitAdminCheck => {},
        Phase::AwaitLaunchInfo => {},
        Phase::AwaitElevation => {},
        Phase::AwaitSpawn => {},
        Phase::AwaitStopClose => {},
        Phase::AwaitQueueRequest => {},
        Phase::AwaitQueueClose => {},
        Phase::AwaitClearState => {},
        Phase::Finished => {},
    }
}


/// A request that starts a backend process, directly or through an elevated
/// relaunch of the CLI.
pub open spec fn starts_backend(r: RequestView) -> bool {
    r is Spawn || r is Elevate
}

/// A backend is started only for `backend start` or, without `--no-auto-start`,
/// for a queue command, and only for a local API: `backend status` and
/// `backend stop` never start one, and neither does anything for a remote backend.
pub proof fn law_start_only_when_allowed(s: SessionView, r: ReplyView)
    requires
        inv(s),
        fits(s, r),
        starts_backend(next(s, r).1.request),
    ensures
        s.ctx.is_local_api,
        s.cli.command is Start || (is_queue(s.cli.command) && !s.cli.no_auto_start),
{
    match s.phase {
        Phase::AwaitEnvironment => {},
        Phase::AwaitStateDir => {},
        Phase::AwaitStateLoad => {},
        Phase::AwaitRootInfo => {},
        Phase::AwaitEmbeddedInfo => {},
        Phase::AwaitLocate { .. } => {},
        Phase::AwaitLocatedInfo { .. } => {},
        Phase::AwaitProbe { purpose } => {},
        Phase::AwaitAdminCheck => {},
        Phase::AwaitLaunchInfo => {},
        Phase::AwaitElevation => {},
        Phase::AwaitSpawn => {},
        Phase::AwaitStopClose => {},
        Phase::AwaitQueueRequest => {},
        Phase::AwaitQueueClose => {},
        Phase::AwaitClearState => {},
        Phase::Finished => {},
    }
}

/// The probe and the close request differ: they go to different endpoints.
pub proof fn lemma_probe_is_not_close(s: SessionView)
    ensures
        crate::flow::probe_request(s.ctx) != close_request(s.ctx),
{
    reveal_strlit("/api/info/version");
    reveal_strlit("/api/core/close");
    let b = crate::text::drop_trailing(s.ctx.api_url, crate::text::char_pred('/'));
    assert((b + "/api/info/version"@).len() != (b + "/api/core/close"@).len());
}

/// The backend is asked to close only by `backend stop`, or by a queue command
/// whose backend this run started, unless `--keep-backend` is given.
#[verifier::spinoff_prover]
#[verifier::rlimit(50)]
pub proof fn law_close_only_when_asked(s: SessionView, r: ReplyView)
    requires
        inv(s),
        fits(s, r),
        next(s, r).1.request == close_request(s.ctx),
    ensures
        s.cli.command is Stop || (is_queue(s.cli.command) && s.started_for_request && !s.cli.keep_backend),
{
    lemma_probe_is_not_close(s);
    let t = next(s, r).0;
    match s.phase {
        Phase::AwaitProbe { purpose } => {
            lemma_probe_is_not_close(t);
            match purpose {
                Probe::Queue => {
                    reveal_strlit("/api/core/close");
                },
                Probe::Ready { .. } => {
                    reveal_strlit("/api/core/close");
                },
                Probe::Start => {},
                _ => {},
            }
        },
        Phase::AwaitSpawn => {
            lemma_probe_is_not_close(t);
        },
        Phase::AwaitAdminCheck => {
            lemma_probe_is_not_close(t);
        },
        Phase::AwaitElevation => {
            lemma_probe_is_not_close(t);
        },
        Phase::AwaitRootInfo => {
            lemma_probe_is_not_close(t);
        },
        Phase::AwaitEmbeddedInfo => {
            lemma_probe_is_not_close(t);
        },
        Phase::AwaitLocate { .. } => {
            lemma_probe_is_not_close(t);
        },
        Phase::AwaitLocatedInfo { .. } => {
            lemma_probe_is_not_close(t);
        },
        Phase::AwaitEnvironment => {
            lemma_probe_is_not_close(t);
        },
        Phase::AwaitStateDir => {
            lemma_probe_is_not_close(t);
        },
        Phase::AwaitStateLoad => {
            lemma_probe_is_not_close(t);
        },
        _ => {},
    }
}


/// `backend status` ends with exit code 0 whatever the probe gives: a stopped
/// backend is a status, not a failure.
pub proof fn law_status_exits_zero(s: SessionView, o: crate::api::HttpOutcomeView)
    requires
        inv(s),
        s.phase == (Phase::AwaitProbe { purpose: Probe::Status }),
    ensures
        next(s, ReplyView::Http(o)).1.request == (RequestView::Exit { code: 0 }),
        next(s, ReplyView::Http(o)).1.effects == seq![
            EffectView::Print(
                crate::output::status_output_spec(
                    s.cli.json,
                    s.ctx,
                    crate::api::api_post_spec(o) is Ok,
                ),
            ),
        ],
{
}

/// The effects end with the report of a failure.
pub open spec fn ends_with_error(fx: Seq<EffectView>, json: bool) -> bool {
    &&& fx.len() > 0
    &&& exists|e: crate::errors::CliErrorView|
        fx.last() == EffectView::Print(#[trigger] crate::output::error_output_spec(json, e))
}

/// A run that ends with exit code 1 has just printed why.
pub proof fn law_failure_is_reported(s: SessionView, r: ReplyView)
    requires
        inv(s),
        fits(s, r),
        next(s, r).1.request == (RequestView::Exit { code: 1 }),
    ensures
        ends_with_error(next(s, r).1.effects, s.cli.json),
{
    match s.phase {
        Phase::AwaitEnvironment => {},
        Phase::AwaitStateDir => {},
        Phase::AwaitStateLoad => {},
        Phase::AwaitRootInfo => {},
        Phase::AwaitEmbeddedInfo => {},
        Phase::AwaitLocate { .. } => {},
        Phase::AwaitLocatedInfo { .. } => {},
        Phase::AwaitProbe { purpose } => {},
        Phase::AwaitAdminCheck => {},
        Phase::AwaitLaunchInfo => {},
        Phase::AwaitElevation => {},
        Phase::AwaitSpawn => {},
        Phase::AwaitStopClose => {},
        Phase::AwaitQueueRequest => {},
        Phase::AwaitQueueClose => {},
        Phase::AwaitClearState => {},
        Phase::Finished => {},
    }
}

/// In JSON mode nothing but JSON is printed: no banner and no text lines.
pub open spec fn json_only(fx: Seq<EffectView>) -> bool {
    forall|i: int|
        0 <= i < fx.len() ==> !(#[trigger] fx[i] is Banner) && (fx[i] matches EffectView::Print(o) ==> o is Json)
}

/// With `--json`, every step prints only JSON values.
pub proof fn law_json_mode_prints_json(s: SessionView, r: ReplyView)
    requires
        inv(s),
        fits(s, r),
        s.cli.json,
    ensures
        json_only(next(s, r).1.effects),
{
    match s.phase {
        Phase::AwaitEnvironment => {},
        Phase::AwaitStateDir => {},
        Phase::AwaitStateLoad => {},
        Phase::AwaitRootInfo => {},
        Phase::AwaitEmbeddedInfo => {},
        Phase::AwaitLocate { .. } => {},
        Phase::AwaitLocatedInfo { .. } => {},
        Phase::AwaitProbe { purpose } => {},
        Phase::AwaitAdminCheck => {},
        Phase::AwaitLaunchInfo => {},
        Phase::AwaitElevation => {},
        Phase::AwaitSpawn => {},
        Phase::AwaitStopClose => {},
        Phase::AwaitQueueRequest => {},
        Phase::AwaitQueueClose => {},
        Phase::AwaitClearState => {},
        Phase::Finished => {},
    }
}

/// With `--json` the run does not start with the banner.
pub proof fn law_json_mode_has_no_banner(cli: CliView)
    requires
        cli.json,
    ensures
        json_only(run_spec(cli).1.effects),
{
}

/// `backend start` with a backend already up starts nothing and reports it ready,
/// with the runtime information the context holds; `backend start` itself then
/// ends with exit code 0.
pub proof fn law_start_is_idempotent(s: SessionView, o: crate::api::HttpOutcomeView)
    requires
        inv(s),
        s.phase == (Phase::AwaitProbe { purpose: Probe::Start }),
        crate::api::api_post_spec(o) is Ok,
    ensures
        !starts_backend(next(s, ReplyView::Http(o)).1.request),
        next(s, ReplyView::Http(o)).1.effects == crate::flow::start_report(
            s,
            crate::output::ready_output_spec(s.cli.json, s.ctx, s.ctx.state.tracked_pid),
        ),
        s.cli.command is Start ==> next(s, ReplyView::Http(o)).1 == (StepView {
            effects: seq![
                EffectView::Print(
                    crate::output::ready_output_spec(s.cli.json, s.ctx, s.ctx.state.tracked_pid),
                ),
            ],
            request: RequestView::Exit { code: 0 },
        }),
{
}

/// `backend stop` asks a backend that answers to close, local or remote, and
/// fails with `backend_unreachable` when it does not answer.
pub proof fn law_stop_closes_when_up(s: SessionView, o: crate::api::HttpOutcomeView)
    requires
        inv(s),
        s.phase == (Phase::AwaitProbe { purpose: Probe::Stop }),
    ensures
        crate::api::api_post_spec(o) is Ok ==> next(s, ReplyView::Http(o)).1.request == close_request(s.ctx),
        crate::api::api_post_spec(o) is Err ==> next(s, ReplyView::Http(o)) == crate::flow::fail(
            s,
            Seq::empty(),
            crate::errors::cli_error_spec(
                crate::errors::ErrorCategory::BackendUnreachable,
                "后端未运行，无法执行命令"@,
            ),
        ),
{
}

/// With `--no-auto-start`, a queue command whose backend does not answer fails
/// with `backend_unreachable` and starts nothing.
pub proof fn law_no_auto_start(s: SessionView, o: crate::api::HttpOutcomeView)
    requires
        inv(s),
        s.phase == (Phase::AwaitProbe { purpose: Probe::Queue }),
        s.cli.no_auto_start,
        crate::api::api_post_spec(o) is Err,
    ensures
        next(s, ReplyView::Http(o)) == crate::flow::fail(
            s,
            Seq::empty(),
            crate::errors::cli_error_spec(
                crate::errors::ErrorCategory::BackendUnreachable,
                "后端未运行，无法执行命令"@,
            ),
        ),
{
}

/// A failure the backend reported is printed in JSON mode as the backend sent it.
pub proof fn law_backend_error_passes_through(e: crate::errors::CliErrorView)
    requires
        e.backend_payload is Some,
    ensures
        crate::output::error_output_spec(true, e) == OutputView::Json(e.backend_payload->0),
{
}


/// After a successful queue request, a backend that this run started for it is
/// asked to close unless `--keep-backend` is given; otherwise the run ends with
/// exit code 0 and the backend keeps running.
pub proof fn law_temporary_backend_is_closed(s: SessionView, o: crate::api::HttpOutcomeView)
    requires
        inv(s),
        s.phase == Phase::AwaitQueueRequest,
        crate::api::api_post_spec(o) is Ok,
    ensures
        next(s, ReplyView::Http(o)).1.request == (if s.started_for_request && !s.cli.keep_backend {
            close_request(s.ctx)
        } else {
            RequestView::Exit { code: 0 }
        }),
{
}

/// `backend stop` succeeds once the close request is accepted: it prints the
/// confirmation and does not fail.
pub proof fn law_stop_succeeds_when_accepted(s: SessionView, o: crate::api::HttpOutcomeView)
    requires
        inv(s),
        s.phase == Phase::AwaitStopClose,
        crate::api::api_post_spec(o) is Ok,
    ensures
        next(s, ReplyView::Http(o)).1.effects == seq![
            EffectView::Print(crate::output::stop_output_spec(s.cli.json, s.ctx.api_url, s.ctx.is_local_api)),
        ],
        next(s, ReplyView::Http(o)).1.request != (RequestView::Exit { code: 1 }),
{
}

/// Forgetting the tracked backend never fails: the run then ends with exit code 0.
pub proof fn law_clearing_state_ends_the_run(s: SessionView, r: ReplyView)
    requires
        inv(s),
        fits(s, r),
        s.phase == Phase::AwaitClearState,
    ensures
        next(s, r).1.request == (RequestView::Exit { code: 0 }),
{
}


/// How many values the effects print.
pub open spec fn print_count(fx: Seq<EffectView>) -> nat
    decreases fx.len(),
{
    if fx.len() == 0 {
        0
    } else {
        print_count(fx.drop_last()) + if fx.last() is Print {
            1nat
        } else {
            0nat
        }
    }
}

proof fn lemma_print_count_push()
    ensures
        print_count(Seq::<EffectView>::empty()) == 0,
        forall|fx: Seq<EffectView>, e: EffectView| #[trigger] print_count(fx.push(e)) == print_count(fx) + if e is Print {
            1nat
        } else {
            0nat
        },
{
    assert forall|fx: Seq<EffectView>, e: EffectView| #[trigger] print_count(fx.push(e)) == print_count(fx) + if e is Print {
        1nat
    } else {
        0nat
    } by {
        assert(fx.push(e).drop_last() =~= fx);
    }
}

proof fn lemma_print_count_append(a: Seq<EffectView>, b: Seq<EffectView>)
    ensures
        print_count(a + b) == print_count(a) + print_count(b),
    decreases b.len(),
{
    if b.len() == 0 {
        assert(a + b =~= a);
    } else {
        lemma_print_count_append(a, b.drop_last());
        assert((a + b).drop_last() =~= a + b.drop_last());
    }
}

/// Whether a session has printed the one output of its run.
pub open spec fn has_printed(s: SessionView) -> bool {
    ||| s.phase == Phase::AwaitQueueClose
    ||| s.phase == Phase::AwaitClearState
    ||| s.phase == Phase::Finished
}

/// With `--json` a run prints exactly one JSON value: it starts without printing,
/// each step prints one value exactly when it takes the session from not having
/// printed to having printed and none otherwise, and the run ends only once it
/// has printed.
#[verifier::spinoff_prover]
#[verifier::rlimit(50)]
pub proof fn law_json_mode_prints_one_value(cli: CliView, s: SessionView, r: ReplyView)
    requires
        cli.json,
        inv(s),
        fits(s, r),
        s.cli.json,
    ensures
        print_count(run_spec(cli).1.effects) == 0,
        !has_printed(run_spec(cli).0),
        print_count(next(s, r).1.effects) == (if has_printed(next(s, r).0) && !has_printed(s) {
            1nat
        } else {
            0nat
        }),
        has_printed(s) ==> has_printed(next(s, r).0),
        next(s, r).1.request is Exit ==> next(s, r).0.phase == Phase::Finished,
{
    lemma_print_count_push();
    match s.phase {
        Phase::AwaitEnvironment => {},
        Phase::AwaitStateDir => {},
        Phase::AwaitStateLoad => {},
        Phase::AwaitRootInfo => {},
        Phase::AwaitEmbeddedInfo => {},
        Phase::AwaitLocate { .. } => {},
        Phase::AwaitLocatedInfo { .. } => {},
        Phase::AwaitProbe { purpose } => {
            match purpose {
                Probe::Ready { attempt, limit, after_handoff } => {
                    let st = crate::flow::started_state(s);
                    let s1 = crate::flow::with_state(s, st);
                    lemma_print_count_append(
                        crate::flow::save_effects(s.state_path, st),
                        crate::flow::start_report(s, crate::output::ready_output_spec(true, s1.ctx, s.pid)),
                    );
                },
                _ => {},
            }
        },
        Phase::AwaitAdminCheck => {},
        Phase::AwaitLaunchInfo => {},
        Phase::AwaitElevation => {},
        Phase::AwaitSpawn => {},
        Phase::AwaitStopClose => {},
        Phase::AwaitQueueRequest => {},
        Phase::AwaitQueueClose => {},
        Phase::AwaitClearState => {},
        Phase::Finished => {},
    }
}


/// The request a queue command sends: `queue start` posts `{"mode": m, "taskId": q}`
/// to `/api/dispatch/start`, `queue list` posts `{"queueId": null}` to
/// `/api/queue/get`, both under the API URL without its trailing `/`.
pub open spec fn queue_command_request(cli: CliView) -> RequestView {
    let base = crate::text::drop_trailing(cli.api_url, crate::text::char_pred('/'));
    match cli.command {
        CommandView::QueueStart { queue_id, mode } => RequestView::Http {
            url: base + "/api/dispatch/start"@,
            body: crate::json::JsonView::Object(
                seq![
                    ("mode"@, crate::json::JsonView::Str(mode)),
                    ("taskId"@, crate::json::JsonView::Str(queue_id)),
                ],
            ),
        },
        _ => RequestView::Http {
            url: base + "/api/queue/get"@,
            body: crate::json::JsonView::Object(seq![("queueId"@, crate::json::JsonView::Null)]),
        },
    }
}

/// Whenever a run goes on to its queue request (right after a successful probe, or
/// once the backend it started is ready), that request is the queue command's own:
/// for `queue start --queue-id q --mode m`, a POST to `/api/dispatch/start` whose
/// body is `{"mode": m, "taskId": q}`.
#[verifier::spinoff_prover]
#[verifier::rlimit(50)]
pub proof fn law_queue_request_carries_the_command(s: SessionView, r: ReplyView)
    requires
        inv(s),
        fits(s, r),
        next(s, r).0.phase == Phase::AwaitQueueRequest,
    ensures
        is_queue(s.cli.command),
        next(s, r).1.request == queue_command_request(s.cli),
{
    law_step_preserves(s, r);
    match s.phase {
        Phase::AwaitEnvironment => {},
        Phase::AwaitStateDir => {},
        Phase::AwaitStateLoad => {},
        Phase::AwaitRootInfo => {},
        Phase::AwaitEmbeddedInfo => {},
        Phase::AwaitLocate { .. } => {},
        Phase::AwaitLocatedInfo { .. } => {},
        Phase::AwaitProbe { purpose } => {},
        Phase::AwaitAdminCheck => {},
        Phase::AwaitLaunchInfo => {},
        Phase::AwaitElevation => {},
        Phase::AwaitSpawn => {},
        Phase::AwaitStopClose => {},
        Phase::AwaitQueueRequest => {},
        Phase::AwaitQueueClose => {},
        Phase::AwaitClearState => {},
        Phase::Finished => {},
    }
}

/// The JSON value of a process id, or `null`.
pub open spec fn pid_json(pid: Option<u32>) -> crate::json::JsonView {
    match pid {
        Some(p) => crate::json::JsonView::Int(p as i64),
        None => crate::json::JsonView::Null,
    }
}

proof fn lemma_find_field_at(fields: Seq<(Seq<char>, crate::json::JsonView)>, key: Seq<char>, j: int)
    requires
        0 <= j < fields.len(),
        fields[j].0 == key,
        forall|i: int| 0 <= i < j ==> (#[trigger] fields[i]).0 != key,
    ensures
        crate::json::find_field(fields, key) == Some(fields[j].1),
    decreases j,
{
    if j > 0 {
        assert(fields[0].0 != key);
        let rest = fields.drop_first();
        assert forall|i: int| 0 <= i < j - 1 implies (#[trigger] rest[i]).0 != key by {
            assert(rest[i] == fields[i + 1]);
        }
        lemma_find_field_at(rest, key, j - 1);
    }
}

/// `backend status --json` reports in `data` whether the backend answered and, for
/// a local API, the loaded state: `startedByCli` is the state's `started_by_cli` and
/// `trackedPid` its tracked process; for a remote API both are `null`.
pub proof fn law_status_reports_state(ctx: crate::context::ContextView, ready: bool)
    ensures
        crate::output::status_output_spec(true, ctx, ready) is Json,
        crate::output::status_output_spec(true, ctx, ready)->Json_0.get("code"@) == Some(crate::json::JsonView::Int(200)),
        ({
            let d = crate::output::status_output_spec(true, ctx, ready)->Json_0.get("data"@);
            &&& d is Some
            &&& d->0.get("ready"@) == Some(crate::json::JsonView::Bool(ready))
            &&& d->0.get("startedByCli"@) == Some(
                if ctx.is_local_api {
                    crate::json::JsonView::Bool(ctx.state.started_by_cli)
                } else {
                    crate::json::JsonView::Null
                },
            )
            &&& d->0.get("trackedPid"@) == Some(
                if ctx.is_local_api {
                    pid_json(ctx.state.tracked_pid)
                } else {
                    crate::json::JsonView::Null
                },
            )
            &&& d->0.get("apiUrl"@) == Some(crate::json::JsonView::Str(ctx.api_url))
        }),
{
    reveal_strlit("code");
    reveal_strlit("status");
    reveal_strlit("message");
    reveal_strlit("data");
    reveal_strlit("ready");
    reveal_strlit("startedByCli");
    reveal_strlit("trackedPid");
    reveal_strlit("appRoot");
    reveal_strlit("pythonExecutable");
    reveal_strlit("apiUrl");
    reveal_with_fuel(crate::json::find_field, 7);
    let data = crate::output::ctx_status_data(ctx, ready);
    let msg = if ready { "后端运行中"@ } else { "后端未运行"@ };
    let fields = seq![
        ("code"@, crate::json::JsonView::Int(200)),
        ("status"@, crate::json::JsonView::Str("success"@)),
        ("message"@, crate::json::JsonView::Str(msg)),
        ("data"@, data),
    ];
    let env = crate::output::status_output_spec(true, ctx, ready)->Json_0;
    assert(env->Object_0 =~= fields);
    assert(crate::json::find_field(fields, "code"@) == Some(crate::json::JsonView::Int(200)));
    assert("code"@ != "data"@) by {
        assert("code"@[0] != "data"@[0]);
    }
    let f1 = fields.drop_first();
    let f2 = f1.drop_first();
    let f3 = f2.drop_first();
    assert(f3 =~= seq![("data"@, data)]);
    assert(crate::json::find_field(f3, "data"@) == Some(data));
    assert(f2[0].0 == "message"@);
    assert(crate::json::find_field(f2, "data"@) == Some(data));
    assert(f1[0].0 == "status"@);
    assert(crate::json::find_field(f1, "data"@) == Some(data));
    assert(fields[0].0 == "code"@);
    assert(crate::json::find_field(fields, "data"@) == Some(data));
    let df = data->Object_0;
    assert(df.len() == 6);
    assert(df[0].0 == "ready"@ && df[1].0 == "startedByCli"@ && df[2].0 == "trackedPid"@);
    assert(df[3].0 == "appRoot"@ && df[4].0 == "pythonExecutable"@ && df[5].0 == "apiUrl"@);
    lemma_find_field_at(df, "ready"@, 0);
    lemma_find_field_at(df, "startedByCli"@, 1);
    lemma_find_field_at(df, "trackedPid"@, 2);
    lemma_find_field_at(df, "apiUrl"@, 5);
}

/// The state read from the state file is the state the run reports and acts on.
pub proof fn law_loaded_state_is_used(s: SessionView, st: crate::context::BackendStateView)
    requires
        inv(s),
        s.phase == Phase::AwaitStateLoad,
    ensures
        next(s, ReplyView::State(Some(st))).0.ctx.state == st,
{
}

/// In text mode, `queue list` prints the queue table of the whole reply: for a reply
/// whose `data.list` holds `n` entries, the header line, then one row per entry in
/// order.
pub proof fn law_queue_list_prints_every_entry(
    s: SessionView,
    o: crate::api::HttpOutcomeView,
    reply: crate::json::JsonView,
    d: crate::json::JsonView,
    items: Seq<crate::json::JsonView>,
)
    requires
        inv(s),
        s.phase == Phase::AwaitQueueRequest,
        s.cli.command is QueueList,
        !s.cli.json,
        crate::api::api_post_spec(o) == Ok::<crate::json::JsonView, crate::errors::CliErrorView>(reply),
        reply.get("data"@) == Some(d),
        d.get("list"@) == Some(crate::json::JsonView::Array(items)),
    ensures
        next(s, ReplyView::Http(o)).1.effects.len() == 1,
        next(s, ReplyView::Http(o)).1.effects[0] matches EffectView::Print(OutputView::Lines(l))
            && l.len() == items.len() + 1
            && l[0] == "queueId\tname"@
            && forall|i: int| 0 <= i < items.len() ==> l[i + 1] == crate::queue_output::queue_row(#[trigger] items[i]),
{
}

/// A queue entry with a string `queueId` and a string `queueName` is shown as the
/// id, a tab, and the name.
pub proof fn law_queue_row_shows_id_and_name(item: crate::json::JsonView, id: Seq<char>, name: Seq<char>)
    requires
        item.get("queueId"@) == Some(crate::json::JsonView::Str(id)),
        item.get("queueName"@) == Some(crate::json::JsonView::Str(name)),
    ensures
        crate::queue_output::queue_row(item) == id + "\t"@ + name,
{
}


/// The result is a failure that carries the backend's reply.
pub open spec fn fails_with_reply(
    r: Result<crate::json::JsonView, crate::errors::CliErrorView>,
    reply: crate::json::JsonView,
) -> bool {
    match r {
        Err(e) => e.backend_payload == Some(reply) && e.category == crate::errors::ErrorCategory::BackendBusinessError,
        Ok(_) => false,
    }
}

/// What a backend reply means: a failure when no response came (the backend is
/// unreachable), when the HTTP status is not 2xx, when the reply's `status` is
/// `error` in any ASCII case, or when its `code` is an integer of 400 or more; such
/// a failure carries the reply. A 2xx reply with neither field is the result.
pub proof fn law_backend_reply_meaning(status: u16, text: Seq<char>, reply: crate::json::JsonView)
    ensures
        (match crate::api::api_post_spec(crate::api::HttpOutcomeView::SendError) {
            Err(e) => e.category == crate::errors::ErrorCategory::BackendUnreachable,
            Ok(_) => false,
        }),
        !(200 <= status <= 299) ==> fails_with_reply(
            crate::api::api_post_spec(crate::api::HttpOutcomeView::Response { status, text, body: Some(reply) }),
            reply,
        ),
        (reply.get("status"@) matches Some(crate::json::JsonView::Str(st)) && crate::text::lower_spec(st) == "error"@)
            ==> fails_with_reply(
            crate::api::api_post_spec(crate::api::HttpOutcomeView::Response { status, text, body: Some(reply) }),
            reply,
        ),
        (reply.get("code"@) matches Some(crate::json::JsonView::Int(c)) && c >= 400) ==> fails_with_reply(
            crate::api::api_post_spec(crate::api::HttpOutcomeView::Response { status, text, body: Some(reply) }),
            reply,
        ),
        (200 <= status <= 299 && reply.get("status"@) is None && reply.get("code"@) is None)
            ==> crate::api::api_post_spec(
            crate::api::HttpOutcomeView::Response { status, text, body: Some(reply) },
        ) == Ok::<crate::json::JsonView, crate::errors::CliErrorView>(reply),
{
    reveal_strlit("error");
    assert(crate::text::lower_spec("error"@) =~= "error"@);
}

/// `backend stop` names its target: `local` for a local API, `remote` otherwise,
/// in the JSON `data.target` and in the text line `target: ...`.
pub proof fn law_stop_names_target(api_url: Seq<char>, is_local: bool)
    ensures
        crate::output::stop_output_spec(true, api_url, is_local) is Json,
        ({
            let d = crate::output::stop_output_spec(true, api_url, is_local)->Json_0.get("data"@);
            &&& d is Some
            &&& d->0.get("requestAccepted"@) == Some(crate::json::JsonView::Bool(true))
            &&& d->0.get("target"@) == Some(crate::json::JsonView::Str(if is_local { "local"@ } else { "remote"@ }))
        }),
        crate::output::stop_output_spec(false, api_url, is_local) matches OutputView::Lines(l) && l.len() == 3
            && l[1] == "target: "@ + (if is_local { "local"@ } else { "remote"@ }) && l[2] == "apiUrl: "@ + api_url,
{
    reveal_strlit("code");
    reveal_strlit("status");
    reveal_strlit("message");
    reveal_strlit("data");
    reveal_strlit("requestAccepted");
    reveal_strlit("target");
    let env = crate::output::stop_output_spec(true, api_url, is_local)->Json_0;
    let data = crate::json::JsonView::Object(
        seq![
            ("requestAccepted"@, crate::json::JsonView::Bool(true)),
            ("target"@, crate::json::JsonView::Str(crate::output::target_name(is_local))),
        ],
    );
    let fields = seq![
        ("code"@, crate::json::JsonView::Int(200)),
        ("status"@, crate::json::JsonView::Str("success"@)),
        ("message"@, crate::json::JsonView::Str("后端关闭请求已发送"@)),
        ("data"@, data),
    ];
    assert(env->Object_0 =~= fields);
    assert("code"@ != "data"@) by {
        assert("code"@[0] != "data"@[0]);
    }
    assert(fields[0].0 != "data"@);
    assert(fields[1].0 != "data"@);
    assert(fields[2].0 != "data"@) by {
        assert(fields[2].0 == "message"@);
        assert("message"@.len() != "data"@.len());
    }
    assert(fields[3].0 == "data"@);
    lemma_find_field_at(fields, "data"@, 3);
    let df = data->Object_0;
    assert(df[0].0 == "requestAccepted"@);
    assert(df[1].0 == "target"@);
    assert(df[0].0 != "target"@);
    lemma_find_field_at(df, "requestAccepted"@, 0);
    lemma_find_field_at(df, "target"@, 1);
}

/// A failure of the CLI itself is printed with `--json` as the envelope
/// `{"code": 500, "status": "error", "message": ..., "source": ..., "category": ...}`
/// naming its source and category, and without `--json` as `错误: ` and its message.
pub proof fn law_cli_error_envelope(e: crate::errors::CliErrorView)
    requires
        e.backend_payload is None,
    ensures
        crate::output::error_output_spec(true, e) == OutputView::Json(
            crate::json::JsonView::Object(
                seq![
                    ("code"@, crate::json::JsonView::Int(500)),
                    ("status"@, crate::json::JsonView::Str("error"@)),
                    ("message"@, crate::json::JsonView::Str(e.message)),
                    ("source"@, crate::json::JsonView::Str(crate::errors::source_name(e.source))),
                    ("category"@, crate::json::JsonView::Str(crate::errors::category_name(e.category))),
                ],
            ),
        ),
        crate::output::error_output_spec(false, e) == OutputView::ErrorLine("错误: "@ + e.message),
{
    let j = crate::output::error_output_spec(true, e)->Json_0;
    assert(j->Object_0 =~= seq![
        ("code"@, crate::json::JsonView::Int(500)),
        ("status"@, crate::json::JsonView::Str("error"@)),
        ("message"@, crate::json::JsonView::Str(e.message)),
        ("source"@, crate::json::JsonView::Str(crate::errors::source_name(e.source))),
        ("category"@, crate::json::JsonView::Str(crate::errors::category_name(e.category))),
    ]);
}

} // verus!
