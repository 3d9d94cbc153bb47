use vstd::prelude::*;
use crate::api::{
    api_post_result, api_url, dispatch_start_body, empty_body, queue_get_body, HttpOutcome,
};
use crate::context::{BackendState, Cli, CommandView, RootCommand, BackendCommand, QueueCommand, RuntimeContext};
use crate::errors::{CliError, ErrorCategory, cli_error_str};
use crate::flow::{
    after_start, begin_start, build_context_spec, clear_state, close_request, discover_python,
    execute_spec, fail, finish, fits, locate, next, on_probe, probe, queue_request, run_spec,
    queue_output_spec,
};
use crate::json::Json;
use crate::output::{
    Output, backend_ready_output, elevation_handoff_output, error_output, queue_start_output,
    status_output, stop_output,
};
use crate::queue_output::print_queue_table;
use crate::runtime::{
    admin_check_script, app_root_candidates, app_state_dir, candidates_check_paths,
    discover_app_root, embedded_check_paths, is_local_api_url, is_windows_admin, located_path,
    locator_program, relaunch_script, relaunch_self_as_admin, resolve_python_from_embedded_dir,
    spawn_backend_daemon, spawn_plan, state_file_path, PathInfo,
};
use crate::session::{
    Effect, EffectView, Environment, Phase, Probe, Reply, Request, Session, SessionView, Step,
    effect_views,
};
use crate::text::{opt_view, views};

verus! {

/// What holds of every session between steps.
pub open spec fn wf(s: SessionView) -> bool {
    &&& s.ctx.api_url == s.cli.api_url
    &&& s.phase == Phase::AwaitStateDir ==> state_dir_spec_of(s) is Some
    &&& s.phase == Phase::AwaitEmbeddedInfo ==> s.ctx.app_root is Some
    &&& s.phase is AwaitLocatedInfo ==> s.located is Some
    &&& s.phase == Phase::AwaitSpawn ==> s.ctx.app_root is Some && s.ctx.python_executable is Some
    &&& s.phase == Phase::AwaitClearState ==> s.state_path is Some
    &&& s.phase matches Phase::AwaitProbe { purpose: Probe::Ready { attempt, limit, .. } } ==> attempt < limit
}

pub open spec fn state_dir_spec_of(s: SessionView) -> Option<Seq<char>> {
    crate::runtime::state_dir_spec(s.env.home, s.env.user_profile, s.env.windows)
}

fn push_effect(fx: &mut Vec<Effect>, e: Effect)
    ensures
        effect_views(final(fx)@) == effect_views(old(fx)@).push(e@),
{
    let ghost before = effect_views(fx@);
    fx.push(e);
    assert(effect_views(fx@) =~= before.push(e@));
}

fn no_effects() -> (fx: Vec<Effect>)
    ensures
        effect_views(fx@) == Seq::<EffectView>::empty(),
{
    let fx: Vec<Effect> = Vec::new();
    assert(effect_views(fx@) =~= Seq::<EffectView>::empty());
    fx
}

fn one_effect(e: Effect) -> (fx: Vec<Effect>)
    ensures
        effect_views(fx@) == seq![e@],
{
    let mut fx = no_effects();
    push_effect(&mut fx, e);
    assert(effect_views(fx@) =~= seq![e@]);
    fx
}

fn copy_str(s: &String) -> (r: String)
    ensures
        r@ == s@,
{
    String::from_str(s.as_str())
}

fn copy_opt(s: &Option<String>) -> (r: Option<String>)
    ensures
        opt_view(r) == opt_view(*s),
{
    match s {
        Some(x) => Some(copy_str(x)),
        None => None,
    }
}

/// Starts a run of the CLI for a parsed command line.
pub fn run(cli: Cli) -> (r: (Session, Step))
    ensures
        (r.0@, r.1@) == run_spec(cli@),
        wf(r.0@),
{
    let json = cli.json;
    let ctx = RuntimeContext {
        api_url: copy_str(&cli.api_url),
        app_root: None,
        python_executable: None,
        is_local_api: false,
        state: BackendState::empty(),
    };
    let env = Environment {
        windows: false,
        home: None,
        user_profile: None,
        auto_mas_root: None,
        auto_mas_python: None,
        current_dir: None,
        exe_dirs: Vec::new(),
    };
    let session = Session {
        cli,
        env,
        state_dir: None,
        state_path: None,
        ctx,
        located: None,
        via_queue: false,
        started_for_request: false,
        pid: None,
        phase: Phase::AwaitEnvironment,
    };
    let effects = if json {
        no_effects()
    } else {
        one_effect(Effect::Banner)
    };
    assert(session.env@.exe_dirs =~= Seq::<Seq<char>>::empty());
    (session, Step { effects, request: Request::Environment })
}

impl Session {
    fn finish(&mut self, fx: Vec<Effect>) -> (r: Step)
        ensures
            (final(self)@, r@) == finish(old(self)@, effect_views(fx@)),
    {
        self.phase = Phase::Finished;
        Step { effects: fx, request: Request::Exit { code: 0 } }
    }

    fn fail(&mut self, fx: Vec<Effect>, e: CliError) -> (r: Step)
        ensures
            (final(self)@, r@) == fail(old(self)@, effect_views(fx@), e@),
    {
        let mut fx = fx;
        let o = error_output(self.cli.json, e);
        push_effect(&mut fx, Effect::Print(o));
        self.phase = Phase::Finished;
        Step { effects: fx, request: Request::Exit { code: 1 } }
    }

    fn probe(&mut self, purpose: Probe, fx: Vec<Effect>) -> (r: Step)
        ensures
            (final(self)@, r@) == probe(old(self)@, purpose, effect_views(fx@)),
    {
        let url = api_url(self.ctx.api_url.as_str(), "/api/info/version");
        self.phase = Phase::AwaitProbe { purpose };
        Step { effects: fx, request: Request::Http { url, body: empty_body() } }
    }

    fn close_request(&self) -> (r: Request)
        ensures
            r@ == close_request(self.ctx@),
    {
        let url = api_url(self.ctx.api_url.as_str(), "/api/core/close");
        Request::Http { url, body: empty_body() }
    }

    fn queue_request(&mut self, fx: Vec<Effect>) -> (r: Step)
        ensures
            (final(self)@, r@) == queue_request(old(self)@, effect_views(fx@)),
    {
        let request = match &self.cli.command {
            RootCommand::Queue { command: QueueCommand::Start { queue_id, mode } } => Request::Http {
                url: api_url(self.ctx.api_url.as_str(), "/api/dispatch/start"),
                body: dispatch_start_body(queue_id.as_str(), mode.as_str()),
            },
            _ => Request::Http {
                url: api_url(self.ctx.api_url.as_str(), "/api/queue/get"),
                body: queue_get_body(),
            },
        };
        self.phase = Phase::AwaitQueueRequest;
        Step { effects: fx, request }
    }

    fn clear_state(&mut self, fx: Vec<Effect>) -> (r: Step)
        ensures
            (final(self)@, r@) == clear_state(old(self)@, effect_views(fx@)),
    {
        match &self.state_path {
            Some(p) => {
                let path = copy_str(p);
                self.phase = Phase::AwaitClearState;
                Step { effects: fx, request: Request::LoadState { path } }
            },
            None => self.finish(fx),
        }
    }

    /// `backend start` from the beginning: refused for a remote backend; on Windows,
    /// unless already elevated, the administrator check comes first; then the probe.
    pub fn cmd_backend_start(&mut self, fx: Vec<Effect>) -> (r: Step)
        ensures
            (final(self)@, r@) == begin_start(old(self)@, effect_views(fx@)),
    {
        if !self.ctx.is_local_api {
            let e = cli_error_str(ErrorCategory::InvalidRuntimeConfiguration, "远端 apiUrl 不支持 backend start");
            return self.fail(fx, e);
        }
        if crate::runtime::should_attempt_windows_elevation(self.env.windows, self.cli.elevated) {
            self.phase = Phase::AwaitAdminCheck;
            return Step { effects: fx, request: Request::Powershell { script: admin_check_script() } };
        }
        self.probe(Probe::Start, fx)
    }

    /// The effects that report a start: `o` printed, unless in JSON mode for a queue command.
    fn start_report(&self, o: Output) -> (fx: Vec<Effect>)
        ensures
            effect_views(fx@) == crate::flow::start_report(self@, o@),
    {
        if self.via_queue && self.cli.json {
            no_effects()
        } else {
            one_effect(Effect::Print(o))
        }
    }

    fn after_start(&mut self, fx: Vec<Effect>, handed_off: bool) -> (r: Step)
        ensures
            (final(self)@, r@) == after_start(old(self)@, effect_views(fx@), handed_off),
    {
        if self.via_queue {
            self.started_for_request = true;
            if handed_off {
                self.probe(Probe::Ready { attempt: 0, limit: 60, after_handoff: true }, fx)
            } else {
                self.queue_request(fx)
            }
        } else {
            self.finish(fx)
        }
    }

    /// Runs the command once the context is known.
    pub fn execute(&mut self, fx: Vec<Effect>) -> (r: Step)
        ensures
            (final(self)@, r@) == execute_spec(old(self)@, effect_views(fx@)),
    {
        match &self.cli.command {
            RootCommand::Backend { command: BackendCommand::Status } => self.probe(Probe::Status, fx),
            RootCommand::Backend { command: BackendCommand::Start } => self.cmd_backend_start(fx),
            RootCommand::Backend { command: BackendCommand::Stop } => self.probe(Probe::Stop, fx),
            RootCommand::Queue { .. } => self.probe(Probe::Queue, fx),
        }
    }

    fn locate(&mut self, second: bool, fx: Vec<Effect>) -> (r: Step)
        ensures
            (final(self)@, r@) == locate(old(self)@, second, effect_views(fx@)),
    {
        let name = if second {
            String::from_str("python")
        } else {
            String::from_str("python3")
        };
        self.phase = Phase::AwaitLocate { second };
        Step { effects: fx, request: Request::Locate { program: locator_program(self.env.windows), name } }
    }

    fn discover_python(&mut self, fx: Vec<Effect>) -> (r: Step)
        ensures
            (final(self)@, r@) == discover_python(old(self)@, effect_views(fx@)),
    {
        let given = match &self.cli.python_exe {
            Some(p) => Some(copy_str(p)),
            None => copy_opt(&self.env.auto_mas_python),
        };
        match given {
            Some(p) => {
                self.ctx.python_executable = Some(p);
                self.execute(fx)
            },
            None => {
                match &self.ctx.app_root {
                    Some(root) => {
                        let paths = embedded_check_paths(root.as_str(), self.env.windows);
                        self.phase = Phase::AwaitEmbeddedInfo;
                        Step { effects: fx, request: Request::Inspect { paths } }
                    },
                    None => self.locate(false, fx),
                }
            },
        }
    }

    /// With the state loaded: for a local API, asks the file system about the
    /// application root candidates; for a remote one, runs the command.
    pub fn build_context(&mut self, fx: Vec<Effect>) -> (r: Step)
        ensures
            (final(self)@, r@) == build_context_spec(old(self)@, effect_views(fx@)),
    {
        let local = is_local_api_url(self.cli.api_url.as_str());
        self.ctx.is_local_api = local;
        if local {
            let (cands, _explicit) = app_root_candidates(
                &self.cli.app_root,
                &self.env.auto_mas_root,
                &self.env.current_dir,
                &self.env.exe_dirs,
            );
            let paths = candidates_check_paths(&cands, self.env.windows);
            self.phase = Phase::AwaitRootInfo;
            Step { effects: fx, request: Request::Inspect { paths } }
        } else {
            self.execute(fx)
        }
    }
}


impl Session {
    /// A queue command after its probe: with the backend up, the request goes out;
    /// otherwise the backend is started here, unless `--no-auto-start` or a remote
    /// API forbid it.
    pub fn ensure_backend_for_queue_command(&mut self, outcome: HttpOutcome) -> (r: Step)
        requires
            wf(old(self)@),
        ensures
            (final(self)@, r@) == on_probe(old(self)@, Probe::Queue, outcome@),
    {
        let up = api_post_result(outcome).is_ok();
        if up {
            return self.queue_request(no_effects());
        }
        if self.cli.no_auto_start {
            let e = cli_error_str(ErrorCategory::BackendUnreachable, "后端未运行，无法执行命令");
            return self.fail(no_effects(), e);
        }
        if !self.ctx.is_local_api {
            let e = cli_error_str(ErrorCategory::BackendUnreachable, "远端后端不可达，且无法自动启动");
            return self.fail(no_effects(), e);
        }
        self.via_queue = true;
        self.cmd_backend_start(no_effects())
    }

    fn on_ready_probe(&mut self, outcome: HttpOutcome, attempt: u32, limit: u32, after_handoff: bool) -> (r: Step)
        requires
            attempt < limit,
        ensures
            (final(self)@, r@) == on_probe(
                old(self)@,
                Probe::Ready { attempt, limit, after_handoff },
                outcome@,
            ),
    {
        let up = api_post_result(outcome).is_ok();
        if up {
            if after_handoff {
                return self.queue_request(no_effects());
            }
            let state = BackendState {
                started_by_cli: true,
                tracked_pid: self.pid,
                app_root: copy_opt(&self.ctx.app_root),
                python_executable: copy_opt(&self.ctx.python_executable),
                api_url: Some(copy_str(&self.ctx.api_url)),
            };
            let mut fx = no_effects();
            match &self.state_path {
                Some(p) => {
                    let saved = BackendState {
                        started_by_cli: true,
                        tracked_pid: self.pid,
                        app_root: copy_opt(&self.ctx.app_root),
                        python_executable: copy_opt(&self.ctx.python_executable),
                        api_url: Some(copy_str(&self.ctx.api_url)),
                    };
                    push_effect(&mut fx, Effect::SaveState { path: copy_str(p), state: saved });
                },
                None => {},
            }
            self.ctx.state = state;
            let o = backend_ready_output(self.cli.json, &self.ctx, self.pid);
            let ghost saved_fx = effect_views(fx@);
            if !(self.via_queue && self.cli.json) {
                push_effect(&mut fx, Effect::Print(o));
            }
            assert(effect_views(fx@) =~= saved_fx + crate::flow::start_report(self@, o@));
            return self.after_start(fx, false);
        }
        let fx = one_effect(Effect::Sleep { millis: 500 });
        if attempt + 1 < limit {
            self.probe(Probe::Ready { attempt: attempt + 1, limit, after_handoff }, fx)
        } else {
            let e = cli_error_str(ErrorCategory::BackendStartupFailed, "后端启动超时，探活未通过");
            self.fail(fx, e)
        }
    }

    fn on_probe(&mut self, purpose: Probe, outcome: HttpOutcome) -> (r: Step)
        requires
            wf(old(self)@),
            old(self)@.phase == (Phase::AwaitProbe { purpose }),
        ensures
            (final(self)@, r@) == on_probe(old(self)@, purpose, outcome@),
    {
        match purpose {
            Probe::Status => {
                let up = api_post_result(outcome).is_ok();
                let o = status_output(self.cli.json, &self.ctx, up);
                self.finish(one_effect(Effect::Print(o)))
            },
            Probe::Stop => {
                let up = api_post_result(outcome).is_ok();
                if !up {
                    let e = cli_error_str(ErrorCategory::BackendUnreachable, "后端未运行，无法执行命令");
                    return self.fail(no_effects(), e);
                }
                let request = self.close_request();
                self.phase = Phase::AwaitStopClose;
                Step { effects: no_effects(), request }
            },
            Probe::Start => {
                let up = api_post_result(outcome).is_ok();
                if up {
                    let o = backend_ready_output(self.cli.json, &self.ctx, self.ctx.state.tracked_pid);
                    let fx = self.start_report(o);
                    return self.after_start(fx, false);
                }
                let root = match &self.ctx.app_root {
                    Some(r) => r,
                    None => {
                        let e = cli_error_str(
                            ErrorCategory::InvalidRuntimeConfiguration,
                            "无法解析应用根目录，请通过 --app-root 或 AUTO_MAS_ROOT 指定",
                        );
                        return self.fail(no_effects(), e);
                    },
                };
                let python = match &self.ctx.python_executable {
                    Some(p) => p,
                    None => {
                        let e = cli_error_str(
                            ErrorCategory::InvalidRuntimeConfiguration,
                            "无法解析 Python 解释器，请通过 --python-exe 或 AUTO_MAS_PYTHON 指定",
                        );
                        return self.fail(no_effects(), e);
                    },
                };
                let plan = spawn_plan(&self.state_dir, python.as_str(), root.as_str(), self.env.windows);
                self.phase = Phase::AwaitSpawn;
                Step { effects: no_effects(), request: Request::Spawn { plan } }
            },
            Probe::Queue => self.ensure_backend_for_queue_command(outcome),
            Probe::Ready { attempt, limit, after_handoff } => self.on_ready_probe(
                outcome,
                attempt,
                limit,
                after_handoff,
            ),
        }
    }
}


impl Session {
    /// Whether `reply` answers what the session waits for.
    pub fn accepts(&self, reply: &Reply) -> (r: bool)
        ensures
            r == fits(self@, reply@),
    {
        match (self.phase, reply) {
            (Phase::AwaitEnvironment, Reply::Environment(_)) => true,
            (Phase::AwaitStateDir, Reply::Done(_)) => true,
            (Phase::AwaitStateLoad, Reply::State(_)) => true,
            (Phase::AwaitRootInfo, Reply::Paths(infos)) => {
                let (cands, _explicit) = app_root_candidates(
                    &self.cli.app_root,
                    &self.env.auto_mas_root,
                    &self.env.current_dir,
                    &self.env.exe_dirs,
                );
                let n = cands.len();
                let m = infos.len();
                assert(views(cands@).len() == n);
                if n <= usize::MAX / 3 {
                    m == 3 * n
                } else {
                    assert(3 * n > m);
                    false
                }
            },
            (Phase::AwaitEmbeddedInfo, Reply::Paths(infos)) => infos.len() == 6,
            (Phase::AwaitLocate { .. }, Reply::Command(_)) => true,
            (Phase::AwaitLocatedInfo { .. }, Reply::Paths(infos)) => infos.len() == 1,
            (Phase::AwaitProbe { .. }, Reply::Http(_)) => true,
            (Phase::AwaitAdminCheck, Reply::Command(_)) => true,
            (Phase::AwaitLaunchInfo, Reply::Launch(_)) => true,
            (Phase::AwaitElevation, Reply::Status(_)) => true,
            (Phase::AwaitSpawn, Reply::Spawned(_)) => true,
            (Phase::AwaitStopClose, Reply::Http(_)) => true,
            (Phase::AwaitQueueRequest, Reply::Http(_)) => true,
            (Phase::AwaitQueueClose, Reply::Http(_)) => true,
            (Phase::AwaitClearState, Reply::State(_)) => true,
            _ => false,
        }
    }

    /// Whether the run is over.
    pub fn is_finished(&self) -> (r: bool)
        ensures
            r == (self@.phase == Phase::Finished),
    {
        match self.phase {
            Phase::Finished => true,
            _ => false,
        }
    }

    /// Takes the answer to the last request and decides what comes next.
    pub fn step(&mut self, reply: Reply) -> (r: Step)
        requires
            wf(old(self)@),
            fits(old(self)@, reply@),
        ensures
            (final(self)@, r@) == next(old(self)@, reply@),
            wf(final(self)@),
    {
        match reply {
            Reply::Environment(env) => self.on_environment(env),
            Reply::Done(ok) => self.on_state_dir(ok),
            Reply::State(st) => self.on_state(st),
            Reply::Paths(infos) => self.on_paths(infos),
            Reply::Command(c) => self.on_command(c),
            Reply::Http(o) => self.on_http(o),
            Reply::Launch(info) => self.on_launch(info),
            Reply::Status(st) => self.on_status(st),
            Reply::Spawned(res) => self.on_spawned(res),
        }
    }

    fn on_environment(&mut self, env: Environment) -> (r: Step)
        requires
            wf(old(self)@),
            old(self)@.phase == Phase::AwaitEnvironment,
        ensures
            (final(self)@, r@) == next(old(self)@, Reply::Environment(env)@),
            wf(final(self)@),
    {
        let dir = app_state_dir(&env.home, &env.user_profile, env.windows);
        self.env = env;
        match dir {
            Some(d) => {
                self.phase = Phase::AwaitStateDir;
                Step { effects: no_effects(), request: Request::CreateDir { path: d } }
            },
            None => {
                self.ctx.state = BackendState::empty();
                self.build_context(no_effects())
            },
        }
    }

    fn on_state_dir(&mut self, ok: bool) -> (r: Step)
        requires
            wf(old(self)@),
            old(self)@.phase == Phase::AwaitStateDir,
        ensures
            (final(self)@, r@) == next(old(self)@, Reply::Done(ok)@),
            wf(final(self)@),
    {
        let sd = if ok {
            app_state_dir(&self.env.home, &self.env.user_profile, self.env.windows)
        } else {
            None
        };
        let sp = state_file_path(&sd, self.env.windows);
        self.state_dir = sd;
        match sp {
            Some(p) => {
                self.state_path = Some(copy_str(&p));
                self.phase = Phase::AwaitStateLoad;
                Step { effects: no_effects(), request: Request::LoadState { path: p } }
            },
            None => {
                self.state_path = None;
                self.ctx.state = BackendState::empty();
                self.build_context(no_effects())
            },
        }
    }

    fn on_state(&mut self, st: Option<BackendState>) -> (r: Step)
        requires
            wf(old(self)@),
            old(self)@.phase == Phase::AwaitStateLoad || old(self)@.phase == Phase::AwaitClearState,
        ensures
            (final(self)@, r@) == next(old(self)@, Reply::State(st)@),
            wf(final(self)@),
    {
        match self.phase {
            Phase::AwaitStateLoad => {
                self.ctx.state = match st {
                    Some(x) => x,
                    None => BackendState::empty(),
                };
                self.build_context(no_effects())
            },
            _ => {
                let matches = match &st {
                    Some(x) => match &x.api_url {
                        Some(u) => crate::text::str_eq(u.as_str(), self.ctx.api_url.as_str()),
                        None => false,
                    },
                    None => false,
                };
                if matches {
                    let path = match &self.state_path {
                        Some(p) => copy_str(p),
                        None => String::new(),
                    };
                    self.finish(one_effect(Effect::RemoveFile { path }))
                } else {
                    self.finish(no_effects())
                }
            },
        }
    }

    fn on_paths(&mut self, infos: Vec<PathInfo>) -> (r: Step)
        requires
            wf(old(self)@),
            fits(old(self)@, Reply::Paths(infos)@),
        ensures
            (final(self)@, r@) == next(old(self)@, Reply::Paths(infos)@),
            wf(final(self)@),
    {
        match self.phase {
            Phase::AwaitRootInfo => {
                let (cands, explicit) = app_root_candidates(
                    &self.cli.app_root,
                    &self.env.auto_mas_root,
                    &self.env.current_dir,
                    &self.env.exe_dirs,
                );
                match discover_app_root(cands, explicit, &infos) {
                    Err(e) => self.fail(no_effects(), e),
                    Ok(root) => {
                        self.ctx.app_root = root;
                        self.discover_python(no_effects())
                    },
                }
            },
            Phase::AwaitEmbeddedInfo => {
                let root = match &self.ctx.app_root {
                    Some(r) => copy_str(r),
                    None => String::new(),
                };
                let paths = embedded_check_paths(root.as_str(), self.env.windows);
                assert(views(paths@).len() == 6);
                assert(views(paths@).skip(1) =~= crate::runtime::embedded_candidates_spec(
                    crate::runtime::embedded_dir_spec(root@, self.env.windows),
                    self.env.windows,
                ));
                match resolve_python_from_embedded_dir(&paths, &infos) {
                    Some(p) => {
                        self.ctx.python_executable = Some(p);
                        self.execute(no_effects())
                    },
                    None => self.locate(false, no_effects()),
                }
            },
            _ => {
                let second = match self.phase {
                    Phase::AwaitLocatedInfo { second } => second,
                    _ => true,
                };
                if infos[0].is_file {
                    self.ctx.python_executable = copy_opt(&self.located);
                    self.execute(no_effects())
                } else if !second {
                    self.locate(true, no_effects())
                } else {
                    self.execute(no_effects())
                }
            },
        }
    }

    fn on_command(&mut self, c: Result<crate::runtime::CommandOutput, String>) -> (r: Step)
        requires
            wf(old(self)@),
            old(self)@.phase == Phase::AwaitAdminCheck || old(self)@.phase is AwaitLocate,
        ensures
            (final(self)@, r@) == next(old(self)@, Reply::Command(c)@),
            wf(final(self)@),
    {
        match self.phase {
            Phase::AwaitAdminCheck => {
                if is_windows_admin(&c) {
                    self.probe(Probe::Start, no_effects())
                } else {
                    self.phase = Phase::AwaitLaunchInfo;
                    Step { effects: no_effects(), request: Request::LaunchInfo }
                }
            },
            _ => {
                let second = match self.phase {
                    Phase::AwaitLocate { second } => second,
                    _ => true,
                };
                let found = match &c {
                    Ok(o) => located_path(o),
                    Err(_) => None,
                };
                match found {
                    Some(p) => {
                        let mut paths: Vec<String> = Vec::new();
                        paths.push(copy_str(&p));
                        assert(views(paths@) =~= seq![p@]);
                        self.located = Some(p);
                        self.phase = Phase::AwaitLocatedInfo { second };
                        Step { effects: no_effects(), request: Request::Inspect { paths } }
                    },
                    None => if !second {
                        self.locate(true, no_effects())
                    } else {
                        self.execute(no_effects())
                    },
                }
            },
        }
    }

    fn on_http(&mut self, o: HttpOutcome) -> (r: Step)
        requires
            wf(old(self)@),
            old(self)@.phase is AwaitProbe || old(self)@.phase == Phase::AwaitStopClose
                || old(self)@.phase == Phase::AwaitQueueRequest || old(self)@.phase == Phase::AwaitQueueClose,
        ensures
            (final(self)@, r@) == next(old(self)@, Reply::Http(o)@),
            wf(final(self)@),
    {
        match self.phase {
            Phase::AwaitProbe { purpose } => self.on_probe(purpose, o),
            Phase::AwaitStopClose => match api_post_result(o) {
                Err(e) => self.fail(no_effects(), e),
                Ok(_) => {
                    let out = stop_output(self.cli.json, self.ctx.api_url.as_str(), self.ctx.is_local_api);
                    self.clear_state(one_effect(Effect::Print(out)))
                },
            },
            Phase::AwaitQueueRequest => match api_post_result(o) {
                Err(e) => self.fail(no_effects(), e),
                Ok(reply) => {
                    let out = self.queue_output(reply);
                    let fx = one_effect(Effect::Print(out));
                    if self.started_for_request && !self.cli.keep_backend {
                        let request = self.close_request();
                        self.phase = Phase::AwaitQueueClose;
                        Step { effects: fx, request }
                    } else {
                        self.finish(fx)
                    }
                },
            },
            _ => self.clear_state(no_effects()),
        }
    }

    fn on_launch(&mut self, info: crate::runtime::LaunchInfo) -> (r: Step)
        requires
            wf(old(self)@),
            old(self)@.phase == Phase::AwaitLaunchInfo,
        ensures
            (final(self)@, r@) == next(old(self)@, Reply::Launch(info)@),
            wf(final(self)@),
    {
        match relaunch_script(&info) {
            Err(e) => self.fail(no_effects(), e),
            Ok(script) => {
                self.phase = Phase::AwaitElevation;
                Step { effects: no_effects(), request: Request::Elevate { script } }
            },
        }
    }

    fn on_status(&mut self, st: Result<bool, String>) -> (r: Step)
        requires
            wf(old(self)@),
            old(self)@.phase == Phase::AwaitElevation,
        ensures
            (final(self)@, r@) == next(old(self)@, Reply::Status(st)@),
            wf(final(self)@),
    {
        match relaunch_self_as_admin(&st) {
            Err(e) => self.fail(no_effects(), e),
            Ok(()) => {
                let out = elevation_handoff_output(self.cli.json);
                let fx = self.start_report(out);
                self.after_start(fx, true)
            },
        }
    }

    fn on_spawned(&mut self, res: Result<u32, crate::runtime::SpawnFailure>) -> (r: Step)
        requires
            wf(old(self)@),
            old(self)@.phase == Phase::AwaitSpawn,
        ensures
            (final(self)@, r@) == next(old(self)@, Reply::Spawned(res)@),
            wf(final(self)@),
    {
        match res {
            Err(f) => {
                let root = match &self.ctx.app_root {
                    Some(r) => copy_str(r),
                    None => String::new(),
                };
                let python = match &self.ctx.python_executable {
                    Some(p) => copy_str(p),
                    None => String::new(),
                };
                let plan = spawn_plan(&self.state_dir, python.as_str(), root.as_str(), self.env.windows);
                let e = spawn_backend_daemon(&f, &plan);
                self.fail(no_effects(), e)
            },
            Ok(pid) => {
                self.pid = Some(pid);
                self.probe(Probe::Ready { attempt: 0, limit: 30, after_handoff: false }, no_effects())
            },
        }
    }

    fn queue_output(&self, reply: Json) -> (o: Output)
        ensures
            o@ == queue_output_spec(self.cli@, reply@),
    {
        match &self.cli.command {
            RootCommand::Queue { command: QueueCommand::Start { queue_id, mode } } => queue_start_output(
                self.cli.json,
                reply,
                queue_id.as_str(),
                mode.as_str(),
            ),
            _ => if self.cli.json {
                Output::Json(reply)
            } else {
                Output::Lines(print_queue_table(&reply))
            },
        }
    }
}

} // verus!
