use vstd::prelude::*;
use crate::api::{HttpOutcome, HttpOutcomeView};
use crate::context::{BackendState, BackendStateView, Cli, CliView, RuntimeContext, ContextView};
use crate::json::{Json, JsonView};
use crate::output::{Output, OutputView};
use crate::runtime::{CommandOutput, LaunchInfo, PathInfo, SpawnFailure, SpawnFailureView, SpawnPlan};
use crate::text::{opt_view, views};

verus! {

/// What the process reads of its surroundings when it starts.
pub struct Environment {
    pub windows: bool,
    pub home: Option<String>,
    pub user_profile: Option<String>,
    pub auto_mas_root: Option<String>,
    pub auto_mas_python: Option<String>,
    pub current_dir: Option<String>,
    /// The directory of the executable, then its parent, as far as they exist.
    pub exe_dirs: Vec<String>,
}

pub struct EnvironmentView {
    pub windows: bool,
    pub home: Option<Seq<char>>,
    pub user_profile: Option<Seq<char>>,
    pub auto_mas_root: Option<Seq<char>>,
    pub auto_mas_python: Option<Seq<char>>,
    pub current_dir: Option<Seq<char>>,
    pub exe_dirs: Seq<Seq<char>>,
}

impl View for Environment {
    type V = EnvironmentView;

    open spec fn view(&self) -> EnvironmentView {
        EnvironmentView {
            windows: self.windows,
            home: opt_view(self.home),
            user_profile: opt_view(self.user_profile),
            auto_mas_root: opt_view(self.auto_mas_root),
            auto_mas_python: opt_view(self.auto_mas_python),
            current_dir: opt_view(self.current_dir),
            exe_dirs: views(self.exe_dirs@),
        }
    }
}

pub struct SpawnPlanView {
    pub python: Seq<char>,
    pub app_root: Seq<char>,
    pub log_dir: Seq<char>,
    pub stdout_log: Seq<char>,
    pub stderr_log: Seq<char>,
}

impl View for SpawnPlan {
    type V = SpawnPlanView;

    open spec fn view(&self) -> SpawnPlanView {
        SpawnPlanView {
            python: self.python@,
            app_root: self.app_root@,
            log_dir: self.log_dir@,
            stdout_log: self.stdout_log@,
            stderr_log: self.stderr_log@,
        }
    }
}

/// Work whose result the session does not need.
pub enum Effect {
    /// Print the start-up banner.
    Banner,
    /// Print an output.
    Print(Output),
    /// Wait.
    Sleep { millis: u64 },
    /// Write the state file (failures are ignored).
    SaveState { path: String, state: BackendState },
    /// Delete a file (failures are ignored).
    RemoveFile { path: String },
}

pub enum EffectView {
    Banner,
    Print(OutputView),
    Sleep { millis: u64 },
    SaveState { path: Seq<char>, state: BackendStateView },
    RemoveFile { path: Seq<char> },
}

impl View for Effect {
    type V = EffectView;

    open spec fn view(&self) -> EffectView {
        match self {
            Effect::Banner => EffectView::Banner,
            Effect::Print(o) => EffectView::Print(o@),
            Effect::Sleep { millis } => EffectView::Sleep { millis: *millis },
            Effect::SaveState { path, state } => EffectView::SaveState { path: path@, state: state@ },
            Effect::RemoveFile { path } => EffectView::RemoveFile { path: path@ },
        }
    }
}

/// Work whose result the session waits for, with the reply it expects.
pub enum Request {
    /// Read the [`Environment`]; reply [`Reply::Environment`].
    Environment,
    /// Create a directory and its parents; reply [`Reply::Done`].
    CreateDir { path: String },
    /// Read and parse the state file; reply [`Reply::State`].
    LoadState { path: String },
    /// Inspect paths; reply [`Reply::Paths`], one entry per path.
    Inspect { paths: Vec<String> },
    /// Run `program name` to find a command on `PATH`; reply [`Reply::Command`].
    Locate { program: String, name: String },
    /// POST `body` as JSON to `url` with a five-second timeout; reply [`Reply::Http`].
    Http { url: String, body: Json },
    /// Run a PowerShell command; reply [`Reply::Command`].
    Powershell { script: String },
    /// Read the current executable, directory and arguments; reply [`Reply::Launch`].
    LaunchInfo,
    /// Run a PowerShell command that starts the elevated process; reply [`Reply::Status`].
    Elevate { script: String },
    /// Start the backend, detached; reply [`Reply::Spawned`].
    Spawn { plan: SpawnPlan },
    /// End the process with this exit code.
    Exit { code: i32 },
}

pub enum RequestView {
    Environment,
    CreateDir { path: Seq<char> },
    LoadState { path: Seq<char> },
    Inspect { paths: Seq<Seq<char>> },
    Locate { program: Seq<char>, name: Seq<char> },
    Http { url: Seq<char>, body: JsonView },
    Powershell { script: Seq<char> },
    LaunchInfo,
    Elevate { script: Seq<char> },
    Spawn { plan: SpawnPlanView },
    Exit { code: i32 },
}

impl View for Request {
    type V = RequestView;

    open spec fn view(&self) -> RequestView {
        match self {
            Request::Environment => RequestView::Environment,
            Request::CreateDir { path } => RequestView::CreateDir { path: path@ },
            Request::LoadState { path } => RequestView::LoadState { path: path@ },
            Request::Inspect { paths } => RequestView::Inspect { paths: views(paths@) },
            Request::Locate { program, name } => RequestView::Locate { program: program@, name: name@ },
            Request::Http { url, body } => RequestView::Http { url: url@, body: body@ },
            Request::Powershell { script } => RequestView::Powershell { script: script@ },
            Request::LaunchInfo => RequestView::LaunchInfo,
            Request::Elevate { script } => RequestView::Elevate { script: script@ },
            Request::Spawn { plan } => RequestView::Spawn { plan: plan@ },
            Request::Exit { code } => RequestView::Exit { code: *code },
        }
    }
}

/// What the session asks for next: effects to carry out in order, then one request.
pub struct Step {
    pub effects: Vec<Effect>,
    pub request: Request,
}

pub struct StepView {
    pub effects: Seq<EffectView>,
    pub request: RequestView,
}

pub open spec fn effect_views(e: Seq<Effect>) -> Seq<EffectView> {
    e.map_values(|x: Effect| x@)
}

impl View for Step {
    type V = StepView;

    open spec fn view(&self) -> StepView {
        StepView { effects: effect_views(self.effects@), request: self.request@ }
    }
}

pub struct CommandOutputView {
    pub success: bool,
    pub stdout: Seq<char>,
    pub stderr: Seq<char>,
}

pub struct LaunchInfoView {
    pub current_exe: Result<Seq<char>, Seq<char>>,
    pub current_dir: Result<Seq<char>, Seq<char>>,
    pub args: Seq<Seq<char>>,
}

/// The answer to a [`Request`].
pub enum Reply {
    Environment(Environment),
    Done(bool),
    State(Option<BackendState>),
    Paths(Vec<PathInfo>),
    /// The command's output, or why it could not be run.
    Command(Result<CommandOutput, String>),
    Http(HttpOutcome),
    Launch(LaunchInfo),
    /// Whether the command exited successfully, or why it could not be run.
    Status(Result<bool, String>),
    /// The process id, or why the backend could not be started.
    Spawned(Result<u32, SpawnFailure>),
}

pub enum ReplyView {
    Environment(EnvironmentView),
    Done(bool),
    State(Option<BackendStateView>),
    Paths(Seq<PathInfo>),
    Command(Result<CommandOutputView, Seq<char>>),
    Http(HttpOutcomeView),
    Launch(LaunchInfoView),
    Status(Result<bool, Seq<char>>),
    Spawned(Result<u32, SpawnFailureView>),
}

impl View for Reply {
    type V = ReplyView;

    open spec fn view(&self) -> ReplyView {
        match self {
            Reply::Environment(e) => ReplyView::Environment(e@),
            Reply::Done(b) => ReplyView::Done(*b),
            Reply::State(s) => ReplyView::State(
                match s {
                    Some(x) => Some(x@),
                    None => None,
                },
            ),
            Reply::Paths(p) => ReplyView::Paths(p@),
            Reply::Command(c) => ReplyView::Command(
                match c {
                    Ok(o) => Ok(CommandOutputView { success: o.success, stdout: o.stdout@, stderr: o.stderr@ }),
                    Err(e) => Err(e@),
                },
            ),
            Reply::Http(h) => ReplyView::Http(h@),
            Reply::Launch(l) => ReplyView::Launch(
                LaunchInfoView {
                    current_exe: crate::runtime::str_str_view(l.current_exe),
                    current_dir: crate::runtime::str_str_view(l.current_dir),
                    args: views(l.args@),
                },
            ),
            Reply::Status(s) => ReplyView::Status(crate::runtime::bool_str_view(*s)),
            Reply::Spawned(s) => ReplyView::Spawned(
                match s {
                    Ok(pid) => Ok(*pid),
                    Err(f) => Err(f@),
                },
            ),
        }
    }
}

/// Why the backend is being probed.
#[derive(Clone, Copy, PartialEq, Eq, Structural, Debug)]
pub enum Probe {
    /// `backend status`.
    Status,
    /// `backend stop`, before asking the backend to close.
    Stop,
    /// `backend start`, before starting anything.
    Start,
    /// A queue command, before its request.
    Queue,
    /// Waiting for a backend to come up: this is try `attempt` (from 0) of `limit`;
    /// `after_handoff` when it is the elevated process that starts it.
    Ready { attempt: u32, limit: u32, after_handoff: bool },
}

/// What the session waits for.
#[derive(Clone, Copy, PartialEq, Eq, Structural, Debug)]
pub enum Phase {
    AwaitEnvironment,
    AwaitStateDir,
    AwaitStateLoad,
    AwaitRootInfo,
    AwaitEmbeddedInfo,
    AwaitLocate { second: bool },
    AwaitLocatedInfo { second: bool },
    AwaitProbe { purpose: Probe },
    AwaitAdminCheck,
    AwaitLaunchInfo,
    AwaitElevation,
    AwaitSpawn,
    AwaitStopClose,
    AwaitQueueRequest,
    AwaitQueueClose,
    AwaitClearState,
    Finished,
}

/// One run of the CLI, driven step by step: the session decides, the caller
/// carries out each [`Step`] and answers its request.
pub struct Session {
    pub cli: Cli,
    pub env: Environment,
    pub state_dir: Option<String>,
    pub state_path: Option<String>,
    pub ctx: RuntimeContext,
    pub located: Option<String>,
    pub via_queue: bool,
    pub started_for_request: bool,
    pub pid: Option<u32>,
    pub phase: Phase,
}

pub struct SessionView {
    pub cli: CliView,
    pub env: EnvironmentView,
    pub state_dir: Option<Seq<char>>,
    pub state_path: Option<Seq<char>>,
    pub ctx: ContextView,
    pub located: Option<Seq<char>>,
    pub via_queue: bool,
    pub started_for_request: bool,
    pub pid: Option<u32>,
    pub phase: Phase,
}

impl View for Session {
    type V = SessionView;

    open spec fn view(&self) -> SessionView {
        SessionView {
            cli: self.cli@,
            env: self.env@,
            state_dir: opt_view(self.state_dir),
            state_path: opt_view(self.state_path),
            ctx: self.ctx@,
            located: opt_view(self.located),
            via_queue: self.via_queue,
            started_for_request: self.started_for_request,
            pid: self.pid,
            phase: self.phase,
        }
    }
}

} // verus!
