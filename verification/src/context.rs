use vstd::prelude::*;

verus! {

/// `backend` subcommands.
#[derive(Clone, Copy, PartialEq, Eq, Structural, Debug)]
pub enum BackendCommand {
    Status,
    Start,
    Stop,
}

/// `queue` subcommands.
#[derive(Debug)]
pub enum QueueCommand {
    List,
    Start { queue_id: String, mode: String },
}

/// The command groups.
#[allow(inconsistent_fields)]
#[derive(Debug)]
pub enum RootCommand {
    Backend { command: BackendCommand },
    Queue { command: QueueCommand },
}

/// The parsed command line.
#[derive(Debug)]
pub struct Cli {
    pub api_url: String,
    pub app_root: Option<String>,
    pub python_exe: Option<String>,
    pub json: bool,
    pub no_auto_start: bool,
    pub keep_backend: bool,
    pub elevated: bool,
    pub command: RootCommand,
}

/// What the CLI remembers between runs about a backend it started.
#[derive(Debug)]
pub struct BackendState {
    pub started_by_cli: bool,
    pub tracked_pid: Option<u32>,
    pub app_root: Option<String>,
    pub python_executable: Option<String>,
    pub api_url: Option<String>,
}

impl BackendState {
    /// The state of a fresh install: nothing started, nothing tracked.
    pub fn empty() -> (s: BackendState)
        ensures
            !s.started_by_cli,
            s.tracked_pid is None,
            s.app_root is None,
            s.python_executable is None,
            s.api_url is None,
    {
        BackendState {
            started_by_cli: false,
            tracked_pid: None,
            app_root: None,
            python_executable: None,
            api_url: None,
        }
    }
}

/// Everything a command needs besides the command line.
#[derive(Debug)]
pub struct RuntimeContext {
    pub api_url: String,
    pub app_root: Option<String>,
    pub python_executable: Option<String>,
    pub is_local_api: bool,
    pub state: BackendState,
}

/// How `backend start` ended.
#[derive(Clone, Copy, PartialEq, Eq, Structural, Debug)]
pub enum StartOutcome {
    Ready,
    HandedOffToElevatedProcess,
}


/// A command, flattened.
pub enum CommandView {
    Status,
    Start,
    Stop,
    QueueList,
    QueueStart { queue_id: Seq<char>, mode: Seq<char> },
}

pub struct CliView {
    pub api_url: Seq<char>,
    pub app_root: Option<Seq<char>>,
    pub python_exe: Option<Seq<char>>,
    pub json: bool,
    pub no_auto_start: bool,
    pub keep_backend: bool,
    pub elevated: bool,
    pub command: CommandView,
}

impl View for RootCommand {
    type V = CommandView;

    open spec fn view(&self) -> CommandView {
        match self {
            RootCommand::Backend { command: BackendCommand::Status } => CommandView::Status,
            RootCommand::Backend { command: BackendCommand::Start } => CommandView::Start,
            RootCommand::Backend { command: BackendCommand::Stop } => CommandView::Stop,
            RootCommand::Queue { command: QueueCommand::List } => CommandView::QueueList,
            RootCommand::Queue { command: QueueCommand::Start { queue_id, mode } } => CommandView::QueueStart {
                queue_id: queue_id@,
                mode: mode@,
            },
        }
    }
}

impl View for Cli {
    type V = CliView;

    open spec fn view(&self) -> CliView {
        CliView {
            api_url: self.api_url@,
            app_root: crate::text::opt_view(self.app_root),
            python_exe: crate::text::opt_view(self.python_exe),
            json: self.json,
            no_auto_start: self.no_auto_start,
            keep_backend: self.keep_backend,
            elevated: self.elevated,
            command: self.command@,
        }
    }
}

pub struct BackendStateView {
    pub started_by_cli: bool,
    pub tracked_pid: Option<u32>,
    pub app_root: Option<Seq<char>>,
    pub python_executable: Option<Seq<char>>,
    pub api_url: Option<Seq<char>>,
}

impl View for BackendState {
    type V = BackendStateView;

    open spec fn view(&self) -> BackendStateView {
        BackendStateView {
            started_by_cli: self.started_by_cli,
            tracked_pid: self.tracked_pid,
            app_root: crate::text::opt_view(self.app_root),
            python_executable: crate::text::opt_view(self.python_executable),
            api_url: crate::text::opt_view(self.api_url),
        }
    }
}

pub open spec fn default_state_view() -> BackendStateView {
    BackendStateView {
        started_by_cli: false,
        tracked_pid: None,
        app_root: None,
        python_executable: None,
        api_url: None,
    }
}

impl Default for BackendState {
    fn default() -> (s: BackendState)
        ensures
            s@ == default_state_view(),
    {
        BackendState::empty()
    }
}

pub struct ContextView {
    pub api_url: Seq<char>,
    pub app_root: Option<Seq<char>>,
    pub python_executable: Option<Seq<char>>,
    pub is_local_api: bool,
    pub state: BackendStateView,
}

impl View for RuntimeContext {
    type V = ContextView;

    open spec fn view(&self) -> ContextView {
        ContextView {
            api_url: self.api_url@,
            app_root: crate::text::opt_view(self.app_root),
            python_executable: crate::text::opt_view(self.python_executable),
            is_local_api: self.is_local_api,
            state: self.state@,
        }
    }
}

} // verus!
