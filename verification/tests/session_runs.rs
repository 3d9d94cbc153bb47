use mas_cli::api::HttpOutcome;
use mas_cli::context::{BackendCommand, BackendState, Cli, QueueCommand, RootCommand};
use mas_cli::json::Json;
use mas_cli::machine::run;
use mas_cli::output::Output;
use mas_cli::runtime::{CommandOutput, LaunchInfo, PathInfo};
use mas_cli::session::{Effect, Environment, Reply, Request, Session, Step};

fn cli(command: RootCommand, api_url: &str, json: bool) -> Cli {
    Cli {
        api_url: api_url.to_string(),
        app_root: None,
        python_exe: None,
        json,
        no_auto_start: false,
        keep_backend: false,
        elevated: false,
        command,
    }
}

fn env(windows: bool) -> Environment {
    Environment {
        windows,
        home: Some("/home/u".to_string()),
        user_profile: None,
        auto_mas_root: None,
        auto_mas_python: None,
        current_dir: Some("/work".to_string()),
        exe_dirs: vec!["/opt/mas/bin".to_string(), "/opt/mas".to_string()],
    }
}

const LOCAL: &str = "http://127.0.0.1:36163";

fn file() -> PathInfo {
    PathInfo { exists: true, is_file: true, is_dir: false }
}

fn dir() -> PathInfo {
    PathInfo { exists: true, is_file: false, is_dir: true }
}

fn missing() -> PathInfo {
    PathInfo { exists: false, is_file: false, is_dir: false }
}

fn up() -> HttpOutcome {
    HttpOutcome::Response {
        status: 200,
        text: "{}".to_string(),
        body: Some(Json::Object(vec![("code".to_string(), Json::Int(200))])),
    }
}

fn feed(s: &mut Session, r: Reply) -> Step {
    assert!(s.accepts(&r), "reply does not fit {:?}", s.phase);
    s.step(r)
}

/// Runs the start-up until the command's first request, with the application
/// root at `/opt/mas` (the last candidate) and `python3` found on `PATH`.
fn boot(c: Cli, windows: bool) -> (Session, Step) {
    let (mut s, first) = run(c);
    assert!(matches!(first.request, Request::Environment));
    let st = feed(&mut s, Reply::Environment(env(windows)));
    match &st.request {
        Request::CreateDir { path } => assert_eq!(path, "/home/u/.auto-mas-cli"),
        r => panic!("{:?}", r_name(r)),
    }
    let st = feed(&mut s, Reply::Done(true));
    match &st.request {
        Request::LoadState { path } => assert_eq!(path, "/home/u/.auto-mas-cli/state.json"),
        r => panic!("{:?}", r_name(r)),
    }
    let st = feed(&mut s, Reply::State(None));
    if !s.ctx.is_local_api {
        return (s, st);
    }
    let paths = match &st.request {
        Request::Inspect { paths } => paths.clone(),
        r => panic!("{:?}", r_name(r)),
    };
    assert_eq!(paths.len(), 9);
    assert_eq!(paths[6], "/opt/mas/main.py");
    let mut infos = vec![missing(); 6];
    infos.extend([file(), dir(), file()]);
    let st = feed(&mut s, Reply::Paths(infos));
    assert_eq!(s.ctx.app_root.as_deref(), Some("/opt/mas"));
    match &st.request {
        Request::Inspect { paths } => {
            assert_eq!(paths[0], "/opt/mas/environment/python");
            assert_eq!(paths[3], "/opt/mas/environment/python/bin/python");
        }
        r => panic!("{:?}", r_name(r)),
    }
    let st = feed(&mut s, Reply::Paths(vec![missing(); 6]));
    match &st.request {
        Request::Locate { program, name } => {
            assert_eq!(program, "which");
            assert_eq!(name, "python3");
        }
        r => panic!("{:?}", r_name(r)),
    }
    let st = feed(
        &mut s,
        Reply::Command(Ok(CommandOutput { success: true, stdout: "\n /usr/bin/python3 \n".to_string(), stderr: String::new() })),
    );
    match &st.request {
        Request::Inspect { paths } => assert_eq!(paths, &vec!["/usr/bin/python3".to_string()]),
        r => panic!("{:?}", r_name(r)),
    }
    let st = feed(&mut s, Reply::Paths(vec![file()]));
    assert_eq!(s.ctx.python_executable.as_deref(), Some("/usr/bin/python3"));
    (s, st)
}

fn r_name(r: &Request) -> &'static str {
    match r {
        Request::Environment => "Environment",
        Request::CreateDir { .. } => "CreateDir",
        Request::LoadState { .. } => "LoadState",
        Request::Inspect { .. } => "Inspect",
        Request::Locate { .. } => "Locate",
        Request::Http { .. } => "Http",
        Request::Powershell { .. } => "Powershell",
        Request::LaunchInfo => "LaunchInfo",
        Request::Elevate { .. } => "Elevate",
        Request::Spawn { .. } => "Spawn",
        Request::Exit { .. } => "Exit",
    }
}

fn http_url(st: &Step) -> String {
    match &st.request {
        Request::Http { url, .. } => url.clone(),
        r => panic!("{:?}", r_name(r)),
    }
}

fn exit_code(st: &Step) -> i32 {
    match &st.request {
        Request::Exit { code } => *code,
        r => panic!("{:?}", r_name(r)),
    }
}

#[test]
fn status_of_stopped_backend_exits_zero() {
    let c = cli(RootCommand::Backend { command: BackendCommand::Status }, LOCAL, false);
    let (mut s, st) = boot(c, false);
    assert_eq!(http_url(&st), "http://127.0.0.1:36163/api/info/version");
    let st = feed(&mut s, Reply::Http(HttpOutcome::SendError));
    assert_eq!(exit_code(&st), 0);
    match &st.effects[..] {
        [Effect::Print(Output::Lines(l))] => assert_eq!(l[0], "backend: stopped"),
        _ => panic!(),
    }
}

#[test]
fn text_mode_starts_with_banner_and_json_mode_does_not() {
    let (_, first) = run(cli(RootCommand::Backend { command: BackendCommand::Status }, LOCAL, false));
    assert!(matches!(first.effects[..], [Effect::Banner]));
    let (_, first) = run(cli(RootCommand::Backend { command: BackendCommand::Status }, LOCAL, true));
    assert!(first.effects.is_empty());
}

#[test]
fn queue_list_starts_backend_then_closes_it() {
    let c = cli(RootCommand::Queue { command: QueueCommand::List }, LOCAL, true);
    let (mut s, st) = boot(c, false);
    assert_eq!(http_url(&st), "http://127.0.0.1:36163/api/info/version");
    let st = feed(&mut s, Reply::Http(HttpOutcome::SendError));
    assert_eq!(http_url(&st), "http://127.0.0.1:36163/api/info/version");
    let st = feed(&mut s, Reply::Http(HttpOutcome::SendError));
    match &st.request {
        Request::Spawn { plan } => {
            assert_eq!(plan.python, "/usr/bin/python3");
            assert_eq!(plan.app_root, "/opt/mas");
            assert_eq!(plan.stdout_log, "/home/u/.auto-mas-cli/backend.stdout.log");
        }
        r => panic!("{:?}", r_name(r)),
    }
    let st = feed(&mut s, Reply::Spawned(Ok(4242)));
    assert_eq!(http_url(&st), "http://127.0.0.1:36163/api/info/version");
    let st = feed(&mut s, Reply::Http(HttpOutcome::SendError));
    assert!(matches!(st.effects[..], [Effect::Sleep { millis: 500 }]));
    let st = feed(&mut s, Reply::Http(up()));
    match &st.effects[..] {
        [Effect::SaveState { path, state }] => {
            assert_eq!(path, "/home/u/.auto-mas-cli/state.json");
            assert!(state.started_by_cli);
            assert_eq!(state.tracked_pid, Some(4242));
            assert_eq!(state.api_url.as_deref(), Some(LOCAL));
        }
        _ => panic!("{:?}", st.effects.len()),
    }
    assert_eq!(http_url(&st), "http://127.0.0.1:36163/api/queue/get");
    let st = feed(&mut s, Reply::Http(up()));
    assert!(matches!(st.effects[..], [Effect::Print(Output::Json(_))]));
    assert_eq!(http_url(&st), "http://127.0.0.1:36163/api/core/close");
    let st = feed(&mut s, Reply::Http(HttpOutcome::SendError));
    assert!(matches!(st.request, Request::LoadState { .. }));
    let saved = BackendState {
        started_by_cli: true,
        tracked_pid: Some(4242),
        app_root: None,
        python_executable: None,
        api_url: Some(LOCAL.to_string()),
    };
    let st = feed(&mut s, Reply::State(Some(saved)));
    assert!(matches!(&st.effects[..], [Effect::RemoveFile { path }] if path == "/home/u/.auto-mas-cli/state.json"));
    assert_eq!(exit_code(&st), 0);
}

#[test]
fn keep_backend_leaves_it_running() {
    let mut c = cli(RootCommand::Queue { command: QueueCommand::Start { queue_id: "q1".to_string(), mode: "AutoProxy".to_string() } }, LOCAL, false);
    c.keep_backend = true;
    let (mut s, _) = boot(c, false);
    let _ = feed(&mut s, Reply::Http(HttpOutcome::SendError));
    let _ = feed(&mut s, Reply::Http(HttpOutcome::SendError));
    let _ = feed(&mut s, Reply::Spawned(Ok(1)));
    let st = feed(&mut s, Reply::Http(up()));
    assert_eq!(http_url(&st), "http://127.0.0.1:36163/api/dispatch/start");
    match &st.request {
        Request::Http { body: Json::Object(f), .. } => {
            assert_eq!(f[0].0, "mode");
            assert_eq!(f[1].0, "taskId");
        }
        _ => panic!(),
    }
    let st = feed(&mut s, Reply::Http(up()));
    match &st.effects[..] {
        [Effect::Print(Output::Lines(l))] => assert_eq!(l, &vec!["queue start accepted", "queueId: q1", "mode: AutoProxy"]),
        _ => panic!(),
    }
    assert_eq!(exit_code(&st), 0);
}

#[test]
fn no_auto_start_fails_without_starting() {
    let mut c = cli(RootCommand::Queue { command: QueueCommand::List }, LOCAL, true);
    c.no_auto_start = true;
    let (mut s, _) = boot(c, false);
    let st = feed(&mut s, Reply::Http(HttpOutcome::SendError));
    assert_eq!(exit_code(&st), 1);
    assert!(matches!(st.effects[..], [Effect::Print(Output::Json(_))]));
}

#[test]
fn remote_backend_cannot_be_started() {
    let c = cli(RootCommand::Backend { command: BackendCommand::Start }, "https://example.com", false);
    let (_, st) = boot(c, false);
    assert_eq!(exit_code(&st), 1);
    match &st.effects[..] {
        [Effect::Print(Output::ErrorLine(l))] => assert_eq!(l, "错误: 远端 apiUrl 不支持 backend start"),
        _ => panic!(),
    }
}

#[test]
fn remote_backend_can_be_stopped() {
    let c = cli(RootCommand::Backend { command: BackendCommand::Stop }, "https://example.com/", false);
    let (mut s, st) = boot(c, false);
    assert_eq!(http_url(&st), "https://example.com/api/info/version");
    let st = feed(&mut s, Reply::Http(up()));
    assert_eq!(http_url(&st), "https://example.com/api/core/close");
    let st = feed(&mut s, Reply::Http(up()));
    match &st.effects[..] {
        [Effect::Print(Output::Lines(l))] => assert_eq!(l[1], "target: remote"),
        _ => panic!(),
    }
    let st = feed(&mut s, Reply::State(None));
    assert_eq!(exit_code(&st), 0);
}

#[test]
fn stop_of_stopped_backend_fails() {
    let c = cli(RootCommand::Backend { command: BackendCommand::Stop }, LOCAL, false);
    let (mut s, _) = boot(c, false);
    let st = feed(&mut s, Reply::Http(HttpOutcome::SendError));
    assert_eq!(exit_code(&st), 1);
}

#[test]
fn start_of_running_backend_is_idempotent() {
    let c = cli(RootCommand::Backend { command: BackendCommand::Start }, LOCAL, false);
    let (mut s, _) = boot(c, false);
    let st = feed(&mut s, Reply::Http(up()));
    assert_eq!(exit_code(&st), 0);
    assert!(matches!(&st.effects[..], [Effect::Print(Output::Lines(l))] if l[0] == "backend: running"));
}

#[test]
fn start_times_out_after_thirty_probes() {
    let c = cli(RootCommand::Backend { command: BackendCommand::Start }, LOCAL, false);
    let (mut s, _) = boot(c, false);
    let _ = feed(&mut s, Reply::Http(HttpOutcome::SendError));
    let mut st = feed(&mut s, Reply::Spawned(Ok(9)));
    let mut probes = 0;
    while matches!(st.request, Request::Http { .. }) {
        probes += 1;
        st = feed(&mut s, Reply::Http(HttpOutcome::SendError));
    }
    assert_eq!(probes, 30);
    assert_eq!(exit_code(&st), 1);
    match &st.effects[..] {
        [Effect::Sleep { millis: 500 }, Effect::Print(Output::ErrorLine(l))] => assert_eq!(l, "错误: 后端启动超时，探活未通过"),
        _ => panic!(),
    }
}

#[test]
fn windows_start_hands_off_to_elevated_process() {
    let mut c = cli(RootCommand::Backend { command: BackendCommand::Start }, LOCAL, false);
    c.app_root = Some("C:\\mas".to_string());
    c.python_exe = Some("C:\\py\\python.exe".to_string());
    let (mut s, _) = run(c);
    let mut e = env(true);
    e.home = None;
    e.user_profile = Some("C:\\Users\\u".to_string());
    let st = feed(&mut s, Reply::Environment(e));
    assert!(matches!(&st.request, Request::CreateDir { path } if path == "C:\\Users\\u\\.auto-mas-cli"));
    let _ = feed(&mut s, Reply::Done(false));
    assert!(s.state_path.is_none());
    let st = &s;
    assert!(st.ctx.is_local_api);
    let st = feed(&mut s, Reply::Paths(vec![file(), dir(), file()]));
    assert!(matches!(&st.request, Request::Powershell { .. }));
    let st = feed(&mut s, Reply::Command(Ok(CommandOutput { success: true, stdout: "False\r\n".to_string(), stderr: String::new() })));
    assert!(matches!(st.request, Request::LaunchInfo));
    let info = LaunchInfo {
        current_exe: Ok("C:\\bin\\mas.exe".to_string()),
        current_dir: Ok("C:\\it's".to_string()),
        args: vec!["mas".to_string(), "backend".to_string(), "--elevated".to_string(), "start".to_string()],
    };
    let st = feed(&mut s, Reply::Launch(info));
    match &st.request {
        Request::Elevate { script } => assert_eq!(
            script,
            "Start-Process -FilePath 'C:\\bin\\mas.exe' -ArgumentList @('backend','start','--elevated') -WorkingDirectory 'C:\\it''s' -Verb RunAs"
        ),
        r => panic!("{:?}", r_name(r)),
    }
    let st = feed(&mut s, Reply::Status(Ok(true)));
    assert_eq!(exit_code(&st), 0);
    assert!(matches!(&st.effects[..], [Effect::Print(Output::Lines(l))] if l[0] == "已请求管理员权限，命令将在提权后继续执行"));
}

#[test]
fn invalid_app_root_is_refused() {
    let mut c = cli(RootCommand::Backend { command: BackendCommand::Status }, LOCAL, true);
    c.app_root = Some("/nope".to_string());
    let (mut s, _) = run(c);
    let _ = feed(&mut s, Reply::Environment(env(false)));
    let _ = feed(&mut s, Reply::Done(true));
    let st = feed(&mut s, Reply::State(None));
    assert!(matches!(&st.request, Request::Inspect { paths } if paths.len() == 3));
    let st = feed(&mut s, Reply::Paths(vec![file(), missing(), file()]));
    assert_eq!(exit_code(&st), 1);
    match &st.effects[..] {
        [Effect::Print(Output::Json(Json::Object(f)))] => {
            assert!(matches!(&f[2].1, Json::Str(m) if m == "应用根目录不合法: /nope，要求包含 main.py、app/、requirements.txt"));
        }
        _ => panic!(),
    }
}

#[test]
fn backend_business_error_passes_through() {
    let start = QueueCommand::Start { queue_id: "q9".to_string(), mode: "AutoProxy".to_string() };
    let (mut s, _) = boot(cli(RootCommand::Queue { command: start }, LOCAL, true), false);
    let st = feed(&mut s, Reply::Http(up()));
    assert_eq!(http_url(&st), "http://127.0.0.1:36163/api/dispatch/start");
    let reply = || {
        Json::Object(vec![
            ("code".to_string(), Json::Int(500)),
            ("status".to_string(), Json::Str("error".to_string())),
            ("message".to_string(), Json::Str("队列不存在".to_string())),
        ])
    };
    let st = feed(&mut s, Reply::Http(HttpOutcome::Response { status: 200, text: String::new(), body: Some(reply()) }));
    assert_eq!(exit_code(&st), 1);
    match &st.effects[..] {
        [Effect::Print(Output::Json(Json::Object(f)))] => {
            assert_eq!(f.len(), 3);
            assert!(matches!(f[0].1, Json::Int(500)));
            assert!(matches!(&f[2].1, Json::Str(m) if m == "队列不存在"));
        }
        _ => panic!(),
    }

    let start = QueueCommand::Start { queue_id: "q9".to_string(), mode: "AutoProxy".to_string() };
    let (mut s, _) = boot(cli(RootCommand::Queue { command: start }, LOCAL, false), false);
    let _ = feed(&mut s, Reply::Http(up()));
    let st = feed(&mut s, Reply::Http(HttpOutcome::Response { status: 200, text: String::new(), body: Some(reply()) }));
    assert_eq!(exit_code(&st), 1);
    assert!(matches!(&st.effects[..], [Effect::Print(Output::ErrorLine(l))] if l == "错误: 队列不存在"));
}

#[test]
fn json_queue_run_prints_only_the_reply() {
    let c = cli(RootCommand::Queue { command: QueueCommand::List }, LOCAL, true);
    let (mut s, mut st) = boot(c, false);
    let mut printed = 0;
    let replies = vec![
        Reply::Http(HttpOutcome::SendError),
        Reply::Http(HttpOutcome::SendError),
        Reply::Spawned(Ok(7)),
        Reply::Http(up()),
        Reply::Http(up()),
        Reply::Http(up()),
        Reply::State(None),
    ];
    for r in replies {
        st = feed(&mut s, r);
        printed += st.effects.iter().filter(|e| matches!(e, Effect::Print(_))).count();
    }
    assert_eq!(exit_code(&st), 0);
    assert_eq!(printed, 1);
}

#[test]
fn start_of_running_backend_reports_saved_state() {
    let c = cli(RootCommand::Backend { command: BackendCommand::Start }, LOCAL, true);
    let (mut s, _) = boot(c, false);
    let st = feed(&mut s, Reply::Http(up()));
    assert_eq!(exit_code(&st), 0);
    match &st.effects[..] {
        [Effect::Print(Output::Json(Json::Object(f)))] => {
            let data = &f.iter().find(|(k, _)| k == "data").unwrap().1;
            match data {
                Json::Object(d) => {
                    assert!(matches!(d[0].1, Json::Bool(true)));
                    assert_eq!(d[1].0, "startedByCli");
                    assert!(matches!(d[1].1, Json::Bool(false)));
                }
                _ => panic!(),
            }
        }
        _ => panic!(),
    }
}
