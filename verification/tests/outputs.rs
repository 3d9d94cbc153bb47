use mas_cli::context::{BackendState, RuntimeContext};
use mas_cli::errors::{cli_error_str, ErrorCategory};
use mas_cli::json::Json;
use mas_cli::output::{backend_ready_output, error_output, status_output, stop_output, Output};
use mas_cli::updater::{check_update, expected_asset_name, is_newer_version, normalize_version, parse_version, Arch, ReleaseInfo};

fn ctx(local: bool) -> RuntimeContext {
    RuntimeContext {
        api_url: "http://127.0.0.1:36163".to_string(),
        app_root: Some("/opt/mas".to_string()),
        python_executable: Some("/usr/bin/python3".to_string()),
        is_local_api: local,
        state: BackendState {
            started_by_cli: false,
            tracked_pid: None,
            app_root: None,
            python_executable: None,
            api_url: None,
        },
    }
}

fn field<'a>(j: &'a Json, key: &str) -> &'a Json {
    match j {
        Json::Object(f) => &f.iter().find(|(k, _)| k == key).unwrap().1,
        _ => panic!("not an object"),
    }
}

#[test]
fn status_text_when_stopped() {
    match status_output(false, &ctx(true), false) {
        Output::Lines(l) => assert_eq!(l, vec!["backend: stopped", "message: 后端未运行", "apiUrl: http://127.0.0.1:36163"]),
        _ => panic!(),
    }
}

#[test]
fn status_text_when_running() {
    match status_output(false, &ctx(true), true) {
        Output::Lines(l) => assert_eq!(
            l,
            vec!["backend: running", "apiUrl: http://127.0.0.1:36163", "appRoot: /opt/mas", "python: /usr/bin/python3"]
        ),
        _ => panic!(),
    }
}

#[test]
fn status_json_for_remote_backend() {
    let mut c = ctx(false);
    c.api_url = "https://example.com".to_string();
    match status_output(true, &c, true) {
        Output::Json(j) => {
            assert!(matches!(field(&j, "code"), Json::Int(200)));
            assert!(matches!(field(&j, "message"), Json::Str(m) if m == "后端运行中"));
            let data = field(&j, "data");
            assert!(matches!(field(data, "ready"), Json::Bool(true)));
            assert!(matches!(field(data, "startedByCli"), Json::Null));
            assert!(matches!(field(data, "appRoot"), Json::Null));
            assert!(matches!(field(data, "apiUrl"), Json::Str(u) if u == "https://example.com"));
        }
        _ => panic!(),
    }
}

#[test]
fn ready_output_shows_pid() {
    match backend_ready_output(false, &ctx(true), Some(12345)) {
        Output::Lines(l) => assert_eq!(l.last().unwrap(), "pid: 12345"),
        _ => panic!(),
    }
    let mut started = ctx(true);
    started.state.started_by_cli = true;
    match backend_ready_output(true, &started, Some(7)) {
        Output::Json(j) => {
            assert!(matches!(field(&j, "message"), Json::Str(m) if m == "后端已就绪"));
            assert!(matches!(field(field(&j, "data"), "trackedPid"), Json::Int(7)));
            assert!(matches!(field(field(&j, "data"), "startedByCli"), Json::Bool(true)));
        }
        _ => panic!(),
    }
    match backend_ready_output(true, &ctx(true), None) {
        Output::Json(j) => assert!(matches!(field(field(&j, "data"), "startedByCli"), Json::Bool(false))),
        _ => panic!(),
    }
}

#[test]
fn stop_output_names_target() {
    match stop_output(false, "https://example.com", false) {
        Output::Lines(l) => assert_eq!(l, vec!["后端关闭请求已发送", "target: remote", "apiUrl: https://example.com"]),
        _ => panic!(),
    }
}

#[test]
fn cli_error_envelope() {
    let e = cli_error_str(ErrorCategory::BackendUnreachable, "后端未运行，无法执行命令");
    match error_output(true, e) {
        Output::Json(j) => {
            assert!(matches!(field(&j, "code"), Json::Int(500)));
            assert!(matches!(field(&j, "status"), Json::Str(s) if s == "error"));
            assert!(matches!(field(&j, "source"), Json::Str(s) if s == "cli"));
            assert!(matches!(field(&j, "category"), Json::Str(s) if s == "backend_unreachable"));
            match &j {
                Json::Object(f) => assert!(f.iter().all(|(k, _)| k != "data")),
                _ => panic!(),
            }
        }
        _ => panic!(),
    }
    let e = cli_error_str(ErrorCategory::BackendUnreachable, "x");
    match error_output(false, e) {
        Output::ErrorLine(l) => assert_eq!(l, "错误: x"),
        _ => panic!(),
    }
}

#[test]
fn versions() {
    assert_eq!(normalize_version("v1.2.3"), "1.2.3");
    assert_eq!(parse_version("1.2.3-beta.4"), (1, 2, 3));
    assert_eq!(parse_version("2.x"), (2, 0, 0));
    assert_eq!(parse_version(""), (0, 0, 0));
    assert!(is_newer_version("1.10.0", "1.9.9"));
    assert!(!is_newer_version("1.2.3", "1.2.3"));
    assert!(!is_newer_version("1.2.3-rc", "1.2.3"));
}

#[test]
fn update_check_of_release() {
    let release = ReleaseInfo { tag_name: "v0.2.0".to_string(), html_url: None, assets: Vec::new() };
    let c = check_update("0.1.0", &release);
    assert!(c.has_update);
    assert_eq!(c.latest_version, "0.2.0");
    let c = check_update("0.2.0", &release);
    assert!(!c.has_update);
}

#[test]
fn asset_names() {
    assert_eq!(expected_asset_name(true, Arch::X86_64).unwrap(), "mas-x86_64-pc-windows-msvc.exe");
    assert_eq!(expected_asset_name(true, Arch::X86).unwrap(), "mas-i686-pc-windows-msvc.exe");
    assert_eq!(expected_asset_name(false, Arch::X86_64).unwrap_err().message, "当前仅支持 Windows 更新包");
    assert_eq!(expected_asset_name(true, Arch::Other).unwrap_err().message, "当前架构暂不支持自动更新");
}
