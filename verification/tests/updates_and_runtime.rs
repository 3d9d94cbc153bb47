use mas_cli::banner::{print_mas_cli_banner, should_use_color_output};
use mas_cli::errors::{cli_error_str, ErrorCategory, ErrorSource};
use mas_cli::installer::{
    ensure_windows, install_error, install_target, read_user_path, user_install_dir, write_user_path,
    write_user_path_result, InstallStep, RegisterResult,
};
use mas_cli::json::Json;
use mas_cli::runtime::{
    app_root_candidates, app_state_dir, candidates_check_paths, discover_app_root, embedded_check_paths,
    is_windows_admin, located_path, relaunch_script, relaunch_self_as_admin, resolve_python_from_embedded_dir,
    should_attempt_windows_elevation, spawn_backend_daemon, spawn_plan, state_file_path, validate_app_root,
    CommandOutput, LaunchInfo, PathInfo, SpawnFailure,
};
use mas_cli::updater::{
    apply_update, download_asset, fetch_latest_release, print_startup_update_hint, replace_script,
    schedule_windows_replace, update_applied, update_work_dir, Arch, FetchOutcome, ReleaseAsset, ReleaseInfo,
    ReplaceOutcome, UpdateApplyOutcome, UpdatePlan,
};

fn release(tag: &str, names: &[&str]) -> ReleaseInfo {
    ReleaseInfo {
        tag_name: tag.to_string(),
        html_url: Some("https://example.com/r".to_string()),
        assets: names
            .iter()
            .map(|n| ReleaseAsset { name: n.to_string(), browser_download_url: format!("https://dl/{}", n) })
            .collect(),
    }
}

fn out(success: bool, stdout: &str, stderr: &str) -> CommandOutput {
    CommandOutput { success, stdout: stdout.to_string(), stderr: stderr.to_string() }
}

const FILE: PathInfo = PathInfo { exists: true, is_file: true, is_dir: false };
const DIR: PathInfo = PathInfo { exists: true, is_file: false, is_dir: true };
const NONE: PathInfo = PathInfo { exists: false, is_file: false, is_dir: false };

#[test]
fn apply_update_when_current_is_latest() {
    let plan = apply_update("1.0.0", &release("v1.0.0", &[]), true, Arch::X86_64, &Some("C:\\s".to_string()));
    match plan {
        Ok(UpdatePlan::UpToDate(o)) => {
            assert_eq!(o.message, "当前已是最新版本: 1.0.0");
            assert!(!o.updated);
            assert_eq!(o.latest_version.as_deref(), Some("1.0.0"));
            assert!(o.next_step.is_none());
        }
        _ => panic!("expected up to date"),
    }
}

#[test]
fn apply_update_downloads_the_platform_package() {
    let r = release("v1.1.0", &["other.zip", "MAS-x86_64-pc-windows-msvc.exe"]);
    match apply_update("1.0.0", &r, true, Arch::X86_64, &Some("C:\\Users\\u\\.auto-mas-cli".to_string())) {
        Ok(UpdatePlan::Download { url, update_dir, target, script }) => {
            assert_eq!(url, "https://dl/MAS-x86_64-pc-windows-msvc.exe");
            assert_eq!(update_dir, "C:\\Users\\u\\.auto-mas-cli\\updates");
            assert_eq!(target, "C:\\Users\\u\\.auto-mas-cli\\updates\\MAS-x86_64-pc-windows-msvc.exe.download");
            assert_eq!(script, "C:\\Users\\u\\.auto-mas-cli\\updates\\MAS-x86_64-pc-windows-msvc.exe.replace.cmd");
        }
        _ => panic!("expected a download"),
    }
}

#[test]
fn apply_update_failures() {
    let r = release("v2.0.0", &["mas-i686-pc-windows-msvc.exe"]);
    let e = apply_update("1.0.0", &r, true, Arch::X86_64, &Some("C:\\s".to_string())).err().unwrap();
    assert_eq!(e.message, "未找到当前平台更新包: mas-x86_64-pc-windows-msvc.exe");
    assert_eq!(e.category, ErrorCategory::InvalidRuntimeConfiguration);
    let e = apply_update("1.0.0", &r, false, Arch::X86_64, &Some("/s".to_string())).err().unwrap();
    assert_eq!(e.message, "当前仅支持 Windows 更新包");
    let e = apply_update("1.0.0", &r, true, Arch::X86, &None).err().unwrap();
    assert_eq!(e.message, "无法解析本地状态目录");
}

#[test]
fn fetch_failures_name_their_cause() {
    let e = fetch_latest_release(FetchOutcome::ClientError("tls".to_string())).err().unwrap();
    assert_eq!(e.message, "创建更新 HTTP 客户端失败: tls");
    assert_eq!(e.category, ErrorCategory::InvalidRuntimeConfiguration);
    let e = fetch_latest_release(FetchOutcome::SendError("dns".to_string())).err().unwrap();
    assert_eq!(e.message, "拉取 Release 失败: dns");
    assert_eq!(e.category, ErrorCategory::BackendUnreachable);
    let e = fetch_latest_release(FetchOutcome::BadStatus("404 Not Found".to_string())).err().unwrap();
    assert_eq!(e.message, "GitHub Release 接口返回异常状态: 404 Not Found");
    assert_eq!(e.category, ErrorCategory::BackendBusinessError);
    let e = fetch_latest_release(FetchOutcome::BodyError("eof".to_string())).err().unwrap();
    assert_eq!(e.message, "解析 Release JSON 失败: eof");
    let ok = fetch_latest_release(FetchOutcome::Body(release("v3.0.0", &[]))).ok().unwrap();
    assert_eq!(ok.tag_name, "v3.0.0");
}

#[test]
fn download_failures_name_their_cause() {
    let e = download_asset(FetchOutcome::BadStatus("500".to_string())).err().unwrap();
    assert_eq!(e.message, "下载更新包失败，HTTP 状态: 500");
    let e = download_asset(FetchOutcome::SendError("reset".to_string())).err().unwrap();
    assert_eq!(e.message, "下载更新包失败: reset");
    let e = download_asset(FetchOutcome::Body(Err("disk full".to_string()))).err().unwrap();
    assert_eq!(e.message, "写入更新包失败: disk full");
    assert_eq!(e.category, ErrorCategory::InvalidRuntimeConfiguration);
    assert!(download_asset(FetchOutcome::Body(Ok(()))).is_ok());
}

#[test]
fn replacement_script_and_outcomes() {
    let s = replace_script("C:\\mas.exe", "C:\\u\\mas.exe.download");
    assert_eq!(
        s,
        "@echo off\r\nsetlocal\r\nset \"TARGET=C:\\mas.exe\"\r\nset \"SOURCE=C:\\u\\mas.exe.download\"\r\n:retry\r\ntimeout /t 1 /nobreak >nul\r\nmove /Y \"%SOURCE%\" \"%TARGET%\" >nul 2>nul\r\nif errorlevel 1 goto retry\r\ndel \"%~f0\" >nul 2>nul\r\n"
    );
    assert!(schedule_windows_replace(ReplaceOutcome::Started { success: true }).is_ok());
    let e = schedule_windows_replace(ReplaceOutcome::Started { success: false }).err().unwrap();
    assert_eq!(e.message, "更新替换脚本启动失败");
    assert_eq!(e.category, ErrorCategory::BackendStartupFailed);
    let e = schedule_windows_replace(ReplaceOutcome::WriteFailed("denied".to_string())).err().unwrap();
    assert_eq!(e.message, "写入更新替换脚本失败: denied");
    let e = schedule_windows_replace(ReplaceOutcome::StartFailed("no cmd".to_string())).err().unwrap();
    assert_eq!(e.message, "启动更新替换脚本失败: no cmd");
}

#[test]
fn applied_update_report() {
    let o = update_applied("v1.4.0", true).ok().unwrap();
    assert!(o.updated);
    assert_eq!(o.latest_version.as_deref(), Some("1.4.0"));
    assert_eq!(o.next_step.as_deref(), Some("退出后重新运行: mas"));
    match o.to_json() {
        Json::Object(f) => {
            let keys: Vec<&str> = f.iter().map(|(k, _)| k.as_str()).collect();
            assert_eq!(keys, vec!["updated", "latestVersion", "nextStep"]);
        }
        _ => panic!(),
    }
    let e = update_applied("v1.4.0", false).err().unwrap();
    assert_eq!(e.message, "当前仅支持 Windows 自动更新");
    let up = UpdateApplyOutcome { message: "m".to_string(), updated: false, latest_version: None, next_step: None };
    assert!(matches!(up.to_json(), Json::Object(f) if matches!(f[1].1, Json::Null)));
}

#[test]
fn start_up_hint_only_for_newer_releases() {
    let newer = mas_cli::updater::check_update("0.1.0", &release("v0.2.0", &[]));
    assert_eq!(
        print_startup_update_hint(&Ok(newer)),
        vec!["更新提示: 当前 0.1.0，最新 0.2.0".to_string(), "执行 `mas update apply` 进行更新".to_string(), String::new()]
    );
    let same = mas_cli::updater::check_update("0.2.0", &release("v0.2.0", &[]));
    assert!(print_startup_update_hint(&Ok(same)).is_empty());
    let failed = cli_error_str(ErrorCategory::BackendUnreachable, "x");
    assert!(print_startup_update_hint(&Err(failed)).is_empty());
}

#[test]
fn state_and_update_directories() {
    let home = Some("/home/u".to_string());
    assert_eq!(app_state_dir(&home, &None, false).as_deref(), Some("/home/u/.auto-mas-cli"));
    assert_eq!(
        app_state_dir(&None, &Some("C:\\Users\\u".to_string()), true).as_deref(),
        Some("C:\\Users\\u\\.auto-mas-cli")
    );
    assert_eq!(app_state_dir(&None, &None, false), None);
    assert_eq!(state_file_path(&Some("/s/".to_string()), false).as_deref(), Some("/s/state.json"));
    assert_eq!(update_work_dir(&Some("/s".to_string()), false).ok().as_deref(), Some("/s/updates"));
    assert_eq!(update_work_dir(&None, false).err().unwrap().message, "无法解析本地状态目录");
}

#[test]
fn app_root_discovery() {
    let (c, explicit) = app_root_candidates(&Some("/given".to_string()), &Some("/env".to_string()), &None, &vec![]);
    assert_eq!((c, explicit), (vec!["/given".to_string()], true));
    let (c, explicit) = app_root_candidates(&None, &Some("/env".to_string()), &Some("/cwd".to_string()), &vec![]);
    assert_eq!((c, explicit), (vec!["/env".to_string()], true));
    let exe_dirs = vec!["/opt/mas/bin".to_string(), "/opt/mas".to_string()];
    let (c, explicit) = app_root_candidates(&None, &None, &Some("/cwd".to_string()), &exe_dirs);
    assert!(!explicit);
    assert_eq!(c, vec!["/cwd", "/opt/mas/bin", "/opt/mas"]);
    let paths = candidates_check_paths(&c, false);
    assert_eq!(paths.len(), 9);
    assert_eq!(paths[6], "/opt/mas/main.py");
    assert_eq!(paths[7], "/opt/mas/app");
    assert_eq!(paths[8], "/opt/mas/requirements.txt");
    let infos = vec![NONE, NONE, NONE, FILE, FILE, FILE, FILE, DIR, FILE];
    assert_eq!(discover_app_root(c.clone(), false, &infos).ok().unwrap().as_deref(), Some("/opt/mas"));
    let none = vec![NONE; 9];
    assert_eq!(discover_app_root(c, false, &none).ok().unwrap(), None);
    let e = discover_app_root(vec!["/bad".to_string()], true, &vec![FILE, FILE, FILE]).err().unwrap();
    assert_eq!(e.message, "应用根目录不合法: /bad，要求包含 main.py、app/、requirements.txt");
    assert_eq!(validate_app_root("/ok".to_string(), true).ok().as_deref(), Some("/ok"));
}

#[test]
fn embedded_python_discovery() {
    let paths = embedded_check_paths("/opt/mas", false);
    assert_eq!(
        paths,
        vec![
            "/opt/mas/environment/python",
            "/opt/mas/environment/python/python.exe",
            "/opt/mas/environment/python/python3.exe",
            "/opt/mas/environment/python/bin/python",
            "/opt/mas/environment/python/bin/python3",
            "/opt/mas/environment/python",
        ]
    );
    let infos = vec![DIR, NONE, NONE, NONE, FILE, DIR];
    assert_eq!(
        resolve_python_from_embedded_dir(&paths, &infos).as_deref(),
        Some("/opt/mas/environment/python/bin/python3")
    );
    let missing = vec![NONE, FILE, FILE, FILE, FILE, FILE];
    assert_eq!(resolve_python_from_embedded_dir(&paths, &missing), None);
    let windows = embedded_check_paths("C:\\mas", true);
    assert_eq!(windows[1], "C:\\mas\\environment\\python\\python.exe");
}

#[test]
fn locating_commands_on_path() {
    assert_eq!(located_path(&out(true, "\n  /usr/bin/python3  \n/usr/local/bin/python3\n", "")).as_deref(), Some("/usr/bin/python3"));
    assert_eq!(located_path(&out(false, "/usr/bin/python3\n", "")), None);
    assert_eq!(located_path(&out(true, "  \n\n", "")), None);
}

#[test]
fn administrator_detection_and_relaunch() {
    assert!(is_windows_admin(&Ok(out(true, " True\r\n", ""))));
    assert!(!is_windows_admin(&Ok(out(true, "False", ""))));
    assert!(!is_windows_admin(&Ok(out(false, "True", ""))));
    assert!(!is_windows_admin(&Err("no powershell".to_string())));
    assert!(should_attempt_windows_elevation(true, false));
    assert!(!should_attempt_windows_elevation(true, true));
    assert!(!should_attempt_windows_elevation(false, false));

    let info = LaunchInfo {
        current_exe: Ok("C:\\Program Files\\mas.exe".to_string()),
        current_dir: Ok("C:\\it's".to_string()),
        args: vec!["mas.exe".to_string(), "backend".to_string(), "--elevated".to_string(), "start".to_string()],
    };
    assert_eq!(
        relaunch_script(&info).ok().unwrap(),
        "Start-Process -FilePath 'C:\\Program Files\\mas.exe' -ArgumentList @('backend','start','--elevated') -WorkingDirectory 'C:\\it''s' -Verb RunAs"
    );
    let bad = LaunchInfo { current_exe: Err("gone".to_string()), current_dir: Ok("C:\\".to_string()), args: vec![] };
    assert_eq!(relaunch_script(&bad).err().unwrap().message, "读取当前可执行文件路径失败: gone");
    let bad = LaunchInfo { current_exe: Ok("x".to_string()), current_dir: Err("gone".to_string()), args: vec![] };
    assert_eq!(relaunch_script(&bad).err().unwrap().message, "读取当前工作目录失败: gone");

    assert!(relaunch_self_as_admin(&Ok(true)).is_ok());
    let e = relaunch_self_as_admin(&Ok(false)).err().unwrap();
    assert_eq!(e.message, "用户取消了管理员权限请求或系统拒绝提权");
    assert_eq!(e.category, ErrorCategory::BackendStartupFailed);
    assert_eq!(relaunch_self_as_admin(&Err("denied".to_string())).err().unwrap().message, "请求管理员权限失败: denied");
}

#[test]
fn spawning_the_backend() {
    let plan = spawn_plan(&Some("/home/u/.auto-mas-cli".to_string()), "/usr/bin/python3", "/opt/mas", false);
    assert_eq!(plan.log_dir, "/home/u/.auto-mas-cli");
    assert_eq!(plan.stdout_log, "/home/u/.auto-mas-cli/backend.stdout.log");
    assert_eq!(plan.stderr_log, "/home/u/.auto-mas-cli/backend.stderr.log");
    let fallback = spawn_plan(&None, "py", "/opt/mas", false);
    assert_eq!(fallback.log_dir, "/opt/mas");
    let e = spawn_backend_daemon(&SpawnFailure::Spawn("not found".to_string()), &plan);
    assert_eq!(e.message, "启动后端进程失败: not found (python=/usr/bin/python3)");
    assert_eq!(e.category, ErrorCategory::BackendStartupFailed);
    assert_eq!(e.source, ErrorSource::Cli);
    let e = spawn_backend_daemon(&SpawnFailure::StdoutLog("denied".to_string()), &plan);
    assert_eq!(e.message, "打开后端 stdout 日志失败: denied (/home/u/.auto-mas-cli/backend.stdout.log)");
    let e = spawn_backend_daemon(&SpawnFailure::StderrLog("denied".to_string()), &plan);
    assert_eq!(e.message, "打开后端 stderr 日志失败: denied (/home/u/.auto-mas-cli/backend.stderr.log)");
}

#[test]
fn banner_lines() {
    let plain = print_mas_cli_banner(false);
    assert_eq!(plain.len(), 12);
    assert_eq!(plain[0], "");
    assert!(plain[1].starts_with(" █████"));
    assert_eq!(plain[7], "Tips for getting started:");
    assert_eq!(plain[10], "3. Type help for commands, exit to quit");
    let color = print_mas_cli_banner(true);
    assert_eq!(color.len(), 12);
    assert!(color[1].starts_with("\x1b[38;5;39m") && color[1].ends_with("\x1b[0m"));
    assert_eq!(color[7], "\x1b[38;5;246mTips for getting started:\x1b[0m");
    assert!(should_use_color_output(false, false, false, true));
    assert!(!should_use_color_output(true, false, true, true));
    assert!(!should_use_color_output(false, true, false, true));
    assert!(should_use_color_output(false, true, true, true));
    assert!(!should_use_color_output(false, false, true, false));
}

#[test]
fn installer_steps() {
    assert!(ensure_windows(true).is_ok());
    assert_eq!(ensure_windows(false).err().unwrap().message, "当前仅支持 Windows 系统命令注册");
    let dir = user_install_dir(&Some("C:\\Users\\u\\AppData\\Local".to_string()), true).ok().unwrap();
    assert_eq!(dir, "C:\\Users\\u\\AppData\\Local\\AUTO-MAS\\bin");
    assert_eq!(install_target(&dir, true), "C:\\Users\\u\\AppData\\Local\\AUTO-MAS\\bin\\mas.exe");
    assert_eq!(user_install_dir(&None, true).err().unwrap().message, "未检测到 LOCALAPPDATA，无法安装 mas 命令");
    assert_eq!(read_user_path(&Ok(out(true, " C:\\a;C:\\b \r\n", ""))).ok().as_deref(), Some("C:\\a;C:\\b"));
    assert_eq!(read_user_path(&Ok(out(false, "", " access denied \n"))).err().unwrap().message, "读取用户 PATH 失败: access denied");
    assert_eq!(read_user_path(&Err("spawn".to_string())).err().unwrap().message, "读取用户 PATH 失败: spawn");
    assert_eq!(
        write_user_path("C:\\it's"),
        "[Environment]::SetEnvironmentVariable('Path', 'C:\\it''s', 'User')"
    );
    assert!(write_user_path_result(&Ok(out(true, "", ""))).is_ok());
    assert_eq!(write_user_path_result(&Ok(out(false, "", "no"))).err().unwrap().message, "写入用户 PATH 失败: no");
    assert_eq!(install_error(InstallStep::Copy, "busy").message, "复制可执行文件失败: busy");
    let reg = RegisterResult { installed_executable: "C:\\mas.exe".to_string(), path_updated: true };
    match reg.to_json() {
        Json::Object(f) => {
            assert_eq!(f[0].0, "installedExecutable");
            assert!(matches!(&f[0].1, Json::Str(s) if s == "C:\\mas.exe"));
            assert!(matches!(f[1].1, Json::Bool(true)));
        }
        _ => panic!(),
    }
}

fn strip_ansi(line: &str) -> String {
    let mut out = String::new();
    let mut in_escape = false;
    for c in line.chars() {
        if in_escape {
            in_escape = c != 'm';
        } else if c == '\x1b' {
            in_escape = true;
        } else {
            out.push(c);
        }
    }
    out
}

#[test]
fn coloured_banner_is_plain_banner_with_escapes() {
    let plain = print_mas_cli_banner(false);
    let color = print_mas_cli_banner(true);
    let stripped: Vec<String> = color.iter().map(|l| strip_ansi(l)).collect();
    assert_eq!(stripped, plain);
    assert!(plain.iter().all(|l| !l.contains('\x1b')));
    assert!(color.iter().any(|l| l.contains('\x1b')));
}
