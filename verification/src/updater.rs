use vstd::prelude::*;
use crate::errors::{CliError, CliErrorView, ErrorCategory, cli_error_spec, cli_error_str, str_result_view};
use crate::json::{Json, JsonView, object, push_field, json_str, json_opt_str, opt_str_model};
use crate::runtime::{join_path, join_spec};
use crate::text::{
    char_pred, drop_leading, parse_u64, parse_u64_spec, split, split_spec, trim_start_char, views,
    opt_view, eq_ignore_case, eq_ignore_case_spec, lemma_split_len,
};

verus! {

/// A version without its leading `v`s.
pub open spec fn normalize_version_spec(raw: Seq<char>) -> Seq<char> {
    drop_leading(raw, char_pred('v'))
}

/// Strips the leading `v` of a release tag.
pub fn normalize_version(raw: &str) -> (r: String)
    ensures
        r@ == normalize_version_spec(raw@),
{
    trim_start_char(raw, 'v')
}

/// One component of a version: the number it writes, 0 when it is missing or not
/// a number.
pub open spec fn component(parts: Seq<Seq<char>>, i: int) -> u64 {
    if i < parts.len() {
        match parse_u64_spec(parts[i]) {
            Some(n) => n,
            None => 0,
        }
    } else {
        0
    }
}

/// A version's `(major, minor, patch)`, from the part before the first `-`.
pub open spec fn parse_version_spec(version: Seq<char>) -> (u64, u64, u64) {
    let base = split_spec(version, '-')[0];
    let parts = split_spec(base, '.');
    (component(parts, 0), component(parts, 1), component(parts, 2))
}

fn component_exec(parts: &Vec<String>, i: usize) -> (n: u64)
    ensures
        n == component(views(parts@), i as int),
{
    if i < parts.len() {
        match parse_u64(parts[i].as_str()) {
            Some(n) => n,
            None => 0,
        }
    } else {
        0
    }
}

/// Reads `major.minor.patch` from a version such as `1.2.3-beta`.
pub fn parse_version(version: &str) -> (r: (u64, u64, u64))
    ensures
        r == parse_version_spec(version@),
{
    let pieces = split(version, '-');
    proof {
        lemma_split_len(version@, '-');
    }
    let base = pieces[0].as_str();
    let parts = split(base, '.');
    (component_exec(&parts, 0), component_exec(&parts, 1), component_exec(&parts, 2))
}

/// `a` comes after `b`, comparing major, then minor, then patch.
pub open spec fn version_gt(a: (u64, u64, u64), b: (u64, u64, u64)) -> bool {
    a.0 > b.0 || (a.0 == b.0 && (a.1 > b.1 || (a.1 == b.1 && a.2 > b.2)))
}

pub open spec fn is_newer_spec(candidate: Seq<char>, current: Seq<char>) -> bool {
    version_gt(parse_version_spec(candidate), parse_version_spec(current))
}

/// Whether `candidate` is a later version than `current`.
pub fn is_newer_version(candidate: &str, current: &str) -> (r: bool)
    ensures
        r == is_newer_spec(candidate@, current@),
{
    let a = parse_version(candidate);
    let b = parse_version(current);
    a.0 > b.0 || (a.0 == b.0 && (a.1 > b.1 || (a.1 == b.1 && a.2 > b.2)))
}

/// Versions are ordered by major, then minor, then patch: a larger major is newer;
/// with equal majors a larger minor is newer; with equal majors and minors a larger
/// patch is newer; equal versions are not newer; of two different versions one is
/// newer than the other.
pub proof fn law_newer_is_lexicographic(c: Seq<char>, v: Seq<char>)
    ensures
        ({
            let (a, b) = (parse_version_spec(c), parse_version_spec(v));
            &&& a.0 > b.0 ==> is_newer_spec(c, v)
            &&& a.0 == b.0 && a.1 > b.1 ==> is_newer_spec(c, v)
            &&& a.0 == b.0 && a.1 == b.1 && a.2 > b.2 ==> is_newer_spec(c, v)
            &&& a == b ==> !is_newer_spec(c, v)
            &&& a != b ==> (is_newer_spec(c, v) <==> !is_newer_spec(v, c))
        }),
{
}

/// No version is newer than itself.
pub proof fn law_newer_irreflexive(v: Seq<char>)
    ensures
        !is_newer_spec(v, v),
{
}

/// Of two versions at most one is newer than the other.
pub proof fn law_newer_asymmetric(a: Seq<char>, b: Seq<char>)
    ensures
        !(is_newer_spec(a, b) && is_newer_spec(b, a)),
{
}

/// Newer than newer is newer.
pub proof fn law_newer_transitive(a: Seq<char>, b: Seq<char>, c: Seq<char>)
    requires
        is_newer_spec(a, b),
        is_newer_spec(b, c),
    ensures
        is_newer_spec(a, c),
{
}

/// A release asset: its file name and download URL.
#[derive(Debug)]
pub struct ReleaseAsset {
    pub name: String,
    pub browser_download_url: String,
}

/// The latest release as the release API describes it.
#[derive(Debug)]
pub struct ReleaseInfo {
    pub tag_name: String,
    pub html_url: Option<String>,
    pub assets: Vec<ReleaseAsset>,
}

/// The result of comparing the running version with the latest release.
#[derive(Debug)]
pub struct UpdateCheck {
    pub current_version: String,
    pub latest_version: String,
    pub has_update: bool,
    pub release_url: Option<String>,
}

pub open spec fn update_check_ok(c: UpdateCheck, current: Seq<char>, tag: Seq<char>, html_url: Option<Seq<char>>) -> bool {
    &&& c.current_version@ == current
    &&& c.latest_version@ == normalize_version_spec(tag)
    &&& c.has_update == is_newer_spec(normalize_version_spec(tag), current)
    &&& opt_view(c.release_url) == html_url
}

/// Compares the running version with the latest release (`build_update_check`).
pub fn check_update(current_version: &str, release: &ReleaseInfo) -> (c: UpdateCheck)
    ensures
        update_check_ok(c, current_version@, release.tag_name@, opt_view(release.html_url)),
{
    let latest = normalize_version(release.tag_name.as_str());
    let has_update = is_newer_version(latest.as_str(), current_version);
    UpdateCheck {
        current_version: String::from_str(current_version),
        latest_version: latest,
        has_update,
        release_url: match &release.html_url {
            Some(u) => Some(String::from_str(u.as_str())),
            None => None,
        },
    }
}

impl UpdateCheck {
    /// The update comparison as JSON.
    pub fn to_json(&self) -> (j: Json)
        ensures
            j@ == JsonView::Object(
                seq![
                    ("currentVersion"@, JsonView::Str(self.current_version@)),
                    ("latestVersion"@, JsonView::Str(self.latest_version@)),
                    ("hasUpdate"@, JsonView::Bool(self.has_update)),
                    ("releaseUrl"@, opt_str_model(opt_view(self.release_url))),
                ],
            ),
    {
        let mut fields: Vec<(String, Json)> = Vec::new();
        push_field(&mut fields, "currentVersion", json_str(self.current_version.as_str()));
        push_field(&mut fields, "latestVersion", json_str(self.latest_version.as_str()));
        push_field(&mut fields, "hasUpdate", Json::Bool(self.has_update));
        push_field(&mut fields, "releaseUrl", json_opt_str(&self.release_url));
        let j = object(fields);
        assert(j@->Object_0 =~= seq![
            ("currentVersion"@, JsonView::Str(self.current_version@)),
            ("latestVersion"@, JsonView::Str(self.latest_version@)),
            ("hasUpdate"@, JsonView::Bool(self.has_update)),
            ("releaseUrl"@, opt_str_model(opt_view(self.release_url))),
        ]);
        j
    }
}

/// The text printed at start-up when a newer release exists, if one does.
pub open spec fn update_hint_spec(has_update: bool, current: Seq<char>, latest: Seq<char>) -> Seq<Seq<char>> {
    if has_update {
        seq!["更新提示: 当前 "@ + current + "，最新 "@ + latest, "执行 `mas update apply` 进行更新"@, Seq::empty()]
    } else {
        Seq::empty()
    }
}

/// The start-up hint about a newer release (`print_startup_update_hint`); no
/// lines when the lookup failed or there is nothing newer.
pub fn print_startup_update_hint(check: &Result<UpdateCheck, CliError>) -> (lines: Vec<String>)
    ensures
        views(lines@) == match check {
            Ok(c) => update_hint_spec(c.has_update, c.current_version@, c.latest_version@),
            Err(_) => Seq::empty(),
        },
{
    let mut lines: Vec<String> = Vec::new();
    match check {
        Ok(c) => {
            if c.has_update {
                let mut first = String::from_str("更新提示: 当前 ");
                first.append(c.current_version.as_str());
                first.append("，最新 ");
                first.append(c.latest_version.as_str());
                lines.push(first);
                lines.push(String::from_str("执行 `mas update apply` 进行更新"));
                lines.push(String::new());
                assert(views(lines@) =~= update_hint_spec(c.has_update, c.current_version@, c.latest_version@));
            } else {
                assert(views(lines@) =~= Seq::<Seq<char>>::empty());
            }
        },
        Err(_) => {
            assert(views(lines@) =~= Seq::<Seq<char>>::empty());
        },
    }
    lines
}

/// The target's processor architecture.
#[derive(Clone, Copy, PartialEq, Eq, Structural, Debug)]
pub enum Arch {
    X86_64,
    X86,
    Other,
}

/// The update package for this platform: only Windows on x86-64 and x86 have one.
pub open spec fn asset_name_spec(windows: bool, arch: Arch) -> Result<Seq<char>, CliErrorView> {
    if !windows {
        Err(cli_error_spec(ErrorCategory::InvalidRuntimeConfiguration, "当前仅支持 Windows 更新包"@))
    } else {
        match arch {
            Arch::X86_64 => Ok("mas-x86_64-pc-windows-msvc.exe"@),
            Arch::X86 => Ok("mas-i686-pc-windows-msvc.exe"@),
            Arch::Other => Err(cli_error_spec(ErrorCategory::InvalidRuntimeConfiguration, "当前架构暂不支持自动更新"@)),
        }
    }
}

/// The name of this platform's update package.
pub fn expected_asset_name(windows: bool, arch: Arch) -> (r: Result<String, CliError>)
    ensures
        str_result_view(r) == asset_name_spec(windows, arch),
{
    if !windows {
        return Err(cli_error_str(ErrorCategory::InvalidRuntimeConfiguration, "当前仅支持 Windows 更新包"));
    }
    match arch {
        Arch::X86_64 => Ok(String::from_str("mas-x86_64-pc-windows-msvc.exe")),
        Arch::X86 => Ok(String::from_str("mas-i686-pc-windows-msvc.exe")),
        Arch::Other => Err(cli_error_str(ErrorCategory::InvalidRuntimeConfiguration, "当前架构暂不支持自动更新")),
    }
}

pub open spec fn update_dir_spec(state_dir: Option<Seq<char>>, windows: bool) -> Result<Seq<char>, CliErrorView> {
    match state_dir {
        Some(d) => Ok(join_spec(d, "updates"@, windows)),
        None => Err(cli_error_spec(ErrorCategory::InvalidRuntimeConfiguration, "无法解析本地状态目录"@)),
    }
}

/// Where update packages are downloaded: `updates` in the state directory.
pub fn update_work_dir(state_dir: &Option<String>, windows: bool) -> (r: Result<String, CliError>)
    ensures
        str_result_view(r) == update_dir_spec(opt_view(*state_dir), windows),
{
    proof {
        reveal_strlit("updates");
    }
    match state_dir {
        Some(d) => Ok(join_path(d.as_str(), "updates", windows)),
        None => Err(cli_error_str(ErrorCategory::InvalidRuntimeConfiguration, "无法解析本地状态目录")),
    }
}


/// A name equal to `b` ignoring ASCII case holds a non-letter `c` only where `b` does.
pub proof fn lemma_same_name_lacks(a: Seq<char>, b: Seq<char>, c: char)
    requires
        eq_ignore_case_spec(a, b),
        !b.contains(c),
        !('A' <= c && c <= 'Z'),
        !('a' <= c && c <= 'z'),
    ensures
        !a.contains(c),
{
    if a.contains(c) {
        let k = choose|k: int| 0 <= k < a.len() && a[k] == c;
        assert(crate::text::lower_spec(a).len() == a.len());
        assert(crate::text::lower_spec(b).len() == b.len());
        assert(crate::text::lower_spec(a)[k] == crate::text::lower_spec(b)[k]);
        assert(crate::text::ascii_lower(a[k]) == c);
        assert(crate::text::ascii_lower(b[k]) == c);
    }
}

/// What `update apply` reports.
#[derive(Debug)]
pub struct UpdateApplyOutcome {
    pub message: String,
    pub updated: bool,
    pub latest_version: Option<String>,
    pub next_step: Option<String>,
}

impl UpdateApplyOutcome {
    /// The outcome as JSON (the message is not part of it).
    pub fn to_json(&self) -> (j: Json)
        ensures
            j@ == JsonView::Object(
                seq![
                    ("updated"@, JsonView::Bool(self.updated)),
                    ("latestVersion"@, opt_str_model(opt_view(self.latest_version))),
                    ("nextStep"@, opt_str_model(opt_view(self.next_step))),
                ],
            ),
    {
        let mut fields: Vec<(String, Json)> = Vec::new();
        push_field(&mut fields, "updated", Json::Bool(self.updated));
        push_field(&mut fields, "latestVersion", json_opt_str(&self.latest_version));
        push_field(&mut fields, "nextStep", json_opt_str(&self.next_step));
        let j = object(fields);
        assert(j@->Object_0 =~= seq![
            ("updated"@, JsonView::Bool(self.updated)),
            ("latestVersion"@, opt_str_model(opt_view(self.latest_version))),
            ("nextStep"@, opt_str_model(opt_view(self.next_step))),
        ]);
        j
    }
}

/// What `update apply` does after reading the latest release.
pub enum UpdatePlan {
    /// Nothing newer: report this.
    UpToDate(UpdateApplyOutcome),
    /// Create `update_dir`, download `url` to `target`, then hand it to
    /// [`schedule_windows_replace`] with `script` as the replacement script's path.
    Download { url: String, update_dir: String, target: String, script: String },
}

/// The first asset whose name matches `name` ignoring ASCII case.
pub open spec fn find_asset(assets: Seq<ReleaseAsset>, name: Seq<char>, from: int) -> Option<int>
    decreases assets.len() - from,
{
    if from < 0 || from >= assets.len() {
        None
    } else if eq_ignore_case_spec(assets[from].name@, name) {
        Some(from)
    } else {
        find_asset(assets, name, from + 1)
    }
}

pub proof fn lemma_find_asset_range(assets: Seq<ReleaseAsset>, name: Seq<char>, from: int)
    ensures
        find_asset(assets, name, from) matches Some(i) ==> from <= i < assets.len()
            && eq_ignore_case_spec(assets[i].name@, name),
    decreases assets.len() - from,
{
    if 0 <= from < assets.len() && !eq_ignore_case_spec(assets[from].name@, name) {
        lemma_find_asset_range(assets, name, from + 1);
    }
}

fn find_asset_exec(assets: &Vec<ReleaseAsset>, name: &str) -> (r: Option<usize>)
    ensures
        match r {
            Some(i) => find_asset(assets@, name@, 0) == Some(i as int),
            None => find_asset(assets@, name@, 0) is None,
        },
{
    let mut i: usize = 0;
    while i < assets.len()
        invariant
            i <= assets.len(),
            find_asset(assets@, name@, 0) == find_asset(assets@, name@, i as int),
        decreases assets.len() - i,
    {
        if eq_ignore_case(assets[i].name.as_str(), name) {
            return Some(i);
        }
        i = i + 1;
    }
    None
}

pub open spec fn plan_ok(
    r: Result<UpdatePlan, CliError>,
    current: Seq<char>,
    release: ReleaseInfo,
    windows: bool,
    arch: Arch,
    state_dir: Option<Seq<char>>,
) -> bool {
    let latest = normalize_version_spec(release.tag_name@);
    if !is_newer_spec(latest, current) {
        r matches Ok(UpdatePlan::UpToDate(o)) && o.message@ == "当前已是最新版本: "@ + current && !o.updated
            && opt_view(o.latest_version) == Some(latest) && o.next_step is None
    } else {
        match asset_name_spec(windows, arch) {
            Err(e) => r matches Err(x) && x@ == e,
            Ok(name) => match find_asset(release.assets@, name, 0) {
                None => r matches Err(x) && x@ == cli_error_spec(
                    ErrorCategory::InvalidRuntimeConfiguration,
                    "未找到当前平台更新包: "@ + name,
                ),
                Some(i) => match update_dir_spec(state_dir, windows) {
                    Err(e) => r matches Err(x) && x@ == e,
                    Ok(dir) => {
                        let a = release.assets@[i];
                        r matches Ok(UpdatePlan::Download { url, update_dir, target, script }) && url@
                            == a.browser_download_url@ && update_dir@ == dir && target@ == join_spec(
                            dir,
                            a.name@ + ".download"@,
                            windows,
                        ) && script@ == join_spec(dir, a.name@ + ".replace.cmd"@, windows)
                    },
                },
            },
        }
    }
}

/// Decides what `update apply` does with the latest release: nothing when the
/// running version is current; otherwise download this platform's package into
/// the update directory.
pub fn apply_update(
    current_version: &str,
    release: &ReleaseInfo,
    windows: bool,
    arch: Arch,
    state_dir: &Option<String>,
) -> (r: Result<UpdatePlan, CliError>)
    ensures
        plan_ok(r, current_version@, *release, windows, arch, opt_view(*state_dir)),
{
    let check = check_update(current_version, release);
    if !check.has_update {
        let mut message = String::from_str("当前已是最新版本: ");
        message.append(check.current_version.as_str());
        return Ok(
            UpdatePlan::UpToDate(
                UpdateApplyOutcome {
                    message,
                    updated: false,
                    latest_version: Some(check.latest_version),
                    next_step: None,
                },
            ),
        );
    }
    let asset_name = match expected_asset_name(windows, arch) {
        Ok(n) => n,
        Err(e) => {
            return Err(e);
        },
    };
    let i = match find_asset_exec(&release.assets, asset_name.as_str()) {
        Some(i) => i,
        None => {
            let mut m = String::from_str("未找到当前平台更新包: ");
            m.append(asset_name.as_str());
            return Err(crate::errors::cli_error(ErrorCategory::InvalidRuntimeConfiguration, m));
        },
    };
    let dir = match update_work_dir(state_dir, windows) {
        Ok(d) => d,
        Err(e) => {
            return Err(e);
        },
    };
    proof {
        lemma_find_asset_range(release.assets@, asset_name@, 0);
    }
    let asset = &release.assets[i];
    let mut file = String::from_str(asset.name.as_str());
    file.append(".download");
    let mut script_file = String::from_str(asset.name.as_str());
    script_file.append(".replace.cmd");
    proof {
        assert(eq_ignore_case_spec(asset.name@, asset_name@));
        assert(crate::text::lower_spec(asset.name@).len() == asset_name@.len());
        reveal_strlit("mas-x86_64-pc-windows-msvc.exe");
        reveal_strlit("mas-i686-pc-windows-msvc.exe");
        assert(asset_name@.len() > 0);
        assert(file@[0] == asset.name@[0]);
        assert(script_file@[0] == asset.name@[0]);
        assert(asset.name@[0] != '/' && asset.name@[0] != '\\') by {
            assert(crate::text::lower_spec(asset.name@)[0] == crate::text::lower_spec(asset_name@)[0]);
        }
        lemma_same_name_lacks(asset.name@, asset_name@, ':');
        reveal_strlit(".download");
        reveal_strlit(".replace.cmd");
        assert(!file@.contains(':')) by {
            if file@.contains(':') {
                let k = choose|k: int| 0 <= k < file@.len() && file@[k] == ':';
                if k < asset.name@.len() {
                    assert(asset.name@[k] == ':');
                }
            }
        }
        assert(!script_file@.contains(':')) by {
            if script_file@.contains(':') {
                let k = choose|k: int| 0 <= k < script_file@.len() && script_file@[k] == ':';
                if k < asset.name@.len() {
                    assert(asset.name@[k] == ':');
                }
            }
        }
    }
    let target = join_path(dir.as_str(), file.as_str(), windows);
    let script = join_path(dir.as_str(), script_file.as_str(), windows);
    Ok(
        UpdatePlan::Download {
            url: String::from_str(asset.browser_download_url.as_str()),
            update_dir: dir,
            target,
            script,
        },
    )
}


/// What came of a request to the release API or a download.
pub enum FetchOutcome<T> {
    /// The HTTP client could not be built.
    ClientError(String),
    /// The request failed.
    SendError(String),
    /// The response status was not a success; its text.
    BadStatus(String),
    /// The body could not be read or parsed.
    BodyError(String),
    /// The body.
    Body(T),
}

/// The failure messages of one kind of fetch.
pub struct FetchMessages {
    pub client: &'static str,
    pub send: &'static str,
    pub status: &'static str,
    pub body: &'static str,
}

pub open spec fn fetch_spec<T>(o: FetchOutcome<T>, m: FetchMessages) -> Result<T, CliErrorView> {
    match o {
        FetchOutcome::ClientError(e) => Err(cli_error_spec(ErrorCategory::InvalidRuntimeConfiguration, m.client@ + ": "@ + e@)),
        FetchOutcome::SendError(e) => Err(cli_error_spec(ErrorCategory::BackendUnreachable, m.send@ + ": "@ + e@)),
        FetchOutcome::BadStatus(s) => Err(cli_error_spec(ErrorCategory::BackendBusinessError, m.status@ + s@)),
        FetchOutcome::BodyError(e) => Err(cli_error_spec(ErrorCategory::BackendBusinessError, m.body@ + ": "@ + e@)),
        FetchOutcome::Body(t) => Ok(t),
    }
}

pub open spec fn fetched_view<T>(r: Result<T, CliError>) -> Result<T, CliErrorView> {
    match r {
        Ok(t) => Ok(t),
        Err(e) => Err(e@),
    }
}

fn fetch_result<T>(o: FetchOutcome<T>, m: FetchMessages) -> (r: Result<T, CliError>)
    ensures
        fetched_view(r) == fetch_spec(o, m),
{
    match o {
        FetchOutcome::ClientError(e) => Err(crate::errors::cli_error_detail(ErrorCategory::InvalidRuntimeConfiguration, m.client, e.as_str())),
        FetchOutcome::SendError(e) => Err(crate::errors::cli_error_detail(ErrorCategory::BackendUnreachable, m.send, e.as_str())),
        FetchOutcome::BadStatus(s) => {
            let mut msg = String::from_str(m.status);
            msg.append(s.as_str());
            Err(crate::errors::cli_error(ErrorCategory::BackendBusinessError, msg))
        },
        FetchOutcome::BodyError(e) => Err(crate::errors::cli_error_detail(ErrorCategory::BackendBusinessError, m.body, e.as_str())),
        FetchOutcome::Body(t) => Ok(t),
    }
}

pub open spec fn release_messages() -> FetchMessages {
    FetchMessages {
        client: "创建更新 HTTP 客户端失败",
        send: "拉取 Release 失败",
        status: "GitHub Release 接口返回异常状态: ",
        body: "解析 Release JSON 失败",
    }
}

/// The latest release, or why it could not be read (`fetch_latest_release`).
pub fn fetch_latest_release(o: FetchOutcome<ReleaseInfo>) -> (r: Result<ReleaseInfo, CliError>)
    ensures
        fetched_view(r) == fetch_spec(o, release_messages()),
{
    fetch_result(
        o,
        FetchMessages {
            client: "创建更新 HTTP 客户端失败",
            send: "拉取 Release 失败",
            status: "GitHub Release 接口返回异常状态: ",
            body: "解析 Release JSON 失败",
        },
    )
}

pub open spec fn download_messages() -> FetchMessages {
    FetchMessages {
        client: "创建下载 HTTP 客户端失败",
        send: "下载更新包失败",
        status: "下载更新包失败，HTTP 状态: ",
        body: "读取下载内容失败",
    }
}

/// Whether the update package was saved (`download_asset`): the download's outcome,
/// then, when there was a body, what came of writing it.
pub fn download_asset(o: FetchOutcome<Result<(), String>>) -> (r: Result<(), CliError>)
    ensures
        fetched_view(r) == match fetch_spec(o, download_messages()) {
            Err(e) => Err(e),
            Ok(Err(w)) => Err(cli_error_spec(ErrorCategory::InvalidRuntimeConfiguration, "写入更新包失败"@ + ": "@ + w@)),
            Ok(Ok(())) => Ok(()),
        },
{
    let saved = fetch_result(
        o,
        FetchMessages {
            client: "创建下载 HTTP 客户端失败",
            send: "下载更新包失败",
            status: "下载更新包失败，HTTP 状态: ",
            body: "读取下载内容失败",
        },
    );
    match saved {
        Err(e) => Err(e),
        Ok(Err(w)) => Err(crate::errors::cli_error_detail(ErrorCategory::InvalidRuntimeConfiguration, "写入更新包失败", w.as_str())),
        Ok(Ok(())) => Ok(()),
    }
}

/// The batch script that, once this process has exited, moves the downloaded
/// package over the executable, retrying every second, then deletes itself.
pub open spec fn replace_script_spec(current_exe: Seq<char>, downloaded: Seq<char>) -> Seq<char> {
    "@echo off\r\nsetlocal\r\nset \"TARGET="@ + current_exe + "\"\r\nset \"SOURCE="@ + downloaded
        + "\"\r\n:retry\r\ntimeout /t 1 /nobreak >nul\r\nmove /Y \"%SOURCE%\" \"%TARGET%\" >nul 2>nul\r\nif errorlevel 1 goto retry\r\ndel \"%~f0\" >nul 2>nul\r\n"@
}

/// The replacement script's text.
pub fn replace_script(current_exe: &str, downloaded: &str) -> (s: String)
    ensures
        s@ == replace_script_spec(current_exe@, downloaded@),
{
    let mut s = String::from_str("@echo off\r\nsetlocal\r\nset \"TARGET=");
    s.append(current_exe);
    s.append("\"\r\nset \"SOURCE=");
    s.append(downloaded);
    s.append(
        "\"\r\n:retry\r\ntimeout /t 1 /nobreak >nul\r\nmove /Y \"%SOURCE%\" \"%TARGET%\" >nul 2>nul\r\nif errorlevel 1 goto retry\r\ndel \"%~f0\" >nul 2>nul\r\n",
    );
    s
}

/// What came of scheduling the replacement.
pub enum ReplaceOutcome {
    WriteFailed(String),
    StartFailed(String),
    Started { success: bool },
}

pub open spec fn replace_spec(o: ReplaceOutcome) -> Result<(), CliErrorView> {
    match o {
        ReplaceOutcome::WriteFailed(e) => Err(cli_error_spec(ErrorCategory::InvalidRuntimeConfiguration, "写入更新替换脚本失败"@ + ": "@ + e@)),
        ReplaceOutcome::StartFailed(e) => Err(cli_error_spec(ErrorCategory::InvalidRuntimeConfiguration, "启动更新替换脚本失败"@ + ": "@ + e@)),
        ReplaceOutcome::Started { success } => if success {
            Ok(())
        } else {
            Err(cli_error_spec(ErrorCategory::BackendStartupFailed, "更新替换脚本启动失败"@))
        },
    }
}

/// Whether the replacement was scheduled (`schedule_windows_replace`).
pub fn schedule_windows_replace(o: ReplaceOutcome) -> (r: Result<(), CliError>)
    ensures
        fetched_view(r) == replace_spec(o),
{
    match o {
        ReplaceOutcome::WriteFailed(e) => Err(crate::errors::cli_error_detail(ErrorCategory::InvalidRuntimeConfiguration, "写入更新替换脚本失败", e.as_str())),
        ReplaceOutcome::StartFailed(e) => Err(crate::errors::cli_error_detail(ErrorCategory::InvalidRuntimeConfiguration, "启动更新替换脚本失败", e.as_str())),
        ReplaceOutcome::Started { success } => if success {
            Ok(())
        } else {
            Err(cli_error_str(ErrorCategory::BackendStartupFailed, "更新替换脚本启动失败"))
        },
    }
}

/// The report once the package is downloaded and its replacement scheduled;
/// only Windows replaces the executable.
pub fn update_applied(tag_name: &str, windows: bool) -> (r: Result<UpdateApplyOutcome, CliError>)
    ensures
        windows ==> (r matches Ok(o) && o.updated && o.message@ == "更新包已下载，将在当前进程退出后替换可执行文件"@
            && opt_view(o.latest_version) == Some(normalize_version_spec(tag_name@)) && opt_view(o.next_step)
            == Some("退出后重新运行: mas"@)),
        !windows ==> (r matches Err(e) && e@ == cli_error_spec(ErrorCategory::InvalidRuntimeConfiguration, "当前仅支持 Windows 自动更新"@)),
{
    if windows {
        Ok(
            UpdateApplyOutcome {
                message: String::from_str("更新包已下载，将在当前进程退出后替换可执行文件"),
                updated: true,
                latest_version: Some(normalize_version(tag_name)),
                next_step: Some(String::from_str("退出后重新运行: mas")),
            },
        )
    } else {
        Err(cli_error_str(ErrorCategory::InvalidRuntimeConfiguration, "当前仅支持 Windows 自动更新"))
    }
}

} // verus!
