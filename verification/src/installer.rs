use vstd::prelude::*;
use crate::errors::{CliError, CliErrorView, ErrorCategory, cli_error_spec, cli_error_str, cli_error_detail};
use crate::text::{
    trim, trim_char, trim_end_char, to_lower, split, join, views, trim_spec, trim_char_spec,
    drop_trailing, char_pred, lower_spec, split_spec, join_spec,
};

verus! {

/// `PATH` entries are compared after trimming white space, then double quotes,
/// then trailing backslashes, and lowering ASCII case.
pub open spec fn normalize_spec(path: Seq<char>) -> Seq<char> {
    lower_spec(drop_trailing(trim_char_spec(trim_spec(path), '"'), char_pred('\\')))
}

/// `existing` (a `;`-separated `PATH` value) has an entry equal to `target`
/// after normalization.
pub open spec fn path_contains_spec(existing: Seq<char>, target: Seq<char>) -> bool {
    exists|i: int|
        0 <= i < split_spec(existing, ';').len() && normalize_spec(
            #[trigger] split_spec(existing, ';')[i],
        ) == normalize_spec(target)
}

/// The `PATH` value after appending `path`.
pub open spec fn appended_path_spec(existing: Seq<char>, path: Seq<char>) -> Seq<char> {
    if trim_spec(existing).len() == 0 {
        path
    } else {
        existing + ";"@ + path
    }
}

/// The trimmed, non-empty entries of a `PATH` split that do not match `target`.
pub open spec fn kept_entries(entries: Seq<Seq<char>>, target: Seq<char>) -> Seq<Seq<char>>
    decreases entries.len(),
{
    if entries.len() == 0 {
        Seq::empty()
    } else {
        let prev = kept_entries(entries.drop_last(), target);
        let t = trim_spec(entries.last());
        if t.len() == 0 || normalize_spec(t) == normalize_spec(target) {
            prev
        } else {
            prev.push(t)
        }
    }
}

/// Some trimmed, non-empty entry matches `target`.
pub open spec fn has_matching_entry(entries: Seq<Seq<char>>, target: Seq<char>) -> bool {
    exists|i: int|
        0 <= i < entries.len() && trim_spec(#[trigger] entries[i]).len() != 0 && normalize_spec(
            trim_spec(entries[i]),
        ) == normalize_spec(target)
}

/// The `PATH` value after removing every entry that matches `path`, when there is one.
pub open spec fn removed_path_spec(existing: Seq<char>, path: Seq<char>) -> Option<Seq<char>> {
    let entries = split_spec(existing, ';');
    if has_matching_entry(entries, path) {
        Some(join_spec(kept_entries(entries, path), ';'))
    } else {
        None
    }
}

/// Normalizes one `PATH` entry for comparison.
pub fn normalize_path_str(path: &str) -> (r: String)
    ensures
        r@ == normalize_spec(path@),
{
    let a = trim(path);
    let b = trim_char(a.as_str(), '"');
    let c = trim_end_char(b.as_str(), '\\');
    to_lower(c.as_str())
}

/// Normalizes a path (given by its displayed form) for comparison with `PATH` entries.
pub fn normalize_path(path: &str) -> (r: String)
    ensures
        r@ == normalize_spec(path@),
{
    normalize_path_str(path)
}

/// Whether the `PATH` value `existing` already holds `target`.
pub fn path_contains(existing: &str, target: &str) -> (r: bool)
    ensures
        r == path_contains_spec(existing@, target@),
{
    let normalized_target = normalize_path(target);
    let entries = split(existing, ';');
    let mut i: usize = 0;
    while i < entries.len()
        invariant
            i <= entries.len(),
            views(entries@) == split_spec(existing@, ';'),
            normalized_target@ == normalize_spec(target@),
            forall|k: int|
                0 <= k < i ==> normalize_spec(#[trigger] split_spec(existing@, ';')[k])
                    != normalize_spec(target@),
        decreases entries.len() - i,
    {
        let n = normalize_path_str(entries[i].as_str());
        assert(split_spec(existing@, ';')[i as int] == entries@[i as int]@);
        if crate::text::str_eq(n.as_str(), normalized_target.as_str()) {
            return true;
        }
        i = i + 1;
    }
    false
}

/// Adding `path` to the user `PATH` value `existing`: the new value to write, or
/// `None` when an entry for `path` is already there.
pub fn add_user_path(existing: &str, path: &str) -> (r: Option<String>)
    ensures
        r is None <==> path_contains_spec(existing@, path@),
        r matches Some(v) ==> v@ == appended_path_spec(existing@, path@),
{
    if path_contains(existing, path) {
        return None;
    }
    let t = trim(existing);
    if t.as_str().unicode_len() == 0 {
        Some(String::from_str(path))
    } else {
        let mut v = String::from_str(existing);
        v.append(";");
        v.append(path);
        Some(v)
    }
}

/// Removing `path` from the user `PATH` value `existing`: the new value to write
/// (the remaining trimmed, non-empty entries joined by `;`), or `None` when no
/// entry matches.
pub fn remove_user_path(existing: &str, path: &str) -> (r: Option<String>)
    ensures
        r is Some <==> removed_path_spec(existing@, path@) is Some,
        r matches Some(v) ==> removed_path_spec(existing@, path@) == Some(v@),
{
    let normalized_target = normalize_path(path);
    let entries = split(existing, ';');
    let ghost es = split_spec(existing@, ';');
    let mut kept: Vec<String> = Vec::new();
    let mut removed = false;
    let mut i: usize = 0;
    while i < entries.len()
        invariant
            i <= entries.len(),
            views(entries@) == es,
            es == split_spec(existing@, ';'),
            normalized_target@ == normalize_spec(path@),
            views(kept@) == kept_entries(es.take(i as int), path@),
            removed == has_matching_entry(es.take(i as int), path@),
        decreases entries.len() - i,
    {
        let ghost before = es.take(i as int);
        let ghost after = es.take(i + 1);
        assert(after.drop_last() =~= before);
        assert(after.last() == entries@[i as int]@);
        let trimmed = trim(entries[i].as_str());
        let is_empty = trimmed.as_str().unicode_len() == 0;
        let n = normalize_path_str(trimmed.as_str());
        let matched = !is_empty && crate::text::str_eq(n.as_str(), normalized_target.as_str());
        if matched {
            removed = true;
            assert(trim_spec(after[i as int]).len() != 0 && normalize_spec(trim_spec(after[i as int]))
                == normalize_spec(path@));
        } else {
            if !is_empty {
                kept.push(trimmed);
                assert(views(kept@) =~= kept_entries(before, path@).push(trim_spec(after.last())));
            }
            assert(removed == has_matching_entry(after, path@)) by {
                if has_matching_entry(after, path@) && !removed {
                    let k = choose|k: int|
                        0 <= k < after.len() && trim_spec(#[trigger] after[k]).len() != 0
                            && normalize_spec(trim_spec(after[k])) == normalize_spec(path@);
                    if k < i {
                        assert(after[k] == before[k]);
                    }
                }
                if removed {
                    let k = choose|k: int|
                        0 <= k < before.len() && trim_spec(#[trigger] before[k]).len() != 0
                            && normalize_spec(trim_spec(before[k])) == normalize_spec(path@);
                    assert(after[k] == before[k]);
                }
            }
        }
        assert(removed == has_matching_entry(after, path@)) by {
            if removed && !has_matching_entry(before, path@) {
                assert(trim_spec(after[i as int]).len() != 0);
            }
            if has_matching_entry(before, path@) {
                let k = choose|k: int|
                    0 <= k < before.len() && trim_spec(#[trigger] before[k]).len() != 0
                        && normalize_spec(trim_spec(before[k])) == normalize_spec(path@);
                assert(after[k] == before[k]);
            }
        }
        i = i + 1;
    }
    assert(es.take(entries.len() as int) =~= es);
    if removed {
        Some(join(&kept, ';'))
    } else {
        None
    }
}


/// Each kept entry is trimmed, non-empty, free of `;`, and does not match `target`.
pub proof fn lemma_kept_entries(entries: Seq<Seq<char>>, target: Seq<char>)
    requires
        forall|i: int| 0 <= i < entries.len() ==> !(#[trigger] entries[i]).contains(';'),
    ensures
        forall|i: int|
            0 <= i < kept_entries(entries, target).len() ==> {
                &&& !(#[trigger] kept_entries(entries, target)[i]).contains(';')
                &&& normalize_spec(kept_entries(entries, target)[i]) != normalize_spec(target)
            },
    decreases entries.len(),
{
    if entries.len() > 0 {
        let init = entries.drop_last();
        assert forall|i: int| 0 <= i < init.len() implies !(#[trigger] init[i]).contains(';') by {
            assert(init[i] == entries[i]);
        }
        lemma_kept_entries(init, target);
        let t = trim_spec(entries.last());
        assert(entries.last() == entries[entries.len() - 1]);
        crate::text::lemma_trim_lacks(entries.last(), ';');
        let prev = kept_entries(init, target);
        let cur = kept_entries(entries, target);
        assert forall|i: int| 0 <= i < cur.len() implies {
            &&& !(#[trigger] cur[i]).contains(';')
            &&& normalize_spec(cur[i]) != normalize_spec(target)
        } by {
            if i < prev.len() {
                assert(cur[i] == prev[i]);
            }
        }
    }
}

/// Entries whose trims are all empty keep nothing.
pub proof fn lemma_kept_blank(entries: Seq<Seq<char>>, target: Seq<char>)
    requires
        forall|i: int| 0 <= i < entries.len() ==> trim_spec(#[trigger] entries[i]).len() == 0,
    ensures
        kept_entries(entries, target) == Seq::<Seq<char>>::empty(),
    decreases entries.len(),
{
    if entries.len() > 0 {
        let init = entries.drop_last();
        assert forall|i: int| 0 <= i < init.len() implies trim_spec(#[trigger] init[i]).len()
            == 0 by {
            assert(init[i] == entries[i]);
        }
        lemma_kept_blank(init, target);
        assert(entries.last() == entries[entries.len() - 1]);
    }
}

/// Normalization starts with a trim, so trimming first changes nothing.
pub proof fn lemma_normalize_trim(s: Seq<char>)
    ensures
        normalize_spec(trim_spec(s)) == normalize_spec(s),
{
    crate::text::lemma_trim_idempotent(s);
}

/// After `path` is added to `PATH`, `PATH` holds it.
pub proof fn law_add_then_contains(existing: Seq<char>, path: Seq<char>)
    requires
        !path.contains(';'),
    ensures
        path_contains_spec(appended_path_spec(existing, path), path),
{
    let v = appended_path_spec(existing, path);
    if trim_spec(existing).len() == 0 {
        crate::text::lemma_split_single(path, ';');
        assert(split_spec(v, ';')[0] == path);
    } else {
        reveal_strlit(";");
        assert(v =~= existing + seq![';'] + path);
        crate::text::lemma_split_sep(existing, path, ';');
        let n = split_spec(v, ';').len() - 1;
        assert(split_spec(v, ';')[n] == path);
    }
}

/// After the entries matching `path` are removed from `PATH`, `PATH` no longer holds it.
pub proof fn law_remove_then_absent(existing: Seq<char>, path: Seq<char>)
    requires
        removed_path_spec(existing, path) is Some,
        normalize_spec(path).len() != 0,
    ensures
        !path_contains_spec(removed_path_spec(existing, path)->0, path),
{
    let es = split_spec(existing, ';');
    crate::text::lemma_split_pieces(existing, ';');
    lemma_kept_entries(es, path);
    let kept = kept_entries(es, path);
    let v = join_spec(kept, ';');
    if kept.len() == 0 {
        assert(v == Seq::<char>::empty());
        assert(split_spec(v, ';') == seq![Seq::<char>::empty()]);
        assert(normalize_spec(Seq::<char>::empty()).len() == 0) by {
            let e = Seq::<char>::empty();
            assert(trim_spec(e) =~= e);
        }
    } else {
        crate::text::lemma_split_join(kept, ';');
    }
}

/// Removing `path` right after adding it leaves the entries that were there before,
/// trimmed and without blanks: uninstalling takes out what installing put in.
pub proof fn law_add_then_remove(existing: Seq<char>, path: Seq<char>)
    requires
        !path_contains_spec(existing, path),
        !path.contains(';'),
        trim_spec(path).len() != 0,
    ensures
        removed_path_spec(appended_path_spec(existing, path), path) == Some(
            join_spec(kept_entries(split_spec(existing, ';'), path), ';'),
        ),
{
    let es = split_spec(existing, ';');
    let v = appended_path_spec(existing, path);
    lemma_normalize_trim(path);
    if trim_spec(existing).len() == 0 {
        crate::text::lemma_split_single(path, ';');
        let vs = split_spec(v, ';');
        assert(vs == seq![path]);
        assert(has_matching_entry(vs, path)) by {
            assert(vs[0] == path);
        }
        assert(vs.drop_last() =~= Seq::<Seq<char>>::empty());
        assert(vs.last() == path);
        assert(kept_entries(vs.drop_last(), path) == Seq::<Seq<char>>::empty());
        assert(kept_entries(vs, path) == Seq::<Seq<char>>::empty());
        crate::text::lemma_trim_empty(existing);
        crate::text::lemma_split_pieces_within(existing, ';', crate::text::space_pred());
        assert forall|i: int| 0 <= i < es.len() implies trim_spec(#[trigger] es[i]).len() == 0 by {
            crate::text::lemma_trim_empty(es[i]);
            assert forall|k: int| 0 <= k < es[i].len() implies crate::text::is_space(
                #[trigger] es[i][k],
            ) by {
                assert((crate::text::space_pred())(es[i][k]));
            }
        }
        lemma_kept_blank(es, path);
    } else {
        reveal_strlit(";");
        assert(v =~= existing + seq![';'] + path);
        crate::text::lemma_split_sep(existing, path, ';');
        let vs = split_spec(v, ';');
        assert(vs == es.push(path));
        assert(vs.drop_last() =~= es);
        assert(vs.last() == path);
        assert(has_matching_entry(vs, path)) by {
            assert(vs[vs.len() - 1] == path);
        }
        assert(kept_entries(vs, path) == kept_entries(es, path));
    }
}


/// Registering the `mas` command is only supported on Windows.
pub fn ensure_windows(windows: bool) -> (r: Result<(), CliError>)
    ensures
        windows ==> r is Ok,
        !windows ==> (r matches Err(e) && e@ == cli_error_spec(
            ErrorCategory::InvalidRuntimeConfiguration,
            "当前仅支持 Windows 系统命令注册"@,
        )),
{
    if windows {
        Ok(())
    } else {
        Err(cli_error_str(ErrorCategory::InvalidRuntimeConfiguration, "当前仅支持 Windows 系统命令注册"))
    }
}

pub open spec fn install_dir_spec(local_app_data: Option<Seq<char>>, windows: bool) -> Result<Seq<char>, CliErrorView> {
    match local_app_data {
        Some(d) => Ok(crate::runtime::join_spec(d, "AUTO-MAS\\bin"@, windows)),
        None => Err(cli_error_spec(ErrorCategory::InvalidRuntimeConfiguration, "未检测到 LOCALAPPDATA，无法安装 mas 命令"@)),
    }
}

/// Where the `mas` command is installed: `AUTO-MAS\bin` under `LOCALAPPDATA`.
pub fn user_install_dir(local_app_data: &Option<String>, windows: bool) -> (r: Result<String, CliError>)
    ensures
        crate::errors::str_result_view(r) == install_dir_spec(crate::text::opt_view(*local_app_data), windows),
{
    proof {
        reveal_strlit("AUTO-MAS\\bin");
    }
    match local_app_data {
        Some(d) => Ok(crate::runtime::join_path(d.as_str(), "AUTO-MAS\\bin", windows)),
        None => Err(cli_error_str(ErrorCategory::InvalidRuntimeConfiguration, "未检测到 LOCALAPPDATA，无法安装 mas 命令")),
    }
}

/// The installed executable, `mas.exe` in the install directory.
pub fn install_target(install_dir: &str, windows: bool) -> (r: String)
    ensures
        r@ == crate::runtime::join_spec(install_dir@, "mas.exe"@, windows),
{
    proof {
        reveal_strlit("mas.exe");
    }
    crate::runtime::join_path(install_dir, "mas.exe", windows)
}

/// The result of a PowerShell command: its trimmed output when it succeeded,
/// otherwise a failure saying `context` and why.
pub open spec fn powershell_spec(context: Seq<char>, outcome: Result<(bool, Seq<char>, Seq<char>), Seq<char>>) -> Result<Seq<char>, CliErrorView> {
    match outcome {
        Err(e) => Err(cli_error_spec(ErrorCategory::InvalidRuntimeConfiguration, context + ": "@ + e)),
        Ok((success, stdout, stderr)) => if success {
            Ok(trim_spec(stdout))
        } else {
            Err(cli_error_spec(ErrorCategory::InvalidRuntimeConfiguration, context + ": "@ + trim_spec(stderr)))
        },
    }
}

pub open spec fn command_view(o: Result<crate::runtime::CommandOutput, String>) -> Result<(bool, Seq<char>, Seq<char>), Seq<char>> {
    match o {
        Ok(out) => Ok((out.success, out.stdout@, out.stderr@)),
        Err(e) => Err(e@),
    }
}

/// What a PowerShell command gave (`run_powershell`).
pub fn run_powershell(context: &str, outcome: &Result<crate::runtime::CommandOutput, String>) -> (r: Result<String, CliError>)
    ensures
        crate::errors::str_result_view(r) == powershell_spec(context@, command_view(*outcome)),
{
    match outcome {
        Err(e) => Err(cli_error_detail(ErrorCategory::InvalidRuntimeConfiguration, context, e.as_str())),
        Ok(out) => if out.success {
            Ok(trim(out.stdout.as_str()))
        } else {
            let t = trim(out.stderr.as_str());
            Err(cli_error_detail(ErrorCategory::InvalidRuntimeConfiguration, context, t.as_str()))
        },
    }
}

/// The PowerShell command that prints the user `PATH`.
pub fn read_user_path_script() -> (s: String)
    ensures
        s@ == "[Environment]::GetEnvironmentVariable('Path', 'User')"@,
{
    String::from_str("[Environment]::GetEnvironmentVariable('Path', 'User')")
}

/// The user `PATH`, from what the reading command gave.
pub fn read_user_path(outcome: &Result<crate::runtime::CommandOutput, String>) -> (r: Result<String, CliError>)
    ensures
        crate::errors::str_result_view(r) == powershell_spec("读取用户 PATH 失败"@, command_view(*outcome)),
{
    run_powershell("读取用户 PATH 失败", outcome)
}

/// The PowerShell command that sets the user `PATH` to `value`, its quotes doubled.
pub open spec fn write_path_script_spec(value: Seq<char>) -> Seq<char> {
    "[Environment]::SetEnvironmentVariable('Path', '"@ + crate::text::double_char_spec(value, '\'') + "', 'User')"@
}

/// The command that writes the user `PATH`.
pub fn write_user_path(value: &str) -> (s: String)
    ensures
        s@ == write_path_script_spec(value@),
{
    let escaped = crate::text::double_char(value, '\'');
    let mut s = String::from_str("[Environment]::SetEnvironmentVariable('Path', '");
    s.append(escaped.as_str());
    s.append("', 'User')");
    s
}

/// Whether writing the user `PATH` went through.
pub fn write_user_path_result(outcome: &Result<crate::runtime::CommandOutput, String>) -> (r: Result<(), CliError>)
    ensures
        match powershell_spec("写入用户 PATH 失败"@, command_view(*outcome)) {
            Ok(_) => r is Ok,
            Err(e) => r matches Err(x) && x@ == e,
        },
{
    match run_powershell("写入用户 PATH 失败", outcome) {
        Ok(_) => Ok(()),
        Err(e) => Err(e),
    }
}

/// A step of installing or uninstalling that can fail.
pub enum InstallStep {
    CreateDir,
    CurrentExe,
    Copy,
}

pub open spec fn install_step_message(step: InstallStep) -> Seq<char> {
    match step {
        InstallStep::CreateDir => "创建安装目录失败"@,
        InstallStep::CurrentExe => "读取当前可执行文件失败"@,
        InstallStep::Copy => "复制可执行文件失败"@,
    }
}

/// The failure of an install step.
pub fn install_error(step: InstallStep, detail: &str) -> (e: CliError)
    ensures
        e@ == cli_error_spec(ErrorCategory::InvalidRuntimeConfiguration, install_step_message(step) + ": "@ + detail@),
{
    let head = match step {
        InstallStep::CreateDir => "创建安装目录失败",
        InstallStep::CurrentExe => "读取当前可执行文件失败",
        InstallStep::Copy => "复制可执行文件失败",
    };
    cli_error_detail(ErrorCategory::InvalidRuntimeConfiguration, head, detail)
}

/// What registering the command did.
#[derive(Debug)]
pub struct RegisterResult {
    pub installed_executable: String,
    pub path_updated: bool,
}

impl RegisterResult {
    pub fn to_json(&self) -> (j: crate::json::Json)
        ensures
            j@ == crate::json::JsonView::Object(
                seq![
                    ("installedExecutable"@, crate::json::JsonView::Str(self.installed_executable@)),
                    ("pathUpdated"@, crate::json::JsonView::Bool(self.path_updated)),
                ],
            ),
    {
        let mut fields: Vec<(String, crate::json::Json)> = Vec::new();
        crate::json::push_field(&mut fields, "installedExecutable", crate::json::json_str(self.installed_executable.as_str()));
        crate::json::push_field(&mut fields, "pathUpdated", crate::json::Json::Bool(self.path_updated));
        let j = crate::json::object(fields);
        assert(j@->Object_0 =~= seq![
            ("installedExecutable"@, crate::json::JsonView::Str(self.installed_executable@)),
            ("pathUpdated"@, crate::json::JsonView::Bool(self.path_updated)),
        ]);
        j
    }
}

/// What unregistering the command did.
#[derive(Debug)]
pub struct UnregisterResult {
    pub executable_removed: bool,
    pub path_updated: bool,
}

impl UnregisterResult {
    pub fn to_json(&self) -> (j: crate::json::Json)
        ensures
            j@ == crate::json::JsonView::Object(
                seq![
                    ("executableRemoved"@, crate::json::JsonView::Bool(self.executable_removed)),
                    ("pathUpdated"@, crate::json::JsonView::Bool(self.path_updated)),
                ],
            ),
    {
        let mut fields: Vec<(String, crate::json::Json)> = Vec::new();
        crate::json::push_field(&mut fields, "executableRemoved", crate::json::Json::Bool(self.executable_removed));
        crate::json::push_field(&mut fields, "pathUpdated", crate::json::Json::Bool(self.path_updated));
        let j = crate::json::object(fields);
        assert(j@->Object_0 =~= seq![
            ("executableRemoved"@, crate::json::JsonView::Bool(self.executable_removed)),
            ("pathUpdated"@, crate::json::JsonView::Bool(self.path_updated)),
        ]);
        j
    }
}

} // verus!
