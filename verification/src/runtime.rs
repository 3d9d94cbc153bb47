use vstd::prelude::*;
use crate::context::BackendState;
use crate::errors::{CliError, CliErrorView, ErrorCategory, cli_error_spec, cli_error, str_result_view};
use crate::text::{
    contains, contains_spec, lower_spec, to_lower, trim, trim_spec, split, split_spec, views,
    eq_ignore_case, eq_ignore_case_spec, opt_view, str_eq,
};

verus! {

/// An API URL names this machine when, ignoring ASCII case, it mentions
/// `127.0.0.1` or `localhost`.
pub open spec fn is_local_spec(api_url: Seq<char>) -> bool {
    contains_spec(lower_spec(api_url), "127.0.0.1"@) || contains_spec(lower_spec(api_url), "localhost"@)
}

/// Whether the API URL names this machine.
pub fn is_local_api_url(api_url: &str) -> (r: bool)
    ensures
        r == is_local_spec(api_url@),
{
    let lowered = to_lower(api_url);
    contains(lowered.as_str(), "127.0.0.1") || contains(lowered.as_str(), "localhost")
}

/// `t` occurs in `u` at `i` when letters are compared without ASCII case.
pub open spec fn occurs_at_ignoring_case(u: Seq<char>, i: int, t: Seq<char>) -> bool {
    &&& 0 <= i
    &&& i + t.len() <= u.len()
    &&& forall|k: int| 0 <= k < t.len() ==> crate::text::ascii_lower(#[trigger] u[i + k]) == t[k]
}

proof fn lemma_occurs_iff_contains(u: Seq<char>, t: Seq<char>, i: int)
    requires
        0 <= i,
        i + t.len() <= u.len(),
    ensures
        occurs_at_ignoring_case(u, i, t) <==> lower_spec(u).subrange(i, i + t.len()) == t,
{
    let w = lower_spec(u).subrange(i, i + t.len());
    if occurs_at_ignoring_case(u, i, t) {
        assert forall|k: int| 0 <= k < t.len() implies w[k] == t[k] by {
            assert(crate::text::ascii_lower(u[i + k]) == t[k]);
        }
        assert(w =~= t);
    }
    if w == t {
        assert forall|k: int| 0 <= k < t.len() implies crate::text::ascii_lower(#[trigger] u[i + k]) == t[k] by {
            assert(w[k] == t[k]);
        }
    }
}

/// An API URL is local exactly when `localhost` or `127.0.0.1` occurs in it,
/// letters compared without ASCII case: `http://LocalHost:36163` is local,
/// `https://example.com` is not.
pub proof fn law_local_url_names_this_machine(u: Seq<char>)
    ensures
        is_local_spec(u) <==> exists|i: int|
            occurs_at_ignoring_case(u, i, "localhost"@) || occurs_at_ignoring_case(u, i, "127.0.0.1"@),
{
    reveal_strlit("localhost");
    reveal_strlit("127.0.0.1");
    let a = "127.0.0.1"@;
    let b = "localhost"@;
    if is_local_spec(u) {
        if contains_spec(lower_spec(u), a) {
            let i = choose|i: int| 0 <= i && i + a.len() <= lower_spec(u).len() && #[trigger] lower_spec(u).subrange(i, i + a.len()) == a;
            lemma_occurs_iff_contains(u, a, i);
            assert(occurs_at_ignoring_case(u, i, a));
        } else {
            let i = choose|i: int| 0 <= i && i + b.len() <= lower_spec(u).len() && #[trigger] lower_spec(u).subrange(i, i + b.len()) == b;
            lemma_occurs_iff_contains(u, b, i);
            assert(occurs_at_ignoring_case(u, i, b));
        }
    }
    if exists|i: int| occurs_at_ignoring_case(u, i, b) || occurs_at_ignoring_case(u, i, a) {
        let i = choose|i: int| occurs_at_ignoring_case(u, i, b) || occurs_at_ignoring_case(u, i, a);
        if occurs_at_ignoring_case(u, i, b) {
            lemma_occurs_iff_contains(u, b, i);
            assert(contains_spec(lower_spec(u), b));
        } else {
            lemma_occurs_iff_contains(u, a, i);
            assert(contains_spec(lower_spec(u), a));
        }
    }
}

/// Path separators: `/` everywhere, and `\` on Windows as well.
pub open spec fn is_sep(c: char, windows: bool) -> bool {
    c == '/' || (windows && c == '\\')
}

/// A relative path that `Path::join` appends: not empty, not starting with a
/// separator, and on Windows without a drive or other prefix.
pub open spec fn is_relative_name(child: Seq<char>, windows: bool) -> bool {
    &&& child.len() > 0
    &&& !is_sep(child[0], windows)
    &&& windows ==> !child.contains(':')
}

/// A Windows path that is only a drive, such as `C:`.
pub open spec fn is_bare_drive(base: Seq<char>, windows: bool) -> bool {
    windows && base.len() == 2 && base[1] == ':'
}

/// `Path::join` of a relative path: a separator goes between unless `base` is
/// empty, ends in a separator, or is a bare drive.
pub open spec fn join_spec(base: Seq<char>, child: Seq<char>, windows: bool) -> Seq<char> {
    if base.len() == 0 || is_sep(base.last(), windows) || is_bare_drive(base, windows) {
        base + child
    } else {
        base + seq![if windows { '\\' } else { '/' }] + child
    }
}

/// Joins a relative path onto `base` as `Path::join` does.
pub fn join_path(base: &str, child: &str, windows: bool) -> (r: String)
    requires
        is_relative_name(child@, windows),
    ensures
        r@ == join_spec(base@, child@, windows),
{
    let v = crate::text::chars_of(base);
    let n = v.len();
    let no_sep = n == 0 || v[n - 1] == '/' || (windows && v[n - 1] == '\\') || (windows && n == 2
        && v[1] == ':');
    let mut r = String::from_str(base);
    if !no_sep {
        if windows {
            r.append("\\");
        } else {
            r.append("/");
        }
    }
    r.append(child);
    proof {
        reveal_strlit("\\");
        reveal_strlit("/");
        if n > 0 {
            assert(base@.last() == v@[n - 1]);
        }
    }
    r
}

/// The directory where the CLI keeps its state: `.auto-mas-cli` under `HOME`,
/// or else under `USERPROFILE`.
pub open spec fn state_dir_spec(home: Option<Seq<char>>, profile: Option<Seq<char>>, windows: bool) -> Option<Seq<char>> {
    match home {
        Some(h) => Some(join_spec(h, ".auto-mas-cli"@, windows)),
        None => match profile {
            Some(p) => Some(join_spec(p, ".auto-mas-cli"@, windows)),
            None => None,
        },
    }
}

/// The state directory to create, from `HOME` and `USERPROFILE`.
pub fn app_state_dir(home: &Option<String>, user_profile: &Option<String>, windows: bool) -> (r:
    Option<String>)
    ensures
        opt_view(r) == state_dir_spec(opt_view(*home), opt_view(*user_profile), windows),
{
    proof {
        reveal_strlit(".auto-mas-cli");
    }
    match home {
        Some(h) => Some(join_path(h.as_str(), ".auto-mas-cli", windows)),
        None => match user_profile {
            Some(p) => Some(join_path(p.as_str(), ".auto-mas-cli", windows)),
            None => None,
        },
    }
}

pub open spec fn state_file_spec(state_dir: Option<Seq<char>>, windows: bool) -> Option<Seq<char>> {
    match state_dir {
        Some(d) => Some(join_spec(d, "state.json"@, windows)),
        None => None,
    }
}

/// The state file, `state.json` in the state directory.
pub fn state_file_path(state_dir: &Option<String>, windows: bool) -> (r: Option<String>)
    ensures
        opt_view(r) == state_file_spec(opt_view(*state_dir), windows),
{
    proof {
        reveal_strlit("state.json");
    }
    match state_dir {
        Some(d) => Some(join_path(d.as_str(), "state.json", windows)),
        None => None,
    }
}

/// What the file system says of one path.
#[derive(Clone, Copy, PartialEq, Eq, Structural, Debug)]
pub struct PathInfo {
    pub exists: bool,
    pub is_file: bool,
    pub is_dir: bool,
}

/// The three paths that make an application root: `main.py`, `app` and
/// `requirements.txt` in it.
pub open spec fn root_check_paths_spec(root: Seq<char>, windows: bool) -> Seq<Seq<char>> {
    seq![
        join_spec(root, "main.py"@, windows),
        join_spec(root, "app"@, windows),
        join_spec(root, "requirements.txt"@, windows),
    ]
}

/// The paths whose kinds decide whether `root` is an application root.
pub fn app_root_check_paths(root: &str, windows: bool) -> (r: Vec<String>)
    ensures
        views(r@) == root_check_paths_spec(root@, windows),
{
    proof {
        reveal_strlit("main.py");
        reveal_strlit("app");
        reveal_strlit("requirements.txt");
    }
    let mut r: Vec<String> = Vec::new();
    r.push(join_path(root, "main.py", windows));
    r.push(join_path(root, "app", windows));
    r.push(join_path(root, "requirements.txt", windows));
    assert(views(r@) =~= root_check_paths_spec(root@, windows));
    r
}

/// An application root holds the file `main.py`, the directory `app` and the
/// file `requirements.txt`.
pub open spec fn valid_root_spec(main_py: PathInfo, app: PathInfo, requirements: PathInfo) -> bool {
    main_py.is_file && app.is_dir && requirements.is_file
}

/// Whether the kinds of the three paths make an application root.
pub fn is_valid_app_root(main_py: PathInfo, app: PathInfo, requirements: PathInfo) -> (r: bool)
    ensures
        r == valid_root_spec(main_py, app, requirements),
{
    main_py.is_file && app.is_dir && requirements.is_file
}

pub open spec fn invalid_root_message(path: Seq<char>) -> Seq<char> {
    "应用根目录不合法: "@ + path + "，要求包含 main.py、app/、requirements.txt"@
}

pub open spec fn validate_root_spec(path: Seq<char>, valid: bool) -> Result<Seq<char>, CliErrorView> {
    if valid {
        Ok(path)
    } else {
        Err(cli_error_spec(ErrorCategory::InvalidRuntimeConfiguration, invalid_root_message(path)))
    }
}

/// An explicitly given application root: accepted when valid, refused otherwise.
pub fn validate_app_root(path: String, valid: bool) -> (r: Result<String, CliError>)
    ensures
        str_result_view(r) == validate_root_spec(path@, valid),
{
    if valid {
        Ok(path)
    } else {
        let mut m = String::from_str("应用根目录不合法: ");
        m.append(path.as_str());
        m.append("，要求包含 main.py、app/、requirements.txt");
        Err(cli_error(ErrorCategory::InvalidRuntimeConfiguration, m))
    }
}


/// Where to look for the application root, in priority order, and whether the
/// place was named explicitly (`--app-root`, then `AUTO_MAS_ROOT`), in which case
/// it must be valid; otherwise the working directory, then the directory of the
/// executable and its parent.
pub open spec fn root_candidates_spec(
    given: Option<Seq<char>>,
    env_root: Option<Seq<char>>,
    cwd: Option<Seq<char>>,
    exe_dirs: Seq<Seq<char>>,
) -> (Seq<Seq<char>>, bool) {
    match given {
        Some(g) => (seq![g], true),
        None => match env_root {
            Some(e) => (seq![e], true),
            None => (
                match cwd {
                    Some(c) => seq![c] + exe_dirs,
                    None => exe_dirs,
                },
                false,
            ),
        },
    }
}

fn push_view(v: &mut Vec<String>, s: String)
    ensures
        views(final(v)@) == views(old(v)@).push(s@),
{
    let ghost before = views(v@);
    v.push(s);
    assert(views(v@) =~= before.push(s@));
}

/// The application root candidates.
pub fn app_root_candidates(
    given: &Option<String>,
    env_root: &Option<String>,
    cwd: &Option<String>,
    exe_dirs: &Vec<String>,
) -> (r: (Vec<String>, bool))
    ensures
        (views(r.0@), r.1) == root_candidates_spec(
            opt_view(*given),
            opt_view(*env_root),
            opt_view(*cwd),
            views(exe_dirs@),
        ),
{
    let mut out: Vec<String> = Vec::new();
    match given {
        Some(g) => {
            push_view(&mut out, String::from_str(g.as_str()));
            assert(views(out@) =~= seq![g@]);
            return (out, true);
        },
        None => {},
    }
    match env_root {
        Some(e) => {
            push_view(&mut out, String::from_str(e.as_str()));
            assert(views(out@) =~= seq![e@]);
            return (out, true);
        },
        None => {},
    }
    match cwd {
        Some(c) => {
            push_view(&mut out, String::from_str(c.as_str()));
        },
        None => {},
    }
    let ghost start = views(out@);
    let mut i: usize = 0;
    while i < exe_dirs.len()
        invariant
            i <= exe_dirs.len(),
            views(out@) == start + views(exe_dirs@).take(i as int),
        decreases exe_dirs.len() - i,
    {
        push_view(&mut out, String::from_str(exe_dirs[i].as_str()));
        assert(views(exe_dirs@).take(i + 1) =~= views(exe_dirs@).take(i as int).push(exe_dirs@[i as int]@));
        assert(views(out@) =~= start + views(exe_dirs@).take(i + 1));
        i = i + 1;
    }
    assert(views(exe_dirs@).take(exe_dirs.len() as int) =~= views(exe_dirs@));
    proof {
        match cwd {
            Some(c) => {
                assert(start =~= seq![c@]);
            },
            None => {
                assert(start =~= Seq::<Seq<char>>::empty());
                assert(start + views(exe_dirs@) =~= views(exe_dirs@));
            },
        }
    }
    (out, false)
}

/// The paths tested for all candidates, three per candidate, in order.
pub open spec fn candidates_check_paths_spec(cands: Seq<Seq<char>>, windows: bool) -> Seq<Seq<char>>
    decreases cands.len(),
{
    if cands.len() == 0 {
        Seq::empty()
    } else {
        candidates_check_paths_spec(cands.drop_last(), windows) + root_check_paths_spec(
            cands.last(),
            windows,
        )
    }
}

pub proof fn lemma_check_paths_len(cands: Seq<Seq<char>>, windows: bool)
    ensures
        candidates_check_paths_spec(cands, windows).len() == 3 * cands.len(),
    decreases cands.len(),
{
    if cands.len() > 0 {
        lemma_check_paths_len(cands.drop_last(), windows);
    }
}

/// The paths to inspect for all application root candidates.
pub fn candidates_check_paths(cands: &Vec<String>, windows: bool) -> (r: Vec<String>)
    ensures
        views(r@) == candidates_check_paths_spec(views(cands@), windows),
{
    let mut out: Vec<String> = Vec::new();
    let mut i: usize = 0;
    assert(views(cands@).take(0) =~= Seq::<Seq<char>>::empty());
    assert(views(out@) =~= Seq::<Seq<char>>::empty());
    while i < cands.len()
        invariant
            i <= cands.len(),
            views(out@) == candidates_check_paths_spec(views(cands@).take(i as int), windows),
        decreases cands.len() - i,
    {
        let ghost before = views(out@);
        let paths = app_root_check_paths(cands[i].as_str(), windows);
        assert(views(paths@).len() == 3);
        assert(paths@.len() == 3);
        assert(views(paths@)[0] == paths@[0]@);
        assert(views(paths@)[1] == paths@[1]@);
        assert(views(paths@)[2] == paths@[2]@);
        push_view(&mut out, String::from_str(paths[0].as_str()));
        push_view(&mut out, String::from_str(paths[1].as_str()));
        push_view(&mut out, String::from_str(paths[2].as_str()));
        assert(views(cands@).take(i + 1).drop_last() =~= views(cands@).take(i as int));
        assert(views(cands@).take(i + 1).last() == cands@[i as int]@);
        assert(views(out@) =~= before + root_check_paths_spec(cands@[i as int]@, windows));
        i = i + 1;
    }
    assert(views(cands@).take(cands.len() as int) =~= views(cands@));
    out
}

/// Candidate `i` is an application root, by the kinds of its check paths.
pub open spec fn candidate_valid(infos: Seq<PathInfo>, i: int) -> bool {
    valid_root_spec(infos[3 * i], infos[3 * i + 1], infos[3 * i + 2])
}

/// The first candidate at or after `from` that is an application root.
pub open spec fn first_valid_root(cands: Seq<Seq<char>>, infos: Seq<PathInfo>, from: int) -> Option<Seq<char>>
    decreases cands.len() - from,
{
    if from < 0 || from >= cands.len() {
        None
    } else if candidate_valid(infos, from) {
        Some(cands[from])
    } else {
        first_valid_root(cands, infos, from + 1)
    }
}

/// The application root: an explicitly named one must be valid; otherwise the
/// first valid candidate, or none.
pub open spec fn discover_root_spec(cands: Seq<Seq<char>>, explicit: bool, infos: Seq<PathInfo>) -> Result<Option<Seq<char>>, CliErrorView> {
    if explicit {
        match validate_root_spec(cands[0], candidate_valid(infos, 0)) {
            Ok(p) => Ok(Some(p)),
            Err(e) => Err(e),
        }
    } else {
        Ok(first_valid_root(cands, infos, 0))
    }
}

pub open spec fn opt_str_result_view(r: Result<Option<String>, CliError>) -> Result<Option<Seq<char>>, CliErrorView> {
    match r {
        Ok(o) => Ok(opt_view(o)),
        Err(e) => Err(e@),
    }
}

/// Chooses the application root from the candidates and what the file system
/// says of their check paths.
pub fn discover_app_root(cands: Vec<String>, explicit: bool, infos: &Vec<PathInfo>) -> (r: Result<
    Option<String>,
    CliError,
>)
    requires
        infos@.len() == 3 * cands@.len(),
        explicit ==> cands@.len() == 1,
    ensures
        opt_str_result_view(r) == discover_root_spec(views(cands@), explicit, infos@),
{
    if explicit {
        let valid = is_valid_app_root(infos[0], infos[1], infos[2]);
        let path = String::from_str(cands[0].as_str());
        return match validate_app_root(path, valid) {
            Ok(p) => Ok(Some(p)),
            Err(e) => Err(e),
        };
    }
    let mut i: usize = 0;
    while i < cands.len()
        invariant
            i <= cands.len(),
            !explicit,
            infos@.len() == 3 * cands@.len(),
            first_valid_root(views(cands@), infos@, 0) == first_valid_root(views(cands@), infos@, i as int),
        decreases cands.len() - i,
    {
        let n = infos.len();
        assert(3 * i + 2 < n);
        let k: usize = 3 * i;
        if is_valid_app_root(infos[k], infos[k + 1], infos[k + 2]) {
            assert(views(cands@)[i as int] == cands@[i as int]@);
            assert(candidate_valid(infos@, i as int));
            assert(first_valid_root(views(cands@), infos@, i as int) == Some(views(cands@)[i as int]));
            return Ok(Some(String::from_str(cands[i].as_str())));
        }
        i = i + 1;
    }
    Ok(None)
}


/// The interpreter given explicitly: `--python-exe`, then `AUTO_MAS_PYTHON`.
pub open spec fn given_python_spec(given: Option<Seq<char>>, env_python: Option<Seq<char>>) -> Option<Seq<char>> {
    match given {
        Some(g) => Some(g),
        None => env_python,
    }
}

/// The built-in runtime's directory, `environment/python` under the application root.
pub open spec fn embedded_dir_spec(root: Seq<char>, windows: bool) -> Seq<char> {
    join_spec(join_spec(root, "environment"@, windows), "python"@, windows)
}

/// Where the built-in interpreter may be, in order.
pub open spec fn embedded_candidates_spec(dir: Seq<char>, windows: bool) -> Seq<Seq<char>> {
    seq![
        join_spec(dir, "python.exe"@, windows),
        join_spec(dir, "python3.exe"@, windows),
        join_spec(join_spec(dir, "bin"@, windows), "python"@, windows),
        join_spec(join_spec(dir, "bin"@, windows), "python3"@, windows),
        dir,
    ]
}

/// The paths to inspect for the built-in interpreter: the directory, then the candidates.
pub open spec fn embedded_check_paths_spec(root: Seq<char>, windows: bool) -> Seq<Seq<char>> {
    seq![embedded_dir_spec(root, windows)] + embedded_candidates_spec(embedded_dir_spec(root, windows), windows)
}

/// The paths to inspect for the built-in interpreter under an application root.
pub fn embedded_check_paths(root: &str, windows: bool) -> (r: Vec<String>)
    ensures
        views(r@) == embedded_check_paths_spec(root@, windows),
{
    proof {
        reveal_strlit("environment");
        reveal_strlit("python");
        reveal_strlit("python.exe");
        reveal_strlit("python3.exe");
        reveal_strlit("bin");
        reveal_strlit("python3");
    }
    let env_dir = join_path(root, "environment", windows);
    let dir = join_path(env_dir.as_str(), "python", windows);
    let bin = join_path(dir.as_str(), "bin", windows);
    let mut r: Vec<String> = Vec::new();
    push_view(&mut r, String::from_str(dir.as_str()));
    push_view(&mut r, join_path(dir.as_str(), "python.exe", windows));
    push_view(&mut r, join_path(dir.as_str(), "python3.exe", windows));
    push_view(&mut r, join_path(bin.as_str(), "python", windows));
    push_view(&mut r, join_path(bin.as_str(), "python3", windows));
    push_view(&mut r, dir);
    assert(views(r@) =~= embedded_check_paths_spec(root@, windows));
    r
}

/// The first of `cands[from..]` whose kind (at `infos[i + 1]`) is a file.
pub open spec fn first_file(cands: Seq<Seq<char>>, infos: Seq<PathInfo>, from: int) -> Option<Seq<char>>
    decreases cands.len() - from,
{
    if from < 0 || from >= cands.len() {
        None
    } else if infos[from + 1].is_file {
        Some(cands[from])
    } else {
        first_file(cands, infos, from + 1)
    }
}

/// The built-in interpreter: none when the directory does not exist, else the first
/// candidate that is a file.
pub open spec fn embedded_python_spec(root: Seq<char>, windows: bool, infos: Seq<PathInfo>) -> Option<Seq<char>> {
    if !infos[0].exists {
        None
    } else {
        first_file(embedded_candidates_spec(embedded_dir_spec(root, windows), windows), infos, 0)
    }
}

/// Picks the built-in interpreter from the kinds of the paths of
/// [`embedded_check_paths`], in the same order.
pub fn resolve_python_from_embedded_dir(paths: &Vec<String>, infos: &Vec<PathInfo>) -> (r: Option<String>)
    requires
        paths@.len() == 6,
        infos@.len() == 6,
    ensures
        opt_view(r) == (if !infos@[0].exists {
            None
        } else {
            first_file(views(paths@).skip(1), infos@, 0)
        }),
{
    if !infos[0].exists {
        return None;
    }
    let ghost cands = views(paths@).skip(1);
    let mut i: usize = 0;
    while i < 5
        invariant
            i <= 5,
            paths@.len() == 6,
            infos@.len() == 6,
            cands == views(paths@).skip(1),
            infos@[0].exists,
            first_file(cands, infos@, 0) == first_file(cands, infos@, i as int),
        decreases 5 - i,
    {
        if infos[i + 1].is_file {
            assert(cands[i as int] == paths@[i + 1]@);
            assert(first_file(cands, infos@, i as int) == Some(cands[i as int]));
            return Some(String::from_str(paths[i + 1].as_str()));
        }
        i = i + 1;
    }
    None
}

/// The program that finds a command on `PATH`: `where` on Windows, `which` elsewhere.
pub open spec fn locator_spec(windows: bool) -> Seq<char> {
    if windows { "where"@ } else { "which"@ }
}

pub fn locator_program(windows: bool) -> (r: String)
    ensures
        r@ == locator_spec(windows),
{
    if windows {
        String::from_str("where")
    } else {
        String::from_str("which")
    }
}

/// What a finished child process produced.
#[derive(Debug)]
pub struct CommandOutput {
    pub success: bool,
    pub stdout: String,
    pub stderr: String,
}

/// The first line of `lines[from..]` that is not blank, trimmed.
pub open spec fn first_nonblank(lines: Seq<Seq<char>>, from: int) -> Option<Seq<char>>
    decreases lines.len() - from,
{
    if from < 0 || from >= lines.len() {
        None
    } else if trim_spec(lines[from]).len() != 0 {
        Some(trim_spec(lines[from]))
    } else {
        first_nonblank(lines, from + 1)
    }
}

/// The path a locator printed: its first non-blank output line, trimmed, when it
/// ran and succeeded.
pub open spec fn located_spec(success: bool, stdout: Seq<char>) -> Option<Seq<char>> {
    if !success {
        None
    } else {
        first_nonblank(split_spec(stdout, '\n'), 0)
    }
}

/// The first non-blank line of a locator's output, trimmed.
pub fn located_path(output: &CommandOutput) -> (r: Option<String>)
    ensures
        opt_view(r) == located_spec(output.success, output.stdout@),
{
    if !output.success {
        return None;
    }
    let lines = split(output.stdout.as_str(), '\n');
    let ghost ls = split_spec(output.stdout@, '\n');
    let mut i: usize = 0;
    while i < lines.len()
        invariant
            i <= lines.len(),
            output.success,
            views(lines@) == ls,
            ls == split_spec(output.stdout@, '\n'),
            first_nonblank(ls, 0) == first_nonblank(ls, i as int),
        decreases lines.len() - i,
    {
        let t = trim(lines[i].as_str());
        assert(ls[i as int] == lines@[i as int]@);
        if t.as_str().unicode_len() != 0 {
            return Some(t);
        }
        i = i + 1;
    }
    None
}


/// The PowerShell command that prints whether the current user is an administrator.
pub fn admin_check_script() -> (s: String)
    ensures
        s@ == "[bool]([Security.Principal.WindowsPrincipal][Security.Principal.WindowsIdentity]::GetCurrent()).IsInRole([Security.Principal.WindowsBuiltInRole]::Administrator)"@,
{
    String::from_str(
        "[bool]([Security.Principal.WindowsPrincipal][Security.Principal.WindowsIdentity]::GetCurrent()).IsInRole([Security.Principal.WindowsBuiltInRole]::Administrator)",
    )
}

/// The administrator query ran, succeeded, and printed `true` (in any ASCII case, around white space).
pub open spec fn is_admin_spec(ran: bool, success: bool, stdout: Seq<char>) -> bool {
    ran && success && eq_ignore_case_spec(trim_spec(stdout), "true"@)
}

/// Whether the administrator query says yes.
pub fn is_windows_admin(outcome: &Result<CommandOutput, String>) -> (r: bool)
    ensures
        r == match outcome {
            Ok(out) => is_admin_spec(true, out.success, out.stdout@),
            Err(_) => false,
        },
{
    match outcome {
        Ok(out) => {
            if out.success {
                let t = trim(out.stdout.as_str());
                eq_ignore_case(t.as_str(), "true")
            } else {
                false
            }
        },
        Err(_) => false,
    }
}

/// The arguments after the program name.
pub open spec fn drop_program(args: Seq<Seq<char>>) -> Seq<Seq<char>> {
    if args.len() == 0 {
        Seq::empty()
    } else {
        args.skip(1)
    }
}

/// The arguments after the program name, without `--elevated`, then `--elevated`.
pub open spec fn elevated_args_spec(args: Seq<Seq<char>>) -> Seq<Seq<char>> {
    drop_program(args).filter(|a: Seq<char>| a != "--elevated"@).push("--elevated"@)
}

/// One argument as a single-quoted PowerShell string.
pub open spec fn ps_quote(a: Seq<char>) -> Seq<char> {
    "'"@ + crate::text::double_char_spec(a, '\'') + "'"@
}

/// The PowerShell command that starts the CLI again as administrator, in the same
/// directory, with the same arguments and `--elevated`.
pub open spec fn relaunch_script_spec(exe: Seq<char>, cwd: Seq<char>, args: Seq<Seq<char>>) -> Seq<char> {
    "Start-Process -FilePath '"@ + crate::text::double_char_spec(exe, '\'') + "' -ArgumentList @("@
        + crate::text::join_spec(elevated_args_spec(args).map_values(|a: Seq<char>| ps_quote(a)), ',')
        + ") -WorkingDirectory '"@ + crate::text::double_char_spec(cwd, '\'') + "' -Verb RunAs"@
}

/// What the process knows of how it was started.
pub struct LaunchInfo {
    pub current_exe: Result<String, String>,
    pub current_dir: Result<String, String>,
    pub args: Vec<String>,
}

pub open spec fn relaunch_spec(exe: Result<Seq<char>, Seq<char>>, cwd: Result<Seq<char>, Seq<char>>, args: Seq<Seq<char>>) -> Result<Seq<char>, CliErrorView> {
    match exe {
        Err(e) => Err(cli_error_spec(ErrorCategory::InvalidRuntimeConfiguration, "读取当前可执行文件路径失败"@ + ": "@ + e)),
        Ok(x) => match cwd {
            Err(e) => Err(cli_error_spec(ErrorCategory::InvalidRuntimeConfiguration, "读取当前工作目录失败"@ + ": "@ + e)),
            Ok(d) => Ok(relaunch_script_spec(x, d, args)),
        },
    }
}

pub open spec fn str_str_view(r: Result<String, String>) -> Result<Seq<char>, Seq<char>> {
    match r {
        Ok(s) => Ok(s@),
        Err(e) => Err(e@),
    }
}

fn quoted(a: &str) -> (s: String)
    ensures
        s@ == ps_quote(a@),
{
    let mut s = String::from_str("'");
    let d = crate::text::double_char(a, '\'');
    s.append(d.as_str());
    s.append("'");
    s
}

/// The command that relaunches the CLI as administrator, or why it cannot be made.
pub fn relaunch_script(info: &LaunchInfo) -> (r: Result<String, CliError>)
    ensures
        str_result_view(r) == relaunch_spec(str_str_view(info.current_exe), str_str_view(info.current_dir), views(info.args@)),
{
    let exe = match &info.current_exe {
        Ok(x) => x,
        Err(e) => {
            return Err(
                crate::errors::cli_error_detail(
                    ErrorCategory::InvalidRuntimeConfiguration,
                    "读取当前可执行文件路径失败",
                    e.as_str(),
                ),
            );
        },
    };
    let cwd = match &info.current_dir {
        Ok(d) => d,
        Err(e) => {
            return Err(
                crate::errors::cli_error_detail(
                    ErrorCategory::InvalidRuntimeConfiguration,
                    "读取当前工作目录失败",
                    e.as_str(),
                ),
            );
        },
    };
    let ghost all = views(info.args@);
    let ghost kept = all.skip(1).filter(|a: Seq<char>| a != "--elevated"@);
    let mut quoted_args: Vec<String> = Vec::new();
    let mut i: usize = 1;
    proof {
        reveal_with_fuel(Seq::<_>::filter, 1);
        assert(all.skip(1).take(0) =~= Seq::<Seq<char>>::empty());
        assert(views(quoted_args@) =~= Seq::<Seq<char>>::empty());
        assert(all.skip(1).take(0).filter(|a: Seq<char>| a != "--elevated"@) =~= Seq::<Seq<char>>::empty());
    }
    while i < info.args.len()
        invariant
            1 <= i <= info.args.len() || (i == 1 && info.args.len() == 0),
            all == views(info.args@),
            views(quoted_args@) == all.skip(1).take(i - 1).filter(|a: Seq<char>| a != "--elevated"@).map_values(
                |a: Seq<char>| ps_quote(a),
            ),
        decreases info.args.len() - i,
    {
        let a = info.args[i].as_str();
        let ghost prev = all.skip(1).take(i - 1);
        let ghost next = all.skip(1).take(i as int);
        assert(next.drop_last() =~= prev);
        assert(next.last() == a@);
        proof {
            reveal_with_fuel(Seq::<_>::filter, 1);
        }
        if !str_eq(a, "--elevated") {
            let q = quoted(a);
            let ghost before = views(quoted_args@);
            quoted_args.push(q);
            assert(views(quoted_args@) =~= before.push(ps_quote(a@)));
            assert(next.filter(|a: Seq<char>| a != "--elevated"@) == prev.filter(|a: Seq<char>| a != "--elevated"@).push(a@));
            assert(views(quoted_args@) =~= next.filter(|a: Seq<char>| a != "--elevated"@).map_values(
                |a: Seq<char>| ps_quote(a),
            ));
        } else {
            assert(next.filter(|a: Seq<char>| a != "--elevated"@) == prev.filter(|a: Seq<char>| a != "--elevated"@));
        }
        i = i + 1;
    }
    let ghost kept = drop_program(all).filter(|a: Seq<char>| a != "--elevated"@);
    proof {
        if info.args.len() > 0 {
            assert(all.skip(1).take(info.args.len() - 1) =~= all.skip(1));
        } else {
            reveal_with_fuel(Seq::<_>::filter, 1);
            assert(kept =~= Seq::<Seq<char>>::empty());
            assert(views(quoted_args@) =~= Seq::<Seq<char>>::empty());
        }
        assert(views(quoted_args@) =~= kept.map_values(|a: Seq<char>| ps_quote(a)));
    }
    let ghost before = views(quoted_args@);
    let last = quoted("--elevated");
    quoted_args.push(last);
    assert(views(quoted_args@) =~= before.push(ps_quote("--elevated"@)));
    assert(kept.push("--elevated"@).map_values(|a: Seq<char>| ps_quote(a)) =~= kept.map_values(
        |a: Seq<char>| ps_quote(a),
    ).push(ps_quote("--elevated"@)));
    assert(views(quoted_args@) =~= elevated_args_spec(all).map_values(|a: Seq<char>| ps_quote(a)));
    let list = crate::text::join(&quoted_args, ',');
    let mut s = String::from_str("Start-Process -FilePath '");
    s.append(crate::text::double_char(exe.as_str(), '\'').as_str());
    s.append("' -ArgumentList @(");
    s.append(list.as_str());
    s.append(") -WorkingDirectory '");
    s.append(crate::text::double_char(cwd.as_str(), '\'').as_str());
    s.append("' -Verb RunAs");
    Ok(s)
}

/// What came of the elevated relaunch: it could not be started, or its exit status.
pub open spec fn relaunch_result_spec(status: Result<bool, Seq<char>>) -> Result<(), CliErrorView> {
    match status {
        Err(e) => Err(cli_error_spec(ErrorCategory::InvalidRuntimeConfiguration, "请求管理员权限失败"@ + ": "@ + e)),
        Ok(false) => Err(cli_error_spec(ErrorCategory::BackendStartupFailed, "用户取消了管理员权限请求或系统拒绝提权"@)),
        Ok(true) => Ok(()),
    }
}

pub open spec fn unit_result_view(r: Result<(), CliError>) -> Result<(), CliErrorView> {
    match r {
        Ok(()) => Ok(()),
        Err(e) => Err(e@),
    }
}

pub open spec fn bool_str_view(r: Result<bool, String>) -> Result<bool, Seq<char>> {
    match r {
        Ok(b) => Ok(b),
        Err(e) => Err(e@),
    }
}

/// Whether the elevated relaunch went through (`relaunch_self_as_admin`).
pub fn relaunch_self_as_admin(status: &Result<bool, String>) -> (r: Result<(), CliError>)
    ensures
        unit_result_view(r) == relaunch_result_spec(bool_str_view(*status)),
{
    match status {
        Err(e) => Err(
            crate::errors::cli_error_detail(
                ErrorCategory::InvalidRuntimeConfiguration,
                "请求管理员权限失败",
                e.as_str(),
            ),
        ),
        Ok(false) => Err(
            crate::errors::cli_error_str(
                ErrorCategory::BackendStartupFailed,
                "用户取消了管理员权限请求或系统拒绝提权",
            ),
        ),
        Ok(true) => Ok(()),
    }
}


/// Where the backend's output goes: the state directory when there is one, else
/// the application root.
pub open spec fn log_dir_spec(state_dir: Option<Seq<char>>, app_root: Seq<char>) -> Seq<char> {
    match state_dir {
        Some(d) => d,
        None => app_root,
    }
}

/// How to start the backend: `python main.py` in the application root, with its
/// output appended to two log files.
#[derive(Debug)]
pub struct SpawnPlan {
    pub python: String,
    pub app_root: String,
    pub log_dir: String,
    pub stdout_log: String,
    pub stderr_log: String,
}

pub open spec fn plan_spec(state_dir: Option<Seq<char>>, python: Seq<char>, app_root: Seq<char>, windows: bool) -> crate::session::SpawnPlanView {
    let dir = log_dir_spec(state_dir, app_root);
    crate::session::SpawnPlanView {
        python,
        app_root,
        log_dir: dir,
        stdout_log: join_spec(dir, "backend.stdout.log"@, windows),
        stderr_log: join_spec(dir, "backend.stderr.log"@, windows),
    }
}

/// The plan for starting the backend daemon.
pub fn spawn_plan(state_dir: &Option<String>, python: &str, app_root: &str, windows: bool) -> (p: SpawnPlan)
    ensures
        p@ == plan_spec(opt_view(*state_dir), python@, app_root@, windows),
{
    proof {
        reveal_strlit("backend.stdout.log");
        reveal_strlit("backend.stderr.log");
    }
    let dir = match state_dir {
        Some(d) => String::from_str(d.as_str()),
        None => String::from_str(app_root),
    };
    let stdout_log = join_path(dir.as_str(), "backend.stdout.log", windows);
    let stderr_log = join_path(dir.as_str(), "backend.stderr.log", windows);
    SpawnPlan {
        python: String::from_str(python),
        app_root: String::from_str(app_root),
        log_dir: dir,
        stdout_log,
        stderr_log,
    }
}

/// Why the backend could not be started; each holds the system's error text.
pub enum SpawnFailure {
    StdoutLog(String),
    StderrLog(String),
    Spawn(String),
}

pub enum SpawnFailureView {
    StdoutLog(Seq<char>),
    StderrLog(Seq<char>),
    Spawn(Seq<char>),
}

impl View for SpawnFailure {
    type V = SpawnFailureView;

    open spec fn view(&self) -> SpawnFailureView {
        match self {
            SpawnFailure::StdoutLog(e) => SpawnFailureView::StdoutLog(e@),
            SpawnFailure::StderrLog(e) => SpawnFailureView::StderrLog(e@),
            SpawnFailure::Spawn(e) => SpawnFailureView::Spawn(e@),
        }
    }
}

pub open spec fn spawn_error_spec(f: SpawnFailureView, python: Seq<char>, stdout_log: Seq<char>, stderr_log: Seq<char>) -> CliErrorView {
    match f {
        SpawnFailureView::StdoutLog(e) => cli_error_spec(
            ErrorCategory::InvalidRuntimeConfiguration,
            "打开后端 stdout 日志失败: "@ + e + " ("@ + stdout_log + ")"@,
        ),
        SpawnFailureView::StderrLog(e) => cli_error_spec(
            ErrorCategory::InvalidRuntimeConfiguration,
            "打开后端 stderr 日志失败: "@ + e + " ("@ + stderr_log + ")"@,
        ),
        SpawnFailureView::Spawn(e) => cli_error_spec(
            ErrorCategory::BackendStartupFailed,
            "启动后端进程失败: "@ + e + " (python="@ + python + ")"@,
        ),
    }
}

/// The failure reported when the backend could not be started (`spawn_backend_daemon`).
pub fn spawn_backend_daemon(failure: &SpawnFailure, plan: &SpawnPlan) -> (e: CliError)
    ensures
        e@ == spawn_error_spec(failure@, plan.python@, plan.stdout_log@, plan.stderr_log@),
{
    let (category, head, detail, tail_head, tail) = match failure {
        SpawnFailure::StdoutLog(e) => (
            ErrorCategory::InvalidRuntimeConfiguration,
            "打开后端 stdout 日志失败: ",
            e,
            " (",
            &plan.stdout_log,
        ),
        SpawnFailure::StderrLog(e) => (
            ErrorCategory::InvalidRuntimeConfiguration,
            "打开后端 stderr 日志失败: ",
            e,
            " (",
            &plan.stderr_log,
        ),
        SpawnFailure::Spawn(e) => (
            ErrorCategory::BackendStartupFailed,
            "启动后端进程失败: ",
            e,
            " (python=",
            &plan.python,
        ),
    };
    let mut m = String::from_str(head);
    m.append(detail.as_str());
    m.append(tail_head);
    m.append(tail.as_str());
    m.append(")");
    cli_error(category, m)
}


/// Whether to check for administrator rights before starting the backend: on
/// Windows, unless this process is already the elevated one.
pub fn should_attempt_windows_elevation(windows: bool, elevated: bool) -> (r: bool)
    ensures
        r == (windows && !elevated),
{
    windows && !elevated
}

} // verus!
