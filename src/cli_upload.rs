//! The delegated-CLI upload: finding the tool, repairing its permission,
//! its arguments, and the reading of what it printed.

use vstd::prelude::*;
use crate::project::opt_view;
use crate::publish::PublishResult;
use crate::text::{chars_of, find, occurs, occurs_at, signed_decimal, signed_decimal_text, trim, trimmed};

verus! {

/// The text that introduces the download-page URL in the tool's output.
pub const DOWNLOAD_PAGE_MARKER: &'static str = "下载页面:";

/// How to make the tool available, told when it cannot be found.
pub const CLI_GUIDANCE: &'static str = "未找到 go-fir-cli 工具\n\n解决方法：\n1. 在发布配置中设置 go-fir-cli 安装路径（推荐）\n   - 进入\"发布配置\"页面\n   - 编辑或创建 fir.im 配置\n   - 在\"go-fir-cli 安装路径\"字段中填写完整路径\n   - 例如：/usr/local/bin/go-fir-cli 或 /Users/username/go/bin/go-fir-cli\n\n2. 或者安装 go-fir-cli 到 PATH 中：\n   - 访问 https://github.com/PGYER/go-fir-cli/releases\n   - 下载对应平台的二进制文件\n   - 将文件放到 PATH 环境变量中的目录（如 /usr/local/bin）\n   - 确保文件有执行权限：chmod +x /usr/local/bin/go-fir-cli\n\n";

/// The API token of the profile, or the error when it has none.
pub fn cli_token(api_token: &Option<String>) -> (r: Result<String, String>)
    ensures
        match r {
            Ok(t) => api_token is Some && t@ == api_token->Some_0@,
            Err(e) => api_token is None && e@ == "fir.im API Token 未配置"@,
        },
{
    match api_token {
        Some(t) => Ok(t.clone()),
        None => Err(String::from_str("fir.im API Token 未配置")),
    }
}

/// The path that a search of the executable path reported, if the search
/// succeeded and printed something.
pub open spec fn which_hit(ok: bool, out: Seq<char>) -> Option<Seq<char>> {
    if ok && out.len() > 0 { Some(trimmed(out)) } else { None }
}

/// The path that a search of the executable path reported.
pub fn which_candidate(ok: bool, out: &String) -> (r: Option<String>)
    ensures
        opt_view(r) == which_hit(ok, out@),
{
    if ok && chars_of(out.as_str()).len() > 0 {
        Some(String::from_str(trim(out.as_str())))
    } else {
        None
    }
}

/// The path that the profile names, where it is not blank.
pub open spec fn configured_hit(path: Option<Seq<char>>) -> Option<Seq<char>> {
    match path {
        Some(p) => if trimmed(p).len() > 0 { Some(trimmed(p)) } else { None },
        None => None,
    }
}

/// The path that the profile names, where it is not blank.
pub fn configured_candidate(path: &Option<String>) -> (r: Option<String>)
    ensures
        opt_view(r) == configured_hit(opt_view(*path)),
{
    match path {
        Some(p) => {
            let t = trim(p.as_str());
            if chars_of(t).len() > 0 {
                Some(String::from_str(t))
            } else {
                None
            }
        },
        None => None,
    }
}

/// What the search of the executable path reports when it did not find the tool.
pub open spec fn which_miss(ok: bool, out: Seq<char>) -> Seq<char> {
    match which_hit(ok, out) {
        Some(p) => "which 找到路径但文件不存在: "@ + p,
        None => "which 未找到 go-fir-cli: "@ + out,
    }
}

/// What the profile's path reports when it did not give the tool.
pub open spec fn configured_miss(path: Option<Seq<char>>) -> Seq<char> {
    match path {
        Some(p) => if trimmed(p).len() > 0 {
            "配置的路径不存在: "@ + trimmed(p)
        } else {
            "配置的路径为空字符串"@
        },
        None => "配置中没有设置 go-fir-cli 路径"@,
    }
}

/// Where the tool is: the path the executable search reported, where that
/// exists, else the profile's path, where that exists; else the guidance with
/// both reasons.
pub open spec fn cli_location(
    ok: bool,
    out: Seq<char>,
    which_exists: bool,
    path: Option<Seq<char>>,
    configured_exists: bool,
) -> Result<Seq<char>, Seq<char>> {
    if which_hit(ok, out) is Some && which_exists {
        Ok(which_hit(ok, out)->Some_0)
    } else if configured_hit(path) is Some && configured_exists {
        Ok(configured_hit(path)->Some_0)
    } else {
        Err(CLI_GUIDANCE@ + "查找详情：\n"@ + "  1. "@ + which_miss(ok, out) + "\n"@ + "  2. "@
            + configured_miss(path) + "\n"@)
    }
}

/// Locates the tool from the outcome of the executable search (`ok`, `out`),
/// whether the path it reported exists, the profile's path, and whether that exists.
pub fn locate_cli(
    ok: bool,
    out: &String,
    which_exists: bool,
    path: &Option<String>,
    configured_exists: bool,
) -> (r: Result<String, String>)
    ensures
        crate::publish::text_result(r) == cli_location(ok, out@, which_exists, opt_view(*path), configured_exists),
{
    let hit = which_candidate(ok, out);
    match &hit {
        Some(p) => {
            if which_exists {
                return Ok(p.clone());
            }
        },
        None => {},
    }
    let conf = configured_candidate(path);
    match &conf {
        Some(p) => {
            if configured_exists {
                return Ok(p.clone());
            }
        },
        None => {},
    }
    let mut m = String::from_str(CLI_GUIDANCE);
    m.append("查找详情：\n");
    m.append("  1. ");
    match &hit {
        Some(p) => {
            m.append("which 找到路径但文件不存在: ");
            m.append(p.as_str());
        },
        None => {
            m.append("which 未找到 go-fir-cli: ");
            m.append(out.as_str());
        },
    }
    m.append("\n");
    m.append("  2. ");
    match path {
        Some(p) => match &conf {
            Some(t) => {
                m.append("配置的路径不存在: ");
                m.append(t.as_str());
            },
            None => m.append("配置的路径为空字符串"),
        },
        None => m.append("配置中没有设置 go-fir-cli 路径"),
    }
    m.append("\n");
    assert(m@ =~= cli_location(ok, out@, which_exists, opt_view(*path), configured_exists)->Err_0);
    Err(m)
}

/// Whether a file with permission bits `mode` lacks every execute bit.
pub fn lacks_exec_bits(mode: u32) -> (r: bool)
    ensures
        r == (mode & 0o111u32 == 0),
{
    mode & 0o111u32 == 0
}

/// The error when the execute bit could not be set on the tool.
pub open spec fn chmod_failure_text(cli: Seq<char>, out: Seq<char>) -> Seq<char> {
    "go-fir-cli 文件没有执行权限，且无法自动修复\n\n文件路径: "@ + cli + "\n错误: "@ + out
        + "\n\n请手动执行以下命令添加执行权限：\nchmod +x "@ + cli + "\n"@
}

/// The error when the execute bit could not be set on the tool.
pub fn chmod_failure_message(cli: &String, out: &String) -> (r: String)
    ensures
        r@ == chmod_failure_text(cli@, out@),
{
    let mut m = String::from_str("go-fir-cli 文件没有执行权限，且无法自动修复\n\n文件路径: ");
    m.append(cli.as_str());
    m.append("\n错误: ");
    m.append(out.as_str());
    m.append("\n\n请手动执行以下命令添加执行权限：\nchmod +x ");
    m.append(cli.as_str());
    m.append("\n");
    m
}

/// The tool's arguments: `-t <token> upload -f <file>`, then `-c <changelog>`
/// where the changelog is not blank.
pub open spec fn cli_arguments(token: Seq<char>, file: Seq<char>, changelog: Option<Seq<char>>) -> Seq<Seq<char>> {
    let base = seq!["-t"@, token, "upload"@, "-f"@, file];
    match changelog {
        Some(c) => if trimmed(c).len() > 0 { base + seq!["-c"@, trimmed(c)] } else { base },
        None => base,
    }
}

/// The tool's arguments for uploading `file` with `token`.
pub fn cli_args(token: &String, file: &String, changelog: &Option<String>) -> (r: Vec<String>)
    ensures
        r@.map_values(|s: String| s@) == cli_arguments(token@, file@, opt_view(*changelog)),
{
    let mut r: Vec<String> = Vec::new();
    r.push(String::from_str("-t"));
    r.push(token.clone());
    r.push(String::from_str("upload"));
    r.push(String::from_str("-f"));
    r.push(file.clone());
    match changelog {
        Some(c) => {
            let t = trim(c.as_str());
            if chars_of(t).len() > 0 {
                r.push(String::from_str("-c"));
                r.push(String::from_str(t));
            }
        },
        None => {},
    }
    assert(r@.map_values(|s: String| s@) =~= cli_arguments(token@, file@, opt_view(*changelog)));
    r
}

/// The error when the tool could not be started, with a hint where the cause
/// reads as a permission problem.
pub open spec fn spawn_failure_text(error: Seq<char>, cli: Seq<char>) -> Seq<char> {
    let head = "执行 go-fir-cli 失败: "@ + error + "\n\n"@;
    let hint = if occurs(error, "Permission denied"@) || occurs(error, "permission"@) {
        "这可能是权限问题。请尝试以下方法：\n"@ + "1. 手动添加执行权限：chmod +x "@ + cli + "\n"@
            + "2. 或者使用 sudo 运行应用（不推荐）\n"@ + "3. 检查文件所有者是否正确\n\n"@
    } else {
        Seq::empty()
    };
    head + hint + "文件路径: "@ + cli + "\n"@ + "请确保 go-fir-cli 已正确安装并在 PATH 中，且有执行权限"@
}

/// The error when the tool could not be started.
pub fn spawn_failure_message(error: &String, cli: &String) -> (r: String)
    ensures
        r@ == spawn_failure_text(error@, cli@),
{
    let e = chars_of(error.as_str());
    let denied = find(&e, &chars_of("Permission denied")).is_some() || find(&e, &chars_of("permission")).is_some();
    let mut m = String::from_str("执行 go-fir-cli 失败: ");
    m.append(error.as_str());
    m.append("\n\n");
    if denied {
        m.append("这可能是权限问题。请尝试以下方法：\n");
        m.append("1. 手动添加执行权限：chmod +x ");
        m.append(cli.as_str());
        m.append("\n");
        m.append("2. 或者使用 sudo 运行应用（不推荐）\n");
        m.append("3. 检查文件所有者是否正确\n\n");
    }
    m.append("文件路径: ");
    m.append(cli.as_str());
    m.append("\n");
    m.append("请确保 go-fir-cli 已正确安装并在 PATH 中，且有执行权限");
    assert(m@ =~= spawn_failure_text(error@, cli@));
    m
}

/// The first position at which `needle` stands in `hay`, if it stands there.
pub open spec fn first_occurrence(hay: Seq<char>, needle: Seq<char>) -> Option<int> {
    if occurs(hay, needle) {
        Some(choose|i: int| occurs_at(hay, needle, i) && forall|j: int| 0 <= j < i ==> !occurs_at(hay, needle, j))
    } else {
        None
    }
}

/// The URL that one line of the tool's output gives: the text after the
/// first marker, trimmed, where that is not blank.
pub open spec fn url_in_line(line: Seq<char>) -> Option<Seq<char>> {
    match first_occurrence(line, DOWNLOAD_PAGE_MARKER@) {
        Some(j) => {
            let rest = trimmed(line.subrange(j + DOWNLOAD_PAGE_MARKER@.len(), line.len() as int));
            if rest.len() > 0 { Some(rest) } else { None }
        },
        None => None,
    }
}

/// The end of the line that starts at `i`: the next line break, or the end.
pub open spec fn line_end(s: Seq<char>, i: int) -> int
    decreases s.len() - i,
{
    if i >= s.len() {
        s.len() as int
    } else if s[i] == '\n' {
        i
    } else {
        line_end(s, i + 1)
    }
}

proof fn lemma_line_end(s: Seq<char>, i: int)
    requires
        0 <= i <= s.len(),
    ensures
        i <= line_end(s, i) <= s.len(),
        line_end(s, i) < s.len() ==> s[line_end(s, i)] == '\n',
    decreases s.len() - i,
{
    if i < s.len() && s[i] != '\n' {
        lemma_line_end(s, i + 1);
    }
}

/// The download-page URL in the output `s` from position `start` on: that of
/// the first line that gives one.
pub open spec fn url_from(s: Seq<char>, start: int) -> Option<Seq<char>>
    decreases s.len() - start,
{
    if start < 0 || start > s.len() {
        None
    } else {
        let e = line_end(s, start);
        match url_in_line(s.subrange(start, e)) {
            Some(u) => Some(u),
            None => if start <= e < s.len() { url_from(s, e + 1) } else { None },
        }
    }
}

proof fn lemma_first_occurrence(hay: Seq<char>, needle: Seq<char>, i: int)
    requires
        occurs_at(hay, needle, i),
        forall|j: int| 0 <= j < i ==> !occurs_at(hay, needle, j),
    ensures
        first_occurrence(hay, needle) == Some(i),
{
    let k = choose|k: int| occurs_at(hay, needle, k) && forall|j: int| 0 <= j < k ==> !occurs_at(hay, needle, j);
    if k < i {
        assert(!occurs_at(hay, needle, k));
    }
    if i < k {
        assert(!occurs_at(hay, needle, i));
    }
}

fn line_url(s: &str, v: &Vec<char>, start: usize, end: usize) -> (r: Option<String>)
    requires
        v@ == s@,
        start <= end <= v.len(),
    ensures
        opt_view(r) == url_in_line(s@.subrange(start as int, end as int)),
{
    let ghost line_v = s@.subrange(start as int, end as int);
    let mut line: Vec<char> = Vec::new();
    let mut i: usize = start;
    while i < end
        invariant
            v@ == s@,
            start <= i <= end <= v.len(),
            line@ == s@.subrange(start as int, i as int),
        decreases end - i,
    {
        line.push(v[i]);
        assert(line@ =~= s@.subrange(start as int, i + 1));
        i = i + 1;
    }
    let marker = chars_of(DOWNLOAD_PAGE_MARKER);
    match find(&line, &marker) {
        Some(j) => {
            proof {
                lemma_first_occurrence(line_v, DOWNLOAD_PAGE_MARKER@, j as int);
            }
            let from = start + j + marker.len();
            assert(s@.subrange(from as int, end as int) =~= line_v.subrange(
                j + DOWNLOAD_PAGE_MARKER@.len(),
                line_v.len() as int,
            ));
            let rest = trim(s.substring_char(from, end));
            if chars_of(rest).len() > 0 {
                Some(String::from_str(rest))
            } else {
                None
            }
        },
        None => {
            assert(first_occurrence(line_v, DOWNLOAD_PAGE_MARKER@) is None);
            None
        },
    }
}

/// The download-page URL that the tool's output gives, if any line gives one.
pub fn download_page_url(out: &String) -> (r: Option<String>)
    ensures
        opt_view(r) == url_from(out@, 0),
{
    let v = chars_of(out.as_str());
    let mut start: usize = 0;
    loop
        invariant
            v@ == out@,
            start <= v.len(),
            url_from(out@, start as int) == url_from(out@, 0),
        decreases v.len() - start,
    {
        let mut e: usize = start;
        while e < v.len() && v[e] != '\n'
            invariant
                v@ == out@,
                start <= e <= v.len(),
                line_end(out@, e as int) == line_end(out@, start as int),
            decreases v.len() - e,
        {
            e = e + 1;
        }
        proof {
            lemma_line_end(out@, start as int);
        }
        assert(e == line_end(out@, start as int));
        let found = line_url(out.as_str(), &v, start, e);
        if found.is_some() {
            return found;
        }
        if e >= v.len() {
            return None;
        }
        start = e + 1;
    }
}

/// What the tool's run means: on exit code zero, a successful result with
/// the download page where the output gives one (and no link where it does
/// not); else the error with the exit code and both outputs.
pub open spec fn cli_outcome_ok(r: PublishResult, stdout: Seq<char>) -> bool {
    &&& r.success
    &&& r.message@ == "fir.im 上传成功"@
    &&& opt_view(r.download_url) == url_from(stdout, 0)
    &&& r.qr_code_url is None
    &&& r.build_key is None
    &&& opt_view(r.build_shortcut_url) == url_from(stdout, 0)
}

/// The error of a run of the tool that failed.
pub open spec fn cli_failure_text(exit_code: int, stdout: Seq<char>, stderr: Seq<char>) -> Seq<char> {
    "go-fir-cli 上传失败（退出码: "@ + signed_decimal(exit_code) + "）\n标准输出: "@ + stdout + "\n错误输出: "@ + stderr
}

/// Interprets a finished run of the tool: whether it exited successfully,
/// its exit code, and what it printed.
pub fn interpret_cli_output(success: bool, exit_code: i32, stdout: &String, stderr: &String) -> (r: Result<PublishResult, String>)
    ensures
        success ==> r is Ok && cli_outcome_ok(r->Ok_0, stdout@),
        !success ==> r is Err && r->Err_0@ == cli_failure_text(exit_code as int, stdout@, stderr@),
{
    if success {
        let page = download_page_url(stdout);
        let download = match &page {
            Some(u) => Some(u.clone()),
            None => None,
        };
        Ok(PublishResult {
            success: true,
            message: String::from_str("fir.im 上传成功"),
            download_url: download,
            qr_code_url: None,
            build_key: None,
            build_shortcut_url: page,
        })
    } else {
        let mut m = String::from_str("go-fir-cli 上传失败（退出码: ");
        m.append(signed_decimal_text(exit_code).as_str());
        m.append("）\n标准输出: ");
        m.append(stdout.as_str());
        m.append("\n错误输出: ");
        m.append(stderr.as_str());
        Err(m)
    }
}

proof fn lemma_sub_no_marker(s: Seq<char>, a: int, b: int)
    requires
        0 <= a <= b <= s.len(),
        !occurs(s, DOWNLOAD_PAGE_MARKER@),
    ensures
        url_in_line(s.subrange(a, b)) is None,
{
    let line = s.subrange(a, b);
    let m = DOWNLOAD_PAGE_MARKER@;
    assert forall|i: int| !occurs_at(line, m, i) by {
        if occurs_at(line, m, i) {
            assert(s.subrange(a + i, a + i + m.len()) =~= line.subrange(i, i + m.len()));
            assert(occurs_at(s, m, a + i));
        }
    }
    assert(!occurs(line, m));
}

proof fn lemma_no_marker(s: Seq<char>, start: int)
    requires
        !occurs(s, DOWNLOAD_PAGE_MARKER@),
    ensures
        url_from(s, start) is None,
    decreases s.len() - start,
{
    if 0 <= start <= s.len() {
        let e = line_end(s, start);
        lemma_line_end(s, start);
        lemma_sub_no_marker(s, start, e);
        if e < s.len() {
            lemma_no_marker(s, e + 1);
        }
    }
}

/// A run that exits successfully, with output that holds no download-page
/// marker, is a success that carries no link at all.
pub proof fn unmarked_success_has_no_links(r: PublishResult, stdout: Seq<char>)
    requires
        cli_outcome_ok(r, stdout),
        !occurs(stdout, DOWNLOAD_PAGE_MARKER@),
    ensures
        r.success,
        r.download_url is None,
        r.qr_code_url is None,
        r.build_key is None,
        r.build_shortcut_url is None,
{
    lemma_no_marker(stdout, 0);
}

} // verus!
