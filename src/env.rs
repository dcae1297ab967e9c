//! Reports on the build environment, made from the outcome of a probe command:
//! whether it succeeded and what it printed.

use vstd::prelude::*;

verus! {

/// The report on one tool of the build environment.
pub struct EnvCheck {
    pub tool: String,
    pub ok: bool,
    pub message: String,
    pub detail: Option<String>,
}

/// `r` reports on `tool`, with the probe's outcome `ok`, its output as detail,
/// and `message`.
pub open spec fn reports(r: EnvCheck, tool: Seq<char>, ok: bool, out: Seq<char>, message: Seq<char>) -> bool {
    &&& r.tool@ == tool
    &&& r.ok == ok
    &&& r.message@ == message
    &&& r.detail is Some && r.detail->Some_0@ == out
}

/// The report on the JDK, from the outcome of `java -version`.
pub fn check_java(ok: bool, out: String) -> (r: EnvCheck)
    ensures
        reports(r, "Java (JDK)"@, ok, out@, if ok { "已检测到 JDK"@ } else { "未检测到 JDK，请安装 JDK 17+"@ }),
{
    let message = if ok {
        String::from_str("已检测到 JDK")
    } else {
        String::from_str("未检测到 JDK，请安装 JDK 17+")
    };
    EnvCheck { tool: String::from_str("Java (JDK)"), ok, message, detail: Some(out) }
}

/// The report on `JAVA_HOME`, from the outcome of the `java_home` probe.
pub fn check_java_home(ok: bool, out: String) -> (r: EnvCheck)
    ensures
        reports(r, "JAVA_HOME"@, ok, out@, if ok { "JAVA_HOME: "@ + out@ } else { "未检测到 JAVA_HOME"@ }),
{
    let message = if ok {
        let mut m = String::from_str("JAVA_HOME: ");
        m.append(out.as_str());
        m
    } else {
        String::from_str("未检测到 JAVA_HOME")
    };
    EnvCheck { tool: String::from_str("JAVA_HOME"), ok, message, detail: Some(out) }
}

/// The report on the Xcode command line tools, from the outcome of `xcode-select -p`.
pub fn check_xcode(ok: bool, out: String) -> (r: EnvCheck)
    ensures
        reports(
            r,
            "Xcode CLT"@,
            ok,
            out@,
            if ok { "已检测到 Xcode Command Line Tools: "@ + out@ } else { "未检测到 Xcode CLT"@ },
        ),
{
    let message = if ok {
        let mut m = String::from_str("已检测到 Xcode Command Line Tools: ");
        m.append(out.as_str());
        m
    } else {
        String::from_str("未检测到 Xcode CLT")
    };
    EnvCheck { tool: String::from_str("Xcode CLT"), ok, message, detail: Some(out) }
}

} // verus!
