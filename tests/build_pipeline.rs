use std::collections::BTreeSet;
use apk_release::env::{check_java, check_java_home, check_xcode};
use apk_release::locate::{find_build_artifacts, has_extension, Artifact, ListedEntry};
use apk_release::orchestrate::{
    artifact_report, failed_build_log, plan_build, success_log_intro, LAUNCHER_MISSING, PROJECT_NOT_FOUND,
};
use apk_release::project::{join_path, output_dir, resolve_build_type, resolve_param, task_name, Project};
use apk_release::registry::{
    add_project, add_publish_platform, delete_project, delete_publish_platform, update_project,
    update_publish_platform, PublishPlatformConfig,
};
use apk_release::stage::{stage_line, staging_plan, StageEvent};
use apk_release::text::{decimal_text, signed_decimal_text, trim};

fn s(x: &str) -> String {
    x.to_string()
}

fn sample_project() -> Project {
    Project {
        name: s("app"),
        path: s("/tmp/app"),
        default_module: None,
        modules: Some(vec![s("app")]),
        default_variant: None,
        variants: Some(vec![s("free")]),
        build_type: Some(s("Debug")),
    }
}

fn entry(path: &str, name: &str, is_dir: bool) -> ListedEntry {
    ListedEntry { path: s(path), name: s(name), is_dir }
}

#[test]
fn project_defaults_give_task_and_output_dir() {
    let plan = plan_build(&vec![sample_project()], &s("app"), None, None, None, None, false).unwrap();
    // The variant's spelling is kept as registered.
    assert_eq!(plan.task, ":app:assemblefreeDebug");
    assert_eq!(plan.output_dir, "/tmp/app/app/free/Debug");
    assert_eq!(plan.module_root, "/tmp/app/app");
    assert_eq!(plan.launcher, "/tmp/app/gradlew");
    assert_eq!(plan.workdir, "/tmp/app");
}

#[test]
fn capitalised_variant_gives_capitalised_task() {
    let mut p = sample_project();
    p.variants = Some(vec![s("Free")]);
    let plan = plan_build(&vec![p], &s("app"), None, None, None, None, false).unwrap();
    assert_eq!(plan.task, ":app:assembleFreeDebug");
    assert_eq!(plan.output_dir, "/tmp/app/app/Free/Debug");
}

#[test]
fn explicit_arguments_win_over_project_defaults() {
    let plan = plan_build(
        &vec![sample_project()],
        &s("app"),
        Some(s("lib")),
        Some(s("paid")),
        Some(s("Release")),
        Some(s("/out")),
        true,
    )
    .unwrap();
    assert_eq!(plan.task, ":lib:assemblepaidRelease");
    assert_eq!(plan.output_dir, "/out");
    assert_eq!(plan.module_root, "/tmp/app/lib");
    assert_eq!(plan.launcher, "/tmp/app/gradlew.bat");
}

#[test]
fn unknown_project_is_not_found() {
    let r = plan_build(&vec![sample_project()], &s("other"), None, None, None, None, false);
    assert_eq!(r.err().unwrap(), PROJECT_NOT_FOUND);
}

#[test]
fn task_name_concatenates_verbatim() {
    assert_eq!(task_name(&None, &None, &s("Debug")), "assembleDebug");
    assert_eq!(task_name(&None, &Some(s("fReE")), &s("dEbug")), "assemblefReEdEbug");
    assert_eq!(task_name(&Some(s("m")), &None, &s("Release")), ":m:assembleRelease");
    assert_eq!(task_name(&Some(s("m")), &Some(s("v")), &s("b")), ":m:assemblevb");
}

#[test]
fn parameter_precedence() {
    assert_eq!(resolve_param(Some(s("x")), &Some(vec![s("y")]), &Some(s("z"))), Some(s("x")));
    assert_eq!(resolve_param(None, &Some(vec![s("y"), s("w")]), &Some(s("z"))), Some(s("y")));
    assert_eq!(resolve_param(None, &Some(vec![]), &Some(s("z"))), Some(s("z")));
    assert_eq!(resolve_param(None, &None, &None), None);
    assert_eq!(resolve_build_type(None, &None), "Debug");
    assert_eq!(resolve_build_type(None, &Some(s("Release"))), "Release");
    assert_eq!(resolve_build_type(Some(s("Beta")), &Some(s("Release"))), "Beta");
}

#[test]
fn output_dir_without_module_or_variant() {
    assert_eq!(output_dir(&None, &s("/p"), &None, &None, &s("Debug")), "/p/Debug");
    assert_eq!(output_dir(&None, &s("/p/"), &None, &Some(s("v")), &s("Debug")), "/p/v/Debug");
}

#[test]
fn path_join_cases() {
    assert_eq!(join_path("/a", "b"), "/a/b");
    assert_eq!(join_path("/a/", "b"), "/a/b");
    assert_eq!(join_path("", "b"), "b");
    assert_eq!(join_path("/a", "/b"), "/b");
}

#[test]
fn extension_matching() {
    assert!(has_extension("app-debug.apk", "apk"));
    assert!(has_extension("x.tar.aab", "aab"));
    assert!(!has_extension(".apk", "apk"));
    assert!(!has_extension("app.apk", "aab"));
    assert!(!has_extension("apk", "apk"));
    assert!(!has_extension("..", ""));
    assert!(has_extension("a.", ""));
}

#[test]
fn locator_skips_unreadable_directories() {
    let mut loc = find_build_artifacts(&s("/m"));
    let (dir, ext) = loc.next_dir().unwrap();
    assert_eq!(dir, "/m/build/outputs/apk");
    assert_eq!(ext, "apk");
    loc.take_listing(
        &ext,
        Some(vec![
            entry("/m/build/outputs/apk/free", "free", true),
            entry("/m/build/outputs/apk/locked", "locked", true),
            entry("/m/build/outputs/apk/a.apk", "a.apk", false),
            entry("/m/build/outputs/apk/notes.txt", "notes.txt", false),
        ]),
    );
    let mut seen = 0;
    while let Some((dir, ext)) = loc.next_dir() {
        seen += 1;
        if dir.ends_with("locked") {
            loc.take_listing(&ext, None);
        } else if dir.ends_with("free") {
            loc.take_listing(&ext, Some(vec![entry("/m/build/outputs/apk/free/b.apk", "b.apk", false)]));
        } else {
            assert_eq!(dir, "/m/build/outputs/bundle");
            assert_eq!(ext, "aab");
            loc.take_listing(&ext, Some(vec![entry("/m/build/outputs/bundle/c.aab", "c.aab", false)]));
        }
    }
    assert_eq!(seen, 3);
    let mut paths: Vec<String> = loc.found.iter().map(|a| a.path.clone()).collect();
    paths.sort();
    assert_eq!(
        paths,
        vec![
            s("/m/build/outputs/apk/a.apk"),
            s("/m/build/outputs/apk/free/b.apk"),
            s("/m/build/outputs/bundle/c.aab")
        ]
    );
}

#[test]
fn locator_with_nothing_readable_finds_nothing() {
    let mut loc = find_build_artifacts(&s("/m"));
    while let Some((_, ext)) = loc.next_dir() {
        loc.take_listing(&ext, None);
    }
    assert!(loc.found.is_empty());
}

fn artifact(path: &str, name: &str) -> Artifact {
    Artifact { path: s(path), name: s(name) }
}

#[test]
fn staging_plan_clears_and_copies_by_name() {
    let arts = vec![artifact("/m/x/a.apk", "a.apk"), artifact("/m/y/b.aab", "b.aab")];
    let plan = staging_plan(&s("/out"), Some(vec![entry("/out/old.apk", "old.apk", false)]), &arts);
    assert_eq!(plan.clean.len(), 1);
    assert_eq!(plan.clean[0].path, "/out/old.apk");
    assert_eq!(plan.copies.len(), 2);
    assert_eq!(plan.copies[0].from, "/m/x/a.apk");
    assert_eq!(plan.copies[0].to, "/out/a.apk");
    assert_eq!(plan.copies[1].to, "/out/b.aab");
    let fresh = staging_plan(&s("/out"), None, &arts);
    assert!(fresh.clean.is_empty());
}

#[test]
fn staging_twice_leaves_same_contents() {
    let arts = vec![artifact("/m/a.apk", "a.apk"), artifact("/m/b.apk", "b.apk")];
    let apply = |prior: &BTreeSet<String>| -> BTreeSet<String> {
        let listing: Vec<ListedEntry> = prior.iter().map(|n| entry(&format!("/out/{n}"), n, false)).collect();
        let plan = staging_plan(&s("/out"), Some(listing), &arts);
        let mut now = prior.clone();
        for e in &plan.clean {
            now.remove(&e.name);
        }
        for c in &plan.copies {
            now.insert(c.name.clone());
        }
        now
    };
    let prior: BTreeSet<String> = [s("stale.apk"), s("a.apk")].into_iter().collect();
    let once = apply(&prior);
    let twice = apply(&once);
    let expected: BTreeSet<String> = [s("a.apk"), s("b.apk")].into_iter().collect();
    assert_eq!(once, expected);
    assert_eq!(twice, expected);
}

#[test]
fn stage_lines() {
    assert_eq!(stage_line(&StageEvent::Cleaning { dir: s("/o") }), "清理输出目录: /o\n");
    assert_eq!(
        stage_line(&StageEvent::CleanFailed { path: s("/o/x"), error: s("busy") }),
        "⚠️ 清理文件/目录失败: /o/x: busy\n"
    );
    assert_eq!(stage_line(&StageEvent::CreateFailed { error: s("denied") }), "创建输出目录失败: denied\n");
    assert_eq!(stage_line(&StageEvent::SourceMissing { path: s("/a.apk") }), "❌ 源文件不存在: /a.apk\n");
    assert_eq!(
        stage_line(&StageEvent::CopyFailed { name: s("a.apk"), error: s("full") }),
        "❌ 复制失败 a.apk: full\n"
    );
    assert_eq!(
        stage_line(&StageEvent::Copied { name: s("a.apk"), to: s("/o/a.apk") }),
        "✅ 已复制: a.apk -> /o/a.apk\n"
    );
}

#[test]
fn build_logs() {
    assert_eq!(failed_build_log(&s("/o"), &s("boom")), "输出目录: /o\n\nboom");
    assert_eq!(success_log_intro(&s("ok"), &s("/o"), &s("/m")), "ok\n\n输出目录: /o\n查找路径: /m\n");
    assert_eq!(artifact_report(&vec![]), "找到 0 个构建产物\n未找到构建产物，请检查构建是否成功\n");
    let arts: Vec<Artifact> = (0..12).map(|i| artifact(&format!("/p{i}.apk"), "x.apk")).collect();
    let report = artifact_report(&arts);
    assert!(report.starts_with("找到 12 个构建产物\n  - /p0.apk\n  - /p1.apk\n"));
    assert!(report.ends_with("  - /p11.apk\n"));
}

#[test]
fn environment_reports() {
    let j = check_java(true, s("openjdk 17"));
    assert_eq!(j.tool, "Java (JDK)");
    assert!(j.ok);
    assert_eq!(j.message, "已检测到 JDK");
    assert_eq!(j.detail, Some(s("openjdk 17")));
    assert_eq!(check_java(false, s("")).message, "未检测到 JDK，请安装 JDK 17+");
    assert_eq!(check_java_home(true, s("/jdk")).message, "JAVA_HOME: /jdk");
    assert_eq!(check_java_home(false, s("x")).message, "未检测到 JAVA_HOME");
    assert_eq!(check_xcode(true, s("/xc")).message, "已检测到 Xcode Command Line Tools: /xc");
    assert_eq!(check_xcode(false, s("x")).tool, "Xcode CLT");
    assert_eq!(check_xcode(false, s("x")).message, "未检测到 Xcode CLT");
}

#[test]
fn numerals_and_trimming() {
    assert_eq!(decimal_text(0), "0");
    assert_eq!(decimal_text(1247), "1247");
    assert_eq!(decimal_text(u64::MAX), u64::MAX.to_string());
    assert_eq!(signed_decimal_text(-1), "-1");
    assert_eq!(signed_decimal_text(i32::MIN), i32::MIN.to_string());
    assert_eq!(trim("  a b \n"), "a b");
    assert_eq!(trim("\u{3000}x\u{a0}"), "x");
    assert_eq!(trim("   "), "");
}

#[test]
fn project_registry_edits() {
    let mut ps = vec![sample_project()];
    assert_eq!(add_project(&mut ps, sample_project(), true).err().unwrap(), "工程名已存在：app");
    let mut other = sample_project();
    other.name = s("other");
    assert_eq!(add_project(&mut ps, other, false).err().unwrap(), LAUNCHER_MISSING);
    let mut other = sample_project();
    other.name = s("other");
    assert!(add_project(&mut ps, other, true).is_ok());
    assert_eq!(ps.len(), 2);
    let mut moved = sample_project();
    moved.path = s("/elsewhere");
    assert_eq!(update_project(&mut ps, &s("app"), moved, false).err().unwrap(), LAUNCHER_MISSING);
    let mut same_path = sample_project();
    same_path.build_type = Some(s("Release"));
    assert!(update_project(&mut ps, &s("app"), same_path, false).is_ok());
    assert_eq!(ps[0].build_type, Some(s("Release")));
    assert_eq!(update_project(&mut ps, &s("nope"), sample_project(), true).err().unwrap(), "工程不存在：nope");
    assert!(delete_project(&mut ps, &s("app")).is_ok());
    assert_eq!(ps.len(), 1);
    assert_eq!(ps[0].name, "other");
    assert_eq!(delete_project(&mut ps, &s("app")).err().unwrap(), "工程不存在：app");
}

fn profile(name: &str) -> PublishPlatformConfig {
    PublishPlatformConfig {
        name: s(name),
        platform: s("pgyer"),
        api_key: Some(s("k")),
        api_token: None,
        password: None,
        default_description: None,
        go_fir_cli_path: None,
    }
}

#[test]
fn profile_registry_edits() {
    let mut ps = vec![profile("a")];
    assert_eq!(add_publish_platform(&mut ps, profile("a")).err().unwrap(), "配置名称已存在：a");
    assert!(add_publish_platform(&mut ps, profile("b")).is_ok());
    let mut b2 = profile("b");
    b2.platform = s("fir");
    assert!(update_publish_platform(&mut ps, &s("b"), b2).is_ok());
    assert_eq!(ps[1].platform, "fir");
    assert_eq!(update_publish_platform(&mut ps, &s("c"), profile("c")).err().unwrap(), "配置不存在：c");
    assert!(delete_publish_platform(&mut ps, &s("a")).is_ok());
    assert_eq!(ps.len(), 1);
    assert_eq!(delete_publish_platform(&mut ps, &s("a")).err().unwrap(), "配置不存在：a");
}
