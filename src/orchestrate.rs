//! The build orchestrator's decisions: the plan of a build, the narration of
//! its log, and the staging of artifacts into the output directory.

use vstd::prelude::*;
use crate::project::{
    Project, opt_view, resolved, resolved_build_type, task_id, output_dir_of, module_dir, path_join,
    launcher_file, resolve_param, resolve_build_type, task_name, output_dir, module_root,
    launcher_path,
};
use crate::locate::Artifact;
use crate::text::{decimal, decimal_text};

verus! {

/// The error when no registered project has the requested name.
pub const PROJECT_NOT_FOUND: &'static str = "未找到工程";

/// The error when the build-tool launcher is missing from the project root.
pub const LAUNCHER_MISSING: &'static str = "未找到 gradlew，请确认工程路径正确";

/// Everything a build needs, resolved from a request and its project.
pub struct BuildPlan {
    pub module: Option<String>,
    pub variant: Option<String>,
    pub build_type: String,
    pub task: String,
    pub output_dir: String,
    pub module_root: String,
    pub launcher: String,
    pub workdir: String,
}

/// The position of the first project named `name`.
pub open spec fn first_named(projects: Seq<Project>, name: Seq<char>, i: int) -> bool {
    0 <= i < projects.len() && projects[i].name@ == name && forall|j: int|
        0 <= j < i ==> projects[j].name@ != name
}

/// `plan` is the resolution of a request (`module`, `variant`, `build_type`,
/// `out`) against `project`.
pub open spec fn plans(
    plan: BuildPlan,
    project: Project,
    module: Option<Seq<char>>,
    variant: Option<Seq<char>>,
    build_type: Option<Seq<char>>,
    out: Option<Seq<char>>,
    windows: bool,
) -> bool {
    let m = resolved(module, project.modules, opt_view(project.default_module));
    let v = resolved(variant, project.variants, opt_view(project.default_variant));
    let b = resolved_build_type(build_type, opt_view(project.build_type));
    &&& opt_view(plan.module) == m
    &&& opt_view(plan.variant) == v
    &&& plan.build_type@ == b
    &&& plan.task@ == task_id(m, v, b)
    &&& plan.output_dir@ == output_dir_of(out, project.path@, m, v, b)
    &&& plan.module_root@ == module_dir(project.path@, m)
    &&& plan.launcher@ == path_join(project.path@, launcher_file(windows))
    &&& plan.workdir@ == project.path@
}

fn position_of(projects: &Vec<Project>, name: &String) -> (r: Option<usize>)
    ensures
        match r {
            Some(i) => first_named(projects@, name@, i as int),
            None => forall|j: int| 0 <= j < projects@.len() ==> projects@[j].name@ != name@,
        },
{
    let mut i: usize = 0;
    while i < projects.len()
        invariant
            i <= projects.len(),
            forall|j: int| 0 <= j < i ==> projects@[j].name@ != name@,
        decreases projects.len() - i,
    {
        if projects[i].name == *name {
            return Some(i);
        }
        i = i + 1;
    }
    None
}

/// Resolves a build request against the project named `name`: effective
/// module, variant and build type, the task, the output directory, the
/// directory searched for artifacts and the launcher's path.
pub fn plan_build(
    projects: &Vec<Project>,
    name: &String,
    module: Option<String>,
    variant: Option<String>,
    build_type: Option<String>,
    out: Option<String>,
    windows: bool,
) -> (r: Result<BuildPlan, String>)
    ensures
        match r {
            Ok(plan) => exists|i: int|
                first_named(projects@, name@, i) && plans(
                    plan,
                    projects@[i],
                    opt_view(module),
                    opt_view(variant),
                    opt_view(build_type),
                    opt_view(out),
                    windows,
                ),
            Err(e) => e@ == PROJECT_NOT_FOUND@ && forall|j: int|
                0 <= j < projects@.len() ==> projects@[j].name@ != name@,
        },
{
    let idx = match position_of(projects, name) {
        Some(i) => i,
        None => return Err(String::from_str(PROJECT_NOT_FOUND)),
    };
    let project = &projects[idx];
    let ghost (m0, v0, b0, o0) = (opt_view(module), opt_view(variant), opt_view(build_type), opt_view(out));
    let variant = resolve_param(variant, &project.variants, &project.default_variant);
    let build_type = resolve_build_type(build_type, &project.build_type);
    let module = resolve_param(module, &project.modules, &project.default_module);
    let task = task_name(&module, &variant, &build_type);
    let output_dir = output_dir(&out, &project.path, &module, &variant, &build_type);
    let module_root = module_root(&project.path, &module);
    let launcher = launcher_path(&project.path, windows);
    let plan = BuildPlan {
        module,
        variant,
        build_type,
        task,
        output_dir,
        module_root,
        launcher,
        workdir: project.path.clone(),
    };
    assert(plans(plan, projects@[idx as int], m0, v0, b0, o0, windows));
    Ok(plan)
}

/// The log of a build that failed: the output directory, then the tool's output.
pub open spec fn failed_log(output_dir: Seq<char>, raw: Seq<char>) -> Seq<char> {
    "输出目录: "@ + output_dir + "\n\n"@ + raw
}

/// The log of a build that failed.
pub fn failed_build_log(output_dir: &String, raw: &String) -> (r: String)
    ensures
        r@ == failed_log(output_dir@, raw@),
{
    let mut r = String::from_str("输出目录: ");
    r.append(output_dir.as_str());
    r.append("\n\n");
    r.append(raw.as_str());
    r
}

/// What follows the tool's output once the build succeeded: the output
/// directory and the directory searched.
pub open spec fn success_intro(raw: Seq<char>, output_dir: Seq<char>, module_root: Seq<char>) -> Seq<char> {
    raw + "\n\n输出目录: "@ + output_dir + "\n"@ + "查找路径: "@ + module_root + "\n"@
}

/// The tool's output with the output directory and the searched directory after it.
pub fn success_log_intro(raw: &String, output_dir: &String, module_root: &String) -> (r: String)
    ensures
        r@ == success_intro(raw@, output_dir@, module_root@),
{
    let mut r = raw.clone();
    r.append("\n\n输出目录: ");
    r.append(output_dir.as_str());
    r.append("\n");
    r.append("查找路径: ");
    r.append(module_root.as_str());
    r.append("\n");
    r
}

/// One line per artifact path.
pub open spec fn listing_lines(artifacts: Seq<Artifact>) -> Seq<char>
    decreases artifacts.len(),
{
    if artifacts.len() == 0 {
        Seq::empty()
    } else {
        listing_lines(artifacts.drop_last()) + "  - "@ + artifacts.last().path@ + "\n"@
    }
}

/// The report on what was found: the count, then each path, or a notice that
/// nothing was found.
pub open spec fn found_report(artifacts: Seq<Artifact>) -> Seq<char> {
    "找到 "@ + decimal(artifacts.len()) + " 个构建产物\n"@ + if artifacts.len() == 0 {
        "未找到构建产物，请检查构建是否成功\n"@
    } else {
        listing_lines(artifacts)
    }
}

/// The report on the artifacts that were found.
pub fn artifact_report(artifacts: &Vec<Artifact>) -> (r: String)
    ensures
        r@ == found_report(artifacts@),
{
    let mut r = String::from_str("找到 ");
    r.append(decimal_text(artifacts.len() as u64).as_str());
    r.append(" 个构建产物\n");
    if artifacts.len() == 0 {
        r.append("未找到构建产物，请检查构建是否成功\n");
        return r;
    }
    let ghost head = r@;
    let mut i: usize = 0;
    while i < artifacts.len()
        invariant
            i <= artifacts.len(),
            r@ == head + listing_lines(artifacts@.subrange(0, i as int)),
        decreases artifacts.len() - i,
    {
        assert(artifacts@.subrange(0, i + 1).drop_last() =~= artifacts@.subrange(0, i as int));
        r.append("  - ");
        r.append(artifacts[i].path.as_str());
        r.append("\n");
        assert(r@ =~= head + listing_lines(artifacts@.subrange(0, i + 1)));
        i = i + 1;
    }
    assert(artifacts@.subrange(0, i as int) =~= artifacts@);
    r
}

} // verus!
