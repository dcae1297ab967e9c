//! Edits of the two registries, projects and publish profiles, keyed by name.
//! Reading and writing the registry files is the caller's part.

use vstd::prelude::*;
use crate::project::Project;
use crate::orchestrate::LAUNCHER_MISSING;

verus! {

/// A named publish profile, as the registry stores it.
pub struct PublishPlatformConfig {
    pub name: String,
    pub platform: String,
    pub api_key: Option<String>,
    pub api_token: Option<String>,
    pub password: Option<String>,
    pub default_description: Option<String>,
    pub go_fir_cli_path: Option<String>,
}

/// No project in `projects` is named `name`.
pub open spec fn no_project_named(projects: Seq<Project>, name: Seq<char>) -> bool {
    forall|j: int| 0 <= j < projects.len() ==> projects[j].name@ != name
}

/// No profile in `platforms` is named `name`.
pub open spec fn no_platform_named(platforms: Seq<PublishPlatformConfig>, name: Seq<char>) -> bool {
    forall|j: int| 0 <= j < platforms.len() ==> platforms[j].name@ != name
}

fn project_position(projects: &Vec<Project>, name: &String) -> (r: Option<usize>)
    ensures
        match r {
            Some(i) => crate::orchestrate::first_named(projects@, name@, i as int),
            None => no_project_named(projects@, name@),
        },
{
    let mut i: usize = 0;
    while i < projects.len()
        invariant
            i <= projects.len(),
            forall|j: int| 0 <= j < i ==> projects@[j].name@ != name@,
        decreases projects.len() - i,
    {
        if projects[i].name == *name {
            return Some(i);
        }
        i = i + 1;
    }
    None
}

/// The position of the first profile named `name`.
pub open spec fn first_platform(platforms: Seq<PublishPlatformConfig>, name: Seq<char>, i: int) -> bool {
    0 <= i < platforms.len() && platforms[i].name@ == name && forall|j: int|
        0 <= j < i ==> platforms[j].name@ != name
}

fn platform_position(platforms: &Vec<PublishPlatformConfig>, name: &String) -> (r: Option<usize>)
    ensures
        match r {
            Some(i) => first_platform(platforms@, name@, i as int),
            None => no_platform_named(platforms@, name@),
        },
{
    let mut i: usize = 0;
    while i < platforms.len()
        invariant
            i <= platforms.len(),
            forall|j: int| 0 <= j < i ==> platforms@[j].name@ != name@,
        decreases platforms.len() - i,
    {
        if platforms[i].name == *name {
            return Some(i);
        }
        i = i + 1;
    }
    None
}

fn prefixed(prefix: &str, name: &String) -> (r: String)
    ensures
        r@ == prefix@ + name@,
{
    let mut r = String::from_str(prefix);
    r.append(name.as_str());
    r
}

/// Adds `project`, whose launcher exists or not, under a name not yet taken.
pub fn add_project(projects: &mut Vec<Project>, project: Project, launcher_exists: bool) -> (r: Result<(), String>)
    ensures
        !no_project_named(old(projects)@, project.name@) ==> r is Err && r->Err_0@ == "工程名已存在："@
            + project.name@ && final(projects)@ == old(projects)@,
        no_project_named(old(projects)@, project.name@) && !launcher_exists ==> r is Err && r->Err_0@
            == LAUNCHER_MISSING@ && final(projects)@ == old(projects)@,
        no_project_named(old(projects)@, project.name@) && launcher_exists ==> r is Ok && final(projects)@
            == old(projects)@.push(project),
{
    match project_position(projects, &project.name) {
        Some(_) => return Err(prefixed("工程名已存在：", &project.name)),
        None => {},
    }
    if !launcher_exists {
        return Err(String::from_str(LAUNCHER_MISSING));
    }
    projects.push(project);
    Ok(())
}

/// Replaces the first project named `name` by `project`. Where the path
/// changes, the launcher must exist under the new one.
pub fn update_project(
    projects: &mut Vec<Project>,
    name: &String,
    project: Project,
    launcher_exists: bool,
) -> (r: Result<(), String>)
    ensures
        no_project_named(old(projects)@, name@) ==> r is Err && r->Err_0@ == "工程不存在："@ + name@
            && final(projects)@ == old(projects)@,
        forall|i: int| #[trigger] crate::orchestrate::first_named(old(projects)@, name@, i) ==> {
            if old(projects)@[i].path@ != project.path@ && !launcher_exists {
                r is Err && r->Err_0@ == LAUNCHER_MISSING@ && final(projects)@ == old(projects)@
            } else {
                r is Ok && final(projects)@ == old(projects)@.update(i, project)
            }
        },
{
    let idx = match project_position(projects, name) {
        Some(i) => i,
        None => return Err(prefixed("工程不存在：", name)),
    };
    if project.path != projects[idx].path && !launcher_exists {
        return Err(String::from_str(LAUNCHER_MISSING));
    }
    projects.set(idx, project);
    Ok(())
}

/// Removes the first project named `name`.
pub fn delete_project(projects: &mut Vec<Project>, name: &String) -> (r: Result<(), String>)
    ensures
        no_project_named(old(projects)@, name@) ==> r is Err && r->Err_0@ == "工程不存在："@ + name@
            && final(projects)@ == old(projects)@,
        forall|i: int| #[trigger] crate::orchestrate::first_named(old(projects)@, name@, i) ==> r is Ok
            && final(projects)@ == old(projects)@.remove(i),
{
    match project_position(projects, name) {
        Some(i) => {
            projects.remove(i);
            Ok(())
        },
        None => Err(prefixed("工程不存在：", name)),
    }
}

/// Adds `platform` under a name not yet taken.
pub fn add_publish_platform(platforms: &mut Vec<PublishPlatformConfig>, platform: PublishPlatformConfig) -> (r: Result<(), String>)
    ensures
        !no_platform_named(old(platforms)@, platform.name@) ==> r is Err && r->Err_0@ == "配置名称已存在："@
            + platform.name@ && final(platforms)@ == old(platforms)@,
        no_platform_named(old(platforms)@, platform.name@) ==> r is Ok && final(platforms)@ == old(
            platforms,
        )@.push(platform),
{
    match platform_position(platforms, &platform.name) {
        Some(_) => return Err(prefixed("配置名称已存在：", &platform.name)),
        None => {},
    }
    platforms.push(platform);
    Ok(())
}

/// Replaces the first profile named `name` by `platform`.
pub fn update_publish_platform(
    platforms: &mut Vec<PublishPlatformConfig>,
    name: &String,
    platform: PublishPlatformConfig,
) -> (r: Result<(), String>)
    ensures
        no_platform_named(old(platforms)@, name@) ==> r is Err && r->Err_0@ == "配置不存在："@ + name@
            && final(platforms)@ == old(platforms)@,
        forall|i: int| #[trigger] first_platform(old(platforms)@, name@, i) ==> r is Ok && final(platforms)@
            == old(platforms)@.update(i, platform),
{
    match platform_position(platforms, name) {
        Some(i) => {
            platforms.set(i, platform);
            Ok(())
        },
        None => Err(prefixed("配置不存在：", name)),
    }
}

/// Removes the first profile named `name`.
pub fn delete_publish_platform(platforms: &mut Vec<PublishPlatformConfig>, name: &String) -> (r: Result<(), String>)
    ensures
        no_platform_named(old(platforms)@, name@) ==> r is Err && r->Err_0@ == "配置不存在："@ + name@
            && final(platforms)@ == old(platforms)@,
        forall|i: int| #[trigger] first_platform(old(platforms)@, name@, i) ==> r is Ok && final(platforms)@
            == old(platforms)@.remove(i),
{
    match platform_position(platforms, name) {
        Some(i) => {
            platforms.remove(i);
            Ok(())
        },
        None => Err(prefixed("配置不存在：", name)),
    }
}

} // verus!
