//! Staging of artifacts into the output directory: what is removed, what is
//! copied where, and the log line of each outcome.

use vstd::prelude::*;
use crate::locate::{Artifact, ListedEntry};
use crate::project::path_join;

verus! {

/// One copy of an artifact into the output directory.
pub struct CopyStep {
    pub from: String,
    pub to: String,
    pub name: String,
}

/// The staging of one build: the entries of the output directory to remove,
/// then the copies to make into it.
pub struct StagePlan {
    pub clean: Vec<ListedEntry>,
    pub copies: Vec<CopyStep>,
}

/// The copies for `artifacts` into `dest`, each under its file name.
pub open spec fn copies_into(dest: Seq<char>, artifacts: Seq<Artifact>, copies: Seq<CopyStep>) -> bool {
    &&& copies.len() == artifacts.len()
    &&& forall|i: int|
        0 <= i < copies.len() ==> {
            &&& #[trigger] copies[i].from@ == artifacts[i].path@
            &&& copies[i].name@ == artifacts[i].name@
            &&& copies[i].to@ == path_join(dest, artifacts[i].name@)
        }
}

/// Plans the staging of `artifacts` into `dest`. `existing` is the listing of
/// `dest`, or `None` where it does not exist or could not be listed.
pub fn staging_plan(dest: &String, existing: Option<Vec<ListedEntry>>, artifacts: &Vec<Artifact>) -> (r: StagePlan)
    ensures
        existing is None ==> r.clean@.len() == 0,
        existing is Some ==> r.clean@ == existing->Some_0@,
        copies_into(dest@, artifacts@, r.copies@),
{
    let clean = match existing {
        Some(v) => v,
        None => Vec::new(),
    };
    let mut copies: Vec<CopyStep> = Vec::new();
    let mut i: usize = 0;
    while i < artifacts.len()
        invariant
            i <= artifacts.len(),
            copies_into(dest@, artifacts@.subrange(0, i as int), copies@),
        decreases artifacts.len() - i,
    {
        let a = &artifacts[i];
        let to = crate::project::join_path(dest.as_str(), a.name.as_str());
        let ghost before = copies@;
        copies.push(CopyStep { from: a.path.clone(), to, name: a.name.clone() });
        assert(copies_into(dest@, artifacts@.subrange(0, i + 1), copies@)) by {
            assert forall|k: int| 0 <= k < copies@.len() implies {
                &&& #[trigger] copies@[k].from@ == artifacts@.subrange(0, i + 1)[k].path@
                &&& copies@[k].name@ == artifacts@.subrange(0, i + 1)[k].name@
                &&& copies@[k].to@ == path_join(dest@, artifacts@.subrange(0, i + 1)[k].name@)
            } by {
                if k < i {
                    assert(artifacts@.subrange(0, i as int)[k] == artifacts@.subrange(0, i + 1)[k]);
                    assert(before[k] == copies@[k]);
                    assert(before[k].from@ == artifacts@.subrange(0, i as int)[k].path@);
                }
            }
        }
        i = i + 1;
    }
    assert(artifacts@.subrange(0, i as int) =~= artifacts@);
    StagePlan { clean, copies }
}

/// The names of the entries of a listing.
pub open spec fn entry_names(entries: Seq<ListedEntry>) -> Set<Seq<char>> {
    Set::new(|n: Seq<char>| exists|i: int| 0 <= i < entries.len() && #[trigger] entries[i].name@ == n)
}

/// The file names of a set of artifacts.
pub open spec fn artifact_names(artifacts: Seq<Artifact>) -> Set<Seq<char>> {
    Set::new(|n: Seq<char>| exists|i: int| 0 <= i < artifacts.len() && #[trigger] artifacts[i].name@ == n)
}

/// The names in the output directory after a staging whose steps all
/// succeeded: those of `prior` that `listing` did not remove, and the copied ones.
pub open spec fn staged(prior: Set<Seq<char>>, listing: Seq<ListedEntry>, artifacts: Seq<Artifact>) -> Set<Seq<char>> {
    prior.difference(entry_names(listing)).union(artifact_names(artifacts))
}

/// Staging from a complete listing of the output directory leaves it holding
/// exactly the staged artifacts, whatever it held before; so a second staging
/// of the same artifacts leaves it as the first did.
pub proof fn staging_is_idempotent(
    prior: Set<Seq<char>>,
    first: Seq<ListedEntry>,
    second: Seq<ListedEntry>,
    artifacts: Seq<Artifact>,
)
    requires
        entry_names(first) == prior,
        entry_names(second) == staged(prior, first, artifacts),
    ensures
        staged(prior, first, artifacts) == artifact_names(artifacts),
        staged(staged(prior, first, artifacts), second, artifacts) == staged(prior, first, artifacts),
{
    assert(staged(prior, first, artifacts) =~= artifact_names(artifacts));
    assert(staged(staged(prior, first, artifacts), second, artifacts) =~= artifact_names(artifacts));
}

/// What happened at one step of staging.
pub enum StageEvent {
    Cleaning { dir: String },
    CleanFailed { path: String, error: String },
    CreateFailed { error: String },
    SourceMissing { path: String },
    CopyFailed { name: String, error: String },
    Copied { name: String, to: String },
}

/// The log line of a staging event.
pub open spec fn event_text(e: StageEvent) -> Seq<char> {
    match e {
        StageEvent::Cleaning { dir } => "清理输出目录: "@ + dir@ + "\n"@,
        StageEvent::CleanFailed { path, error } => "⚠️ 清理文件/目录失败: "@ + path@ + ": "@ + error@ + "\n"@,
        StageEvent::CreateFailed { error } => "创建输出目录失败: "@ + error@ + "\n"@,
        StageEvent::SourceMissing { path } => "❌ 源文件不存在: "@ + path@ + "\n"@,
        StageEvent::CopyFailed { name, error } => "❌ 复制失败 "@ + name@ + ": "@ + error@ + "\n"@,
        StageEvent::Copied { name, to } => "✅ 已复制: "@ + name@ + " -> "@ + to@ + "\n"@,
    }
}

/// The log line of a staging event.
pub fn stage_line(e: &StageEvent) -> (r: String)
    ensures
        r@ == event_text(*e),
{
    match e {
        StageEvent::Cleaning { dir } => {
            let mut r = String::from_str("清理输出目录: ");
            r.append(dir.as_str());
            r.append("\n");
            r
        },
        StageEvent::CleanFailed { path, error } => {
            let mut r = String::from_str("⚠️ 清理文件/目录失败: ");
            r.append(path.as_str());
            r.append(": ");
            r.append(error.as_str());
            r.append("\n");
            r
        },
        StageEvent::CreateFailed { error } => {
            let mut r = String::from_str("创建输出目录失败: ");
            r.append(error.as_str());
            r.append("\n");
            r
        },
        StageEvent::SourceMissing { path } => {
            let mut r = String::from_str("❌ 源文件不存在: ");
            r.append(path.as_str());
            r.append("\n");
            r
        },
        StageEvent::CopyFailed { name, error } => {
            let mut r = String::from_str("❌ 复制失败 ");
            r.append(name.as_str());
            r.append(": ");
            r.append(error.as_str());
            r.append("\n");
            r
        },
        StageEvent::Copied { name, to } => {
            let mut r = String::from_str("✅ 已复制: ");
            r.append(name.as_str());
            r.append(" -> ");
            r.append(to.as_str());
            r.append("\n");
            r
        },
    }
}

} // verus!
