//! Artifact discovery over a build-output tree.
//!
//! The walk is driven from outside: [`Locator::next_dir`] names the next
//! directory to list, and [`Locator::take_listing`] takes what its listing gave,
//! or `None` where the directory could not be read.

use vstd::prelude::*;
use crate::project::path_join;

verus! {

/// An artifact that was found: its full path and its file name.
pub struct Artifact {
    pub path: String,
    pub name: String,
}

/// One entry of a directory listing.
pub struct ListedEntry {
    pub path: String,
    pub name: String,
    pub is_dir: bool,
}

/// `i` is the position of the last `.` in `s`.
pub open spec fn last_dot_at(s: Seq<char>, i: int) -> bool {
    0 <= i < s.len() && s[i] == '.' && forall|k: int| i < k < s.len() ==> s[k] != '.'
}

/// The file name `name` has the extension `ext`: the text after its last dot,
/// where that dot does not open the name, and the name is not `..`.
pub open spec fn has_ext(name: Seq<char>, ext: Seq<char>) -> bool {
    name != seq!['.', '.'] && exists|i: int|
        #![trigger last_dot_at(name, i)]
        last_dot_at(name, i) && i > 0 && name.subrange(i + 1, name.len() as int) == ext
}

/// Whether the file name `name` has the extension `ext`.
pub fn has_extension(name: &str, ext: &str) -> (r: bool)
    ensures
        r == has_ext(name@, ext@),
{
    let v = crate::text::chars_of(name);
    let e = crate::text::chars_of(ext);
    if v.len() == 2 && v[0] == '.' && v[1] == '.' {
        assert(name@ =~= seq!['.', '.']);
        return false;
    }
    let mut i: usize = v.len();
    while i > 0 && v[i - 1] != '.'
        invariant
            v@ == name@,
            i <= v.len(),
            forall|k: int| i <= k < v.len() ==> v@[k] != '.',
        decreases i,
    {
        i = i - 1;
    }
    if i <= 1 {
        assert forall|j: int| !(last_dot_at(name@, j) && j > 0) by {
            if last_dot_at(name@, j) && j > 0 {
                if i == 1 {
                    assert(j == 0 || name@[j] != '.');
                }
            }
        }
        return false;
    }
    let d = i - 1;
    assert(last_dot_at(name@, d as int));
    assert forall|j: int| last_dot_at(name@, j) implies j == d by {
        if j < d {
            assert(name@[d as int] != '.');
        }
    }
    if v.len() - i != e.len() {
        assert(name@.subrange(i as int, name@.len() as int).len() != ext@.len());
        return false;
    }
    let mut k: usize = 0;
    while k < e.len()
        invariant
            v@ == name@,
            e@ == ext@,
            i <= v.len(),
            v.len() - i == e.len(),
            k <= e.len(),
            forall|m: int| 0 <= m < k ==> v@[i + m] == e@[m],
        decreases e.len() - k,
    {
        if v[i + k] != e[k] {
            assert(name@.subrange(i as int, name@.len() as int)[k as int] != ext@[k as int]);
            return false;
        }
        k = k + 1;
    }
    assert(name@.subrange(i as int, name@.len() as int) =~= ext@);
    true
}

/// The artifacts that one listing contributes: its files with extension `ext`.
pub open spec fn matching_files(entries: Seq<ListedEntry>, ext: Seq<char>) -> Seq<Artifact>
    decreases entries.len(),
{
    if entries.len() == 0 {
        seq![]
    } else {
        let before = matching_files(entries.drop_last(), ext);
        let e = entries.last();
        if !e.is_dir && has_ext(e.name@, ext) {
            before.push(Artifact { path: e.path, name: e.name })
        } else {
            before
        }
    }
}

/// The directories that one listing adds to the walk, each with `ext`.
pub open spec fn sub_dirs(entries: Seq<ListedEntry>, ext: String) -> Seq<(String, String)>
    decreases entries.len(),
{
    if entries.len() == 0 {
        seq![]
    } else {
        let before = sub_dirs(entries.drop_last(), ext);
        let e = entries.last();
        if e.is_dir {
            before.push((e.path, ext))
        } else {
            before
        }
    }
}

/// The two subtrees of a module that hold artifacts, with their extensions:
/// packages first, then bundles.
pub open spec fn artifact_roots(module_root: Seq<char>) -> Seq<(Seq<char>, Seq<char>)> {
    seq![
        (path_join(module_root, "build/outputs/apk"@), "apk"@),
        (path_join(module_root, "build/outputs/bundle"@), "aab"@),
    ]
}

/// Starts artifact discovery under `module_root`: the walk over its package
/// and bundle output subtrees.
pub fn find_build_artifacts(module_root: &String) -> (r: Locator)
    ensures
        r.found@ == Seq::<Artifact>::empty(),
        r.pending@.len() == 2,
        r.pending@[0].0@ == artifact_roots(module_root@)[1].0,
        r.pending@[0].1@ == artifact_roots(module_root@)[1].1,
        r.pending@[1].0@ == artifact_roots(module_root@)[0].0,
        r.pending@[1].1@ == artifact_roots(module_root@)[0].1,
{
    Locator::new(module_root)
}

/// A walk in progress: directories still to list, each with the extension
/// searched under it, and the artifacts found so far.
pub struct Locator {
    pub pending: Vec<(String, String)>,
    pub found: Vec<Artifact>,
}

impl Locator {
    /// A walk over the artifact subtrees of `module_root`, nothing found yet.
    pub fn new(module_root: &String) -> (r: Locator)
        ensures
            r.found@ == Seq::<Artifact>::empty(),
            r.pending@.len() == 2,
            r.pending@[0].0@ == artifact_roots(module_root@)[1].0,
            r.pending@[0].1@ == artifact_roots(module_root@)[1].1,
            r.pending@[1].0@ == artifact_roots(module_root@)[0].0,
            r.pending@[1].1@ == artifact_roots(module_root@)[0].1,
    {
        let apk = crate::project::join_path(module_root.as_str(), "build/outputs/apk");
        let bundle = crate::project::join_path(module_root.as_str(), "build/outputs/bundle");
        let mut pending: Vec<(String, String)> = Vec::new();
        pending.push((bundle, String::from_str("aab")));
        pending.push((apk, String::from_str("apk")));
        Locator { pending, found: Vec::new() }
    }

    /// Takes the next directory to list, with its extension; `None` once the walk is done.
    pub fn next_dir(&mut self) -> (r: Option<(String, String)>)
        ensures
            final(self).found@ == old(self).found@,
            old(self).pending@.len() == 0 ==> r is None && final(self).pending@ == old(self).pending@,
            old(self).pending@.len() > 0 ==> r == Some(old(self).pending@.last())
                && final(self).pending@ == old(self).pending@.drop_last(),
    {
        self.pending.pop()
    }

    /// Takes the listing of a directory searched for `ext`. A listing that
    /// could not be read (`None`) adds nothing and fails nothing.
    pub fn take_listing(&mut self, ext: &String, listing: Option<Vec<ListedEntry>>)
        ensures
            listing is None ==> *final(self) == *old(self),
            listing is Some ==> final(self).found@ == old(self).found@ + matching_files(listing->Some_0@, ext@)
                && final(self).pending@ == old(self).pending@ + sub_dirs(listing->Some_0@, *ext),
    {
        match listing {
            None => {},
            Some(entries) => {
                let ghost found0 = self.found@;
                let ghost pending0 = self.pending@;
                let mut i: usize = 0;
                while i < entries.len()
                    invariant
                        i <= entries.len(),
                        self.found@ == found0 + matching_files(entries@.subrange(0, i as int), ext@),
                        self.pending@ == pending0 + sub_dirs(entries@.subrange(0, i as int), *ext),
                    decreases entries.len() - i,
                {
                    let e = &entries[i];
                    let ghost pre = entries@.subrange(0, i as int);
                    assert(entries@.subrange(0, i + 1).drop_last() =~= pre);
                    if e.is_dir {
                        self.pending.push((e.path.clone(), ext.clone()));
                    } else if has_extension(e.name.as_str(), ext.as_str()) {
                        self.found.push(Artifact { path: e.path.clone(), name: e.name.clone() });
                    }
                    assert(self.found@ =~= found0 + matching_files(entries@.subrange(0, i + 1), ext@));
                    assert(self.pending@ =~= pending0 + sub_dirs(entries@.subrange(0, i + 1), *ext));
                    i = i + 1;
                }
                assert(entries@.subrange(0, i as int) =~= entries@);
            },
        }
    }
}

} // verus!
