use vstd::prelude::*;
use crate::paths::{
    ends_with_separator, ends_with_slash, join_path, parent_path, path_eq, path_join, path_parent,
    same_path,
};

verus! {

/// One path to create, and how.
#[derive(Clone, Debug, PartialEq, Eq)]
pub struct Entry {
    /// The path that is created and reported, as given (joined onto the temp base in temp mode).
    pub path: String,
    /// Created as a directory (with its ancestors) rather than as an empty file.
    pub dir: bool,
    /// For a file, the directory created (with its ancestors) before the file, if any.
    pub parent: Option<String>,
}

/// What an `Entry` says, over plain values.
pub struct EntryModel {
    pub path: Seq<char>,
    pub dir: bool,
    pub parent: Option<Seq<char>>,
}

impl View for Entry {
    type V = EntryModel;

    open spec fn view(&self) -> EntryModel {
        EntryModel { path: self.path@, dir: self.dir, parent: self.parent.deep_view() }
    }
}

/// An entry is a directory in dir mode or where its string ends in the separator.
pub open spec fn is_dir_entry(p: Seq<char>, dir_mode: bool) -> bool {
    dir_mode || ends_with_separator(p)
}

/// The entry for a path created relative to the working directory. A file's parent is
/// created first, unless it is empty or the current directory.
pub open spec fn spec_entry_in_place(p: Seq<char>, dir_mode: bool) -> EntryModel {
    if is_dir_entry(p, dir_mode) {
        EntryModel { path: p, dir: true, parent: None }
    } else {
        EntryModel {
            path: p,
            dir: false,
            parent: match path_parent(p) {
                Some(q) => if path_eq(q, Seq::empty()) || path_eq(q, seq!['.']) {
                    None
                } else {
                    Some(q)
                },
                None => None,
            },
        }
    }
}

/// The entry for a path created inside the directory `base`. A file's parent is created
/// first, unless it is `base` itself.
pub open spec fn spec_entry_in(base: Seq<char>, p: Seq<char>, dir_mode: bool) -> EntryModel {
    let full = path_join(base, p);
    if is_dir_entry(p, dir_mode) {
        EntryModel { path: full, dir: true, parent: None }
    } else {
        EntryModel {
            path: full,
            dir: false,
            parent: match path_parent(full) {
                Some(q) => if path_eq(q, base) {
                    None
                } else {
                    Some(q)
                },
                None => None,
            },
        }
    }
}

/// The entry for a path, in place or inside `base`.
pub open spec fn spec_entry(base: Option<Seq<char>>, p: Seq<char>, dir_mode: bool) -> EntryModel {
    match base {
        None => spec_entry_in_place(p, dir_mode),
        Some(b) => spec_entry_in(b, p, dir_mode),
    }
}

/// The entries for a list of paths, one per path, in order.
pub open spec fn spec_plan(base: Option<Seq<char>>, paths: Seq<Seq<char>>, dir_mode: bool) -> Seq<
    EntryModel,
> {
    Seq::new(paths.len(), |i: int| spec_entry(base, paths[i], dir_mode))
}

/// The paths of the directory entries, in order.
pub open spec fn dir_paths(s: Seq<EntryModel>) -> Seq<Seq<char>>
    decreases s.len(),
{
    if s.len() == 0 {
        Seq::empty()
    } else if s.last().dir {
        dir_paths(s.drop_last()).push(s.last().path)
    } else {
        dir_paths(s.drop_last())
    }
}

/// The entry for one path created relative to the working directory.
pub fn entry_in_place(p: &String, dir_mode: bool) -> (r: Entry)
    ensures
        r@ == spec_entry_in_place(p@, dir_mode),
{
    if dir_mode || ends_with_slash(p.as_str()) {
        Entry { path: p.clone(), dir: true, parent: None }
    } else {
        let parent = match parent_path(p.as_str()) {
            Some(q) => {
                let empty = same_path(q.as_str(), "");
                let here = same_path(q.as_str(), ".");
                proof {
                    reveal_strlit("");
                    reveal_strlit(".");
                    assert(""@ =~= Seq::<char>::empty());
                    assert("."@ =~= seq!['.']);
                }
                if empty || here {
                    None
                } else {
                    Some(q)
                }
            },
            None => None,
        };
        Entry { path: p.clone(), dir: false, parent }
    }
}

/// The entry for one path created inside the directory `base`.
pub fn entry_in(base: &String, p: &String, dir_mode: bool) -> (r: Entry)
    ensures
        r@ == spec_entry_in(base@, p@, dir_mode),
{
    let full = join_path(base.as_str(), p.as_str());
    if dir_mode || ends_with_slash(p.as_str()) {
        Entry { path: full, dir: true, parent: None }
    } else {
        let parent = match parent_path(full.as_str()) {
            Some(q) => if same_path(q.as_str(), base.as_str()) {
                None
            } else {
                Some(q)
            },
            None => None,
        };
        Entry { path: full, dir: false, parent }
    }
}

/// The entries for all requested paths, in order: relative to the working directory, or
/// inside `base` where one is given.
pub fn plan_entries(paths: &Vec<String>, dir_mode: bool, base: &Option<String>) -> (r: Vec<Entry>)
    ensures
        r@.map_values(|e: Entry| e@) == spec_plan(base.deep_view(), paths.deep_view(), dir_mode),
{
    let mut r: Vec<Entry> = Vec::new();
    let mut i: usize = 0;
    while i < paths.len()
        invariant
            i <= paths@.len(),
            r@.len() == i,
            forall|k: int|
                0 <= k < i ==> #[trigger] r@[k]@ == spec_entry(
                    base.deep_view(),
                    paths@[k]@,
                    dir_mode,
                ),
        decreases paths@.len() - i,
    {
        let e = match base {
            None => entry_in_place(&paths[i], dir_mode),
            Some(b) => entry_in(b, &paths[i], dir_mode),
        };
        r.push(e);
        i = i + 1;
    }
    assert(r@.map_values(|e: Entry| e@) =~= spec_plan(
        base.deep_view(),
        paths.deep_view(),
        dir_mode,
    ));
    r
}

/// The paths of the entries that are directories, in order: what a warning names before
/// the paths are opened.
pub fn directory_paths(entries: &Vec<Entry>) -> (r: Vec<String>)
    ensures
        r.deep_view() == dir_paths(entries@.map_values(|e: Entry| e@)),
{
    let mut r: Vec<String> = Vec::new();
    let mut i: usize = 0;
    while i < entries.len()
        invariant
            i <= entries@.len(),
            r.deep_view() == dir_paths(entries@.take(i as int).map_values(|e: Entry| e@)),
        decreases entries@.len() - i,
    {
        let ghost before = r.deep_view();
        let ghost s = entries@.take(i as int + 1).map_values(|e: Entry| e@);
        assert(s.drop_last() =~= entries@.take(i as int).map_values(|e: Entry| e@));
        if entries[i].dir {
            r.push(entries[i].path.clone());
            assert(r.deep_view() =~= before.push(entries@[i as int].path@));
        }
        i = i + 1;
    }
    assert(entries@.take(i as int) =~= entries@);
    r
}

/// Outside dir mode, a list of paths none of which ends in the separator is planned as one
/// empty file per path, each under the string it was given, in order; the parent directory
/// of each, unless it is empty or the current directory, is created before the file.
pub proof fn lemma_files_in_place(paths: Seq<Seq<char>>)
    requires
        forall|i: int| 0 <= i < paths.len() ==> !ends_with_separator(#[trigger] paths[i]),
    ensures
        spec_plan(None, paths, false).len() == paths.len(),
        forall|i: int|
            0 <= i < paths.len() ==> {
                let e = #[trigger] spec_plan(None, paths, false)[i];
                &&& !e.dir
                &&& e.path == paths[i]
                &&& match path_parent(paths[i]) {
                    Some(q) => (e.parent == Some(q)) <==> !(path_eq(q, Seq::empty()) || path_eq(
                        q,
                        seq!['.'],
                    )),
                    None => e.parent is None,
                }
            },
{
}

/// In dir mode, and for every path that ends in the separator, the entry is a directory and
/// never a file, in place or inside a temp base.
pub proof fn lemma_dirs(base: Option<Seq<char>>, paths: Seq<Seq<char>>, dir_mode: bool)
    ensures
        forall|i: int|
            0 <= i < paths.len() && (dir_mode || ends_with_separator(paths[i])) ==> {
                let e = #[trigger] spec_plan(base, paths, dir_mode)[i];
                e.dir && e.parent is None
            },
{
}

} // verus!
