use fig::{directory_paths, entry_in, entry_in_place, plan_entries, CreateArgs, Entry, Request, UsageError};

fn args(temp: bool, dir: bool, paths: &[&str]) -> CreateArgs {
    CreateArgs {
        print_path: false,
        temp_mode: temp,
        dir_mode: dir,
        open_with: None,
        paths: paths.iter().map(|p| p.to_string()).collect(),
    }
}

fn strings(v: &[&str]) -> Vec<String> {
    v.iter().map(|p| p.to_string()).collect()
}

fn file(path: &str, parent: Option<&str>) -> Entry {
    Entry { path: path.to_string(), dir: false, parent: parent.map(|p| p.to_string()) }
}

fn dir(path: &str) -> Entry {
    Entry { path: path.to_string(), dir: true, parent: None }
}

#[test]
fn no_paths_without_temp_mode_is_usage_error() {
    assert_eq!(args(false, false, &[]).request(), Err(UsageError::NoPaths));
    assert_eq!(args(false, true, &[]).request(), Err(UsageError::NoPaths));
}

#[test]
fn temp_mode_without_paths_allocates_one_entry() {
    assert_eq!(args(true, false, &[]).request(), Ok(Request::TempSingle { dir: false }));
    assert_eq!(args(true, true, &[]).request(), Ok(Request::TempSingle { dir: true }));
}

#[test]
fn temp_mode_with_paths_builds_a_tree() {
    assert_eq!(args(true, false, &["a/b.txt", "c/"]).request(), Ok(Request::TempTree));
}

#[test]
fn paths_without_temp_mode_are_created_in_place() {
    assert_eq!(args(false, false, &["x"]).request(), Ok(Request::InPlace));
}

#[test]
fn open_flag_forms() {
    let mut a = args(false, false, &["x"]);
    assert!(!a.open_mode());
    assert_eq!(a.open_app(), None);
    assert!(!a.opens(1));
    a.open_with = Some(None);
    assert!(a.open_mode());
    assert_eq!(a.open_app(), None);
    assert!(a.opens(1));
    assert!(!a.opens(0));
    a.open_with = Some(Some("code".to_string()));
    assert!(a.open_mode());
    assert_eq!(a.open_app(), Some("code".to_string()));
}

#[test]
fn paths_are_printed_on_request_or_in_temp_mode() {
    let mut a = args(false, false, &["x"]);
    assert!(!a.prints_paths());
    a.print_path = true;
    assert!(a.prints_paths());
    let t = args(true, false, &[]);
    assert!(t.prints_paths());
}

#[test]
fn files_in_place_get_their_parents() {
    let plan = plan_entries(&strings(&["src/main.rs", "notes.txt", "./x.txt", "a/b/c.md"]), false, &None);
    assert_eq!(
        plan,
        vec![
            file("src/main.rs", Some("src")),
            file("notes.txt", None),
            file("./x.txt", None),
            file("a/b/c.md", Some("a/b")),
        ]
    );
}

#[test]
fn trailing_separator_makes_a_directory() {
    let plan = plan_entries(&strings(&["my_project/", "file"]), false, &None);
    assert_eq!(plan, vec![dir("my_project/"), file("file", None)]);
}

#[test]
fn dir_mode_makes_every_entry_a_directory() {
    let plan = plan_entries(&strings(&["a", "b/c", "d/"]), true, &None);
    assert_eq!(plan, vec![dir("a"), dir("b/c"), dir("d/")]);
}

#[test]
fn temp_tree_nests_under_one_base() {
    let base = Some("/tmp/.tmpAbC123".to_string());
    let plan = plan_entries(&strings(&["a/b.txt", "c/"]), false, &base);
    assert_eq!(
        plan,
        vec![
            file("/tmp/.tmpAbC123/a/b.txt", Some("/tmp/.tmpAbC123/a")),
            dir("/tmp/.tmpAbC123/c/"),
        ]
    );
}

#[test]
fn file_directly_in_temp_base_needs_no_parent() {
    let e = entry_in(&"/tmp/.tmpX".to_string(), &"b.txt".to_string(), false);
    assert_eq!(e, file("/tmp/.tmpX/b.txt", None));
}

#[test]
fn single_entries() {
    assert_eq!(entry_in_place(&"x/y".to_string(), false), file("x/y", Some("x")));
    assert_eq!(entry_in_place(&"x/y".to_string(), true), dir("x/y"));
    assert_eq!(entry_in(&"/t".to_string(), &"q".to_string(), true), dir("/t/q"));
}

#[test]
fn empty_list_plans_nothing() {
    assert_eq!(plan_entries(&Vec::new(), false, &None), Vec::<Entry>::new());
}

#[test]
fn directories_are_named_for_the_warning() {
    let plan = vec![file("a.txt", None), dir("b/"), file("c/d", Some("c")), dir("e")];
    assert_eq!(directory_paths(&plan), strings(&["b/", "e"]));
    assert_eq!(directory_paths(&vec![file("a", None)]), Vec::<String>::new());
}
