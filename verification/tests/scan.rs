use moon_config::ConfigFinder;
use moon_config::DirEntry;
use moon_config::DirListing;
use moon_config::ScanError;

fn file(name: &str) -> DirEntry {
    DirEntry::File { name: name.to_string() }
}

fn subdir(name: &str, entries: Vec<DirEntry>) -> DirEntry {
    DirEntry::Subdir { name: name.to_string(), listing: DirListing::Entries(entries) }
}

#[test]
fn missing_dir_is_empty_success() {
    let finder = ConfigFinder::with_pkl();
    let result = finder.get_from_dir("/repo/.moon/tasks", &DirListing::Missing);
    assert_eq!(result.unwrap(), Vec::<String>::new());
}

#[test]
fn scoped_tasks_files_empty_when_tasks_dir_missing() {
    let finder = ConfigFinder::new(false);
    let result = finder.get_scoped_tasks_files("/repo/.moon", &DirListing::Missing);
    assert_eq!(result.unwrap(), Vec::<String>::new());
}

#[test]
fn unreadable_dir_fails_with_its_path() {
    let finder = ConfigFinder::new(false);
    let result = finder.get_from_dir("/repo/.moon/tasks", &DirListing::Unreadable);
    assert_eq!(
        result.unwrap_err(),
        ScanError::ReadDirFailed { path: "/repo/.moon/tasks".to_string() }
    );
}

#[test]
fn unreadable_subdir_fails_with_the_subdir_path() {
    let finder = ConfigFinder::new(false);
    let listing = DirListing::Entries(vec![
        file("a.yml"),
        DirEntry::Subdir { name: "locked".to_string(), listing: DirListing::Unreadable },
    ]);
    let result = finder.get_from_dir("/base", &listing);
    assert_eq!(
        result.unwrap_err(),
        ScanError::ReadDirFailed { path: "/base/locked".to_string() }
    );
}

#[test]
fn failed_type_probe_fails_with_the_entry_path() {
    let finder = ConfigFinder::new(false);
    let listing = DirListing::Entries(vec![
        file("a.yml"),
        DirEntry::Unprobed { name: "ghost".to_string() },
        file("b.yml"),
    ]);
    let result = finder.get_from_dir("/base", &listing);
    assert_eq!(
        result.unwrap_err(),
        ScanError::FileTypeFailed { path: "/base/ghost".to_string() }
    );
}

#[test]
fn mixed_dir_filters_by_extension_and_flag() {
    let entries = || {
        DirListing::Entries(vec![
            file("a.yml"),
            file("b.pkl"),
            file("c.txt"),
            subdir("sub", vec![file("d.yaml")]),
        ])
    };

    let finder = ConfigFinder::new(false);
    assert_eq!(
        finder.get_from_dir("/base", &entries()).unwrap(),
        vec!["/base/a.yml".to_string(), "/base/sub/d.yaml".to_string()]
    );

    let finder = ConfigFinder::with_pkl();
    assert_eq!(
        finder.get_from_dir("/base", &entries()).unwrap(),
        vec![
            "/base/a.yml".to_string(),
            "/base/b.pkl".to_string(),
            "/base/sub/d.yaml".to_string()
        ]
    );
}

#[test]
fn extension_edge_cases_are_skipped_or_kept() {
    let finder = ConfigFinder::with_pkl();
    let listing = DirListing::Entries(vec![
        file(".yml"),
        file("noext"),
        file("trailing."),
        file(".hidden.yml"),
        file("archive.tar.gz"),
        file("ok.yaml"),
        DirEntry::Other { name: "socket.yml".to_string() },
    ]);
    assert_eq!(
        finder.get_from_dir("/d", &listing).unwrap(),
        vec!["/d/.hidden.yml".to_string(), "/d/ok.yaml".to_string()]
    );
}

#[test]
fn deep_tree_aggregates_in_preorder() {
    let listing = DirListing::Entries(vec![
        file("top.yml"),
        subdir(
            "one",
            vec![
                file("skip.md"),
                file("mid.yaml"),
                subdir("two", vec![file("deep.yml"), file("deeper.pkl")]),
                file("late.yml"),
            ],
        ),
        file("tail.yaml"),
    ]);

    let finder = ConfigFinder::new(false);
    assert_eq!(
        finder.get_from_dir("/r", &listing).unwrap(),
        vec![
            "/r/top.yml".to_string(),
            "/r/one/mid.yaml".to_string(),
            "/r/one/two/deep.yml".to_string(),
            "/r/one/late.yml".to_string(),
            "/r/tail.yaml".to_string()
        ]
    );

    let finder = ConfigFinder::with_pkl();
    assert_eq!(
        finder.get_from_dir("/r", &listing).unwrap(),
        vec![
            "/r/top.yml".to_string(),
            "/r/one/mid.yaml".to_string(),
            "/r/one/two/deep.yml".to_string(),
            "/r/one/two/deeper.pkl".to_string(),
            "/r/one/late.yml".to_string(),
            "/r/tail.yaml".to_string()
        ]
    );
}

#[test]
fn scoped_tasks_files_scan_the_tasks_subdir() {
    let finder = ConfigFinder::new(false);
    let listing = DirListing::Entries(vec![file("ci.yml"), file("notes.txt")]);
    assert_eq!(
        finder.get_scoped_tasks_files("/repo/.moon", &listing).unwrap(),
        vec!["/repo/.moon/tasks/ci.yml".to_string()]
    );
}

#[test]
fn missing_subdir_inside_tree_contributes_nothing() {
    let finder = ConfigFinder::new(false);
    let listing = DirListing::Entries(vec![
        DirEntry::Subdir { name: "gone".to_string(), listing: DirListing::Missing },
        file("kept.yml"),
    ]);
    assert_eq!(
        finder.get_from_dir("/base", &listing).unwrap(),
        vec!["/base/kept.yml".to_string()]
    );
}
