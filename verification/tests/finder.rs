use moon_config::ConfigFinder;

#[test]
fn file_names_single_when_extended_disabled() {
    let finder = ConfigFinder::new(false);
    assert_eq!(finder.get_file_names("moon"), vec!["moon.yml".to_string()]);
    assert_eq!(finder.get_file_names("tasks"), vec!["tasks.yml".to_string()]);
    assert_eq!(finder.get_file_names("template"), vec!["template.yml".to_string()]);
    assert_eq!(finder.get_file_names("toolchain"), vec!["toolchain.yml".to_string()]);
    assert_eq!(finder.get_file_names("workspace"), vec!["workspace.yml".to_string()]);
}

#[test]
fn file_names_pair_when_extended_enabled() {
    let finder = ConfigFinder::with_pkl();
    assert_eq!(
        finder.get_file_names("moon"),
        vec!["moon.yml".to_string(), "moon.pkl".to_string()]
    );
    assert_eq!(
        finder.get_file_names("workspace"),
        vec!["workspace.yml".to_string(), "workspace.pkl".to_string()]
    );
}

#[test]
fn file_names_always_start_with_yml() {
    for scope in ["moon", "tasks", "template", "toolchain", "workspace"] {
        for pkl in [false, true] {
            let finder = ConfigFinder::new(pkl);
            let names = finder.get_file_names(scope);
            assert_eq!(names.len(), if pkl { 2 } else { 1 });
            assert_eq!(names[0], format!("{}.yml", scope));
        }
    }
}

#[test]
fn file_names_deterministic_for_same_flag() {
    for pkl in [false, true] {
        let a = ConfigFinder::new(pkl);
        let b = ConfigFinder::new(pkl);
        assert_eq!(a.get_file_names("tasks"), b.get_file_names("tasks"));
        assert_eq!(a.get_file_names("tasks"), a.get_file_names("tasks"));
    }
}

#[test]
fn scope_name_specializations() {
    let finder = ConfigFinder::with_pkl();
    assert_eq!(finder.get_project_file_names(), finder.get_file_names("moon"));
    assert_eq!(finder.get_tasks_file_names(), finder.get_file_names("tasks"));
    assert_eq!(finder.get_template_file_names(), finder.get_file_names("template"));
    assert_eq!(finder.get_toolchain_file_names(), finder.get_file_names("toolchain"));
    assert_eq!(finder.get_workspace_file_names(), finder.get_file_names("workspace"));
}

#[test]
fn project_files_join_root_directly() {
    let finder = ConfigFinder::new(false);
    assert_eq!(finder.get_project_files("/repo/app"), vec!["/repo/app/moon.yml".to_string()]);
    let finder = ConfigFinder::with_pkl();
    assert_eq!(
        finder.get_project_files("/repo/app"),
        vec!["/repo/app/moon.yml".to_string(), "/repo/app/moon.pkl".to_string()]
    );
}

#[test]
fn template_files_join_root_directly() {
    let finder = ConfigFinder::new(false);
    assert_eq!(
        finder.get_template_files("/repo/templates/web"),
        vec!["/repo/templates/web/template.yml".to_string()]
    );
}

#[test]
fn tasks_files_join_given_dir_without_extra_segment() {
    let finder = ConfigFinder::with_pkl();
    assert_eq!(
        finder.get_tasks_files("/repo/.moon"),
        vec!["/repo/.moon/tasks.yml".to_string(), "/repo/.moon/tasks.pkl".to_string()]
    );
}

#[test]
fn toolchain_and_workspace_files_use_config_dir() {
    let finder = ConfigFinder::new(false);
    assert_eq!(
        finder.get_toolchain_files("/repo"),
        vec!["/repo/.moon/toolchain.yml".to_string()]
    );
    assert_eq!(
        finder.get_workspace_files("/repo"),
        vec!["/repo/.moon/workspace.yml".to_string()]
    );
    let finder = ConfigFinder::with_pkl();
    assert_eq!(
        finder.get_workspace_files("/repo"),
        vec!["/repo/.moon/workspace.yml".to_string(), "/repo/.moon/workspace.pkl".to_string()]
    );
}

#[test]
fn config_dir_segment_sits_right_after_root() {
    let root = "/repo";
    let finder = ConfigFinder::with_pkl();
    for path in finder
        .get_toolchain_files(root)
        .into_iter()
        .chain(finder.get_workspace_files(root).into_iter())
    {
        assert!(path[root.len()..].starts_with("/.moon/"));
    }
    for path in finder
        .get_project_files(root)
        .into_iter()
        .chain(finder.get_template_files(root).into_iter())
    {
        assert!(!path[root.len()..].starts_with("/.moon/"));
    }
}

#[test]
fn debug_label_top_level_disabled() {
    let finder = ConfigFinder::new(false);
    assert_eq!(finder.get_debug_label("workspace", true), ".moon/workspace.yml");
}

#[test]
fn debug_label_top_level_enabled_marks_both_formats() {
    let finder = ConfigFinder::with_pkl();
    let label = finder.get_debug_label("workspace", true);
    assert_eq!(label, ".moon/workspace.{plk,yml}");
    assert!(!label.ends_with(".yml"));
}

#[test]
fn debug_label_without_prefix() {
    let finder = ConfigFinder::new(false);
    assert_eq!(finder.get_debug_label("moon", false), "moon.yml");
    let finder = ConfigFinder::with_pkl();
    assert_eq!(finder.get_debug_label("moon", false), "moon.{plk,yml}");
}
