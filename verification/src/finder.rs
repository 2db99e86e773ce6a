//! The config-file finder: maps each logical scope to its candidate file
//! names and paths, honoring the optionally-enabled extended format.

use vstd::prelude::*;

use crate::paths::join_path;
use crate::paths::join_spec;
use crate::scan::DirListing;
use crate::scan::ScanError;
use crate::scan::ScanErrorView;
use crate::scan::scan_listing;
use crate::scan::spec_scan;

verus! {

/// The name of the fixed, well-known subdirectory under a workspace root
/// that holds the tool's own configuration.
pub open spec fn spec_config_dirname() -> Seq<char> {
    ".moon"@
}

/// The fixed config-directory name as a string slice.
pub fn config_dirname() -> (r: &'static str)
    ensures
        r@ == spec_config_dirname(),
{
    ".moon"
}

/// The file name `{scope}.yml`, the primary-format candidate of a scope.
pub open spec fn yml_name(scope: Seq<char>) -> Seq<char> {
    scope + ".yml"@
}

/// The file name `{scope}.pkl`, the extended-format candidate of a scope.
pub open spec fn pkl_name(scope: Seq<char>) -> Seq<char> {
    scope + ".pkl"@
}

/// The ordered candidate names of a scope: the primary-format name first,
/// then — only when the extended format is enabled — the extended-format
/// name.
pub open spec fn spec_file_names(pkl: bool, scope: Seq<char>) -> Seq<Seq<char>> {
    if pkl {
        seq![yml_name(scope), pkl_name(scope)]
    } else {
        seq![yml_name(scope)]
    }
}

/// The candidate paths of a scope under `dir`: each candidate name of
/// `scope` joined onto `dir`, in the same order.
pub open spec fn spec_scope_files(pkl: bool, dir: Seq<char>, scope: Seq<char>) -> Seq<Seq<char>> {
    spec_file_names(pkl, scope).map_values(|n: Seq<char>| join_spec(dir, n))
}

/// Joins every name in `names` onto `dir`, keeping the order.
fn join_names(dir: &str, names: &Vec<String>) -> (r: Vec<String>)
    ensures
        r.deep_view() == names.deep_view().map_values(|n: Seq<char>| join_spec(dir@, n)),
{
    let mut r: Vec<String> = Vec::new();
    let mut i: usize = 0;
    while i < names.len()
        invariant
            i <= names.len(),
            r.deep_view().len() == i as int,
            forall|j: int|
                0 <= j < i ==> r.deep_view()[j] == join_spec(dir@, names.deep_view()[j]),
        decreases names.len() - i,
    {
        let ghost prev = r.deep_view();
        r.push(join_path(dir, names[i].as_str()));
        proof {
            assert(r.deep_view() =~~= prev.push(join_spec(dir@, names.deep_view()[i as int])));
        }
        i += 1;
    }
    proof {
        assert(r.deep_view() =~~= names.deep_view().map_values(|n: Seq<char>| join_spec(dir@, n)));
    }
    r
}

/// Resolves the on-disk configuration file candidates for each logical
/// scope, under the fixed naming convention and the capability flag it was
/// constructed with.
#[derive(Debug, Clone)]
pub struct ConfigFinder {
    pkl: bool,
}

impl ConfigFinder {
    /// True when the extended (`pkl`) format participates in every name
    /// list and directory filter of this finder.
    pub closed spec fn pkl_enabled(&self) -> bool {
        self.pkl
    }

    /// Builds a finder from the capability flag that an environment probe
    /// produced; the flag is immutable afterwards.
    pub fn new(pkl: bool) -> (r: Self)
        ensures
            r.pkl_enabled() == pkl,
    {
        Self { pkl }
    }

    /// Builds a finder with the extended format force-enabled.
    pub fn with_pkl() -> (r: Self)
        ensures
            r.pkl_enabled(),
    {
        Self { pkl: true }
    }

    /// The ordered candidate file names of `name`: `{name}.yml`, then
    /// `{name}.pkl` when the extended format is enabled.
    pub fn get_file_names(&self, name: &str) -> (r: Vec<String>)
        ensures
            r.deep_view() == spec_file_names(self.pkl_enabled(), name@),
    {
        let mut files: Vec<String> = Vec::new();
        files.push(name.to_owned().concat(".yml"));
        if self.pkl {
            files.push(name.to_owned().concat(".pkl"));
        }
        proof {
            assert(files.deep_view() =~~= spec_file_names(self.pkl_enabled(), name@));
        }
        files
    }

    /// The candidate file names of the project scope.
    pub fn get_project_file_names(&self) -> (r: Vec<String>)
        ensures
            r.deep_view() == spec_file_names(self.pkl_enabled(), "moon"@),
    {
        self.get_file_names("moon")
    }

    /// The candidate file names of the task-set scope.
    pub fn get_tasks_file_names(&self) -> (r: Vec<String>)
        ensures
            r.deep_view() == spec_file_names(self.pkl_enabled(), "tasks"@),
    {
        self.get_file_names("tasks")
    }

    /// The candidate file names of the template scope.
    pub fn get_template_file_names(&self) -> (r: Vec<String>)
        ensures
            r.deep_view() == spec_file_names(self.pkl_enabled(), "template"@),
    {
        self.get_file_names("template")
    }

    /// The candidate file names of the toolchain scope.
    pub fn get_toolchain_file_names(&self) -> (r: Vec<String>)
        ensures
            r.deep_view() == spec_file_names(self.pkl_enabled(), "toolchain"@),
    {
        self.get_file_names("toolchain")
    }

    /// The candidate file names of the workspace scope.
    pub fn get_workspace_file_names(&self) -> (r: Vec<String>)
        ensures
            r.deep_view() == spec_file_names(self.pkl_enabled(), "workspace"@),
    {
        self.get_file_names("workspace")
    }

    /// The candidate project-config paths: each project name joined
    /// directly onto the project root.
    pub fn get_project_files(&self, project_root: &str) -> (r: Vec<String>)
        ensures
            r.deep_view() == spec_scope_files(self.pkl_enabled(), project_root@, "moon"@),
    {
        join_names(project_root, &self.get_project_file_names())
    }

    /// The candidate task-set paths: each tasks name joined directly onto
    /// the already-resolved config directory.
    pub fn get_tasks_files(&self, moon_dir: &str) -> (r: Vec<String>)
        ensures
            r.deep_view() == spec_scope_files(self.pkl_enabled(), moon_dir@, "tasks"@),
    {
        join_names(moon_dir, &self.get_tasks_file_names())
    }

    /// The candidate template-config paths: each template name joined
    /// directly onto the template root.
    pub fn get_template_files(&self, template_root: &str) -> (r: Vec<String>)
        ensures
            r.deep_view() == spec_scope_files(self.pkl_enabled(), template_root@, "template"@),
    {
        join_names(template_root, &self.get_template_file_names())
    }

    /// The candidate toolchain-config paths: each toolchain name joined
    /// onto the config directory under the workspace root.
    pub fn get_toolchain_files(&self, workspace_root: &str) -> (r: Vec<String>)
        ensures
            r.deep_view() == spec_scope_files(
                self.pkl_enabled(),
                join_spec(workspace_root@, spec_config_dirname()),
                "toolchain"@,
            ),
    {
        let dir = join_path(workspace_root, config_dirname());
        join_names(dir.as_str(), &self.get_toolchain_file_names())
    }

    /// The candidate workspace-config paths: each workspace name joined
    /// onto the config directory under the workspace root.
    pub fn get_workspace_files(&self, workspace_root: &str) -> (r: Vec<String>)
        ensures
            r.deep_view() == spec_scope_files(
                self.pkl_enabled(),
                join_spec(workspace_root@, spec_config_dirname()),
                "workspace"@,
            ),
    {
        let dir = join_path(workspace_root, config_dirname());
        join_names(dir.as_str(), &self.get_workspace_file_names())
    }

    /// A human-readable label for log and error messages: the
    /// config-directory prefix when `top_level` holds, then `name`, then a
    /// marker for the format(s) in play. Presentation only — never a real
    /// file location.
    pub fn get_debug_label(&self, name: &str, top_level: bool) -> (r: String)
        ensures
            r@ == spec_debug_label(self.pkl_enabled(), name@, top_level),
    {
        let mut label = String::new();

        if top_level {
            label.append(config_dirname());
            label.append("/");
        }

        label.append(name);

        if self.pkl {
            label.append(".{plk,yml}");
        } else {
            label.append(".yml");
        }

        proof {
            assert(label@ =~= spec_debug_label(self.pkl_enabled(), name@, top_level));
        }
        label
    }

    /// Scans the directory at `dir`, as a walk of the real tree recorded
    /// it in `listing`: every config-format file of the subtree in
    /// pre-order, or the first read or probe failure, exactly as
    /// [`spec_scan`] describes.
    pub fn get_from_dir(&self, dir: &str, listing: &DirListing) -> (r: Result<
        Vec<String>,
        ScanError,
    >)
        ensures
            (match r {
                Ok(files) => spec_scan(self.pkl_enabled(), dir@, *listing) == Ok::<
                    _,
                    ScanErrorView,
                >(files.deep_view()),
                Err(e) => spec_scan(self.pkl_enabled(), dir@, *listing) == Err::<
                    Seq<Seq<char>>,
                    _,
                >(e@),
            }),
    {
        scan_listing(self.pkl, dir, listing)
    }

    /// The scoped task-definition files: scans the `tasks` subdirectory of
    /// the already-resolved config directory, whose recorded listing the
    /// caller supplies.
    pub fn get_scoped_tasks_files(&self, moon_dir: &str, tasks_listing: &DirListing) -> (r: Result<
        Vec<String>,
        ScanError,
    >)
        ensures
            (match r {
                Ok(files) => spec_scan(
                    self.pkl_enabled(),
                    join_spec(moon_dir@, "tasks"@),
                    *tasks_listing,
                ) == Ok::<_, ScanErrorView>(files.deep_view()),
                Err(e) => spec_scan(
                    self.pkl_enabled(),
                    join_spec(moon_dir@, "tasks"@),
                    *tasks_listing,
                ) == Err::<Seq<Seq<char>>, _>(e@),
            }),
    {
        let tasks_dir = join_path(moon_dir, "tasks");
        self.get_from_dir(tasks_dir.as_str(), tasks_listing)
    }
}

/// For every scope and either capability flag, the candidate-name list
/// has one entry with the extended format disabled and two with it
/// enabled, and always starts with `{scope}.yml`.
pub proof fn lemma_file_names_shape(pkl: bool, scope: Seq<char>)
    ensures
        spec_file_names(pkl, scope).len() == (if pkl { 2int } else { 1int }),
        spec_file_names(pkl, scope)[0] == yml_name(scope),
        pkl ==> spec_file_names(pkl, scope)[1] == pkl_name(scope),
{
}

/// The candidate names depend on the capability flag and the scope alone:
/// two finders with the same flag yield the same ordered list, whatever
/// else (the filesystem included) differs around them.
pub proof fn lemma_file_names_deterministic(a: ConfigFinder, b: ConfigFinder, scope: Seq<char>)
    requires
        a.pkl_enabled() == b.pkl_enabled(),
    ensures
        spec_file_names(a.pkl_enabled(), scope) == spec_file_names(b.pkl_enabled(), scope),
{
}

/// True when the fixed config-directory name stands as a whole segment
/// immediately after `root` in `path`.
pub open spec fn config_dir_after_root(root: Seq<char>, path: Seq<char>) -> bool {
    &&& path.len() >= root.len() + 7
    &&& path.subrange(root.len() as int, root.len() as int + 7) == "/"@ + spec_config_dirname()
        + "/"@
}

/// Any name joined onto the config directory under `root` carries the
/// config-directory segment immediately after `root`.
proof fn lemma_config_dir_after(root: Seq<char>, n: Seq<char>)
    ensures
        config_dir_after_root(root, join_spec(join_spec(root, spec_config_dirname()), n)),
{
    reveal_strlit("/");
    reveal_strlit(".moon");
    let path = join_spec(join_spec(root, spec_config_dirname()), n);
    assert(path.subrange(root.len() as int, root.len() as int + 7) =~= "/"@ + spec_config_dirname()
        + "/"@);
}

/// A name that does not itself start with a dot, joined directly onto
/// `root`, never carries the config-directory segment there.
proof fn lemma_config_dir_not_after(root: Seq<char>, n: Seq<char>)
    requires
        n.len() > 0,
        n[0] != '.',
    ensures
        !config_dir_after_root(root, join_spec(root, n)),
{
    reveal_strlit("/");
    reveal_strlit(".moon");
    let path = join_spec(root, n);
    if path.len() >= root.len() + 7 {
        assert(path.subrange(root.len() as int, root.len() as int + 7)[1] == path[root.len()
            as int + 1]);
        assert(path[root.len() as int + 1] == n[0]);
        assert(("/"@ + spec_config_dirname() + "/"@)[1] == '.');
    }
}

/// Toolchain- and workspace-scope paths always put the fixed config
/// directory immediately after the workspace root; project- and
/// template-scope paths, joined onto their root directly, never do.
pub proof fn lemma_config_dir_segment(pkl: bool, root: Seq<char>)
    ensures
        forall|i: int|
            0 <= i < spec_scope_files(
                pkl,
                join_spec(root, spec_config_dirname()),
                "toolchain"@,
            ).len() ==> config_dir_after_root(
                root,
                #[trigger] spec_scope_files(
                    pkl,
                    join_spec(root, spec_config_dirname()),
                    "toolchain"@,
                )[i],
            ),
        forall|i: int|
            0 <= i < spec_scope_files(
                pkl,
                join_spec(root, spec_config_dirname()),
                "workspace"@,
            ).len() ==> config_dir_after_root(
                root,
                #[trigger] spec_scope_files(
                    pkl,
                    join_spec(root, spec_config_dirname()),
                    "workspace"@,
                )[i],
            ),
        forall|i: int|
            0 <= i < spec_scope_files(pkl, root, "moon"@).len() ==> !config_dir_after_root(
                root,
                #[trigger] spec_scope_files(pkl, root, "moon"@)[i],
            ),
        forall|i: int|
            0 <= i < spec_scope_files(pkl, root, "template"@).len() ==> !config_dir_after_root(
                root,
                #[trigger] spec_scope_files(pkl, root, "template"@)[i],
            ),
{
    reveal_strlit("moon");
    reveal_strlit("template");
    let dir = join_spec(root, spec_config_dirname());
    assert forall|i: int|
        0 <= i < spec_scope_files(pkl, dir, "toolchain"@).len() implies config_dir_after_root(
        root,
        #[trigger] spec_scope_files(pkl, dir, "toolchain"@)[i],
    ) by {
        lemma_config_dir_after(root, spec_file_names(pkl, "toolchain"@)[i]);
    }
    assert forall|i: int|
        0 <= i < spec_scope_files(pkl, dir, "workspace"@).len() implies config_dir_after_root(
        root,
        #[trigger] spec_scope_files(pkl, dir, "workspace"@)[i],
    ) by {
        lemma_config_dir_after(root, spec_file_names(pkl, "workspace"@)[i]);
    }
    assert forall|i: int|
        0 <= i < spec_scope_files(pkl, root, "moon"@).len() implies !config_dir_after_root(
        root,
        #[trigger] spec_scope_files(pkl, root, "moon"@)[i],
    ) by {
        let n = spec_file_names(pkl, "moon"@)[i];
        assert(n[0] == 'm');
        lemma_config_dir_not_after(root, n);
    }
    assert forall|i: int|
        0 <= i < spec_scope_files(pkl, root, "template"@).len() implies !config_dir_after_root(
        root,
        #[trigger] spec_scope_files(pkl, root, "template"@)[i],
    ) by {
        let n = spec_file_names(pkl, "template"@)[i];
        assert(n[0] == 't');
        lemma_config_dir_not_after(root, n);
    }
}

/// The debug label of `name`: the config-directory prefix when `top_level`
/// holds, then `name`, then `.yml` or a both-formats marker.
pub open spec fn spec_debug_label(pkl: bool, name: Seq<char>, top_level: bool) -> Seq<char> {
    let prefix = if top_level {
        spec_config_dirname() + "/"@
    } else {
        Seq::<char>::empty()
    };
    let suffix = if pkl {
        ".{plk,yml}"@
    } else {
        ".yml"@
    };
    prefix + name + suffix
}

} // verus!
