//! Environment discovery: where the configuration file is, and from it the
//! project root. The search asks whether a file exists and is told; it reads
//! no filesystem itself.

use vstd::prelude::*;
use crate::errors::{LaunchError, LaunchErrorModel};
use crate::paths::{ancestors, is_absolute, lemma_parent_absolute, lemma_parent_shorter, lemma_resolve_absolute, parent, parent_of, resolve, resolve_path};
use crate::text::{holds, option_view, views};

verus! {

/// The name of the configuration file that the search looks for.
pub const CONFIG_NAME: &'static str = "floki.conf";

/// The model of `CONFIG_NAME`.
pub open spec fn config_name() -> Seq<char> {
    "floki.conf"@
}

/// What one invocation works in.
#[derive(Clone, Debug, PartialEq, Eq)]
pub struct ProjectEnvironment {
    /// The configuration file.
    pub config_file: String,
    /// The directory that holds the configuration file.
    pub project_root: String,
    /// The directory from which the caller invoked the launch.
    pub working_dir: String,
}

/// The model of a `ProjectEnvironment`.
pub struct ProjectEnvironmentModel {
    pub config_file: Seq<char>,
    pub project_root: Seq<char>,
    pub working_dir: Seq<char>,
}

impl View for ProjectEnvironment {
    type V = ProjectEnvironmentModel;

    open spec fn view(&self) -> ProjectEnvironmentModel {
        ProjectEnvironmentModel {
            config_file: self.config_file@,
            project_root: self.project_root@,
            working_dir: self.working_dir@,
        }
    }
}

/// The configuration file that the directory `dir` would hold.
pub open spec fn candidate(dir: Seq<char>) -> Seq<char> {
    resolve(dir, config_name())
}

/// The nearest directory, from `dir` upwards, whose candidate is among
/// `files`.
pub open spec fn search(dir: Seq<char>, files: Seq<Seq<char>>) -> Option<Seq<char>>
    decreases dir.len(),
    via search_decreases
{
    if files.contains(candidate(dir)) {
        Some(dir)
    } else {
        match parent(dir) {
            Some(up) => search(up, files),
            None => None,
        }
    }
}

#[via_fn]
proof fn search_decreases(dir: Seq<char>, files: Seq<Seq<char>>) {
    lemma_parent_shorter(dir);
}

/// The directory that holds `file`; `cwd` for a file name without directory.
pub open spec fn holder(file: Seq<char>, cwd: Seq<char>) -> Seq<char> {
    match parent(file) {
        Some(dir) => dir,
        None => cwd,
    }
}

/// The environment of a configuration file named explicitly: the file is
/// taken relative to the working directory.
pub open spec fn named(path: Seq<char>, cwd: Seq<char>) -> ProjectEnvironmentModel {
    ProjectEnvironmentModel {
        config_file: resolve(cwd, path),
        project_root: holder(resolve(cwd, path), cwd),
        working_dir: cwd,
    }
}

/// The environment of a configuration file found in `dir`.
pub open spec fn found_in(dir: Seq<char>, cwd: Seq<char>) -> ProjectEnvironmentModel {
    ProjectEnvironmentModel { config_file: candidate(dir), project_root: dir, working_dir: cwd }
}

/// What discovery gives when `files` are the files that exist: for a path
/// named explicitly, its environment if the file exists; else the environment
/// of the nearest directory, from the working directory upwards, that holds a
/// configuration file.
pub open spec fn discovered(
    explicit: Option<Seq<char>>,
    cwd: Seq<char>,
    files: Seq<Seq<char>>,
) -> Result<ProjectEnvironmentModel, LaunchErrorModel> {
    match explicit {
        Some(path) => if files.contains(resolve(cwd, path)) {
            Ok(named(path, cwd))
        } else {
            Err(LaunchErrorModel::ConfigNotFound)
        },
        None => match search(cwd, files) {
            Some(dir) => Ok(found_in(dir, cwd)),
            None => Err(LaunchErrorModel::ConfigNotFound),
        },
    }
}

/// The model of a result that holds an environment.
pub open spec fn environment_outcome(r: Result<ProjectEnvironment, LaunchError>) -> Result<
    ProjectEnvironmentModel,
    LaunchErrorModel,
> {
    match r {
        Ok(e) => Ok(e@),
        Err(e) => Err(e@),
    }
}

/// Whether the directory at index `k` of `chain` is the first whose candidate
/// is among `files`.
pub open spec fn first_holder(chain: Seq<Seq<char>>, files: Seq<Seq<char>>, k: int) -> bool {
    &&& 0 <= k < chain.len()
    &&& files.contains(candidate(chain[k]))
    &&& forall|j: int| 0 <= j < k ==> !files.contains(candidate(#[trigger] chain[j]))
}

/// A search finds the first of the ancestors of where it started that holds a
/// configuration file, and finds nothing only where none of them holds one.
pub proof fn law_search(dir: Seq<char>, files: Seq<Seq<char>>)
    ensures
        search(dir, files) matches Some(root) ==> exists|k: int|
            first_holder(ancestors(dir), files, k) && #[trigger] ancestors(dir)[k] == root,
        search(dir, files) is None ==> forall|k: int|
            0 <= k < ancestors(dir).len() ==> !files.contains(
                candidate(#[trigger] ancestors(dir)[k]),
            ),
    decreases dir.len(),
{
    lemma_parent_shorter(dir);
    let chain = ancestors(dir);
    assert(chain[0] == dir);
    if files.contains(candidate(dir)) {
        assert(first_holder(chain, files, 0));
    } else {
        match parent(dir) {
            Some(up) => {
                law_search(up, files);
                let rest = ancestors(up);
                assert(chain =~= seq![dir] + rest);
                assert forall|k: int| 0 < k < chain.len() implies #[trigger] chain[k] == rest[k
                    - 1] by {}
                if let Some(root) = search(dir, files) {
                    let k = choose|k: int|
                        first_holder(rest, files, k) && #[trigger] rest[k] == root;
                    assert forall|j: int| 0 <= j < k + 1 implies !files.contains(
                        candidate(#[trigger] chain[j]),
                    ) by {
                        if j > 0 {
                            assert(chain[j] == rest[j - 1]);
                        }
                    }
                    assert(chain[k + 1] == rest[k]);
                    assert(first_holder(chain, files, k + 1));
                } else {
                    assert forall|k: int| 0 <= k < chain.len() implies !files.contains(
                        candidate(#[trigger] chain[k]),
                    ) by {
                        if k > 0 {
                            assert(chain[k] == rest[k - 1]);
                        }
                    }
                }
            },
            None => {
                assert(chain =~= seq![dir]);
            },
        }
    }
}

/// From an absolute directory, a search finds an absolute one.
pub proof fn lemma_search_absolute(dir: Seq<char>, files: Seq<Seq<char>>)
    requires
        is_absolute(dir),
    ensures
        search(dir, files) matches Some(root) ==> is_absolute(root),
    decreases dir.len(),
{
    lemma_parent_shorter(dir);
    lemma_parent_absolute(dir);
    if !files.contains(candidate(dir)) {
        if let Some(up) = parent(dir) {
            lemma_search_absolute(up, files);
        }
    }
}

/// The environment that discovery gives: its configuration file exists; its
/// working directory is the caller's; after a search, its project root is the
/// nearest of the working directory and the directories above it that holds a
/// configuration file; and under an absolute working directory its paths are
/// absolute. A search fails exactly when no such directory holds one, a file
/// named explicitly exactly when it does not exist.
pub proof fn law_discovered(explicit: Option<Seq<char>>, cwd: Seq<char>, files: Seq<Seq<char>>)
    ensures
        discovered(explicit, cwd, files) matches Ok(env) ==> {
            &&& files.contains(env.config_file)
            &&& env.working_dir == cwd
            &&& explicit is None ==> env.config_file == candidate(env.project_root)
                && exists|k: int|
                first_holder(ancestors(cwd), files, k) && #[trigger] ancestors(cwd)[k]
                    == env.project_root
            &&& is_absolute(cwd) ==> is_absolute(env.project_root) && is_absolute(env.config_file)
        },
        discovered(explicit, cwd, files) matches Err(e) ==> e == LaunchErrorModel::ConfigNotFound,
        explicit is None ==> (discovered(explicit, cwd, files) is Err <==> forall|k: int|
            0 <= k < ancestors(cwd).len() ==> !files.contains(
                candidate(#[trigger] ancestors(cwd)[k]),
            )),
        explicit matches Some(path) ==> (discovered(explicit, cwd, files) is Err
            <==> !files.contains(resolve(cwd, path))),
{
    match explicit {
        Some(path) => {
            if is_absolute(cwd) {
                lemma_resolve_absolute(cwd, path);
                lemma_parent_absolute(resolve(cwd, path));
            }
        },
        None => {
            law_search(cwd, files);
            if is_absolute(cwd) {
                lemma_search_absolute(cwd, files);
                if let Some(root) = search(cwd, files) {
                    lemma_resolve_absolute(root, config_name());
                }
            }
            if let Some(root) = search(cwd, files) {
                let k = choose|k: int|
                    first_holder(ancestors(cwd), files, k) && #[trigger] ancestors(cwd)[k] == root;
                assert(files.contains(candidate(ancestors(cwd)[k])));
            }
        },
    }
}

/// A search in progress: the next file to ask about, and what follows from
/// the answer.
#[derive(Debug)]
pub struct Search {
    explicit: bool,
    cwd: String,
    dir: String,
    file: String,
}

/// What a search has come to after an answer.
#[derive(Debug)]
pub enum Progress {
    /// Another file is to be asked about.
    Probe(Search),
    /// The configuration file exists; this is its environment.
    Found(ProjectEnvironment),
    /// There is no configuration file.
    Missing,
}

impl Search {
    /// The file that the search asks about next.
    pub closed spec fn asks(self) -> Seq<char> {
        self.file@
    }

    /// How far the search is from its end: each probe lowers it.
    pub closed spec fn remaining(self) -> nat {
        if self.explicit {
            0
        } else {
            self.dir@.len()
        }
    }

    /// A search upwards asks about the candidate of its directory.
    #[verifier::type_invariant]
    pub closed spec fn aligned(self) -> bool {
        !self.explicit ==> self.file@ == candidate(self.dir@)
    }

    /// What the search will come to when `files` are the files that exist.
    pub closed spec fn outcome(self, files: Seq<Seq<char>>) -> Result<
        ProjectEnvironmentModel,
        LaunchErrorModel,
    > {
        if self.explicit {
            if files.contains(self.file@) {
                Ok(
                    ProjectEnvironmentModel {
                        config_file: self.file@,
                        project_root: self.dir@,
                        working_dir: self.cwd@,
                    },
                )
            } else {
                Err(LaunchErrorModel::ConfigNotFound)
            }
        } else {
            match search(self.dir@, files) {
                Some(dir) => Ok(found_in(dir, self.cwd@)),
                None => Err(LaunchErrorModel::ConfigNotFound),
            }
        }
    }

    /// Starts the discovery for a caller in `cwd` who named the configuration
    /// file `explicit`, or none.
    pub fn begin(explicit: Option<&str>, cwd: &str) -> (s: Search)
        ensures
            forall|files: Seq<Seq<char>>| #[trigger]
                s.outcome(files) == discovered(option_view(explicit), cwd@, files),
    {
        match explicit {
            Some(path) => {
                let file = resolve_path(cwd, path);
                let dir = match parent_of(file.as_str()) {
                    Some(dir) => dir,
                    None => cwd.to_owned(),
                };
                Search { explicit: true, cwd: cwd.to_owned(), dir, file }
            },
            None => Search {
                explicit: false,
                cwd: cwd.to_owned(),
                dir: cwd.to_owned(),
                file: resolve_path(cwd, CONFIG_NAME),
            },
        }
    }

    /// The file to ask about.
    pub fn probe(&self) -> (file: &str)
        ensures
            file@ == self.asks(),
    {
        self.file.as_str()
    }

    /// Takes the answer to the probe: whether the file exists.
    pub fn answer(self, exists: bool) -> (p: Progress)
        ensures
            forall|files: Seq<Seq<char>>|
                files.contains(self.asks()) == exists ==> #[trigger] self.outcome(files)
                    == progress_outcome(p, files),
            p matches Progress::Probe(next) ==> next.remaining() < self.remaining(),
    {
        proof {
            use_type_invariant(&self);
        }
        if exists {
            return Progress::Found(
                ProjectEnvironment {
                    config_file: self.file,
                    project_root: self.dir,
                    working_dir: self.cwd,
                },
            );
        }
        if self.explicit {
            return Progress::Missing;
        }
        proof {
            lemma_parent_shorter(self.dir@);
        }
        match parent_of(self.dir.as_str()) {
            Some(up) => {
                let file = resolve_path(up.as_str(), CONFIG_NAME);
                Progress::Probe(Search { explicit: false, cwd: self.cwd, dir: up, file })
            },
            None => Progress::Missing,
        }
    }
}

/// What a search that has come to `p` will come to in the end.
pub open spec fn progress_outcome(p: Progress, files: Seq<Seq<char>>) -> Result<
    ProjectEnvironmentModel,
    LaunchErrorModel,
> {
    match p {
        Progress::Probe(next) => next.outcome(files),
        Progress::Found(env) => Ok(env@),
        Progress::Missing => Err(LaunchErrorModel::ConfigNotFound),
    }
}

/// Discovers the environment among the files listed in `files`, which stand
/// for the filesystem.
pub fn discover(explicit: Option<&str>, cwd: &str, files: &Vec<String>) -> (out: Result<
    ProjectEnvironment,
    LaunchError,
>)
    ensures
        environment_outcome(out) == discovered(option_view(explicit), cwd@, views(files@)),
        out matches Ok(env) ==> views(files@).contains(env.config_file@) && env.working_dir@
            == cwd@,
{
    let ghost f = views(files@);
    let mut state = Search::begin(explicit, cwd);
    assert(state.outcome(f) == discovered(option_view(explicit), cwd@, f));
    loop
        invariant
            f == views(files@),
            state.outcome(f) == discovered(option_view(explicit), cwd@, f),
        decreases state.remaining(),
    {
        let exists = holds(files, state.probe());
        let ghost before = state;
        let progress = state.answer(exists);
        assert(before.outcome(f) == progress_outcome(progress, f));
        match progress {
            Progress::Probe(next) => {
                state = next;
            },
            Progress::Found(env) => {
                proof {
                    law_discovered(option_view(explicit), cwd@, f);
                }
                return Ok(env);
            },
            Progress::Missing => {
                return Err(LaunchError::ConfigNotFound);
            },
        }
    }
}

} // verus!
