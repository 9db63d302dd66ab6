//! The launch specification, put together from the project
//! environment, the configuration, the mounts and the docker-in-docker
//! decision, with the command, the working directory and the variables that
//! the container gets.

use vstd::prelude::*;
use vstd::string::StringExecFns;
use crate::config::{given, load, loaded, Config, ConfigModel, ImageSource, ImageSourceModel, Passthrough, PassthroughModel};
use crate::dind::{decide, decided, Augmentation, AugmentationModel};
use crate::environment::{ProjectEnvironment, ProjectEnvironmentModel};
use crate::errors::{LaunchError, LaunchErrorModel, Rule};
use crate::syntax::document_of;
use crate::paths::{is_absolute, resolve, resolve_path};
use crate::text::{chars_of, join, joined, option_view, quote, quoted, same, string_of, trim, trimmed, views};
use crate::volumes::{law_mounts_resolved, mount_point, resolve_volumes, resolved, VolumeMount, VolumeMountModel, MOUNT_POINT};

verus! {

/// A variable and its value.
#[derive(Clone, Debug, PartialEq, Eq)]
pub struct Variable {
    pub name: String,
    pub value: String,
}

/// The model of a `Variable`.
pub struct VariableModel {
    pub name: Seq<char>,
    pub value: Seq<char>,
}

impl View for Variable {
    type V = VariableModel;

    open spec fn view(&self) -> VariableModel {
        VariableModel { name: self.name@, value: self.value@ }
    }
}

/// What the container runs: the shell alone, which is then interactive, or
/// the shell with a command line for it to run.
#[derive(Clone, Debug, PartialEq, Eq)]
pub struct LaunchCommand {
    pub shell: String,
    pub inner: Option<String>,
}

/// The model of a `LaunchCommand`.
pub struct LaunchCommandModel {
    pub shell: Seq<char>,
    pub inner: Option<Seq<char>>,
}

impl View for LaunchCommand {
    type V = LaunchCommandModel;

    open spec fn view(&self) -> LaunchCommandModel {
        LaunchCommandModel { shell: self.shell@, inner: option_view(self.inner) }
    }
}

/// All that a launch needs to know.
#[derive(Clone, Debug, PartialEq, Eq)]
pub struct LaunchSpecification {
    pub image: ImageSource,
    pub mounts: Vec<VolumeMount>,
    pub working_dir: String,
    pub command: LaunchCommand,
    pub environment: Vec<Variable>,
    pub augmentation: Augmentation,
    pub entrypoint: Option<String>,
    /// Whether the caller's terminal is to be attached: no command was asked for.
    pub interactive: bool,
}

/// The model of a `LaunchSpecification`.
pub struct LaunchSpecificationModel {
    pub image: ImageSourceModel,
    pub mounts: Seq<VolumeMountModel>,
    pub working_dir: Seq<char>,
    pub command: LaunchCommandModel,
    pub environment: Seq<VariableModel>,
    pub augmentation: AugmentationModel,
    pub entrypoint: Option<Seq<char>>,
    pub interactive: bool,
}

impl View for LaunchSpecification {
    type V = LaunchSpecificationModel;

    open spec fn view(&self) -> LaunchSpecificationModel {
        LaunchSpecificationModel {
            image: self.image@,
            mounts: views(self.mounts@),
            working_dir: self.working_dir@,
            command: self.command@,
            environment: views(self.environment@),
            augmentation: self.augmentation@,
            entrypoint: option_view(self.entrypoint),
            interactive: self.interactive,
        }
    }
}

/// A launch specification, and whether the caller is to be warned that
/// sibling mode was asked for and could not be had.
#[derive(Clone, Debug, PartialEq, Eq)]
pub struct LaunchPlan {
    pub spec: LaunchSpecification,
    pub warning: bool,
}

/// The model of a `LaunchPlan`.
pub struct LaunchPlanModel {
    pub spec: LaunchSpecificationModel,
    pub warning: bool,
}

impl View for LaunchPlan {
    type V = LaunchPlanModel;

    open spec fn view(&self) -> LaunchPlanModel {
        LaunchPlanModel { spec: self.spec@, warning: self.warning }
    }
}

/// The variables that every container gets if the caller has them set.
pub open spec fn allow_list() -> Seq<PassthroughModel> {
    seq![
        PassthroughModel { name: "TERM"@, optional: true },
        PassthroughModel { name: "LANG"@, optional: true },
    ]
}

/// The variables that a configuration asks for: the allow-list, then its own
/// passthroughs.
pub open spec fn wanted(config: ConfigModel) -> Seq<PassthroughModel> {
    allow_list() + config.environment
}

/// The first index at or after `from` whose variable is named `name`, or the
/// number of variables.
pub open spec fn index_of(calling: Seq<VariableModel>, name: Seq<char>, from: int) -> int
    decreases calling.len() - from,
{
    if from < 0 || from >= calling.len() {
        calling.len() as int
    } else if calling[from].name == name {
        from
    } else {
        index_of(calling, name, from + 1)
    }
}

/// Whether the calling environment sets `name`.
pub open spec fn is_set(calling: Seq<VariableModel>, name: Seq<char>) -> bool {
    index_of(calling, name, 0) < calling.len()
}

/// The variables among the first `n` wanted that the calling environment
/// sets, each with the value that it has there.
pub open spec fn forwarded(
    wanted: Seq<PassthroughModel>,
    calling: Seq<VariableModel>,
    n: int,
) -> Seq<VariableModel>
    decreases n,
{
    if n <= 0 {
        Seq::empty()
    } else if is_set(calling, wanted[n - 1].name) {
        forwarded(wanted, calling, n - 1).push(
            VariableModel {
                name: wanted[n - 1].name,
                value: calling[index_of(calling, wanted[n - 1].name, 0)].value,
            },
        )
    } else {
        forwarded(wanted, calling, n - 1)
    }
}

/// Whether the wanted variable `i` is required and not set.
pub open spec fn unresolved(
    wanted: Seq<PassthroughModel>,
    calling: Seq<VariableModel>,
    i: int,
) -> bool {
    !wanted[i].optional && !is_set(calling, wanted[i].name)
}

/// The first wanted variable at or after `from` that is unresolved, or the
/// number of wanted variables.
pub open spec fn first_unresolved(
    wanted: Seq<PassthroughModel>,
    calling: Seq<VariableModel>,
    from: int,
) -> int
    decreases wanted.len() - from,
{
    if from < 0 || from >= wanted.len() {
        wanted.len() as int
    } else if unresolved(wanted, calling, from) {
        from
    } else {
        first_unresolved(wanted, calling, from + 1)
    }
}

/// The variables that the container gets, or the first required variable that
/// the calling environment does not set.
pub open spec fn variables(wanted: Seq<PassthroughModel>, calling: Seq<VariableModel>) -> Result<
    Seq<VariableModel>,
    LaunchErrorModel,
> {
    let k = first_unresolved(wanted, calling, 0);
    if k < wanted.len() {
        Err(LaunchErrorModel::UnresolvedVariable { name: wanted[k].name })
    } else {
        Ok(forwarded(wanted, calling, wanted.len() as int))
    }
}

/// The command line that has `shell` run the requested words as one command.
pub open spec fn wrapped(shell: Seq<char>, request: Seq<Seq<char>>) -> Seq<char> {
    shell + " -c "@ + quote(join(request, " "@))
}

/// `command`, run only if the startup script `script` succeeds before it.
pub open spec fn chained(script: Seq<char>, command: Seq<char>) -> Seq<char> {
    trim(script) + " && "@ + command
}

/// The command of a launch: with no request and no startup script, the shell
/// alone; with a request, the shell with the request wrapped for it; with a
/// startup script, the script chained before either.
pub open spec fn command_of(
    shell: Seq<char>,
    request: Seq<Seq<char>>,
    startup: Option<Seq<char>>,
) -> LaunchCommandModel {
    let base = if request.len() == 0 {
        None
    } else {
        Some(wrapped(shell, request))
    };
    LaunchCommandModel {
        shell,
        inner: match startup {
            None => base,
            Some(script) => Some(
                chained(
                    script,
                    match base {
                        Some(c) => c,
                        None => shell,
                    },
                ),
            ),
        },
    }
}

/// The first index at or after `from` whose mount has the host path `root`,
/// or the number of mounts.
pub open spec fn mounted_at(mounts: Seq<VolumeMountModel>, root: Seq<char>, from: int) -> int
    decreases mounts.len() - from,
{
    if from < 0 || from >= mounts.len() {
        mounts.len() as int
    } else if mounts[from].host == root {
        from
    } else {
        mounted_at(mounts, root, from + 1)
    }
}

/// The working directory of the container: where the first mount of the
/// project root puts it, or the conventional mount point if no mount does.
pub open spec fn working_dir_of(mounts: Seq<VolumeMountModel>, root: Seq<char>) -> Seq<char> {
    let k = mounted_at(mounts, root, 0);
    if k < mounts.len() {
        mounts[k].container
    } else {
        mount_point()
    }
}

/// The image source with the paths of a build anchored at the project root.
pub open spec fn image_under(image: ImageSourceModel, root: Seq<char>) -> ImageSourceModel {
    match image {
        ImageSourceModel::Pull { reference } => ImageSourceModel::Pull { reference },
        ImageSourceModel::Build { context, dockerfile } => ImageSourceModel::Build {
            context: resolve(root, context),
            dockerfile: match dockerfile {
                Some(file) => Some(resolve(root, file)),
                None => None,
            },
        },
    }
}

/// What putting the launch together gives: the launch specification, or the first
/// required variable that is not set.
pub open spec fn assembled(
    env: ProjectEnvironmentModel,
    config: ConfigModel,
    mounts: Seq<VolumeMountModel>,
    augmentation: AugmentationModel,
    request: Seq<Seq<char>>,
    startup: Option<Seq<char>>,
    calling: Seq<VariableModel>,
) -> Result<LaunchSpecificationModel, LaunchErrorModel> {
    match variables(wanted(config), calling) {
        Err(e) => Err(e),
        Ok(environment) => Ok(
            LaunchSpecificationModel {
                image: image_under(config.image, env.project_root),
                mounts,
                working_dir: working_dir_of(mounts, env.project_root),
                command: command_of(config.shell, request, startup),
                environment,
                augmentation,
                entrypoint: config.entrypoint,
                interactive: request.len() == 0,
            },
        ),
    }
}

/// What the whole resolution gives: the error of volume resolution, else that
/// of the docker-in-docker policy, else that of putting the launch together, else the plan.
pub open spec fn planned(
    env: ProjectEnvironmentModel,
    config: ConfigModel,
    request: Seq<Seq<char>>,
    startup: Option<Seq<char>>,
    calling: Seq<VariableModel>,
    files: Seq<Seq<char>>,
    socket: Option<Seq<char>>,
) -> Result<LaunchPlanModel, LaunchErrorModel> {
    match resolved(config.volumes, env.project_root, files) {
        Err(e) => Err(e),
        Ok(mounts) => match decided(config.dind, socket) {
            Err(e) => Err(e),
            Ok(decision) => match assembled(
                env,
                config,
                mounts,
                decision.augmentation,
                request,
                startup,
                calling,
            ) {
                Err(e) => Err(e),
                Ok(spec) => Ok(LaunchPlanModel { spec, warning: decision.warning }),
            },
        },
    }
}

/// What resolving a configuration text gives: the error of loading it, else
/// what resolving its configuration gives.
pub open spec fn planned_from_text(
    text: Seq<char>,
    check_shell: bool,
    env: ProjectEnvironmentModel,
    request: Seq<Seq<char>>,
    startup: Option<Seq<char>>,
    calling: Seq<VariableModel>,
    files: Seq<Seq<char>>,
    socket: Option<Seq<char>>,
) -> Result<LaunchPlanModel, LaunchErrorModel> {
    match loaded(text, check_shell) {
        Err(e) => Err(e),
        Ok(config) => planned(env, config, request, startup, calling, files, socket),
    }
}

/// A text that declares both an image to pull and a build context is rejected
/// whatever the filesystem, the socket and the calling environment hold: the
/// configuration fails before any of them is looked at.
pub proof fn law_rejected_before_resolution(
    text: Seq<char>,
    check_shell: bool,
    env: ProjectEnvironmentModel,
    request: Seq<Seq<char>>,
    startup: Option<Seq<char>>,
    calling: Seq<VariableModel>,
    files: Seq<Seq<char>>,
    socket: Option<Seq<char>>,
)
    requires
        document_of(text) matches Ok(doc) && given(doc.fields, "image"@) && given(
            doc.fields,
            "build"@,
        ),
    ensures
        planned_from_text(text, check_shell, env, request, startup, calling, files, socket)
            == Err::<LaunchPlanModel, LaunchErrorModel>(
            LaunchErrorModel::ConfigValidation { rule: Rule::ImageAmbiguous },
        ),
{
}

/// An unresolved variable at `k` bounds the first unresolved one from above.
pub proof fn lemma_first_unresolved(
    wanted: Seq<PassthroughModel>,
    calling: Seq<VariableModel>,
    from: int,
    k: int,
)
    requires
        0 <= from <= k < wanted.len(),
        unresolved(wanted, calling, k),
    ensures
        from <= first_unresolved(wanted, calling, from) <= k,
        unresolved(wanted, calling, first_unresolved(wanted, calling, from)),
    decreases k - from,
{
    if from < k && !unresolved(wanted, calling, from) {
        lemma_first_unresolved(wanted, calling, from + 1, k);
    }
}

/// Every forwarded variable is set in the calling environment, with the value
/// that it has there.
pub proof fn lemma_forwarded(wanted: Seq<PassthroughModel>, calling: Seq<VariableModel>, n: int)
    requires
        0 <= n <= wanted.len(),
    ensures
        forall|k: int|
            0 <= k < forwarded(wanted, calling, n).len() ==> {
                let v = #[trigger] forwarded(wanted, calling, n)[k];
                is_set(calling, v.name) && v.value == calling[index_of(calling, v.name, 0)].value
            },
    decreases n,
{
    if n > 0 {
        lemma_forwarded(wanted, calling, n - 1);
        let all = forwarded(wanted, calling, n);
        let rest = forwarded(wanted, calling, n - 1);
        assert forall|k: int| 0 <= k < all.len() implies {
            let v = #[trigger] all[k];
            is_set(calling, v.name) && v.value == calling[index_of(calling, v.name, 0)].value
        } by {
            if k < rest.len() {
                assert(all[k] == rest[k]);
            }
        }
    }
}

/// A configuration without volume declarations gives a launch specification
/// without mounts, whose working directory is the conventional mount point.
pub proof fn law_no_volumes(
    env: ProjectEnvironmentModel,
    config: ConfigModel,
    request: Seq<Seq<char>>,
    startup: Option<Seq<char>>,
    calling: Seq<VariableModel>,
    files: Seq<Seq<char>>,
    socket: Option<Seq<char>>,
)
    requires
        config.volumes.len() == 0,
    ensures
        planned(env, config, request, startup, calling, files, socket) matches Ok(plan) ==> {
            &&& plan.spec.mounts.len() == 0
            &&& plan.spec.working_dir == mount_point()
        },
{
}

/// Resolution is anchored at the project root: two environments with one
/// project root give the same plan, wherever the caller stood.
pub proof fn law_anchored_at_root(
    a: ProjectEnvironmentModel,
    b: ProjectEnvironmentModel,
    config: ConfigModel,
    request: Seq<Seq<char>>,
    startup: Option<Seq<char>>,
    calling: Seq<VariableModel>,
    files: Seq<Seq<char>>,
    socket: Option<Seq<char>>,
)
    requires
        a.project_root == b.project_root,
    ensures
        planned(a, config, request, startup, calling, files, socket) == planned(
            b,
            config,
            request,
            startup,
            calling,
            files,
            socket,
        ),
{
}

/// A required passthrough that the calling environment does not set makes
/// the launch fail to be put together, with an unresolved variable, and so the
/// whole resolution fail: no plan is made. The variable named is one that is
/// not set; it is this one if no required passthrough before it is unset too.
pub proof fn law_required_variable(
    env: ProjectEnvironmentModel,
    config: ConfigModel,
    request: Seq<Seq<char>>,
    startup: Option<Seq<char>>,
    calling: Seq<VariableModel>,
    files: Seq<Seq<char>>,
    socket: Option<Seq<char>>,
    i: int,
)
    requires
        0 <= i < config.environment.len(),
        !config.environment[i].optional,
        !is_set(calling, config.environment[i].name),
    ensures
        planned(env, config, request, startup, calling, files, socket) is Err,
        forall|mounts: Seq<VolumeMountModel>, augmentation: AugmentationModel|
            (#[trigger] assembled(env, config, mounts, augmentation, request, startup, calling))
                matches Err(LaunchErrorModel::UnresolvedVariable { name }) && !is_set(
                calling,
                name,
            ),
        (forall|j: int| 0 <= j < i ==> !unresolved(config.environment, calling, j)) ==> forall|
            mounts: Seq<VolumeMountModel>,
            augmentation: AugmentationModel,
        |
            #[trigger] assembled(env, config, mounts, augmentation, request, startup, calling)
                == Err::<LaunchSpecificationModel, LaunchErrorModel>(
                LaunchErrorModel::UnresolvedVariable { name: config.environment[i].name },
            ),
{
    let w = wanted(config);
    assert(w[i + 2] == config.environment[i]);
    lemma_first_unresolved(w, calling, 0, i + 2);
    if forall|j: int| 0 <= j < i ==> !unresolved(config.environment, calling, j) {
        let k = first_unresolved(w, calling, 0);
        if k < i + 2 {
            if k >= 2 {
                assert(w[k] == config.environment[k - 2]);
                assert(unresolved(config.environment, calling, k - 2));
            }
        }
    }
}

/// A plan is fully resolved: under an absolute project root, a well-formed
/// configuration and an absolute socket path, every path in it is absolute and
/// every variable in it is set in the calling environment.
pub proof fn law_fully_resolved(
    env: ProjectEnvironmentModel,
    config: ConfigModel,
    request: Seq<Seq<char>>,
    startup: Option<Seq<char>>,
    calling: Seq<VariableModel>,
    files: Seq<Seq<char>>,
    socket: Option<Seq<char>>,
)
    requires
        is_absolute(env.project_root),
        config.well_formed(),
        socket matches Some(s) ==> is_absolute(s),
    ensures
        planned(env, config, request, startup, calling, files, socket) matches Ok(plan) ==> {
            &&& forall|k: int|
                0 <= k < plan.spec.mounts.len() ==> (#[trigger] plan.spec.mounts[k]).is_resolved()
            &&& is_absolute(plan.spec.working_dir)
            &&& plan.spec.image matches ImageSourceModel::Build { context, dockerfile }
                ==> is_absolute(context) && (dockerfile matches Some(file) ==> is_absolute(file))
            &&& plan.spec.augmentation matches AugmentationModel::Sibling { socket: mount }
                ==> mount.is_resolved()
            &&& forall|k: int|
                0 <= k < plan.spec.environment.len() ==> is_set(
                    calling,
                    (#[trigger] plan.spec.environment[k]).name,
                )
        },
{
    if let Ok(plan) = planned(env, config, request, startup, calling, files, socket) {
        reveal_strlit("/src");
        reveal_strlit("/var/run/docker.sock");
        law_mounts_resolved(config.volumes, env.project_root, files);
        let mounts = plan.spec.mounts;
        lemma_mounted_at(mounts, env.project_root, 0);
        lemma_forwarded(wanted(config), calling, wanted(config).len() as int);
    }
}

pub proof fn lemma_mounted_at(mounts: Seq<VolumeMountModel>, root: Seq<char>, from: int)
    requires
        0 <= from <= mounts.len(),
    ensures
        from <= mounted_at(mounts, root, from) <= mounts.len(),
    decreases mounts.len() - from,
{
    if from < mounts.len() && mounts[from].host != root {
        lemma_mounted_at(mounts, root, from + 1);
    }
}

/// The model of a result that holds a launch specification.
pub open spec fn specification_outcome(r: Result<LaunchSpecification, LaunchError>) -> Result<
    LaunchSpecificationModel,
    LaunchErrorModel,
> {
    match r {
        Ok(s) => Ok(s@),
        Err(e) => Err(e@),
    }
}

/// The model of a result that holds a plan.
pub open spec fn plan_outcome(r: Result<LaunchPlan, LaunchError>) -> Result<
    LaunchPlanModel,
    LaunchErrorModel,
> {
    match r {
        Ok(p) => Ok(p@),
        Err(e) => Err(e@),
    }
}

/// The model of a result that holds variables.
pub open spec fn variables_outcome(r: Result<Vec<Variable>, LaunchError>) -> Result<
    Seq<VariableModel>,
    LaunchErrorModel,
> {
    match r {
        Ok(v) => Ok(views(v@)),
        Err(e) => Err(e@),
    }
}

/// The value that the calling environment gives `name`, if it sets it.
pub fn value_of<'a>(calling: &'a Vec<Variable>, name: &str) -> (v: Option<&'a str>)
    ensures
        v is Some == is_set(views(calling@), name@),
        v matches Some(s) ==> s@ == views(calling@)[index_of(views(calling@), name@, 0)].value,
{
    let mut i: usize = 0;
    while i < calling.len()
        invariant
            i <= calling.len(),
            index_of(views(calling@), name@, 0) == index_of(views(calling@), name@, i as int),
        decreases calling.len() - i,
    {
        if same(calling[i].name.as_str(), name) {
            return Some(calling[i].value.as_str());
        }
        i += 1;
    }
    None
}

/// The variables that a configuration asks for.
pub fn wanted_by(config: &Config) -> (out: Vec<Passthrough>)
    ensures
        views(out@) == wanted(config@),
{
    let mut out: Vec<Passthrough> = Vec::new();
    out.push(Passthrough { name: "TERM".to_owned(), optional: true });
    out.push(Passthrough { name: "LANG".to_owned(), optional: true });
    assert(views(out@) =~= allow_list());
    let mut i: usize = 0;
    while i < config.environment.len()
        invariant
            i <= config.environment.len(),
            views(out@) == allow_list() + views(config.environment@).take(i as int),
        decreases config.environment.len() - i,
    {
        let ghost before = out@;
        let p = Passthrough {
            name: config.environment[i].name.clone(),
            optional: config.environment[i].optional,
        };
        out.push(p);
        assert(views(out@) =~= views(before).push(p@));
        assert(views(config.environment@).take(i + 1) =~= views(config.environment@).take(
            i as int,
        ).push(p@));
        i += 1;
    }
    assert(views(config.environment@).take(config.environment.len() as int) =~= views(
        config.environment@,
    ));
    out
}

/// The variables that the container gets out of the calling environment.
/// Fails at the first wanted variable that is required and not set.
pub fn forward(wanted: &Vec<Passthrough>, calling: &Vec<Variable>) -> (out: Result<
    Vec<Variable>,
    LaunchError,
>)
    ensures
        variables_outcome(out) == variables(views(wanted@), views(calling@)),
{
    let ghost w = views(wanted@);
    let ghost c = views(calling@);
    let mut out: Vec<Variable> = Vec::new();
    let mut i: usize = 0;
    while i < wanted.len()
        invariant
            i <= wanted.len(),
            w == views(wanted@),
            c == views(calling@),
            views(out@) == forwarded(w, c, i as int),
            first_unresolved(w, c, 0) == first_unresolved(w, c, i as int),
        decreases wanted.len() - i,
    {
        match value_of(calling, wanted[i].name.as_str()) {
            Some(value) => {
                let ghost before = out@;
                let v = Variable { name: wanted[i].name.clone(), value: value.to_owned() };
                out.push(v);
                assert(views(out@) =~= views(before).push(v@));
            },
            None => {
                if !wanted[i].optional {
                    return Err(LaunchError::UnresolvedVariable { name: wanted[i].name.clone() });
                }
            },
        }
        i += 1;
    }
    Ok(out)
}

/// `command`, run only if the startup script `script` succeeds before it.
pub fn chain_startup(script: &str, command: &str) -> (out: String)
    ensures
        out@ == chained(script@, command@),
{
    let mut out = string_of(&trimmed(&chars_of(script)));
    out.append(" && ");
    out.append(command);
    out
}

/// The command line that has `shell` run the requested words as one command.
pub fn command_in_shell(shell: &str, request: &Vec<String>) -> (out: String)
    ensures
        out@ == wrapped(shell@, views(request@)),
{
    let mut out = shell.to_owned();
    out.append(" -c ");
    out.append(quoted(joined(request, " ").as_str()).as_str());
    out
}

/// The command of a launch.
pub fn build_command(shell: &str, request: &Vec<String>, startup: Option<&str>) -> (out:
    LaunchCommand)
    ensures
        out@ == command_of(shell@, views(request@), option_view(startup)),
{
    let base: Option<String> = if request.len() == 0 {
        None
    } else {
        Some(command_in_shell(shell, request))
    };
    let inner = match startup {
        None => base,
        Some(script) => {
            let command = match base {
                Some(c) => c,
                None => shell.to_owned(),
            };
            Some(chain_startup(script, command.as_str()))
        },
    };
    LaunchCommand { shell: shell.to_owned(), inner }
}

/// The working directory of the container.
pub fn working_dir(mounts: &Vec<VolumeMount>, root: &str) -> (out: String)
    ensures
        out@ == working_dir_of(views(mounts@), root@),
{
    let mut i: usize = 0;
    while i < mounts.len()
        invariant
            i <= mounts.len(),
            mounted_at(views(mounts@), root@, 0) == mounted_at(views(mounts@), root@, i as int),
        decreases mounts.len() - i,
    {
        if same(mounts[i].host.as_str(), root) {
            return mounts[i].container.clone();
        }
        i += 1;
    }
    MOUNT_POINT.to_owned()
}

/// The image source with the paths of a build anchored at the project root.
pub fn anchor_image(image: &ImageSource, root: &str) -> (out: ImageSource)
    ensures
        out@ == image_under(image@, root@),
{
    match image {
        ImageSource::Pull { reference } => ImageSource::Pull { reference: reference.clone() },
        ImageSource::Build { context, dockerfile } => ImageSource::Build {
            context: resolve_path(root, context.as_str()),
            dockerfile: match dockerfile {
                Some(file) => Some(resolve_path(root, file.as_str())),
                None => None,
            },
        },
    }
}

/// Puts the launch specification together. `request` holds the words of the
/// command that the caller asked for, none for an interactive shell;
/// `startup` the caller's startup script, if there is one; `calling` the
/// variables of the calling environment.
pub fn assemble(
    env: &ProjectEnvironment,
    config: &Config,
    mounts: Vec<VolumeMount>,
    augmentation: Augmentation,
    request: &Vec<String>,
    startup: Option<&str>,
    calling: &Vec<Variable>,
) -> (out: Result<LaunchSpecification, LaunchError>)
    ensures
        specification_outcome(out) == assembled(
            env@,
            config@,
            views(mounts@),
            augmentation@,
            views(request@),
            option_view(startup),
            views(calling@),
        ),
{
    let environment = match forward(&wanted_by(config), calling) {
        Err(e) => {
            return Err(e);
        },
        Ok(v) => v,
    };
    let root = env.project_root.as_str();
    let working_dir = working_dir(&mounts, root);
    Ok(
        LaunchSpecification {
            image: anchor_image(&config.image, root),
            mounts,
            working_dir,
            command: build_command(config.shell.as_str(), request, startup),
            environment,
            augmentation,
            entrypoint: match &config.entrypoint {
                Some(e) => Some(e.clone()),
                None => None,
            },
            interactive: request.len() == 0,
        },
    )
}

/// Resolves a launch: the volumes, the docker-in-docker policy, then the
/// launch specification. `files` lists the host paths that exist, `socket` is
/// the host's runtime socket if one was found.
pub fn plan(
    env: &ProjectEnvironment,
    config: &Config,
    request: &Vec<String>,
    startup: Option<&str>,
    calling: &Vec<Variable>,
    files: &Vec<String>,
    socket: Option<&str>,
) -> (out: Result<LaunchPlan, LaunchError>)
    ensures
        plan_outcome(out) == planned(
            env@,
            config@,
            views(request@),
            option_view(startup),
            views(calling@),
            views(files@),
            option_view(socket),
        ),
        is_absolute(env.project_root@) && config@.well_formed() && (socket matches Some(s)
            ==> is_absolute(s@)) ==> (out matches Ok(p) ==> {
            &&& forall|k: int|
                0 <= k < p.spec.mounts.len() ==> (#[trigger] p.spec.mounts[k])@.is_resolved()
            &&& is_absolute(p.spec.working_dir@)
        }),
{
    let mounts = match resolve_volumes(&config.volumes, env.project_root.as_str(), files) {
        Err(e) => {
            return Err(e);
        },
        Ok(m) => m,
    };
    let decision = match decide(config.dind, socket) {
        Err(e) => {
            return Err(e);
        },
        Ok(d) => d,
    };
    let warning = decision.warning;
    match assemble(env, config, mounts, decision.augmentation, request, startup, calling) {
        Err(e) => Err(e),
        Ok(spec) => {
            proof {
                if is_absolute(env.project_root@) && config@.well_formed() && (
                option_view(socket) matches Some(s) ==> is_absolute(s)) {
                    law_fully_resolved(
                        env@,
                        config@,
                        views(request@),
                        option_view(startup),
                        views(calling@),
                        views(files@),
                        option_view(socket),
                    );
                    let model = planned(
                        env@,
                        config@,
                        views(request@),
                        option_view(startup),
                        views(calling@),
                        views(files@),
                        option_view(socket),
                    );
                    assert(model == Ok::<LaunchPlanModel, LaunchErrorModel>(
                        LaunchPlanModel { spec: spec@, warning },
                    ));
                    assert forall|k: int| 0 <= k < spec.mounts.len() implies (
                    #[trigger] spec.mounts[k])@.is_resolved() by {
                        assert(spec@.mounts[k] == spec.mounts[k]@);
                        assert(spec@.mounts[k].is_resolved());
                    }
                }
            }
            Ok(LaunchPlan { spec, warning })
        },
    }
}

/// Resolves a launch from the text of the configuration: loads it, then
/// resolves as `plan` does.
pub fn plan_from_text(
    text: &str,
    check_shell: bool,
    env: &ProjectEnvironment,
    request: &Vec<String>,
    startup: Option<&str>,
    calling: &Vec<Variable>,
    files: &Vec<String>,
    socket: Option<&str>,
) -> (out: Result<LaunchPlan, LaunchError>)
    ensures
        plan_outcome(out) == planned_from_text(
            text@,
            check_shell,
            env@,
            views(request@),
            option_view(startup),
            views(calling@),
            views(files@),
            option_view(socket),
        ),
{
    match load(text, check_shell) {
        Err(e) => Err(e),
        Ok(config) => plan(env, &config, request, startup, calling, files, socket),
    }
}

} // verus!
