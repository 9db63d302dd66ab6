//! Container execution: the invocations of the container runtime that a launch
//! specification stands for, the order in which they are made, and the exit
//! status that comes of them. The invocations themselves are made elsewhere;
//! here each report of one decides the next.

use vstd::prelude::*;
use vstd::string::StringExecFns;
use crate::config::{ImageSource, ImageSourceModel};
use crate::dind::{Augmentation, AugmentationModel};
use crate::errors::{LaunchError, LaunchErrorModel, FAILURE_STATUS};
use crate::launch::{LaunchCommand, LaunchCommandModel, LaunchSpecification, LaunchSpecificationModel, Variable, VariableModel};
use crate::text::{option_view, views};
use crate::volumes::{Access, VolumeMount, VolumeMountModel};

verus! {

/// The name under which an image that is built here is tagged and run.
pub const LOCAL_IMAGE: &'static str = "floki-local";

/// The exit status with which the runtime says that the container did not
/// start. It is never handed on as a container's own.
pub const RUNTIME_FAILURE: i32 = 125;

/// The runtime's argument for one mount: host path, container path and, for a
/// read-only mount, the mark `ro`, with colons between them.
pub open spec fn mount_argument(m: VolumeMountModel) -> Seq<char> {
    m.host + ":"@ + m.container + if m.access == Access::ReadOnly {
        ":ro"@
    } else {
        Seq::empty()
    }
}

/// The runtime's arguments for the first `n` mounts.
pub open spec fn mount_arguments(mounts: Seq<VolumeMountModel>, n: int) -> Seq<Seq<char>>
    decreases n,
{
    if n <= 0 {
        Seq::empty()
    } else {
        mount_arguments(mounts, n - 1).push("-v"@).push(mount_argument(mounts[n - 1]))
    }
}

/// The runtime's argument for one variable: name, `=`, value.
pub open spec fn variable_argument(v: VariableModel) -> Seq<char> {
    v.name + "="@ + v.value
}

/// The runtime's arguments for the first `n` variables.
pub open spec fn variable_arguments(variables: Seq<VariableModel>, n: int) -> Seq<Seq<char>>
    decreases n,
{
    if n <= 0 {
        Seq::empty()
    } else {
        variable_arguments(variables, n - 1).push("-e"@).push(
            variable_argument(variables[n - 1]),
        )
    }
}

/// The runtime's arguments for the docker-in-docker augmentation: the socket
/// mount in sibling mode, the privilege that a runtime of its own needs in
/// nested mode.
pub open spec fn augmentation_arguments(a: AugmentationModel) -> Seq<Seq<char>> {
    match a {
        AugmentationModel::Nothing => Seq::empty(),
        AugmentationModel::Sibling { socket } => seq!["-v"@, mount_argument(socket)],
        AugmentationModel::Nested => seq!["--privileged"@],
    }
}

/// The name by which the runtime knows the image.
pub open spec fn image_name(image: ImageSourceModel) -> Seq<char> {
    match image {
        ImageSourceModel::Pull { reference } => reference,
        ImageSourceModel::Build { .. } => "floki-local"@,
    }
}

/// The words that the container runs.
pub open spec fn command_words(c: LaunchCommandModel) -> Seq<Seq<char>> {
    match c.inner {
        None => seq![c.shell],
        Some(inner) => seq![c.shell, "-c"@, inner],
    }
}

/// The runtime's arguments for an entrypoint override.
pub open spec fn entrypoint_arguments(e: Option<Seq<char>>) -> Seq<Seq<char>> {
    match e {
        None => Seq::empty(),
        Some(e) => seq!["--entrypoint"@, e],
    }
}

/// The runtime's arguments for the caller's terminal: input kept open and a
/// terminal allocated for an interactive launch, nothing otherwise.
pub open spec fn terminal_arguments(interactive: bool) -> Seq<Seq<char>> {
    if interactive {
        seq!["-i"@, "-t"@]
    } else {
        Seq::empty()
    }
}

/// The arguments with which the runtime runs the container.
pub open spec fn run_line(spec: LaunchSpecificationModel) -> Seq<Seq<char>> {
    seq!["run"@, "--rm"@] + terminal_arguments(spec.interactive) + mount_arguments(spec.mounts, spec.mounts.len() as int) + augmentation_arguments(
        spec.augmentation,
    ) + seq!["-w"@, spec.working_dir] + variable_arguments(
        spec.environment,
        spec.environment.len() as int,
    ) + entrypoint_arguments(spec.entrypoint) + seq![image_name(spec.image)] + command_words(
        spec.command,
    )
}

/// The arguments with which the runtime pulls or builds the image.
pub open spec fn fetch_line(image: ImageSourceModel) -> Seq<Seq<char>> {
    match image {
        ImageSourceModel::Pull { reference } => seq!["pull"@, reference],
        ImageSourceModel::Build { context, dockerfile } => seq!["build"@, "-t"@, "floki-local"@]
            + (match dockerfile {
            Some(file) => seq!["-f"@, file],
            None => Seq::empty(),
        }) + seq![context],
    }
}

/// The arguments with which the runtime tells whether it has the image.
pub open spec fn inspect_line(image: ImageSourceModel) -> Seq<Seq<char>> {
    seq!["image"@, "inspect"@, image_name(image)]
}

/// Where a launch stands.
#[derive(Clone, Copy, Debug, PartialEq, Eq, Structural)]
pub enum Phase {
    /// The runtime was asked whether it has the image.
    Inspecting,
    /// The runtime was asked to pull or build the image.
    Fetching,
    /// The runtime was asked to run the container.
    Running,
}

/// What became of one invocation of the runtime.
#[derive(Clone, Copy, Debug, PartialEq, Eq, Structural)]
pub enum Report {
    /// The runtime exited with this status.
    Exited { status: i32 },
    /// The runtime could not be invoked, or was killed before it exited.
    Interrupted,
}

/// What a launcher is to do.
#[derive(Clone, Debug, PartialEq, Eq)]
pub enum Job {
    /// Fetch the image, and run nothing.
    Fetch { image: ImageSource },
    /// Run the container of this specification; its image is fetched first if
    /// the runtime does not have it.
    Launch { spec: LaunchSpecification },
}

/// The model of a `Job`.
pub enum JobModel {
    Fetch { image: ImageSourceModel },
    Launch { spec: LaunchSpecificationModel },
}

impl View for Job {
    type V = JobModel;

    open spec fn view(&self) -> JobModel {
        match *self {
            Job::Fetch { image } => JobModel::Fetch { image: image@ },
            Job::Launch { spec } => JobModel::Launch { spec: spec@ },
        }
    }
}

/// The image that a job is about.
pub open spec fn job_image(job: JobModel) -> ImageSourceModel {
    match job {
        JobModel::Fetch { image } => image,
        JobModel::Launch { spec } => spec.image,
    }
}

/// A launch in progress.
#[derive(Clone, Debug, PartialEq, Eq)]
pub struct Launcher {
    pub job: Job,
    pub phase: Phase,
}

/// The model of a `Launcher`.
pub struct LauncherModel {
    pub job: JobModel,
    pub phase: Phase,
}

impl View for Launcher {
    type V = LauncherModel;

    open spec fn view(&self) -> LauncherModel {
        LauncherModel { job: self.job@, phase: self.phase }
    }
}

/// What a launch asks for next, or how it ended.
#[derive(Clone, Debug, PartialEq, Eq)]
pub enum Step {
    /// The runtime is to be invoked with these arguments, and its report
    /// handed to `launcher`. With `attach` the caller's standard input, output
    /// and error are attached to the invocation; without it all three are
    /// detached.
    Invoke { launcher: Launcher, arguments: Vec<String>, attach: bool },
    /// The launch is over; this is the exit status.
    Finish { status: i32 },
    /// The launch failed.
    Fail { error: LaunchError },
}

/// The model of a `Step`.
pub enum StepModel {
    Invoke { launcher: LauncherModel, arguments: Seq<Seq<char>>, attach: bool },
    Finish { status: i32 },
    Fail { error: LaunchErrorModel },
}

impl View for Step {
    type V = StepModel;

    open spec fn view(&self) -> StepModel {
        match *self {
            Step::Invoke { launcher, arguments, attach } => StepModel::Invoke {
                launcher: launcher@,
                arguments: views(arguments@),
                attach,
            },
            Step::Finish { status } => StepModel::Finish { status },
            Step::Fail { error } => StepModel::Fail { error: error@ },
        }
    }
}

/// The step that asks the runtime to pull or build the image of a job.
pub open spec fn fetching(job: JobModel) -> StepModel {
    StepModel::Invoke {
        launcher: LauncherModel { job, phase: Phase::Fetching },
        arguments: fetch_line(job_image(job)),
        attach: false,
    }
}

/// The step that asks the runtime to run the container. The caller's streams
/// are attached exactly when the launch is interactive.
pub open spec fn running(spec: LaunchSpecificationModel) -> StepModel {
    StepModel::Invoke {
        launcher: LauncherModel { job: JobModel::Launch { spec }, phase: Phase::Running },
        arguments: run_line(spec),
        attach: spec.interactive,
    }
}

/// The step of a job once the runtime has the image: a fetch is over, with
/// success; a launch runs the container.
pub open spec fn provided(job: JobModel) -> StepModel {
    match job {
        JobModel::Fetch { .. } => StepModel::Finish { status: 0 },
        JobModel::Launch { spec } => running(spec),
    }
}

/// The first step of a launch: to ask whether the runtime has the image.
pub open spec fn started(spec: LaunchSpecificationModel) -> StepModel {
    StepModel::Invoke {
        launcher: LauncherModel { job: JobModel::Launch { spec }, phase: Phase::Inspecting },
        arguments: inspect_line(spec.image),
        attach: false,
    }
}

/// The first and only invocation of a fetch: to pull or build the image.
pub open spec fn pulling(image: ImageSourceModel) -> StepModel {
    fetching(JobModel::Fetch { image })
}

/// The step that follows a report. An image that the runtime has is run, one
/// that it lacks is fetched first. A fetch that fails is an image resolution
/// error. A run gives the container's exit status as it is, but for the
/// status that says the container did not start, and for a runtime that was
/// interrupted: those are runtime invocation errors.
pub open spec fn stepped(l: LauncherModel, report: Report) -> StepModel {
    match l.phase {
        Phase::Inspecting => if report == (Report::Exited { status: 0 }) {
            provided(l.job)
        } else {
            fetching(l.job)
        },
        Phase::Fetching => if report == (Report::Exited { status: 0 }) {
            provided(l.job)
        } else {
            StepModel::Fail { error: LaunchErrorModel::ImageResolution }
        },
        Phase::Running => match report {
            Report::Interrupted => StepModel::Fail { error: LaunchErrorModel::RuntimeInvocation },
            Report::Exited { status } => if status == RUNTIME_FAILURE {
                StepModel::Fail { error: LaunchErrorModel::RuntimeInvocation }
            } else {
                StepModel::Finish { status }
            },
        },
    }
}

/// How many invocations a launch in this phase may still ask for.
pub open spec fn invocations_left(phase: Phase) -> nat {
    match phase {
        Phase::Inspecting => 2,
        Phase::Fetching => 1,
        Phase::Running => 0,
    }
}

/// Every step brings a launch nearer to its end.
pub proof fn law_progress(l: LauncherModel, report: Report)
    ensures
        stepped(l, report) matches StepModel::Invoke { launcher, .. } ==> invocations_left(
            launcher.phase,
        ) < invocations_left(l.phase),
{
}

/// The failure status is reserved: no launch ever ends with it as the exit
/// status that it hands on, whatever the runtime reported. So a process that
/// exits with the failure status has failed, and one that exits with any
/// other status hands on what the container, or the fetch, gave.
pub proof fn law_failure_status_reserved(l: LauncherModel, report: Report)
    ensures
        stepped(l, report) matches StepModel::Finish { status } ==> status != FAILURE_STATUS,
        FAILURE_STATUS != 0,
{
}

/// A fetch never runs a container: it starts by asking for the image to be
/// pulled or built, with the caller's streams detached, and whatever is
/// reported, the only invocation it ever asks for is that one.
pub proof fn law_pull_only(image: ImageSourceModel, l: LauncherModel, report: Report)
    requires
        l.job is Fetch,
    ensures
        pulling(image) == (StepModel::Invoke {
            launcher: LauncherModel { job: JobModel::Fetch { image }, phase: Phase::Fetching },
            arguments: fetch_line(image),
            attach: false,
        }),
        stepped(l, report) matches StepModel::Invoke { launcher, arguments, attach } ==> {
            &&& launcher.job == l.job
            &&& launcher.phase == Phase::Fetching
            &&& arguments == fetch_line(job_image(l.job))
            &&& !attach
        },
        l.phase != Phase::Running ==> (stepped(l, report) matches StepModel::Finish { status }
            ==> status == 0),
{
}

fn mount_argument_of(m: &VolumeMount) -> (out: String)
    ensures
        out@ == mount_argument(m@),
{
    let mut out = m.host.clone();
    out.append(":");
    out.append(m.container.as_str());
    match m.access {
        Access::ReadOnly => {
            out.append(":ro");
        },
        Access::ReadWrite => {
            assert(out@ + Seq::<char>::empty() =~= out@);
        },
    }
    out
}

fn mount_arguments_of(mounts: &Vec<VolumeMount>) -> (out: Vec<String>)
    ensures
        views(out@) == mount_arguments(views(mounts@), mounts.len() as int),
{
    let mut out: Vec<String> = Vec::new();
    let mut i: usize = 0;
    assert(views(out@) =~= Seq::<Seq<char>>::empty());
    while i < mounts.len()
        invariant
            i <= mounts.len(),
            views(out@) == mount_arguments(views(mounts@), i as int),
        decreases mounts.len() - i,
    {
        let ghost before = out@;
        let flag = "-v".to_owned();
        let argument = mount_argument_of(&mounts[i]);
        out.push(flag);
        out.push(argument);
        assert(views(out@) =~= views(before).push(flag@).push(argument@));
        i += 1;
    }
    out
}

fn variable_arguments_of(variables: &Vec<Variable>) -> (out: Vec<String>)
    ensures
        views(out@) == variable_arguments(views(variables@), variables.len() as int),
{
    let mut out: Vec<String> = Vec::new();
    let mut i: usize = 0;
    assert(views(out@) =~= Seq::<Seq<char>>::empty());
    while i < variables.len()
        invariant
            i <= variables.len(),
            views(out@) == variable_arguments(views(variables@), i as int),
        decreases variables.len() - i,
    {
        let ghost before = out@;
        let flag = "-e".to_owned();
        let mut argument = variables[i].name.clone();
        argument.append("=");
        argument.append(variables[i].value.as_str());
        out.push(flag);
        out.push(argument);
        assert(views(out@) =~= views(before).push(flag@).push(argument@));
        i += 1;
    }
    out
}

/// The name by which the runtime knows the image.
pub fn image_name_of(image: &ImageSource) -> (out: String)
    ensures
        out@ == image_name(image@),
{
    match image {
        ImageSource::Pull { reference } => reference.clone(),
        ImageSource::Build { .. } => LOCAL_IMAGE.to_owned(),
    }
}

/// Appends the strings of `more` to `out`.
fn extend(out: &mut Vec<String>, more: Vec<String>)
    ensures
        views(final(out)@) == views(old(out)@) + views(more@),
{
    let mut more = more;
    let ghost added = more@;
    out.append(&mut more);
    assert(views(out@) =~= views(old(out)@) + views(added));
}

fn none() -> (out: Vec<String>)
    ensures
        views(out@) == Seq::<Seq<char>>::empty(),
{
    let out: Vec<String> = Vec::new();
    assert(views(out@) =~= Seq::<Seq<char>>::empty());
    out
}

fn one(a: &str) -> (out: Vec<String>)
    ensures
        views(out@) == seq![a@],
{
    let mut out: Vec<String> = Vec::new();
    out.push(a.to_owned());
    assert(views(out@) =~= seq![a@]);
    out
}

fn two(a: &str, b: &str) -> (out: Vec<String>)
    ensures
        views(out@) == seq![a@, b@],
{
    let mut out: Vec<String> = Vec::new();
    out.push(a.to_owned());
    out.push(b.to_owned());
    assert(views(out@) =~= seq![a@, b@]);
    out
}

fn three(a: &str, b: &str, c: &str) -> (out: Vec<String>)
    ensures
        views(out@) == seq![a@, b@, c@],
{
    let mut out: Vec<String> = Vec::new();
    out.push(a.to_owned());
    out.push(b.to_owned());
    out.push(c.to_owned());
    assert(views(out@) =~= seq![a@, b@, c@]);
    out
}

fn terminal_arguments_of(interactive: bool) -> (out: Vec<String>)
    ensures
        views(out@) == terminal_arguments(interactive),
{
    if interactive {
        two("-i", "-t")
    } else {
        none()
    }
}

fn augmentation_arguments_of(a: &Augmentation) -> (out: Vec<String>)
    ensures
        views(out@) == augmentation_arguments(a@),
{
    match a {
        Augmentation::Nothing => none(),
        Augmentation::Sibling { socket } => two("-v", mount_argument_of(socket).as_str()),
        Augmentation::Nested => one("--privileged"),
    }
}

fn entrypoint_arguments_of(e: &Option<String>) -> (out: Vec<String>)
    ensures
        views(out@) == entrypoint_arguments(option_view(*e)),
{
    match e {
        None => none(),
        Some(e) => two("--entrypoint", e.as_str()),
    }
}

fn command_words_of(c: &LaunchCommand) -> (out: Vec<String>)
    ensures
        views(out@) == command_words(c@),
{
    match &c.inner {
        None => one(c.shell.as_str()),
        Some(inner) => three(c.shell.as_str(), "-c", inner.as_str()),
    }
}

/// The arguments with which the runtime runs the container.
pub fn run_arguments(spec: &LaunchSpecification) -> (out: Vec<String>)
    ensures
        views(out@) == run_line(spec@),
{
    let mut out = two("run", "--rm");
    extend(&mut out, terminal_arguments_of(spec.interactive));
    extend(&mut out, mount_arguments_of(&spec.mounts));
    extend(&mut out, augmentation_arguments_of(&spec.augmentation));
    extend(&mut out, two("-w", spec.working_dir.as_str()));
    extend(&mut out, variable_arguments_of(&spec.environment));
    extend(&mut out, entrypoint_arguments_of(&spec.entrypoint));
    extend(&mut out, one(image_name_of(&spec.image).as_str()));
    extend(&mut out, command_words_of(&spec.command));
    out
}

/// The arguments with which the runtime pulls or builds the image.
pub fn fetch_arguments(image: &ImageSource) -> (out: Vec<String>)
    ensures
        views(out@) == fetch_line(image@),
{
    match image {
        ImageSource::Pull { reference } => two("pull", reference.as_str()),
        ImageSource::Build { context, dockerfile } => {
            let mut out = three("build", "-t", LOCAL_IMAGE);
            extend(
                &mut out,
                match dockerfile {
                    Some(file) => two("-f", file.as_str()),
                    None => none(),
                },
            );
            extend(&mut out, one(context.as_str()));
            out
        },
    }
}

/// The arguments with which the runtime tells whether it has the image.
pub fn inspect_arguments(image: &ImageSource) -> (out: Vec<String>)
    ensures
        views(out@) == inspect_line(image@),
{
    three("image", "inspect", image_name_of(image).as_str())
}

impl Job {
    /// The image that the job is about.
    pub fn image(&self) -> (image: &ImageSource)
        ensures
            image@ == job_image(self@),
    {
        match self {
            Job::Fetch { image } => image,
            Job::Launch { spec } => &spec.image,
        }
    }
}

fn fetch_step(job: Job) -> (step: Step)
    ensures
        step@ == fetching(job@),
{
    let arguments = fetch_arguments(job.image());
    Step::Invoke { launcher: Launcher { job, phase: Phase::Fetching }, arguments, attach: false }
}

fn run_step(spec: LaunchSpecification) -> (step: Step)
    ensures
        step@ == running(spec@),
{
    let arguments = run_arguments(&spec);
    let attach = spec.interactive;
    Step::Invoke {
        launcher: Launcher { job: Job::Launch { spec }, phase: Phase::Running },
        arguments,
        attach,
    }
}

fn provided_step(job: Job) -> (step: Step)
    ensures
        step@ == provided(job@),
{
    match job {
        Job::Fetch { .. } => Step::Finish { status: 0 },
        Job::Launch { spec } => run_step(spec),
    }
}

impl Launcher {
    /// The first step of a launch.
    pub fn begin(spec: LaunchSpecification) -> (step: Step)
        ensures
            step@ == started(spec@),
    {
        let arguments = inspect_arguments(&spec.image);
        Step::Invoke {
            launcher: Launcher { job: Job::Launch { spec }, phase: Phase::Inspecting },
            arguments,
            attach: false,
        }
    }

    /// The first step of a fetch of `image`: no volume, variable or policy
    /// has a say in it.
    pub fn pull(image: ImageSource) -> (step: Step)
        ensures
            step@ == pulling(image@),
    {
        fetch_step(Job::Fetch { image })
    }

    /// The step that follows the report of the invocation asked for last. It
    /// never finishes with the failure status.
    pub fn advance(self, report: Report) -> (step: Step)
        ensures
            step@ == stepped(self@, report),
            step matches Step::Finish { status } ==> status != FAILURE_STATUS,
    {
        let succeeded = match report {
            Report::Exited { status } => status == 0,
            Report::Interrupted => false,
        };
        match self.phase {
            Phase::Inspecting => if succeeded {
                provided_step(self.job)
            } else {
                fetch_step(self.job)
            },
            Phase::Fetching => if succeeded {
                provided_step(self.job)
            } else {
                Step::Fail { error: LaunchError::ImageResolution }
            },
            Phase::Running => match report {
                Report::Interrupted => Step::Fail { error: LaunchError::RuntimeInvocation },
                Report::Exited { status } => if status == RUNTIME_FAILURE {
                    Step::Fail { error: LaunchError::RuntimeInvocation }
                } else {
                    Step::Finish { status }
                },
            },
        }
    }
}

/// The exit status of the process for the outcome of a launch: the status
/// that the launch finished with, or the failure status for an error. An
/// error never gives zero, and since no launch finishes with the failure
/// status, the failure status tells an error from every status handed on.
pub fn exit_status(outcome: &Result<i32, LaunchError>) -> (status: i32)
    ensures
        status == match *outcome {
            Ok(status) => status,
            Err(_) => FAILURE_STATUS,
        },
        outcome is Err ==> status != 0,
        status == FAILURE_STATUS <==> (outcome is Err || *outcome == Ok::<i32, LaunchError>(
            FAILURE_STATUS,
        )),
{
    match outcome {
        Ok(status) => *status,
        Err(e) => e.exit_status(),
    }
}

} // verus!
