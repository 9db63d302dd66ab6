//! The ways a launch can fail, and the exit status that each one gives.

use vstd::prelude::*;
use vstd::string::StringExecFns;
use crate::text::{join, joined, views};

verus! {

/// What is wrong with one line of configuration text.
#[derive(Clone, Copy, Debug, PartialEq, Eq, Structural)]
pub enum SyntaxFault {
    /// The line is neither blank, a comment, a section header nor `key = value`.
    MissingSeparator,
    /// Nothing stands before the `=`.
    EmptyKey,
    /// A line that opens with `[` does not close with `]`, or names nothing.
    MalformedSection,
}

/// The rule that a well-formed configuration breaks.
#[derive(Clone, Copy, Debug, PartialEq, Eq, Structural)]
pub enum Rule {
    /// An image to pull and a build are both declared.
    ImageAmbiguous,
    /// Neither an image to pull nor a build context is declared.
    ImageMissing,
    /// A section is of no known kind.
    UnknownSection,
    /// A key is not one of those its place allows.
    UnknownKey,
    /// A key stands twice in one place.
    RepeatedKey,
    /// A value is not one of those its key allows.
    InvalidValue,
    /// A volume declares no host path.
    VolumeWithoutHostPath,
    /// A volume declares no path inside the container.
    VolumeWithoutContainerPath,
    /// A volume's path inside the container is not absolute.
    ContainerPathNotAbsolute,
    /// An environment passthrough names no variable.
    UnnamedVariable,
    /// The shell is not one of the recognised shells.
    UnknownShell,
}

/// The part of the launch in which an error arises.
#[derive(Clone, Copy, Debug, PartialEq, Eq, Structural)]
pub enum Stage {
    Invocation,
    Discovery,
    ConfigModel,
    VolumeResolution,
    DindPolicy,
    Resolution,
    Execution,
}

/// Why a launch did not happen, or did not succeed.
#[derive(Clone, Debug, PartialEq, Eq)]
pub enum LaunchError {
    /// No configuration file was found, or the one named does not exist.
    ConfigNotFound,
    /// The configuration text is malformed at the given line, counted from 1.
    ConfigParse { line: usize, fault: SyntaxFault },
    /// The configuration is well-formed but breaks a rule.
    ConfigValidation { rule: Rule },
    /// Volumes collide at these container paths and none may override.
    VolumeConflict { paths: Vec<String> },
    /// A host path does not exist and is not to be created.
    VolumeHostPathMissing { path: String },
    /// The host's runtime socket is required and was not found.
    DindSocketUnavailable,
    /// A required variable is not set in the calling environment.
    UnresolvedVariable { name: String },
    /// The image could not be pulled or built.
    ImageResolution,
    /// The runtime reports that the container did not start.
    RuntimeInvocation,
    /// The verbosity asked for is beyond the most verbose level.
    InvalidVerbositySetting { setting: u8 },
}

/// The model of a `LaunchError`: the same cases over character sequences.
pub enum LaunchErrorModel {
    ConfigNotFound,
    ConfigParse { line: nat, fault: SyntaxFault },
    ConfigValidation { rule: Rule },
    VolumeConflict { paths: Seq<Seq<char>> },
    VolumeHostPathMissing { path: Seq<char> },
    DindSocketUnavailable,
    UnresolvedVariable { name: Seq<char> },
    ImageResolution,
    RuntimeInvocation,
    InvalidVerbositySetting { setting: u8 },
}

impl View for LaunchError {
    type V = LaunchErrorModel;

    open spec fn view(&self) -> LaunchErrorModel {
        match *self {
            LaunchError::ConfigNotFound => LaunchErrorModel::ConfigNotFound,
            LaunchError::ConfigParse { line, fault } => LaunchErrorModel::ConfigParse {
                line: line as nat,
                fault,
            },
            LaunchError::ConfigValidation { rule } => LaunchErrorModel::ConfigValidation { rule },
            LaunchError::VolumeConflict { paths } => LaunchErrorModel::VolumeConflict {
                paths: views(paths@),
            },
            LaunchError::VolumeHostPathMissing { path } => LaunchErrorModel::VolumeHostPathMissing {
                path: path@,
            },
            LaunchError::DindSocketUnavailable => LaunchErrorModel::DindSocketUnavailable,
            LaunchError::UnresolvedVariable { name } => LaunchErrorModel::UnresolvedVariable {
                name: name@,
            },
            LaunchError::ImageResolution => LaunchErrorModel::ImageResolution,
            LaunchError::RuntimeInvocation => LaunchErrorModel::RuntimeInvocation,
            LaunchError::InvalidVerbositySetting { setting } => {
                LaunchErrorModel::InvalidVerbositySetting { setting }
            },
        }
    }
}

/// The exit status of the process for a launch that failed. It is reserved:
/// it is the status that container runtimes keep for failures of their own,
/// which a launch reports as an error, so no exit status of a container is
/// ever handed on with this value.
pub const FAILURE_STATUS: i32 = 125;

/// The stage in which an error of this kind arises.
pub open spec fn stage_of(e: LaunchErrorModel) -> Stage {
    match e {
        LaunchErrorModel::InvalidVerbositySetting { .. } => Stage::Invocation,
        LaunchErrorModel::ConfigNotFound => Stage::Discovery,
        LaunchErrorModel::ConfigParse { .. } => Stage::ConfigModel,
        LaunchErrorModel::ConfigValidation { .. } => Stage::ConfigModel,
        LaunchErrorModel::VolumeConflict { .. } => Stage::VolumeResolution,
        LaunchErrorModel::VolumeHostPathMissing { .. } => Stage::VolumeResolution,
        LaunchErrorModel::DindSocketUnavailable => Stage::DindPolicy,
        LaunchErrorModel::UnresolvedVariable { .. } => Stage::Resolution,
        LaunchErrorModel::ImageResolution => Stage::Execution,
        LaunchErrorModel::RuntimeInvocation => Stage::Execution,
    }
}

/// The name of a stage, as it stands in a diagnostic.
pub open spec fn stage_name(s: Stage) -> Seq<char> {
    match s {
        Stage::Invocation => "invocation"@,
        Stage::Discovery => "discovery"@,
        Stage::ConfigModel => "configuration"@,
        Stage::VolumeResolution => "volumes"@,
        Stage::DindPolicy => "docker-in-docker"@,
        Stage::Resolution => "resolution"@,
        Stage::Execution => "execution"@,
    }
}

/// What is wrong with a line, in words.
pub open spec fn fault_text(f: SyntaxFault) -> Seq<char> {
    match f {
        SyntaxFault::MissingSeparator => "expected `key = value`"@,
        SyntaxFault::EmptyKey => "no key before `=`"@,
        SyntaxFault::MalformedSection => "malformed section header"@,
    }
}

/// A rule, in words.
pub open spec fn rule_text(r: Rule) -> Seq<char> {
    match r {
        Rule::ImageAmbiguous => "both an image and a build are declared"@,
        Rule::ImageMissing => "neither an image nor a build is declared"@,
        Rule::UnknownSection => "unknown section"@,
        Rule::UnknownKey => "unknown key"@,
        Rule::RepeatedKey => "a key is given twice"@,
        Rule::InvalidValue => "invalid value"@,
        Rule::VolumeWithoutHostPath => "a volume has no host path"@,
        Rule::VolumeWithoutContainerPath => "a volume has no container path"@,
        Rule::ContainerPathNotAbsolute => "a volume's container path is not absolute"@,
        Rule::UnnamedVariable => "an environment passthrough has no name"@,
        Rule::UnknownShell => "the shell is not a recognised shell"@,
    }
}

/// The decimal digit for a number below ten.
pub open spec fn digit(d: nat) -> char {
    if d == 0 {
        '0'
    } else if d == 1 {
        '1'
    } else if d == 2 {
        '2'
    } else if d == 3 {
        '3'
    } else if d == 4 {
        '4'
    } else if d == 5 {
        '5'
    } else if d == 6 {
        '6'
    } else if d == 7 {
        '7'
    } else if d == 8 {
        '8'
    } else {
        '9'
    }
}

/// A number in decimal, without leading zeros.
pub open spec fn decimal(n: nat) -> Seq<char>
    decreases n,
{
    if n < 10 {
        seq![digit(n)]
    } else {
        decimal(n / 10).push(digit(n % 10))
    }
}

/// Why an error arose, in words.
pub open spec fn reason(e: LaunchErrorModel) -> Seq<char> {
    match e {
        LaunchErrorModel::ConfigNotFound => "no configuration file found"@,
        LaunchErrorModel::ConfigParse { line, fault } => "line "@ + decimal(line) + ": "@
            + fault_text(fault),
        LaunchErrorModel::ConfigValidation { rule } => rule_text(rule),
        LaunchErrorModel::VolumeConflict { paths } => "volumes collide at "@ + join(paths, ", "@),
        LaunchErrorModel::VolumeHostPathMissing { path } => "host path does not exist: "@ + path,
        LaunchErrorModel::DindSocketUnavailable => "sibling mode needs the runtime socket, and none was found"@,
        LaunchErrorModel::UnresolvedVariable { name } => "required variable is not set: "@ + name,
        LaunchErrorModel::ImageResolution => "the image could not be pulled or built"@,
        LaunchErrorModel::RuntimeInvocation => "the container did not start"@,
        LaunchErrorModel::InvalidVerbositySetting { setting } => "invalid verbosity setting: "@
            + decimal(setting as nat),
    }
}

/// The diagnostic for an error: the stage, a colon, and the reason.
pub open spec fn description(e: LaunchErrorModel) -> Seq<char> {
    stage_name(stage_of(e)) + ": "@ + reason(e)
}

fn digit_of(d: usize) -> (c: char)
    requires
        d < 10,
    ensures
        c == digit(d as nat),
{
    match d {
        0 => '0',
        1 => '1',
        2 => '2',
        3 => '3',
        4 => '4',
        5 => '5',
        6 => '6',
        7 => '7',
        8 => '8',
        _ => '9',
    }
}

/// A number in decimal, without leading zeros.
pub fn decimal_of(n: usize) -> (out: String)
    ensures
        out@ == decimal(n as nat),
    decreases n,
{
    if n < 10 {
        let mut out = String::new();
        out.push(digit_of(n));
        assert(out@ =~= seq![digit(n as nat)]);
        out
    } else {
        let mut out = decimal_of(n / 10);
        out.push(digit_of(n % 10));
        out
    }
}

impl Stage {
    /// The name of the stage, as it stands in a diagnostic.
    pub fn name(&self) -> (out: &'static str)
        ensures
            out@ == stage_name(*self),
    {
        match self {
            Stage::Invocation => "invocation",
            Stage::Discovery => "discovery",
            Stage::ConfigModel => "configuration",
            Stage::VolumeResolution => "volumes",
            Stage::DindPolicy => "docker-in-docker",
            Stage::Resolution => "resolution",
            Stage::Execution => "execution",
        }
    }
}

impl SyntaxFault {
    /// What is wrong with the line, in words.
    pub fn text(&self) -> (out: &'static str)
        ensures
            out@ == fault_text(*self),
    {
        match self {
            SyntaxFault::MissingSeparator => "expected `key = value`",
            SyntaxFault::EmptyKey => "no key before `=`",
            SyntaxFault::MalformedSection => "malformed section header",
        }
    }
}

impl Rule {
    /// The rule, in words.
    pub fn text(&self) -> (out: &'static str)
        ensures
            out@ == rule_text(*self),
    {
        match self {
            Rule::ImageAmbiguous => "both an image and a build are declared",
            Rule::ImageMissing => "neither an image nor a build is declared",
            Rule::UnknownSection => "unknown section",
            Rule::UnknownKey => "unknown key",
            Rule::RepeatedKey => "a key is given twice",
            Rule::InvalidValue => "invalid value",
            Rule::VolumeWithoutHostPath => "a volume has no host path",
            Rule::VolumeWithoutContainerPath => "a volume has no container path",
            Rule::ContainerPathNotAbsolute => "a volume's container path is not absolute",
            Rule::UnnamedVariable => "an environment passthrough has no name",
            Rule::UnknownShell => "the shell is not a recognised shell",
        }
    }
}

impl LaunchError {
    /// The stage in which this error arose.
    pub fn stage(&self) -> (s: Stage)
        ensures
            s == stage_of(self@),
    {
        match self {
            LaunchError::InvalidVerbositySetting { .. } => Stage::Invocation,
            LaunchError::ConfigNotFound => Stage::Discovery,
            LaunchError::ConfigParse { .. } => Stage::ConfigModel,
            LaunchError::ConfigValidation { .. } => Stage::ConfigModel,
            LaunchError::VolumeConflict { .. } => Stage::VolumeResolution,
            LaunchError::VolumeHostPathMissing { .. } => Stage::VolumeResolution,
            LaunchError::DindSocketUnavailable => Stage::DindPolicy,
            LaunchError::UnresolvedVariable { .. } => Stage::Resolution,
            LaunchError::ImageResolution => Stage::Execution,
            LaunchError::RuntimeInvocation => Stage::Execution,
        }
    }

    /// Why the error arose, in words.
    pub fn reason(&self) -> (out: String)
        ensures
            out@ == reason(self@),
    {
        match self {
            LaunchError::ConfigNotFound => "no configuration file found".to_owned(),
            LaunchError::ConfigParse { line, fault } => {
                let mut out = "line ".to_owned();
                out.append(decimal_of(*line).as_str());
                out.append(": ");
                out.append(fault.text());
                out
            },
            LaunchError::ConfigValidation { rule } => rule.text().to_owned(),
            LaunchError::VolumeConflict { paths } => {
                let mut out = "volumes collide at ".to_owned();
                out.append(joined(paths, ", ").as_str());
                out
            },
            LaunchError::VolumeHostPathMissing { path } => {
                let mut out = "host path does not exist: ".to_owned();
                out.append(path.as_str());
                out
            },
            LaunchError::DindSocketUnavailable => {
                "sibling mode needs the runtime socket, and none was found".to_owned()
            },
            LaunchError::UnresolvedVariable { name } => {
                let mut out = "required variable is not set: ".to_owned();
                out.append(name.as_str());
                out
            },
            LaunchError::ImageResolution => "the image could not be pulled or built".to_owned(),
            LaunchError::RuntimeInvocation => "the container did not start".to_owned(),
            LaunchError::InvalidVerbositySetting { setting } => {
                let mut out = "invalid verbosity setting: ".to_owned();
                let n: usize = *setting as usize;
                out.append(decimal_of(n).as_str());
                out
            },
        }
    }

    /// The diagnostic for this error: the stage, a colon, and the reason.
    pub fn describe(&self) -> (out: String)
        ensures
            out@ == description(self@),
    {
        let mut out = self.stage().name().to_owned();
        out.append(": ");
        out.append(self.reason().as_str());
        out
    }

    /// The exit status that this error gives the process: the reserved failure
    /// status, whatever the error; never zero.
    pub fn exit_status(&self) -> (status: i32)
        ensures
            status == FAILURE_STATUS,
            status != 0,
    {
        FAILURE_STATUS
    }
}

} // verus!
