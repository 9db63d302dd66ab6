//! The docker-in-docker policy: whether the container gets the host's runtime
//! socket, a runtime of its own, or neither.

use vstd::prelude::*;
use crate::errors::{LaunchError, LaunchErrorModel};
use crate::volumes::{Access, VolumeMount, VolumeMountModel};
use crate::text::option_view;

verus! {

/// Where the runtime socket is mounted inside the container.
pub const SOCKET_PATH: &'static str = "/var/run/docker.sock";

/// The model of `SOCKET_PATH`.
pub open spec fn socket_path() -> Seq<char> {
    "/var/run/docker.sock"@
}

/// How nested launches are to reach a runtime.
#[derive(Clone, Copy, Debug, PartialEq, Eq, Structural)]
pub enum DindMode {
    /// Nested containers run beside the outer one, on the host's runtime.
    Sibling,
    /// The outer container runs a runtime of its own; the host's is not shared.
    Nested,
}

/// The docker-in-docker policy of a configuration.
#[derive(Clone, Copy, Debug, PartialEq, Eq, Structural)]
pub struct DindPolicy {
    pub enabled: bool,
    pub mode: DindMode,
    /// Whether the launch may go on without the socket that sibling mode needs.
    pub fallback: bool,
}

/// What the policy adds to the launch.
#[derive(Clone, Debug, PartialEq, Eq)]
pub enum Augmentation {
    Nothing,
    /// The host's socket, mounted read-write at the conventional path.
    Sibling { socket: VolumeMount },
    /// The container is to run its own runtime.
    Nested,
}

/// The model of an `Augmentation`.
pub enum AugmentationModel {
    Nothing,
    Sibling { socket: VolumeMountModel },
    Nested,
}

impl View for Augmentation {
    type V = AugmentationModel;

    open spec fn view(&self) -> AugmentationModel {
        match *self {
            Augmentation::Nothing => AugmentationModel::Nothing,
            Augmentation::Sibling { socket } => AugmentationModel::Sibling { socket: socket@ },
            Augmentation::Nested => AugmentationModel::Nested,
        }
    }
}

/// A decision of the policy: the augmentation, and whether the caller is to be
/// warned that sibling mode was asked for and could not be had.
#[derive(Clone, Debug, PartialEq, Eq)]
pub struct Decision {
    pub augmentation: Augmentation,
    pub warning: bool,
}

/// The model of a `Decision`.
pub struct DecisionModel {
    pub augmentation: AugmentationModel,
    pub warning: bool,
}

impl View for Decision {
    type V = DecisionModel;

    open spec fn view(&self) -> DecisionModel {
        DecisionModel { augmentation: self.augmentation@, warning: self.warning }
    }
}

/// The mount that hands the host's socket at `socket` to the container.
pub open spec fn socket_mount(socket: Seq<char>) -> VolumeMountModel {
    VolumeMountModel {
        host: socket,
        container: socket_path(),
        access: Access::ReadWrite,
        switch: false,
    }
}

/// The decision for a policy and the host socket that was found, if any.
pub open spec fn decided(policy: Option<DindPolicy>, socket: Option<Seq<char>>) -> Result<
    DecisionModel,
    LaunchErrorModel,
> {
    match policy {
        None => Ok(DecisionModel { augmentation: AugmentationModel::Nothing, warning: false }),
        Some(p) => if !p.enabled {
            Ok(DecisionModel { augmentation: AugmentationModel::Nothing, warning: false })
        } else if p.mode == DindMode::Nested {
            Ok(DecisionModel { augmentation: AugmentationModel::Nested, warning: false })
        } else {
            match socket {
                Some(s) => Ok(
                    DecisionModel {
                        augmentation: AugmentationModel::Sibling { socket: socket_mount(s) },
                        warning: false,
                    },
                ),
                None => if p.fallback {
                    Ok(DecisionModel { augmentation: AugmentationModel::Nothing, warning: true })
                } else {
                    Err(LaunchErrorModel::DindSocketUnavailable)
                },
            }
        },
    }
}

/// The model of what `decide` returns.
pub open spec fn decision_outcome(r: Result<Decision, LaunchError>) -> Result<
    DecisionModel,
    LaunchErrorModel,
> {
    match r {
        Ok(d) => Ok(d@),
        Err(e) => Err(e@),
    }
}

/// Decides the augmentation from the policy and the host socket that was
/// found. Only sibling mode without a socket and without leave to go on fails.
pub fn decide(policy: Option<DindPolicy>, socket: Option<&str>) -> (out: Result<
    Decision,
    LaunchError,
>)
    ensures
        decision_outcome(out) == decided(policy, option_view(socket)),
{
    let p = match policy {
        None => {
            return Ok(Decision { augmentation: Augmentation::Nothing, warning: false });
        },
        Some(p) => p,
    };
    if !p.enabled {
        return Ok(Decision { augmentation: Augmentation::Nothing, warning: false });
    }
    match p.mode {
        DindMode::Nested => Ok(Decision { augmentation: Augmentation::Nested, warning: false }),
        DindMode::Sibling => match socket {
            Some(s) => Ok(
                Decision {
                    augmentation: Augmentation::Sibling {
                        socket: VolumeMount {
                            host: s.to_owned(),
                            container: SOCKET_PATH.to_owned(),
                            access: Access::ReadWrite,
                            switch: false,
                        },
                    },
                    warning: false,
                },
            ),
            None => if p.fallback {
                Ok(Decision { augmentation: Augmentation::Nothing, warning: true })
            } else {
                Err(LaunchError::DindSocketUnavailable)
            },
        },
    }
}

/// The policy fails exactly when sibling mode is enabled, no socket was found
/// and the policy gives no leave to go on without one.
pub proof fn law_failure(policy: Option<DindPolicy>, socket: Option<Seq<char>>)
    ensures
        decided(policy, socket) is Err <==> (policy matches Some(p) && p.enabled && p.mode
            == DindMode::Sibling && !p.fallback && socket is None),
        decided(policy, socket) is Err ==> decided(policy, socket)
            == Err::<DecisionModel, LaunchErrorModel>(LaunchErrorModel::DindSocketUnavailable),
{
}

} // verus!
