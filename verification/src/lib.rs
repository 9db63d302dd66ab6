//! Resolution of a development-container launch: from configuration text, the
//! project environment and the caller's request to a launch specification and
//! the container-runtime invocations that realise it.
//!
//! The way of a launch through the modules:
//! `invocation` says what the caller asked for; `environment` finds the
//! configuration file and the project root; `syntax` reads the text of the
//! file and `config` holds it to the rules; `volumes` turns the declared
//! volumes into mounts; `dind` decides on docker-in-docker; `launch` puts the
//! launch specification together; `execution` says which invocations of the
//! runtime it stands for and what exit status comes of them. `errors` names
//! what can go wrong on the way, `text` and `paths` hold the text handling.
//!
//! Nothing here touches the filesystem, the environment or a process: what
//! exists, what is set and what the runtime reported is handed in as values.

pub mod text;
pub mod paths;
pub mod errors;
pub mod volumes;
pub mod dind;
pub mod syntax;
pub mod config;
pub mod environment;
pub mod launch;
pub mod execution;
pub mod invocation;
