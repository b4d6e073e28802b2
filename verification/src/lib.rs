//! A small library for keeping a directory of gists: each gist is a
//! sub-directory of a root directory, described by a `.gist.json` metadata
//! file. The library validates gist names, builds the paths of a gist,
//! decides each step of creating, archiving, unarchiving and inspecting a
//! gist, and orders gists for listing. The file system work itself is done
//! by the caller, which reports back what happened.

pub mod cli;
pub mod error;
pub mod listing;
pub mod metadata;
pub mod name;
pub mod paths;
pub mod repository;
pub mod run;
pub mod task;
pub mod timestamp;

pub use cli::{Cli, Command};
pub use error::{GistError, ReadError, RunError, WriteError};
pub use listing::{gist_line, list, sort_gists, Gist, Listing};
pub use metadata::Metadata;
pub use name::{contains_control, single_component};
pub use paths::join;
pub use repository::{root, Repository};
pub use run::run_each;
pub use task::{Action, Event, Task, TaskKind};
pub use timestamp::Timestamp;
