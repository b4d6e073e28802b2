use vstd::prelude::*;

use crate::error::{copy_text, GistError, GistErrorModel, ReadError, ReadErrorModel, WriteError, WriteErrorModel};
use crate::listing::{Gist, GistModel};
use crate::metadata::Metadata;
use crate::paths::{
    join, join_path, metadata_path, metadata_path_of, new_settings_contents, settings_contents,
    temporary_path, temporary_path_of, vscode_directory, vscode_directory_of, vscode_settings,
    vscode_settings_of,
};
use crate::repository::{component_of, gist_directory, result_model, Repository};
use crate::timestamp::Timestamp;

verus! {

/// What a task does to a gist.
#[derive(Clone, Copy, Debug, PartialEq, Eq, Structural)]
pub enum TaskKind {
    /// Create a new gist, created at the given time.
    Create { created_at: Timestamp },
    /// Mark an existing gist as archived at the given time.
    Archive { archived_at: Timestamp },
    /// Mark an existing gist as not archived.
    Unarchive,
    /// Find out whether an entry of the gist root is a gist, and read it.
    Inspect,
}

/// Where a task stands: which answer it waits for.
#[derive(Clone, Copy, Debug, PartialEq, Eq, Structural)]
pub enum Stage {
    CheckingExists,
    CreatingDirectory,
    CreatingVscodeDirectory,
    WritingSettings,
    QueryingType,
    CheckingMetadata,
    Reading,
    Parsing,
    Serializing,
    WritingTemporary,
    Renaming,
    Finished,
}

/// What the caller is asked to do next.
#[derive(Debug)]
pub enum Action {
    /// Find out whether something exists at the path.
    CheckExists { path: String },
    /// Find out whether the entry at the path is a directory, without
    /// following a symbolic link.
    QueryDirectory { path: String },
    /// Create the directory (its parent exists).
    CreateDirectory { path: String },
    /// Write the file, replacing what it held.
    WriteFile { path: String, contents: Vec<u8> },
    /// Read the whole file.
    ReadFile { path: String },
    /// Decode metadata from the bytes of a metadata file.
    ParseMetadata { contents: Vec<u8> },
    /// Encode the metadata as the bytes of a metadata file.
    SerializeMetadata { metadata: Metadata },
    /// Rename the file `from` to `to`, replacing `to`.
    Rename { from: String, to: String },
    /// The task is over: it failed, or it succeeded and found a gist or none.
    Finish { outcome: Result<Option<Gist>, GistError> },
}

pub enum ActionModel {
    CheckExists { path: Seq<char> },
    QueryDirectory { path: Seq<char> },
    CreateDirectory { path: Seq<char> },
    WriteFile { path: Seq<char>, contents: Seq<u8> },
    ReadFile { path: Seq<char> },
    ParseMetadata { contents: Seq<u8> },
    SerializeMetadata { metadata: Metadata },
    Rename { from: Seq<char>, to: Seq<char> },
    Finish { outcome: Result<Option<GistModel>, GistErrorModel> },
}

pub open spec fn outcome_model(o: Result<Option<Gist>, GistError>) -> Result<Option<GistModel>, GistErrorModel> {
    match o {
        Ok(Some(g)) => Ok(Some(g@)),
        Ok(None) => Ok(None),
        Err(e) => Err(e@),
    }
}

impl View for Action {
    type V = ActionModel;

    open spec fn view(&self) -> ActionModel {
        match self {
            Action::CheckExists { path } => ActionModel::CheckExists { path: path@ },
            Action::QueryDirectory { path } => ActionModel::QueryDirectory { path: path@ },
            Action::CreateDirectory { path } => ActionModel::CreateDirectory { path: path@ },
            Action::WriteFile { path, contents } => ActionModel::WriteFile {
                path: path@,
                contents: contents@,
            },
            Action::ReadFile { path } => ActionModel::ReadFile { path: path@ },
            Action::ParseMetadata { contents } => ActionModel::ParseMetadata { contents: contents@ },
            Action::SerializeMetadata { metadata } => ActionModel::SerializeMetadata {
                metadata: *metadata,
            },
            Action::Rename { from, to } => ActionModel::Rename { from: from@, to: to@ },
            Action::Finish { outcome } => ActionModel::Finish { outcome: outcome_model(*outcome) },
        }
    }
}

/// What the caller reports after doing an action.
#[derive(Debug)]
pub enum Event {
    /// The action succeeded and gave nothing back.
    Done,
    /// Whether something exists at the path.
    Exists { exists: bool },
    /// Whether the entry is a directory.
    IsDirectory { is_directory: bool },
    /// The bytes the file holds.
    Contents { contents: Vec<u8> },
    /// The metadata decoded.
    Parsed { metadata: Metadata },
    /// The bytes that encode the metadata.
    Serialized { contents: Vec<u8> },
    /// The action failed, for the given reason.
    Failed { cause: String },
}

pub enum EventModel {
    Done,
    Exists { exists: bool },
    IsDirectory { is_directory: bool },
    Contents { contents: Seq<u8> },
    Parsed { metadata: Metadata },
    Serialized { contents: Seq<u8> },
    Failed { cause: Seq<char> },
}

impl View for Event {
    type V = EventModel;

    open spec fn view(&self) -> EventModel {
        match self {
            Event::Done => EventModel::Done,
            Event::Exists { exists } => EventModel::Exists { exists: *exists },
            Event::IsDirectory { is_directory } => EventModel::IsDirectory {
                is_directory: *is_directory,
            },
            Event::Contents { contents } => EventModel::Contents { contents: contents@ },
            Event::Parsed { metadata } => EventModel::Parsed { metadata: *metadata },
            Event::Serialized { contents } => EventModel::Serialized { contents: contents@ },
            Event::Failed { cause } => EventModel::Failed { cause: cause@ },
        }
    }
}

/// One piece of work on one gist, driven one answer at a time.
pub struct Task {
    kind: TaskKind,
    name: String,
    directory: String,
    stage: Stage,
}

pub struct TaskModel {
    pub kind: TaskKind,
    /// The gist name as given (for an entry of the root: its file name).
    pub name: Seq<char>,
    /// The gist directory (empty where the name did not give one).
    pub directory: Seq<char>,
    pub stage: Stage,
}

impl View for Task {
    type V = TaskModel;

    closed spec fn view(&self) -> TaskModel {
        TaskModel {
            kind: self.kind,
            name: self.name@,
            directory: self.directory@,
            stage: self.stage,
        }
    }
}

/// Which stages each kind of task goes through.
pub open spec fn stage_fits(kind: TaskKind, stage: Stage) -> bool {
    match stage {
        Stage::CheckingExists | Stage::CreatingDirectory | Stage::CreatingVscodeDirectory
        | Stage::WritingSettings => kind is Create,
        Stage::QueryingType | Stage::CheckingMetadata => kind is Inspect,
        Stage::Reading | Stage::Parsing => !(kind is Create),
        Stage::Serializing | Stage::WritingTemporary | Stage::Renaming => !(kind is Inspect),
        Stage::Finished => true,
    }
}

impl Task {
    #[verifier::type_invariant]
    spec fn stage_fits_kind(self) -> bool {
        stage_fits(self.kind, self.stage)
    }
}

/// Which answers a task waits for at a stage.
pub open spec fn accepts(stage: Stage, e: EventModel) -> bool {
    match stage {
        Stage::CheckingExists | Stage::CheckingMetadata => e is Exists,
        Stage::QueryingType => e is IsDirectory || e is Failed,
        Stage::CreatingDirectory | Stage::CreatingVscodeDirectory | Stage::WritingSettings
        | Stage::WritingTemporary | Stage::Renaming => e is Done || e is Failed,
        Stage::Reading => e is Contents || e is Failed,
        Stage::Parsing => e is Parsed || e is Failed,
        Stage::Serializing => e is Serialized,
        Stage::Finished => false,
    }
}

pub open spec fn moved(t: TaskModel, stage: Stage) -> TaskModel {
    TaskModel { stage, ..t }
}

pub open spec fn finish(t: TaskModel, outcome: Result<Option<GistModel>, GistErrorModel>) -> (TaskModel, ActionModel) {
    (moved(t, Stage::Finished), ActionModel::Finish { outcome })
}

/// The error that a failed write of metadata ends a task with.
pub open spec fn write_failure(t: TaskModel, cause: WriteErrorModel) -> GistErrorModel {
    match t.kind {
        TaskKind::Create { .. } => GistErrorModel::WriteGistMetadata { directory: t.directory, cause },
        _ => GistErrorModel::WriteNewMetadata { path: metadata_path(t.directory), cause },
    }
}

/// The error that a failed read of metadata ends a task with.
pub open spec fn read_failure(t: TaskModel, cause: ReadErrorModel) -> GistErrorModel {
    match t.kind {
        TaskKind::Inspect => GistErrorModel::ReadMetadata { cause },
        _ => GistErrorModel::ReadExistingMetadata { path: metadata_path(t.directory), cause },
    }
}

/// The metadata that a new gist starts with.
pub open spec fn creation_metadata(kind: TaskKind) -> Metadata {
    match kind {
        TaskKind::Create { created_at } => Metadata::created(created_at),
        _ => Metadata::created(Timestamp { secs: 0, nanos: 0 }),
    }
}

/// What a task does with the metadata it read: archive or unarchive writes
/// it back changed; inspect reports the gist.
pub open spec fn after_read(t: TaskModel, m: Metadata) -> (TaskModel, ActionModel) {
    match t.kind {
        TaskKind::Archive { archived_at } => (
            moved(t, Stage::Serializing),
            ActionModel::SerializeMetadata { metadata: m.archived_model(archived_at) },
        ),
        TaskKind::Unarchive => (
            moved(t, Stage::Serializing),
            ActionModel::SerializeMetadata { metadata: m.unarchived_model() },
        ),
        _ => finish(
            t,
            Ok(Some(GistModel { name: t.name, created_at: m.created_at, archived: m.archived_at is Some })),
        ),
    }
}

/// The next stage of a task and what it asks for, given the answer to the
/// last action.
pub open spec fn transition(t: TaskModel, e: EventModel) -> (TaskModel, ActionModel) {
    let dir = t.directory;
    let path = metadata_path(dir);
    let temp = temporary_path(path);
    match t.stage {
        Stage::CheckingExists => match e {
            EventModel::Exists { exists: true } => finish(
                t,
                Err(GistErrorModel::AlreadyExists { name: t.name }),
            ),
            _ => (moved(t, Stage::CreatingDirectory), ActionModel::CreateDirectory { path: dir }),
        },
        Stage::CreatingDirectory => match e {
            EventModel::Failed { cause } => finish(
                t,
                Err(GistErrorModel::CreateDirectory { directory: dir, cause }),
            ),
            _ => (
                moved(t, Stage::CreatingVscodeDirectory),
                ActionModel::CreateDirectory { path: vscode_directory(dir) },
            ),
        },
        Stage::CreatingVscodeDirectory => match e {
            EventModel::Failed { cause } => finish(
                t,
                Err(GistErrorModel::CreateVscodeDirectory { directory: dir, cause }),
            ),
            _ => (
                moved(t, Stage::WritingSettings),
                ActionModel::WriteFile { path: vscode_settings(dir), contents: settings_contents() },
            ),
        },
        Stage::WritingSettings => match e {
            EventModel::Failed { cause } => finish(
                t,
                Err(GistErrorModel::CreateVscodeSettings { directory: dir, cause }),
            ),
            _ => (
                moved(t, Stage::Serializing),
                ActionModel::SerializeMetadata { metadata: creation_metadata(t.kind) },
            ),
        },
        Stage::Serializing => match e {
            EventModel::Serialized { contents } => (
                moved(t, Stage::WritingTemporary),
                ActionModel::WriteFile { path: temp, contents },
            ),
            _ => (t, ActionModel::Finish { outcome: Ok(None) }),
        },
        Stage::WritingTemporary => match e {
            EventModel::Failed { cause } => finish(
                t,
                Err(write_failure(t, WriteErrorModel::WriteTemporary { temporary: temp, cause })),
            ),
            _ => (moved(t, Stage::Renaming), ActionModel::Rename { from: temp, to: path }),
        },
        Stage::Renaming => match e {
            EventModel::Failed { cause } => finish(
                t,
                Err(write_failure(t, WriteErrorModel::Rename { temporary: temp, path, cause })),
            ),
            _ => finish(t, Ok(None)),
        },
        Stage::QueryingType => match e {
            EventModel::Failed { cause } => finish(
                t,
                Err(GistErrorModel::ReadFileType { path: dir, cause }),
            ),
            EventModel::IsDirectory { is_directory: true } => (
                moved(t, Stage::CheckingMetadata),
                ActionModel::CheckExists { path },
            ),
            _ => finish(t, Ok(None)),
        },
        Stage::CheckingMetadata => match e {
            EventModel::Exists { exists: true } => (moved(t, Stage::Reading), ActionModel::ReadFile { path }),
            _ => finish(t, Ok(None)),
        },
        Stage::Reading => match e {
            EventModel::Failed { cause } => finish(
                t,
                Err(read_failure(t, ReadErrorModel::Read { path, cause })),
            ),
            EventModel::Contents { contents } => (
                moved(t, Stage::Parsing),
                ActionModel::ParseMetadata { contents },
            ),
            _ => (t, ActionModel::Finish { outcome: Ok(None) }),
        },
        Stage::Parsing => match e {
            EventModel::Failed { cause } => finish(
                t,
                Err(read_failure(t, ReadErrorModel::Parse { path, cause })),
            ),
            EventModel::Parsed { metadata } => after_read(t, metadata),
            _ => (t, ActionModel::Finish { outcome: Ok(None) }),
        },
        Stage::Finished => (t, ActionModel::Finish { outcome: Ok(None) }),
    }
}

/// How a task on the gist called `name` under `root` starts.
pub open spec fn begin(kind: TaskKind, root: Seq<char>, name: Seq<char>) -> (TaskModel, ActionModel) {
    match kind {
        TaskKind::Inspect => {
            let dir = join_path(root, name);
            (
                TaskModel { kind, name, directory: dir, stage: Stage::QueryingType },
                ActionModel::QueryDirectory { path: dir },
            )
        },
        _ => match gist_directory(root, name) {
            Err(e) => (
                TaskModel { kind, name, directory: Seq::empty(), stage: Stage::Finished },
                ActionModel::Finish { outcome: Err(e) },
            ),
            Ok(dir) => match kind {
                TaskKind::Create { .. } => (
                    TaskModel { kind, name, directory: dir, stage: Stage::CheckingExists },
                    ActionModel::CheckExists { path: dir },
                ),
                _ => (
                    TaskModel { kind, name, directory: dir, stage: Stage::Reading },
                    ActionModel::ReadFile { path: metadata_path(dir) },
                ),
            },
        },
    }
}

impl Task {
    fn start(kind: TaskKind, root: &str, name: &str) -> (r: (Task, Action))
        ensures
            (r.0@, r.1@) == begin(kind, root@, name@),
    {
        if let TaskKind::Inspect = kind {
            let dir = join(root, name);
            let path = copy_text(&dir);
            let task = Task { kind, name: name.to_owned(), directory: dir, stage: Stage::QueryingType };
            return (task, Action::QueryDirectory { path });
        }
        let repository_directory = crate::repository::directory_under(root, name);
        match repository_directory {
            Err(e) => {
                let task = Task { kind, name: name.to_owned(), directory: String::new(), stage: Stage::Finished };
                proof {
                    assert(task@.directory =~= Seq::<char>::empty());
                }
                (task, Action::Finish { outcome: Err(e) })
            },
            Ok(dir) => {
                if let TaskKind::Create { .. } = kind {
                    let path = copy_text(&dir);
                    (Task { kind, name: name.to_owned(), directory: dir, stage: Stage::CheckingExists }, Action::CheckExists { path })
                } else {
                    let path = metadata_path_of(dir.as_str());
                    (Task { kind, name: name.to_owned(), directory: dir, stage: Stage::Reading }, Action::ReadFile { path })
                }
            },
        }
    }

    /// Whether the task waits for an answer of this kind.
    pub fn accepts(&self, event: &Event) -> (b: bool)
        ensures
            b == accepts(self@.stage, event@),
    {
        match self.stage {
            Stage::CheckingExists | Stage::CheckingMetadata => matches!(event, Event::Exists { .. }),
            Stage::QueryingType => matches!(event, Event::IsDirectory { .. } | Event::Failed { .. }),
            Stage::CreatingDirectory | Stage::CreatingVscodeDirectory | Stage::WritingSettings
            | Stage::WritingTemporary | Stage::Renaming => matches!(
                event,
                Event::Done | Event::Failed { .. }
            ),
            Stage::Reading => matches!(event, Event::Contents { .. } | Event::Failed { .. }),
            Stage::Parsing => matches!(event, Event::Parsed { .. } | Event::Failed { .. }),
            Stage::Serializing => matches!(event, Event::Serialized { .. }),
            Stage::Finished => false,
        }
    }

    /// Whether the task is over.
    pub fn is_finished(&self) -> (b: bool)
        ensures
            b == (self@.stage == Stage::Finished),
    {
        self.stage == Stage::Finished
    }

    fn finish(&mut self, outcome: Result<Option<Gist>, GistError>) -> (a: Action)
        ensures
            (final(self)@, a@) == finish(old(self)@, outcome_model(outcome)),
    {
        self.stage = Stage::Finished;
        Action::Finish { outcome }
    }

    /// Takes the answer to the last action and says what to do next.
    pub fn step(&mut self, event: Event) -> (action: Action)
        requires
            accepts(old(self)@.stage, event@),
        ensures
            (final(self)@, action@) == transition(old(self)@, event@),
    {
        proof {
            use_type_invariant(&*self);
        }
        match self.stage {
            Stage::CheckingExists => match event {
                Event::Exists { exists: true } => {
                    let name = copy_text(&self.name);
                    self.finish(Err(GistError::AlreadyExists { name }))
                },
                _ => {
                    self.stage = Stage::CreatingDirectory;
                    Action::CreateDirectory { path: copy_text(&self.directory) }
                },
            },
            Stage::CreatingDirectory => match event {
                Event::Failed { cause } => {
                    let directory = copy_text(&self.directory);
                    self.finish(Err(GistError::CreateDirectory { directory, cause }))
                },
                _ => {
                    self.stage = Stage::CreatingVscodeDirectory;
                    Action::CreateDirectory { path: vscode_directory_of(self.directory.as_str()) }
                },
            },
            Stage::CreatingVscodeDirectory => match event {
                Event::Failed { cause } => {
                    let directory = copy_text(&self.directory);
                    self.finish(Err(GistError::CreateVscodeDirectory { directory, cause }))
                },
                _ => {
                    self.stage = Stage::WritingSettings;
                    Action::WriteFile {
                        path: vscode_settings_of(self.directory.as_str()),
                        contents: new_settings_contents(),
                    }
                },
            },
            Stage::WritingSettings => match event {
                Event::Failed { cause } => {
                    let directory = copy_text(&self.directory);
                    self.finish(Err(GistError::CreateVscodeSettings { directory, cause }))
                },
                _ => {
                    let metadata = match self.kind {
                        TaskKind::Create { created_at } => Metadata::from_created_at(created_at),
                        _ => Metadata::from_created_at(Timestamp::new(0, 0)),
                    };
                    self.stage = Stage::Serializing;
                    Action::SerializeMetadata { metadata }
                },
            },
            Stage::Serializing => match event {
                Event::Serialized { contents } => {
                    let path = metadata_path_of(self.directory.as_str());
                    self.stage = Stage::WritingTemporary;
                    Action::WriteFile { path: temporary_path_of(path.as_str()), contents }
                },
                _ => Action::Finish { outcome: Ok(None) },
            },
            Stage::WritingTemporary => match event {
                Event::Failed { cause } => {
                    let path = metadata_path_of(self.directory.as_str());
                    let temporary = temporary_path_of(path.as_str());
                    let failure = WriteError::WriteTemporary { temporary, cause };
                    let error = self.write_failure(failure);
                    self.finish(Err(error))
                },
                _ => {
                    let path = metadata_path_of(self.directory.as_str());
                    let from = temporary_path_of(path.as_str());
                    self.stage = Stage::Renaming;
                    Action::Rename { from, to: path }
                },
            },
            Stage::Renaming => match event {
                Event::Failed { cause } => {
                    let path = metadata_path_of(self.directory.as_str());
                    let temporary = temporary_path_of(path.as_str());
                    let failure = WriteError::Rename { temporary, path, cause };
                    let error = self.write_failure(failure);
                    self.finish(Err(error))
                },
                _ => self.finish(Ok(None)),
            },
            Stage::QueryingType => match event {
                Event::Failed { cause } => {
                    let path = copy_text(&self.directory);
                    self.finish(Err(GistError::ReadFileType { path, cause }))
                },
                Event::IsDirectory { is_directory: true } => {
                    self.stage = Stage::CheckingMetadata;
                    Action::CheckExists { path: metadata_path_of(self.directory.as_str()) }
                },
                _ => self.finish(Ok(None)),
            },
            Stage::CheckingMetadata => match event {
                Event::Exists { exists: true } => {
                    self.stage = Stage::Reading;
                    Action::ReadFile { path: metadata_path_of(self.directory.as_str()) }
                },
                _ => self.finish(Ok(None)),
            },
            Stage::Reading => match event {
                Event::Failed { cause } => {
                    let path = metadata_path_of(self.directory.as_str());
                    let error = self.read_failure(ReadError::Read { path, cause });
                    self.finish(Err(error))
                },
                Event::Contents { contents } => {
                    self.stage = Stage::Parsing;
                    Action::ParseMetadata { contents }
                },
                _ => Action::Finish { outcome: Ok(None) },
            },
            Stage::Parsing => match event {
                Event::Failed { cause } => {
                    let path = metadata_path_of(self.directory.as_str());
                    let error = self.read_failure(ReadError::Parse { path, cause });
                    self.finish(Err(error))
                },
                Event::Parsed { metadata } => match self.kind {
                    TaskKind::Archive { archived_at } => {
                        self.stage = Stage::Serializing;
                        Action::SerializeMetadata { metadata: metadata.archived(archived_at) }
                    },
                    TaskKind::Unarchive => {
                        self.stage = Stage::Serializing;
                        Action::SerializeMetadata { metadata: metadata.unarchived() }
                    },
                    _ => {
                        let gist = Gist {
                            name: copy_text(&self.name),
                            created_at: metadata.created_at,
                            archived: metadata.is_archived(),
                        };
                        self.finish(Ok(Some(gist)))
                    },
                },
                _ => Action::Finish { outcome: Ok(None) },
            },
            Stage::Finished => Action::Finish { outcome: Ok(None) },
        }
    }

    fn write_failure(&self, cause: WriteError) -> (e: GistError)
        ensures
            e@ == write_failure(self@, cause@),
    {
        match self.kind {
            TaskKind::Create { .. } => GistError::WriteGistMetadata {
                directory: copy_text(&self.directory),
                cause,
            },
            _ => GistError::WriteNewMetadata { path: metadata_path_of(self.directory.as_str()), cause },
        }
    }

    fn read_failure(&self, cause: ReadError) -> (e: GistError)
        ensures
            e@ == read_failure(self@, cause@),
    {
        match self.kind {
            TaskKind::Inspect => GistError::ReadMetadata { cause },
            _ => GistError::ReadExistingMetadata { path: metadata_path_of(self.directory.as_str()), cause },
        }
    }
}

impl Repository {
    /// Starts creating the gist called `name`, created at `created_at`.
    pub fn create(&self, name: &str, created_at: Timestamp) -> (r: (Task, Action))
        ensures
            (r.0@, r.1@) == begin(TaskKind::Create { created_at }, self@, name@),
    {
        Task::start(TaskKind::Create { created_at }, self.root(), name)
    }

    /// Starts archiving the gist called `name` at `archived_at`.
    pub fn archive(&self, name: &str, archived_at: Timestamp) -> (r: (Task, Action))
        ensures
            (r.0@, r.1@) == begin(TaskKind::Archive { archived_at }, self@, name@),
    {
        Task::start(TaskKind::Archive { archived_at }, self.root(), name)
    }

    /// Starts unarchiving the gist called `name`.
    pub fn unarchive(&self, name: &str) -> (r: (Task, Action))
        ensures
            (r.0@, r.1@) == begin(TaskKind::Unarchive, self@, name@),
    {
        Task::start(TaskKind::Unarchive, self.root(), name)
    }

    /// Starts inspecting the entry of the gist root called `file_name`.
    pub fn inspect(&self, file_name: &str) -> (r: (Task, Action))
        ensures
            (r.0@, r.1@) == begin(TaskKind::Inspect, self@, file_name@),
    {
        Task::start(TaskKind::Inspect, self.root(), file_name)
    }
}

} // verus!

verus! {

/// How many more answers a task can wait for at a stage, at most.
pub open spec fn stages_left(stage: Stage) -> nat {
    match stage {
        Stage::CheckingExists => 7,
        Stage::CreatingDirectory => 6,
        Stage::CreatingVscodeDirectory => 5,
        Stage::WritingSettings => 4,
        Stage::QueryingType => 7,
        Stage::CheckingMetadata => 6,
        Stage::Reading => 5,
        Stage::Parsing => 4,
        Stage::Serializing => 3,
        Stage::WritingTemporary => 2,
        Stage::Renaming => 1,
        Stage::Finished => 0,
    }
}

/// Every answer a task accepts moves it on: a task asks for at most seven
/// actions after its first, and once finished it accepts nothing more.
pub proof fn lemma_task_progresses(t: TaskModel, e: EventModel)
    requires
        stage_fits(t.kind, t.stage),
        accepts(t.stage, e),
    ensures
        stages_left(transition(t, e).0.stage) < stages_left(t.stage),
        stage_fits(transition(t, e).0.kind, transition(t, e).0.stage),
        transition(t, e).0.kind == t.kind,
        transition(t, e).0.name == t.name,
        transition(t, e).0.directory == t.directory,
        !accepts(Stage::Finished, e),
{
}

/// A failure ends the task: the failed action is the last one, and the task
/// finishes with an error.
pub proof fn lemma_failure_ends_task(t: TaskModel, cause: Seq<char>)
    requires
        stage_fits(t.kind, t.stage),
        accepts(t.stage, EventModel::Failed { cause }),
    ensures
        transition(t, EventModel::Failed { cause }).0.stage == Stage::Finished,
        transition(t, EventModel::Failed { cause }).1 matches ActionModel::Finish { outcome: Err(_) },
{
}

/// Metadata is never written in place: the only files a task writes are the
/// editor settings of a new gist and the temporary file next to the
/// metadata file, and the metadata file is only ever replaced by renaming
/// that temporary file over it. Directories are only created at the gist
/// directory and its editor settings directory.
pub proof fn lemma_metadata_replaced_by_rename(t: TaskModel, e: EventModel)
    requires
        stage_fits(t.kind, t.stage),
        accepts(t.stage, e),
    ensures
        transition(t, e).1 matches ActionModel::WriteFile { path, .. } ==> path == vscode_settings(
            t.directory,
        ) || path == temporary_path(metadata_path(t.directory)),
        transition(t, e).1 matches ActionModel::Rename { from, to } ==> from == temporary_path(
            metadata_path(t.directory),
        ) && to == metadata_path(t.directory),
        transition(t, e).1 matches ActionModel::CreateDirectory { path } ==> path == t.directory
            || path == vscode_directory(t.directory),
{
}

/// The actions a task asks for when given the answers `events` in turn,
/// and where it then stands.
pub open spec fn run_events(t: TaskModel, events: Seq<EventModel>) -> (TaskModel, Seq<ActionModel>)
    decreases events.len(),
{
    if events.len() == 0 {
        (t, Seq::empty())
    } else {
        let (next, action) = transition(t, events[0]);
        let (last, actions) = run_events(next, events.drop_first());
        (last, seq![action] + actions)
    }
}

/// Creating a gist whose name is valid, where nothing of that name exists
/// and every step succeeds: the gist directory, its editor settings
/// directory and settings file are made, the metadata of a gist created at
/// `created_at` is written to a temporary file, which is renamed into
/// place, and the task succeeds.
pub proof fn lemma_create_succeeds(root: Seq<char>, name: Seq<char>, created_at: Timestamp, encoded: Seq<u8>)
    requires
        gist_directory(root, name) is Ok,
    ensures
        ({
            let dir = gist_directory(root, name)->Ok_0;
            let path = metadata_path(dir);
            let (t0, a0) = begin(TaskKind::Create { created_at }, root, name);
            let events = seq![
                EventModel::Exists { exists: false },
                EventModel::Done,
                EventModel::Done,
                EventModel::Done,
                EventModel::Serialized { contents: encoded },
                EventModel::Done,
                EventModel::Done,
            ];
            &&& a0 == ActionModel::CheckExists { path: dir }
            &&& run_events(t0, events).0.stage == Stage::Finished
            &&& run_events(t0, events).1 == seq![
                ActionModel::CreateDirectory { path: dir },
                ActionModel::CreateDirectory { path: vscode_directory(dir) },
                ActionModel::WriteFile { path: vscode_settings(dir), contents: settings_contents() },
                ActionModel::SerializeMetadata { metadata: Metadata::created(created_at) },
                ActionModel::WriteFile { path: temporary_path(path), contents: encoded },
                ActionModel::Rename { from: temporary_path(path), to: path },
                ActionModel::Finish { outcome: Ok(None) },
            ]
        }),
{
    reveal_with_fuel(run_events, 8);
    let dir = gist_directory(root, name)->Ok_0;
    let path = metadata_path(dir);
    let t0 = begin(TaskKind::Create { created_at }, root, name).0;
    let events = seq![
        EventModel::Exists { exists: false },
        EventModel::Done,
        EventModel::Done,
        EventModel::Done,
        EventModel::Serialized { contents: encoded },
        EventModel::Done,
        EventModel::Done,
    ];
    assert(run_events(t0, events).1 =~= seq![
        ActionModel::CreateDirectory { path: dir },
        ActionModel::CreateDirectory { path: vscode_directory(dir) },
        ActionModel::WriteFile { path: vscode_settings(dir), contents: settings_contents() },
        ActionModel::SerializeMetadata { metadata: Metadata::created(created_at) },
        ActionModel::WriteFile { path: temporary_path(path), contents: encoded },
        ActionModel::Rename { from: temporary_path(path), to: path },
        ActionModel::Finish { outcome: Ok(None) },
    ]);
}

/// Creating a gist whose name is taken ends at once with `AlreadyExists`,
/// having made nothing.
pub proof fn lemma_create_existing_fails(root: Seq<char>, name: Seq<char>, created_at: Timestamp)
    requires
        gist_directory(root, name) is Ok,
    ensures
        ({
            let (t0, a0) = begin(TaskKind::Create { created_at }, root, name);
            let events = seq![EventModel::Exists { exists: true }];
            &&& a0 == ActionModel::CheckExists { path: gist_directory(root, name)->Ok_0 }
            &&& run_events(t0, events).0.stage == Stage::Finished
            &&& run_events(t0, events).1 == seq![
                ActionModel::Finish { outcome: Err(GistErrorModel::AlreadyExists { name }) },
            ]
        }),
{
    reveal_with_fuel(run_events, 2);
    let t0 = begin(TaskKind::Create { created_at }, root, name).0;
    let events = seq![EventModel::Exists { exists: true }];
    assert(run_events(t0, events).1 =~= seq![
        ActionModel::Finish { outcome: Err(GistErrorModel::AlreadyExists { name }) },
    ]);
}

/// A task on a gist whose name is not valid asks for nothing: it is over
/// from the start, with the error that the name gives.
pub proof fn lemma_invalid_name_touches_nothing(kind: TaskKind, root: Seq<char>, name: Seq<char>)
    requires
        !(kind is Inspect),
        gist_directory(root, name) is Err,
    ensures
        begin(kind, root, name).0.stage == Stage::Finished,
        begin(kind, root, name).1 == (ActionModel::Finish {
            outcome: Err(gist_directory(root, name)->Err_0),
        }),
{
}

/// The metadata that archiving or unarchiving writes back.
pub open spec fn changed_metadata(kind: TaskKind, m: Metadata) -> Metadata {
    match kind {
        TaskKind::Archive { archived_at } => m.archived_model(archived_at),
        _ => m.unarchived_model(),
    }
}

/// Archiving or unarchiving an existing gist where every step succeeds:
/// its metadata file is read and decoded, the metadata read, archived at
/// the given time (or unarchived), is encoded and written to a temporary
/// file, which is renamed over the metadata file, and the task succeeds.
pub proof fn lemma_update_succeeds(
    kind: TaskKind,
    root: Seq<char>,
    name: Seq<char>,
    read: Seq<u8>,
    m: Metadata,
    encoded: Seq<u8>,
)
    requires
        kind is Archive || kind is Unarchive,
        gist_directory(root, name) is Ok,
    ensures
        ({
            let path = metadata_path(gist_directory(root, name)->Ok_0);
            let (t0, a0) = begin(kind, root, name);
            let events = seq![
                EventModel::Contents { contents: read },
                EventModel::Parsed { metadata: m },
                EventModel::Serialized { contents: encoded },
                EventModel::Done,
                EventModel::Done,
            ];
            &&& a0 == ActionModel::ReadFile { path }
            &&& run_events(t0, events).0.stage == Stage::Finished
            &&& run_events(t0, events).1 == seq![
                ActionModel::ParseMetadata { contents: read },
                ActionModel::SerializeMetadata { metadata: changed_metadata(kind, m) },
                ActionModel::WriteFile { path: temporary_path(path), contents: encoded },
                ActionModel::Rename { from: temporary_path(path), to: path },
                ActionModel::Finish { outcome: Ok(None) },
            ]
        }),
{
    reveal_with_fuel(run_events, 6);
    let path = metadata_path(gist_directory(root, name)->Ok_0);
    let t0 = begin(kind, root, name).0;
    let events = seq![
        EventModel::Contents { contents: read },
        EventModel::Parsed { metadata: m },
        EventModel::Serialized { contents: encoded },
        EventModel::Done,
        EventModel::Done,
    ];
    assert(run_events(t0, events).1 =~= seq![
        ActionModel::ParseMetadata { contents: read },
        ActionModel::SerializeMetadata { metadata: changed_metadata(kind, m) },
        ActionModel::WriteFile { path: temporary_path(path), contents: encoded },
        ActionModel::Rename { from: temporary_path(path), to: path },
        ActionModel::Finish { outcome: Ok(None) },
    ]);
}

/// Archiving or unarchiving a gist whose metadata file cannot be read ends
/// at once with "cannot read existing metadata", having written nothing.
pub proof fn lemma_update_of_unreadable_fails(kind: TaskKind, root: Seq<char>, name: Seq<char>, cause: Seq<char>)
    requires
        kind is Archive || kind is Unarchive,
        gist_directory(root, name) is Ok,
    ensures
        ({
            let path = metadata_path(gist_directory(root, name)->Ok_0);
            let t0 = begin(kind, root, name).0;
            let events = seq![EventModel::Failed { cause }];
            &&& run_events(t0, events).0.stage == Stage::Finished
            &&& run_events(t0, events).1 == seq![
                ActionModel::Finish {
                    outcome: Err(
                        GistErrorModel::ReadExistingMetadata {
                            path,
                            cause: ReadErrorModel::Read { path, cause },
                        },
                    ),
                },
            ]
        }),
{
    reveal_with_fuel(run_events, 2);
    let path = metadata_path(gist_directory(root, name)->Ok_0);
    let t0 = begin(kind, root, name).0;
    let events = seq![EventModel::Failed { cause }];
    assert(run_events(t0, events).1 =~= seq![
        ActionModel::Finish {
            outcome: Err(
                GistErrorModel::ReadExistingMetadata {
                    path,
                    cause: ReadErrorModel::Read { path, cause },
                },
            ),
        },
    ]);
}

/// Inspecting an entry of the gist root: an entry that is a directory with
/// a readable metadata file is the gist of that name, created when its
/// metadata says and archived when its metadata holds an archive time.
pub proof fn lemma_inspect_finds_gist(root: Seq<char>, file_name: Seq<char>, read: Seq<u8>, m: Metadata)
    ensures
        ({
            let dir = join_path(root, file_name);
            let (t0, a0) = begin(TaskKind::Inspect, root, file_name);
            let events = seq![
                EventModel::IsDirectory { is_directory: true },
                EventModel::Exists { exists: true },
                EventModel::Contents { contents: read },
                EventModel::Parsed { metadata: m },
            ];
            &&& a0 == ActionModel::QueryDirectory { path: dir }
            &&& run_events(t0, events).0.stage == Stage::Finished
            &&& run_events(t0, events).1 == seq![
                ActionModel::CheckExists { path: metadata_path(dir) },
                ActionModel::ReadFile { path: metadata_path(dir) },
                ActionModel::ParseMetadata { contents: read },
                ActionModel::Finish {
                    outcome: Ok(
                        Some(
                            GistModel {
                                name: file_name,
                                created_at: m.created_at,
                                archived: m.archived_at is Some,
                            },
                        ),
                    ),
                },
            ]
        }),
{
    reveal_with_fuel(run_events, 5);
    let dir = join_path(root, file_name);
    let t0 = begin(TaskKind::Inspect, root, file_name).0;
    let events = seq![
        EventModel::IsDirectory { is_directory: true },
        EventModel::Exists { exists: true },
        EventModel::Contents { contents: read },
        EventModel::Parsed { metadata: m },
    ];
    assert(run_events(t0, events).1 =~= seq![
        ActionModel::CheckExists { path: metadata_path(dir) },
        ActionModel::ReadFile { path: metadata_path(dir) },
        ActionModel::ParseMetadata { contents: read },
        ActionModel::Finish {
            outcome: Ok(
                Some(
                    GistModel {
                        name: file_name,
                        created_at: m.created_at,
                        archived: m.archived_at is Some,
                    },
                ),
            ),
        },
    ]);
}

/// Entries that are not directories, and directories without a metadata
/// file, are not gists: inspecting them succeeds and finds nothing.
pub proof fn lemma_inspect_skips_non_gists(root: Seq<char>, file_name: Seq<char>)
    ensures
        ({
            let t0 = begin(TaskKind::Inspect, root, file_name).0;
            let not_directory = seq![EventModel::IsDirectory { is_directory: false }];
            let no_metadata = seq![
                EventModel::IsDirectory { is_directory: true },
                EventModel::Exists { exists: false },
            ];
            &&& run_events(t0, not_directory).1 == seq![ActionModel::Finish { outcome: Ok(None) }]
            &&& run_events(t0, no_metadata).1 == seq![
                ActionModel::CheckExists { path: metadata_path(join_path(root, file_name)) },
                ActionModel::Finish { outcome: Ok(None) },
            ]
        }),
{
    reveal_with_fuel(run_events, 3);
    let t0 = begin(TaskKind::Inspect, root, file_name).0;
    let not_directory = seq![EventModel::IsDirectory { is_directory: false }];
    let no_metadata = seq![
        EventModel::IsDirectory { is_directory: true },
        EventModel::Exists { exists: false },
    ];
    assert(run_events(t0, not_directory).1 =~= seq![ActionModel::Finish { outcome: Ok(None) }]);
    assert(run_events(t0, no_metadata).1 =~= seq![
        ActionModel::CheckExists { path: metadata_path(join_path(root, file_name)) },
        ActionModel::Finish { outcome: Ok(None) },
    ]);
}

/// A gist created successfully and not changed since is listed under its
/// plain directory name, with its creation time, and not archived: the
/// create task writes the metadata of a gist created at `created_at`,
/// encoded as `encoded`, and renames it into place; inspecting the entry of
/// that name under the root, where the metadata file holds those bytes and
/// they decode back to the metadata that was encoded, finds that gist.
pub proof fn lemma_created_gist_is_listed(
    root: Seq<char>,
    name: Seq<char>,
    created_at: Timestamp,
    encoded: Seq<u8>,
    decoded: Metadata,
)
    requires
        gist_directory(root, name) is Ok,
        decoded == Metadata::created(created_at),
    ensures
        ({
            let dir = gist_directory(root, name)->Ok_0;
            let entry = component_of(name);
            let created = run_events(
                begin(TaskKind::Create { created_at }, root, name).0,
                seq![
                    EventModel::Exists { exists: false },
                    EventModel::Done,
                    EventModel::Done,
                    EventModel::Done,
                    EventModel::Serialized { contents: encoded },
                    EventModel::Done,
                    EventModel::Done,
                ],
            ).1;
            let (t0, a0) = begin(TaskKind::Inspect, root, entry);
            let inspected = run_events(
                t0,
                seq![
                    EventModel::IsDirectory { is_directory: true },
                    EventModel::Exists { exists: true },
                    EventModel::Contents { contents: encoded },
                    EventModel::Parsed { metadata: decoded },
                ],
            ).1;
            &&& created[3] == ActionModel::SerializeMetadata { metadata: decoded }
            &&& created[4] == ActionModel::WriteFile { path: temporary_path(metadata_path(dir)), contents: encoded }
            &&& created[5] == ActionModel::Rename { from: temporary_path(metadata_path(dir)), to: metadata_path(dir) }
            &&& created[6] == ActionModel::Finish { outcome: Ok(None) }
            &&& a0 == ActionModel::QueryDirectory { path: dir }
            &&& inspected[1] == ActionModel::ReadFile { path: metadata_path(dir) }
            &&& inspected[3] == ActionModel::Finish {
                outcome: Ok(Some(GistModel { name: entry, created_at, archived: false })),
            }
        }),
{
    lemma_create_succeeds(root, name, created_at, encoded);
    lemma_inspect_finds_gist(root, component_of(name), encoded, decoded);
}

/// The metadata write that a successful archive or unarchive run asks for,
/// given the metadata it read.
pub open spec fn update_write(kind: TaskKind, root: Seq<char>, name: Seq<char>, read: Seq<u8>, m: Metadata, encoded: Seq<u8>) -> ActionModel {
    run_events(
        begin(kind, root, name).0,
        seq![
            EventModel::Contents { contents: read },
            EventModel::Parsed { metadata: m },
            EventModel::Serialized { contents: encoded },
            EventModel::Done,
            EventModel::Done,
        ],
    ).1[1]
}

/// Archiving twice at the same time is archiving once, and unarchiving
/// twice is unarchiving once: a second run, fed the metadata that the first
/// one asked to write, asks to write that same metadata again.
pub proof fn lemma_update_twice_is_once(
    kind: TaskKind,
    root: Seq<char>,
    name: Seq<char>,
    read: Seq<u8>,
    m: Metadata,
    encoded: Seq<u8>,
    reread: Seq<u8>,
    reencoded: Seq<u8>,
)
    requires
        kind is Archive || kind is Unarchive,
        gist_directory(root, name) is Ok,
    ensures
        update_write(kind, root, name, read, m, encoded) == (ActionModel::SerializeMetadata {
            metadata: changed_metadata(kind, m),
        }),
        update_write(kind, root, name, reread, changed_metadata(kind, m), reencoded) == (
        ActionModel::SerializeMetadata { metadata: changed_metadata(kind, m) }),
{
    lemma_update_succeeds(kind, root, name, read, m, encoded);
    lemma_update_succeeds(kind, root, name, reread, changed_metadata(kind, m), reencoded);
}

/// Unarchiving undoes archiving: after creating a gist at `created_at`,
/// archiving it (fed the metadata that create wrote) and unarchiving it (fed
/// the metadata that archive wrote) asks to write the metadata the gist was
/// created with.
pub proof fn lemma_unarchive_restores_created(
    root: Seq<char>,
    name: Seq<char>,
    created_at: Timestamp,
    archived_at: Timestamp,
    encoded: Seq<u8>,
    archived_encoded: Seq<u8>,
    restored_encoded: Seq<u8>,
)
    requires
        gist_directory(root, name) is Ok,
    ensures
        ({
            let created = run_events(
                begin(TaskKind::Create { created_at }, root, name).0,
                seq![
                    EventModel::Exists { exists: false },
                    EventModel::Done,
                    EventModel::Done,
                    EventModel::Done,
                    EventModel::Serialized { contents: encoded },
                    EventModel::Done,
                    EventModel::Done,
                ],
            ).1;
            let archived = Metadata::created(created_at).archived_model(archived_at);
            &&& created[3] == ActionModel::SerializeMetadata { metadata: Metadata::created(created_at) }
            &&& update_write(
                TaskKind::Archive { archived_at },
                root,
                name,
                encoded,
                Metadata::created(created_at),
                archived_encoded,
            ) == ActionModel::SerializeMetadata { metadata: archived }
            &&& update_write(TaskKind::Unarchive, root, name, archived_encoded, archived, restored_encoded)
                == ActionModel::SerializeMetadata { metadata: Metadata::created(created_at) }
        }),
{
    lemma_create_succeeds(root, name, created_at, encoded);
    let archived = Metadata::created(created_at).archived_model(archived_at);
    lemma_update_succeeds(
        TaskKind::Archive { archived_at },
        root,
        name,
        encoded,
        Metadata::created(created_at),
        archived_encoded,
    );
    lemma_update_succeeds(TaskKind::Unarchive, root, name, archived_encoded, archived, restored_encoded);
    crate::metadata::lemma_unarchive_undoes_archive(Metadata::created(created_at), archived_at);
}

} // verus!
