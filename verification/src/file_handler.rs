//! File operations as plans: which step a file operation is at, what the
//! caller has to do for it next, and what follows from each outcome.
//!
//! A task in one of its waiting states names the one thing to be done now:
//! show a dialog, read a file, write a file. The caller does it and reports
//! the outcome with [`FileTask::advance`]. A task that has finished holds
//! the result for the editor.

use vstd::prelude::*;
use vstd::string::StringExecFns;
use std::path::PathBuf;
use crate::error::EditorError;
use crate::path::{path_from_string, path_of};

verus! {

/// Which of the two kinds of file operation is meant.
#[derive(Debug, Clone, Copy, PartialEq, Eq, Structural)]
pub enum Pending {
    /// A document is being opened.
    Loading,
    /// The document is being saved.
    Saving,
}

/// A file operation at one of its steps.
#[derive(Debug, PartialEq, Eq)]
pub enum FileTask {
    /// Show the dialog that picks a file to open.
    PickOpen,
    /// Show the dialog that picks where to save.
    PickSave { contents: String },
    /// Read the file at `path` as UTF-8 text.
    Read { path: PathBuf },
    /// Write `contents` to the file at `path`.
    Write { path: PathBuf, contents: String },
    /// Opening has ended, with the path and the text read or with the reason
    /// for which there is none.
    Opened(Result<(PathBuf, String), EditorError>),
    /// Saving has ended, with the path written or with the reason for which
    /// nothing was written.
    Saved(Result<PathBuf, EditorError>),
}

/// The outcome of what a [`FileTask`] asked for.
#[derive(Debug, PartialEq, Eq)]
pub enum FileEvent {
    /// A dialog was closed: with a path, or without one when the user
    /// cancelled.
    Picked(Option<PathBuf>),
    /// A read ended, with the text or with the kind of failure.
    ReadDone(Result<String, std::io::ErrorKind>),
    /// A write ended, with success or with the kind of failure.
    WriteDone(Result<(), std::io::ErrorKind>),
}

/// A [`FileTask`] as mathematics.
pub enum TaskView {
    PickOpen,
    PickSave { contents: Seq<char> },
    Read { path: PathBuf },
    Write { path: PathBuf, contents: Seq<char> },
    Opened(Result<(PathBuf, Seq<char>), EditorError>),
    Saved(Result<PathBuf, EditorError>),
}

impl View for FileTask {
    type V = TaskView;

    open spec fn view(&self) -> TaskView {
        match self {
            FileTask::PickOpen => TaskView::PickOpen,
            FileTask::PickSave { contents } => TaskView::PickSave { contents: contents@ },
            FileTask::Read { path } => TaskView::Read { path: *path },
            FileTask::Write { path, contents } => TaskView::Write {
                path: *path,
                contents: contents@,
            },
            FileTask::Opened(Ok((path, text))) => TaskView::Opened(Ok((*path, text@))),
            FileTask::Opened(Err(e)) => TaskView::Opened(Err(*e)),
            FileTask::Saved(Ok(path)) => TaskView::Saved(Ok(*path)),
            FileTask::Saved(Err(e)) => TaskView::Saved(Err(*e)),
        }
    }
}

impl Clone for FileTask {
    fn clone(&self) -> (copy: Self)
        ensures
            copy == *self,
    {
        match self {
            FileTask::PickOpen => FileTask::PickOpen,
            FileTask::PickSave { contents } => FileTask::PickSave { contents: contents.clone() },
            FileTask::Read { path } => FileTask::Read { path: path.clone() },
            FileTask::Write { path, contents } => FileTask::Write {
                path: path.clone(),
                contents: contents.clone(),
            },
            FileTask::Opened(Ok((path, text))) => FileTask::Opened(
                Ok((path.clone(), text.clone())),
            ),
            FileTask::Opened(Err(e)) => FileTask::Opened(Err(*e)),
            FileTask::Saved(Ok(path)) => FileTask::Saved(Ok(path.clone())),
            FileTask::Saved(Err(e)) => FileTask::Saved(Err(*e)),
        }
    }
}

impl Clone for FileEvent {
    fn clone(&self) -> (copy: Self)
        ensures
            copy == *self,
    {
        match self {
            FileEvent::Picked(Some(path)) => FileEvent::Picked(Some(path.clone())),
            FileEvent::Picked(None) => FileEvent::Picked(None),
            FileEvent::ReadDone(Ok(text)) => FileEvent::ReadDone(Ok(text.clone())),
            FileEvent::ReadDone(Err(kind)) => FileEvent::ReadDone(Err(*kind)),
            FileEvent::WriteDone(Ok(done)) => FileEvent::WriteDone(Ok(*done)),
            FileEvent::WriteDone(Err(kind)) => FileEvent::WriteDone(Err(*kind)),
        }
    }
}

impl TaskView {
    /// Whether the task opens a document or saves one.
    pub open spec fn kind(self) -> Pending {
        match self {
            TaskView::PickOpen => Pending::Loading,
            TaskView::Read { .. } => Pending::Loading,
            TaskView::Opened(_) => Pending::Loading,
            TaskView::PickSave { .. } => Pending::Saving,
            TaskView::Write { .. } => Pending::Saving,
            TaskView::Saved(_) => Pending::Saving,
        }
    }

    /// Whether the task has ended and holds its result.
    pub open spec fn is_done(self) -> bool {
        self is Opened || self is Saved
    }

    /// Whether `event` is the outcome of what the task is waiting for.
    pub open spec fn awaits(self, event: FileEvent) -> bool {
        match self {
            TaskView::PickOpen => event is Picked,
            TaskView::PickSave { .. } => event is Picked,
            TaskView::Read { .. } => event is ReadDone,
            TaskView::Write { .. } => event is WriteDone,
            TaskView::Opened(_) => false,
            TaskView::Saved(_) => false,
        }
    }

    /// The task after `event`. A dialog that was cancelled ends the task
    /// with `DialogClose`; a path picked leads on to the read or the write; a
    /// read or write that failed ends the task with the kind of the failure,
    /// unchanged. An event that the task is not waiting for changes nothing.
    pub open spec fn advance(self, event: FileEvent) -> TaskView {
        match (self, event) {
            (TaskView::PickOpen, FileEvent::Picked(None)) => TaskView::Opened(
                Err(EditorError::DialogClose),
            ),
            (TaskView::PickOpen, FileEvent::Picked(Some(path))) => TaskView::Read { path },
            (TaskView::Read { path }, FileEvent::ReadDone(Ok(text))) => TaskView::Opened(
                Ok((path, text@)),
            ),
            (TaskView::Read { path }, FileEvent::ReadDone(Err(kind))) => TaskView::Opened(
                Err(EditorError::IoError(kind)),
            ),
            (TaskView::PickSave { contents }, FileEvent::Picked(None)) => TaskView::Saved(
                Err(EditorError::DialogClose),
            ),
            (TaskView::PickSave { contents }, FileEvent::Picked(Some(path))) => TaskView::Write {
                path,
                contents,
            },
            (TaskView::Write { path, contents }, FileEvent::WriteDone(Ok(_))) => TaskView::Saved(
                Ok(path),
            ),
            (TaskView::Write { path, contents }, FileEvent::WriteDone(Err(kind))) => TaskView::Saved(
                Err(EditorError::IoError(kind)),
            ),
            _ => self,
        }
    }
}

/// The text of the path of the file that is loaded when the editor
/// starts: `README.md` directly under `root`, joined with a backslash.
pub open spec fn default_path(root: Seq<char>) -> Seq<char> {
    root + "\\README.md"@
}

/// The path of the file that is loaded when the editor starts.
pub fn default_file(root: &str) -> (path: PathBuf)
    ensures
        path == path_of(default_path(root@)),
{
    path_from_string(String::from_str(root).concat("\\README.md"))
}

/// The task that opens a file the user picks in a dialog.
pub fn open_file() -> (task: FileTask)
    ensures
        task@ == TaskView::PickOpen,
{
    FileTask::PickOpen
}

/// The task that opens the file at `path` without asking.
pub fn load_file(path: PathBuf) -> (task: FileTask)
    ensures
        task@ == (TaskView::Read { path }),
{
    FileTask::Read { path }
}

/// What saving `contents` starts with: the write itself where the document
/// has a path, the dialog that picks one where it has none.
pub open spec fn save_task(path: Option<PathBuf>, contents: Seq<char>) -> TaskView {
    match path {
        Some(path) => TaskView::Write { path, contents },
        None => TaskView::PickSave { contents },
    }
}

/// The task that saves `contents`: to `path` where there is one, else to a
/// file the user picks in a dialog.
pub fn save_file(path: Option<PathBuf>, contents: String) -> (task: FileTask)
    ensures
        task@ == save_task(path, contents@),
{
    match path {
        Some(path) => FileTask::Write { path, contents },
        None => FileTask::PickSave { contents },
    }
}

impl FileTask {
    /// Whether the task has ended and holds its result.
    pub fn is_done(&self) -> (done: bool)
        ensures
            done == self@.is_done(),
    {
        match self {
            FileTask::Opened(_) => true,
            FileTask::Saved(_) => true,
            _ => false,
        }
    }

    /// Whether the task opens a document or saves one.
    pub fn kind(&self) -> (kind: Pending)
        ensures
            kind == self@.kind(),
    {
        match self {
            FileTask::PickOpen => Pending::Loading,
            FileTask::Read { .. } => Pending::Loading,
            FileTask::Opened(_) => Pending::Loading,
            FileTask::PickSave { .. } => Pending::Saving,
            FileTask::Write { .. } => Pending::Saving,
            FileTask::Saved(_) => Pending::Saving,
        }
    }

    /// Takes the task one step further with the outcome of what it asked
    /// for.
    pub fn advance(self, event: FileEvent) -> (next: FileTask)
        ensures
            next@ == self@.advance(event),
    {
        match self {
            FileTask::PickOpen => match event {
                FileEvent::Picked(None) => FileTask::Opened(Err(EditorError::DialogClose)),
                FileEvent::Picked(Some(path)) => FileTask::Read { path },
                _ => FileTask::PickOpen,
            },
            FileTask::Read { path } => match event {
                FileEvent::ReadDone(Ok(text)) => FileTask::Opened(Ok((path, text))),
                FileEvent::ReadDone(Err(kind)) => FileTask::Opened(
                    Err(EditorError::IoError(kind)),
                ),
                _ => FileTask::Read { path },
            },
            FileTask::PickSave { contents } => match event {
                FileEvent::Picked(None) => FileTask::Saved(Err(EditorError::DialogClose)),
                FileEvent::Picked(Some(path)) => FileTask::Write { path, contents },
                _ => FileTask::PickSave { contents },
            },
            FileTask::Write { path, contents } => match event {
                FileEvent::WriteDone(Ok(_)) => FileTask::Saved(Ok(path)),
                FileEvent::WriteDone(Err(kind)) => FileTask::Saved(
                    Err(EditorError::IoError(kind)),
                ),
                _ => FileTask::Write { path, contents },
            },
            FileTask::Opened(result) => FileTask::Opened(result),
            FileTask::Saved(result) => FileTask::Saved(result),
        }
    }
}

/// An operation stays of its kind from its first step to its result: what
/// began as opening ends in `Opened`, what began as saving in `Saved`.
pub proof fn lemma_advance_keeps_kind(task: TaskView, event: FileEvent)
    ensures
        task.advance(event).kind() == task.kind(),
{
}

/// A task ends with `DialogClose` exactly when a dialog it was waiting for
/// was cancelled, and a cancelled dialog never counts as an I/O failure.
pub proof fn lemma_cancel_is_dialog_close(task: TaskView, event: FileEvent)
    requires
        !task.is_done(),
    ensures
        (task.advance(event) == TaskView::Opened(Err(EditorError::DialogClose))
            || task.advance(event) == TaskView::Saved(Err(EditorError::DialogClose))) <==> (
        task.awaits(event) && event == FileEvent::Picked(None)),
{
}

/// A file operation shows at most one dialog: once a task has had the
/// outcome of a dialog, it never waits for a dialog again.
pub proof fn lemma_one_dialog(task: TaskView, picked: Option<PathBuf>, later: FileEvent)
    requires
        task.awaits(FileEvent::Picked(picked)),
    ensures
        !(task.advance(FileEvent::Picked(picked)) is PickOpen),
        !(task.advance(FileEvent::Picked(picked)) is PickSave),
        !(task.advance(FileEvent::Picked(picked)).advance(later) is PickOpen),
        !(task.advance(FileEvent::Picked(picked)).advance(later) is PickSave),
{
}

/// Every event that a waiting task awaits moves it on, and the second such
/// event at the latest ends it.
pub proof fn lemma_two_steps_end(task: TaskView, first: FileEvent, second: FileEvent)
    requires
        task.awaits(first),
        task.advance(first).awaits(second),
    ensures
        task.advance(first).advance(second).is_done(),
{
}

} // verus!
