//! The editor session: which file is open, whether the document has
//! unsaved edits, whether a file operation is in flight, and what each
//! message does to all that.
//!
//! A session is idle or busy. While it is busy with a file operation, it
//! turns down every request that would start another one or change the
//! document, so that at most one operation is in flight and nothing the
//! user types can be lost to a load that completes later.

use vstd::prelude::*;
use crate::buffer::{
    lemma_apply_wf, lemma_navigation_keeps_text, BufferState, DocumentBuffer, EditOp,
};
use std::path::PathBuf;
use crate::error::EditorError;
use crate::file_handler::{
    default_file, default_path, load_file, open_file, save_file, save_task, FileEvent, FileTask,
    Pending, TaskView,
};
use crate::path::{display_text, path_display, path_of};
use crate::status::{buffer_status_text, file_status, is_file_status};
use crate::text::chars_of;
use crate::theme::{AppTheme, HighlightTheme};

verus! {

/// What the editor is told: what the user wants, and how a file operation
/// ended.
#[derive(Debug, PartialEq, Eq)]
pub enum EditorMessage {
    /// The user edited the text, moved the cursor or selected.
    ActionPerformed(EditOp),
    /// Opening has ended.
    FileOpened(Result<(PathBuf, String), EditorError>),
    /// The user wants to open a file.
    OpenFile,
    /// The user wants an empty document.
    NewFile,
    /// The user wants to save the document.
    SaveFile,
    /// The user dropped the file at this path on the window.
    FileDropped(PathBuf),
    /// Saving has ended.
    FileSaved(Result<PathBuf, EditorError>),
    /// The user picked a highlighter theme.
    ThemeChanged(HighlightTheme),
}

/// An editor session as mathematics.
pub struct EditorState {
    /// The path of the open file; none for a document that has no file yet.
    pub file: Option<PathBuf>,
    /// The document.
    pub content: BufferState,
    /// The highlighter's theme.
    pub theme: HighlightTheme,
    /// Whether the text was edited since it was last loaded or saved.
    pub is_dirty: bool,
    /// The kind of the file operation in flight, if there is one.
    pub pending: Option<Pending>,
    /// The failure of the last file operation, until something clears it.
    pub last_error: Option<EditorError>,
}

/// What stays on display of the reason for which a file operation ended
/// without a result: nothing where the user closed the dialog, the failure
/// itself otherwise.
pub open spec fn shown_error(reason: EditorError) -> Option<EditorError> {
    match reason {
        EditorError::DialogClose => None,
        EditorError::IoError(kind) => Some(EditorError::IoError(kind)),
    }
}

impl Clone for EditorMessage {
    fn clone(&self) -> (copy: Self)
        ensures
            copy == *self,
    {
        match self {
            EditorMessage::ActionPerformed(op) => EditorMessage::ActionPerformed(op.clone()),
            EditorMessage::FileOpened(Ok((path, text))) => EditorMessage::FileOpened(
                Ok((path.clone(), text.clone())),
            ),
            EditorMessage::FileOpened(Err(reason)) => EditorMessage::FileOpened(Err(*reason)),
            EditorMessage::OpenFile => EditorMessage::OpenFile,
            EditorMessage::NewFile => EditorMessage::NewFile,
            EditorMessage::SaveFile => EditorMessage::SaveFile,
            EditorMessage::FileDropped(path) => EditorMessage::FileDropped(path.clone()),
            EditorMessage::FileSaved(Ok(path)) => EditorMessage::FileSaved(Ok(path.clone())),
            EditorMessage::FileSaved(Err(reason)) => EditorMessage::FileSaved(Err(*reason)),
            EditorMessage::ThemeChanged(theme) => EditorMessage::ThemeChanged(*theme),
        }
    }
}

impl EditorMessage {
    /// The kind of file operation whose end the message reports.
    pub open spec fn completes(self) -> Option<Pending> {
        match self {
            EditorMessage::FileOpened(_) => Some(Pending::Loading),
            EditorMessage::FileSaved(_) => Some(Pending::Saving),
            _ => None,
        }
    }

    /// The message that reports the result of a task that has ended; none
    /// for a task that has not.
    pub fn from_task(task: FileTask) -> (message: Option<EditorMessage>)
        ensures
            message == match task {
                FileTask::Opened(result) => Some(EditorMessage::FileOpened(result)),
                FileTask::Saved(result) => Some(EditorMessage::FileSaved(result)),
                _ => None,
            },
            message is Some <==> task@.is_done(),
            message is Some ==> message->0.completes() == Some(task@.kind()),
    {
        match task {
            FileTask::Opened(result) => Some(EditorMessage::FileOpened(result)),
            FileTask::Saved(result) => Some(EditorMessage::FileSaved(result)),
            _ => None,
        }
    }
}

impl EditorState {
    /// The path of the open file as the platform shows it.
    pub open spec fn shown_file(self) -> Option<Seq<char>> {
        match self.file {
            Some(path) => Some(display_text(path)),
            None => None,
        }
    }

    /// Whether a file operation is in flight.
    pub open spec fn is_busy(self) -> bool {
        self.pending is Some
    }

    /// The cursor and the selection of the document lie within its text.
    pub open spec fn wf(self) -> bool {
        self.content.wf()
    }

    /// The session at the start: an empty document without a file, the
    /// default theme, and the load of the start-up file in flight.
    pub open spec fn initial() -> EditorState {
        EditorState {
            file: None,
            content: BufferState::holding(Seq::empty()),
            theme: HighlightTheme::SolarizedDark,
            is_dirty: false,
            pending: Some(Pending::Loading),
            last_error: None,
        }
    }

    /// Whether the session takes `message` up. A busy session turns down
    /// edits and every request that starts a file operation or replaces
    /// the document; any session discards the end of an operation that is
    /// not the one in flight.
    pub open spec fn accepts(self, message: EditorMessage) -> bool {
        match message {
            EditorMessage::ThemeChanged(_) => true,
            EditorMessage::FileOpened(_) => self.pending == Some(Pending::Loading),
            EditorMessage::FileSaved(_) => self.pending == Some(Pending::Saving),
            _ => !self.is_busy(),
        }
    }

    /// The session after `message`.
    pub open spec fn next(self, message: EditorMessage) -> EditorState {
        if !self.accepts(message) {
            self
        } else {
            match message {
                EditorMessage::ActionPerformed(op) => EditorState {
                    content: self.content.apply(op),
                    is_dirty: self.is_dirty || op.is_mutating(),
                    last_error: None,
                    ..self
                },
                EditorMessage::NewFile => EditorState {
                    file: None,
                    content: BufferState::holding(Seq::empty()),
                    is_dirty: false,
                    ..self
                },
                EditorMessage::OpenFile => EditorState { pending: Some(Pending::Loading), ..self },
                EditorMessage::FileDropped(_) => EditorState {
                    pending: Some(Pending::Loading),
                    ..self
                },
                EditorMessage::SaveFile => EditorState { pending: Some(Pending::Saving), ..self },
                EditorMessage::ThemeChanged(theme) => EditorState { theme, ..self },
                EditorMessage::FileOpened(Ok((path, text))) => EditorState {
                    file: Some(path),
                    content: BufferState::holding(text@),
                    is_dirty: false,
                    pending: None,
                    last_error: None,
                    ..self
                },
                EditorMessage::FileOpened(Err(reason)) => EditorState {
                    pending: None,
                    last_error: shown_error(reason),
                    ..self
                },
                EditorMessage::FileSaved(Ok(path)) => EditorState {
                    file: Some(path),
                    is_dirty: false,
                    pending: None,
                    last_error: None,
                    ..self
                },
                EditorMessage::FileSaved(Err(reason)) => EditorState {
                    pending: None,
                    last_error: shown_error(reason),
                    ..self
                },
            }
        }
    }

    /// The file operation that `message` starts, if it starts one: opening
    /// through a dialog, opening the dropped file, or saving the text as it
    /// is to the document's file, through a dialog where it has none.
    pub open spec fn request(self, message: EditorMessage) -> Option<TaskView> {
        if self.is_busy() {
            None
        } else {
            match message {
                EditorMessage::OpenFile => Some(TaskView::PickOpen),
                EditorMessage::FileDropped(path) => Some(TaskView::Read { path }),
                EditorMessage::SaveFile => Some(save_task(self.file, self.content.text)),
                _ => None,
            }
        }
    }
}

/// The editor session.
#[derive(Debug, PartialEq, Eq)]
pub struct Editor {
    file: Option<PathBuf>,
    content: DocumentBuffer,
    theme: HighlightTheme,
    is_dirty: bool,
    pending: Option<Pending>,
    last_error: Option<EditorError>,
}

impl Editor {
    /// What the session holds.
    pub closed spec fn state(&self) -> EditorState {
        EditorState {
            file: self.file,
            content: self.content@,
            theme: self.theme,
            is_dirty: self.is_dirty,
            pending: self.pending,
            last_error: self.last_error,
        }
    }
}

fn shown(reason: EditorError) -> (error: Option<EditorError>)
    ensures
        error == shown_error(reason),
{
    match reason {
        EditorError::DialogClose => None,
        EditorError::IoError(kind) => Some(EditorError::IoError(kind)),
    }
}

impl Editor {
    /// The session at the start, and the task that loads the start-up file
    /// from under `root`.
    pub fn new(root: &str) -> (start: (Self, FileTask))
        ensures
            start.0.state() == EditorState::initial(),
            start.1@ == (TaskView::Read { path: path_of(default_path(root@)) }),
    {
        (
            Editor {
                file: None,
                content: DocumentBuffer::new(),
                theme: HighlightTheme::SolarizedDark,
                is_dirty: false,
                pending: Some(Pending::Loading),
                last_error: None,
            },
            load_file(default_file(root)),
        )
    }

    /// Whether the session takes `message` up or lets it pass without a
    /// trace.
    pub fn accepts(&self, message: &EditorMessage) -> (accepted: bool)
        ensures
            accepted == self.state().accepts(*message),
    {
        match message {
            EditorMessage::ThemeChanged(_) => true,
            EditorMessage::FileOpened(_) => match self.pending {
                Some(Pending::Loading) => true,
                _ => false,
            },
            EditorMessage::FileSaved(_) => match self.pending {
                Some(Pending::Saving) => true,
                _ => false,
            },
            _ => self.pending.is_none(),
        }
    }

    /// Takes one message. Returns the file operation that the caller has
    /// to carry out, where the message starts one.
    pub fn update(&mut self, message: EditorMessage) -> (task: Option<FileTask>)
        ensures
            final(self).state() == old(self).state().next(message),
            match task {
                Some(task) => old(self).state().request(message) == Some(task@),
                None => old(self).state().request(message) is None,
            },
            final(self).state().wf(),
    {
        proof {
            use_type_invariant(&self.content);
        }
        if !self.accepts(&message) {
            return None;
        }
        match message {
            EditorMessage::ActionPerformed(op) => {
                self.is_dirty = self.is_dirty || op.is_mutating();
                self.last_error = None;
                self.content.apply(op);
                None
            },
            EditorMessage::NewFile => {
                self.file = None;
                self.content = DocumentBuffer::new();
                self.is_dirty = false;
                None
            },
            EditorMessage::OpenFile => {
                self.pending = Some(Pending::Loading);
                Some(open_file())
            },
            EditorMessage::FileDropped(path) => {
                self.pending = Some(Pending::Loading);
                Some(load_file(path))
            },
            EditorMessage::SaveFile => {
                self.pending = Some(Pending::Saving);
                let path: Option<PathBuf> = match &self.file {
                    Some(path) => Some(path.clone()),
                    None => None,
                };
                Some(save_file(path, self.content.text()))
            },
            EditorMessage::ThemeChanged(theme) => {
                self.theme = theme;
                None
            },
            EditorMessage::FileOpened(result) => {
                self.pending = None;
                match result {
                    Ok((path, text)) => {
                        self.file = Some(path);
                        self.content = DocumentBuffer::with_text(text.as_str());
                        self.is_dirty = false;
                        self.last_error = None;
                    },
                    Err(reason) => {
                        self.last_error = shown(reason);
                    },
                }
                None
            },
            EditorMessage::FileSaved(result) => {
                self.pending = None;
                match result {
                    Ok(path) => {
                        self.file = Some(path);
                        self.is_dirty = false;
                        self.last_error = None;
                    },
                    Err(reason) => {
                        self.last_error = shown(reason);
                    },
                }
                None
            },
        }
    }

    /// The look of the window that goes with the highlighter's theme.
    pub fn theme(&self) -> (look: AppTheme)
        ensures
            look == self.state().theme.app_theme(),
    {
        self.theme.app_theme()
    }

    /// A snapshot of the session for drawing.
    pub fn view(&self) -> (view: EditorView)
        ensures
            view.shows(self.state()),
    {
        let path: Option<String> = match &self.file {
            Some(path) => Some(path_display(path)),
            None => None,
        };
        let file_status: String = file_status(
            match &path {
                Some(text) => Some(text.as_str()),
                None => None,
            },
        );
        EditorView {
            path,
            is_dirty: self.is_dirty,
            is_busy: self.pending.is_some(),
            can_open: self.pending.is_none(),
            can_save: self.is_dirty,
            file_status,
            status_line: self.content.status().text(),
            theme: self.theme,
            content: self.content.text(),
            last_error: self.last_error,
        }
    }

    /// The path of the open file; none for a document that has no file yet.
    pub fn file(&self) -> (path: Option<&PathBuf>)
        ensures
            match path {
                Some(path) => self.state().file == Some(*path),
                None => self.state().file is None,
            },
    {
        self.file.as_ref()
    }

    /// The document.
    pub fn content(&self) -> (content: &DocumentBuffer)
        ensures
            content@ == self.state().content,
    {
        &self.content
    }

    /// The highlighter's theme.
    pub fn highlight_theme(&self) -> (theme: HighlightTheme)
        ensures
            theme == self.state().theme,
    {
        self.theme
    }

    /// Whether the text was edited since it was last loaded or saved.
    pub fn is_dirty(&self) -> (dirty: bool)
        ensures
            dirty == self.state().is_dirty,
    {
        self.is_dirty
    }

    /// Whether a file operation is in flight.
    pub fn is_busy(&self) -> (busy: bool)
        ensures
            busy == self.state().is_busy(),
    {
        self.pending.is_some()
    }

    /// The kind of the file operation in flight, if there is one.
    pub fn pending(&self) -> (pending: Option<Pending>)
        ensures
            pending == self.state().pending,
    {
        self.pending
    }

    /// The failure of the last file operation, until something clears it.
    pub fn last_error(&self) -> (error: Option<EditorError>)
        ensures
            error == self.state().last_error,
    {
        self.last_error
    }
}

/// What there is to draw of a session.
#[derive(Debug, PartialEq, Eq)]
pub struct EditorView {
    /// The path of the open file, as text to show.
    pub path: Option<String>,
    /// Whether there are unsaved edits.
    pub is_dirty: bool,
    /// Whether a file operation is in flight.
    pub is_busy: bool,
    /// Whether the control that opens a file is enabled.
    pub can_open: bool,
    /// Whether the control that saves the document is enabled.
    pub can_save: bool,
    /// The status bar's text for the open file.
    pub file_status: String,
    /// The status bar's text for the cursor and the selection.
    pub status_line: String,
    /// The highlighter's theme.
    pub theme: HighlightTheme,
    /// The whole text of the document.
    pub content: String,
    /// The failure to show, if there is one.
    pub last_error: Option<EditorError>,
}

impl Clone for EditorView {
    fn clone(&self) -> (copy: Self)
        ensures
            copy == *self,
    {
        EditorView {
            path: match &self.path {
                Some(path) => Some(path.clone()),
                None => None,
            },
            is_dirty: self.is_dirty,
            is_busy: self.is_busy,
            can_open: self.can_open,
            can_save: self.can_save,
            file_status: self.file_status.clone(),
            status_line: self.status_line.clone(),
            theme: self.theme,
            content: self.content.clone(),
            last_error: self.last_error,
        }
    }
}

impl EditorView {
    /// Whether the snapshot shows the session `s`: its path, flags, theme,
    /// text and failure as they are, opening enabled while no file
    /// operation is in flight, saving enabled while there are unsaved edits,
    /// and the two texts of the status bar.
    pub open spec fn shows(self, s: EditorState) -> bool {
        &&& match self.path {
            Some(path) => s.file is Some && path@ == display_text(s.file->0),
            None => s.file is None,
        }
        &&& self.is_dirty == s.is_dirty
        &&& self.is_busy == s.is_busy()
        &&& self.can_open == !s.is_busy()
        &&& self.can_save == s.is_dirty
        &&& is_file_status(s.shown_file(), self.file_status@)
        &&& self.status_line@ == buffer_status_text(s.content)
        &&& self.theme == s.theme
        &&& self.content@ == s.content.text
        &&& self.last_error == s.last_error
    }
}

/// The one key combination that the editor keeps for itself.
pub open spec fn is_save_shortcut(key: Seq<char>, command: bool) -> bool {
    command && key == seq!['s']
}

/// What a key press means to the editor before the text gets it: the
/// command key with `s` asks to save; every other key is left to the text.
pub fn key_binding(key: &str, command: bool) -> (message: Option<EditorMessage>)
    ensures
        message == if is_save_shortcut(key@, command) {
            Some(EditorMessage::SaveFile)
        } else {
            None
        },
{
    let chars: Vec<char> = chars_of(key);
    if command && chars.len() == 1 && chars[0] == 's' {
        assert(key@ =~= seq!['s']);
        Some(EditorMessage::SaveFile)
    } else {
        None
    }
}

/// A session that is busy turns down a request to open, to save or to
/// start a new document: the session stays exactly as it was, and no file
/// operation is started.
pub proof fn lemma_busy_rejects_requests(s: EditorState, message: EditorMessage)
    requires
        s.is_busy(),
        message is OpenFile || message is SaveFile || message is NewFile,
    ensures
        s.next(message) == s,
        s.request(message) is None,
{
}

/// The document is clean right after an open or a save that was in flight
/// has succeeded, and a clean document becomes dirty only by an edit that
/// the session takes up and that is of a kind that changes the text.
pub proof fn lemma_dirty_flag(s: EditorState, message: EditorMessage)
    ensures
        s.accepts(message) && (message matches EditorMessage::FileOpened(Ok(_))
            || message matches EditorMessage::FileSaved(Ok(_))) ==> !s.next(message).is_dirty,
        !s.is_dirty && s.next(message).is_dirty ==> {
            &&& !s.is_busy()
            &&& message matches EditorMessage::ActionPerformed(op) && op.is_mutating()
        },
{
}

/// A dialog that the user closed never puts a failure on display: where
/// one is on display afterwards, it was there before and the message was
/// discarded.
pub proof fn lemma_dialog_close_is_silent(s: EditorState, message: EditorMessage)
    requires
        message == EditorMessage::FileOpened(Err(EditorError::DialogClose)) || message
            == EditorMessage::FileSaved(Err(EditorError::DialogClose)),
    ensures
        s.accepts(message) ==> s.next(message).last_error is None,
        !s.accepts(message) ==> s.next(message).last_error == s.last_error,
{
}

/// An I/O failure of the operation in flight is put on display, with its
/// kind unchanged.
pub proof fn lemma_io_failure_is_shown(
    s: EditorState,
    message: EditorMessage,
    kind: std::io::ErrorKind,
)
    requires
        message == EditorMessage::FileOpened(Err(EditorError::IoError(kind))) || message
            == EditorMessage::FileSaved(Err(EditorError::IoError(kind))),
        s.accepts(message),
    ensures
        s.next(message).last_error == Some(EditorError::IoError(kind)),
{
}

/// An operation that ends without a result leaves the document, its path
/// and its dirty flag as they were.
pub proof fn lemma_failure_keeps_document(s: EditorState, message: EditorMessage)
    requires
        message matches EditorMessage::FileOpened(Err(_)) || message matches EditorMessage::FileSaved(
            Err(_),
        ),
    ensures
        s.next(message).content == s.content,
        s.next(message).file == s.file,
        s.next(message).is_dirty == s.is_dirty,
        s.next(message).theme == s.theme,
{
}

/// Unsaved changes are flagged: where a message changes the text, the
/// document is dirty afterwards, unless the text was replaced by a new
/// document or by a file that was opened.
pub proof fn lemma_changed_text_is_dirty(s: EditorState, message: EditorMessage)
    requires
        s.next(message).content.text != s.content.text,
    ensures
        s.next(message).is_dirty || message is NewFile || message matches EditorMessage::FileOpened(
            Ok(_),
        ),
{
    if let EditorMessage::ActionPerformed(op) = message {
        if !op.is_mutating() {
            lemma_navigation_keeps_text(s.content, op);
        }
    }
}

/// At most one file operation is in flight. A message starts one only in
/// an idle session, which is busy with an operation of that kind from then
/// on; a session becomes busy in no other way; and a busy session becomes
/// idle only by the end of an operation of the kind that is in flight.
pub proof fn lemma_one_operation_in_flight(s: EditorState, message: EditorMessage)
    ensures
        s.request(message) matches Some(task) ==> !s.is_busy() && s.next(message).pending == Some(
            task.kind(),
        ),
        !s.is_busy() && s.next(message).is_busy() ==> s.request(message) is Some,
        s.is_busy() && !s.next(message).is_busy() ==> message.completes() == s.pending,
        s.is_busy() && s.next(message).is_busy() ==> s.next(message).pending == s.pending,
{
}

/// The end of the operation that a message has started is taken up by the
/// session as that message has left it, whatever the result, and leaves
/// the session idle.
pub proof fn lemma_outcome_returns_to_idle(
    s: EditorState,
    message: EditorMessage,
    outcome: EditorMessage,
)
    requires
        s.request(message) matches Some(task) && outcome.completes() == Some(task.kind()),
    ensures
        s.next(message).accepts(outcome),
        !s.next(message).next(outcome).is_busy(),
{
}

/// Whatever the message, the cursor and the selection stay within the
/// text of the document.
pub proof fn lemma_next_wf(s: EditorState, message: EditorMessage)
    requires
        s.wf(),
    ensures
        s.next(message).wf(),
{
    if let EditorMessage::ActionPerformed(op) = message {
        lemma_apply_wf(s.content, op);
    }
}

/// Saving to a path and then opening that path gives the same text back,
/// with the cursor at the start and nothing selected, provided that the
/// read returns what the write was given. The save writes exactly the text
/// of the document, to `path` itself where the document has that path or
/// none yet and the user picks it.
pub proof fn lemma_save_open_round_trip(s: EditorState, path: PathBuf, read: String)
    requires
        !s.is_busy(),
        s.file is None || s.file == Some(path),
        read@ == s.content.text,
    ensures
        ({
            let start = s.request(EditorMessage::SaveFile)->0;
            let write = if s.file is None {
                start.advance(FileEvent::Picked(Some(path)))
            } else {
                start
            };
            let saved = s.next(EditorMessage::SaveFile).next(EditorMessage::FileSaved(Ok(path)));
            let reading = saved.request(EditorMessage::OpenFile)->0.advance(
                FileEvent::Picked(Some(path)),
            );
            let opened = saved.next(EditorMessage::OpenFile).next(
                EditorMessage::FileOpened(Ok((path, read))),
            );
            &&& write == (TaskView::Write { path, contents: s.content.text })
            &&& write.advance(FileEvent::WriteDone(Ok(()))) == TaskView::Saved(Ok(path))
            &&& saved.content == s.content
            &&& reading == (TaskView::Read { path })
            &&& reading.advance(FileEvent::ReadDone(Ok(read))) == TaskView::Opened(
                Ok((path, read@)),
            )
            &&& opened.content == BufferState::holding(s.content.text)
            &&& opened.file == Some(path)
            &&& !opened.is_dirty
            &&& !opened.is_busy()
            &&& opened.last_error is None
        }),
{
}

} // verus!
