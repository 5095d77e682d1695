//! The document buffer: the text being edited, the cursor and the
//! selection, and the edit operations that change them.
//!
//! Offsets count characters from the start of the text. The cursor is an
//! offset between 0 and the length of the text; a selection is a non-empty
//! range of offsets with the cursor at one of its ends.
//!
//! The buffer is the document itself, not the content of a text widget.
//! What is saved is its text, character for character, and what an
//! operation does to it depends on the text and the operation alone. A
//! widget that lays text out cannot stand in for it: where its cursor goes
//! on a step up or down depends on the fonts and on the width of the
//! window, it counts columns in bytes, and the text it hands out may end
//! with a line break that nobody typed. A window that edits through such a
//! widget tells the buffer what was done.

use vstd::prelude::*;
use crate::lines::{
    breaks_between, column_of, count_breaks, find_line_end, find_line_start, find_offset,
    lemma_line_end_bounds, lemma_line_start_bounds, lemma_offset_from_bounds,
    line_end, line_index, line_start, offset_of,
};
use crate::text::{chars_of, push_range, string_of};

verus! {

/// A cursor movement.
#[derive(Debug, Clone, Copy, PartialEq, Eq)]
pub enum Motion {
    /// One character back.
    Left,
    /// One character forward.
    Right,
    /// The same column on the line above.
    Up,
    /// The same column on the line below.
    Down,
    /// The start of the line.
    Home,
    /// The end of the line.
    End,
    /// The start of the text.
    DocumentStart,
    /// The end of the text.
    DocumentEnd,
    /// The given zero-based line and column.
    To { line: usize, column: usize },
}

/// A discrete edit operation on a [`DocumentBuffer`].
#[derive(Debug, PartialEq, Eq)]
pub enum EditOp {
    /// Types the text at the cursor, in place of the selection if there is one.
    Insert(String),
    /// Pastes the text at the cursor, in place of the selection if there is one.
    Paste(String),
    /// Deletes the selection, or else the character before the cursor.
    Backspace,
    /// Deletes the selection, or else the character after the cursor.
    Delete,
    /// Deletes the characters between the two offsets, in either order.
    DeleteRange { start: usize, end: usize },
    /// Removes the selection, if there is one.
    Cut,
    /// Moves the cursor and drops the selection.
    MoveCursor(Motion),
    /// Moves the cursor and selects from the fixed end of the selection
    /// (or from the old cursor) to the new cursor.
    Select(Motion),
    /// Selects the line the cursor is on, without its line break, and puts
    /// the cursor at its end.
    SelectLine,
    /// Selects the whole text and puts the cursor at its end.
    SelectAll,
    /// Selects from `anchor` to `head` and puts the cursor at `head`.
    SetSelection { anchor: usize, head: usize },
}

/// What a [`DocumentBuffer`] holds, as mathematics.
pub struct BufferState {
    /// The text, character by character.
    pub text: Seq<char>,
    /// The cursor's offset.
    pub cursor: int,
    /// The selected range of offsets, start first.
    pub selection: Option<(int, int)>,
}

/// Where `m` takes a cursor that stands at offset `c` of `t`.
pub open spec fn motion_target(t: Seq<char>, c: int, m: Motion) -> int {
    match m {
        Motion::Left => if c > 0 {
            c - 1
        } else {
            0
        },
        Motion::Right => if c < t.len() {
            c + 1
        } else {
            t.len() as int
        },
        Motion::Up => {
            let start = line_start(t, c);
            if start == 0 {
                c
            } else {
                let above = line_start(t, start - 1);
                if c - start <= start - 1 - above {
                    above + (c - start)
                } else {
                    start - 1
                }
            }
        },
        Motion::Down => {
            let end = line_end(t, c);
            if end >= t.len() {
                c
            } else {
                let below_end = line_end(t, end + 1);
                if column_of(t, c) <= below_end - (end + 1) {
                    end + 1 + column_of(t, c)
                } else {
                    below_end
                }
            }
        },
        Motion::Home => line_start(t, c),
        Motion::End => line_end(t, c),
        Motion::DocumentStart => 0,
        Motion::DocumentEnd => t.len() as int,
        Motion::To { line, column } => offset_of(t, line as nat, column as nat),
    }
}

/// The smaller of two offsets.
pub open spec fn lower(a: int, b: int) -> int {
    if a <= b {
        a
    } else {
        b
    }
}

/// The larger of two offsets.
pub open spec fn upper(a: int, b: int) -> int {
    if a <= b {
        b
    } else {
        a
    }
}

/// The selection that spans the offsets `a` and `b`, in either order: none
/// where they are equal.
pub open spec fn span(a: int, b: int) -> Option<(int, int)> {
    if a == b {
        None
    } else {
        Some((lower(a, b), upper(a, b)))
    }
}

impl Clone for EditOp {
    fn clone(&self) -> (copy: Self)
        ensures
            copy == *self,
    {
        match self {
            EditOp::Insert(s) => EditOp::Insert(s.clone()),
            EditOp::Paste(s) => EditOp::Paste(s.clone()),
            EditOp::Backspace => EditOp::Backspace,
            EditOp::Delete => EditOp::Delete,
            EditOp::DeleteRange { start, end } => EditOp::DeleteRange { start: *start, end: *end },
            EditOp::Cut => EditOp::Cut,
            EditOp::MoveCursor(m) => EditOp::MoveCursor(*m),
            EditOp::Select(m) => EditOp::Select(*m),
            EditOp::SelectLine => EditOp::SelectLine,
            EditOp::SelectAll => EditOp::SelectAll,
            EditOp::SetSelection { anchor, head } => EditOp::SetSelection {
                anchor: *anchor,
                head: *head,
            },
        }
    }
}

impl EditOp {
    /// Whether the operation is of a kind that changes the text: typing,
    /// pasting, deleting and cutting are; moving and selecting are not.
    pub open spec fn spec_is_mutating(&self) -> bool {
        match self {
            EditOp::Insert(_) => true,
            EditOp::Paste(_) => true,
            EditOp::Backspace => true,
            EditOp::Delete => true,
            EditOp::DeleteRange { .. } => true,
            EditOp::Cut => true,
            EditOp::MoveCursor(_) => false,
            EditOp::Select(_) => false,
            EditOp::SelectLine => false,
            EditOp::SelectAll => false,
            EditOp::SetSelection { .. } => false,
        }
    }

    /// Whether the operation is of a kind that changes the text.
    #[verifier::when_used_as_spec(spec_is_mutating)]
    pub fn is_mutating(&self) -> (mutating: bool)
        ensures
            mutating == self.spec_is_mutating(),
    {
        match self {
            EditOp::Insert(_) => true,
            EditOp::Paste(_) => true,
            EditOp::Backspace => true,
            EditOp::Delete => true,
            EditOp::DeleteRange { .. } => true,
            EditOp::Cut => true,
            EditOp::MoveCursor(_) => false,
            EditOp::Select(_) => false,
            EditOp::SelectLine => false,
            EditOp::SelectAll => false,
            EditOp::SetSelection { .. } => false,
        }
    }
}

impl BufferState {
    /// The cursor and the selection lie within the text, and the selection,
    /// if there is one, is a non-empty range with the cursor at one end.
    pub open spec fn wf(self) -> bool {
        &&& 0 <= self.cursor <= self.text.len()
        &&& match self.selection {
            Some((start, end)) => {
                &&& 0 <= start < end <= self.text.len()
                &&& (self.cursor == start || self.cursor == end)
            },
            None => true,
        }
    }

    /// The buffer that holds `text`, with the cursor at its start and
    /// nothing selected.
    pub open spec fn holding(text: Seq<char>) -> BufferState {
        BufferState { text, cursor: 0, selection: None }
    }

    /// The range that typing replaces: the selection, or the empty range
    /// at the cursor.
    pub open spec fn range(self) -> (int, int) {
        match self.selection {
            Some(r) => r,
            None => (self.cursor, self.cursor),
        }
    }

    /// The end of the selection at which the cursor does not stand; the
    /// cursor itself where nothing is selected.
    pub open spec fn anchor(self) -> int {
        match self.selection {
            Some((start, end)) => if self.cursor == start {
                end
            } else {
                start
            },
            None => self.cursor,
        }
    }

    /// The text with `start..end` replaced by `s`, the cursor behind `s`,
    /// and nothing selected.
    pub open spec fn splice(self, start: int, end: int, s: Seq<char>) -> BufferState {
        BufferState {
            text: self.text.subrange(0, start) + s + self.text.subrange(
                end,
                self.text.len() as int,
            ),
            cursor: start + s.len(),
            selection: None,
        }
    }

    /// Typing or pasting `s`.
    pub open spec fn insert(self, s: Seq<char>) -> BufferState {
        self.splice(self.range().0, self.range().1, s)
    }

    /// Deleting the selection, or else the character before the cursor.
    pub open spec fn backspace(self) -> BufferState {
        if self.selection is Some {
            self.insert(Seq::empty())
        } else if self.cursor > 0 {
            self.splice(self.cursor - 1, self.cursor, Seq::empty())
        } else {
            self
        }
    }

    /// Deleting the selection, or else the character after the cursor.
    pub open spec fn delete(self) -> BufferState {
        if self.selection is Some {
            self.insert(Seq::empty())
        } else if self.cursor < self.text.len() {
            self.splice(self.cursor, self.cursor + 1, Seq::empty())
        } else {
            self
        }
    }

    /// Removing the selection, if there is one.
    pub open spec fn cut(self) -> BufferState {
        if self.selection is Some {
            self.insert(Seq::empty())
        } else {
            self
        }
    }

    /// Deleting what lies between the offsets `a` and `b`, in either
    /// order, each brought back to the end of the text where it lies past it.
    pub open spec fn delete_range(self, a: int, b: int) -> BufferState {
        let len = self.text.len() as int;
        self.splice(lower(lower(a, b), len), lower(upper(a, b), len), Seq::empty())
    }

    /// Where `m` takes the cursor when it moves without selecting. With a
    /// selection, a step back or up lands on its start and a step forward
    /// or down on its end.
    pub open spec fn move_target(self, m: Motion) -> int {
        match self.selection {
            Some((start, end)) => match m {
                Motion::Left => start,
                Motion::Up => start,
                Motion::Right => end,
                Motion::Down => end,
                _ => motion_target(self.text, self.cursor, m),
            },
            None => motion_target(self.text, self.cursor, m),
        }
    }

    /// Moving the cursor by `m` and dropping the selection.
    pub open spec fn move_cursor(self, m: Motion) -> BufferState {
        BufferState { text: self.text, cursor: self.move_target(m), selection: None }
    }

    /// Moving the cursor by `m` while the other end of the selection stays.
    pub open spec fn select(self, m: Motion) -> BufferState {
        let target = motion_target(self.text, self.cursor, m);
        BufferState { text: self.text, cursor: target, selection: span(self.anchor(), target) }
    }

    /// Selecting the line the cursor is on, from its start to its end, with
    /// the cursor at its end.
    pub open spec fn select_line(self) -> BufferState {
        let start = line_start(self.text, self.cursor);
        let end = line_end(self.text, self.cursor);
        BufferState { text: self.text, cursor: end, selection: span(start, end) }
    }

    /// Selecting the whole text, with the cursor at its end.
    pub open spec fn select_all(self) -> BufferState {
        self.set_selection(0, self.text.len() as int)
    }

    /// Selecting from `anchor` to `head`, each brought back to the end of
    /// the text where it lies past it, with the cursor at `head`.
    pub open spec fn set_selection(self, anchor: int, head: int) -> BufferState {
        let len = self.text.len() as int;
        BufferState {
            text: self.text,
            cursor: lower(head, len),
            selection: span(lower(anchor, len), lower(head, len)),
        }
    }

    /// The buffer after `op`.
    pub open spec fn apply(self, op: EditOp) -> BufferState {
        match op {
            EditOp::Insert(s) => self.insert(s@),
            EditOp::Paste(s) => self.insert(s@),
            EditOp::Backspace => self.backspace(),
            EditOp::Delete => self.delete(),
            EditOp::DeleteRange { start, end } => self.delete_range(start as int, end as int),
            EditOp::Cut => self.cut(),
            EditOp::MoveCursor(m) => self.move_cursor(m),
            EditOp::Select(m) => self.select(m),
            EditOp::SelectLine => self.select_line(),
            EditOp::SelectAll => self.select_all(),
            EditOp::SetSelection { anchor, head } => self.set_selection(
                anchor as int,
                head as int,
            ),
        }
    }

    /// The buffer after each of `ops` in turn.
    pub open spec fn apply_all(self, ops: Seq<EditOp>) -> BufferState
        decreases ops.len(),
    {
        if ops.len() == 0 {
            self
        } else {
            self.apply_all(ops.drop_last()).apply(ops.last())
        }
    }

    /// The number of selected characters and, among them, of line breaks.
    pub open spec fn selected(self) -> Option<(int, int)> {
        match self.selection {
            Some((start, end)) => Some((end - start, breaks_between(self.text, start, end))),
            None => None,
        }
    }

    /// The zero-based line the cursor is on.
    pub open spec fn line(self) -> nat {
        line_index(self.text, self.cursor)
    }

    /// The zero-based column the cursor is in.
    pub open spec fn column(self) -> int {
        column_of(self.text, self.cursor)
    }
}

/// The text being edited, with its cursor and selection.
#[derive(Debug, PartialEq, Eq)]
pub struct DocumentBuffer {
    text: Vec<char>,
    cursor: usize,
    selection: Option<(usize, usize)>,
}

/// Where the cursor stands and how much is selected.
#[derive(Debug, Clone, Copy, PartialEq, Eq)]
pub struct Status {
    /// The zero-based line of the cursor.
    pub line: usize,
    /// The zero-based column of the cursor.
    pub column: usize,
    /// The number of selected characters and, among them, of line breaks.
    pub selected: Option<(usize, usize)>,
}

impl View for DocumentBuffer {
    type V = BufferState;

    closed spec fn view(&self) -> BufferState {
        BufferState {
            text: self.text@,
            cursor: self.cursor as int,
            selection: match self.selection {
                Some((start, end)) => Some((start as int, end as int)),
                None => None,
            },
        }
    }
}

impl Clone for DocumentBuffer {
    fn clone(&self) -> (copy: Self)
        ensures
            copy@ == self@,
    {
        proof {
            use_type_invariant(self);
        }
        DocumentBuffer {
            text: self.text.clone(),
            cursor: self.cursor,
            selection: self.selection,
        }
    }
}

fn span_of(a: usize, b: usize) -> (r: Option<(usize, usize)>)
    ensures
        match r {
            Some((start, end)) => span(a as int, b as int) == Some((start as int, end as int)),
            None => span(a as int, b as int) is None,
        },
{
    if a == b {
        None
    } else if a < b {
        Some((a, b))
    } else {
        Some((b, a))
    }
}

impl DocumentBuffer {
    /// What holds of every buffer: the cursor and the selection lie within
    /// the text.
    #[verifier::type_invariant]
    pub open spec fn valid(self) -> bool {
        self@.wf()
    }

    /// An empty buffer.
    pub fn new() -> (buffer: Self)
        ensures
            buffer@ == BufferState::holding(Seq::empty()),
            buffer@.wf(),
    {
        DocumentBuffer { text: Vec::new(), cursor: 0, selection: None }
    }

    /// A buffer that holds `text`, with the cursor at its start and nothing
    /// selected.
    pub fn with_text(text: &str) -> (buffer: Self)
        ensures
            buffer@ == BufferState::holding(text@),
            buffer@.wf(),
    {
        DocumentBuffer { text: chars_of(text), cursor: 0, selection: None }
    }

    /// The whole text.
    pub fn text(&self) -> (s: String)
        ensures
            s@ == self@.text,
    {
        string_of(&self.text)
    }

    /// The number of characters in the text.
    pub fn len(&self) -> (n: usize)
        ensures
            n == self@.text.len(),
    {
        self.text.len()
    }

    /// The cursor's offset.
    pub fn cursor(&self) -> (c: usize)
        ensures
            c == self@.cursor,
    {
        self.cursor
    }

    /// The selected range of offsets, start first.
    pub fn selection(&self) -> (r: Option<(usize, usize)>)
        ensures
            match r {
                Some((start, end)) => self@.selection == Some((start as int, end as int)),
                None => self@.selection is None,
            },
    {
        self.selection
    }

    /// The zero-based line and column of the cursor.
    pub fn cursor_position(&self) -> (p: (usize, usize))
        ensures
            p.0 == self@.line(),
            p.1 == self@.column(),
    {
        proof {
            use_type_invariant(self);
        }
        let line: usize = count_breaks(&self.text, 0, self.cursor);
        let start: usize = find_line_start(&self.text, self.cursor);
        (line, self.cursor - start)
    }

    /// The cursor's line and column and the size of the selection.
    pub fn status(&self) -> (status: Status)
        ensures
            status.line == self@.line(),
            status.column == self@.column(),
            match status.selected {
                Some((chars, breaks)) => self@.selected() == Some((chars as int, breaks as int)),
                None => self@.selected() is None,
            },
    {
        proof {
            use_type_invariant(self);
        }
        let (line, column) = self.cursor_position();
        let selected: Option<(usize, usize)> = match self.selection {
            Some((start, end)) => Some((end - start, count_breaks(&self.text, start, end))),
            None => None,
        };
        Status { line, column, selected }
    }

    fn splice(&mut self, start: usize, end: usize, s: &Vec<char>)
        requires
            start <= end <= old(self)@.text.len(),
        ensures
            final(self)@ == old(self)@.splice(start as int, end as int, s@),
    {
        let mut out: Vec<char> = Vec::new();
        push_range(&mut out, &self.text, 0, start);
        push_range(&mut out, s, 0, s.len());
        push_range(&mut out, &self.text, end, self.text.len());
        assert(s@.subrange(0, s@.len() as int) == s@);
        let cursor: usize = out.len() - (self.text.len() - end);
        *self = DocumentBuffer { text: out, cursor, selection: None };
    }

    fn range(&self) -> (r: (usize, usize))
        ensures
            self@.range() == (r.0 as int, r.1 as int),
            r.0 <= r.1 <= self@.text.len(),
    {
        proof {
            use_type_invariant(self);
        }
        match self.selection {
            Some(r) => r,
            None => (self.cursor, self.cursor),
        }
    }

    fn remove(&mut self, start: usize, end: usize)
        requires
            start <= end <= old(self)@.text.len(),
        ensures
            final(self)@ == old(self)@.splice(start as int, end as int, Seq::empty()),
    {
        let nothing: Vec<char> = Vec::new();
        self.splice(start, end, &nothing);
    }

    fn target(&self, m: Motion) -> (t: usize)
        ensures
            t == motion_target(self@.text, self@.cursor, m),
            t <= self@.text.len(),
    {
        proof {
            use_type_invariant(self);
            lemma_motion_target_bounds(self@.text, self@.cursor, m);
        }
        match m {
            Motion::Left => if self.cursor > 0 {
                self.cursor - 1
            } else {
                0
            },
            Motion::Right => if self.cursor < self.text.len() {
                self.cursor + 1
            } else {
                self.text.len()
            },
            Motion::Up => {
                let start: usize = find_line_start(&self.text, self.cursor);
                if start == 0 {
                    self.cursor
                } else {
                    let above: usize = find_line_start(&self.text, start - 1);
                    let column: usize = self.cursor - start;
                    if column <= start - 1 - above {
                        above + column
                    } else {
                        start - 1
                    }
                }
            },
            Motion::Down => {
                let end: usize = find_line_end(&self.text, self.cursor);
                if end >= self.text.len() {
                    self.cursor
                } else {
                    let start: usize = find_line_start(&self.text, self.cursor);
                    let column: usize = self.cursor - start;
                    let below_end: usize = find_line_end(&self.text, end + 1);
                    if column <= below_end - (end + 1) {
                        end + 1 + column
                    } else {
                        below_end
                    }
                }
            },
            Motion::Home => find_line_start(&self.text, self.cursor),
            Motion::End => find_line_end(&self.text, self.cursor),
            Motion::DocumentStart => 0,
            Motion::DocumentEnd => self.text.len(),
            Motion::To { line, column } => find_offset(&self.text, line, column),
        }
    }

    fn move_cursor(&mut self, m: Motion)
        ensures
            final(self)@ == old(self)@.move_cursor(m),
    {
        proof {
            use_type_invariant(&*self);
        }
        let target: usize = match (self.selection, m) {
            (Some((start, _)), Motion::Left) => start,
            (Some((start, _)), Motion::Up) => start,
            (Some((_, end)), Motion::Right) => end,
            (Some((_, end)), Motion::Down) => end,
            _ => self.target(m),
        };
        self.selection = None;
        self.cursor = target;
    }

    fn select_to(&mut self, anchor: usize, head: usize)
        requires
            anchor <= old(self)@.text.len(),
            head <= old(self)@.text.len(),
        ensures
            final(self)@ == (BufferState {
                text: old(self)@.text,
                cursor: head as int,
                selection: span(anchor as int, head as int),
            }),
    {
        proof {
            use_type_invariant(&*self);
        }
        self.selection = None;
        self.cursor = head;
        self.selection = span_of(anchor, head);
    }

    fn select(&mut self, m: Motion)
        ensures
            final(self)@ == old(self)@.select(m),
    {
        proof {
            use_type_invariant(&*self);
        }
        let anchor: usize = match self.selection {
            Some((start, end)) => if self.cursor == start {
                end
            } else {
                start
            },
            None => self.cursor,
        };
        let target: usize = self.target(m);
        self.select_to(anchor, target);
    }

    /// Applies one edit operation, and returns the cursor and the selection
    /// as they are after it.
    pub fn apply(&mut self, op: EditOp) -> (now: (usize, Option<(usize, usize)>))
        ensures
            final(self)@ == old(self)@.apply(op),
            final(self)@.wf(),
            now.0 == final(self)@.cursor,
            match now.1 {
                Some((start, end)) => final(self)@.selection == Some((start as int, end as int)),
                None => final(self)@.selection is None,
            },
    {
        proof {
            use_type_invariant(&*self);
            lemma_apply_wf(self@, op);
        }
        let len: usize = self.text.len();
        match op {
            EditOp::Insert(s) => {
                let (start, end) = self.range();
                self.splice(start, end, &chars_of(s.as_str()));
            },
            EditOp::Paste(s) => {
                let (start, end) = self.range();
                self.splice(start, end, &chars_of(s.as_str()));
            },
            EditOp::Backspace => {
                if self.selection.is_some() {
                    let (start, end) = self.range();
                    self.remove(start, end);
                } else if self.cursor > 0 {
                    self.remove(self.cursor - 1, self.cursor);
                }
            },
            EditOp::Delete => {
                if self.selection.is_some() {
                    let (start, end) = self.range();
                    self.remove(start, end);
                } else if self.cursor < len {
                    self.remove(self.cursor, self.cursor + 1);
                }
            },
            EditOp::DeleteRange { start, end } => {
                let (a, b) = if start <= end {
                    (start, end)
                } else {
                    (end, start)
                };
                self.remove(
                    if a <= len {
                        a
                    } else {
                        len
                    },
                    if b <= len {
                        b
                    } else {
                        len
                    },
                );
            },
            EditOp::Cut => {
                if self.selection.is_some() {
                    let (start, end) = self.range();
                    self.remove(start, end);
                }
            },
            EditOp::MoveCursor(m) => self.move_cursor(m),
            EditOp::Select(m) => self.select(m),
            EditOp::SelectLine => {
                let start: usize = find_line_start(&self.text, self.cursor);
                let end: usize = find_line_end(&self.text, self.cursor);
                self.select_to(start, end);
            },
            EditOp::SelectAll => self.select_to(0, len),
            EditOp::SetSelection { anchor, head } => {
                self.select_to(
                    if anchor <= len {
                        anchor
                    } else {
                        len
                    },
                    if head <= len {
                        head
                    } else {
                        len
                    },
                );
            },
        }
        (self.cursor, self.selection)
    }
}

/// A motion leaves the cursor inside the text.
pub proof fn lemma_motion_target_bounds(t: Seq<char>, c: int, m: Motion)
    requires
        0 <= c <= t.len(),
    ensures
        0 <= motion_target(t, c, m) <= t.len(),
{
    lemma_line_start_bounds(t, c);
    lemma_line_end_bounds(t, c);
    match m {
        Motion::Up => {
            let start = line_start(t, c);
            if start > 0 {
                lemma_line_start_bounds(t, start - 1);
            }
        },
        Motion::Down => {
            let end = line_end(t, c);
            if end < t.len() {
                lemma_line_end_bounds(t, end + 1);
            }
        },
        Motion::To { line, column } => {
            lemma_offset_from_bounds(t, 0, line as nat, column as nat);
        },
        _ => {},
    }
}

/// Every edit operation keeps the cursor and the selection inside the text.
pub proof fn lemma_apply_wf(s: BufferState, op: EditOp)
    requires
        s.wf(),
    ensures
        s.apply(op).wf(),
{
    match op {
        EditOp::MoveCursor(m) => {
            lemma_motion_target_bounds(s.text, s.cursor, m);
        },
        EditOp::Select(m) => {
            lemma_motion_target_bounds(s.text, s.cursor, m);
        },
        EditOp::SelectLine => {
            lemma_line_start_bounds(s.text, s.cursor);
            lemma_line_end_bounds(s.text, s.cursor);
        },
        _ => {},
    }
}

/// Moving and selecting leave the text as it is: only an operation of a
/// kind that changes the text can change it.
pub proof fn lemma_navigation_keeps_text(s: BufferState, op: EditOp)
    requires
        !op.is_mutating(),
    ensures
        s.apply(op).text == s.text,
{
}

/// After every operation of any sequence of edit operations, the cursor
/// and the selection lie within the text.
pub proof fn lemma_apply_all_wf(s: BufferState, ops: Seq<EditOp>)
    requires
        s.wf(),
    ensures
        forall|k: int| 0 <= k <= ops.len() ==> (#[trigger] s.apply_all(ops.take(k))).wf(),
    decreases ops.len(),
{
    assert forall|k: int| 0 <= k <= ops.len() implies (#[trigger] s.apply_all(ops.take(k))).wf() by {
        if k == 0 {
            assert(ops.take(0).len() == 0);
        } else {
            let prefix = ops.take(k);
            lemma_apply_all_wf(s, prefix.drop_last());
            assert(prefix.drop_last().take(k - 1) == prefix.drop_last());
            lemma_apply_wf(s.apply_all(prefix.drop_last()), prefix.last());
        }
    }
}

} // verus!
