//! The texts of the status bar: which file is open, where the cursor
//! stands, and how much is selected.

use vstd::prelude::*;
use vstd::string::{StringExecFns, StringSliceAdditionalSpecFns};
use vstd::utf8::{
    encode_utf8, encode_utf8_decode_utf8, encode_utf8_valid_utf8, is_char_boundary,
    is_char_boundary_start_end_of_seq, valid_utf8,
};
use crate::buffer::{BufferState, Status};
use crate::text::{decimal, push_decimal};

verus! {

/// The longest path, in bytes of its UTF-8 encoding, that is shown in full.
pub const PATH_SHOWN_IN_FULL: usize = 60;

/// The number of bytes kept from the end of a longer path.
pub const PATH_TAIL: usize = 40;

/// The cursor's position as the status bar shows it: line and column,
/// counted from 1, with a colon between them.
pub open spec fn position_text(line: nat, column: nat) -> Seq<char> {
    decimal(line + 1) + ":"@ + decimal(column + 1)
}

/// The size of a selection as the status bar shows it: the number of
/// characters and, where there is at least one, the number of line breaks.
pub open spec fn selection_text(chars: nat, breaks: nat) -> Seq<char> {
    if breaks > 0 {
        " ("@ + decimal(chars) + " chars, "@ + decimal(breaks) + " line breaks)"@
    } else {
        " ("@ + decimal(chars) + " chars)"@
    }
}

/// The status line for a cursor on the zero-based `line` and `column`,
/// with `selected` characters and line breaks in the selection.
pub open spec fn status_text(line: nat, column: nat, selected: Option<(int, int)>) -> Seq<char> {
    match selected {
        Some((chars, breaks)) => position_text(line, column) + selection_text(
            chars as nat,
            breaks as nat,
        ),
        None => position_text(line, column),
    }
}

/// The status line of a buffer.
pub open spec fn buffer_status_text(buffer: BufferState) -> Seq<char> {
    status_text(buffer.line(), buffer.column() as nat, buffer.selected())
}

/// Where the tail of a text begins that is to start at byte `from` of its
/// encoding `bytes`: at `from` itself where a character begins there, else
/// at the start of the next character, so that no character is cut in two.
pub open spec fn tail_start(bytes: Seq<u8>, from: int) -> int
    decreases bytes.len() - from,
{
    if from >= bytes.len() {
        bytes.len() as int
    } else if is_char_boundary(bytes, from) {
        from
    } else {
        tail_start(bytes, from + 1)
    }
}

/// Whether `shown` is what the status bar shows for the open file:
/// `New File` where the document has no path; the path itself where its
/// encoding has at most `PATH_SHOWN_IN_FULL` bytes; else three dots and the
/// text whose encoding is the last `PATH_TAIL` bytes of the path's
/// encoding, or, where those begin inside a character, what follows that
/// character.
pub open spec fn is_file_status(path: Option<Seq<char>>, shown: Seq<char>) -> bool {
    match path {
        None => shown == "New File"@,
        Some(p) => {
            let bytes = encode_utf8(p);
            if bytes.len() <= PATH_SHOWN_IN_FULL {
                shown == p
            } else {
                exists|tail: Seq<char>|
                    shown == "..."@ + tail && #[trigger] encode_utf8(tail) =~= bytes.subrange(
                        tail_start(bytes, bytes.len() - PATH_TAIL),
                        bytes.len() as int,
                    )
            }
        },
    }
}

/// The tail of a path begins at a character, at or after the byte it was
/// asked to begin at and within the encoding.
pub proof fn lemma_tail_start(bytes: Seq<u8>, from: int)
    requires
        valid_utf8(bytes),
        0 <= from <= bytes.len(),
    ensures
        from <= tail_start(bytes, from) <= bytes.len(),
        is_char_boundary(bytes, tail_start(bytes, from)),
        is_char_boundary(bytes, from) ==> tail_start(bytes, from) == from,
    decreases bytes.len() - from,
{
    is_char_boundary_start_end_of_seq(bytes);
    if from < bytes.len() && !is_char_boundary(bytes, from) {
        lemma_tail_start(bytes, from + 1);
    }
}

/// There is one text that the status bar can show for a path, and no
/// other.
pub proof fn lemma_file_status_is_unique(path: Option<Seq<char>>, a: Seq<char>, b: Seq<char>)
    requires
        is_file_status(path, a),
        is_file_status(path, b),
    ensures
        a == b,
{
    if let Some(p) = path {
        let bytes = encode_utf8(p);
        if bytes.len() > PATH_SHOWN_IN_FULL {
            let end = bytes.subrange(
                tail_start(bytes, bytes.len() - PATH_TAIL),
                bytes.len() as int,
            );
            let tail_a = choose|tail: Seq<char>|
                a == "..."@ + tail && #[trigger] encode_utf8(tail) =~= end;
            let tail_b = choose|tail: Seq<char>|
                b == "..."@ + tail && #[trigger] encode_utf8(tail) =~= end;
            encode_utf8_decode_utf8(tail_a);
            encode_utf8_decode_utf8(tail_b);
        }
    }
}

impl Status {
    /// The status line: `line:column`, counted from 1, followed where
    /// something is selected by ` (N chars)` or ` (N chars, B line breaks)`.
    pub fn text(&self) -> (s: String)
        ensures
            s@ == status_text(
                self.line as nat,
                self.column as nat,
                match self.selected {
                    Some((chars, breaks)) => Some((chars as int, breaks as int)),
                    None => None,
                },
            ),
    {
        let mut s: String = String::new();
        push_decimal(&mut s, self.line as u128 + 1);
        s.append(":");
        push_decimal(&mut s, self.column as u128 + 1);
        match self.selected {
            Some((chars, breaks)) => {
                s.append(" (");
                push_decimal(&mut s, chars as u128);
                if breaks > 0 {
                    s.append(" chars, ");
                    push_decimal(&mut s, breaks as u128);
                    s.append(" line breaks)");
                } else {
                    s.append(" chars)");
                }
            },
            None => {},
        }
        s
    }
}

/// The text that the status bar shows for the open file.
pub fn file_status(path: Option<&str>) -> (s: String)
    ensures
        is_file_status(
            match path {
                Some(p) => Some(p@),
                None => None,
            },
            s@,
        ),
{
    match path {
        None => String::from_str("New File"),
        Some(p) => {
            let n: usize = p.as_bytes().len();
            if n > PATH_SHOWN_IN_FULL {
                proof {
                    encode_utf8_valid_utf8(p@);
                    is_char_boundary_start_end_of_seq(p.spec_bytes());
                }
                let mut start: usize = n - PATH_TAIL;
                while start < n && !p.is_char_boundary(start)
                    invariant
                        n == p.spec_bytes().len(),
                        n - PATH_TAIL <= start <= n,
                        tail_start(p.spec_bytes(), start as int) == tail_start(
                            p.spec_bytes(),
                            n - PATH_TAIL,
                        ),
                    decreases n - start,
                {
                    start = start + 1;
                }
                let (_, tail) = p.split_at(start);
                String::from_str("...").concat(tail)
            } else {
                String::from_str(p)
            }
        },
    }
}

} // verus!
