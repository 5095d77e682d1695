use rheia::buffer::{DocumentBuffer, EditOp, Motion, Status};

const SAMPLE: &str = "ab\ncdef\ng";

fn at(text: &str, line: usize, column: usize) -> DocumentBuffer {
    let mut buffer = DocumentBuffer::with_text(text);
    buffer.apply(EditOp::MoveCursor(Motion::To { line, column }));
    buffer
}

fn moved(text: &str, line: usize, column: usize, motion: Motion) -> usize {
    let mut buffer = at(text, line, column);
    buffer.apply(EditOp::MoveCursor(motion));
    assert_eq!(buffer.selection(), None);
    assert_eq!(buffer.text(), text);
    buffer.cursor()
}

fn within_text(buffer: &DocumentBuffer) -> bool {
    let len = buffer.len();
    let selection_ok = match buffer.selection() {
        Some((start, end)) => {
            start < end && end <= len && (buffer.cursor() == start || buffer.cursor() == end)
        }
        None => true,
    };
    buffer.cursor() <= len && selection_ok
}

#[test]
fn new_buffer_is_empty() {
    let buffer = DocumentBuffer::new();
    assert_eq!(buffer.text(), "");
    assert_eq!(buffer.len(), 0);
    assert_eq!(buffer.cursor(), 0);
    assert_eq!(buffer.selection(), None);
    assert_eq!(buffer.cursor_position(), (0, 0));
}

#[test]
fn with_text_starts_at_the_top() {
    let buffer = DocumentBuffer::with_text(SAMPLE);
    assert_eq!(buffer.text(), SAMPLE);
    assert_eq!(buffer.len(), 9);
    assert_eq!(buffer.cursor(), 0);
    assert_eq!(buffer.selection(), None);
}

#[test]
fn length_counts_characters_not_bytes() {
    let buffer = DocumentBuffer::with_text("h\u{e9}llo \u{1F600}");
    assert_eq!(buffer.len(), 7);
    assert_eq!(buffer.text(), "h\u{e9}llo \u{1F600}");
}

#[test]
fn insert_into_empty_buffer() {
    let mut buffer = DocumentBuffer::new();
    buffer.apply(EditOp::Insert("hi".to_string()));
    assert_eq!(buffer.text(), "hi");
    assert_eq!(buffer.cursor(), 2);
    assert_eq!(buffer.selection(), None);
}

#[test]
fn insert_at_the_cursor() {
    let mut buffer = at("held", 0, 3);
    buffer.apply(EditOp::Insert("lo wor".to_string()));
    assert_eq!(buffer.text(), "hello word");
    assert_eq!(buffer.cursor(), 9);
}

#[test]
fn insert_of_nothing_changes_no_text() {
    let mut buffer = at("abc", 0, 1);
    buffer.apply(EditOp::Insert(String::new()));
    assert_eq!(buffer.text(), "abc");
    assert_eq!(buffer.cursor(), 1);
}

#[test]
fn insert_replaces_the_selection() {
    let mut buffer = DocumentBuffer::with_text("hello world");
    buffer.apply(EditOp::SetSelection { anchor: 0, head: 5 });
    assert_eq!(buffer.selection(), Some((0, 5)));
    buffer.apply(EditOp::Insert("bye".to_string()));
    assert_eq!(buffer.text(), "bye world");
    assert_eq!(buffer.cursor(), 3);
    assert_eq!(buffer.selection(), None);
}

#[test]
fn paste_replaces_the_selection() {
    let mut buffer = DocumentBuffer::with_text("hello world");
    buffer.apply(EditOp::SetSelection { anchor: 11, head: 6 });
    buffer.apply(EditOp::Paste("there\nyou".to_string()));
    assert_eq!(buffer.text(), "hello there\nyou");
    assert_eq!(buffer.cursor(), 15);
    assert_eq!(buffer.cursor_position(), (1, 3));
}

#[test]
fn backspace_deletes_the_character_before_the_cursor() {
    let mut buffer = at("abc", 0, 2);
    buffer.apply(EditOp::Backspace);
    assert_eq!(buffer.text(), "ac");
    assert_eq!(buffer.cursor(), 1);
}

#[test]
fn backspace_at_the_start_does_nothing() {
    let mut buffer = DocumentBuffer::with_text("abc");
    buffer.apply(EditOp::Backspace);
    assert_eq!(buffer.text(), "abc");
    assert_eq!(buffer.cursor(), 0);
}

#[test]
fn backspace_deletes_the_selection() {
    let mut buffer = DocumentBuffer::with_text("abcdef");
    buffer.apply(EditOp::SetSelection { anchor: 1, head: 4 });
    buffer.apply(EditOp::Backspace);
    assert_eq!(buffer.text(), "aef");
    assert_eq!(buffer.cursor(), 1);
    assert_eq!(buffer.selection(), None);
}

#[test]
fn delete_removes_the_character_after_the_cursor() {
    let mut buffer = at("abc", 0, 1);
    buffer.apply(EditOp::Delete);
    assert_eq!(buffer.text(), "ac");
    assert_eq!(buffer.cursor(), 1);
}

#[test]
fn delete_at_the_end_does_nothing() {
    let mut buffer = at("abc", 0, 3);
    buffer.apply(EditOp::Delete);
    assert_eq!(buffer.text(), "abc");
    assert_eq!(buffer.cursor(), 3);
}

#[test]
fn delete_removes_the_selection() {
    let mut buffer = DocumentBuffer::with_text("abcdef");
    buffer.apply(EditOp::SetSelection { anchor: 5, head: 2 });
    buffer.apply(EditOp::Delete);
    assert_eq!(buffer.text(), "abf");
    assert_eq!(buffer.cursor(), 2);
}

#[test]
fn delete_range_takes_its_ends_in_either_order() {
    let mut forward = DocumentBuffer::with_text("0123456789");
    forward.apply(EditOp::DeleteRange { start: 2, end: 7 });
    assert_eq!(forward.text(), "01789");
    assert_eq!(forward.cursor(), 2);

    let mut backward = DocumentBuffer::with_text("0123456789");
    backward.apply(EditOp::DeleteRange { start: 7, end: 2 });
    assert_eq!(backward.text(), "01789");
    assert_eq!(backward.cursor(), 2);
}

#[test]
fn delete_range_stops_at_the_end_of_the_text() {
    let mut buffer = DocumentBuffer::with_text("0123456789");
    buffer.apply(EditOp::DeleteRange { start: 5, end: 100 });
    assert_eq!(buffer.text(), "01234");
    assert_eq!(buffer.cursor(), 5);

    let mut outside = DocumentBuffer::with_text("0123456789");
    outside.apply(EditOp::DeleteRange { start: 50, end: usize::MAX });
    assert_eq!(outside.text(), "0123456789");
    assert_eq!(outside.cursor(), 10);
}

#[test]
fn delete_range_drops_the_selection() {
    let mut buffer = DocumentBuffer::with_text("0123456789");
    buffer.apply(EditOp::SetSelection { anchor: 8, head: 9 });
    buffer.apply(EditOp::DeleteRange { start: 0, end: 1 });
    assert_eq!(buffer.text(), "123456789");
    assert_eq!(buffer.cursor(), 0);
    assert_eq!(buffer.selection(), None);
}

#[test]
fn cut_removes_the_selection() {
    let mut buffer = DocumentBuffer::with_text("abcdef");
    buffer.apply(EditOp::SetSelection { anchor: 2, head: 4 });
    buffer.apply(EditOp::Cut);
    assert_eq!(buffer.text(), "abef");
    assert_eq!(buffer.cursor(), 2);
    assert_eq!(buffer.selection(), None);
}

#[test]
fn cut_without_a_selection_does_nothing() {
    let mut buffer = at("abcdef", 0, 3);
    buffer.apply(EditOp::Cut);
    assert_eq!(buffer.text(), "abcdef");
    assert_eq!(buffer.cursor(), 3);
}

#[test]
fn absolute_moves_land_on_line_and_column() {
    assert_eq!(at(SAMPLE, 0, 0).cursor(), 0);
    assert_eq!(at(SAMPLE, 1, 2).cursor(), 5);
    assert_eq!(at(SAMPLE, 2, 1).cursor(), 9);
    assert_eq!(at(SAMPLE, 1, 2).cursor_position(), (1, 2));
}

#[test]
fn absolute_moves_stop_at_the_end_of_the_line() {
    assert_eq!(at(SAMPLE, 0, 99).cursor(), 2);
    assert_eq!(at(SAMPLE, 1, usize::MAX).cursor(), 7);
}

#[test]
fn absolute_moves_stop_at_the_end_of_the_text() {
    assert_eq!(at(SAMPLE, 10, 0).cursor(), 9);
    assert_eq!(at(SAMPLE, usize::MAX, usize::MAX).cursor(), 9);
    assert_eq!(at("", 3, 3).cursor(), 0);
}

#[test]
fn a_trailing_line_break_opens_one_more_line() {
    assert_eq!(at("ab\n", 1, 0).cursor(), 3);
    assert_eq!(at("ab\n", 1, 0).cursor_position(), (1, 0));
    assert_eq!(at("ab\n", 2, 0).cursor(), 3);
}

#[test]
fn left_and_right_step_one_character() {
    assert_eq!(moved(SAMPLE, 1, 2, Motion::Left), 4);
    assert_eq!(moved(SAMPLE, 1, 2, Motion::Right), 6);
    assert_eq!(moved(SAMPLE, 1, 0, Motion::Left), 2);
    assert_eq!(moved(SAMPLE, 0, 2, Motion::Right), 3);
}

#[test]
fn left_and_right_stop_at_the_ends() {
    assert_eq!(moved(SAMPLE, 0, 0, Motion::Left), 0);
    assert_eq!(moved(SAMPLE, 2, 1, Motion::Right), 9);
}

#[test]
fn up_keeps_the_column_where_the_line_is_long_enough() {
    assert_eq!(moved(SAMPLE, 1, 2, Motion::Up), 2);
    assert_eq!(moved(SAMPLE, 1, 1, Motion::Up), 1);
    assert_eq!(moved(SAMPLE, 2, 0, Motion::Up), 3);
}

#[test]
fn up_stops_at_the_end_of_a_shorter_line() {
    assert_eq!(moved(SAMPLE, 1, 3, Motion::Up), 2);
    assert_eq!(moved(SAMPLE, 1, 4, Motion::Up), 2);
}

#[test]
fn up_on_the_first_line_stays() {
    assert_eq!(moved(SAMPLE, 0, 1, Motion::Up), 1);
}

#[test]
fn down_keeps_the_column_where_the_line_is_long_enough() {
    assert_eq!(moved(SAMPLE, 0, 0, Motion::Down), 3);
    assert_eq!(moved(SAMPLE, 0, 2, Motion::Down), 5);
    assert_eq!(moved(SAMPLE, 1, 1, Motion::Down), 9);
}

#[test]
fn down_stops_at_the_end_of_a_shorter_line() {
    assert_eq!(moved(SAMPLE, 1, 2, Motion::Down), 9);
    assert_eq!(moved(SAMPLE, 1, 4, Motion::Down), 9);
}

#[test]
fn down_on_the_last_line_stays() {
    assert_eq!(moved(SAMPLE, 2, 0, Motion::Down), 8);
}

#[test]
fn home_and_end_go_to_the_ends_of_the_line() {
    assert_eq!(moved(SAMPLE, 1, 2, Motion::Home), 3);
    assert_eq!(moved(SAMPLE, 1, 2, Motion::End), 7);
    assert_eq!(moved(SAMPLE, 0, 0, Motion::Home), 0);
    assert_eq!(moved(SAMPLE, 2, 1, Motion::End), 9);
}

#[test]
fn document_start_and_end() {
    assert_eq!(moved(SAMPLE, 1, 2, Motion::DocumentStart), 0);
    assert_eq!(moved(SAMPLE, 1, 2, Motion::DocumentEnd), 9);
}

#[test]
fn moving_with_a_selection_lands_on_its_ends() {
    for (motion, target) in [
        (Motion::Left, 2),
        (Motion::Up, 2),
        (Motion::Right, 5),
        (Motion::Down, 5),
    ] {
        let mut buffer = DocumentBuffer::with_text(SAMPLE);
        buffer.apply(EditOp::SetSelection { anchor: 2, head: 5 });
        buffer.apply(EditOp::MoveCursor(motion));
        assert_eq!(buffer.cursor(), target);
        assert_eq!(buffer.selection(), None);
    }
}

#[test]
fn other_moves_with_a_selection_start_from_the_cursor() {
    let mut buffer = DocumentBuffer::with_text(SAMPLE);
    buffer.apply(EditOp::SetSelection { anchor: 1, head: 5 });
    buffer.apply(EditOp::MoveCursor(Motion::Home));
    assert_eq!(buffer.cursor(), 3);
    assert_eq!(buffer.selection(), None);
}

#[test]
fn select_extends_from_the_cursor() {
    let mut buffer = at(SAMPLE, 1, 0);
    buffer.apply(EditOp::Select(Motion::Right));
    buffer.apply(EditOp::Select(Motion::Right));
    assert_eq!(buffer.selection(), Some((3, 5)));
    assert_eq!(buffer.cursor(), 5);
    assert_eq!(buffer.text(), SAMPLE);
}

#[test]
fn select_keeps_the_other_end_fixed() {
    let mut buffer = at(SAMPLE, 1, 0);
    buffer.apply(EditOp::Select(Motion::Right));
    buffer.apply(EditOp::Select(Motion::Left));
    assert_eq!(buffer.selection(), None);
    assert_eq!(buffer.cursor(), 3);
    buffer.apply(EditOp::Select(Motion::Left));
    assert_eq!(buffer.selection(), Some((2, 3)));
    assert_eq!(buffer.cursor(), 2);
    buffer.apply(EditOp::Select(Motion::DocumentEnd));
    assert_eq!(buffer.selection(), Some((3, 9)));
    assert_eq!(buffer.cursor(), 9);
    buffer.apply(EditOp::Select(Motion::DocumentStart));
    assert_eq!(buffer.selection(), Some((0, 3)));
    assert_eq!(buffer.cursor(), 0);
}

#[test]
fn select_to_a_position() {
    let mut buffer = at(SAMPLE, 0, 1);
    buffer.apply(EditOp::Select(Motion::To { line: 2, column: 0 }));
    assert_eq!(buffer.selection(), Some((1, 8)));
    assert_eq!(buffer.cursor(), 8);
}

#[test]
fn set_selection_normalizes_an_inverted_range() {
    let mut buffer = DocumentBuffer::with_text(SAMPLE);
    buffer.apply(EditOp::SetSelection { anchor: 5, head: 2 });
    assert_eq!(buffer.selection(), Some((2, 5)));
    assert_eq!(buffer.cursor(), 2);
}

#[test]
fn set_selection_of_an_empty_range_selects_nothing() {
    let mut buffer = DocumentBuffer::with_text(SAMPLE);
    buffer.apply(EditOp::SetSelection { anchor: 4, head: 4 });
    assert_eq!(buffer.selection(), None);
    assert_eq!(buffer.cursor(), 4);
}

#[test]
fn set_selection_stops_at_the_end_of_the_text() {
    let mut buffer = DocumentBuffer::with_text(SAMPLE);
    buffer.apply(EditOp::SetSelection { anchor: 0, head: usize::MAX });
    assert_eq!(buffer.selection(), Some((0, 9)));
    assert_eq!(buffer.cursor(), 9);
    buffer.apply(EditOp::SetSelection { anchor: 100, head: 200 });
    assert_eq!(buffer.selection(), None);
    assert_eq!(buffer.cursor(), 9);
}

#[test]
fn select_line_takes_the_line_without_its_break() {
    let mut buffer = at(SAMPLE, 1, 2);
    buffer.apply(EditOp::SelectLine);
    assert_eq!(buffer.selection(), Some((3, 7)));
    assert_eq!(buffer.cursor(), 7);

    let mut first = at(SAMPLE, 0, 0);
    first.apply(EditOp::SelectLine);
    assert_eq!(first.selection(), Some((0, 2)));

    let mut last = at(SAMPLE, 2, 1);
    last.apply(EditOp::SelectLine);
    assert_eq!(last.selection(), Some((8, 9)));
    assert_eq!(last.text(), SAMPLE);
}

#[test]
fn select_line_on_an_empty_line_selects_nothing() {
    let mut buffer = at("ab\n\ncd", 1, 0);
    buffer.apply(EditOp::SelectLine);
    assert_eq!(buffer.selection(), None);
    assert_eq!(buffer.cursor(), 3);
}

#[test]
fn select_all_takes_the_whole_text() {
    let mut buffer = at(SAMPLE, 1, 2);
    buffer.apply(EditOp::SelectAll);
    assert_eq!(buffer.selection(), Some((0, 9)));
    assert_eq!(buffer.cursor(), 9);
    assert_eq!(buffer.text(), SAMPLE);

    let mut empty = DocumentBuffer::new();
    empty.apply(EditOp::SelectAll);
    assert_eq!(empty.selection(), None);
    assert_eq!(empty.cursor(), 0);
}

#[test]
fn cursor_position_counts_lines_and_columns_from_zero() {
    let mut buffer = DocumentBuffer::with_text(SAMPLE);
    let expected = [
        (0, 0),
        (0, 1),
        (0, 2),
        (1, 0),
        (1, 1),
        (1, 2),
        (1, 3),
        (1, 4),
        (2, 0),
        (2, 1),
    ];
    for (offset, position) in expected.iter().enumerate() {
        assert_eq!(buffer.cursor(), offset);
        assert_eq!(buffer.cursor_position(), *position);
        buffer.apply(EditOp::MoveCursor(Motion::Right));
    }
}

#[test]
fn moving_to_the_reported_position_changes_nothing() {
    let text = "\n\nab\n\ncd\n";
    let mut buffer = DocumentBuffer::with_text(text);
    for offset in 0..=text.len() {
        assert_eq!(buffer.cursor(), offset);
        let (line, column) = buffer.cursor_position();
        buffer.apply(EditOp::MoveCursor(Motion::To { line, column }));
        assert_eq!(buffer.cursor(), offset);
        buffer.apply(EditOp::MoveCursor(Motion::Right));
    }
}

#[test]
fn status_without_selection() {
    let buffer = at(SAMPLE, 1, 2);
    assert_eq!(buffer.status(), Status { line: 1, column: 2, selected: None });
}

#[test]
fn status_counts_selected_characters_and_line_breaks() {
    let mut buffer = DocumentBuffer::with_text(SAMPLE);
    buffer.apply(EditOp::SetSelection { anchor: 1, head: 8 });
    assert_eq!(buffer.status(), Status { line: 2, column: 0, selected: Some((7, 2)) });
    buffer.apply(EditOp::SetSelection { anchor: 3, head: 5 });
    assert_eq!(buffer.status(), Status { line: 1, column: 2, selected: Some((2, 0)) });
    buffer.apply(EditOp::SetSelection { anchor: 3, head: 2 });
    assert_eq!(buffer.status(), Status { line: 0, column: 2, selected: Some((1, 1)) });
}

#[test]
fn only_content_changing_operations_are_mutating() {
    assert!(EditOp::Insert("a".to_string()).is_mutating());
    assert!(EditOp::Paste("a".to_string()).is_mutating());
    assert!(EditOp::Backspace.is_mutating());
    assert!(EditOp::Delete.is_mutating());
    assert!(EditOp::DeleteRange { start: 0, end: 1 }.is_mutating());
    assert!(EditOp::Cut.is_mutating());
    assert!(!EditOp::MoveCursor(Motion::Left).is_mutating());
    assert!(!EditOp::Select(Motion::Right).is_mutating());
    assert!(!EditOp::SelectLine.is_mutating());
    assert!(!EditOp::SelectAll.is_mutating());
    assert!(!EditOp::SetSelection { anchor: 0, head: 1 }.is_mutating());
}

#[test]
fn offsets_stay_within_the_text_after_every_operation() {
    let ops = vec![
        EditOp::Insert("one\ntwo\nthree".to_string()),
        EditOp::Select(Motion::Up),
        EditOp::Backspace,
        EditOp::SetSelection { anchor: 100, head: 1 },
        EditOp::Paste("\n\n".to_string()),
        EditOp::MoveCursor(Motion::Down),
        EditOp::Select(Motion::DocumentStart),
        EditOp::Cut,
        EditOp::Cut,
        EditOp::Delete,
        EditOp::Backspace,
        EditOp::MoveCursor(Motion::To { line: 7, column: 7 }),
        EditOp::Select(Motion::Home),
        EditOp::MoveCursor(Motion::Up),
        EditOp::DeleteRange { start: 9, end: 0 },
        EditOp::Delete,
        EditOp::Backspace,
        EditOp::Select(Motion::Left),
        EditOp::Select(Motion::End),
        EditOp::MoveCursor(Motion::Right),
        EditOp::Insert("x".to_string()),
        EditOp::Select(Motion::Left),
        EditOp::Select(Motion::Down),
        EditOp::Insert(String::new()),
        EditOp::SelectLine,
        EditOp::Backspace,
        EditOp::SelectAll,
        EditOp::Delete,
        EditOp::SelectLine,
        EditOp::SelectAll,
    ];
    let mut buffer = DocumentBuffer::new();
    assert!(within_text(&buffer));
    for op in ops {
        buffer.apply(op);
        assert!(within_text(&buffer));
    }
}

#[test]
fn a_clone_holds_the_same_document() {
    let mut buffer = DocumentBuffer::with_text(SAMPLE);
    buffer.apply(EditOp::SetSelection { anchor: 1, head: 4 });
    let copy = buffer.clone();
    assert_eq!(copy, buffer);
    assert_eq!(copy.text(), SAMPLE);
    assert_eq!(copy.selection(), Some((1, 4)));
    assert_eq!(copy.cursor(), 4);
}
