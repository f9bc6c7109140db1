use modal_editor::cursor::Cursor;
use modal_editor::editor::custom::{CustomEditorState, InputMode, Key, Notice};
use modal_editor::editor::screen::{
    cursor_cell, numbered_text, status_line, HORIZONTAL_OFFSET, NUMBER_WIDTH, VERTICAL_OFFSET,
};
use modal_editor::error::EditorError;

fn lines_of(texts: &[&str]) -> Vec<Vec<u8>> {
    texts.iter().map(|t| t.as_bytes().to_vec()).collect()
}

fn pieces(mode: InputMode, notice: Notice) -> Vec<(&'static str, bool)> {
    status_line(mode, notice).spans.iter().map(|s| (s.text, s.bold)).collect()
}

#[test]
fn the_offsets_are_those_of_the_frame() {
    assert_eq!(HORIZONTAL_OFFSET, 6);
    assert_eq!(VERTICAL_OFFSET, 1);
    assert_eq!(NUMBER_WIDTH, 4);
}

#[test]
fn status_line_in_normal_mode() {
    assert_eq!(
        pieces(InputMode::Normal, Notice::Clear),
        vec![
            ("Press ", false),
            ("q", true),
            (" to exit, ", false),
            ("e", true),
            (" to start editing,", false),
            ("w", true),
            (" to save.", false),
        ]
    );
    assert!(status_line(InputMode::Normal, Notice::Clear).blink);
}

#[test]
fn status_line_in_editing_mode() {
    assert_eq!(
        pieces(InputMode::Editing, Notice::Clear),
        vec![
            ("Press ", false),
            ("Esc", true),
            (" to stop editing, ", false),
            ("Enter", true),
            (" to record the message", false),
        ]
    );
    assert!(!status_line(InputMode::Editing, Notice::Clear).blink);
}

#[test]
fn status_line_shows_the_notice_behind_the_keys() {
    let saved = pieces(InputMode::Normal, Notice::Saved);
    assert_eq!(saved.len(), 8);
    assert_eq!(saved[7], (" Saved.", false));
    let unbound = pieces(InputMode::Normal, Notice::NoFile);
    assert_eq!(unbound[7], (" No file to save to.", false));
    let failed = pieces(InputMode::Editing, Notice::Failed(EditorError::PermissionDenied));
    assert_eq!(failed.len(), 7);
    assert_eq!(failed[5], (" Not saved: ", false));
    assert_eq!(failed[6], ("permission denied", false));
    let encoding =
        pieces(InputMode::Normal, Notice::Failed(EditorError::EncodingError { row: 2 }));
    assert_eq!(encoding[8], ("a line is not valid UTF-8 text", false));
}

#[test]
fn status_line_follows_the_editor() {
    let mut state = CustomEditorState::new();
    state.handle_key(Key::Char('w'));
    let line = status_line(state.mode(), state.notice());
    assert_eq!(line.spans.last().map(|s| s.text), Some(" No file to save to."));
    state.handle_key(Key::Char('e'));
    let line = status_line(state.mode(), state.notice());
    assert_eq!(line.spans.len(), 5);
    assert_eq!(line.spans[1].text, "Esc");
}

#[test]
fn cursor_cell_adds_the_offsets() {
    assert_eq!(cursor_cell(Cursor { column: 0, row: 0 }, 0, 0), Some((6, 1)));
    assert_eq!(cursor_cell(Cursor { column: 2, row: 3 }, 0, 0), Some((8, 4)));
    assert_eq!(cursor_cell(Cursor { column: 2, row: 3 }, 10, 20), Some((18, 24)));
}

#[test]
fn cursor_cell_reaches_the_last_cell() {
    assert_eq!(cursor_cell(Cursor { column: 65529, row: 65534 }, 0, 0), Some((65535, 65535)));
    assert_eq!(cursor_cell(Cursor { column: 0, row: 0 }, 65529, 65534), Some((65535, 65535)));
}

#[test]
fn cursor_cell_is_none_beyond_the_screen() {
    assert_eq!(cursor_cell(Cursor { column: 65530, row: 0 }, 0, 0), None);
    assert_eq!(cursor_cell(Cursor { column: 0, row: 65535 }, 0, 0), None);
    assert_eq!(cursor_cell(Cursor { column: 0, row: 0 }, 65530, 0), None);
    assert_eq!(cursor_cell(Cursor { column: 0, row: 0 }, 0, 65535), None);
    assert_eq!(cursor_cell(Cursor { column: 1, row: 0 }, 65529, 0), None);
    assert_eq!(cursor_cell(Cursor { column: usize::MAX, row: usize::MAX }, 0, 0), None);
    assert_eq!(cursor_cell(Cursor { column: 65536 + 2, row: 0 }, 0, 0), None);
}

#[test]
fn numbered_text_puts_the_row_number_before_each_line() {
    let text = numbered_text(&lines_of(&["ab", "cd"]));
    assert_eq!(text, b"   0 ab\n   1 cd".to_vec());
    assert_eq!(numbered_text(&lines_of(&[""])), b"   0 ".to_vec());
    assert_eq!(numbered_text(&Vec::new()), Vec::<u8>::new());
}

#[test]
fn numbered_text_agrees_with_width_four_formatting() {
    let lines: Vec<Vec<u8>> = (0..10_050).map(|n| format!("l{}", n).into_bytes()).collect();
    let expected = lines
        .iter()
        .enumerate()
        .map(|(n, line)| format!("{:4} {}", n, String::from_utf8(line.clone()).unwrap()))
        .collect::<Vec<String>>()
        .join("\n");
    assert_eq!(numbered_text(&lines), expected.into_bytes());
}

#[test]
fn numbered_text_marks_a_line_that_is_no_text() {
    let lines = vec![b"ok".to_vec(), vec![0xff, 0x61], "\u{e9}".as_bytes().to_vec()];
    let text = numbered_text(&lines);
    assert_eq!(text, "   0 ok\n   1 <not text>\n   2 \u{e9}".as_bytes().to_vec());
    assert!(String::from_utf8(text).is_ok());
}

#[test]
fn numbered_text_is_always_text() {
    let mut lines: Vec<Vec<u8>> = Vec::new();
    for byte in 0..=255u8 {
        lines.push(vec![byte]);
        lines.push(vec![b'a', byte, b'b']);
    }
    assert!(String::from_utf8(numbered_text(&lines)).is_ok());
}
