use modal_editor::editor_core::cli_handler::{parse, Args};
use modal_editor::editor_core::file_handler::FileHandler;
use modal_editor::encoding::{first_invalid_row, is_valid_text};
use modal_editor::error::EditorError;
use std::io::ErrorKind;

fn lines_of(texts: &[&str]) -> Vec<Vec<u8>> {
    texts.iter().map(|t| t.as_bytes().to_vec()).collect()
}

#[test]
fn parse_hands_out_the_named_file() {
    let args = Args { file_name: Some(String::from("notes.txt")) };
    assert_eq!(parse(args), Some(String::from("notes.txt")));
}

#[test]
fn parse_without_a_file_gives_none() {
    assert_eq!(parse(Args { file_name: None }), None);
}

#[test]
fn a_handler_keeps_path_and_size() {
    let handler = FileHandler::from(String::from("dir/notes.txt"), 42);
    assert_eq!(handler.file_name(), "dir/notes.txt");
    assert_eq!(handler.size(), 42);
    assert_eq!(handler.buffer_len(), Ok(42));
}

#[test]
fn buffer_len_is_the_size_where_it_fits() {
    let handler = FileHandler::from(String::from("big"), u64::MAX);
    let expected = usize::try_from(u64::MAX).map_err(|_| EditorError::IoError);
    assert_eq!(handler.buffer_len(), expected);
    assert_eq!(FileHandler::from(String::from("empty"), 0).buffer_len(), Ok(0));
}

#[test]
fn read_lined_buffer_cuts_a_full_read_into_lines() {
    let handler = FileHandler::from(String::from("f"), 5);
    assert_eq!(handler.read_lined_buffer(b"ab\ncd"), Ok(lines_of(&["ab", "cd"])));
    let empty = FileHandler::from(String::from("e"), 0);
    assert_eq!(empty.read_lined_buffer(b""), Ok(lines_of(&[""])));
}

#[test]
fn read_lined_buffer_refuses_a_short_read() {
    let handler = FileHandler::from(String::from("f"), 5);
    assert_eq!(handler.read_lined_buffer(b"ab\nc"), Err(EditorError::IoError));
    assert_eq!(handler.read_lined_buffer(b""), Err(EditorError::IoError));
    assert_eq!(handler.read_lined_buffer(b"ab\ncde"), Err(EditorError::IoError));
}

#[test]
fn write_lined_buffer_gives_the_lines_end_to_end() {
    let handler = FileHandler::from(String::from("f"), 0);
    assert_eq!(handler.write_lined_buffer(&lines_of(&["ab", "cd"])), Ok(b"abcd".to_vec()));
    assert_eq!(handler.write_lined_buffer(&lines_of(&["x"])), Ok(b"x".to_vec()));
    assert_eq!(
        handler.write_lined_buffer(&lines_of(&["gr\u{fc}n", "\u{4e2d}"])),
        Ok("gr\u{fc}n\u{4e2d}".as_bytes().to_vec())
    );
}

#[test]
fn write_lined_buffer_refuses_lines_that_are_no_text() {
    let handler = FileHandler::from(String::from("f"), 0);
    let lines = vec![b"ok".to_vec(), vec![0x61, 0xff], vec![0xc3], b"ok".to_vec()];
    assert_eq!(handler.write_lined_buffer(&lines), Err(EditorError::EncodingError { row: 1 }));
    let lines = vec![vec![0xe4, 0xb8], b"ok".to_vec()];
    assert_eq!(handler.write_lined_buffer(&lines), Err(EditorError::EncodingError { row: 0 }));
}

#[test]
fn what_was_written_for_one_line_is_read_back_as_that_line() {
    let lines = lines_of(&["x"]);
    let handler = FileHandler::from(String::from("f"), 0);
    let bytes = handler.write_lined_buffer(&lines).unwrap();
    let reopened = FileHandler::from(String::from("f"), bytes.len() as u64);
    assert_eq!(reopened.read_lined_buffer(&bytes), Ok(lines));
}

#[test]
fn valid_text_is_utf8() {
    assert!(is_valid_text(&Vec::new()));
    assert!(is_valid_text(&b"plain".to_vec()));
    assert!(is_valid_text(&"\u{e9}\u{4e2d}\u{1f600}".as_bytes().to_vec()));
    assert!(!is_valid_text(&vec![0xff]));
    assert!(!is_valid_text(&vec![0xc3]));
    assert!(!is_valid_text(&vec![0xc0, 0x80]));
    assert!(!is_valid_text(&vec![0xed, 0xa0, 0x80]));
    assert!(!is_valid_text(&vec![0x61, 0x80]));
}

#[test]
fn first_invalid_row_finds_the_first_line_that_is_no_text() {
    assert_eq!(first_invalid_row(&lines_of(&["a", "b"])), None);
    assert_eq!(first_invalid_row(&Vec::new()), None);
    let lines = vec![b"a".to_vec(), vec![0x80], vec![0xff]];
    assert_eq!(first_invalid_row(&lines), Some(1));
}

#[test]
fn every_error_has_its_words() {
    assert_eq!(EditorError::NotFound.message(), "no file found");
    assert_eq!(EditorError::PermissionDenied.message(), "permission denied");
    assert_eq!(
        EditorError::IoError.message(),
        "the file could not be read or written in full"
    );
    assert_eq!(
        EditorError::EncodingError { row: 3 }.message(),
        "a line is not valid UTF-8 text"
    );
    assert_eq!(EditorError::IndexError.message(), "position outside the buffer");
}

#[test]
fn file_failures_become_editor_errors() {
    assert_eq!(EditorError::from_io(ErrorKind::NotFound), EditorError::NotFound);
    assert_eq!(EditorError::from_io(ErrorKind::PermissionDenied), EditorError::PermissionDenied);
    assert_eq!(EditorError::from_io(ErrorKind::UnexpectedEof), EditorError::IoError);
    assert_eq!(EditorError::from_io(ErrorKind::WriteZero), EditorError::IoError);
    assert_eq!(EditorError::from_io(ErrorKind::Interrupted), EditorError::IoError);
    assert_eq!(EditorError::from_io(ErrorKind::Other), EditorError::IoError);
}
