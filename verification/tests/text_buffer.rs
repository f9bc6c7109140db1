use modal_editor::error::EditorError;
use modal_editor::text_buffer::{load, serialize, TextBuffer};

fn lines_of(texts: &[&str]) -> Vec<Vec<u8>> {
    texts.iter().map(|t| t.as_bytes().to_vec()).collect()
}

#[test]
fn load_of_nothing_is_one_empty_line() {
    assert_eq!(load(b""), vec![Vec::<u8>::new()]);
}

#[test]
fn load_cuts_at_every_line_feed() {
    assert_eq!(load(b"ab\ncd"), lines_of(&["ab", "cd"]));
    assert_eq!(load(b"a\n\nb"), lines_of(&["a", "", "b"]));
    assert_eq!(load(b"\n"), lines_of(&["", ""]));
}

#[test]
fn load_ends_in_an_empty_line_after_a_final_line_feed() {
    assert_eq!(load(b"ab\n"), lines_of(&["ab", ""]));
}

#[test]
fn load_leaves_carriage_returns_in_place() {
    assert_eq!(load(b"ab\r\ncd\r\n"), lines_of(&["ab\r", "cd\r", ""]));
}

#[test]
fn load_takes_bytes_that_are_no_text() {
    assert_eq!(load(&[0xff, 0x0a, 0xc3]), vec![vec![0xffu8], vec![0xc3u8]]);
}

#[test]
fn serialize_puts_nothing_between_lines() {
    assert_eq!(serialize(&lines_of(&["ab", "cd"])), b"abcd".to_vec());
    assert_eq!(serialize(&lines_of(&["", "x", ""])), b"x".to_vec());
    assert_eq!(serialize(&Vec::new()), Vec::<u8>::new());
}

#[test]
fn a_file_without_line_feeds_survives_load_and_serialize() {
    let bytes = b"one line, no feed".to_vec();
    assert_eq!(serialize(&load(&bytes)), bytes);
    assert_eq!(serialize(&load(b"")), Vec::<u8>::new());
}

#[test]
fn line_feeds_are_lost_by_load_and_serialize() {
    let bytes = b"ab\ncd\n".to_vec();
    let back = serialize(&load(&bytes));
    assert_ne!(back, bytes);
    assert_eq!(back, b"abcd".to_vec());
    let kept: Vec<u8> = bytes.iter().copied().filter(|b| *b != 0x0a).collect();
    assert_eq!(back, kept);
}

#[test]
fn joining_with_line_feeds_gives_the_file_back() {
    for bytes in [&b"ab\ncd"[..], b"", b"\n", b"a\n\nb\n", b"\r\n"] {
        let joined = load(bytes).join(&0x0au8);
        assert_eq!(joined, bytes.to_vec());
    }
}

#[test]
fn a_single_line_is_read_back_as_written() {
    let lines = lines_of(&["x"]);
    assert_eq!(load(&serialize(&lines)), lines);
    let more = lines_of(&["ab", "cd"]);
    assert_eq!(load(&serialize(&more)), lines_of(&["abcd"]));
}

#[test]
fn a_new_buffer_is_one_empty_line() {
    let buffer = TextBuffer::new();
    assert_eq!(buffer.lines(), &vec![Vec::<u8>::new()]);
    assert_eq!(buffer.line_count(), 1);
}

#[test]
fn a_buffer_from_no_lines_is_one_empty_line() {
    let buffer = TextBuffer::from_lines(Vec::new());
    assert_eq!(buffer.lines(), &vec![Vec::<u8>::new()]);
    let buffer = TextBuffer::from_lines(lines_of(&["ab", "cd"]));
    assert_eq!(buffer.lines(), &lines_of(&["ab", "cd"]));
    assert_eq!(buffer.line_count(), 2);
}

#[test]
fn line_gives_the_row_or_an_index_error() {
    let buffer = TextBuffer::from_lines(lines_of(&["ab", "cd"]));
    assert_eq!(buffer.line(1), Ok(&b"cd".to_vec()));
    assert_eq!(buffer.line(2), Err(EditorError::IndexError));
}

#[test]
fn replace_line_overwrites_one_row() {
    let mut buffer = TextBuffer::from_lines(lines_of(&["ab", "cd"]));
    assert_eq!(buffer.replace_line(1, b"xyz".to_vec()), Ok(()));
    assert_eq!(buffer.lines(), &lines_of(&["ab", "xyz"]));
}

#[test]
fn replace_line_refuses_a_row_that_is_not_there() {
    let mut buffer = TextBuffer::from_lines(lines_of(&["ab", "cd"]));
    assert_eq!(buffer.replace_line(2, b"x".to_vec()), Err(EditorError::IndexError));
    assert_eq!(buffer.lines(), &lines_of(&["ab", "cd"]));
}

#[test]
fn split_line_cuts_a_row_in_two() {
    let mut buffer = TextBuffer::from_lines(lines_of(&["ab", "cdef", "g"]));
    assert_eq!(buffer.split_line(1, 1), Ok((b"c".to_vec(), b"def".to_vec())));
    assert_eq!(buffer.lines(), &lines_of(&["ab", "c", "def", "g"]));
}

#[test]
fn split_line_at_the_ends_leaves_an_empty_part() {
    let mut buffer = TextBuffer::from_lines(lines_of(&["ab"]));
    assert_eq!(buffer.split_line(0, 0), Ok((Vec::new(), b"ab".to_vec())));
    assert_eq!(buffer.lines(), &lines_of(&["", "ab"]));
    assert_eq!(buffer.split_line(1, 2), Ok((b"ab".to_vec(), Vec::new())));
    assert_eq!(buffer.lines(), &lines_of(&["", "ab", ""]));
}

#[test]
fn split_line_parts_put_together_are_the_line() {
    let line = b"hello world".to_vec();
    for column in 0..=line.len() {
        let mut buffer = TextBuffer::from_lines(vec![line.clone()]);
        let (left, right) = buffer.split_line(0, column).unwrap();
        assert_eq!([left.clone(), right.clone()].concat(), line);
        assert_eq!(buffer.lines(), &vec![left, right]);
    }
}

#[test]
fn split_line_refuses_what_is_out_of_range() {
    let mut buffer = TextBuffer::from_lines(lines_of(&["ab", "cd"]));
    assert_eq!(buffer.split_line(2, 0), Err(EditorError::IndexError));
    assert_eq!(buffer.split_line(0, 3), Err(EditorError::IndexError));
    assert_eq!(buffer.lines(), &lines_of(&["ab", "cd"]));
}

#[test]
fn insert_line_takes_rows_up_to_the_end() {
    let mut buffer = TextBuffer::from_lines(lines_of(&["ab", "cd"]));
    assert_eq!(buffer.insert_line(0, b"x".to_vec()), Ok(()));
    assert_eq!(buffer.insert_line(3, b"y".to_vec()), Ok(()));
    assert_eq!(buffer.lines(), &lines_of(&["x", "ab", "cd", "y"]));
    assert_eq!(buffer.insert_line(5, b"z".to_vec()), Err(EditorError::IndexError));
    assert_eq!(buffer.lines(), &lines_of(&["x", "ab", "cd", "y"]));
}

#[test]
fn remove_line_gives_the_row_back() {
    let mut buffer = TextBuffer::from_lines(lines_of(&["ab", "cd", "ef"]));
    assert_eq!(buffer.remove_line(1), Ok(b"cd".to_vec()));
    assert_eq!(buffer.lines(), &lines_of(&["ab", "ef"]));
    assert_eq!(buffer.remove_line(2), Err(EditorError::IndexError));
    assert_eq!(buffer.lines(), &lines_of(&["ab", "ef"]));
}

#[test]
fn the_last_line_cannot_be_removed() {
    let mut buffer = TextBuffer::from_lines(lines_of(&["ab", "cd"]));
    assert_eq!(buffer.remove_line(0), Ok(b"ab".to_vec()));
    assert_eq!(buffer.remove_line(0), Err(EditorError::IndexError));
    assert_eq!(buffer.lines(), &lines_of(&["cd"]));
    assert_eq!(buffer.line_count(), 1);
}
