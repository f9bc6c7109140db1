//! The binding between an editing session and its file: what is read from the
//! file becomes lines, and lines become what is written to it.

use crate::encoding::{all_valid_text, first_invalid_row, is_first_invalid_row};
use crate::error::EditorError;
use crate::lines::{concat_lines, lines_view, split_lines};
use crate::text_buffer::{load, serialize};
use vstd::prelude::*;

verus! {

/// The file a session is bound to: its path, and its size in bytes when it
/// was opened. The size is never looked up again; a file that changes on disk
/// during the session is not noticed.
#[derive(Debug)]
pub struct FileHandler {
    file_name: String,
    size: u64,
}

impl FileHandler {
    /// The path of the file.
    pub closed spec fn path(&self) -> Seq<char> {
        self.file_name@
    }

    /// The size of the file, in bytes, when it was opened.
    pub closed spec fn size_at_open(&self) -> u64 {
        self.size
    }

    /// Binds the file at path `filename`, which held `size` bytes when it was
    /// opened.
    pub fn from(filename: String, size: u64) -> (handler: FileHandler)
        ensures
            handler.path() == filename@,
            handler.size_at_open() == size,
    {
        FileHandler { file_name: filename, size }
    }

    /// The path of the file.
    pub fn file_name(&self) -> (name: &str)
        ensures
            name@ == self.path(),
    {
        self.file_name.as_str()
    }

    /// The size of the file, in bytes, when it was opened.
    pub fn size(&self) -> (size: u64)
        ensures
            size == self.size_at_open(),
    {
        self.size
    }

    /// How many bytes to ask the file for when it is read: its size when it
    /// was opened. Fails with `IoError` if this machine cannot address that
    /// many bytes.
    pub fn buffer_len(&self) -> (len: Result<usize, EditorError>)
        ensures
            match len {
                Ok(n) => n == self.size_at_open(),
                Err(error) => self.size_at_open() > usize::MAX && error == EditorError::IoError,
            },
    {
        if self.size <= usize::MAX as u64 {
            Ok(self.size as usize)
        } else {
            Err(EditorError::IoError)
        }
    }

    /// Turns what was read from the file into lines.
    ///
    /// `raw` is what the file gave when it was asked for as many bytes as it
    /// held when it was opened. If it gave fewer or more, the read was
    /// partial and is refused with `IoError`: the text is never cut short in
    /// silence. Otherwise the bytes are cut into lines at every line feed.
    pub fn read_lined_buffer(&self, raw: &[u8]) -> (read: Result<Vec<Vec<u8>>, EditorError>)
        ensures
            match read {
                Ok(lines) => raw@.len() == self.size_at_open() && lines_view(lines@)
                    == split_lines(raw@),
                Err(error) => raw@.len() != self.size_at_open() && error == EditorError::IoError,
            },
    {
        if raw.len() as u64 == self.size {
            Ok(load(raw))
        } else {
            Err(EditorError::IoError)
        }
    }

    /// Turns the lines of `buffer` into what is written to the file.
    ///
    /// Every line has to be valid UTF-8: if one is not, nothing is to be
    /// written, and the save fails with `EncodingError` for the first such
    /// row. Otherwise the result holds the lines one after the other, with
    /// nothing between them; it replaces the file's whole contents.
    pub fn write_lined_buffer(&self, buffer: &Vec<Vec<u8>>) -> (written: Result<
        Vec<u8>,
        EditorError,
    >)
        ensures
            match written {
                Ok(bytes) => all_valid_text(lines_view(buffer@)) && bytes@ == concat_lines(
                    lines_view(buffer@),
                ),
                Err(error) => error matches EditorError::EncodingError { row }
                    && is_first_invalid_row(lines_view(buffer@), row as int),
            },
    {
        match first_invalid_row(buffer) {
            Some(row) => Err(EditorError::EncodingError { row }),
            None => Ok(serialize(buffer)),
        }
    }
}

} // verus!
