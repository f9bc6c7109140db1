//! The failures the editor can report.

use vstd::prelude::*;

verus! {

/// Why an operation of the editor did not go through.
#[derive(Clone, Copy, Debug, PartialEq, Eq, Structural)]
pub enum EditorError {
    /// The path given at startup names no file.
    NotFound,
    /// The file exists but may not be opened, read or written.
    PermissionDenied,
    /// Reading or writing the file failed, or gave fewer bytes than the file holds.
    IoError,
    /// The line at `row` is not valid UTF-8 text.
    EncodingError { row: usize },
    /// A row or column lies outside the buffer.
    IndexError,
}

/// The words in which an error is shown to the user.
pub open spec fn error_text(error: EditorError) -> Seq<char> {
    match error {
        EditorError::NotFound => "no file found"@,
        EditorError::PermissionDenied => "permission denied"@,
        EditorError::IoError => "the file could not be read or written in full"@,
        EditorError::EncodingError { .. } => "a line is not valid UTF-8 text"@,
        EditorError::IndexError => "position outside the buffer"@,
    }
}

/// The kinds of failure that the standard library reports for files, made
/// known to the verifier with their variants. Nothing is claimed of them.
#[verifier::external_type_specification]
pub struct ExIoErrorKind(std::io::ErrorKind);

/// The editor's error for a failure of kind `kind` in opening, reading or
/// writing a file.
pub open spec fn error_of_kind(kind: std::io::ErrorKind) -> EditorError {
    match kind {
        std::io::ErrorKind::NotFound => EditorError::NotFound,
        std::io::ErrorKind::PermissionDenied => EditorError::PermissionDenied,
        _ => EditorError::IoError,
    }
}

impl EditorError {
    /// The editor's error for a failure of kind `kind` in opening, reading or
    /// writing a file: a missing file is `NotFound`, refused access is
    /// `PermissionDenied`, and everything else is `IoError`.
    pub fn from_io(kind: std::io::ErrorKind) -> (error: EditorError)
        ensures
            error == error_of_kind(kind),
    {
        match kind {
            std::io::ErrorKind::NotFound => EditorError::NotFound,
            std::io::ErrorKind::PermissionDenied => EditorError::PermissionDenied,
            _ => EditorError::IoError,
        }
    }

    /// The words in which this error is shown to the user.
    pub fn message(&self) -> (text: &'static str)
        ensures
            text@ == error_text(*self),
    {
        match self {
            EditorError::NotFound => "no file found",
            EditorError::PermissionDenied => "permission denied",
            EditorError::IoError => "the file could not be read or written in full",
            EditorError::EncodingError { .. } => "a line is not valid UTF-8 text",
            EditorError::IndexError => "position outside the buffer",
        }
    }
}

} // verus!
