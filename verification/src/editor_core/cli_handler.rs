//! The arguments the editor is started with.

use vstd::prelude::*;

verus! {

/// The command line of the editor, once it has been read.
#[derive(Debug)]
pub struct Args {
    /// The path of the file to edit, if one was named.
    pub file_name: Option<String>,
}

/// The path of the file to edit: the one the arguments name, or none, in
/// which case the editor starts on an empty text that is bound to no file.
pub fn parse(args: Args) -> (file_name: Option<String>)
    ensures
        file_name == args.file_name,
{
    args.file_name
}

} // verus!
