//! What the editor needs from outside a session: the file it is bound to and
//! the arguments it was started with.

pub mod cli_handler;
pub mod file_handler;
