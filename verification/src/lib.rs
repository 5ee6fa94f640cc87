//! Deployment copy: the logic behind copying one source directory into several
//! destination directories while a boxed terminal display shows the progress.
//!
//! The crate holds the decisions only. It lays out the text of every box, keeps
//! the order in which destinations are attempted, and computes what a progress
//! report says. Reading directories, copying files and writing to a terminal
//! are left to the program built around it.

use vstd::prelude::*;

pub mod bytes;
pub mod copy;
pub mod error;
pub mod layout;
pub mod progress;
pub mod string;
pub mod style;
pub mod ui;
pub mod width;

verus! {

/// What the command line asks for: the directory to copy from, the
/// directories to copy into, and whether to skip the confirmation.
#[derive(Debug)]
pub struct Args {
    pub copy_from: String,
    pub drives: Vec<String>,
    pub yes: bool,
}

} // verus!
