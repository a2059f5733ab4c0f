//! The buffer engine of a terminal text editor: a document of lines, a
//! cursor, a selection, undo and redo history, literal search, and the
//! modes that turn abstract commands into edits.
use vstd::prelude::*;

pub mod app;
pub mod command;
pub mod edit;
pub mod motion;
pub mod search;
pub mod text;

verus! {

} // verus!
