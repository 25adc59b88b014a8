use vstd::prelude::*;

pub mod buffer;
pub mod completion;
pub mod engine;
pub mod event;
pub mod pairs;
pub mod text;
pub mod style;

verus! {

/// The outcome of one editing session.
#[derive(Debug)]
pub enum LineEditorResult {
    /// Entry succeeded with the provided content
    Success(String),
    /// Interrupt current editing
    Interrupted,
    /// End terminal session
    EndTerminalSession,
}

} // verus!
