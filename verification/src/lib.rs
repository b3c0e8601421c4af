//! A modal document-editing core: operations are interpreted into invertible
//! diffs, diffs are recorded in a branching undo history, and a modal state
//! machine turns raw input tokens into operations.

pub mod document;
pub mod editor;
pub mod history;
pub mod intdoc;
pub mod mode;
