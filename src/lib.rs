//! Incremental, cancellable filtering of a commit log, and the windowed cache
//! that holds the slice of the log on screen.

pub mod engine;
pub mod flags;
pub mod logitems;
pub mod matching;
pub mod revlog;
pub mod text;
