//! The decisions of an `rm` that moves paths to the trash instead of
//! deleting them.
//!
//! The library decides; it never touches the file system or the trash.
//! A [`session::Session`] is made from an invocation, the paths and the
//! switches `recursive`, `force` and `verbose`. It names the next thing
//! to do about the current path: read its metadata, enumerate its
//! entries, or hand it to the trash. The caller does that and answers
//! with what it found. When the answer settles the path, the session
//! returns its report, the outcome and the lines to print, and turns to
//! the next path. Every path is attempted, whatever became of the paths
//! before it.
//!
//! - [`types`]: the values exchanged, each with its view.
//! - [`wording`]: the text of every line.
//! - [`listing`]: what the entries of a directory contribute.
//! - [`report`]: the report of each way in which a path can end.
//! - [`session`]: the session and its model.
//! - [`laws`]: what holds of every session, proved.

pub mod laws;
pub mod listing;
pub mod report;
pub mod session;
pub mod types;
pub mod wording;
