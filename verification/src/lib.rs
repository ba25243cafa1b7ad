//! Tracing for poll-driven units: the records that surround each poll of a
//! wrapped future or stream, and the rules by which they are made.
//!
//! A [`Trace`] wraps a unit without changing what it does. Each poll is
//! bracketed by a [`Span`]: entering it yields the record that announces
//! the poll, leaving it yields the record that reports the result, and hands
//! the result back untouched. Writing the records to a log, and polling the
//! unit in between, is left to the caller.

pub mod level;
pub mod record;
pub mod render;
pub mod run;
pub mod span;
pub mod trace;

pub use level::Level;
pub use record::Record;
pub use span::Span;
pub use trace::Trace;
