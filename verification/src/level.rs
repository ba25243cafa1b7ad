//! Severity of a log record.

use vstd::prelude::*;

verus! {

/// The severity at which a record is logged, from the most important
/// (`Error`) to the most verbose (`Trace`).
#[derive(Clone, Copy, Debug, PartialEq, Eq, Hash, Structural)]
pub enum Level {
    Error,
    Warn,
    Info,
    Debug,
    Trace,
}

} // verus!
