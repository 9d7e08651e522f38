//! How a load goes on once the stored document was looked for.
//!
//! Reading and writing the document is the caller's part. What is decided
//! here is when there is a document to parse, and which failures are
//! reported while the work goes on with an empty list.

use vstd::prelude::*;

verus! {

/// The directory that holds the document, beside the running program.
pub const DIRECTORY: &'static str = "data";

/// The name of the document in that directory.
pub const DOCUMENT: &'static str = "todo.json";

/// What looking for the stored document gave, before any of it is read.
#[derive(Clone, Copy, Debug, PartialEq, Eq, Structural)]
pub enum Probe {
    /// The place of the document could not be found out, or its directory
    /// could not be made.
    NoPath,
    /// Nothing is stored at that place.
    Missing,
    /// A document is there, but it cannot be opened for reading.
    Unreadable,
    /// A document of `length` bytes is open for reading.
    Opened { length: u64 },
}

/// A failure that is reported and does not stop the command.
#[derive(Clone, Copy, Debug, PartialEq, Eq, Structural)]
pub enum LoadProblem {
    /// See [`Probe::NoPath`].
    Path,
    /// See [`Probe::Unreadable`].
    Open,
}

/// How to go on after the probe.
#[derive(Clone, Copy, Debug, PartialEq, Eq, Structural)]
pub enum LoadStep {
    /// The list is empty, and there is nothing to report.
    Empty,
    /// The problem is reported, and the list is taken to be empty.
    EmptyAfter(LoadProblem),
    /// The document is parsed. One that is malformed ends the program.
    Parse,
}

/// Decides how a load goes on.
///
/// Only a document that holds at least one byte is parsed. A missing one
/// and one of length zero both stand for the empty list.
pub fn load_step(probe: Probe) -> (step: LoadStep)
    ensures
        step == LoadStep::Parse <==> (probe matches Probe::Opened { length } && length > 0),
        step == LoadStep::Empty <==> probe == Probe::Missing || probe == (Probe::Opened {
            length: 0,
        }),
        step == LoadStep::EmptyAfter(LoadProblem::Path) <==> probe == Probe::NoPath,
        step == LoadStep::EmptyAfter(LoadProblem::Open) <==> probe == Probe::Unreadable,
{
    match probe {
        Probe::NoPath => LoadStep::EmptyAfter(LoadProblem::Path),
        Probe::Missing => LoadStep::Empty,
        Probe::Unreadable => LoadStep::EmptyAfter(LoadProblem::Open),
        Probe::Opened { length } => {
            if length == 0 {
                LoadStep::Empty
            } else {
                LoadStep::Parse
            }
        },
    }
}

} // verus!
