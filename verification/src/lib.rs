pub mod engine;
pub mod laws;
pub mod outside;
pub mod records;
pub mod search;
pub mod strutil;

use vstd::prelude::*;

verus! {

/// The failures an operation can report to its caller.
#[derive(Clone, Copy, PartialEq, Eq, Structural, Debug)]
pub enum OxError {
    /// `push` was called without any data.
    MissingInput,
    /// A directory or file could not be created, opened, or written.
    IOFailure,
    /// Stored content is not valid under the chosen codec.
    ParseFailure,
}

} // verus!
