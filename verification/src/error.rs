//! What can go wrong: errors that a caller can recover from, and violations
//! of the engine's interface, from which nobody can.

use vstd::prelude::*;

verus! {

/// Why a model could not be loaded.
#[derive(Debug, Clone, Copy, PartialEq, Eq, Structural)]
pub enum AprilError {
    /// The path does not name an existing file. The engine was not asked.
    FileNotFound,
    /// The file exists, but the engine did not accept it as a model.
    InvalidModel,
}

/// A result record that breaks the interface between the engine and this
/// library.
///
/// Such a record means that the two were built against different versions of
/// the interface. There is nothing to recover: whoever receives one stops.
#[derive(Debug, Clone, Copy, PartialEq, Eq, Structural)]
pub enum ProtocolViolation {
    /// The type of the result is none of the known ones.
    UnknownResultType,
    /// The text of the token at `index` is not UTF-8.
    InvalidTokenText { index: usize },
    /// The flag of the token at `index` is none of the known ones.
    UnknownTokenFlag { index: usize },
}

} // verus!
