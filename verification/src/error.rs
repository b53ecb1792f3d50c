//! The error kinds that console operations report.

use vstd::prelude::*;

verus! {

/// Every failure a console operation can surface.
///
/// - `IoFailure`: a lower-level input/output fault (terminal or filesystem).
/// - `InvalidInput`: an expected/found mismatch, used both for malformed
///   terminal lines and for unreadable input.
/// - `MalformedAutomation`: an automation file whose content does not follow
///   the schema; carries a human-readable schema hint.
/// - `TraversalCorrupted`: a cursor contradiction or a tree/indexing
///   inconsistency found while walking the automation tree.
/// - `Exhausted`: no next node is available and no cycles remain.
/// - `Unknown`: a catch-all that a correct console never produces.
#[derive(Debug)]
pub enum DataError {
    IoFailure(String),
    InvalidInput { expected: String, found: String },
    MalformedAutomation(String),
    TraversalCorrupted(String),
    Exhausted,
    Unknown,
}

} // verus!
