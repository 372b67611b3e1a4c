//! The defects resolution and decoding report.  Every failure is fatal to
//! the call that hit it; the kind lets a caller tell a malformed graph from
//! a combination that is not implemented.

use vstd::prelude::*;

verus! {

/// The failure conditions of resolution and of the graph codec.
#[derive(Debug, Clone, Copy, PartialEq, Eq, Structural)]
pub enum EngineError {
    /// A tagged instance was unwrapped against a tag that does not match
    /// its held variant.
    TypeMismatch,
    /// A combine node saw a tag pair outside its legal table, or an
    /// operator was asked to produce a tag it has no specialization for.
    UnsupportedTagCombination,
    /// A node's declared child list is shorter than its contract requires.
    MissingSource,
    /// A persisted record held an unknown discriminator or was structurally
    /// invalid.
    DecodeError,
}

} // verus!
