//! How a new intent is reconciled with a position that is already open.

use vstd::prelude::*;

verus! {

/// Instruction to the order manager on how to treat an existing position.
///
/// The tag is carried through unchanged; nothing in this crate interprets it.
#[derive(Debug, Clone, Copy, PartialEq, Eq, Structural)]
pub enum UpdatePolicy {
    /// Keep the existing position as it is.
    Retain,
    /// Keep the existing position only if it is long.
    RetainLong,
    /// Keep the existing position only if it is short.
    RetainShort,
    /// Replace the existing position by what the intent asks for.
    Update,
}

} // verus!
