//! The ways in which the greeter can fail.

use vstd::prelude::*;

verus! {

/// Why a call was abandoned. Every failure ends the call that met it:
/// nothing is retried, and a cell that was open holds what it held before.
#[derive(Debug, Clone, Copy, PartialEq, Eq, Structural)]
pub enum GreeterError {
    /// The argument bytes are not an encoded optional text.
    Decode,
    /// The stable memory refused the cell or the value.
    Storage,
}

} // verus!
