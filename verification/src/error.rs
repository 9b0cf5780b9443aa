use vstd::prelude::*;

verus! {

/// Why a cursor operation could not be carried out.
#[derive(Clone, Copy, Debug, PartialEq, Eq, Structural)]
pub enum CursorError {
    /// The operation needs the position before position 0.
    OutOfRange,
}

} // verus!
