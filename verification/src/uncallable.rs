//! An object that can be constructed and holds nothing.

use vstd::prelude::*;
use crate::argument::Argument;

verus! {

/// What `snarf` returns.
pub const SNARF_RESULT: i32 = 42;

/// A native object without state. The host only ever constructs it: there is
/// no operation for invoking its constructor as a plain function.
#[derive(Debug, Clone, Copy, PartialEq, Eq, Structural)]
pub struct Uncallable {}

impl Uncallable {
    /// Constructs the object. Succeeds whatever the arguments.
    pub fn construct(args: &Vec<Argument>) -> (u: Uncallable)
        ensures
            u == (Uncallable {}),
    {
        Uncallable {}
    }

    /// The `snarf` operation: always `SNARF_RESULT`.
    pub fn snarf(&self) -> (n: i32)
        ensures
            n == SNARF_RESULT,
            n == 42,
    {
        SNARF_RESULT
    }
}

} // verus!
