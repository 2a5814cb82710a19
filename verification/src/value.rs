//! The payload that travels beside a resource type code.

use vstd::prelude::*;

verus! {

/// What identifies one resource to the tracer: a number, or the address of
/// the resource. It carries no code of its own; the code that is paired with
/// it says which of the two it is meant to be.
///
/// An address is held as a number and is never read through.
#[derive(Clone, Copy, Debug, PartialEq, Eq, Structural)]
pub enum ResourceValue {
    /// The integer field of the tracer's payload.
    Integer(u64),
    /// The pointer field of the tracer's payload.
    Pointer(usize),
}

} // verus!
