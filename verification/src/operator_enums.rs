//! Enumerations that describe operands.
use vstd::prelude::*;

verus! {

/// The type of one element of a tensor.
#[derive(Clone, Copy, Debug, PartialEq, Eq, Structural)]
pub enum MLOperandDataType {
    Float32,
    Float16,
    Int32,
    Uint32,
    Int64,
    Uint64,
    Int8,
    Uint8,
}

} // verus!
