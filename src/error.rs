use vstd::prelude::*;

verus! {

/// The faults that abort a pipeline tick.
#[derive(Debug, Clone, Copy, PartialEq, Eq, Structural)]
pub enum ExecutionError {
    /// An access touched a byte at or beyond the end of a store.
    AddressOutOfBounds { address: u32, memory_size: usize },
    /// Write-back targeted a protected register.
    InvalidRegisterWrite,
    /// The opcode field of a fetched word is not in the opcode table.
    InvalidOpcode(u32),
    /// The function field of an arithmetic/logic word names no operation.
    InvalidFunction(u32),
}

} // verus!
