//! The ways in which a read or a decode fails.

use vstd::prelude::*;

verus! {

/// Why a read, or the decoding of what was read, failed.
#[derive(Clone, Copy, Debug, PartialEq, Eq, Structural)]
pub enum ProcessMemoryError {
    /// The operating system refused the read; `code` is its error code.
    CouldNotReadProcessMemory { code: i32 },
    /// The read did not return as many bytes as were asked for.
    NotEnoughBytes { expected: usize, actual: usize },
    /// The bytes of a string are not valid UTF-8.
    InvalidString,
    /// A string was required but its address was null.
    EmptyString,
    /// A record or table would lie past the end of the address space.
    AddressOverflow,
    /// A table's stored element count does not describe a table.
    InvalidCount { count: i32 },
}

} // verus!
