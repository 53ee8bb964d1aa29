//! The frame a new image finds on its stack.
use vstd::prelude::*;

verus! {

/// Ends the auxiliary vector.
pub const AT_NULL: u64 = 0;

/// Address of the program headers.
pub const AT_PHDR: u64 = 3;

/// Bytes in one program header.
pub const AT_PHENT: u64 = 4;

/// Number of program headers.
pub const AT_PHNUM: u64 = 5;

/// Bytes in a page.
pub const AT_PAGESZ: u64 = 6;

/// Alignment of the stack pointer at entry.
pub const STACK_ALIGN: u64 = 16;

/// Exit status of a program that found its frame in order. Not zero: a program
/// that died before it could tell leaves zero behind.
pub const EXEC_STACK_PROBE_PASS: i32 = 90;

} // verus!
