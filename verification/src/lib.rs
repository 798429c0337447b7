//! A minimal stack-based bytecode interpreter: a linear sequence of
//! single-byte opcodes is executed against a bounded operand stack and a
//! sparse word-addressable memory, producing a success flag and a return
//! value.
//!
//! The crate is organised around the execution engine:
//! - [`word`]: the fixed-width `Word` value type and its arithmetic rules;
//! - [`stack`]: the bounded last-in-first-out operand stack;
//! - [`memory`]: the sparse offset-to-word memory with a free-memory pointer;
//! - [`execution`]: the instruction table and the fetch-decode-execute loop.
use vstd::prelude::*;

pub mod execution;
pub mod laws;
pub mod memory;
pub mod stack;
pub mod word;

verus! {

/// The kinds of fault that halt an execution. Every fault is fatal to the
/// current execution; none is retried or papered over with a default value.
#[derive(Clone, Copy, Debug, PartialEq, Eq, Structural)]
pub enum VmError {
    /// A value was popped from an empty stack.
    StackUnderflow,
    /// A value was pushed onto a stack already at its maximum depth.
    StackOverflow,
    /// A memory offset was read before ever being written.
    UninitializedRead,
    /// An instruction with an inline operand sat at the end of the code
    /// buffer with no operand byte following it.
    TruncatedOperand,
    /// An arithmetic result fell outside the representable range of `Word`.
    ArithmeticUnderflow,
    /// A division had a zero divisor.
    DivisionByZero,
    /// A stack position beyond the current depth was addressed, or an
    /// offset that names no memory cell.
    IndexOutOfRange,
}

} // verus!
