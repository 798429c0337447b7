//! The operand stack: a bounded last-in-first-out sequence of words.
//!
//! The stack is indexed from the bottom: position 0 is the oldest value
//! still present. Its depth never exceeds [`MAX_STACK_SIZE`]; pushing at
//! capacity and popping when empty are faults, never silent no-ops.
use crate::word::Word;
use crate::VmError;
use vstd::prelude::*;

verus! {

/// The maximum number of words the stack may hold at once.
pub const MAX_STACK_SIZE: usize = 1024;

/// A bounded last-in-first-out sequence of words.
///
/// Viewed as a `Seq<Word>` whose first element is the bottom of the stack
/// and whose last element is the top.
pub struct Stack {
    data: Vec<Word>,
}

impl View for Stack {
    type V = Seq<Word>;

    closed spec fn view(&self) -> Seq<Word> {
        self.data@
    }
}

impl Stack {
    /// Creates an empty stack.
    pub fn new() -> (s: Stack)
        ensures
            s@ == Seq::<Word>::empty(),
    {
        Stack { data: Vec::new() }
    }

    /// The number of words currently on the stack.
    pub fn len(&self) -> (n: usize)
        ensures
            n == self@.len(),
    {
        self.data.len()
    }

    /// Appends `val` at the top, unless the stack is already at capacity,
    /// in which case it fails with `StackOverflow` and leaves the stack
    /// unchanged.
    pub fn push(&mut self, val: Word) -> (r: Result<(), VmError>)
        ensures
            old(self)@.len() < MAX_STACK_SIZE ==> r == Ok::<(), VmError>(()) && final(self)@
                == old(self)@.push(val),
            old(self)@.len() >= MAX_STACK_SIZE ==> r == Err::<(), VmError>(
                VmError::StackOverflow,
            ) && final(self)@ == old(self)@,
    {
        if self.data.len() >= MAX_STACK_SIZE {
            Err(VmError::StackOverflow)
        } else {
            self.data.push(val);
            Ok(())
        }
    }

    /// Removes and returns the top value; fails with `StackUnderflow` on an
    /// empty stack, leaving it unchanged.
    pub fn pop(&mut self) -> (r: Result<Word, VmError>)
        ensures
            old(self)@.len() > 0 ==> r == Ok::<Word, VmError>(old(self)@.last()) && final(self)@
                == old(self)@.drop_last(),
            old(self)@.len() == 0 ==> r == Err::<Word, VmError>(VmError::StackUnderflow) && final(self)@
                == old(self)@,
    {
        if self.data.len() == 0 {
            Err(VmError::StackUnderflow)
        } else {
            let v = self.data.pop().unwrap();
            Ok(v)
        }
    }

    /// Returns, without removing it, the value at absolute position `pos`
    /// from the bottom; fails with `IndexOutOfRange` if `pos` is at or
    /// beyond the current depth.
    pub fn get(&self, pos: usize) -> (r: Result<Word, VmError>)
        ensures
            pos < self@.len() ==> r == Ok::<Word, VmError>(self@[pos as int]),
            pos >= self@.len() ==> r == Err::<Word, VmError>(VmError::IndexOutOfRange),
    {
        if pos < self.data.len() {
            Ok(self.data[pos])
        } else {
            Err(VmError::IndexOutOfRange)
        }
    }
}

} // verus!
