//! The addressable memory: a sparse mapping from non-negative offsets to
//! words, plus a monotonically-advancing free-memory pointer.
//!
//! Offsets are word-granular: every access reads or writes one whole word
//! at one offset. Reading an offset that was never written is a fault
//! (`UninitializedRead`), not a zero default. The free-memory pointer
//! (fmp) starts past a reserved scratch region and is persisted by the
//! constructor into a fixed slot of that region, so the layout describes
//! itself: the first stored word records the next free offset.
use crate::word::Word;
use crate::VmError;
use std::collections::HashMap;
use vstd::prelude::*;

verus! {

broadcast use vstd::std_specs::hash::group_hash_axioms;

/// The width of one word in address units; `store` advances the
/// free-memory pointer by this much.
pub const WORD_WIDTH: u64 = 0x20;

/// The offset holding the initial free-memory pointer, inside the scratch
/// region.
pub const FMP_SLOT: u64 = 0x40;

/// The initial free-memory pointer: the first offset past the reserved
/// scratch region `[0, 0x60)`.
pub const INITIAL_FMP: u64 = 0x60;

/// A sparse mapping from offset to word, with a free-memory pointer for
/// bump-allocated writes.
///
/// Viewed as a `Map<u64, Word>` whose domain is exactly the set of
/// offsets written so far.
pub struct Memory {
    data: HashMap<u64, Word>,
    fmp: u64,
}

impl View for Memory {
    type V = Map<u64, Word>;

    closed spec fn view(&self) -> Map<u64, Word> {
        self.data@
    }
}

impl Memory {
    /// The next offset a bump-allocated `store` will write to.
    pub closed spec fn spec_fmp(&self) -> u64 {
        self.fmp
    }

    /// Creates a memory whose free-memory pointer sits just past the
    /// scratch region, with that pointer's value persisted at `FMP_SLOT`
    /// as the only initialized cell.
    pub fn new() -> (m: Memory)
        ensures
            m@ == Map::<u64, Word>::empty().insert(FMP_SLOT, INITIAL_FMP as Word),
            m.spec_fmp() == INITIAL_FMP,
    {
        let mut mem = Memory { data: HashMap::new(), fmp: INITIAL_FMP };
        mem.store_at(FMP_SLOT, INITIAL_FMP as Word);
        mem
    }

    /// Writes `val` at `offset`, overwriting any earlier value there; the
    /// free-memory pointer is untouched.
    pub fn store_at(&mut self, offset: u64, val: Word)
        ensures
            final(self)@ == old(self)@.insert(offset, val),
            final(self).spec_fmp() == old(self).spec_fmp(),
    {
        self.data.insert(offset, val);
    }

    /// Writes `val` at the free-memory pointer, then advances the pointer
    /// by one word width.
    pub fn store(&mut self, val: Word)
        requires
            old(self).spec_fmp() + WORD_WIDTH <= u64::MAX,
        ensures
            final(self)@ == old(self)@.insert(old(self).spec_fmp(), val),
            final(self).spec_fmp() == old(self).spec_fmp() + WORD_WIDTH,
    {
        self.data.insert(self.fmp, val);
        self.fmp = self.fmp + WORD_WIDTH;
    }

    /// Reads the word at `offset`; an offset never written is an
    /// `UninitializedRead` fault.
    pub fn load(&self, offset: u64) -> (r: Result<Word, VmError>)
        ensures
            self@.contains_key(offset) ==> r == Ok::<Word, VmError>(self@[offset]),
            !self@.contains_key(offset) ==> r == Err::<Word, VmError>(VmError::UninitializedRead),
    {
        match self.data.get(&offset) {
            Some(v) => Ok(*v),
            None => Err(VmError::UninitializedRead),
        }
    }
}

} // verus!
