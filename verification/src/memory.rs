//! What is known of the memory that a computation reads.
//!
//! Frames are described by rules such as "the word 16 bytes below the frame's
//! address". A computation that needs a word takes it from here. Where the word
//! is not known it stops with [`Halt::Missing`]; whoever can read memory then
//! adds the word and starts the computation again.

use std::collections::HashMap;
use vstd::prelude::*;
use crate::encoding::Pointer;
use crate::error::Halt;

verus! {

broadcast use vstd::std_specs::hash::group_hash_axioms;

/// Words of memory, by their addresses.
pub struct Memory {
    words: HashMap<usize, usize>,
}

/// The words that are known, by their addresses.
pub type Words = Map<usize, usize>;

impl View for Memory {
    type V = Words;

    closed spec fn view(&self) -> Words {
        self.words@
    }
}

/// The word at `addr`.
pub open spec fn word_at(words: Words, addr: usize) -> Result<usize, Halt> {
    if words.contains_key(addr) {
        Ok(words[addr])
    } else {
        Err(Halt::Missing(addr))
    }
}

impl Memory {
    /// No word is known.
    pub fn new() -> (r: Self)
        ensures
            r@ == Words::empty(),
    {
        Memory { words: HashMap::new() }
    }

    /// From now on the word at `addr` is `value`.
    pub fn insert(&mut self, addr: usize, value: usize)
        ensures
            final(self)@ == old(self)@.insert(addr, value),
    {
        self.words.insert(addr, value);
    }

    /// The word at `addr`.
    pub fn read(&self, addr: usize) -> (r: Result<usize, Halt>)
        ensures
            r == word_at(self@, addr),
    {
        match self.words.get(&addr) {
            Some(value) => Ok(*value),
            None => Err(Halt::Missing(addr)),
        }
    }
}

/// A word that was added is the one that is read, and no other word is changed.
pub proof fn law_reads_give_back_what_was_inserted(
    words: Words,
    addr: usize,
    value: usize,
    other: usize,
)
    ensures
        word_at(words.insert(addr, value), addr) == Ok::<usize, Halt>(value),
        other != addr ==> word_at(words.insert(addr, value), other) == word_at(words, other),
{
}

/// The address that `pointer` leads to.
pub open spec fn target(pointer: Pointer, words: Words) -> Result<usize, Halt> {
    match pointer {
        Pointer::Direct(x) => Ok(x as usize),
        Pointer::Indirect(x) => word_at(words, x as usize),
    }
}

/// The address that `ptr` leads to.
pub fn deref_pointer(ptr: Pointer, memory: &Memory) -> (r: Result<usize, Halt>)
    ensures
        r == target(ptr, memory@),
{
    match ptr {
        Pointer::Direct(x) => Ok(x as usize),
        Pointer::Indirect(x) => memory.read(x as usize),
    }
}

/// A word that is known is read as it is, and one that is not is asked for by its own
/// address.
pub proof fn law_known_words_are_read(words: Words, addr: usize)
    ensures
        words.contains_key(addr) ==> word_at(words, addr) == Ok::<usize, Halt>(words[addr]),
        !words.contains_key(addr) ==> word_at(words, addr) == Err::<usize, Halt>(
            Halt::Missing(addr),
        ),
{
}

/// A direct pointer leads to its own address, whatever is in memory, and an indirect one to
/// the word at its address.
pub proof fn law_pointers_lead(x: u64, words: Words)
    ensures
        target(Pointer::Direct(x), words) == Ok::<usize, Halt>(x as usize),
        words.contains_key(x as usize) ==> target(Pointer::Indirect(x), words) == Ok::<usize, Halt>(
            words[x as usize],
        ),
        !words.contains_key(x as usize) ==> target(Pointer::Indirect(x), words) == Err::<
            usize,
            Halt,
        >(Halt::Missing(x as usize)),
{
}

} // verus!
