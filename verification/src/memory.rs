//! The machine's memory: a flat array of words, addressed in words.

use vstd::prelude::*;
use crate::error::Error;
use crate::word::Word;

verus! {

/// The largest number of words a memory can hold: a byte count that fits in
/// `usize`, divided by the eight bytes of a word.
pub open spec fn max_words() -> int {
    usize::MAX as int / 8
}

/// The fault for an access to `address` of a memory of `length` words.
pub open spec fn out_of_bounds(address: usize, length: nat) -> Error {
    Error::InvalidMemoryAddress { requested_address: address, upper_bound: length as usize }
}

/// What reading cell `address` of `memory` returns.
pub open spec fn read_at(memory: Seq<Word>, address: usize) -> Result<Word, Error> {
    if address < memory.len() {
        Ok(memory[address as int])
    } else {
        Err(out_of_bounds(address, memory.len()))
    }
}

/// What writing `data` to cell `address` of `memory` leaves and returns.
pub open spec fn write_at(memory: Seq<Word>, address: usize, data: Word) -> (
    Seq<Word>,
    Result<(), Error>,
) {
    if address < memory.len() {
        (memory.update(address as int, data), Ok(()))
    } else {
        (memory, Err(out_of_bounds(address, memory.len())))
    }
}

/// Whether the word `address` names a cell of `memory`. A negative word
/// names none.
pub open spec fn is_address(memory: Seq<Word>, address: Word) -> bool {
    0 <= address < memory.len()
}

/// What reading the cell that the word `address` names returns. The fault
/// for a word that names no cell carries the word narrowed to `usize`.
pub open spec fn load_at(memory: Seq<Word>, address: Word) -> Result<Word, Error> {
    if is_address(memory, address) {
        Ok(memory[address as int])
    } else {
        Err(out_of_bounds(address as usize, memory.len()))
    }
}

/// What writing `data` to the cell that the word `address` names leaves and
/// returns.
pub open spec fn store_at(memory: Seq<Word>, address: Word, data: Word) -> (
    Seq<Word>,
    Result<(), Error>,
) {
    if is_address(memory, address) {
        (memory.update(address as int, data), Ok(()))
    } else {
        (memory, Err(out_of_bounds(address as usize, memory.len())))
    }
}

/// A memory of words, zeroed when it is made. Its view is the sequence of
/// its cells.
pub struct Memory {
    buffer: Vec<Word>,
}

impl View for Memory {
    type V = Seq<Word>;

    closed spec fn view(&self) -> Seq<Word> {
        self.buffer@
    }
}

impl Memory {
    /// The size of a default memory, in bytes: 2 MiB, 262,144 words.
    pub const DEFAULT_MEMORY_SIZE_BYTES: usize = 2097152;

    /// No memory holds more than `max_words()` words.
    #[verifier::type_invariant]
    pub open spec fn inv(&self) -> bool {
        self@.len() <= max_words()
    }

    /// A zeroed memory of `size_bytes / 8` words.
    pub fn new_with_size(size_bytes: usize) -> (memory: Self)
        ensures
            memory@ == Seq::new((size_bytes / 8) as nat, |i: int| 0i64),
    {
        let mem_vec_size = size_bytes / 8;
        let memory = Memory { buffer: vec![0; mem_vec_size] };
        assert(memory@ =~= Seq::new((size_bytes / 8) as nat, |i: int| 0i64));
        memory
    }

    /// The number of words.
    pub fn len(&self) -> (length: usize)
        ensures
            length == self@.len(),
            length <= max_words(),
    {
        proof {
            use_type_invariant(self);
        }
        self.buffer.len()
    }

    /// Stores `data` in cell `address`, or refuses an address past the end.
    pub fn write(&mut self, address: usize, data: Word) -> (r: Result<(), Error>)
        ensures
            (final(self)@, r) == write_at(old(self)@, address, data),
    {
        if address >= self.buffer.len() {
            Err(
                Error::InvalidMemoryAddress {
                    requested_address: address,
                    upper_bound: self.buffer.len(),
                },
            )
        } else {
            proof {
                use_type_invariant(&*self);
            }
            self.buffer[address] = data;
            Ok(())
        }
    }

    /// The word in cell `address`, or the fault for an address past the end.
    pub fn read(&self, address: usize) -> (r: Result<Word, Error>)
        ensures
            r == read_at(self@, address),
    {
        if address >= self.buffer.len() {
            Err(
                Error::InvalidMemoryAddress {
                    requested_address: address,
                    upper_bound: self.buffer.len(),
                },
            )
        } else {
            Ok(self.buffer[address])
        }
    }

    /// The word in the cell that the word `address` names, or the fault for
    /// a word that names none.
    pub fn load(&self, address: Word) -> (r: Result<Word, Error>)
        ensures
            r == load_at(self@, address),
    {
        let upper_bound = self.buffer.len();
        if address < 0 || address as u64 >= upper_bound as u64 {
            Err(
                Error::InvalidMemoryAddress {
                    requested_address: #[verifier::truncate] (address as usize),
                    upper_bound,
                },
            )
        } else {
            Ok(self.buffer[address as usize])
        }
    }

    /// Stores `data` in the cell that the word `address` names, or refuses a
    /// word that names none.
    pub fn store(&mut self, address: Word, data: Word) -> (r: Result<(), Error>)
        ensures
            (final(self)@, r) == store_at(old(self)@, address, data),
    {
        let upper_bound = self.buffer.len();
        if address < 0 || address as u64 >= upper_bound as u64 {
            Err(
                Error::InvalidMemoryAddress {
                    requested_address: #[verifier::truncate] (address as usize),
                    upper_bound,
                },
            )
        } else {
            proof {
                use_type_invariant(&*self);
            }
            self.buffer[address as usize] = data;
            Ok(())
        }
    }
}

impl Default for Memory {
    /// A zeroed memory of the default size.
    fn default() -> (memory: Self)
        ensures
            memory@ == Seq::new(262144, |i: int| 0i64),
    {
        Self::new_with_size(Self::DEFAULT_MEMORY_SIZE_BYTES)
    }
}

} // verus!
