//! The register file: four data registers and the instruction pointer.

use vstd::prelude::*;
use crate::error::Error;
use crate::word::Word;

verus! {

/// The register file. Indices 0 to 3 name the data registers, index 4 the
/// instruction pointer, which can be read by index but not written.
#[derive(Debug, Clone, Copy, PartialEq, Eq, Structural)]
pub struct Registers {
    pub data0: Word,
    pub data1: Word,
    pub data2: Word,
    pub data3: Word,
    pub instr_pointer: Word,
}

impl Default for Registers {
    /// A register file with every register zero.
    fn default() -> (r: Self)
        ensures
            r == Registers::zeroed(),
    {
        Registers { data0: 0, data1: 0, data2: 0, data3: 0, instr_pointer: 0 }
    }
}

impl Registers {
    /// The register file with every register zero.
    pub open spec fn zeroed() -> Registers {
        Registers { data0: 0, data1: 0, data2: 0, data3: 0, instr_pointer: 0 }
    }

    /// Whether `index` names a register that can be read.
    pub open spec fn is_readable(index: int) -> bool {
        0 <= index <= 4
    }

    /// Whether `index` names a register that can be written.
    pub open spec fn is_writable(index: int) -> bool {
        0 <= index <= 3
    }

    /// The value of register `index`.
    pub open spec fn value_at(self, index: int) -> Word
        recommends
            Self::is_readable(index),
    {
        if index == 0 {
            self.data0
        } else if index == 1 {
            self.data1
        } else if index == 2 {
            self.data2
        } else if index == 3 {
            self.data3
        } else {
            self.instr_pointer
        }
    }

    /// The register file with data register `index` set to `data`.
    pub open spec fn with_value(self, index: int, data: Word) -> Registers
        recommends
            Self::is_writable(index),
    {
        if index == 0 {
            Registers { data0: data, ..self }
        } else if index == 1 {
            Registers { data1: data, ..self }
        } else if index == 2 {
            Registers { data2: data, ..self }
        } else {
            Registers { data3: data, ..self }
        }
    }

    /// The register file with the instruction pointer set to `target`.
    pub open spec fn with_instr_pointer(self, target: Word) -> Registers {
        Registers { instr_pointer: target, ..self }
    }

    /// The fault for an access to register `index`, which carries the
    /// instruction pointer as the register file holds it.
    pub open spec fn invalid(self, index: usize) -> Error {
        Error::InvalidRegister { number: index, instr_pointer: self.instr_pointer }
    }

    /// What `read` returns.
    pub open spec fn read_spec(self, index: usize) -> Result<Word, Error> {
        if Self::is_readable(index as int) {
            Ok(self.value_at(index as int))
        } else {
            Err(self.invalid(index))
        }
    }

    /// What `write` leaves and returns.
    pub open spec fn write_spec(self, index: usize, data: Word) -> (Registers, Result<(), Error>) {
        if Self::is_writable(index as int) {
            (self.with_value(index as int, data), Ok(()))
        } else {
            (self, Err(self.invalid(index)))
        }
    }

    /// Stores `data` in data register `index`. Any other index, the
    /// instruction pointer's too, is refused and the file is left as it was.
    pub fn write(&mut self, index: usize, data: Word) -> (r: Result<(), Error>)
        ensures
            (*final(self), r) == old(self).write_spec(index, data),
    {
        match index {
            0 => {
                self.data0 = data;
                Ok(())
            },
            1 => {
                self.data1 = data;
                Ok(())
            },
            2 => {
                self.data2 = data;
                Ok(())
            },
            3 => {
                self.data3 = data;
                Ok(())
            },
            _ => Err(Error::InvalidRegister { number: index, instr_pointer: self.instr_pointer }),
        }
    }

    /// The value of register `index`, for the indices 0 to 4.
    pub fn read(&self, index: usize) -> (r: Result<Word, Error>)
        ensures
            r == self.read_spec(index),
    {
        match index {
            0 => Ok(self.data0),
            1 => Ok(self.data1),
            2 => Ok(self.data2),
            3 => Ok(self.data3),
            4 => Ok(self.instr_pointer),
            _ => Err(Error::InvalidRegister { number: index, instr_pointer: self.instr_pointer }),
        }
    }

    /// The index that a register operand names.
    pub fn index_of(reg: u8) -> (index: usize)
        ensures
            index == reg,
    {
        reg as usize
    }
}

/// A write changes the register it names and no other, the instruction
/// pointer included.
pub proof fn lemma_write_frame(registers: Registers, index: usize, data: Word, other: int)
    requires
        Registers::is_writable(index as int),
        Registers::is_readable(other),
    ensures
        registers.write_spec(index, data).1 is Ok,
        registers.write_spec(index, data).0.value_at(other) == if other == index {
            data
        } else {
            registers.value_at(other)
        },
{
}

/// A refused write changes nothing.
pub proof fn lemma_write_refused(registers: Registers, index: usize, data: Word)
    requires
        !Registers::is_writable(index as int),
    ensures
        registers.write_spec(index, data) == (registers, Err::<(), Error>(registers.invalid(index))),
{
}

} // verus!
