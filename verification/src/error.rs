//! The faults that the machine reports.

use vstd::prelude::*;
use crate::word::Word;

verus! {

/// A fault, with what is needed to find the instruction that raised it.
#[derive(Debug, Clone, Copy, PartialEq, Eq, Structural)]
pub enum Error {
    /// The word at `instr_pointer` holds no assigned opcode.
    IllegalOpcode { instruction: Word, instr_pointer: Word },
    /// Register `number` does not exist, or cannot be written.
    InvalidRegister { number: usize, instr_pointer: Word },
    /// A division whose divisor register holds zero.
    DivisionByZero { instr_pointer: Word },
    /// A memory access outside `0..upper_bound`.
    InvalidMemoryAddress { requested_address: usize, upper_bound: usize },
}

impl Error {
    /// This fault as raised by the instruction at `origin`: the faults that
    /// carry an instruction pointer carry `origin`, a memory fault is unchanged.
    pub open spec fn located_at(self, origin: Word) -> Error {
        match self {
            Error::IllegalOpcode { instruction, .. } => Error::IllegalOpcode {
                instruction,
                instr_pointer: origin,
            },
            Error::InvalidRegister { number, .. } => Error::InvalidRegister {
                number,
                instr_pointer: origin,
            },
            Error::DivisionByZero { .. } => Error::DivisionByZero { instr_pointer: origin },
            Error::InvalidMemoryAddress { .. } => self,
        }
    }

    /// Attributes the fault to the instruction at `origin`.
    pub fn at(self, origin: Word) -> (e: Error)
        ensures
            e == self.located_at(origin),
    {
        match self {
            Error::IllegalOpcode { instruction, .. } => Error::IllegalOpcode {
                instruction,
                instr_pointer: origin,
            },
            Error::InvalidRegister { number, .. } => Error::InvalidRegister {
                number,
                instr_pointer: origin,
            },
            Error::DivisionByZero { .. } => Error::DivisionByZero { instr_pointer: origin },
            Error::InvalidMemoryAddress { requested_address, upper_bound } => {
                Error::InvalidMemoryAddress { requested_address, upper_bound }
            },
        }
    }
}

} // verus!
