//! The mathematical model of the machine: its state, the effect of each
//! instruction on it, one fetch-decode-execute step, and a bounded run.
//!
//! The engines are specified against this model, and the laws of the
//! instruction set are proved of it.

use vstd::prelude::*;
use crate::error::Error;
use crate::instruction::{bits_of, decode, Instruction};
use crate::memory::{load_at, max_words, store_at};
use crate::registers::Registers;
use crate::util::paired;
use crate::word::{quotient, remainder, wrap, Word};

verus! {

/// The number of steps after which a run returns though the program has not
/// halted: more than a machine performs in centuries.
pub const STEP_LIMIT: u64 = 0xffff_ffff_ffff_ffff;

/// The state of a machine.
pub struct Machine {
    pub registers: Registers,
    /// Set when the last compare found its operands equal.
    pub flag_zero: bool,
    /// Set when the last compare found the first operand less than the second.
    pub flag_carry: bool,
    pub memory: Seq<Word>,
    /// Whether the machine is between the start of a run and its halt or fault.
    pub running: bool,
}

/// A machine after an instruction, with whether the instruction succeeded.
pub type Effect = (Machine, Result<(), Error>);

/// A machine after a step. `Ok(true)`: go on; `Ok(false)`: halted.
pub type Transition = (Machine, Result<bool, Error>);

impl Machine {
    /// The machine's memory is no larger than a memory can be.
    pub open spec fn wf(self) -> bool {
        self.memory.len() <= max_words()
    }

    /// The value of the instruction pointer.
    pub open spec fn instr_pointer(self) -> Word {
        self.registers.instr_pointer
    }

    /// The address of the instruction that a machine whose pointer is
    /// already past it is executing: one before the instruction pointer.
    pub open spec fn origin(self) -> Word {
        wrap(self.instr_pointer() - 1)
    }

    /// The machine with other registers.
    pub open spec fn with_registers(self, registers: Registers) -> Machine {
        Machine { registers, ..self }
    }

    /// The machine with the instruction pointer at `target`.
    pub open spec fn at(self, target: Word) -> Machine {
        self.with_registers(self.registers.with_instr_pointer(target))
    }

    /// The machine with its running flag set to `running`.
    pub open spec fn with_running(self, running: bool) -> Machine {
        Machine { running, ..self }
    }

    /// An instruction that changes nothing and succeeds.
    pub open spec fn unchanged(self) -> Effect {
        (self, Ok(()))
    }

    /// An instruction that changes nothing and fails with `e`.
    pub open spec fn fault(self, e: Error) -> Effect {
        (self, Err(e))
    }

    /// Reading register operand `reg`.
    pub open spec fn read(self, reg: u8) -> Result<Word, Error> {
        self.registers.read_spec(reg as usize)
    }

    /// Reading the register operands `src1` and `src2`, in this order.
    pub open spec fn read_pair(self, src1: u8, src2: u8) -> Result<(Word, Word), Error> {
        paired(self.read(src1), self.read(src2))
    }

    /// Writing `data` to register operand `reg`.
    pub open spec fn write(self, reg: u8, data: Word) -> Effect {
        let (registers, result) = self.registers.write_spec(reg as usize, data);
        (self.with_registers(registers), result)
    }

    /// `load`: the immediate goes to the destination register.
    pub open spec fn load(self, value: Word, dest_reg: u8) -> Effect {
        self.write(dest_reg, value)
    }

    /// `copy`: the value of `src` goes to `dest`.
    pub open spec fn copy(self, src: u8, dest: u8) -> Effect {
        match self.read(src) {
            Ok(value) => self.write(dest, value),
            Err(e) => self.fault(e),
        }
    }

    /// `add`: the wrapped sum of `src1` and `src2` goes to `dest`.
    pub open spec fn sum(self, src1: u8, src2: u8, dest: u8) -> Effect {
        match self.read_pair(src1, src2) {
            Ok((v1, v2)) => self.write(dest, wrap(v1 + v2)),
            Err(e) => self.fault(e),
        }
    }

    /// `sub`: the wrapped difference of `src1` and `src2` goes to `dest`.
    pub open spec fn difference(self, src1: u8, src2: u8, dest: u8) -> Effect {
        match self.read_pair(src1, src2) {
            Ok((v1, v2)) => self.write(dest, wrap(v1 - v2)),
            Err(e) => self.fault(e),
        }
    }

    /// `mult`: the wrapped product of `src1` and `src2` goes to `dest`.
    pub open spec fn product(self, src1: u8, src2: u8, dest: u8) -> Effect {
        match self.read_pair(src1, src2) {
            Ok((v1, v2)) => self.write(dest, wrap(v1 * v2)),
            Err(e) => self.fault(e),
        }
    }

    /// `div`: a zero divisor fails with `DivisionByZero`, which carries the
    /// address of the instruction, before any destination is looked at.
    /// Otherwise the quotient goes to `quot_dest` and then the remainder to
    /// `rem_dest`. A refused quotient register ends the instruction before
    /// anything is written, a refused remainder register after the quotient
    /// is.
    pub open spec fn division(self, src1: u8, src2: u8, quot_dest: u8, rem_dest: u8) -> Effect {
        match self.read_pair(src1, src2) {
            Ok((v1, v2)) => if v2 == 0 {
                self.fault(Error::DivisionByZero { instr_pointer: self.origin() })
            } else {
                let (with_quotient, written) = self.write(
                    quot_dest,
                    wrap(quotient(v1 as int, v2 as int)),
                );
                match written {
                    Ok(()) => with_quotient.write(rem_dest, wrap(remainder(v1 as int, v2 as int))),
                    Err(e) => self.fault(e),
                }
            },
            Err(e) => self.fault(e),
        }
    }

    /// `cmp`: both flags are set anew from the values of `src1` and `src2`.
    pub open spec fn comparison(self, src1: u8, src2: u8) -> Effect {
        match self.read_pair(src1, src2) {
            Ok((v1, v2)) => (Machine { flag_zero: v1 == v2, flag_carry: v1 < v2, ..self }, Ok(())),
            Err(e) => self.fault(e),
        }
    }

    /// `jmp`: the value of `src` becomes the instruction pointer.
    pub open spec fn jump(self, src: u8) -> Effect {
        match self.read(src) {
            Ok(target) => (self.at(target), Ok(())),
            Err(e) => self.fault(e),
        }
    }

    /// A conditional jump: `jump` where `taken`, nothing otherwise. The
    /// register is not read where the jump is not taken.
    pub open spec fn jump_if(self, taken: bool, src: u8) -> Effect {
        if taken {
            self.jump(src)
        } else {
            self.unchanged()
        }
    }

    /// `inc`: `dest` goes up by one, wrapping.
    pub open spec fn increment(self, dest: u8) -> Effect {
        match self.read(dest) {
            Ok(value) => self.write(dest, wrap(value + 1)),
            Err(e) => self.fault(e),
        }
    }

    /// `dec`: `dest` goes down by one, wrapping.
    pub open spec fn decrement(self, dest: u8) -> Effect {
        match self.read(dest) {
            Ok(value) => self.write(dest, wrap(value - 1)),
            Err(e) => self.fault(e),
        }
    }

    /// `ldm`: the word in cell `src_addr` goes to `dest_reg`.
    pub open spec fn load_mem(self, src_addr: Word, dest_reg: u8) -> Effect {
        match load_at(self.memory, src_addr) {
            Ok(value) => self.write(dest_reg, value),
            Err(e) => self.fault(e),
        }
    }

    /// `strm`: the value of `src_reg` goes to cell `dest_addr`.
    pub open spec fn store_mem(self, src_reg: u8, dest_addr: Word) -> Effect {
        match self.read(src_reg) {
            Ok(value) => {
                let (memory, result) = store_at(self.memory, dest_addr, value);
                (Machine { memory, ..self }, result)
            },
            Err(e) => self.fault(e),
        }
    }

    /// The fault for a word that holds no assigned opcode. It carries the
    /// word and the address that the word was fetched from.
    pub open spec fn illegal(self, instruction: Word) -> Effect {
        self.fault(Error::IllegalOpcode { instruction, instr_pointer: self.origin() })
    }

    /// The effect of the instruction `instruction`, decoded from `word`, on
    /// a machine whose instruction pointer is already past it.
    pub open spec fn execute(self, instruction: Instruction, word: Word) -> Effect {
        match instruction {
            Instruction::Illegal => self.illegal(word),
            Instruction::Halt => self.unchanged(),
            Instruction::Load { value, dest_reg } => self.load(value, dest_reg),
            Instruction::Copy { src, dest } => self.copy(src, dest),
            Instruction::Add { src1, src2, dest } => self.sum(src1, src2, dest),
            Instruction::Sub { src1, src2, dest } => self.difference(src1, src2, dest),
            Instruction::Mult { src1, src2, dest } => self.product(src1, src2, dest),
            Instruction::Div { src1, src2, quot_dest, rem_dest } => self.division(
                src1,
                src2,
                quot_dest,
                rem_dest,
            ),
            Instruction::Cmp { src1, src2 } => self.comparison(src1, src2),
            Instruction::Jmp { src } => self.jump(src),
            Instruction::Jz { src } => self.jump_if(self.flag_zero, src),
            Instruction::Jnz { src } => self.jump_if(!self.flag_zero, src),
            Instruction::Jgt { src } => self.jump_if(!self.flag_carry, src),
            Instruction::Jlt { src } => self.jump_if(self.flag_carry, src),
            Instruction::Inc { dest } => self.increment(dest),
            Instruction::Dec { dest } => self.decrement(dest),
            Instruction::LoadMem { src_addr, dest_reg } => self.load_mem(src_addr, dest_reg),
            Instruction::StoreMem { src_reg, dest_addr } => self.store_mem(src_reg, dest_addr),
        }
    }

    /// The word that the instruction pointer names.
    pub open spec fn fetch(self) -> Result<Word, Error> {
        load_at(self.memory, self.instr_pointer())
    }

    /// The machine with the instruction pointer one further.
    pub open spec fn advanced(self) -> Machine {
        self.at((self.instr_pointer() + 1) as Word)
    }

    /// The result of a step that ran `instruction` with the effect `effect`:
    /// `halt` ends the run, a fault is attributed to the instruction at
    /// `origin`, anything else goes on.
    pub open spec fn conclude(instruction: Instruction, origin: Word, effect: Effect) -> Transition {
        (
            effect.0,
            match effect.1 {
                Ok(()) => Ok(!(instruction is Halt)),
                Err(e) => Err(e.located_at(origin)),
            },
        )
    }

    /// One step: fetch the word at the instruction pointer, advance the
    /// pointer, decode the word, execute the instruction. A failed fetch
    /// leaves the machine as it was; a failed instruction leaves the pointer
    /// advanced.
    pub open spec fn step(self) -> Transition {
        match self.fetch() {
            Ok(word) => {
                let instruction = decode(bits_of(word));
                Self::conclude(
                    instruction,
                    self.instr_pointer(),
                    self.advanced().execute(instruction, word),
                )
            },
            Err(e) => (self, Err(e)),
        }
    }

    /// A run of at most `fuel` steps from a running machine: it ends at the
    /// first halt or fault, which clear the running flag, or with the fuel,
    /// which leaves it set.
    pub open spec fn drive(self, fuel: nat) -> Effect
        decreases fuel,
    {
        if fuel == 0 || !self.running {
            self.unchanged()
        } else {
            let (next, outcome) = self.step();
            match outcome {
                Ok(true) => next.drive((fuel - 1) as nat),
                Ok(false) => next.with_running(false).unchanged(),
                Err(e) => next.with_running(false).fault(e),
            }
        }
    }
}

/// A step changes neither the running flag nor the size of the memory.
pub proof fn lemma_step_keeps_running(machine: Machine)
    ensures
        machine.step().0.running == machine.running,
        machine.step().0.memory.len() == machine.memory.len(),
{
}

} // verus!
