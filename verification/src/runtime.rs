//! The checked execution engine and its builder.
//!
//! A `Runtime` owns registers, flags and memory, and runs the program that
//! lies in its memory from address 0. Every fault is returned as an `Error`;
//! nothing here panics.
//!
//! An instruction executes with the instruction pointer already past it. The
//! faults that the engine raises itself, `DivisionByZero` and `IllegalOpcode`,
//! carry the address of the instruction, one before the pointer. A fault of
//! the register file carries the pointer as the file holds it, and the step
//! attributes it to the instruction.

use vstd::prelude::*;
use crate::error::Error;
use crate::instruction::Instruction;
use crate::machine::{lemma_step_keeps_running, Machine, STEP_LIMIT};
use crate::memory::{out_of_bounds, Memory};
use crate::registers::Registers;
use crate::util::pair_result;
use crate::word::{wrapping_difference, wrapping_division, wrapping_product, wrapping_sum, Word};

verus! {

/// `memory` with `program` laid over its first cells.
pub open spec fn installed(memory: Seq<Word>, program: Seq<Word>) -> Seq<Word>
    recommends
        program.len() <= memory.len(),
{
    program + memory.subrange(program.len() as int, memory.len() as int)
}

/// Assembles a `Runtime` from registers, a memory and a program image.
pub struct RuntimeBuilder {
    pub registers: Registers,
    pub memory: Memory,
}

impl RuntimeBuilder {
    /// A builder with zeroed registers, a zeroed memory of the default size
    /// and no program.
    pub fn new() -> (builder: Self)
        ensures
            builder.registers == Registers::zeroed(),
            builder.memory@ == Seq::new(262144, |i: int| 0i64),
    {
        Self { registers: Registers::default(), memory: Memory::default() }
    }

    /// Replaces the initial registers.
    pub fn with_registers(self, registers: Registers) -> (builder: Self)
        ensures
            builder.registers == registers,
            builder.memory == self.memory,
    {
        let mut builder = self;
        builder.registers = registers;
        builder
    }

    /// Replaces the memory, and with it any program installed before.
    pub fn with_memory(self, memory: Memory) -> (builder: Self)
        ensures
            builder.memory == memory,
            builder.registers == self.registers,
    {
        let mut builder = self;
        builder.memory = memory;
        builder
    }

    /// Installs `program` in memory from address 0. A program longer than
    /// the memory is refused, with the fault of the first write past the end.
    pub fn with_program(self, program: Vec<Word>) -> (r: Result<Self, Error>)
        ensures
            match r {
                Ok(builder) => {
                    &&& program@.len() <= self.memory@.len()
                    &&& builder.registers == self.registers
                    &&& builder.memory@ == installed(self.memory@, program@)
                },
                Err(e) => {
                    &&& program@.len() > self.memory@.len()
                    &&& e == out_of_bounds(self.memory@.len() as usize, self.memory@.len())
                },
            },
    {
        let mut builder = self;
        let mut index: usize = 0;
        while index < program.len()
            invariant
                index <= program.len(),
                index <= self.memory@.len(),
                builder.registers == self.registers,
                builder.memory@ == installed(self.memory@, program@.subrange(0, index as int)),
            decreases program.len() - index,
        {
            match builder.memory.write(index, program[index]) {
                Ok(()) => {},
                Err(e) => {
                    return Err(e);
                },
            }
            index += 1;
        }
        assert(program@.subrange(0, index as int) == program@);
        Ok(builder)
    }

    /// The engine, ready to run: flags cleared, not running.
    pub fn build(self) -> (runtime: Runtime)
        ensures
            runtime@ == (Machine {
                registers: self.registers,
                flag_zero: false,
                flag_carry: false,
                memory: self.memory@,
                running: false,
            }),
    {
        Runtime {
            registers: self.registers,
            memory: self.memory,
            flag_zero: false,
            flag_carry: false,
            running: false,
        }
    }
}

/// The checked engine. Its view is the `Machine` that its fields hold.
pub struct Runtime {
    pub registers: Registers,
    pub flag_zero: bool,
    pub flag_carry: bool,
    pub memory: Memory,
    pub running: bool,
}

impl View for Runtime {
    type V = Machine;

    open spec fn view(&self) -> Machine {
        Machine {
            registers: self.registers,
            flag_zero: self.flag_zero,
            flag_carry: self.flag_carry,
            memory: self.memory@,
            running: self.running,
        }
    }
}

impl Runtime {
    /// The word that the instruction pointer names.
    pub fn read_next_inst(&self) -> (r: Result<Word, Error>)
        ensures
            r == self@.fetch(),
    {
        self.memory.load(self.registers.instr_pointer)
    }

    /// Fetches the word that the instruction pointer names and moves the
    /// pointer past it. A failed fetch moves nothing.
    pub fn consume_next_instr(&mut self) -> (r: Result<Word, Error>)
        ensures
            r == old(self)@.fetch(),
            final(self)@ == if r is Ok {
                old(self)@.advanced()
            } else {
                old(self)@
            },
    {
        match self.read_next_inst() {
            Ok(instruction) => {
                proof {
                    use_type_invariant(&self.memory);
                }
                self.registers.instr_pointer += 1;
                Ok(instruction)
            },
            Err(e) => Err(e),
        }
    }

    /// One step of the fetch-decode-execute cycle. `Ok(true)`: the
    /// instruction ran; `Ok(false)`: it was `halt`. A fault carries the
    /// address of the instruction that raised it, while the instruction
    /// pointer is already past it.
    pub fn perform_next_instr(&mut self) -> (r: Result<bool, Error>)
        ensures
            (final(self)@, r) == old(self)@.step(),
    {
        let origin = self.registers.instr_pointer;
        let instruction = match self.consume_next_instr() {
            Ok(instruction) => instruction,
            Err(e) => {
                return Err(e);
            },
        };
        let outcome = match Instruction::from(instruction) {
            Instruction::Illegal => self.handle_illegal_opcode(instruction),
            Instruction::Halt => {
                return Ok(false);
            },
            Instruction::Load { value, dest_reg } => self.perform_load(value, dest_reg),
            Instruction::Copy { src, dest } => self.perform_copy(src, dest),
            Instruction::Add { src1, src2, dest } => self.perform_add(src1, src2, dest),
            Instruction::Sub { src1, src2, dest } => self.perform_sub(src1, src2, dest),
            Instruction::Mult { src1, src2, dest } => self.perform_mult(src1, src2, dest),
            Instruction::Div { src1, src2, quot_dest, rem_dest } => self.perform_div(
                src1,
                src2,
                quot_dest,
                rem_dest,
            ),
            Instruction::Cmp { src1, src2 } => self.perform_cmp(src1, src2),
            Instruction::Jmp { src } => self.perform_jmp(src),
            Instruction::Jz { src } => self.perform_jz(src),
            Instruction::Jnz { src } => self.perform_jnz(src),
            Instruction::Jgt { src } => self.perform_jgt(src),
            Instruction::Jlt { src } => self.perform_jlt(src),
            Instruction::Inc { dest } => self.perform_inc(dest),
            Instruction::Dec { dest } => self.perform_dec(dest),
            Instruction::LoadMem { src_addr, dest_reg } => self.perform_load_mem(src_addr, dest_reg),
            Instruction::StoreMem { src_reg, dest_addr } => self.perform_store_mem(
                src_reg,
                dest_addr,
            ),
        };
        match outcome {
            Ok(()) => Ok(true),
            Err(e) => Err(e.at(origin)),
        }
    }

    /// Runs the program until it halts or faults, for at most `STEP_LIMIT`
    /// steps. See `run_for`.
    pub fn run(&mut self) -> (r: Result<(), Error>)
        ensures
            (final(self)@, r) == old(self)@.with_running(true).drive(STEP_LIMIT as nat),
    {
        self.run_for(STEP_LIMIT)
    }

    /// Runs the program until it halts or faults, for at most `limit` steps.
    /// The engine is running while the loop is active. `Ok` with the running
    /// flag cleared: the program halted. `Err`: it faulted, and the flag is
    /// cleared. `Ok` with the flag still set: `limit` steps are done and the
    /// program has not ended.
    pub fn run_for(&mut self, limit: u64) -> (r: Result<(), Error>)
        ensures
            (final(self)@, r) == old(self)@.with_running(true).drive(limit as nat),
    {
        self.running = true;
        let mut fuel = limit;
        while self.running && fuel > 0
            invariant
                self@.drive(fuel as nat) == old(self)@.with_running(true).drive(limit as nat),
            decreases fuel,
        {
            proof {
                lemma_step_keeps_running(self@);
            }
            match self.perform_next_instr() {
                Ok(running) => {
                    self.running = running;
                },
                Err(e) => {
                    self.running = false;
                    return Err(e);
                },
            }
            fuel -= 1;
        }
        Ok(())
    }

    /// Fails with the fault for `instruction`, a word with no assigned
    /// opcode. The fault carries the address that the word was fetched from,
    /// one before the instruction pointer.
    pub fn handle_illegal_opcode(&self, instruction: Word) -> (r: Result<(), Error>)
        ensures
            (self@, r) == self@.illegal(instruction),
    {
        Err(
            Error::IllegalOpcode {
                instruction,
                instr_pointer: wrapping_difference(self.registers.instr_pointer, 1),
            },
        )
    }

    /// `load`: stores the immediate in the destination register.
    pub fn perform_load(&mut self, value: Word, dest_reg: u8) -> (r: Result<(), Error>)
        ensures
            (final(self)@, r) == old(self)@.load(value, dest_reg),
    {
        self.registers.write(Registers::index_of(dest_reg), value)
    }

    /// `copy`: stores the value of `src` in `dest`.
    pub fn perform_copy(&mut self, src: u8, dest: u8) -> (r: Result<(), Error>)
        ensures
            (final(self)@, r) == old(self)@.copy(src, dest),
    {
        match self.registers.read(Registers::index_of(src)) {
            Ok(value) => self.registers.write(Registers::index_of(dest), value),
            Err(e) => Err(e),
        }
    }

    /// `add`: stores the wrapped sum of `src1` and `src2` in `dest`.
    pub fn perform_add(&mut self, src1: u8, src2: u8, dest: u8) -> (r: Result<(), Error>)
        ensures
            (final(self)@, r) == old(self)@.sum(src1, src2, dest),
    {
        let res1 = self.registers.read(Registers::index_of(src1));
        let res2 = self.registers.read(Registers::index_of(src2));
        match pair_result(res1, res2) {
            Ok((v1, v2)) => self.registers.write(Registers::index_of(dest), wrapping_sum(v1, v2)),
            Err(e) => Err(e),
        }
    }

    /// `sub`: stores the wrapped difference of `src1` and `src2` in `dest`.
    pub fn perform_sub(&mut self, src1: u8, src2: u8, dest: u8) -> (r: Result<(), Error>)
        ensures
            (final(self)@, r) == old(self)@.difference(src1, src2, dest),
    {
        let res1 = self.registers.read(Registers::index_of(src1));
        let res2 = self.registers.read(Registers::index_of(src2));
        match pair_result(res1, res2) {
            Ok((v1, v2)) => self.registers.write(
                Registers::index_of(dest),
                wrapping_difference(v1, v2),
            ),
            Err(e) => Err(e),
        }
    }

    /// `mult`: stores the wrapped product of `src1` and `src2` in `dest`.
    pub fn perform_mult(&mut self, src1: u8, src2: u8, dest: u8) -> (r: Result<(), Error>)
        ensures
            (final(self)@, r) == old(self)@.product(src1, src2, dest),
    {
        let res1 = self.registers.read(Registers::index_of(src1));
        let res2 = self.registers.read(Registers::index_of(src2));
        match pair_result(res1, res2) {
            Ok((v1, v2)) => self.registers.write(
                Registers::index_of(dest),
                wrapping_product(v1, v2),
            ),
            Err(e) => Err(e),
        }
    }

    /// `div`: fails on a zero divisor, with the address of the instruction,
    /// one before the instruction pointer; else stores the quotient in
    /// `quot_dest` and then the remainder in `rem_dest`.
    pub fn perform_div(&mut self, src1: u8, src2: u8, quot_dest: u8, rem_dest: u8) -> (r: Result<
        (),
        Error,
    >)
        ensures
            (final(self)@, r) == old(self)@.division(src1, src2, quot_dest, rem_dest),
    {
        let res1 = self.registers.read(Registers::index_of(src1));
        let res2 = self.registers.read(Registers::index_of(src2));
        match pair_result(res1, res2) {
            Ok((v1, v2)) => {
                if v2 == 0 {
                    return Err(
                        Error::DivisionByZero {
                            instr_pointer: wrapping_difference(self.registers.instr_pointer, 1),
                        },
                    );
                }
                let (quot, rem) = wrapping_division(v1, v2);
                match self.registers.write(Registers::index_of(quot_dest), quot) {
                    Ok(()) => self.registers.write(Registers::index_of(rem_dest), rem),
                    Err(e) => Err(e),
                }
            },
            Err(e) => Err(e),
        }
    }

    /// `cmp`: sets the zero flag if the values of `src1` and `src2` are
    /// equal, the carry flag if the first is less, and clears the others.
    pub fn perform_cmp(&mut self, src1: u8, src2: u8) -> (r: Result<(), Error>)
        ensures
            (final(self)@, r) == old(self)@.comparison(src1, src2),
    {
        let res1 = self.registers.read(Registers::index_of(src1));
        let res2 = self.registers.read(Registers::index_of(src2));
        match pair_result(res1, res2) {
            Ok((v1, v2)) => {
                self.flag_zero = v1 == v2;
                self.flag_carry = v1 < v2;
                Ok(())
            },
            Err(e) => Err(e),
        }
    }

    /// `jmp`: continues at the address in `src`.
    pub fn perform_jmp(&mut self, src: u8) -> (r: Result<(), Error>)
        ensures
            (final(self)@, r) == old(self)@.jump(src),
    {
        match self.registers.read(Registers::index_of(src)) {
            Ok(target) => {
                self.registers.instr_pointer = target;
                Ok(())
            },
            Err(e) => Err(e),
        }
    }

    /// `jz`: jumps if the zero flag is set.
    pub fn perform_jz(&mut self, src: u8) -> (r: Result<(), Error>)
        ensures
            (final(self)@, r) == old(self)@.jump_if(old(self).flag_zero, src),
    {
        if self.flag_zero {
            self.perform_jmp(src)
        } else {
            Ok(())
        }
    }

    /// `jnz`: jumps if the zero flag is clear.
    pub fn perform_jnz(&mut self, src: u8) -> (r: Result<(), Error>)
        ensures
            (final(self)@, r) == old(self)@.jump_if(!old(self).flag_zero, src),
    {
        if !self.flag_zero {
            self.perform_jmp(src)
        } else {
            Ok(())
        }
    }

    /// `jgt`: jumps if the carry flag is clear, that is unless the last
    /// compare found less-than. Equal operands jump too.
    pub fn perform_jgt(&mut self, src: u8) -> (r: Result<(), Error>)
        ensures
            (final(self)@, r) == old(self)@.jump_if(!old(self).flag_carry, src),
    {
        if !self.flag_carry {
            self.perform_jmp(src)
        } else {
            Ok(())
        }
    }

    /// `jlt`: jumps if the carry flag is set.
    pub fn perform_jlt(&mut self, src: u8) -> (r: Result<(), Error>)
        ensures
            (final(self)@, r) == old(self)@.jump_if(old(self).flag_carry, src),
    {
        if self.flag_carry {
            self.perform_jmp(src)
        } else {
            Ok(())
        }
    }

    /// `inc`: adds one to `dest`, wrapping.
    pub fn perform_inc(&mut self, dest: u8) -> (r: Result<(), Error>)
        ensures
            (final(self)@, r) == old(self)@.increment(dest),
    {
        match self.registers.read(Registers::index_of(dest)) {
            Ok(current_value) => self.registers.write(
                Registers::index_of(dest),
                wrapping_sum(current_value, 1),
            ),
            Err(e) => Err(e),
        }
    }

    /// `dec`: subtracts one from `dest`, wrapping.
    pub fn perform_dec(&mut self, dest: u8) -> (r: Result<(), Error>)
        ensures
            (final(self)@, r) == old(self)@.decrement(dest),
    {
        match self.registers.read(Registers::index_of(dest)) {
            Ok(current_value) => self.registers.write(
                Registers::index_of(dest),
                wrapping_difference(current_value, 1),
            ),
            Err(e) => Err(e),
        }
    }

    /// `ldm`: stores the word of cell `src_addr` in `dest_reg`.
    pub fn perform_load_mem(&mut self, src_addr: Word, dest_reg: u8) -> (r: Result<(), Error>)
        ensures
            (final(self)@, r) == old(self)@.load_mem(src_addr, dest_reg),
    {
        match self.memory.load(src_addr) {
            Ok(value) => self.registers.write(Registers::index_of(dest_reg), value),
            Err(e) => Err(e),
        }
    }

    /// `strm`: stores the value of `src_reg` in cell `dest_addr`.
    pub fn perform_store_mem(&mut self, src_reg: u8, dest_addr: Word) -> (r: Result<(), Error>)
        ensures
            (final(self)@, r) == old(self)@.store_mem(src_reg, dest_addr),
    {
        match self.registers.read(Registers::index_of(src_reg)) {
            Ok(value) => self.memory.store(dest_addr, value),
            Err(e) => Err(e),
        }
    }
}

} // verus!
