//! The unchecked execution engine.
//!
//! A `VM` runs a program as the checked engine does, without the checks: it
//! returns no faults. What the checked engine would refuse, the `VM` leaves
//! out by its preconditions, which ask that the model of the machine performs
//! the operation without a fault.

use vstd::prelude::*;
use crate::instruction::Instruction;
use crate::machine::{lemma_step_keeps_running, Machine, STEP_LIMIT};
use crate::registers::Registers;
use crate::runtime::installed;
use crate::word::{wrapping_difference, wrapping_division, wrapping_product, wrapping_sum, Word};

verus! {

/// The unchecked engine. Its view is the `Machine` that its fields hold.
pub struct VM {
    pub registers: Registers,
    pub flag_zero: bool,
    pub flag_carry: bool,
    pub memory: Vec<Word>,
    pub running: bool,
}

impl View for VM {
    type V = Machine;

    open spec fn view(&self) -> Machine {
        Machine {
            registers: self.registers,
            flag_zero: self.flag_zero,
            flag_carry: self.flag_carry,
            memory: self.memory@,
            running: self.running,
        }
    }
}

impl VM {
    /// The size of a default memory, in bytes: 2 MiB, 262,144 words.
    pub const DEFAULT_MEMORY_SIZE_BYTES: usize = 2097152;

    /// The memory is no larger than a memory can be. Every constructor
    /// establishes this and every operation keeps it.
    pub open spec fn wf(&self) -> bool {
        self@.wf()
    }

    /// A zeroed memory of `memory_vec_size` words with `program` laid over
    /// its first cells.
    pub fn init_memory(program: Vec<Word>, memory_vec_size: usize) -> (memory: Vec<Word>)
        requires
            program@.len() <= memory_vec_size,
        ensures
            memory@ == installed(Seq::new(memory_vec_size as nat, |i: int| 0i64), program@),
    {
        let mut memory: Vec<Word> = vec![0; memory_vec_size];
        let mut index: usize = 0;
        while index < program.len()
            invariant
                index <= program@.len() <= memory_vec_size,
                memory@ == installed(
                    Seq::new(memory_vec_size as nat, |i: int| 0i64),
                    program@.subrange(0, index as int),
                ),
            decreases program.len() - index,
        {
            memory[index] = program[index];
            index += 1;
        }
        assert(program@.subrange(0, index as int) == program@);
        memory
    }

    /// An engine over a memory of `memory_size / 8` words that holds
    /// `program` from address 0: registers zero, flags cleared, not running.
    pub fn new_with_memory_size(program: Vec<Word>, memory_size: usize) -> (vm: Self)
        requires
            program@.len() <= memory_size / 8,
        ensures
            vm.wf(),
            vm@ == (Machine {
                registers: Registers::zeroed(),
                flag_zero: false,
                flag_carry: false,
                memory: installed(Seq::new((memory_size / 8) as nat, |i: int| 0i64), program@),
                running: false,
            }),
    {
        let mem_vec_size = memory_size / 8;
        VM {
            registers: Registers::default(),
            flag_zero: false,
            flag_carry: false,
            memory: Self::init_memory(program, mem_vec_size),
            running: false,
        }
    }

    /// An engine over a memory of the default size that holds `program`.
    pub fn new(program: Vec<Word>) -> (vm: Self)
        requires
            program@.len() <= 262144,
        ensures
            vm.wf(),
            vm@ == (Machine {
                registers: Registers::zeroed(),
                flag_zero: false,
                flag_carry: false,
                memory: installed(Seq::new(262144, |i: int| 0i64), program@),
                running: false,
            }),
    {
        Self::new_with_memory_size(program, Self::DEFAULT_MEMORY_SIZE_BYTES)
    }

    /// The word that the instruction pointer names.
    pub fn read_next_inst(&self) -> (instruction: Word)
        requires
            self@.fetch() is Ok,
        ensures
            self@.fetch() == Ok::<Word, crate::error::Error>(instruction),
    {
        assert(self.memory@.len() == self.memory.len());
        let current_ip = self.registers.instr_pointer as usize;
        self.memory[current_ip]
    }

    /// Fetches the word that the instruction pointer names and moves the
    /// pointer past it.
    pub fn consume_next_instr(&mut self) -> (instruction: Word)
        requires
            old(self).wf(),
            old(self)@.fetch() is Ok,
        ensures
            old(self)@.fetch() == Ok::<Word, crate::error::Error>(instruction),
            final(self)@ == old(self)@.advanced(),
    {
        let instruction = self.read_next_inst();
        self.registers.instr_pointer += 1;
        instruction
    }

    /// One step of the fetch-decode-execute cycle, for a machine whose model
    /// steps without a fault. `true`: the instruction ran; `false`: it was
    /// `halt`.
    pub fn perform_next_instr(&mut self) -> (running: bool)
        requires
            old(self).wf(),
            old(self)@.step().1 is Ok,
        ensures
            final(self).wf(),
            (final(self)@, Ok::<bool, crate::error::Error>(running)) == old(self)@.step(),
    {
        let instruction = self.consume_next_instr();
        match Instruction::from(instruction) {
            Instruction::Illegal => vstd::pervasive::unreached(),
            Instruction::Halt => false,
            Instruction::Load { value, dest_reg } => self.perform_load(value, dest_reg),
            Instruction::Copy { src, dest } => self.perform_copy(src, dest),
            Instruction::Add { src1, src2, dest } => self.perform_add(src1, src2, dest),
            Instruction::Sub { src1, src2, dest } => self.perform_sub(src1, src2, dest),
            Instruction::Mult { src1, src2, dest } => self.perform_mult(src1, src2, dest),
            Instruction::Div { src1, src2, quot_dest, rem_dest } => self.perform_div(
                src1,
                src2,
                quot_dest,
                rem_dest,
            ),
            Instruction::Cmp { src1, src2 } => self.perform_cmp(src1, src2),
            Instruction::Jmp { src } => self.perform_jmp(src),
            Instruction::Jz { src } => self.perform_jz(src),
            Instruction::Jnz { src } => self.perform_jnz(src),
            Instruction::Jgt { src } => self.perform_jgt(src),
            Instruction::Jlt { src } => self.perform_jlt(src),
            Instruction::Inc { dest } => self.perform_inc(dest),
            Instruction::Dec { dest } => self.perform_dec(dest),
            Instruction::LoadMem { src_addr, dest_reg } => self.perform_load_mem(src_addr, dest_reg),
            Instruction::StoreMem { src_reg, dest_addr } => self.perform_store_mem(
                src_reg,
                dest_addr,
            ),
        }
    }

    /// Runs a program that neither faults nor outlasts `STEP_LIMIT` steps
    /// without a fault, until it halts or the steps are done. The engine is
    /// running while the loop is active; a halt clears the flag.
    pub fn run(&mut self)
        requires
            old(self).wf(),
            old(self)@.with_running(true).drive(STEP_LIMIT as nat).1 is Ok,
        ensures
            final(self).wf(),
            final(self)@ == old(self)@.with_running(true).drive(STEP_LIMIT as nat).0,
    {
        self.running = true;
        let mut fuel = STEP_LIMIT;
        while self.running && fuel > 0
            invariant
                self.wf(),
                self@.drive(fuel as nat) == old(self)@.with_running(true).drive(STEP_LIMIT as nat),
                self@.drive(fuel as nat).1 is Ok,
            decreases fuel,
        {
            proof {
                lemma_step_keeps_running(self@);
            }
            self.running = self.perform_next_instr();
            fuel -= 1;
        }
    }

    /// `load`: stores the immediate in the destination register.
    pub fn perform_load(&mut self, value: Word, dest_reg: u8) -> (running: bool)
        requires
            old(self)@.load(value, dest_reg).1 is Ok,
        ensures
            running,
            final(self)@ == old(self)@.load(value, dest_reg).0,
    {
        self.registers.write(Registers::index_of(dest_reg), value).unwrap();
        true
    }

    /// `copy`: stores the value of `src` in `dest`.
    pub fn perform_copy(&mut self, src: u8, dest: u8) -> (running: bool)
        requires
            old(self)@.copy(src, dest).1 is Ok,
        ensures
            running,
            final(self)@ == old(self)@.copy(src, dest).0,
    {
        let value = self.registers.read(Registers::index_of(src)).unwrap();
        self.registers.write(Registers::index_of(dest), value).unwrap();
        true
    }

    /// `add`: stores the wrapped sum of `src1` and `src2` in `dest`.
    pub fn perform_add(&mut self, src1: u8, src2: u8, dest: u8) -> (running: bool)
        requires
            old(self)@.sum(src1, src2, dest).1 is Ok,
        ensures
            running,
            final(self)@ == old(self)@.sum(src1, src2, dest).0,
    {
        let v1 = self.registers.read(Registers::index_of(src1)).unwrap();
        let v2 = self.registers.read(Registers::index_of(src2)).unwrap();
        self.registers.write(Registers::index_of(dest), wrapping_sum(v1, v2)).unwrap();
        true
    }

    /// `sub`: stores the wrapped difference of `src1` and `src2` in `dest`.
    pub fn perform_sub(&mut self, src1: u8, src2: u8, dest: u8) -> (running: bool)
        requires
            old(self)@.difference(src1, src2, dest).1 is Ok,
        ensures
            running,
            final(self)@ == old(self)@.difference(src1, src2, dest).0,
    {
        let v1 = self.registers.read(Registers::index_of(src1)).unwrap();
        let v2 = self.registers.read(Registers::index_of(src2)).unwrap();
        self.registers.write(Registers::index_of(dest), wrapping_difference(v1, v2)).unwrap();
        true
    }

    /// `mult`: stores the wrapped product of `src1` and `src2` in `dest`.
    pub fn perform_mult(&mut self, src1: u8, src2: u8, dest: u8) -> (running: bool)
        requires
            old(self)@.product(src1, src2, dest).1 is Ok,
        ensures
            running,
            final(self)@ == old(self)@.product(src1, src2, dest).0,
    {
        let v1 = self.registers.read(Registers::index_of(src1)).unwrap();
        let v2 = self.registers.read(Registers::index_of(src2)).unwrap();
        self.registers.write(Registers::index_of(dest), wrapping_product(v1, v2)).unwrap();
        true
    }

    /// `div`: stores the quotient in `quot_dest` and then the remainder in
    /// `rem_dest`.
    pub fn perform_div(&mut self, src1: u8, src2: u8, quot_dest: u8, rem_dest: u8) -> (running:
        bool)
        requires
            old(self)@.division(src1, src2, quot_dest, rem_dest).1 is Ok,
        ensures
            running,
            final(self)@ == old(self)@.division(src1, src2, quot_dest, rem_dest).0,
    {
        let v1 = self.registers.read(Registers::index_of(src1)).unwrap();
        let v2 = self.registers.read(Registers::index_of(src2)).unwrap();
        let (quot, rem) = wrapping_division(v1, v2);
        self.registers.write(Registers::index_of(quot_dest), quot).unwrap();
        self.registers.write(Registers::index_of(rem_dest), rem).unwrap();
        true
    }

    /// `cmp`: sets the zero flag if the values of `src1` and `src2` are
    /// equal, the carry flag if the first is less, and clears the others.
    pub fn perform_cmp(&mut self, src1: u8, src2: u8) -> (running: bool)
        requires
            old(self)@.comparison(src1, src2).1 is Ok,
        ensures
            running,
            final(self)@ == old(self)@.comparison(src1, src2).0,
    {
        let v1 = self.registers.read(Registers::index_of(src1)).unwrap();
        let v2 = self.registers.read(Registers::index_of(src2)).unwrap();
        if v1 == v2 {
            self.flag_zero = true;
            self.flag_carry = false;
        } else {
            self.flag_zero = false;
            self.flag_carry = v1 < v2;
        }
        true
    }

    /// `jmp`: continues at the address in `src`.
    pub fn perform_jmp(&mut self, src: u8) -> (running: bool)
        requires
            old(self)@.jump(src).1 is Ok,
        ensures
            running,
            final(self)@ == old(self)@.jump(src).0,
    {
        let v = self.registers.read(Registers::index_of(src)).unwrap();
        self.registers.instr_pointer = v;
        true
    }

    /// `jz`: jumps if the zero flag is set.
    pub fn perform_jz(&mut self, src: u8) -> (running: bool)
        requires
            old(self)@.jump_if(old(self).flag_zero, src).1 is Ok,
        ensures
            running,
            final(self)@ == old(self)@.jump_if(old(self).flag_zero, src).0,
    {
        if self.flag_zero {
            let v = self.registers.read(Registers::index_of(src)).unwrap();
            self.registers.instr_pointer = v;
        }
        true
    }

    /// `jnz`: jumps if the zero flag is clear.
    pub fn perform_jnz(&mut self, src: u8) -> (running: bool)
        requires
            old(self)@.jump_if(!old(self).flag_zero, src).1 is Ok,
        ensures
            running,
            final(self)@ == old(self)@.jump_if(!old(self).flag_zero, src).0,
    {
        if !self.flag_zero {
            let v = self.registers.read(Registers::index_of(src)).unwrap();
            self.registers.instr_pointer = v;
        }
        true
    }

    /// `jgt`: jumps if the carry flag is clear.
    pub fn perform_jgt(&mut self, src: u8) -> (running: bool)
        requires
            old(self)@.jump_if(!old(self).flag_carry, src).1 is Ok,
        ensures
            running,
            final(self)@ == old(self)@.jump_if(!old(self).flag_carry, src).0,
    {
        if !self.flag_carry {
            let v = self.registers.read(Registers::index_of(src)).unwrap();
            self.registers.instr_pointer = v;
        }
        true
    }

    /// `jlt`: jumps if the carry flag is set.
    pub fn perform_jlt(&mut self, src: u8) -> (running: bool)
        requires
            old(self)@.jump_if(old(self).flag_carry, src).1 is Ok,
        ensures
            running,
            final(self)@ == old(self)@.jump_if(old(self).flag_carry, src).0,
    {
        if self.flag_carry {
            let v = self.registers.read(Registers::index_of(src)).unwrap();
            self.registers.instr_pointer = v;
        }
        true
    }

    /// `inc`: adds one to `dest`, wrapping.
    pub fn perform_inc(&mut self, dest: u8) -> (running: bool)
        requires
            old(self)@.increment(dest).1 is Ok,
        ensures
            running,
            final(self)@ == old(self)@.increment(dest).0,
    {
        let current_value = self.registers.read(Registers::index_of(dest)).unwrap();
        self.registers.write(Registers::index_of(dest), wrapping_sum(current_value, 1)).unwrap();
        true
    }

    /// `dec`: subtracts one from `dest`, wrapping.
    pub fn perform_dec(&mut self, dest: u8) -> (running: bool)
        requires
            old(self)@.decrement(dest).1 is Ok,
        ensures
            running,
            final(self)@ == old(self)@.decrement(dest).0,
    {
        let current_value = self.registers.read(Registers::index_of(dest)).unwrap();
        self.registers.write(
            Registers::index_of(dest),
            wrapping_difference(current_value, 1),
        ).unwrap();
        true
    }

    /// `ldm`: stores the word of cell `src_addr` in `dest_reg`.
    pub fn perform_load_mem(&mut self, src_addr: Word, dest_reg: u8) -> (running: bool)
        requires
            old(self)@.load_mem(src_addr, dest_reg).1 is Ok,
        ensures
            running,
            final(self)@ == old(self)@.load_mem(src_addr, dest_reg).0,
    {
        assert(self.memory@.len() == self.memory.len());
        let value = self.memory[src_addr as usize];
        self.registers.write(Registers::index_of(dest_reg), value).unwrap();
        true
    }

    /// `strm`: stores the value of `src_reg` in cell `dest_addr`.
    pub fn perform_store_mem(&mut self, src_reg: u8, dest_addr: Word) -> (running: bool)
        requires
            old(self)@.store_mem(src_reg, dest_addr).1 is Ok,
        ensures
            running,
            final(self)@ == old(self)@.store_mem(src_reg, dest_addr).0,
    {
        let value = self.registers.read(Registers::index_of(src_reg)).unwrap();
        assert(self.memory@.len() == self.memory.len());
        self.memory[dest_addr as usize] = value;
        true
    }
}

} // verus!
