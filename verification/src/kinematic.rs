//! A minimal engine over unsigned words: a program held apart from any data
//! memory, four data registers, and the instructions `halt` and `load`.

use vstd::prelude::*;
use crate::instruction::{decode, Instruction};

verus! {

/// The word of this engine: an unsigned 64-bit pattern.
pub type Word = u64;

/// The minimal engine. All of its state is in its fields.
pub struct Kinematic {
    pub da: i64,
    pub db: i64,
    pub dc: i64,
    pub dd: i64,
    /// The index in `program` of the next instruction.
    pub ip: usize,
    pub f0: i64,
    pub program: Vec<Word>,
    pub running: bool,
}

/// Reading a word as signed and back as unsigned, or the other way round,
/// changes nothing.
proof fn lemma_sign_round_trip(value: i64)
    by (bit_vector)
    ensures
        ((value as u64) as i64) == value,
{
}

impl Kinematic {
    /// Where execution starts.
    pub const INITIAL_IP: usize = 0;

    /// Whether `dest_reg` names one of the four data registers.
    pub open spec fn is_register(dest_reg: u8) -> bool {
        dest_reg <= 3
    }

    /// The engine with data register `dest_reg` set to `value`.
    pub open spec fn loaded(self, value: i64, dest_reg: u8) -> Kinematic
        recommends
            Self::is_register(dest_reg),
    {
        if dest_reg == 0 {
            Kinematic { da: value, ..self }
        } else if dest_reg == 1 {
            Kinematic { db: value, ..self }
        } else if dest_reg == 2 {
            Kinematic { dc: value, ..self }
        } else {
            Kinematic { dd: value, ..self }
        }
    }

    /// The engine with the instruction pointer one further.
    pub open spec fn advanced(self) -> Kinematic {
        Kinematic { ip: (self.ip + 1) as usize, ..self }
    }

    /// The instruction that the instruction pointer names.
    pub open spec fn next_instruction(self) -> Instruction
        recommends
            self.ip < self.program@.len(),
    {
        decode(self.program@[self.ip as int])
    }

    /// Whether the engine can take a step: the instruction pointer names a
    /// word of the program, and the word is a `halt` or a `load` into one of
    /// the four data registers.
    pub open spec fn can_step(self) -> bool {
        &&& self.ip < self.program@.len()
        &&& match self.next_instruction() {
            Instruction::Halt => true,
            Instruction::Load { dest_reg, .. } => Self::is_register(dest_reg),
            _ => false,
        }
    }

    /// What a step leaves: the pointer advanced and, for a `load`, the
    /// immediate in its register.
    pub open spec fn stepped(self) -> Kinematic
        recommends
            self.can_step(),
    {
        match self.next_instruction() {
            Instruction::Load { value, dest_reg } => self.advanced().loaded(value, dest_reg),
            _ => self.advanced(),
        }
    }

    /// An engine at the start of `program`: registers zero, not running.
    pub fn new(program: Vec<Word>) -> (vm: Self)
        ensures
            vm == (Kinematic {
                da: 0,
                db: 0,
                dc: 0,
                dd: 0,
                ip: 0,
                f0: 0,
                program,
                running: false,
            }),
    {
        Kinematic {
            da: 0,
            db: 0,
            dc: 0,
            dd: 0,
            ip: Self::INITIAL_IP,
            f0: 0,
            program,
            running: false,
        }
    }

    /// Fetches the word that the instruction pointer names and moves the
    /// pointer past it.
    pub fn fetch_next_instr(&mut self) -> (instruction: u64)
        requires
            old(self).ip < old(self).program@.len(),
        ensures
            instruction == old(self).program@[old(self).ip as int],
            *final(self) == old(self).advanced(),
    {
        assert(self.program@.len() == self.program.len());
        let instruction = self.program[self.ip];
        self.ip += 1;
        instruction
    }

    /// One step. `true`: a `load` ran; `false`: the instruction was `halt`.
    pub fn step(&mut self) -> (running: bool)
        requires
            old(self).can_step(),
        ensures
            running == !(old(self).next_instruction() is Halt),
            *final(self) == old(self).stepped(),
    {
        let instruction = self.fetch_next_instr();
        match Instruction::from(instruction) {
            Instruction::Halt => false,
            Instruction::Load { value, dest_reg } => {
                proof {
                    lemma_sign_round_trip(value);
                }
                self.perform_load(value as u64, dest_reg)
            },
            _ => vstd::pervasive::unreached(),
        }
    }

    /// `load`: stores `value`, read as a signed word, in data register
    /// `dest_reg`.
    pub fn perform_load(&mut self, value: u64, dest_reg: u8) -> (running: bool)
        requires
            Self::is_register(dest_reg),
        ensures
            running,
            *final(self) == old(self).loaded(value as i64, dest_reg),
    {
        match dest_reg {
            0 => {
                self.da = #[verifier::truncate] (value as i64);
                true
            },
            1 => {
                self.db = #[verifier::truncate] (value as i64);
                true
            },
            2 => {
                self.dc = #[verifier::truncate] (value as i64);
                true
            },
            3 => {
                self.dd = #[verifier::truncate] (value as i64);
                true
            },
            _ => vstd::pervasive::unreached(),
        }
    }
}

} // verus!
