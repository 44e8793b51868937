//! The instruction set and its binary layout.
//!
//! An instruction is one 64-bit word. Bits `0..10` hold the opcode and bits
//! `10..64` the operand region, which each opcode divides into fields of its
//! own. Decoding is total: a word with no assigned opcode is `Illegal`.

use vstd::prelude::*;
use vstd::std_specs::convert::FromSpecImpl;
use crate::word::Word;

verus! {

/// A decoded instruction.
#[derive(Debug, Clone, Copy, PartialEq, Eq, Structural)]
pub enum Instruction {
    Illegal,
    Halt,
    Load { value: Word, dest_reg: u8 },
    LoadMem { src_addr: Word, dest_reg: u8 },
    StoreMem { src_reg: u8, dest_addr: Word },
    Copy { src: u8, dest: u8 },
    Add { src1: u8, src2: u8, dest: u8 },
    Sub { src1: u8, src2: u8, dest: u8 },
    Mult { src1: u8, src2: u8, dest: u8 },
    Div { src1: u8, src2: u8, quot_dest: u8, rem_dest: u8 },
    Cmp { src1: u8, src2: u8 },
    Jmp { src: u8 },
    Jz { src: u8 },
    Jnz { src: u8 },
    Jgt { src: u8 },
    Jlt { src: u8 },
    Inc { dest: u8 },
    Dec { dest: u8 },
}

/// The opcode of an instruction word: its low 10 bits.
pub open spec fn opcode(bits: u64) -> u64 {
    bits & 0x3ff
}

/// The operand region of an instruction word: its upper 54 bits.
pub open spec fn operand_region(bits: u64) -> u64 {
    bits >> 10
}

/// The unsigned field of `width` bits that starts at bit `offset` of `operands`.
pub open spec fn field(operands: u64, offset: u64, width: u64) -> u64 {
    (operands >> offset) & (((1u64 << width) - 1) as u64)
}

/// A register operand: the low 8 bits of the field at `offset`. An index that
/// names no register is found when the instruction executes, not here.
pub open spec fn register_field(operands: u64, offset: u64) -> u8 {
    field(operands, offset, 8) as u8
}

/// A word operand: the `width`-bit field at `offset`, zero-extended.
pub open spec fn word_field(operands: u64, offset: u64, width: u64) -> Word {
    field(operands, offset, width) as Word
}

/// The bit pattern of a word.
pub open spec fn bits_of(word: Word) -> u64 {
    word as u64
}

/// The instruction that the word with bit pattern `bits` encodes.
pub open spec fn decode(bits: u64) -> Instruction {
    let operands = operand_region(bits);
    let code = opcode(bits);
    if code == 0 {
        Instruction::Halt
    } else if code == 1 {
        Instruction::Load {
            value: word_field(operands, 0, 46),
            dest_reg: register_field(operands, 46),
        }
    } else if code == 2 {
        Instruction::Add {
            src1: register_field(operands, 0),
            src2: register_field(operands, 18),
            dest: register_field(operands, 36),
        }
    } else if code == 3 {
        Instruction::Sub {
            src1: register_field(operands, 0),
            src2: register_field(operands, 18),
            dest: register_field(operands, 36),
        }
    } else if code == 4 {
        Instruction::Mult {
            src1: register_field(operands, 0),
            src2: register_field(operands, 18),
            dest: register_field(operands, 36),
        }
    } else if code == 5 {
        Instruction::Cmp { src1: register_field(operands, 0), src2: register_field(operands, 27) }
    } else if code == 6 {
        Instruction::Jmp { src: register_field(operands, 0) }
    } else if code == 7 {
        Instruction::Jz { src: register_field(operands, 0) }
    } else if code == 8 {
        Instruction::Jnz { src: register_field(operands, 0) }
    } else if code == 9 {
        Instruction::Jgt { src: register_field(operands, 0) }
    } else if code == 10 {
        Instruction::Jlt { src: register_field(operands, 0) }
    } else if code == 11 {
        Instruction::Div {
            src1: register_field(operands, 0),
            src2: register_field(operands, 13),
            quot_dest: register_field(operands, 26),
            rem_dest: register_field(operands, 39),
        }
    } else if code == 12 {
        Instruction::Copy { src: register_field(operands, 0), dest: register_field(operands, 27) }
    } else if code == 13 {
        Instruction::Inc { dest: register_field(operands, 0) }
    } else if code == 14 {
        Instruction::Dec { dest: register_field(operands, 0) }
    } else if code == 15 {
        Instruction::LoadMem {
            src_addr: word_field(operands, 0, 27),
            dest_reg: register_field(operands, 27),
        }
    } else if code == 16 {
        Instruction::StoreMem {
            src_reg: register_field(operands, 0),
            dest_addr: word_field(operands, 27, 27),
        }
    } else {
        Instruction::Illegal
    }
}

/// An arithmetic shift fills the operand region of a negative word with sign
/// bits above bit 54; no field reaches them.
proof fn lemma_operand_region_fields(word: Word, offset: u64, width: u64)
    by (bit_vector)
    requires
        offset + width <= 54,
    ensures
        field((word >> 10) as u64, offset, width) == field(operand_region(word as u64), offset, width),
{
}

/// The low 10 bits of a word are its opcode, whatever its sign.
proof fn lemma_opcode(word: Word)
    by (bit_vector)
    ensures
        0 <= word & 0x3ff <= 0x3ff,
        (word & 0x3ff) as u64 == opcode(word as u64),
{
}

/// Narrowing a shifted word to `u8` reads the register field at that offset.
proof fn lemma_register_field(operands: Word, offset: u64)
    by (bit_vector)
    requires
        offset <= 56,
    ensures
        (operands >> offset) as u8 == register_field(operands as u64, offset),
{
}

/// The low 46 bits of the operand region, as `load` reads its immediate.
proof fn lemma_immediate_field(operands: Word)
    by (bit_vector)
    ensures
        operands & 0x3fff_ffff_ffff == word_field(operands as u64, 0, 46),
{
}

/// The two 27-bit halves of the operand region, as the memory instructions
/// read their address.
proof fn lemma_address_fields(operands: Word)
    by (bit_vector)
    ensures
        operands & 0x7ff_ffff == word_field(operands as u64, 0, 27),
        (operands >> 27u64) & 0x7ff_ffff == word_field(operands as u64, 27, 27),
{
}

/// Reading an unsigned bit pattern as a word and back changes nothing.
proof fn lemma_bits_round_trip(bits: u64)
    by (bit_vector)
    ensures
        (bits as Word) as u64 == bits,
{
}

impl Instruction {
    const OPCODE_OFFSET: u64 = 10;

    const OPCODE_MASK: Word = 0b000000_1111111111;

    const LOAD_RANDS_MASK: Word = 0b00000000_1111111111111111111111111111111111111111111111;

    const LOAD_DEST_OFFSET: u64 = 46;

    const COPY_RAND2_OFFSET: u64 = 27;

    const ADD_RAND2_OFFSET: u64 = 18;

    const ADD_DEST_OFFSET: u64 = 36;

    const SUB_RAND2_OFFSET: u64 = 18;

    const SUB_DEST_OFFSET: u64 = 36;

    const MULT_RAND2_OFFSET: u64 = 18;

    const MULT_DEST_OFFSET: u64 = 36;

    const DIV_RAND2_OFFSET: u64 = 13;

    const DIV_QUOT_OFFSET: u64 = 26;

    const DIV_REM_OFFSET: u64 = 39;

    const CMP_RAND2_OFFSET: u64 = 27;

    const ADDRESS_MASK: Word = 0b111111111111111111111111111;

    const LOAD_MEM_DEST_OFFSET: u64 = 27;

    const STORE_MEM_DEST_OFFSET: u64 = 27;

    /// The register operand at `offset` of the operand region.
    fn register_at(operands: Word, offset: u64) -> (r: u8)
        requires
            offset <= 56,
        ensures
            r == register_field(bits_of(operands), offset),
    {
        proof {
            lemma_register_field(operands, offset);
        }
        (operands >> offset) as u8
    }

    /// `load`: the immediate in bits `0..46` of the operand region, the
    /// destination register above it. The immediate is never negative.
    fn parse_load(operands: Word) -> (r: Self)
        ensures
            r == (Instruction::Load {
                value: word_field(bits_of(operands), 0, 46),
                dest_reg: register_field(bits_of(operands), 46),
            }),
    {
        proof {
            lemma_immediate_field(operands);
        }
        let value = operands & Self::LOAD_RANDS_MASK;
        let dest_reg = Self::register_at(operands, Self::LOAD_DEST_OFFSET);
        Instruction::Load { value, dest_reg }
    }

    /// `copy`: source register, then destination register 27 bits up.
    fn parse_copy(operands: Word) -> (r: Self)
        ensures
            r == (Instruction::Copy {
                src: register_field(bits_of(operands), 0),
                dest: register_field(bits_of(operands), 27),
            }),
    {
        let src = Self::register_at(operands, 0);
        let dest = Self::register_at(operands, Self::COPY_RAND2_OFFSET);
        Instruction::Copy { src, dest }
    }

    /// `add`: three register fields, 18 bits apart.
    fn parse_add(operands: Word) -> (r: Self)
        ensures
            r == (Instruction::Add {
                src1: register_field(bits_of(operands), 0),
                src2: register_field(bits_of(operands), 18),
                dest: register_field(bits_of(operands), 36),
            }),
    {
        let src1 = Self::register_at(operands, 0);
        let src2 = Self::register_at(operands, Self::ADD_RAND2_OFFSET);
        let dest = Self::register_at(operands, Self::ADD_DEST_OFFSET);
        Instruction::Add { src1, src2, dest }
    }

    /// `sub`: laid out as `add`.
    fn parse_sub(operands: Word) -> (r: Self)
        ensures
            r == (Instruction::Sub {
                src1: register_field(bits_of(operands), 0),
                src2: register_field(bits_of(operands), 18),
                dest: register_field(bits_of(operands), 36),
            }),
    {
        let src1 = Self::register_at(operands, 0);
        let src2 = Self::register_at(operands, Self::SUB_RAND2_OFFSET);
        let dest = Self::register_at(operands, Self::SUB_DEST_OFFSET);
        Instruction::Sub { src1, src2, dest }
    }

    /// `mult`: laid out as `add`.
    fn parse_mult(operands: Word) -> (r: Self)
        ensures
            r == (Instruction::Mult {
                src1: register_field(bits_of(operands), 0),
                src2: register_field(bits_of(operands), 18),
                dest: register_field(bits_of(operands), 36),
            }),
    {
        let src1 = Self::register_at(operands, 0);
        let src2 = Self::register_at(operands, Self::MULT_RAND2_OFFSET);
        let dest = Self::register_at(operands, Self::MULT_DEST_OFFSET);
        Instruction::Mult { src1, src2, dest }
    }

    /// `div`: dividend, divisor, quotient and remainder registers, 13 bits apart.
    fn parse_div(operands: Word) -> (r: Self)
        ensures
            r == (Instruction::Div {
                src1: register_field(bits_of(operands), 0),
                src2: register_field(bits_of(operands), 13),
                quot_dest: register_field(bits_of(operands), 26),
                rem_dest: register_field(bits_of(operands), 39),
            }),
    {
        let src1 = Self::register_at(operands, 0);
        let src2 = Self::register_at(operands, Self::DIV_RAND2_OFFSET);
        let quot_dest = Self::register_at(operands, Self::DIV_QUOT_OFFSET);
        let rem_dest = Self::register_at(operands, Self::DIV_REM_OFFSET);
        Instruction::Div { src1, src2, quot_dest, rem_dest }
    }

    /// `cmp`: two register fields, 27 bits apart.
    fn parse_cmp(operands: Word) -> (r: Self)
        ensures
            r == (Instruction::Cmp {
                src1: register_field(bits_of(operands), 0),
                src2: register_field(bits_of(operands), 27),
            }),
    {
        let src1 = Self::register_at(operands, 0);
        let src2 = Self::register_at(operands, Self::CMP_RAND2_OFFSET);
        Instruction::Cmp { src1, src2 }
    }

    /// `jmp`: the register that holds the target.
    fn parse_jmp(operands: Word) -> (r: Self)
        ensures
            r == (Instruction::Jmp { src: register_field(bits_of(operands), 0) }),
    {
        Instruction::Jmp { src: Self::register_at(operands, 0) }
    }

    /// `jz`: the register that holds the target.
    fn parse_jz(operands: Word) -> (r: Self)
        ensures
            r == (Instruction::Jz { src: register_field(bits_of(operands), 0) }),
    {
        Instruction::Jz { src: Self::register_at(operands, 0) }
    }

    /// `jnz`: the register that holds the target.
    fn parse_jnz(operands: Word) -> (r: Self)
        ensures
            r == (Instruction::Jnz { src: register_field(bits_of(operands), 0) }),
    {
        Instruction::Jnz { src: Self::register_at(operands, 0) }
    }

    /// `jgt`: the register that holds the target.
    fn parse_jgt(operands: Word) -> (r: Self)
        ensures
            r == (Instruction::Jgt { src: register_field(bits_of(operands), 0) }),
    {
        Instruction::Jgt { src: Self::register_at(operands, 0) }
    }

    /// `jlt`: the register that holds the target.
    fn parse_jlt(operands: Word) -> (r: Self)
        ensures
            r == (Instruction::Jlt { src: register_field(bits_of(operands), 0) }),
    {
        Instruction::Jlt { src: Self::register_at(operands, 0) }
    }

    /// `inc`: the register to increment.
    fn parse_inc(operands: Word) -> (r: Self)
        ensures
            r == (Instruction::Inc { dest: register_field(bits_of(operands), 0) }),
    {
        Instruction::Inc { dest: Self::register_at(operands, 0) }
    }

    /// `dec`: the register to decrement.
    fn parse_dec(operands: Word) -> (r: Self)
        ensures
            r == (Instruction::Dec { dest: register_field(bits_of(operands), 0) }),
    {
        Instruction::Dec { dest: Self::register_at(operands, 0) }
    }

    /// `ldm`: a 27-bit source address, then the destination register.
    fn parse_load_mem(operands: Word) -> (r: Self)
        ensures
            r == (Instruction::LoadMem {
                src_addr: word_field(bits_of(operands), 0, 27),
                dest_reg: register_field(bits_of(operands), 27),
            }),
    {
        proof {
            lemma_address_fields(operands);
        }
        let src_addr = operands & Self::ADDRESS_MASK;
        let dest_reg = Self::register_at(operands, Self::LOAD_MEM_DEST_OFFSET);
        Instruction::LoadMem { src_addr, dest_reg }
    }

    /// `strm`: the source register, then a 27-bit destination address.
    fn parse_store_mem(operands: Word) -> (r: Self)
        ensures
            r == (Instruction::StoreMem {
                src_reg: register_field(bits_of(operands), 0),
                dest_addr: word_field(bits_of(operands), 27, 27),
            }),
    {
        proof {
            lemma_address_fields(operands);
        }
        let src_reg = Self::register_at(operands, 0);
        let dest_addr = (operands >> Self::STORE_MEM_DEST_OFFSET) & Self::ADDRESS_MASK;
        Instruction::StoreMem { src_reg, dest_addr }
    }
}

impl From<Word> for Instruction {
    /// Decodes an instruction word.
    fn from(instruction: Word) -> (r: Self) {
        let opcode = instruction & Self::OPCODE_MASK;
        let operands = instruction >> Self::OPCODE_OFFSET;
        proof {
            lemma_opcode(instruction);
            lemma_operand_region_fields(instruction, 0, 8);
            lemma_operand_region_fields(instruction, 13, 8);
            lemma_operand_region_fields(instruction, 18, 8);
            lemma_operand_region_fields(instruction, 26, 8);
            lemma_operand_region_fields(instruction, 27, 8);
            lemma_operand_region_fields(instruction, 36, 8);
            lemma_operand_region_fields(instruction, 39, 8);
            lemma_operand_region_fields(instruction, 46, 8);
            lemma_operand_region_fields(instruction, 0, 46);
            lemma_operand_region_fields(instruction, 0, 27);
            lemma_operand_region_fields(instruction, 27, 27);
        }
        match opcode {
            0 => Instruction::Halt,
            1 => Self::parse_load(operands),
            2 => Self::parse_add(operands),
            3 => Self::parse_sub(operands),
            4 => Self::parse_mult(operands),
            5 => Self::parse_cmp(operands),
            6 => Self::parse_jmp(operands),
            7 => Self::parse_jz(operands),
            8 => Self::parse_jnz(operands),
            9 => Self::parse_jgt(operands),
            10 => Self::parse_jlt(operands),
            11 => Self::parse_div(operands),
            12 => Self::parse_copy(operands),
            13 => Self::parse_inc(operands),
            14 => Self::parse_dec(operands),
            15 => Self::parse_load_mem(operands),
            16 => Self::parse_store_mem(operands),
            _ => Instruction::Illegal,
        }
    }
}

impl FromSpecImpl<Word> for Instruction {
    open spec fn obeys_from_spec() -> bool {
        true
    }

    open spec fn from_spec(v: Word) -> Self {
        decode(v as u64)
    }
}

impl From<u64> for Instruction {
    /// Decodes the instruction word with the given bit pattern.
    fn from(bits: u64) -> (r: Self) {
        proof {
            lemma_bits_round_trip(bits);
        }
        Instruction::from(bits as Word)
    }
}

impl FromSpecImpl<u64> for Instruction {
    open spec fn obeys_from_spec() -> bool {
        true
    }

    open spec fn from_spec(v: u64) -> Self {
        decode(v)
    }
}

/// No opcode above 16 is assigned: exactly those words decode to `Illegal`.
pub proof fn lemma_illegal_opcodes(bits: u64)
    ensures
        opcode(bits) < 1024,
        decode(bits) is Illegal <==> opcode(bits) > 16,
{
    assert(bits & 0x3ff < 1024) by (bit_vector);
}

/// A `load` immediate is a 46-bit unsigned value and a memory operand a
/// 27-bit one: decoding never yields a negative immediate or address.
pub proof fn lemma_operands_unsigned(bits: u64)
    ensures
        decode(bits) matches Instruction::Load { value, .. } ==> 0 <= value < 0x4000_0000_0000,
        decode(bits) matches Instruction::LoadMem { src_addr, .. } ==> 0 <= src_addr < 0x800_0000,
        decode(bits) matches Instruction::StoreMem { dest_addr, .. } ==> 0 <= dest_addr
            < 0x800_0000,
{
    let operands = operand_region(bits);
    assert(0 <= word_field(operands, 0, 46) < 0x4000_0000_0000) by (bit_vector);
    assert(0 <= word_field(operands, 0, 27) < 0x800_0000) by (bit_vector);
    assert(0 <= word_field(operands, 27, 27) < 0x800_0000) by (bit_vector);
}

} // verus!
