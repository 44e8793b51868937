//! Laws of the instruction set, proved of the machine model. The engines
//! inherit them: what an engine does is, by its contracts, what the model does.

use vstd::prelude::*;
use crate::error::Error;
use crate::instruction::{bits_of, decode, opcode, Instruction};
use crate::machine::Machine;
use crate::memory::{is_address, load_at, out_of_bounds, read_at, store_at, write_at};
use crate::registers::Registers;
use crate::word::{wrap, Word};

verus! {

/// The register that an instruction of the register-to-register group
/// (`load`, `copy`, `inc`, `dec`, `add`, `sub`, `mult`) writes.
pub open spec fn written_register(instruction: Instruction) -> Option<u8> {
    match instruction {
        Instruction::Load { dest_reg, .. } => Some(dest_reg),
        Instruction::Copy { dest, .. } => Some(dest),
        Instruction::Add { dest, .. } => Some(dest),
        Instruction::Sub { dest, .. } => Some(dest),
        Instruction::Mult { dest, .. } => Some(dest),
        Instruction::Inc { dest } => Some(dest),
        Instruction::Dec { dest } => Some(dest),
        _ => None,
    }
}

/// Whether `instruction` is a jump that `machine` takes: `jmp`, or a
/// conditional jump whose flag stands as it asks.
pub open spec fn takes_jump(machine: Machine, instruction: Instruction) -> bool {
    match instruction {
        Instruction::Jmp { .. } => true,
        Instruction::Jz { .. } => machine.flag_zero,
        Instruction::Jnz { .. } => !machine.flag_zero,
        Instruction::Jgt { .. } => !machine.flag_carry,
        Instruction::Jlt { .. } => machine.flag_carry,
        _ => false,
    }
}

/// The register that a jump instruction reads its target from.
pub open spec fn jump_source(instruction: Instruction) -> u8 {
    match instruction {
        Instruction::Jmp { src } => src,
        Instruction::Jz { src } => src,
        Instruction::Jnz { src } => src,
        Instruction::Jgt { src } => src,
        Instruction::Jlt { src } => src,
        _ => 0,
    }
}

/// A step whose fetch succeeds moves the instruction pointer exactly one
/// word forward, whether the instruction succeeds, faults or halts, unless
/// the instruction is a jump that is taken and finds its target: then the
/// pointer is the target.
pub proof fn lemma_step_advances(machine: Machine)
    requires
        machine.wf(),
        machine.fetch() is Ok,
    ensures
        ({
            let instruction = decode(bits_of(machine.fetch()->Ok_0));
            let next = machine.step().0;
            if takes_jump(machine, instruction) && machine.read(jump_source(instruction)) is Ok {
                &&& machine.step().1 == Ok::<bool, Error>(true)
                &&& next.instr_pointer() == machine.advanced().read(jump_source(instruction))->Ok_0
            } else {
                next.instr_pointer() == machine.instr_pointer() + 1
            }
        }),
{
}

/// A step halts exactly on a `halt` word, and then leaves the instruction
/// pointer one past the address of that word and everything else as it was.
pub proof fn lemma_halting_step(machine: Machine)
    requires
        machine.wf(),
    ensures
        machine.step().1 == Ok::<bool, Error>(false) <==> (machine.fetch() is Ok && decode(
            bits_of(machine.fetch()->Ok_0),
        ) is Halt),
        machine.step().1 == Ok::<bool, Error>(false) ==> {
            &&& machine.step().0 == machine.advanced()
            &&& machine.step().0.instr_pointer() == machine.instr_pointer() + 1
        },
{
}

/// A run that ends in a halt leaves the instruction pointer one past the
/// address of the `halt` word that ended it.
pub proof fn lemma_halt_leaves_pointer_past_halt(machine: Machine, fuel: nat)
    requires
        machine.wf(),
        machine.running,
    ensures
        ({
            let (end, result) = machine.drive(fuel);
            result is Ok && !end.running ==> {
                let halt_address = end.instr_pointer() - 1;
                &&& 0 <= halt_address < end.memory.len()
                &&& decode(bits_of(end.memory[halt_address])) is Halt
            }
        }),
    decreases fuel,
{
    if fuel > 0 {
        let (next, outcome) = machine.step();
        lemma_halting_step(machine);
        crate::machine::lemma_step_keeps_running(machine);
        if outcome == Ok::<bool, Error>(true) {
            lemma_halt_leaves_pointer_past_halt(next, (fuel - 1) as nat);
        }
    }
}

/// The model takes no step from a machine that is not running: a halted or
/// faulted machine is left as it is.
pub proof fn lemma_stopped_machine_stays(machine: Machine, fuel: nat)
    requires
        !machine.running,
    ensures
        machine.drive(fuel) == machine.unchanged(),
{
}

/// A run that has ended in a halt or a fault is the same run under every
/// larger bound: the bound decides nothing for a program that ends within it.
pub proof fn lemma_ended_run_needs_no_more_fuel(machine: Machine, fuel: nat, more: nat)
    requires
        fuel <= more,
        !machine.drive(fuel).0.running,
    ensures
        machine.drive(more) == machine.drive(fuel),
    decreases fuel,
{
    if machine.running && fuel > 0 {
        let (next, outcome) = machine.step();
        if outcome == Ok::<bool, Error>(true) {
            lemma_ended_run_needs_no_more_fuel(next, (fuel - 1) as nat, (more - 1) as nat);
        }
    }
}

/// `cmp` changes the two flags and nothing else, and comparing again
/// changes nothing more.
pub proof fn lemma_comparison_frame(machine: Machine, src1: u8, src2: u8)
    ensures
        ({
            let (after, result) = machine.comparison(src1, src2);
            &&& after.registers == machine.registers
            &&& after.memory == machine.memory
            &&& after.running == machine.running
            &&& result is Err ==> after == machine
            &&& after.comparison(src1, src2) == (after, result)
        }),
{
}

/// `load`, `copy`, `inc`, `dec`, `add`, `sub` and `mult` change at most
/// their destination register: no flag, no memory cell, not the instruction
/// pointer, no other register. Where the destination cannot be written, or
/// a source cannot be read, they change nothing at all.
pub proof fn lemma_register_instruction_frame(
    machine: Machine,
    instruction: Instruction,
    word: Word,
    other: int,
)
    requires
        written_register(instruction) is Some,
        Registers::is_readable(other),
        other != written_register(instruction)->Some_0,
    ensures
        ({
            let (after, result) = machine.execute(instruction, word);
            &&& after.flag_zero == machine.flag_zero
            &&& after.flag_carry == machine.flag_carry
            &&& after.memory == machine.memory
            &&& after.running == machine.running
            &&& after.registers.value_at(other) == machine.registers.value_at(other)
            &&& result is Err ==> after == machine
            &&& !Registers::is_writable(written_register(instruction)->Some_0 as int) ==> result is Err
        }),
{
}

/// `ldm` leaves the memory as it was, and every register but its destination.
pub proof fn lemma_load_mem_preserves_memory(machine: Machine, src_addr: Word, dest_reg: u8)
    ensures
        ({
            let (after, result) = machine.load_mem(src_addr, dest_reg);
            &&& after.memory == machine.memory
            &&& after.flag_zero == machine.flag_zero
            &&& after.flag_carry == machine.flag_carry
            &&& result is Ok ==> after.registers.value_at(dest_reg as int)
                == machine.memory[src_addr as int]
            &&& result is Err ==> after == machine
        }),
{
}

/// `strm` leaves the registers as they were, the source among them, and
/// every cell but its destination.
pub proof fn lemma_store_mem_preserves_registers(machine: Machine, src_reg: u8, dest_addr: Word)
    ensures
        ({
            let (after, result) = machine.store_mem(src_reg, dest_addr);
            &&& after.registers == machine.registers
            &&& after.flag_zero == machine.flag_zero
            &&& after.flag_carry == machine.flag_carry
            &&& result is Ok ==> after.memory == machine.memory.update(
                dest_addr as int,
                machine.registers.value_at(src_reg as int),
            )
            &&& result is Err ==> after == machine
        }),
{
}

/// `div` by a register that holds zero fails with `DivisionByZero`, which
/// carries the address of the instruction, one before the pointer, and
/// writes nothing, whatever the destinations are.
pub proof fn lemma_division_by_zero(
    machine: Machine,
    src1: u8,
    src2: u8,
    quot_dest: u8,
    rem_dest: u8,
)
    requires
        machine.read(src1) is Ok,
        machine.read(src2) == Ok::<Word, Error>(0),
    ensures
        machine.division(src1, src2, quot_dest, rem_dest) == machine.fault(
            Error::DivisionByZero { instr_pointer: wrap(machine.instr_pointer() - 1) },
        ),
{
}

/// A `div` fetched from address `p` whose divisor register holds zero: the
/// handler runs with the pointer at `p + 1` and reports `p`.
pub proof fn lemma_division_by_zero_reports_its_address(
    machine: Machine,
    p: Word,
    src1: u8,
    src2: u8,
    quot_dest: u8,
    rem_dest: u8,
)
    requires
        p < i64::MAX,
        machine.instr_pointer() == p + 1,
        machine.read(src1) is Ok,
        machine.read(src2) == Ok::<Word, Error>(0),
    ensures
        machine.division(src1, src2, quot_dest, rem_dest) == machine.fault(
            Error::DivisionByZero { instr_pointer: p },
        ),
{
}

/// A step onto a `div` whose divisor register holds zero fails with
/// `DivisionByZero`, which carries the address of the `div`; the instruction
/// pointer is past it and nothing else has changed.
pub proof fn lemma_division_by_zero_step(machine: Machine)
    requires
        machine.wf(),
        machine.fetch() is Ok,
        decode(bits_of(machine.fetch()->Ok_0)) matches Instruction::Div { src1, src2, .. }
            && machine.advanced().read(src1) is Ok && machine.advanced().read(src2) == Ok::<
            Word,
            Error,
        >(0),
    ensures
        machine.step() == (
            machine.advanced(),
            Err::<bool, Error>(Error::DivisionByZero { instr_pointer: machine.instr_pointer() }),
        ),
{
}

/// The fault for a word with no assigned opcode, raised with the pointer at
/// `p + 1`, carries `p`, the address that the word was fetched from.
pub proof fn lemma_illegal_opcode_reports_its_address(machine: Machine, p: Word, word: Word)
    requires
        p < i64::MAX,
        machine.instr_pointer() == p + 1,
    ensures
        machine.illegal(word) == machine.fault(
            Error::IllegalOpcode { instruction: word, instr_pointer: p },
        ),
{
}

/// An access to a cell at or past the end of the memory fails with
/// `InvalidMemoryAddress`, which carries the address and the length, and
/// leaves the memory as it was.
pub proof fn lemma_access_out_of_bounds(memory: Seq<Word>, address: usize, data: Word)
    requires
        address >= memory.len(),
    ensures
        read_at(memory, address) == Err::<Word, Error>(out_of_bounds(address, memory.len())),
        write_at(memory, address, data) == (
            memory,
            Err::<(), Error>(out_of_bounds(address, memory.len())),
        ),
{
}

/// An access through a word that is negative, or at or past the end of the
/// memory, fails with `InvalidMemoryAddress` and leaves the memory as it was.
pub proof fn lemma_word_access_out_of_bounds(memory: Seq<Word>, address: Word, data: Word)
    requires
        address < 0 || address >= memory.len(),
    ensures
        load_at(memory, address) == Err::<Word, Error>(
            out_of_bounds(address as usize, memory.len()),
        ),
        store_at(memory, address, data) == (
            memory,
            Err::<(), Error>(out_of_bounds(address as usize, memory.len())),
        ),
{
}

/// A step of a machine whose instruction pointer names no cell fails with
/// `InvalidMemoryAddress` and changes nothing; so do `ldm` and `strm` on
/// such an address, once `strm` has read its source.
pub proof fn lemma_machine_access_out_of_bounds(machine: Machine, address: Word, reg: u8)
    requires
        !is_address(machine.memory, address),
    ensures
        machine.instr_pointer() == address ==> machine.step() == (
            machine,
            Err::<bool, Error>(out_of_bounds(address as usize, machine.memory.len())),
        ),
        machine.load_mem(address, reg) == machine.fault(
            out_of_bounds(address as usize, machine.memory.len()),
        ),
        machine.read(reg) is Ok ==> machine.store_mem(reg, address) == machine.fault(
            out_of_bounds(address as usize, machine.memory.len()),
        ),
{
}

/// A step onto a word whose opcode is not assigned fails with
/// `IllegalOpcode`, which carries the word and its address; the instruction
/// pointer is past the word and nothing else has changed.
pub proof fn lemma_illegal_opcode_step(machine: Machine)
    requires
        machine.fetch() is Ok,
        opcode(bits_of(machine.fetch()->Ok_0)) > 16,
    ensures
        machine.step() == (
            machine.advanced(),
            Err::<bool, Error>(
                Error::IllegalOpcode {
                    instruction: machine.fetch()->Ok_0,
                    instr_pointer: machine.instr_pointer(),
                },
            ),
        ),
{
}

} // verus!
