use vstd::prelude::*;
use crate::cpu8086::CPU;
use crate::flag::Flags;
use crate::general;
use crate::general::{sp_after_pop, sp_after_push};
use crate::memory::Segment;
use crate::memory1mb::{read_word, write_word};
use crate::operand;
use crate::register;

verus! {

pub fn cmc(cpu: &mut CPU) -> (r: usize)
    ensures *final(cpu) == (CPU { flags: Flags { carry: !old(cpu).flags.carry, ..old(cpu).flags }, ..*old(cpu) }),
{
    cpu.flags.carry = !cpu.flags.carry;
    2
}

pub fn clc(cpu: &mut CPU) -> (r: usize)
    ensures *final(cpu) == (CPU { flags: Flags { carry: false, ..old(cpu).flags }, ..*old(cpu) }),
{
    cpu.flags.carry = false;
    2
}

pub fn stc(cpu: &mut CPU) -> (r: usize)
    ensures *final(cpu) == (CPU { flags: Flags { carry: true, ..old(cpu).flags }, ..*old(cpu) }),
{
    cpu.flags.carry = true;
    2
}

pub fn cli(cpu: &mut CPU) -> (r: usize)
    ensures *final(cpu) == (CPU { flags: Flags { interrupt: false, ..old(cpu).flags }, ..*old(cpu) }),
{
    cpu.flags.interrupt = false;
    2
}

pub fn sti(cpu: &mut CPU) -> (r: usize)
    ensures *final(cpu) == (CPU { flags: Flags { interrupt: true, ..old(cpu).flags }, ..*old(cpu) }),
{
    cpu.flags.interrupt = true;
    2
}

pub fn cld(cpu: &mut CPU) -> (r: usize)
    ensures *final(cpu) == (CPU { flags: Flags { direction: false, ..old(cpu).flags }, ..*old(cpu) }),
{
    cpu.flags.direction = false;
    2
}

/// STD (set the direction flag).
pub fn std_flag(cpu: &mut CPU) -> (r: usize)
    ensures *final(cpu) == (CPU { flags: Flags { direction: true, ..old(cpu).flags }, ..*old(cpu) }),
{
    cpu.flags.direction = true;
    2
}

/// PUSH of an operand.
pub fn push(cpu: &mut CPU, op: operand::Word) -> (r: usize)
    requires
        old(cpu).wf(),
    ensures
        ({
            let sp = sp_after_push(old(cpu).regs.sp);
            let c = CPU { regs: old(cpu).regs.with_word(register::Word::SP, sp), ..*old(cpu) };
            c.only_ram(*final(cpu), write_word(old(cpu).ram(), old(cpu).mem_addr(Segment::SS, sp), old(cpu).word_val(&op) as u16))
        }),
{
    let value = cpu.read_word(&op);
    general::push(cpu, value);
    11
}

/// PUSHF.
pub fn pushf(cpu: &mut CPU) -> (r: usize)
    requires
        old(cpu).wf(),
    ensures
        ({
            let sp = sp_after_push(old(cpu).regs.sp);
            let c = CPU { regs: old(cpu).regs.with_word(register::Word::SP, sp), ..*old(cpu) };
            c.only_ram(*final(cpu), write_word(old(cpu).ram(), old(cpu).mem_addr(Segment::SS, sp), old(cpu).flags.bits_word() as u16))
        }),
{
    let value = cpu.flags.get_bits_word();
    general::push(cpu, value);
    10
}

/// POP into an operand; the popped word is written after SP has moved.
pub fn pop(cpu: &mut CPU, op: operand::Word) -> (r: usize)
    requires
        old(cpu).wf(),
        !(op is Imm),
    ensures
        final(cpu).wf(),
        (CPU {
            regs: old(cpu).regs.with_word(register::Word::SP, sp_after_pop(old(cpu).regs.sp)),
            ..*old(cpu)
        }).word_written(
            *final(cpu),
            &op,
            read_word(old(cpu).ram(), old(cpu).mem_addr(Segment::SS, old(cpu).regs.sp)) as u16,
        ),
{
    let value = general::pop(cpu);
    cpu.write_word(&op, value);
    8
}

/// POPF.
pub fn popf(cpu: &mut CPU) -> (r: usize)
    requires
        old(cpu).wf(),
    ensures
        *final(cpu) == (CPU {
            regs: old(cpu).regs.with_word(register::Word::SP, sp_after_pop(old(cpu).regs.sp)),
            flags: old(cpu).flags.from_bits_word(read_word(old(cpu).ram(), old(cpu).mem_addr(Segment::SS, old(cpu).regs.sp))),
            ..*old(cpu)
        }),
{
    let value = general::pop(cpu);
    cpu.flags.set_bits_word(value);
    8
}

/// LAHF: AH gets the low byte of the flag word.
pub fn lahf(cpu: &mut CPU) -> (r: usize)
    ensures
        *final(cpu) == (CPU {
            regs: old(cpu).regs.with_byte(register::Byte::AH, old(cpu).flags.bits_byte() as u8),
            ..*old(cpu)
        }),
{
    let value = cpu.flags.get_bits_byte();
    cpu.regs.set_byte(&register::Byte::AH, value);
    4
}

/// SAHF: the low flags are read from AH.
pub fn sahf(cpu: &mut CPU) -> (r: usize)
    ensures
        *final(cpu) == (CPU {
            flags: old(cpu).flags.from_bits_byte(old(cpu).regs.byte(register::Byte::AH)),
            ..*old(cpu)
        }),
{
    let value = cpu.regs.get_byte(&register::Byte::AH);
    cpu.flags.set_bits_byte(value);
    4
}

} // verus!
