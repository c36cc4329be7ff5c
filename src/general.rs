use vstd::prelude::*;
use crate::cpu8086::CPU;
use crate::memory::{linear, Segment};
use crate::memory1mb::{read_word, write_word, MEMORY_SIZE};
use crate::register;

verus! {

/// The stack pointer after a push.
pub open spec fn sp_after_push(sp: u16) -> u16 {
    ((sp + 0xFFFE) % 0x10000) as u16
}

/// The stack pointer after a pop.
pub open spec fn sp_after_pop(sp: u16) -> u16 {
    ((sp + 2) % 0x10000) as u16
}

/// Pushes a word: SP goes down by two, then the word is written at SS:SP.
pub fn push(cpu: &mut CPU, value: u16)
    requires
        old(cpu).wf(),
    ensures
        ({
            let sp = sp_after_push(old(cpu).regs.sp);
            let c = CPU { regs: old(cpu).regs.with_word(register::Word::SP, sp), ..*old(cpu) };
            c.only_ram(*final(cpu), write_word(old(cpu).ram(), old(cpu).mem_addr(Segment::SS, sp), value))
        }),
{
    cpu.regs.sp = cpu.regs.sp.wrapping_sub(2);
    let sp = cpu.regs.sp;
    cpu.set_mem_word(Segment::SS, sp, value);
}

/// Pops a word: it is read at SS:SP, then SP goes up by two.
pub fn pop(cpu: &mut CPU) -> (r: u16)
    requires
        old(cpu).wf(),
    ensures
        r as int == read_word(old(cpu).ram(), old(cpu).mem_addr(Segment::SS, old(cpu).regs.sp)),
        *final(cpu) == (CPU {
            regs: old(cpu).regs.with_word(register::Word::SP, sp_after_pop(old(cpu).regs.sp)),
            ..*old(cpu)
        }),
{
    let value = cpu.mem_word(Segment::SS, cpu.regs.sp);
    cpu.regs.sp = cpu.regs.sp.wrapping_add(2);
    value
}

/// A word pushed and then popped comes back unchanged, and the stack pointer returns to where
/// it was.
pub proof fn lemma_push_pop(ram: Seq<u8>, ss: u16, sp: u16, v: u16)
    requires
        ram.len() == MEMORY_SIZE,
    ensures
        read_word(
            write_word(ram, linear(ss as int, sp_after_push(sp) as int), v),
            linear(ss as int, sp_after_push(sp) as int),
        ) == v,
        sp_after_pop(sp_after_push(sp)) == sp,
{
    let a = linear(ss as int, sp_after_push(sp) as int);
    crate::memory1mb::lemma_word_then_bytes(ram, a, v);
}

} // verus!
