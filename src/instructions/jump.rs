use vstd::prelude::*;
use crate::cpu8086::{same_pointers, CPU};
use crate::flag::Flags;
use crate::general;
use crate::general::{sp_after_pop, sp_after_push};
use crate::memory::{linear, Memory, Segment};
use crate::memory1mb::{read_word, MEMORY_SIZE};
use crate::operand;
use crate::register;

verus! {

/// The stack pointer after three pushes.
pub open spec fn sp_after_three_pushes(sp: u16) -> u16 {
    ((sp + 0x10000 - 6) % 0x10000) as u16
}

/// Whether `new` took interrupt `index` from `old`: FLAGS, CS and IP pushed, IF and TF
/// cleared, CS:IP loaded from the vector table.
pub open spec fn interrupt_taken(old: CPU, new: CPU, index: u8) -> bool {
    &&& new.wf()
    &&& new.flags == (Flags { interrupt: false, trap: false, ..old.flags })
    &&& new.regs == old.regs.with_word(register::Word::SP, sp_after_three_pushes(old.regs.sp))
    &&& new.memory.ip as int == read_word(new.ram(), 4 * index as int)
    &&& new.memory.cs as int == read_word(new.ram(), 4 * index as int + 2)
    &&& read_word(new.ram(), linear(old.memory.ss as int, new.regs.sp as int)) == old.memory.ip
    &&& read_word(new.ram(), linear(old.memory.ss as int, (new.regs.sp + 2) % 0x10000)) == old.memory.cs
    &&& read_word(new.ram(), linear(old.memory.ss as int, (new.regs.sp + 4) % 0x10000))
        == old.flags.bits_word()
    &&& new.memory.ss == old.memory.ss && new.memory.ds == old.memory.ds && new.memory.es
        == old.memory.es
    &&& new.memory.current_segment == old.memory.current_segment && new.memory.overridden
        == old.memory.overridden
    &&& new.bus == old.bus && new.interrupt == old.interrupt && new.halted == old.halted
}

/// A word written at offset `x` of a segment leaves a word at offset `y` alone when the two do
/// not share a byte.
proof fn lemma_disjoint_words(ram: Seq<u8>, s: int, x: int, y: int, v: u16)
    requires
        ram.len() == MEMORY_SIZE,
        0 <= s < 0x10000,
        0 <= x < 0x10000,
        0 <= y < 0x10000,
        x - y != 1 && x - y != 0 && x - y != -1,
    ensures
        read_word(crate::memory1mb::write_word(ram, linear(s, x), v), linear(s, y)) == read_word(ram, linear(s, y)),
{
    let a = 16 * s + x;
    let b = 16 * s + y;
    assert(a % 0x10_0000 != b % 0x10_0000);
    assert((a % 0x10_0000 + 1) % 0x10_0000 != b % 0x10_0000);
    assert(a % 0x10_0000 != (b % 0x10_0000 + 1) % 0x10_0000);
    assert((a % 0x10_0000 + 1) % 0x10_0000 != (b % 0x10_0000 + 1) % 0x10_0000);
}

fn vector_word(cpu: &CPU, addr: usize) -> (r: u16)
    requires
        cpu.wf(),
        addr < MEMORY_SIZE,
    ensures
        r as int == read_word(cpu.ram(), addr as int),
{
    cpu.memory.get_word_msg(addr)
}

#[verifier::rlimit(100)]
fn push_frame(cpu: &mut CPU, flags: u16)
    requires
        old(cpu).wf(),
    ensures
        final(cpu).wf(),
        final(cpu).regs == old(cpu).regs.with_word(register::Word::SP, sp_after_three_pushes(old(cpu).regs.sp)),
        read_word(final(cpu).ram(), linear(old(cpu).memory.ss as int, final(cpu).regs.sp as int))
            == old(cpu).memory.ip,
        read_word(final(cpu).ram(), linear(old(cpu).memory.ss as int, (final(cpu).regs.sp + 2) % 0x10000))
            == old(cpu).memory.cs,
        read_word(final(cpu).ram(), linear(old(cpu).memory.ss as int, (final(cpu).regs.sp + 4) % 0x10000))
            == flags,
        same_pointers(final(cpu).memory, old(cpu).memory),
        final(cpu).flags == old(cpu).flags,
        final(cpu).bus == old(cpu).bus,
        final(cpu).interrupt == old(cpu).interrupt,
        final(cpu).halted == old(cpu).halted,
{
    let r0 = Ghost(cpu.ram());
    general::push(cpu, flags);
    let s2 = Ghost(cpu.regs.sp as int);
    proof {
        crate::memory1mb::lemma_word_then_bytes(r0@, linear(cpu.memory.ss as int, s2@), flags);
    }
    let r1 = Ghost(cpu.ram());
    assert(same_pointers(cpu.memory, old(cpu).memory) && cpu.flags == old(cpu).flags && cpu.bus == old(cpu).bus);
    let cs = cpu.memory.cs;
    general::push(cpu, cs);
    let s4 = Ghost(cpu.regs.sp as int);
    proof {
        crate::memory1mb::lemma_word_then_bytes(r1@, linear(cpu.memory.ss as int, s4@), cs);
        lemma_disjoint_words(r1@, cpu.memory.ss as int, s4@, s2@, cs);
    }
    assert(same_pointers(cpu.memory, old(cpu).memory) && cpu.flags == old(cpu).flags && cpu.bus == old(cpu).bus);
    assert(cpu.regs == old(cpu).regs.with_word(register::Word::SP, sp_after_push(sp_after_push(old(cpu).regs.sp))));
    let ip = cpu.memory.ip;
    let before = Ghost(cpu.ram());
    general::push(cpu, ip);
    proof {
        crate::memory1mb::lemma_word_then_bytes(
            before@,
            linear(cpu.memory.ss as int, cpu.regs.sp as int),
            ip,
        );
        lemma_disjoint_words(before@, cpu.memory.ss as int, cpu.regs.sp as int, s4@, ip);
        lemma_disjoint_words(before@, cpu.memory.ss as int, cpu.regs.sp as int, s2@, ip);
        assert(s4@ == (cpu.regs.sp + 2) % 0x10000);
        assert(s2@ == (cpu.regs.sp + 4) % 0x10000);
        assert(sp_after_push(sp_after_push(sp_after_push(old(cpu).regs.sp))) == sp_after_three_pushes(old(cpu).regs.sp));
    }
}

fn take_interrupt(cpu: &mut CPU, index: u8)
    requires
        old(cpu).wf(),
    ensures
        interrupt_taken(*old(cpu), *final(cpu), index),
{
    let flags = cpu.flags.get_bits_word();
    push_frame(cpu, flags);
    cpu.flags.interrupt = false;
    cpu.flags.trap = false;
    let new_ip = vector_word(cpu, index as usize * 4);
    let new_cs = vector_word(cpu, index as usize * 4 + 2);
    cpu.memory.ip = new_ip;
    cpu.memory.cs = new_cs;
}

/// A hardware interrupt delivered by the interrupt controller: also ends a HLT.
pub fn hardware_int(cpu: &mut CPU, index: u8)
    requires
        old(cpu).wf(),
    ensures
        interrupt_taken(CPU { halted: false, ..*old(cpu) }, *final(cpu), index),
{
    cpu.halted = false;
    take_interrupt(cpu, index);
}

/// INT n (the `int` instruction).
pub fn int_n(cpu: &mut CPU, index: u8) -> (r: usize)
    requires
        old(cpu).wf(),
    ensures
        interrupt_taken(*old(cpu), *final(cpu), index),
        r == 51,
{
    take_interrupt(cpu, index);
    51
}

/// INTO: INT 4 when the overflow flag is set.
pub fn into(cpu: &mut CPU) -> (r: usize)
    requires
        old(cpu).wf(),
    ensures
        old(cpu).flags.overflow ==> interrupt_taken(*old(cpu), *final(cpu), 4),
        !old(cpu).flags.overflow ==> *final(cpu) == *old(cpu),
{
    if cpu.flags.overflow {
        take_interrupt(cpu, 4);
        53
    } else {
        4
    }
}

/// IRET: pops IP, CS and the flag word.
pub fn iret(cpu: &mut CPU) -> (r: usize)
    requires
        old(cpu).wf(),
    ensures
        ({
            let o = *old(cpu);
            let sp0 = o.regs.sp;
            let sp1 = sp_after_pop(sp0);
            let sp2 = sp_after_pop(sp1);
            *final(cpu) == (CPU {
                memory: Memory {
                    ip: read_word(o.ram(), o.mem_addr(Segment::SS, sp0)) as u16,
                    cs: read_word(o.ram(), o.mem_addr(Segment::SS, sp1)) as u16,
                    ..o.memory
                },
                regs: o.regs.with_word(register::Word::SP, sp_after_pop(sp2)),
                flags: o.flags.from_bits_word(read_word(o.ram(), o.mem_addr(Segment::SS, sp2))),
                ..o
            })
        }),
{
    cpu.memory.ip = general::pop(cpu);
    cpu.memory.cs = general::pop(cpu);
    let flag_word = general::pop(cpu);
    cpu.flags.set_bits_word(flag_word);
    24
}

/// The instruction pointer moved by a signed displacement, inside the segment.
pub open spec fn ip_plus(ip: u16, disp: int) -> u16 {
    ((ip + disp + 0x10000) % 0x10000) as u16
}

/// A short conditional jump.
pub fn jmp_relative(cpu: &mut CPU, relative_offset: i8, condition: bool) -> (r: usize)
    ensures
        condition ==> *final(cpu) == (CPU {
            memory: Memory { ip: ip_plus(old(cpu).memory.ip, relative_offset as int), ..old(cpu).memory },
            ..*old(cpu)
        }),
        !condition ==> *final(cpu) == *old(cpu),
        r <= 16,
{
    if condition {
        let d: u16 = if relative_offset < 0 {
            (0x10000 + relative_offset as i32) as u16
        } else {
            relative_offset as u16
        };
        cpu.memory.ip = cpu.memory.ip.wrapping_add(d);
        16
    } else {
        4
    }
}

/// A near jump by a 16-bit displacement.
pub fn jmp_relative_word(cpu: &mut CPU, relative_offset: u16) -> (r: usize)
    ensures
        *final(cpu) == (CPU {
            memory: Memory { ip: ((old(cpu).memory.ip + relative_offset) % 0x10000) as u16, ..old(cpu).memory },
            ..*old(cpu)
        }),
{
    cpu.memory.ip = cpu.memory.ip.wrapping_add(relative_offset);
    15
}

/// A near jump to the offset an operand holds.
pub fn jmp_word(cpu: &mut CPU, op: operand::Word) -> (r: usize)
    requires
        old(cpu).wf(),
    ensures
        *final(cpu) == (CPU {
            memory: Memory { ip: old(cpu).word_val(&op) as u16, ..old(cpu).memory },
            ..*old(cpu)
        }),
{
    let value = cpu.read_word(&op);
    cpu.memory.ip = value;
    11
}

/// A far jump to `segment:offset`.
pub fn jmp_addr(cpu: &mut CPU, segment: operand::Word, offset: operand::Word) -> (r: usize)
    requires
        old(cpu).wf(),
    ensures
        *final(cpu) == (CPU {
            memory: Memory {
                cs: old(cpu).word_val(&segment) as u16,
                ip: old(cpu).word_val(&offset) as u16,
                ..old(cpu).memory
            },
            ..*old(cpu)
        }),
{
    let seg = cpu.read_word(&segment);
    let off = cpu.read_word(&offset);
    cpu.memory.cs = seg;
    cpu.memory.ip = off;
    15
}

/// A far jump through a memory operand holding offset then segment; with a register operand
/// (ill-formed) it is taken as a near jump to the register's value.
pub fn jmp_far(cpu: &mut CPU, op: operand::Word) -> (r: usize)
    requires
        old(cpu).wf(),
    ensures
        final(cpu).wf(),
        final(cpu).ram() == old(cpu).ram(),
        final(cpu).regs == old(cpu).regs,
        final(cpu).memory.ip as int == old(cpu).word_val(&op),
        op matches operand::Word::Mem { addr, seg, .. } ==> final(cpu).memory.cs as int == read_word(
            old(cpu).ram(),
            old(cpu).mem_addr(seg, ((addr + 2) % 0x10000) as u16),
        ),
        !(op is Mem) ==> final(cpu).memory.cs == old(cpu).memory.cs,
{
    match op {
        operand::Word::Mem { addr, seg, .. } => {
            let offset = cpu.mem_word(seg, addr);
            let segment = cpu.mem_word(seg, addr.wrapping_add(2));
            cpu.memory.cs = segment;
            cpu.memory.ip = offset;
        },
        _ => {
            let offset = cpu.read_word(&op);
            cpu.memory.ip = offset;
        },
    }
    24
}

/// A near call to the offset an operand holds.
pub fn call_word(cpu: &mut CPU, offset: operand::Word) -> (r: usize)
    requires
        old(cpu).wf(),
    ensures
        final(cpu).wf(),
        final(cpu).memory.ip as int == old(cpu).word_val(&offset),
        final(cpu).regs.sp == sp_after_push(old(cpu).regs.sp),
        read_word(final(cpu).ram(), linear(old(cpu).memory.ss as int, final(cpu).regs.sp as int))
            == old(cpu).memory.ip,
        final(cpu).memory.cs == old(cpu).memory.cs,
{
    let off_val = cpu.read_word(&offset);
    let ip = cpu.memory.ip;
    general::push(cpu, ip);
    proof {
        crate::memory1mb::lemma_word_then_bytes(old(cpu).ram(), linear(cpu.memory.ss as int, cpu.regs.sp as int), ip);
    }
    cpu.memory.ip = off_val;
    21
}

/// A near call by a 16-bit displacement.
pub fn call_relative_word(cpu: &mut CPU, offset: operand::Word) -> (r: usize)
    requires
        old(cpu).wf(),
    ensures
        final(cpu).wf(),
        final(cpu).memory.ip as int == (old(cpu).memory.ip + old(cpu).word_val(&offset)) % 0x10000,
        final(cpu).regs.sp == sp_after_push(old(cpu).regs.sp),
        read_word(final(cpu).ram(), linear(old(cpu).memory.ss as int, final(cpu).regs.sp as int))
            == old(cpu).memory.ip,
        final(cpu).memory.cs == old(cpu).memory.cs,
{
    let rel = cpu.read_word(&offset);
    let ip = cpu.memory.ip;
    general::push(cpu, ip);
    proof {
        crate::memory1mb::lemma_word_then_bytes(old(cpu).ram(), linear(cpu.memory.ss as int, cpu.regs.sp as int), ip);
    }
    cpu.memory.ip = ip.wrapping_add(rel);
    19
}

fn push_far_return(cpu: &mut CPU)
    requires
        old(cpu).wf(),
    ensures
        final(cpu).wf(),
        final(cpu).regs.sp == sp_after_push(sp_after_push(old(cpu).regs.sp)),
        read_word(final(cpu).ram(), linear(old(cpu).memory.ss as int, final(cpu).regs.sp as int))
            == old(cpu).memory.ip,
        same_pointers(final(cpu).memory, old(cpu).memory),
        final(cpu).flags == old(cpu).flags,
{
    let cs = cpu.memory.cs;
    general::push(cpu, cs);
    let ip = cpu.memory.ip;
    let before = Ghost(cpu.ram());
    general::push(cpu, ip);
    proof {
        crate::memory1mb::lemma_word_then_bytes(before@, linear(cpu.memory.ss as int, cpu.regs.sp as int), ip);
    }
}

/// A far call to `segment:offset`: CS then IP are pushed.
pub fn call_addr(cpu: &mut CPU, segment: operand::Word, offset: operand::Word) -> (r: usize)
    requires
        old(cpu).wf(),
    ensures
        final(cpu).wf(),
        final(cpu).memory.cs as int == old(cpu).word_val(&segment),
        final(cpu).memory.ip as int == old(cpu).word_val(&offset),
        final(cpu).regs.sp == sp_after_push(sp_after_push(old(cpu).regs.sp)),
        read_word(final(cpu).ram(), linear(old(cpu).memory.ss as int, final(cpu).regs.sp as int))
            == old(cpu).memory.ip,
{
    let seg = cpu.read_word(&segment);
    let off = cpu.read_word(&offset);
    push_far_return(cpu);
    cpu.memory.cs = seg;
    cpu.memory.ip = off;
    28
}

/// A far call through a memory operand holding offset then segment; with a register operand
/// (ill-formed) it is taken as a near call to the register's value.
pub fn call_far(cpu: &mut CPU, op: operand::Word) -> (r: usize)
    requires
        old(cpu).wf(),
    ensures
        final(cpu).wf(),
        final(cpu).memory.ip as int == old(cpu).word_val(&op),
        op matches operand::Word::Mem { addr, seg, .. } ==> final(cpu).memory.cs as int == read_word(
            old(cpu).ram(),
            old(cpu).mem_addr(seg, ((addr + 2) % 0x10000) as u16),
        ) && final(cpu).regs.sp == sp_after_push(sp_after_push(old(cpu).regs.sp)),
        !(op is Mem) ==> final(cpu).memory.cs == old(cpu).memory.cs && final(cpu).regs.sp
            == sp_after_push(old(cpu).regs.sp),
{
    match op {
        operand::Word::Mem { addr, seg, .. } => {
            let offset = cpu.mem_word(seg, addr);
            let segment = cpu.mem_word(seg, addr.wrapping_add(2));
            push_far_return(cpu);
            cpu.memory.cs = segment;
            cpu.memory.ip = offset;
            37
        },
        _ => call_word(cpu, op),
    }
}

/// RET: pops IP, then adds the optional immediate to SP.
pub fn ret(cpu: &mut CPU, add_sp: Option<u16>) -> (r: usize)
    requires
        old(cpu).wf(),
    ensures
        final(cpu).wf(),
        final(cpu).memory.ip as int == read_word(old(cpu).ram(), old(cpu).mem_addr(Segment::SS, old(cpu).regs.sp)),
        final(cpu).regs.sp as int == (sp_after_pop(old(cpu).regs.sp) + match add_sp {
            Some(n) => n as int,
            None => 0,
        }) % 0x10000,
        final(cpu).memory.cs == old(cpu).memory.cs,
        final(cpu).ram() == old(cpu).ram(),
{
    cpu.memory.ip = general::pop(cpu);
    if let Some(num) = add_sp {
        cpu.regs.sp = cpu.regs.sp.wrapping_add(num);
    }
    20
}

/// RETF: pops IP and CS, then adds the optional immediate to SP.
pub fn retf(cpu: &mut CPU, add_sp: Option<u16>) -> (r: usize)
    requires
        old(cpu).wf(),
    ensures
        ({
            let o = *old(cpu);
            let sp1 = sp_after_pop(o.regs.sp);
            let sp2 = sp_after_pop(sp1);
            *final(cpu) == (CPU {
                memory: Memory {
                    ip: read_word(o.ram(), o.mem_addr(Segment::SS, o.regs.sp)) as u16,
                    cs: read_word(o.ram(), o.mem_addr(Segment::SS, sp1)) as u16,
                    ..o.memory
                },
                regs: o.regs.with_word(
                    register::Word::SP,
                    ((sp2 + match add_sp {
                        Some(n) => n as int,
                        None => 0,
                    }) % 0x10000) as u16,
                ),
                ..o
            })
        }),
{
    cpu.memory.ip = general::pop(cpu);
    cpu.memory.cs = general::pop(cpu);
    if let Some(num) = add_sp {
        cpu.regs.sp = cpu.regs.sp.wrapping_add(num);
    }
    32
}

/// LOOP, LOOPE, LOOPNE: CX goes down by one; the jump is taken when CX is not zero and the
/// condition holds.
pub fn loop_relative(cpu: &mut CPU, relative_offset: i8, condition: bool) -> (r: usize)
    ensures
        final(cpu).regs.cx as int == (old(cpu).regs.cx + 0xFFFF) % 0x10000,
        final(cpu).memory.ip == if final(cpu).regs.cx != 0 && condition {
            ip_plus(old(cpu).memory.ip, relative_offset as int)
        } else {
            old(cpu).memory.ip
        },
        final(cpu).memory.cs == old(cpu).memory.cs,
        final(cpu).memory.ram == old(cpu).memory.ram,
        final(cpu).flags == old(cpu).flags,
{
    cpu.regs.cx = cpu.regs.cx.wrapping_sub(1);
    if cpu.regs.cx != 0 {
        jmp_relative(cpu, relative_offset, condition) + 1
    } else {
        5
    }
}

} // verus!
