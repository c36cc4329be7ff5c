use vstd::prelude::*;
use crate::cpu8086::CPU;
use crate::instructions::set::{source_seg, source_segment};
use crate::memory::Segment;
use crate::memory1mb::{read_word, write_word};
use crate::flag::Flags;
use crate::memory::Memory;
use crate::register;

verus! {

/// An index register after one step of a string operation of `amount` bytes: up when the
/// direction flag is clear, down when it is set.
pub open spec fn stepped(v: u16, amount: int, down: bool) -> u16 {
    if down {
        ((v + 0x10000 - amount) % 0x10000) as u16
    } else {
        ((v + amount) % 0x10000) as u16
    }
}

fn step(v: u16, amount: u16, down: bool) -> (r: u16)
    requires
        amount <= 2,
    ensures
        r == stepped(v, amount as int, down),
{
    if down {
        v.wrapping_sub(amount)
    } else {
        v.wrapping_add(amount)
    }
}

/// What string instruction `op` does from `o` to `n`.
#[verifier::opaque]
pub open spec fn string_done(o: CPU, n: CPU, op: int) -> bool {
    if op == 0xA4 {
            let v = o.ram()[o.mem_addr(source_segment(o), o.regs.si)];
            let c = CPU {
                regs: o.regs.with_word(register::Word::SI, stepped(o.regs.si, 1, o.flags.direction)).with_word(
                    register::Word::DI,
                    stepped(o.regs.di, 1, o.flags.direction),
                ),
                ..o
            };
            c.only_ram(n, o.ram().update(o.mem_addr(Segment::ES, o.regs.di), v))
    } else if op == 0xA5 {
            let v = read_word(o.ram(), o.mem_addr(source_segment(o), o.regs.si));
            let c = CPU {
                regs: o.regs.with_word(register::Word::SI, stepped(o.regs.si, 2, o.flags.direction)).with_word(
                    register::Word::DI,
                    stepped(o.regs.di, 2, o.flags.direction),
                ),
                ..o
            };
            c.only_ram(n, write_word(o.ram(), o.mem_addr(Segment::ES, o.regs.di), v as u16))
    } else if op == 0xA6 {
            let a = o.ram()[o.mem_addr(source_segment(o), o.regs.si)] as int;
            let b = o.ram()[o.mem_addr(Segment::ES, o.regs.di)] as int;
            n == (CPU {
                regs: o.regs.with_word(register::Word::SI, stepped(o.regs.si, 1, o.flags.direction)).with_word(
                    register::Word::DI,
                    stepped(o.regs.di, 1, o.flags.direction),
                ),
                flags: o.flags.after_sub(a, b, 0, false),
                ..o
            })
    } else if op == 0xA7 {
            let a = read_word(o.ram(), o.mem_addr(source_segment(o), o.regs.si));
            let b = read_word(o.ram(), o.mem_addr(Segment::ES, o.regs.di));
            n == (CPU {
                regs: o.regs.with_word(register::Word::SI, stepped(o.regs.si, 2, o.flags.direction)).with_word(
                    register::Word::DI,
                    stepped(o.regs.di, 2, o.flags.direction),
                ),
                flags: o.flags.after_sub(a, b, 0, true),
                ..o
            })
    } else if op == 0xAA {
            let c = CPU {
                regs: o.regs.with_word(register::Word::DI, stepped(o.regs.di, 1, o.flags.direction)),
                ..o
            };
            c.only_ram(n, o.ram().update(o.mem_addr(Segment::ES, o.regs.di), o.regs.byte(register::Byte::AL) as u8))
    } else if op == 0xAB {
            let c = CPU {
                regs: o.regs.with_word(register::Word::DI, stepped(o.regs.di, 2, o.flags.direction)),
                ..o
            };
            c.only_ram(n, write_word(o.ram(), o.mem_addr(Segment::ES, o.regs.di), o.regs.ax))
    } else if op == 0xAC {
            n == (CPU {
                regs: o.regs.with_byte(register::Byte::AL, o.ram()[o.mem_addr(source_segment(o), o.regs.si)]).with_word(
                    register::Word::SI,
                    stepped(o.regs.si, 1, o.flags.direction),
                ),
                ..o
            })
    } else if op == 0xAD {
            n == (CPU {
                regs: o.regs.with_word(
                    register::Word::AX,
                    read_word(o.ram(), o.mem_addr(source_segment(o), o.regs.si)) as u16,
                ).with_word(register::Word::SI, stepped(o.regs.si, 2, o.flags.direction)),
                ..o
            })
    } else if op == 0xAE {
            n == (CPU {
                regs: o.regs.with_word(register::Word::DI, stepped(o.regs.di, 1, o.flags.direction)),
                flags: o.flags.after_sub(
                    o.regs.byte(register::Byte::AL),
                    o.ram()[o.mem_addr(Segment::ES, o.regs.di)] as int,
                    0,
                    false,
                ),
                ..o
            })
    } else if op == 0xAF {
            n == (CPU {
                regs: o.regs.with_word(register::Word::DI, stepped(o.regs.di, 2, o.flags.direction)),
                flags: o.flags.after_sub(
                    o.regs.ax as int,
                    read_word(o.ram(), o.mem_addr(Segment::ES, o.regs.di)),
                    0,
                    true,
                ),
                ..o
            })
    } else {
        false
    }
}

/// MOVSB: the byte at DS:SI goes to ES:DI; SI and DI step by one.
pub fn movsb(cpu: &mut CPU) -> (r: usize)
    requires
        old(cpu).wf(),
    ensures
        string_done(*old(cpu), *final(cpu), 0xA4),
        r > 0,
{
    proof {
        reveal(string_done);
    }
    let seg = source_seg(cpu);
    let value = cpu.mem_byte(seg, cpu.regs.si);
    let di = cpu.regs.di;
    cpu.set_mem_byte(Segment::ES, di, value);
    cpu.regs.si = step(cpu.regs.si, 1, cpu.flags.direction);
    cpu.regs.di = step(cpu.regs.di, 1, cpu.flags.direction);
    18
}

/// MOVSW: the word at DS:SI goes to ES:DI; SI and DI step by two.
pub fn movsw(cpu: &mut CPU) -> (r: usize)
    requires
        old(cpu).wf(),
    ensures
        string_done(*old(cpu), *final(cpu), 0xA5),
        r > 0,
{
    proof {
        reveal(string_done);
    }
    let seg = source_seg(cpu);
    let value = cpu.mem_word(seg, cpu.regs.si);
    let di = cpu.regs.di;
    cpu.set_mem_word(Segment::ES, di, value);
    cpu.regs.si = step(cpu.regs.si, 2, cpu.flags.direction);
    cpu.regs.di = step(cpu.regs.di, 2, cpu.flags.direction);
    18
}

/// CMPSB: flags of DS:SI minus ES:DI; SI and DI step by one.
pub fn cmpsb(cpu: &mut CPU) -> (r: usize)
    requires
        old(cpu).wf(),
    ensures
        string_done(*old(cpu), *final(cpu), 0xA6),
        r > 0,
{
    proof {
        reveal(string_done);
    }
    let seg = source_seg(cpu);
    let set_val = cpu.mem_byte(seg, cpu.regs.si);
    let get_val = cpu.mem_byte(Segment::ES, cpu.regs.di);
    cpu.flags.cmp_sub_byte(set_val, get_val);
    cpu.regs.si = step(cpu.regs.si, 1, cpu.flags.direction);
    cpu.regs.di = step(cpu.regs.di, 1, cpu.flags.direction);
    22
}

/// CMPSW: flags of DS:SI minus ES:DI, as words; SI and DI step by two.
pub fn cmpsw(cpu: &mut CPU) -> (r: usize)
    requires
        old(cpu).wf(),
    ensures
        string_done(*old(cpu), *final(cpu), 0xA7),
        r > 0,
{
    proof {
        reveal(string_done);
    }
    let seg = source_seg(cpu);
    let set_val = cpu.mem_word(seg, cpu.regs.si);
    let get_val = cpu.mem_word(Segment::ES, cpu.regs.di);
    cpu.flags.cmp_sub_word(set_val, get_val);
    cpu.regs.si = step(cpu.regs.si, 2, cpu.flags.direction);
    cpu.regs.di = step(cpu.regs.di, 2, cpu.flags.direction);
    22
}

/// LODSB: AL gets the byte at DS:SI; SI steps by one.
pub fn lodsb(cpu: &mut CPU) -> (r: usize)
    requires
        old(cpu).wf(),
    ensures
        string_done(*old(cpu), *final(cpu), 0xAC),
        r > 0,
{
    proof {
        reveal(string_done);
    }
    let seg = source_seg(cpu);
    let value = cpu.mem_byte(seg, cpu.regs.si);
    cpu.regs.set_byte(&register::Byte::AL, value);
    cpu.regs.si = step(cpu.regs.si, 1, cpu.flags.direction);
    12
}

/// LODSW: AX gets the word at DS:SI; SI steps by two.
pub fn lodsw(cpu: &mut CPU) -> (r: usize)
    requires
        old(cpu).wf(),
    ensures
        string_done(*old(cpu), *final(cpu), 0xAD),
        r > 0,
{
    proof {
        reveal(string_done);
    }
    let seg = source_seg(cpu);
    let value = cpu.mem_word(seg, cpu.regs.si);
    cpu.regs.ax = value;
    cpu.regs.si = step(cpu.regs.si, 2, cpu.flags.direction);
    12
}

/// STOSB: AL goes to ES:DI; DI steps by one.
pub fn stosb(cpu: &mut CPU) -> (r: usize)
    requires
        old(cpu).wf(),
    ensures
        string_done(*old(cpu), *final(cpu), 0xAA),
        r > 0,
{
    proof {
        reveal(string_done);
    }
    let value = cpu.regs.get_byte(&register::Byte::AL);
    let di = cpu.regs.di;
    cpu.set_mem_byte(Segment::ES, di, value);
    cpu.regs.di = step(cpu.regs.di, 1, cpu.flags.direction);
    11
}

/// STOSW: AX goes to ES:DI; DI steps by two.
pub fn stosw(cpu: &mut CPU) -> (r: usize)
    requires
        old(cpu).wf(),
    ensures
        string_done(*old(cpu), *final(cpu), 0xAB),
        r > 0,
{
    proof {
        reveal(string_done);
    }
    let value = cpu.regs.ax;
    let di = cpu.regs.di;
    cpu.set_mem_word(Segment::ES, di, value);
    cpu.regs.di = step(cpu.regs.di, 2, cpu.flags.direction);
    11
}

/// SCASB: flags of AL minus ES:DI; DI steps by one.
pub fn scasb(cpu: &mut CPU) -> (r: usize)
    requires
        old(cpu).wf(),
    ensures
        string_done(*old(cpu), *final(cpu), 0xAE),
        r > 0,
{
    proof {
        reveal(string_done);
    }
    let set_val = cpu.regs.get_byte(&register::Byte::AL);
    let get_val = cpu.mem_byte(Segment::ES, cpu.regs.di);
    cpu.flags.cmp_sub_byte(set_val, get_val);
    cpu.regs.di = step(cpu.regs.di, 1, cpu.flags.direction);
    15
}

/// SCASW: flags of AX minus ES:DI; DI steps by two.
pub fn scasw(cpu: &mut CPU) -> (r: usize)
    requires
        old(cpu).wf(),
    ensures
        string_done(*old(cpu), *final(cpu), 0xAF),
        r > 0,
{
    proof {
        reveal(string_done);
    }
    let set_val = cpu.regs.ax;
    let get_val = cpu.mem_word(Segment::ES, cpu.regs.di);
    cpu.flags.cmp_sub_word(set_val, get_val);
    cpu.regs.di = step(cpu.regs.di, 2, cpu.flags.direction);
    15
}

/// Whether two memory states agree on everything but IP and the memory contents.
pub open spec fn same_pointers_but_ip(a: Memory, b: Memory) -> bool {
    a.es == b.es && a.cs == b.cs && a.ss == b.ss && a.ds == b.ds
        && a.current_segment == b.current_segment && a.overridden == b.overridden
}

/// The state one REP iteration leaves, `m` being the state its string instruction left: CX
/// set to `left` (one less than before), the zero flag forced on when CX reached zero, and IP
/// back at the prefix when `back`.
pub open spec fn rep_finish(m: CPU, left: u16, back: bool, prefix: u16) -> CPU {
    CPU {
        regs: register::Registers { cx: left, ..m.regs },
        flags: Flags { zero: if left == 0 { true } else { m.flags.zero }, ..m.flags },
        memory: Memory { ip: if back { prefix } else { m.memory.ip }, ..m.memory },
        ..m
    }
}

/// Ends one REP iteration as `rep_finish` says.
pub fn finish_rep(cpu: &mut CPU, left: u16, back: bool, prefix: u16)
    requires
        old(cpu).wf(),
    ensures
        final(cpu).wf(),
        *final(cpu) == rep_finish(*old(cpu), left, back, prefix),
{
    cpu.regs.cx = left;
    if left == 0 {
        cpu.flags.zero = true;
    }
    if back {
        cpu.memory.ip = prefix;
    }
}

} // verus!
