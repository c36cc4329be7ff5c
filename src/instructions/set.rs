use vstd::prelude::*;
use crate::cpu8086::CPU;
use crate::memory::Segment;
use crate::memory1mb::read_word;
use crate::operand;
use crate::operand::{fast_byte_cycles, fast_word_cycles};
use crate::register;
use crate::ibm_xt::{out_byte_done, out_word_done};

verus! {

pub fn mov_byte(cpu: &mut CPU, set_op: operand::Byte, get_op: operand::Byte) -> (r: usize)
    requires
        old(cpu).wf(),
        !(set_op is Imm),
    ensures
        final(cpu).wf(),
        old(cpu).byte_written(*final(cpu), &set_op, old(cpu).byte_val(&get_op) as u8),
        r == fast_byte_cycles(&set_op, &get_op),
{
    let value = cpu.read_byte(&get_op);
    cpu.write_byte(&set_op, value);
    set_op.get_cycles_fast_bytes(&get_op)
}

pub fn mov_word(cpu: &mut CPU, set_op: operand::Word, get_op: operand::Word) -> (r: usize)
    requires
        old(cpu).wf(),
        !(set_op is Imm),
    ensures
        final(cpu).wf(),
        old(cpu).word_written(*final(cpu), &set_op, old(cpu).word_val(&get_op) as u16),
        r == fast_word_cycles(&set_op, &get_op),
{
    let value = cpu.read_word(&get_op);
    cpu.write_word(&set_op, value);
    set_op.get_cycles_fast(&get_op)
}

/// XCHG: each operand gets the other's old value.
pub fn xchg_byte(cpu: &mut CPU, set_op: operand::Byte, get_op: operand::Byte) -> (r: usize)
    requires
        old(cpu).wf(),
        !(set_op is Imm),
        !(get_op is Imm),
    ensures
        final(cpu).wf(),
        exists|mid: CPU|
            #[trigger] old(cpu).byte_written(mid, &set_op, old(cpu).byte_val(&get_op) as u8) && mid.byte_written(
                *final(cpu),
                &get_op,
                old(cpu).byte_val(&set_op) as u8,
            ),
{
    let set_val = cpu.read_byte(&set_op);
    let get_val = cpu.read_byte(&get_op);
    cpu.write_byte(&set_op, get_val);
    let mid = Ghost(*cpu);
    assert(old(cpu).byte_written(mid@, &set_op, old(cpu).byte_val(&get_op) as u8));
    cpu.write_byte(&get_op, set_val);
    assert(mid@.byte_written(*cpu, &get_op, set_val));
    4
}

/// XCHG: each operand gets the other's old value.
pub fn xchg_word(cpu: &mut CPU, set_op: operand::Word, get_op: operand::Word) -> (r: usize)
    requires
        old(cpu).wf(),
        !(set_op is Imm),
        !(get_op is Imm),
    ensures
        final(cpu).wf(),
        exists|mid: CPU|
            #[trigger] old(cpu).word_written(mid, &set_op, old(cpu).word_val(&get_op) as u16) && mid.word_written(
                *final(cpu),
                &get_op,
                old(cpu).word_val(&set_op) as u16,
            ),
{
    let set_val = cpu.read_word(&set_op);
    let get_val = cpu.read_word(&get_op);
    cpu.write_word(&set_op, get_val);
    let mid = Ghost(*cpu);
    assert(old(cpu).word_written(mid@, &set_op, old(cpu).word_val(&get_op) as u16));
    cpu.write_word(&get_op, set_val);
    assert(mid@.word_written(*cpu, &get_op, set_val));
    4
}

/// LEA: the register gets the operand's offset, not its contents.
pub fn lea_word(cpu: &mut CPU, set_op: operand::Word, get_op: operand::Word) -> (r: usize)
    requires
        old(cpu).wf(),
        !(set_op is Imm),
    ensures
        final(cpu).wf(),
        get_op matches operand::Word::Mem { addr, .. } ==> old(cpu).word_written(*final(cpu), &set_op, addr),
        !(get_op is Mem) ==> *final(cpu) == *old(cpu),
{
    if let operand::Word::Mem { addr, .. } = get_op {
        cpu.write_word(&set_op, addr);
    }
    2
}

/// LES and LDS: the register gets the word at the operand, the segment the word after it.
fn load_far(cpu: &mut CPU, set_op: operand::Word, get_op: operand::Word, seg_reg: Segment)
    requires
        old(cpu).wf(),
        set_op is Reg,
    ensures
        final(cpu).wf(),
        final(cpu).ram() == old(cpu).ram(),
        get_op matches operand::Word::Mem { addr, seg, .. } ==> final(cpu).memory.seg(seg_reg) as int
            == read_word(old(cpu).ram(), old(cpu).mem_addr(seg, ((addr + 2) % 0x10000) as u16)),
{
    let value = cpu.read_word(&get_op);
    let val2 = match get_op {
        operand::Word::Mem { addr, seg, .. } => Some(cpu.mem_word(seg, addr.wrapping_add(2))),
        _ => None,
    };
    cpu.write_word(&set_op, value);
    if let Some(v) = val2 {
        cpu.memory.set_seg(&seg_reg, v);
    }
}

pub fn les_word(cpu: &mut CPU, set_op: operand::Word, get_op: operand::Word) -> (r: usize)
    requires
        old(cpu).wf(),
        set_op is Reg,
    ensures
        final(cpu).wf(),
        final(cpu).ram() == old(cpu).ram(),
        get_op matches operand::Word::Mem { addr, seg, .. } ==> final(cpu).memory.es as int
            == read_word(old(cpu).ram(), old(cpu).mem_addr(seg, ((addr + 2) % 0x10000) as u16)),
{
    load_far(cpu, set_op, get_op, Segment::ES);
    24
}

pub fn lds_word(cpu: &mut CPU, set_op: operand::Word, get_op: operand::Word) -> (r: usize)
    requires
        old(cpu).wf(),
        set_op is Reg,
    ensures
        final(cpu).wf(),
        final(cpu).ram() == old(cpu).ram(),
        get_op matches operand::Word::Mem { addr, seg, .. } ==> final(cpu).memory.ds as int
            == read_word(old(cpu).ram(), old(cpu).mem_addr(seg, ((addr + 2) % 0x10000) as u16)),
{
    load_far(cpu, set_op, get_op, Segment::DS);
    24
}

/// The segment a string source or XLAT reads from: DS unless a prefix overrides it.
pub open spec fn source_segment(cpu: CPU) -> Segment {
    if cpu.memory.overridden {
        cpu.memory.current_segment
    } else {
        Segment::DS
    }
}

pub fn source_seg(cpu: &CPU) -> (r: Segment)
    ensures
        r == source_segment(*cpu),
{
    if cpu.memory.overridden {
        cpu.memory.current_segment
    } else {
        Segment::DS
    }
}

/// XLAT: AL becomes the byte at BX + AL.
pub fn xlat(cpu: &mut CPU) -> (r: usize)
    requires
        old(cpu).wf(),
    ensures
        *final(cpu) == (CPU {
            regs: old(cpu).regs.with_byte(
                register::Byte::AL,
                old(cpu).ram()[old(cpu).mem_addr(
                    source_segment(*old(cpu)),
                    ((old(cpu).regs.bx + old(cpu).regs.byte(register::Byte::AL)) % 0x10000) as u16,
                )],
            ),
            ..*old(cpu)
        }),
{
    let offset = cpu.regs.get_byte(&register::Byte::AL) as u16;
    let seg = source_seg(cpu);
    let value = cpu.mem_byte(seg, cpu.regs.bx.wrapping_add(offset));
    cpu.regs.set_byte(&register::Byte::AL, value);
    11
}

/// IN AL from a port given as a byte operand.
pub fn in_al_byte(cpu: &mut CPU, port: operand::Byte) -> (r: usize)
    requires
        old(cpu).wf(),
    ensures
        ({
            let (b, v) = old(cpu).bus.read_spec(old(cpu).byte_val(&port));
            *final(cpu) == (CPU { bus: b, regs: old(cpu).regs.with_byte(register::Byte::AL, v as u8), ..*old(cpu) })
        }),
{
    let port_val = cpu.read_byte(&port);
    let result = cpu.bus.in_byte(port_val as u16);
    cpu.regs.set_byte(&register::Byte::AL, result);
    10
}

/// IN AX from a port given as a byte operand: the low byte from the port, the high byte from
/// the next one.
pub fn in_ax_byte(cpu: &mut CPU, port: operand::Byte) -> (r: usize)
    requires
        old(cpu).wf(),
    ensures
        ({
            let p = old(cpu).byte_val(&port);
            let (mid, lo) = old(cpu).bus.read_spec(p);
            let (last, hi) = mid.read_spec((p + 1) % 0x10000);
            *final(cpu) == (CPU {
                bus: last,
                regs: old(cpu).regs.with_word(register::Word::AX, (lo + 256 * hi) as u16),
                ..*old(cpu)
            })
        }),
{
    let port_val = cpu.read_byte(&port);
    let result = cpu.bus.in_word(port_val as u16);
    cpu.regs.set_word(&register::Word::AX, result);
    14
}

/// IN AL from the port in DX.
pub fn in_al_word(cpu: &mut CPU) -> (r: usize)
    requires
        old(cpu).wf(),
    ensures
        ({
            let (b, v) = old(cpu).bus.read_spec(old(cpu).regs.dx as int);
            *final(cpu) == (CPU { bus: b, regs: old(cpu).regs.with_byte(register::Byte::AL, v as u8), ..*old(cpu) })
        }),
{
    let port_val = cpu.regs.dx;
    let result = cpu.bus.in_byte(port_val);
    cpu.regs.set_byte(&register::Byte::AL, result);
    8
}

/// IN AX from the port in DX and the one after it.
pub fn in_ax_word(cpu: &mut CPU) -> (r: usize)
    requires
        old(cpu).wf(),
    ensures
        ({
            let p = old(cpu).regs.dx as int;
            let (mid, lo) = old(cpu).bus.read_spec(p);
            let (last, hi) = mid.read_spec((p + 1) % 0x10000);
            *final(cpu) == (CPU {
                bus: last,
                regs: old(cpu).regs.with_word(register::Word::AX, (lo + 256 * hi) as u16),
                ..*old(cpu)
            })
        }),
{
    let port_val = cpu.regs.dx;
    let result = cpu.bus.in_word(port_val);
    cpu.regs.set_word(&register::Word::AX, result);
    12
}

/// OUT of AL to a port given as a byte operand.
pub fn out_al_byte(cpu: &mut CPU, port: operand::Byte) -> (r: usize)
    requires
        old(cpu).wf(),
    ensures
        *final(cpu) == (CPU { bus: final(cpu).bus, ..*old(cpu) }),
        out_byte_done(old(cpu).bus, final(cpu).bus, old(cpu).byte_val(&port), old(cpu).regs.byte(register::Byte::AL) as u8),
{
    let port_val = cpu.read_byte(&port);
    let value = cpu.regs.get_byte(&register::Byte::AL);
    cpu.bus.out_byte(port_val as u16, value);
    10
}

/// OUT of AX to a port given as a byte operand: the low byte to the port, the high byte to the
/// next one.
pub fn out_ax_byte(cpu: &mut CPU, port: operand::Byte) -> (r: usize)
    requires
        old(cpu).wf(),
    ensures
        *final(cpu) == (CPU { bus: final(cpu).bus, ..*old(cpu) }),
        out_word_done(old(cpu).bus, final(cpu).bus, old(cpu).byte_val(&port), old(cpu).regs.ax),
{
    let port_val = cpu.read_byte(&port);
    let value = cpu.regs.ax;
    cpu.bus.out_word(port_val as u16, value);
    14
}

/// OUT of AL to the port in DX.
pub fn out_al_word(cpu: &mut CPU) -> (r: usize)
    requires
        old(cpu).wf(),
    ensures
        *final(cpu) == (CPU { bus: final(cpu).bus, ..*old(cpu) }),
        out_byte_done(old(cpu).bus, final(cpu).bus, old(cpu).regs.dx as int, old(cpu).regs.byte(register::Byte::AL) as u8),
{
    let port_val = cpu.regs.dx;
    let value = cpu.regs.get_byte(&register::Byte::AL);
    cpu.bus.out_byte(port_val, value);
    8
}

/// OUT of AX to the port in DX and the one after it.
pub fn out_ax_word(cpu: &mut CPU) -> (r: usize)
    requires
        old(cpu).wf(),
    ensures
        *final(cpu) == (CPU { bus: final(cpu).bus, ..*old(cpu) }),
        out_word_done(old(cpu).bus, final(cpu).bus, old(cpu).regs.dx as int, old(cpu).regs.ax),
{
    let port_val = cpu.regs.dx;
    let value = cpu.regs.ax;
    cpu.bus.out_word(port_val, value);
    12
}

} // verus!
