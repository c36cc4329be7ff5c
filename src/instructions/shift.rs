use vstd::prelude::*;
use crate::cpu8086::CPU;
use crate::flag::{lemma_shift_in_range, shift_n, ShiftKind};
use crate::operand;

verus! {

/// Whether `new` is `old` after shifting or rotating byte operand `set_op` by the count
/// `get_op` holds.
pub open spec fn shifted_byte(old: CPU, new: CPU, kind: ShiftKind, set_op: &operand::Byte, get_op: &operand::Byte) -> bool {
    let v = old.byte_val(set_op);
    let n = old.byte_val(get_op) as nat;
    let r = shift_n(kind, v, old.flags.carry, n, false).0;
    (CPU { flags: old.flags.after_shift(kind, v, n, false), ..old }).byte_written(new, set_op, r as u8)
}

/// Whether `new` is `old` after shifting or rotating word operand `set_op` by the count
/// `get_op` holds.
pub open spec fn shifted_word(old: CPU, new: CPU, kind: ShiftKind, set_op: &operand::Word, get_op: &operand::Byte) -> bool {
    let v = old.word_val(set_op);
    let n = old.byte_val(get_op) as nat;
    let r = shift_n(kind, v, old.flags.carry, n, true).0;
    (CPU { flags: old.flags.after_shift(kind, v, n, true), ..old }).word_written(new, set_op, r as u16)
}

/// Shifts or rotates a byte operand.
pub fn shift_byte(cpu: &mut CPU, kind: ShiftKind, set_op: operand::Byte, get_op: operand::Byte) -> (r: usize)
    requires
        old(cpu).wf(),
        !(set_op is Imm),
    ensures
        final(cpu).wf(),
        shifted_byte(*old(cpu), *final(cpu), kind, &set_op, &get_op),
{
    let v = cpu.read_byte(&set_op);
    let n = cpu.read_byte(&get_op);
    proof {
        lemma_shift_in_range(kind, v as int, cpu.flags.carry, n as nat, false);
    }
    let r = cpu.flags.shift(kind, v as u16, n, false);
    cpu.write_byte(&set_op, r as u8);
    set_op.get_rotate_cycles(&get_op, n)
}

/// Shifts or rotates a word operand.
pub fn shift_word(cpu: &mut CPU, kind: ShiftKind, set_op: operand::Word, get_op: operand::Byte) -> (r: usize)
    requires
        old(cpu).wf(),
        !(set_op is Imm),
    ensures
        final(cpu).wf(),
        shifted_word(*old(cpu), *final(cpu), kind, &set_op, &get_op),
{
    let v = cpu.read_word(&set_op);
    let n = cpu.read_byte(&get_op);
    let r = cpu.flags.shift(kind, v, n, true);
    cpu.write_word(&set_op, r);
    set_op.get_rotate_cycles(&get_op, n)
}

pub fn shr_byte(cpu: &mut CPU, set_op: operand::Byte, get_op: operand::Byte) -> (r: usize)
    requires old(cpu).wf(), !(set_op is Imm),
    ensures final(cpu).wf(), shifted_byte(*old(cpu), *final(cpu), ShiftKind::Shr, &set_op, &get_op),
{
    shift_byte(cpu, ShiftKind::Shr, set_op, get_op)
}

pub fn shr_word(cpu: &mut CPU, set_op: operand::Word, get_op: operand::Byte) -> (r: usize)
    requires old(cpu).wf(), !(set_op is Imm),
    ensures final(cpu).wf(), shifted_word(*old(cpu), *final(cpu), ShiftKind::Shr, &set_op, &get_op),
{
    shift_word(cpu, ShiftKind::Shr, set_op, get_op)
}

pub fn sar_byte(cpu: &mut CPU, set_op: operand::Byte, get_op: operand::Byte) -> (r: usize)
    requires old(cpu).wf(), !(set_op is Imm),
    ensures final(cpu).wf(), shifted_byte(*old(cpu), *final(cpu), ShiftKind::Sar, &set_op, &get_op),
{
    shift_byte(cpu, ShiftKind::Sar, set_op, get_op)
}

pub fn sar_word(cpu: &mut CPU, set_op: operand::Word, get_op: operand::Byte) -> (r: usize)
    requires old(cpu).wf(), !(set_op is Imm),
    ensures final(cpu).wf(), shifted_word(*old(cpu), *final(cpu), ShiftKind::Sar, &set_op, &get_op),
{
    shift_word(cpu, ShiftKind::Sar, set_op, get_op)
}

pub fn ror_byte(cpu: &mut CPU, set_op: operand::Byte, get_op: operand::Byte) -> (r: usize)
    requires old(cpu).wf(), !(set_op is Imm),
    ensures final(cpu).wf(), shifted_byte(*old(cpu), *final(cpu), ShiftKind::Ror, &set_op, &get_op),
{
    shift_byte(cpu, ShiftKind::Ror, set_op, get_op)
}

pub fn ror_word(cpu: &mut CPU, set_op: operand::Word, get_op: operand::Byte) -> (r: usize)
    requires old(cpu).wf(), !(set_op is Imm),
    ensures final(cpu).wf(), shifted_word(*old(cpu), *final(cpu), ShiftKind::Ror, &set_op, &get_op),
{
    shift_word(cpu, ShiftKind::Ror, set_op, get_op)
}

pub fn rcr_byte(cpu: &mut CPU, set_op: operand::Byte, get_op: operand::Byte) -> (r: usize)
    requires old(cpu).wf(), !(set_op is Imm),
    ensures final(cpu).wf(), shifted_byte(*old(cpu), *final(cpu), ShiftKind::Rcr, &set_op, &get_op),
{
    shift_byte(cpu, ShiftKind::Rcr, set_op, get_op)
}

pub fn rcr_word(cpu: &mut CPU, set_op: operand::Word, get_op: operand::Byte) -> (r: usize)
    requires old(cpu).wf(), !(set_op is Imm),
    ensures final(cpu).wf(), shifted_word(*old(cpu), *final(cpu), ShiftKind::Rcr, &set_op, &get_op),
{
    shift_word(cpu, ShiftKind::Rcr, set_op, get_op)
}

pub fn shl_byte(cpu: &mut CPU, set_op: operand::Byte, get_op: operand::Byte) -> (r: usize)
    requires old(cpu).wf(), !(set_op is Imm),
    ensures final(cpu).wf(), shifted_byte(*old(cpu), *final(cpu), ShiftKind::Shl, &set_op, &get_op),
{
    shift_byte(cpu, ShiftKind::Shl, set_op, get_op)
}

pub fn shl_word(cpu: &mut CPU, set_op: operand::Word, get_op: operand::Byte) -> (r: usize)
    requires old(cpu).wf(), !(set_op is Imm),
    ensures final(cpu).wf(), shifted_word(*old(cpu), *final(cpu), ShiftKind::Shl, &set_op, &get_op),
{
    shift_word(cpu, ShiftKind::Shl, set_op, get_op)
}

pub fn rol_byte(cpu: &mut CPU, set_op: operand::Byte, get_op: operand::Byte) -> (r: usize)
    requires old(cpu).wf(), !(set_op is Imm),
    ensures final(cpu).wf(), shifted_byte(*old(cpu), *final(cpu), ShiftKind::Rol, &set_op, &get_op),
{
    shift_byte(cpu, ShiftKind::Rol, set_op, get_op)
}

pub fn rol_word(cpu: &mut CPU, set_op: operand::Word, get_op: operand::Byte) -> (r: usize)
    requires old(cpu).wf(), !(set_op is Imm),
    ensures final(cpu).wf(), shifted_word(*old(cpu), *final(cpu), ShiftKind::Rol, &set_op, &get_op),
{
    shift_word(cpu, ShiftKind::Rol, set_op, get_op)
}

pub fn rcl_byte(cpu: &mut CPU, set_op: operand::Byte, get_op: operand::Byte) -> (r: usize)
    requires old(cpu).wf(), !(set_op is Imm),
    ensures final(cpu).wf(), shifted_byte(*old(cpu), *final(cpu), ShiftKind::Rcl, &set_op, &get_op),
{
    shift_byte(cpu, ShiftKind::Rcl, set_op, get_op)
}

pub fn rcl_word(cpu: &mut CPU, set_op: operand::Word, get_op: operand::Byte) -> (r: usize)
    requires old(cpu).wf(), !(set_op is Imm),
    ensures final(cpu).wf(), shifted_word(*old(cpu), *final(cpu), ShiftKind::Rcl, &set_op, &get_op),
{
    shift_word(cpu, ShiftKind::Rcl, set_op, get_op)
}

} // verus!
