use vstd::prelude::*;
use crate::cpu8086::CPU;
use crate::instructions::math::{alu_byte, alu_byte_done, alu_word, alu_word_done, AluOp};
use crate::operand;

verus! {

pub fn and_byte(cpu: &mut CPU, set_op: operand::Byte, get_op: operand::Byte) -> (r: usize)
    requires old(cpu).wf(), !(set_op is Imm),
    ensures final(cpu).wf(), alu_byte_done(*old(cpu), *final(cpu), AluOp::And, &set_op, &get_op),
{
    alu_byte(cpu, AluOp::And, set_op, get_op)
}

pub fn and_word(cpu: &mut CPU, set_op: operand::Word, get_op: operand::Word) -> (r: usize)
    requires old(cpu).wf(), !(set_op is Imm),
    ensures final(cpu).wf(), alu_word_done(*old(cpu), *final(cpu), AluOp::And, &set_op, &get_op),
{
    alu_word(cpu, AluOp::And, set_op, get_op)
}

pub fn or_byte(cpu: &mut CPU, set_op: operand::Byte, get_op: operand::Byte) -> (r: usize)
    requires old(cpu).wf(), !(set_op is Imm),
    ensures final(cpu).wf(), alu_byte_done(*old(cpu), *final(cpu), AluOp::Or, &set_op, &get_op),
{
    alu_byte(cpu, AluOp::Or, set_op, get_op)
}

pub fn or_word(cpu: &mut CPU, set_op: operand::Word, get_op: operand::Word) -> (r: usize)
    requires old(cpu).wf(), !(set_op is Imm),
    ensures final(cpu).wf(), alu_word_done(*old(cpu), *final(cpu), AluOp::Or, &set_op, &get_op),
{
    alu_word(cpu, AluOp::Or, set_op, get_op)
}

pub fn xor_byte(cpu: &mut CPU, set_op: operand::Byte, get_op: operand::Byte) -> (r: usize)
    requires old(cpu).wf(), !(set_op is Imm),
    ensures final(cpu).wf(), alu_byte_done(*old(cpu), *final(cpu), AluOp::Xor, &set_op, &get_op),
{
    alu_byte(cpu, AluOp::Xor, set_op, get_op)
}

pub fn xor_word(cpu: &mut CPU, set_op: operand::Word, get_op: operand::Word) -> (r: usize)
    requires old(cpu).wf(), !(set_op is Imm),
    ensures final(cpu).wf(), alu_word_done(*old(cpu), *final(cpu), AluOp::Xor, &set_op, &get_op),
{
    alu_word(cpu, AluOp::Xor, set_op, get_op)
}

pub fn test_byte(cpu: &mut CPU, set_op: operand::Byte, get_op: operand::Byte) -> (r: usize)
    requires old(cpu).wf(),
    ensures final(cpu).wf(), alu_byte_done(*old(cpu), *final(cpu), AluOp::Test, &set_op, &get_op),
{
    alu_byte(cpu, AluOp::Test, set_op, get_op)
}

pub fn test_word(cpu: &mut CPU, set_op: operand::Word, get_op: operand::Word) -> (r: usize)
    requires old(cpu).wf(),
    ensures final(cpu).wf(), alu_word_done(*old(cpu), *final(cpu), AluOp::Test, &set_op, &get_op),
{
    alu_word(cpu, AluOp::Test, set_op, get_op)
}

/// NOT: every bit of the operand inverted; flags unchanged.
pub fn not_byte(cpu: &mut CPU, op: operand::Byte) -> (r: usize)
    requires old(cpu).wf(), !(op is Imm),
    ensures final(cpu).wf(), old(cpu).byte_written(*final(cpu), &op, (255 - old(cpu).byte_val(&op)) as u8),
{
    let result = 255 - cpu.read_byte(&op);
    cpu.write_byte(&op, result);
    op.get_cycles()
}

/// NOT: every bit of the operand inverted; flags unchanged.
pub fn not_word(cpu: &mut CPU, op: operand::Word) -> (r: usize)
    requires old(cpu).wf(), !(op is Imm),
    ensures final(cpu).wf(), old(cpu).word_written(*final(cpu), &op, (0xFFFF - old(cpu).word_val(&op)) as u16),
{
    let result = 0xFFFF - cpu.read_word(&op);
    cpu.write_word(&op, result);
    op.get_cycles()
}

} // verus!
