use vstd::prelude::*;
use crate::cpu8086::{CpuError, CPU};
use crate::instructions::{bcd, flag, jump, logic, math, shift, string};
use crate::flag::Flags;
use crate::memory::{Memory, Segment};
use crate::operand;
use crate::register;

verus! {

/// Opcodes the 8086 does not define.
pub open spec fn undefined_opcode(op: int) -> bool {
    op == 0x0F || (0x60 <= op <= 0x6F) || op == 0xC0 || op == 0xC1 || op == 0xC8 || op == 0xC9
        || op == 0xD6 || op == 0xF1
}

/// Group opcodes whose ModR/M `reg` field names no operation.
pub open spec fn undefined_group(op: int, op1: int) -> bool {
    let reg = (op1 / 8) % 8;
    ((0xD0 <= op <= 0xD3) && reg == 6) || ((op == 0xF6 || op == 0xF7) && reg == 1) || (op == 0xFE
        && reg >= 2) || (op == 0xFF && reg == 7)
}

/// Segment-override prefixes.
pub open spec fn is_segment_prefix(op: int) -> bool {
    op == 0x26 || op == 0x2E || op == 0x36 || op == 0x3E
}

/// The string instructions that a REP prefix repeats.
pub open spec fn is_string_op(op: int) -> bool {
    (0xA4 <= op <= 0xA7) || (0xAA <= op <= 0xAF)
}

/// String instructions that compare, and so may end a REPE or REPNE early.
pub open spec fn is_compare_op(op: int) -> bool {
    op == 0xA6 || op == 0xA7 || op == 0xAE || op == 0xAF
}

/// Operands of the six standard forms of an ALU opcode (low three bits 0 to 5):
/// Eb,Gb  Ev,Gv  Gb,Eb  Gv,Ev  AL,Ib  AX,Iv.
pub fn get_standard_ops(cpu: &mut CPU, index: u8) -> (r: operand::Pair)
    requires
        old(cpu).wf(),
        index < 6,
    ensures
        final(cpu).wf(),
        index % 2 == 0 ==> (r matches operand::Pair::Bytes(s, _) && !(s is Imm)),
        index % 2 == 1 ==> (r matches operand::Pair::Words(s, _) && !(s is Imm)),
        ({
            let o = *old(cpu);
            let op1 = o.memory.code_byte(0);
            let m1 = Memory { ip: ((o.memory.ip + 1) % 0x10000) as u16, ..o.memory };
            &&& index < 4 ==> *final(cpu) == (CPU { memory: operand::after_rm(m1, op1), ..o })
            &&& index == 0 ==> (r matches operand::Pair::Bytes(s, g) && operand::rm_byte(s, m1, o.regs, op1)
                && g == operand::Byte::Reg(operand::byte_reg(operand::reg_of(op1))))
            &&& index == 1 ==> (r matches operand::Pair::Words(s, g) && operand::rm_word(s, m1, o.regs, op1)
                && g == operand::Word::Reg(operand::word_reg(operand::reg_of(op1))))
            &&& index == 2 ==> (r matches operand::Pair::Bytes(s, g) && operand::rm_byte(g, m1, o.regs, op1)
                && s == operand::Byte::Reg(operand::byte_reg(operand::reg_of(op1))))
            &&& index == 3 ==> (r matches operand::Pair::Words(s, g) && operand::rm_word(g, m1, o.regs, op1)
                && s == operand::Word::Reg(operand::word_reg(operand::reg_of(op1))))
            &&& index == 4 ==> *final(cpu) == (CPU { memory: m1, ..o }) && (r matches operand::Pair::Bytes(s, g)
                && s == operand::Byte::Reg(register::Byte::AL) && g == operand::Byte::Imm(op1 as u8))
            &&& index == 5 ==> *final(cpu) == (CPU {
                memory: Memory { ip: ((o.memory.ip + 2) % 0x10000) as u16, ..o.memory },
                ..o
            }) && (r matches operand::Pair::Words(s, g) && s == operand::Word::Reg(register::Word::AX)
                && g == operand::Word::Imm((op1 + 256 * o.memory.code_byte(1)) as u16))
        }),
{
    if index == 0 {
        let op1 = cpu.memory.next_byte();
        let set_op = operand::Byte::extended(&mut cpu.memory, &cpu.regs, op1);
        let get_op = operand::Byte::general(op1);
        operand::Pair::Bytes(set_op, get_op)
    } else if index == 1 {
        let op1 = cpu.memory.next_byte();
        let set_op = operand::Word::extended(&mut cpu.memory, &cpu.regs, op1);
        let get_op = operand::Word::general(op1);
        operand::Pair::Words(set_op, get_op)
    } else if index == 2 {
        let op1 = cpu.memory.next_byte();
        let set_op = operand::Byte::general(op1);
        let get_op = operand::Byte::extended(&mut cpu.memory, &cpu.regs, op1);
        operand::Pair::Bytes(set_op, get_op)
    } else if index == 3 {
        let op1 = cpu.memory.next_byte();
        let set_op = operand::Word::general(op1);
        let get_op = operand::Word::extended(&mut cpu.memory, &cpu.regs, op1);
        operand::Pair::Words(set_op, get_op)
    } else if index == 4 {
        let get_op = operand::Byte::Imm(cpu.memory.next_byte());
        operand::Pair::Bytes(operand::Byte::Reg(register::Byte::AL), get_op)
    } else {
        let get_op = operand::Word::Imm(cpu.memory.next_word());
        operand::Pair::Words(operand::Word::Reg(register::Word::AX), get_op)
    }
}

/// The processor once the opcode byte at CS:IP was fetched: IP past it, the instruction's
/// address recorded.
pub open spec fn fetched(o: CPU) -> CPU {
    CPU {
        memory: Memory { ip: ((o.memory.ip + 1) % 0x10000) as u16, ..o.memory },
        current_address: crate::memory::linear(o.memory.cs as int, o.memory.ip as int) as usize,
        ..o
    }
}

/// The processor with the segment override cleared, as after any instruction but a prefix.
pub open spec fn override_cleared(x: CPU) -> CPU {
    CPU { memory: Memory { current_segment: Segment::DS, overridden: false, ..x.memory }, ..x }
}

/// The segment an override prefix selects.
pub open spec fn prefix_segment(op: int) -> Segment {
    if op == 0x26 {
        Segment::ES
    } else if op == 0x2E {
        Segment::CS
    } else if op == 0x36 {
        Segment::SS
    } else {
        Segment::DS
    }
}

/// What one of the six standard forms `idx` of ALU operation `op` does from `o` (IP at the
/// byte after the opcode) to `n`: Eb,Gb  Ev,Gv  Gb,Eb  Gv,Ev  AL,Ib  AX,Iv.
#[verifier::opaque]
pub open spec fn std_form_done(o: CPU, n: CPU, op: math::AluOp, idx: int) -> bool {
    let op1 = o.memory.code_byte(0);
    let m1 = Memory { ip: ((o.memory.ip + 1) % 0x10000) as u16, ..o.memory };
    let d = CPU { memory: operand::after_rm(m1, op1), ..o };
    let g8 = operand::Byte::Reg(operand::byte_reg(operand::reg_of(op1)));
    let g16 = operand::Word::Reg(operand::word_reg(operand::reg_of(op1)));
    if idx == 0 {
        exists|s: operand::Byte| #[trigger] operand::rm_byte(s, m1, o.regs, op1) && math::alu_byte_done(d, n, op, &s, &g8)
    } else if idx == 1 {
        exists|s: operand::Word| #[trigger] operand::rm_word(s, m1, o.regs, op1) && math::alu_word_done(d, n, op, &s, &g16)
    } else if idx == 2 {
        exists|g: operand::Byte| #[trigger] operand::rm_byte(g, m1, o.regs, op1) && math::alu_byte_done(d, n, op, &g8, &g)
    } else if idx == 3 {
        exists|g: operand::Word| #[trigger] operand::rm_word(g, m1, o.regs, op1) && math::alu_word_done(d, n, op, &g16, &g)
    } else if idx == 4 {
        math::alu_byte_done(CPU { memory: m1, ..o }, n, op, &operand::Byte::Reg(register::Byte::AL), &operand::Byte::Imm(op1 as u8))
    } else {
        math::alu_word_done(
            CPU { memory: Memory { ip: ((o.memory.ip + 2) % 0x10000) as u16, ..o.memory }, ..o },
            n,
            op,
            &operand::Word::Reg(register::Word::AX),
            &operand::Word::Imm((op1 + 256 * o.memory.code_byte(1)) as u16),
        )
    }
}

/// What MOV Eb,Ib (0xC6) does from `o` (IP at the ModR/M byte) to `n`: the immediate that
/// follows the operand bytes is stored in the operand.
#[verifier::opaque]
pub open spec fn mov_byte_imm_done(o: CPU, n: CPU) -> bool {
    let op1 = o.memory.code_byte(0);
    let m1 = Memory { ip: ((o.memory.ip + 1) % 0x10000) as u16, ..o.memory };
    let d = operand::after_rm(m1, op1);
    let e = CPU { memory: Memory { ip: ((d.ip + 1) % 0x10000) as u16, ..d }, ..o };
    exists|s: operand::Byte|
        #[trigger] operand::rm_byte(s, m1, o.regs, op1) && e.byte_written(n, &s, d.code_byte(0) as u8)
}

/// The instruction pointer after a short jump by the signed byte `d`, IP already past it.
pub open spec fn short_target(ip_next: int, d: int) -> u16 {
    ((ip_next + operand::sext8(d) + 0x10000) % 0x10000) as u16
}

/// The ALU operation that bits 5..3 of an opcode or ModR/M byte select.
pub open spec fn alu_op_of(i: int) -> math::AluOp {
    if i == 0 {
        math::AluOp::Add
    } else if i == 1 {
        math::AluOp::Or
    } else if i == 2 {
        math::AluOp::Adc
    } else if i == 3 {
        math::AluOp::Sbb
    } else if i == 4 {
        math::AluOp::And
    } else if i == 5 {
        math::AluOp::Sub
    } else if i == 6 {
        math::AluOp::Xor
    } else {
        math::AluOp::Cmp
    }
}

fn alu_op(i: u8) -> (r: math::AluOp)
    ensures
        r == alu_op_of(i as int),
{
    if i == 0 {
        math::AluOp::Add
    } else if i == 1 {
        math::AluOp::Or
    } else if i == 2 {
        math::AluOp::Adc
    } else if i == 3 {
        math::AluOp::Sbb
    } else if i == 4 {
        math::AluOp::And
    } else if i == 5 {
        math::AluOp::Sub
    } else if i == 6 {
        math::AluOp::Xor
    } else {
        math::AluOp::Cmp
    }
}

/// One of the standard ALU forms (opcode low bits 0 to 5) of the operation in bits 5..3.
fn standard_alu(cpu: &mut CPU, op0: u8) -> (r: usize)
    requires
        old(cpu).wf(),
        op0 < 0x40,
        op0 % 8 < 6,
    ensures
        final(cpu).wf(),
        std_form_done(*old(cpu), *final(cpu), alu_op_of(op0 as int / 8), op0 as int % 8),
        final(cpu).interrupt == old(cpu).interrupt,
{
    proof {
        reveal(std_form_done);
    }
    let op = alu_op(op0 / 8);
    match get_standard_ops(cpu, op0 % 8) {
        operand::Pair::Bytes(set_op, get_op) => math::alu_byte(cpu, op, set_op, get_op),
        operand::Pair::Words(set_op, get_op) => math::alu_word(cpu, op, set_op, get_op),
    }
}

/// Opcodes 0x00 to 0x3F: the ALU block, segment pushes and pops, prefixes and BCD adjusts.
fn run_block_00(cpu: &mut CPU, op0: u8) -> (r: Result<usize, CpuError>)
    requires
        old(cpu).wf(),
        op0 < 0x40,
    ensures
        final(cpu).wf(),
        r is Err <==> op0 == 0x0F,
        is_segment_prefix(op0 as int) ==> *final(cpu) == (CPU {
            memory: Memory { current_segment: prefix_segment(op0 as int), overridden: true, ..old(cpu).memory },
            ..*old(cpu)
        }),
        op0 % 8 < 6 ==> std_form_done(*old(cpu), *final(cpu), alu_op_of(op0 as int / 8), op0 as int % 8),
        final(cpu).interrupt == old(cpu).interrupt,
{
    if op0 % 8 < 6 {
        return Ok(standard_alu(cpu, op0));
    }
    let seg = if op0 / 8 == 0 {
        Segment::ES
    } else if op0 / 8 == 1 {
        Segment::CS
    } else if op0 / 8 == 2 {
        Segment::SS
    } else {
        Segment::DS
    };
    if op0 == 0x0F {
        Err(CpuError::UndefinedOpcode { address: cpu.current_address, op0 })
    } else if op0 < 0x20 {
        if op0 % 8 == 6 {
            Ok(flag::push(cpu, operand::Word::Seg(seg)))
        } else {
            Ok(flag::pop(cpu, operand::Word::Seg(seg)))
        }
    } else if op0 % 8 == 6 {
        cpu.memory.current_segment = if op0 == 0x26 {
            Segment::ES
        } else if op0 == 0x2E {
            Segment::CS
        } else if op0 == 0x36 {
            Segment::SS
        } else {
            Segment::DS
        };
        cpu.memory.overridden = true;
        Ok(2)
    } else if op0 == 0x27 {
        Ok(bcd::daa(cpu))
    } else if op0 == 0x2F {
        Ok(bcd::das(cpu))
    } else if op0 == 0x37 {
        Ok(bcd::aaa(cpu))
    } else {
        Ok(bcd::aas(cpu))
    }
}

/// Whether the short-jump condition `cc` (opcode 0x70 + `cc`) holds for these flags.
pub open spec fn condition_holds(f: Flags, cc: int) -> bool {
    if cc == 0 {
        f.overflow
    } else if cc == 1 {
        !f.overflow
    } else if cc == 2 {
        f.carry
    } else if cc == 3 {
        !f.carry
    } else if cc == 4 {
        f.zero
    } else if cc == 5 {
        !f.zero
    } else if cc == 6 {
        f.carry || f.zero
    } else if cc == 7 {
        !f.carry && !f.zero
    } else if cc == 8 {
        f.sign
    } else if cc == 9 {
        !f.sign
    } else if cc == 10 {
        f.parity
    } else if cc == 11 {
        !f.parity
    } else if cc == 12 {
        f.sign != f.overflow
    } else if cc == 13 {
        f.sign == f.overflow
    } else if cc == 14 {
        f.sign != f.overflow || f.zero
    } else {
        f.sign == f.overflow && !f.zero
    }
}

/// Whether the short-jump condition of opcode 0x70 + `cc` holds.
fn condition(cpu: &CPU, cc: u8) -> (r: bool)
    ensures
        r == condition_holds(cpu.flags, cc as int),
{
    let f = &cpu.flags;
    if cc == 0 {
        f.overflow
    } else if cc == 1 {
        !f.overflow
    } else if cc == 2 {
        f.carry
    } else if cc == 3 {
        !f.carry
    } else if cc == 4 {
        f.zero
    } else if cc == 5 {
        !f.zero
    } else if cc == 6 {
        f.carry || f.zero
    } else if cc == 7 {
        !f.carry && !f.zero
    } else if cc == 8 {
        f.sign
    } else if cc == 9 {
        !f.sign
    } else if cc == 10 {
        f.parity
    } else if cc == 11 {
        !f.parity
    } else if cc == 12 {
        f.sign != f.overflow
    } else if cc == 13 {
        f.sign == f.overflow
    } else if cc == 14 {
        f.sign != f.overflow || f.zero
    } else {
        f.sign == f.overflow && !f.zero
    }
}

/// A byte read as a signed displacement.
fn signed_byte(b: u8) -> (r: i8)
    ensures
        r as int == operand::sext8(b as int),
{
    if b >= 128 {
        (b as i16 - 256) as i8
    } else {
        b as i8
    }
}

/// Opcodes 0x40 to 0x7F: INC, DEC, PUSH and POP of registers, and short conditional jumps.
fn run_block_40(cpu: &mut CPU, op0: u8) -> (r: Result<usize, CpuError>)
    requires
        old(cpu).wf(),
        0x40 <= op0 < 0x80,
    ensures
        final(cpu).wf(),
        r is Err <==> (0x60 <= op0 <= 0x6F),
        0x70 <= op0 ==> ({
            let o = *old(cpu);
            let ip_next = (o.memory.ip + 1) % 0x10000;
            *final(cpu) == (CPU {
                memory: Memory {
                    ip: if condition_holds(o.flags, op0 as int - 0x70) {
                        short_target(ip_next, o.memory.code_byte(0))
                    } else {
                        ip_next as u16
                    },
                    ..o.memory
                },
                ..o
            })
        }),
{
    if op0 < 0x48 {
        Ok(math::inc_word(cpu, operand::Word::reg_index(op0 % 8)))
    } else if op0 < 0x50 {
        Ok(math::dec_word(cpu, operand::Word::reg_index(op0 % 8)))
    } else if op0 < 0x58 {
        Ok(flag::push(cpu, operand::Word::reg_index(op0 % 8)))
    } else if op0 < 0x60 {
        Ok(flag::pop(cpu, operand::Word::reg_index(op0 % 8)))
    } else if op0 < 0x70 {
        Err(CpuError::UndefinedOpcode { address: cpu.current_address, op0 })
    } else {
        let offset = signed_byte(cpu.memory.next_byte());
        let c = condition(cpu, op0 - 0x70);
        Ok(jump::jmp_relative(cpu, offset, c))
    }
}

/// Opcodes 0x80 to 0x8F: the immediate ALU group, TEST, XCHG, MOV, LEA and POP Ew.
fn run_block_80(cpu: &mut CPU, op0: u8) -> (r: Result<usize, CpuError>)
    requires
        old(cpu).wf(),
        0x80 <= op0 < 0x90,
    ensures
        final(cpu).wf(),
        r is Ok,
{
    if op0 == 0x80 || op0 == 0x82 {
        let op1 = cpu.memory.next_byte();
        let set_op = operand::Byte::extended(&mut cpu.memory, &cpu.regs, op1);
        let get_op = operand::Byte::Imm(cpu.memory.next_byte());
        Ok(math::alu_byte(cpu, alu_op((op1 / 8) % 8), set_op, get_op))
    } else if op0 == 0x81 || op0 == 0x83 {
        let op1 = cpu.memory.next_byte();
        let set_op = operand::Word::extended(&mut cpu.memory, &cpu.regs, op1);
        let imm = if op0 == 0x81 {
            cpu.memory.next_word()
        } else {
            let b = cpu.memory.next_byte();
            if b >= 128 {
                0xFF00 + b as u16
            } else {
                b as u16
            }
        };
        Ok(math::alu_word(cpu, alu_op((op1 / 8) % 8), set_op, operand::Word::Imm(imm)))
    } else if op0 == 0x84 {
        let op1 = cpu.memory.next_byte();
        let set_op = operand::Byte::general(op1);
        let get_op = operand::Byte::extended(&mut cpu.memory, &cpu.regs, op1);
        Ok(logic::test_byte(cpu, set_op, get_op))
    } else if op0 == 0x85 {
        let op1 = cpu.memory.next_byte();
        let set_op = operand::Word::general(op1);
        let get_op = operand::Word::extended(&mut cpu.memory, &cpu.regs, op1);
        Ok(logic::test_word(cpu, set_op, get_op))
    } else if op0 == 0x86 {
        let op1 = cpu.memory.next_byte();
        let set_op = operand::Byte::general(op1);
        let get_op = operand::Byte::extended(&mut cpu.memory, &cpu.regs, op1);
        Ok(crate::instructions::set::xchg_byte(cpu, set_op, get_op))
    } else if op0 == 0x87 {
        let op1 = cpu.memory.next_byte();
        let set_op = operand::Word::general(op1);
        let get_op = operand::Word::extended(&mut cpu.memory, &cpu.regs, op1);
        Ok(crate::instructions::set::xchg_word(cpu, set_op, get_op))
    } else if op0 <= 0x8B {
        match get_standard_ops(cpu, op0 % 8) {
            operand::Pair::Bytes(set_op, get_op) => Ok(crate::instructions::set::mov_byte(cpu, set_op, get_op)),
            operand::Pair::Words(set_op, get_op) => Ok(crate::instructions::set::mov_word(cpu, set_op, get_op)),
        }
    } else if op0 == 0x8C {
        let op1 = cpu.memory.next_byte();
        let set_op = operand::Word::extended(&mut cpu.memory, &cpu.regs, op1);
        let get_op = operand::Word::segment(op1);
        Ok(crate::instructions::set::mov_word(cpu, set_op, get_op))
    } else if op0 == 0x8D {
        let op1 = cpu.memory.next_byte();
        let set_op = operand::Word::general(op1);
        let get_op = operand::Word::extended(&mut cpu.memory, &cpu.regs, op1);
        Ok(crate::instructions::set::lea_word(cpu, set_op, get_op))
    } else if op0 == 0x8E {
        let op1 = cpu.memory.next_byte();
        let set_op = operand::Word::segment(op1);
        let get_op = operand::Word::extended(&mut cpu.memory, &cpu.regs, op1);
        Ok(crate::instructions::set::mov_word(cpu, set_op, get_op))
    } else {
        let op1 = cpu.memory.next_byte();
        let op = operand::Word::extended(&mut cpu.memory, &cpu.regs, op1);
        Ok(flag::pop(cpu, op))
    }
}

/// Opcodes 0x90 to 0xBF: XCHG with AX, conversions, far call, flags, direct moves, string
/// instructions and immediate moves.
fn run_block_90(cpu: &mut CPU, op0: u8) -> (r: Result<usize, CpuError>)
    requires
        old(cpu).wf(),
        0x90 <= op0 < 0xC0,
    ensures
        final(cpu).wf(),
        r is Ok,
        ({
            let o = *old(cpu);
            &&& 0xB0 <= op0 < 0xB8 ==> *final(cpu) == (CPU {
                regs: o.regs.with_byte(operand::byte_reg(op0 as int % 8), o.memory.code_byte(0) as u8),
                memory: Memory { ip: ((o.memory.ip + 1) % 0x10000) as u16, ..o.memory },
                ..o
            })
            &&& 0xB8 <= op0 ==> *final(cpu) == (CPU {
                regs: o.regs.with_word(
                    operand::word_reg(op0 as int % 8),
                    (o.memory.code_byte(0) + 256 * o.memory.code_byte(1)) as u16,
                ),
                memory: Memory { ip: ((o.memory.ip + 2) % 0x10000) as u16, ..o.memory },
                ..o
            })
        }),
{
    if op0 == 0x90 {
        Ok(3)
    } else if op0 < 0x98 {
        Ok(crate::instructions::set::xchg_word(cpu, operand::Word::reg_index(op0 % 8), operand::Word::Reg(register::Word::AX)))
    } else if op0 == 0x98 {
        Ok(math::cbw(cpu))
    } else if op0 == 0x99 {
        Ok(math::cwd(cpu))
    } else if op0 == 0x9A {
        let offset = operand::Word::Imm(cpu.memory.next_word());
        let segment = operand::Word::Imm(cpu.memory.next_word());
        Ok(jump::call_addr(cpu, segment, offset))
    } else if op0 == 0x9B {
        Ok(3)
    } else if op0 == 0x9C {
        Ok(flag::pushf(cpu))
    } else if op0 == 0x9D {
        Ok(flag::popf(cpu))
    } else if op0 == 0x9E {
        Ok(flag::sahf(cpu))
    } else if op0 == 0x9F {
        Ok(flag::lahf(cpu))
    } else if op0 == 0xA0 {
        let get_op = operand::Byte::address(&mut cpu.memory);
        Ok(crate::instructions::set::mov_byte(cpu, operand::Byte::Reg(register::Byte::AL), get_op))
    } else if op0 == 0xA1 {
        let get_op = operand::Word::address(&mut cpu.memory);
        Ok(crate::instructions::set::mov_word(cpu, operand::Word::Reg(register::Word::AX), get_op))
    } else if op0 == 0xA2 {
        let set_op = operand::Byte::address(&mut cpu.memory);
        Ok(crate::instructions::set::mov_byte(cpu, set_op, operand::Byte::Reg(register::Byte::AL)))
    } else if op0 == 0xA3 {
        let set_op = operand::Word::address(&mut cpu.memory);
        Ok(crate::instructions::set::mov_word(cpu, set_op, operand::Word::Reg(register::Word::AX)))
    } else if op0 == 0xA8 {
        let get_op = operand::Byte::Imm(cpu.memory.next_byte());
        Ok(logic::test_byte(cpu, operand::Byte::Reg(register::Byte::AL), get_op))
    } else if op0 == 0xA9 {
        let get_op = operand::Word::Imm(cpu.memory.next_word());
        Ok(logic::test_word(cpu, operand::Word::Reg(register::Word::AX), get_op))
    } else if op0 < 0xB0 {
        Ok(string_op(cpu, op0))
    } else if op0 < 0xB8 {
        let get_op = operand::Byte::Imm(cpu.memory.next_byte());
        Ok(crate::instructions::set::mov_byte(cpu, operand::Byte::reg_index(op0 % 8), get_op))
    } else {
        let get_op = operand::Word::Imm(cpu.memory.next_word());
        Ok(crate::instructions::set::mov_word(cpu, operand::Word::reg_index(op0 % 8), get_op))
    }
}

/// One step of a string instruction.
fn string_op(cpu: &mut CPU, op0: u8) -> (r: usize)
    requires
        old(cpu).wf(),
    ensures
        final(cpu).wf(),
        final(cpu).regs.cx == old(cpu).regs.cx,
        final(cpu).memory.ip == old(cpu).memory.ip,
        final(cpu).memory.cs == old(cpu).memory.cs,
        is_string_op(op0 as int) ==> string::string_done(*old(cpu), *final(cpu), op0 as int),
        !is_string_op(op0 as int) ==> *final(cpu) == *old(cpu),
{
    proof {
        reveal(string::string_done);
    }
    if op0 == 0xA4 {
        string::movsb(cpu)
    } else if op0 == 0xA5 {
        string::movsw(cpu)
    } else if op0 == 0xA6 {
        string::cmpsb(cpu)
    } else if op0 == 0xA7 {
        string::cmpsw(cpu)
    } else if op0 == 0xAA {
        string::stosb(cpu)
    } else if op0 == 0xAB {
        string::stosw(cpu)
    } else if op0 == 0xAC {
        string::lodsb(cpu)
    } else if op0 == 0xAD {
        string::lodsw(cpu)
    } else if op0 == 0xAE {
        string::scasb(cpu)
    } else if op0 == 0xAF {
        string::scasw(cpu)
    } else {
        3
    }
}

/// Opcodes 0xC0 to 0xCF: returns, LES, LDS, immediate moves to memory and interrupts.
fn run_block_c0(cpu: &mut CPU, op0: u8) -> (r: Result<usize, CpuError>)
    requires
        old(cpu).wf(),
        0xC0 <= op0 < 0xD0,
    ensures
        final(cpu).wf(),
        r is Err <==> (op0 == 0xC0 || op0 == 0xC1 || op0 == 0xC8 || op0 == 0xC9),
        op0 == 0xC6 ==> mov_byte_imm_done(*old(cpu), *final(cpu)) && final(cpu).interrupt == old(cpu).interrupt,
{
    if op0 == 0xC0 || op0 == 0xC1 || op0 == 0xC8 || op0 == 0xC9 {
        Err(CpuError::UndefinedOpcode { address: cpu.current_address, op0 })
    } else if op0 == 0xC2 {
        let word = cpu.memory.next_word();
        Ok(jump::ret(cpu, Some(word)))
    } else if op0 == 0xC3 {
        Ok(jump::ret(cpu, None))
    } else if op0 == 0xC4 || op0 == 0xC5 {
        let op1 = cpu.memory.next_byte();
        let set_op = operand::Word::general(op1);
        let get_op = operand::Word::extended(&mut cpu.memory, &cpu.regs, op1);
        if op0 == 0xC4 {
            Ok(crate::instructions::set::les_word(cpu, set_op, get_op))
        } else {
            Ok(crate::instructions::set::lds_word(cpu, set_op, get_op))
        }
    } else if op0 == 0xC6 {
        let op1 = cpu.memory.next_byte();
        let set_op = operand::Byte::extended(&mut cpu.memory, &cpu.regs, op1);
        let get_op = operand::Byte::Imm(cpu.memory.next_byte());
        let e = Ghost(*cpu);
        let r = crate::instructions::set::mov_byte(cpu, set_op, get_op);
        proof {
            reveal(mov_byte_imm_done);
            assert(operand::rm_byte(set_op, Memory { ip: ((old(cpu).memory.ip + 1) % 0x10000) as u16, ..old(cpu).memory }, old(cpu).regs, old(cpu).memory.code_byte(0)));
            assert(e@.byte_written(*cpu, &set_op, e@.byte_val(&get_op) as u8));
        }
        Ok(r)
    } else if op0 == 0xC7 {
        let op1 = cpu.memory.next_byte();
        let set_op = operand::Word::extended(&mut cpu.memory, &cpu.regs, op1);
        let get_op = operand::Word::Imm(cpu.memory.next_word());
        Ok(crate::instructions::set::mov_word(cpu, set_op, get_op))
    } else if op0 == 0xCA {
        let word = cpu.memory.next_word();
        Ok(jump::retf(cpu, Some(word)))
    } else if op0 == 0xCB {
        Ok(jump::retf(cpu, None))
    } else if op0 == 0xCC {
        Ok(jump::int_n(cpu, 3))
    } else if op0 == 0xCD {
        let index = cpu.memory.next_byte();
        Ok(jump::int_n(cpu, index))
    } else if op0 == 0xCE {
        Ok(jump::into(cpu))
    } else {
        Ok(jump::iret(cpu))
    }
}

/// Opcodes 0xD0 to 0xDF: shifts and rotations, AAM, AAD, XLAT and coprocessor escapes.
fn run_block_d0(cpu: &mut CPU, op0: u8) -> (r: Result<usize, CpuError>)
    requires
        old(cpu).wf(),
        0xD0 <= op0 < 0xE0,
    ensures
        final(cpu).wf(),
        r is Err <==> (op0 == 0xD6 || (op0 <= 0xD3 && (old(cpu).memory.code_byte(0) / 8) % 8 == 6)),
{
    if op0 <= 0xD3 {
        let op1 = cpu.memory.next_byte();
        let reg = (op1 / 8) % 8;
        if reg == 6 {
            return Err(CpuError::UndefinedModRm { address: cpu.current_address, op0, op1 });
        }
        let kind = if reg == 0 {
            crate::flag::ShiftKind::Rol
        } else if reg == 1 {
            crate::flag::ShiftKind::Ror
        } else if reg == 2 {
            crate::flag::ShiftKind::Rcl
        } else if reg == 3 {
            crate::flag::ShiftKind::Rcr
        } else if reg == 4 {
            crate::flag::ShiftKind::Shl
        } else if reg == 5 {
            crate::flag::ShiftKind::Shr
        } else {
            crate::flag::ShiftKind::Sar
        };
        let get_op = if op0 == 0xD0 || op0 == 0xD1 {
            operand::Byte::Imm(1)
        } else {
            operand::Byte::Reg(register::Byte::CL)
        };
        if op0 % 2 == 0 {
            let set_op = operand::Byte::extended(&mut cpu.memory, &cpu.regs, op1);
            Ok(shift::shift_byte(cpu, kind, set_op, get_op))
        } else {
            let set_op = operand::Word::extended(&mut cpu.memory, &cpu.regs, op1);
            Ok(shift::shift_word(cpu, kind, set_op, get_op))
        }
    } else if op0 == 0xD4 {
        cpu.memory.next_byte();
        Ok(bcd::aam(cpu))
    } else if op0 == 0xD5 {
        cpu.memory.next_byte();
        Ok(bcd::aad(cpu))
    } else if op0 == 0xD6 {
        Err(CpuError::UndefinedOpcode { address: cpu.current_address, op0 })
    } else if op0 == 0xD7 {
        Ok(crate::instructions::set::xlat(cpu))
    } else {
        // A coprocessor escape: its operand is decoded, and with no coprocessor nothing happens.
        let op1 = cpu.memory.next_byte();
        operand::Word::extended(&mut cpu.memory, &cpu.regs, op1);
        Ok(2)
    }
}

/// Opcodes 0xE0 to 0xEF: loops, port I/O, near and far calls and jumps.
fn run_block_e0(cpu: &mut CPU, op0: u8) -> (r: Result<usize, CpuError>)
    requires
        old(cpu).wf(),
        0xE0 <= op0 < 0xF0,
    ensures
        final(cpu).wf(),
        r is Ok,
{
    if op0 <= 0xE3 {
        let offset = signed_byte(cpu.memory.next_byte());
        if op0 == 0xE0 {
            let c = !cpu.flags.zero;
            Ok(jump::loop_relative(cpu, offset, c))
        } else if op0 == 0xE1 {
            let c = cpu.flags.zero;
            Ok(jump::loop_relative(cpu, offset, c))
        } else if op0 == 0xE2 {
            Ok(jump::loop_relative(cpu, offset, true))
        } else {
            let c = cpu.regs.cx == 0;
            Ok(jump::jmp_relative(cpu, offset, c) + 2)
        }
    } else if op0 <= 0xE7 {
        let op = operand::Byte::Imm(cpu.memory.next_byte());
        if op0 == 0xE4 {
            Ok(crate::instructions::set::in_al_byte(cpu, op))
        } else if op0 == 0xE5 {
            Ok(crate::instructions::set::in_ax_byte(cpu, op))
        } else if op0 == 0xE6 {
            Ok(crate::instructions::set::out_al_byte(cpu, op))
        } else {
            Ok(crate::instructions::set::out_ax_byte(cpu, op))
        }
    } else if op0 == 0xE8 {
        let offset = operand::Word::Imm(cpu.memory.next_word());
        Ok(jump::call_relative_word(cpu, offset))
    } else if op0 == 0xE9 {
        let offset = cpu.memory.next_word();
        Ok(jump::jmp_relative_word(cpu, offset))
    } else if op0 == 0xEA {
        let offset = operand::Word::Imm(cpu.memory.next_word());
        let segment = operand::Word::Imm(cpu.memory.next_word());
        Ok(jump::jmp_addr(cpu, segment, offset))
    } else if op0 == 0xEB {
        let offset = signed_byte(cpu.memory.next_byte());
        Ok(jump::jmp_relative(cpu, offset, true))
    } else if op0 == 0xEC {
        Ok(crate::instructions::set::in_al_word(cpu))
    } else if op0 == 0xED {
        Ok(crate::instructions::set::in_ax_word(cpu))
    } else if op0 == 0xEE {
        Ok(crate::instructions::set::out_al_word(cpu))
    } else {
        Ok(crate::instructions::set::out_ax_word(cpu))
    }
}

/// Opcodes 0xF0 to 0xFF: LOCK, REP, HLT, the unary groups and flag instructions.
fn run_block_f0(cpu: &mut CPU, op0: u8) -> (r: Result<usize, CpuError>)
    requires
        old(cpu).wf(),
        0xF0 <= op0,
    ensures
        final(cpu).wf(),
        op0 != 0xF2 && op0 != 0xF3 ==> (r is Err <==> (op0 == 0xF1 || undefined_group(
            op0 as int,
            old(cpu).memory.code_byte(0),
        ))),
{
    if op0 == 0xF0 {
        Ok(2)
    } else if op0 == 0xF1 {
        Err(CpuError::UndefinedOpcode { address: cpu.current_address, op0 })
    } else if op0 == 0xF2 || op0 == 0xF3 {
        Ok(rep(cpu, op0 == 0xF3))
    } else if op0 == 0xF4 {
        cpu.halted = true;
        Ok(2)
    } else if op0 == 0xF5 {
        Ok(flag::cmc(cpu))
    } else if op0 == 0xF6 || op0 == 0xF7 {
        run_group_f6(cpu, op0)
    } else if op0 == 0xF8 {
        Ok(flag::clc(cpu))
    } else if op0 == 0xF9 {
        Ok(flag::stc(cpu))
    } else if op0 == 0xFA {
        Ok(flag::cli(cpu))
    } else if op0 == 0xFB {
        Ok(flag::sti(cpu))
    } else if op0 == 0xFC {
        Ok(flag::cld(cpu))
    } else if op0 == 0xFD {
        Ok(flag::std_flag(cpu))
    } else {
        run_group_fe(cpu, op0)
    }
}

/// 0xF6 and 0xF7: TEST, NOT, NEG, MUL, IMUL, DIV, IDIV by the ModR/M `reg` field.
fn run_group_f6(cpu: &mut CPU, op0: u8) -> (r: Result<usize, CpuError>)
    requires
        old(cpu).wf(),
        op0 == 0xF6 || op0 == 0xF7,
    ensures
        final(cpu).wf(),
        r is Err <==> (old(cpu).memory.code_byte(0) / 8) % 8 == 1,
{
    let op1 = cpu.memory.next_byte();
    let reg = (op1 / 8) % 8;
    if reg == 1 {
        return Err(CpuError::UndefinedModRm { address: cpu.current_address, op0, op1 });
    }
    if op0 == 0xF6 {
        let set_op = operand::Byte::extended(&mut cpu.memory, &cpu.regs, op1);
        if reg == 0 {
            let get_op = operand::Byte::Imm(cpu.memory.next_byte());
            Ok(logic::test_byte(cpu, set_op, get_op))
        } else if reg == 2 {
            Ok(logic::not_byte(cpu, set_op))
        } else if reg == 3 {
            Ok(math::neg_byte(cpu, set_op))
        } else if reg == 4 {
            Ok(math::mul_byte(cpu, set_op))
        } else if reg == 5 {
            Ok(math::imul_byte(cpu, set_op))
        } else if reg == 6 {
            Ok(math::div_byte(cpu, set_op))
        } else {
            Ok(math::idiv_byte(cpu, set_op))
        }
    } else {
        let set_op = operand::Word::extended(&mut cpu.memory, &cpu.regs, op1);
        if reg == 0 {
            let get_op = operand::Word::Imm(cpu.memory.next_word());
            Ok(logic::test_word(cpu, set_op, get_op))
        } else if reg == 2 {
            Ok(logic::not_word(cpu, set_op))
        } else if reg == 3 {
            Ok(math::neg_word(cpu, set_op))
        } else if reg == 4 {
            Ok(math::mul_word(cpu, set_op))
        } else if reg == 5 {
            Ok(math::imul_word(cpu, set_op))
        } else if reg == 6 {
            Ok(math::div_word(cpu, set_op))
        } else {
            Ok(math::idiv_word(cpu, set_op))
        }
    }
}

/// 0xFE and 0xFF: INC, DEC, and for words CALL, JMP (near and far) and PUSH.
fn run_group_fe(cpu: &mut CPU, op0: u8) -> (r: Result<usize, CpuError>)
    requires
        old(cpu).wf(),
        op0 == 0xFE || op0 == 0xFF,
    ensures
        final(cpu).wf(),
        r is Err <==> undefined_group(op0 as int, old(cpu).memory.code_byte(0)),
{
    let op1 = cpu.memory.next_byte();
    let reg = (op1 / 8) % 8;
    if (op0 == 0xFE && reg >= 2) || (op0 == 0xFF && reg == 7) {
        return Err(CpuError::UndefinedModRm { address: cpu.current_address, op0, op1 });
    }
    if op0 == 0xFE {
        let set_op = operand::Byte::extended(&mut cpu.memory, &cpu.regs, op1);
        if reg == 0 {
            Ok(math::inc_byte(cpu, set_op))
        } else {
            Ok(math::dec_byte(cpu, set_op))
        }
    } else {
        let set_op = operand::Word::extended(&mut cpu.memory, &cpu.regs, op1);
        if reg == 0 {
            Ok(math::inc_word(cpu, set_op))
        } else if reg == 1 {
            Ok(math::dec_word(cpu, set_op))
        } else if reg == 2 {
            Ok(jump::call_word(cpu, set_op))
        } else if reg == 3 {
            Ok(jump::call_far(cpu, set_op))
        } else if reg == 4 {
            Ok(jump::jmp_word(cpu, set_op))
        } else if reg == 5 {
            Ok(jump::jmp_far(cpu, set_op))
        } else {
            Ok(flag::push(cpu, set_op))
        }
    }
}

/// What one REP iteration does, from `o` (IP just past the prefix) to `n`.
pub open spec fn rep_iteration(o: CPU, n: CPU) -> bool {
    let op = o.memory.code_byte(0);
    let cx = o.regs.cx;
    let next_ip = ((o.memory.ip + 1) % 0x10000) as u16;
    let prefix_ip = ((o.memory.ip + 0xFFFF) % 0x10000) as u16;
    &&& n.memory.cs == o.memory.cs
    &&& !is_string_op(op) ==> n == o
    &&& is_string_op(op) && cx == 0 ==> n == (CPU {
        memory: crate::memory::Memory { ip: next_ip, ..o.memory },
        ..o
    })
    &&& is_string_op(op) && cx != 0 ==> n.regs.cx == cx - 1
    &&& is_string_op(op) && cx == 1 ==> n.memory.ip == next_ip && n.flags.zero
    &&& is_string_op(op) && cx > 1 && !is_compare_op(op) ==> n.memory.ip == prefix_ip
}

/// The IP of the REP prefix, when `c` stands just past it.
pub open spec fn prefix_ip(c: CPU) -> u16 {
    ((c.memory.ip + 0xFFFF) % 0x10000) as u16
}

/// A REP-prefixed string instruction that does not compare, started with CX = n > 0, runs
/// exactly n times: each iteration lowers CX by one and goes back to the prefix while CX is not
/// zero, and the iteration that leaves the prefix behind is the n-th, with CX zero. `starts[k]`
/// is the state at which iteration k begins, `ends[k]` the state it leaves, and each iteration
/// begins with the CX and instruction that the one before left.
pub proof fn lemma_rep_runs_n_times(starts: Seq<CPU>, ends: Seq<CPU>)
    requires
        starts.len() == ends.len(),
        starts.len() >= 1,
        starts[0].regs.cx >= 1,
        forall|k: int| 0 <= k < starts.len() ==> #[trigger] rep_iteration(starts[k], ends[k]),
        forall|k: int|
            0 <= k < starts.len() ==> is_string_op(#[trigger] starts[k].memory.code_byte(0))
                && !is_compare_op(starts[k].memory.code_byte(0)),
        forall|k: int|
            0 <= k < starts.len() - 1 ==> starts[k + 1].regs.cx == (#[trigger] ends[k]).regs.cx
                && ends[k].memory.ip == prefix_ip(starts[k]),
    ensures
        forall|k: int| 0 <= k < starts.len() ==> #[trigger] starts[k].regs.cx == starts[0].regs.cx - k,
        starts.len() <= starts[0].regs.cx,
        ends.last().memory.ip != prefix_ip(starts.last()) ==> starts.len() == starts[0].regs.cx
            && ends.last().regs.cx == 0,
{
    let n = starts[0].regs.cx as int;
    assert forall|k: int| 0 <= k < starts.len() implies #[trigger] starts[k].regs.cx == n - k by {
        lemma_rep_count(starts, ends, k);
    }
    let last = starts.len() - 1;
    assert(starts[last].regs.cx == n - last);
    assert(rep_iteration(starts[last], ends[last]));
    assert(is_string_op(starts[last].memory.code_byte(0)));
    assert(starts.last() == starts[last] && ends.last() == ends[last]);
    if starts.len() > n {
        assert(starts[n].regs.cx == 0);
        lemma_rep_count(starts, ends, n);
    }
    if ends[last].memory.ip != prefix_ip(starts[last]) {
        if starts[last].regs.cx > 1 {
            assert(ends[last].memory.ip == prefix_ip(starts[last]));
        }
    }
}

proof fn lemma_rep_count(starts: Seq<CPU>, ends: Seq<CPU>, k: int)
    requires
        starts.len() == ends.len(),
        0 <= k < starts.len(),
        starts[0].regs.cx >= 1,
        forall|j: int| 0 <= j < starts.len() ==> #[trigger] rep_iteration(starts[j], ends[j]),
        forall|j: int|
            0 <= j < starts.len() ==> is_string_op(#[trigger] starts[j].memory.code_byte(0))
                && !is_compare_op(starts[j].memory.code_byte(0)),
        forall|j: int|
            0 <= j < starts.len() - 1 ==> starts[j + 1].regs.cx == (#[trigger] ends[j]).regs.cx
                && ends[j].memory.ip == prefix_ip(starts[j]),
    ensures
        starts[k].regs.cx == starts[0].regs.cx - k,
        starts[k].regs.cx >= 1,
    decreases k,
{
    if k > 0 {
        lemma_rep_count(starts, ends, k - 1);
        let p = starts[k - 1];
        assert(rep_iteration(p, ends[k - 1]));
        assert(is_string_op(p.memory.code_byte(0)));
        assert(starts[k].regs.cx == ends[k - 1].regs.cx);
        assert(ends[k - 1].memory.ip == prefix_ip(p));
        if p.regs.cx == 1 {
            assert(ends[k - 1].memory.ip == ((p.memory.ip + 1) % 0x10000) as u16);
            assert(false);
        }
    }
}

/// Whether a REP iteration goes back to its prefix: CX is not yet zero and, for CMPS and SCAS,
/// the zero flag still has the value the prefix asks for.
pub open spec fn rep_goes_back(m: CPU, left: u16, op: int, zero: bool) -> bool {
    left != 0 && (!is_compare_op(op) || m.flags.zero == zero)
}

/// One iteration of a REP, REPE or REPNE prefix, IP just past the prefix. With CX zero the
/// string instruction is skipped. Otherwise it runs once and CX goes down by one; IP returns to
/// the prefix unless CX reached zero or, for CMPS and SCAS, the zero flag differs from
/// `zero`. CX reaching zero forces the zero flag on. A prefix before any other instruction has
/// no effect.
#[verifier::rlimit(100)]
pub fn rep(cpu: &mut CPU, zero: bool) -> (r: usize)
    requires
        old(cpu).wf(),
    ensures
        final(cpu).wf(),
        rep_iteration(*old(cpu), *final(cpu)),
        ({
            let o = *old(cpu);
            let op = o.memory.code_byte(0);
            let past = CPU { memory: Memory { ip: ((o.memory.ip + 1) % 0x10000) as u16, ..o.memory }, ..o };
            is_string_op(op) && o.regs.cx != 0 ==> exists|m: CPU|
                #[trigger] string::string_done(past, m, op) && *final(cpu) == string::rep_finish(m, (o.regs.cx - 1) as u16, rep_goes_back(m, (o.regs.cx - 1) as u16, op, zero), prefix_ip(o))
        }),
{
    let prefix_ip = cpu.memory.ip.wrapping_sub(1);
    let addr = crate::memory::calculate_addr(cpu.memory.cs, cpu.memory.ip);
    let op = cpu.memory.get_byte_msg(addr);
    let is_string = (0xA4 <= op && op <= 0xA7) || (0xAA <= op && op <= 0xAF);
    if !is_string {
        return 2;
    }
    cpu.memory.next_byte();
    if cpu.regs.cx == 0 {
        return 9;
    }
    let past = Ghost(*cpu);
    let cx = cpu.regs.cx;
    let cycles = string_op(cpu, op);
    let m = Ghost(*cpu);
    assert(string::string_done(past@, m@, op as int));
    let left = cx - 1;
    let compare = op == 0xA6 || op == 0xA7 || op == 0xAE || op == 0xAF;
    let back = left != 0 && (!compare || cpu.flags.zero == zero);
    assert(back == rep_goes_back(m@, left, op as int, zero));
    assert(m@.regs.cx == cx && m@.memory.ip == past@.memory.ip && m@.memory.cs == past@.memory.cs);
    string::finish_rep(cpu, left, back, prefix_ip);
    assert(*cpu == string::rep_finish(m@, left, back, prefix_ip));
    cycles
}

/// Runs the instruction whose opcode `op0` was just fetched.
fn dispatch(cpu: &mut CPU, op0: u8) -> (r: Result<usize, CpuError>)
    requires
        old(cpu).wf(),
    ensures
        final(cpu).wf(),
        ({
            let o = *old(cpu);
            let op0 = op0 as int;
            let op1 = o.memory.code_byte(0);
            &&& op0 != 0xF2 && op0 != 0xF3 ==> (r is Err <==> (undefined_opcode(op0) || undefined_group(op0, op1)))
            &&& is_segment_prefix(op0) ==> *final(cpu) == (CPU {
                memory: Memory { current_segment: prefix_segment(op0), overridden: true, ..o.memory },
                ..o
            })
            &&& op0 < 0x40 && op0 % 8 < 6 ==> std_form_done(o, *final(cpu), alu_op_of(op0 / 8), op0 % 8)
                && final(cpu).interrupt == o.interrupt
            &&& 0x70 <= op0 < 0x80 ==> ({
                let ip_next = (o.memory.ip + 1) % 0x10000;
                *final(cpu) == (CPU {
                    memory: Memory {
                        ip: if condition_holds(o.flags, op0 - 0x70) {
                            short_target(ip_next, op1)
                        } else {
                            ip_next as u16
                        },
                        ..o.memory
                    },
                    ..o
                })
            })
            &&& op0 == 0xC6 ==> mov_byte_imm_done(o, *final(cpu)) && final(cpu).interrupt == o.interrupt
            &&& 0xB0 <= op0 < 0xB8 ==> *final(cpu) == (CPU {
                regs: o.regs.with_byte(operand::byte_reg(op0 % 8), op1 as u8),
                memory: Memory { ip: ((o.memory.ip + 1) % 0x10000) as u16, ..o.memory },
                ..o
            })
            &&& 0xB8 <= op0 < 0xC0 ==> *final(cpu) == (CPU {
                regs: o.regs.with_word(operand::word_reg(op0 % 8), (op1 + 256 * o.memory.code_byte(1)) as u16),
                memory: Memory { ip: ((o.memory.ip + 2) % 0x10000) as u16, ..o.memory },
                ..o
            })
        }),
{
    if op0 < 0x40 {
        run_block_00(cpu, op0)
    } else if op0 < 0x80 {
        run_block_40(cpu, op0)
    } else if op0 < 0x90 {
        run_block_80(cpu, op0)
    } else if op0 < 0xC0 {
        run_block_90(cpu, op0)
    } else if op0 < 0xD0 {
        run_block_c0(cpu, op0)
    } else if op0 < 0xE0 {
        run_block_d0(cpu, op0)
    } else if op0 < 0xF0 {
        run_block_e0(cpu, op0)
    } else {
        run_block_f0(cpu, op0)
    }
}

/// What executing the instruction at CS:IP does, from `o` to `n` with result `r`: which
/// opcodes are errors, which segment a prefix selects and that an override lasts one
/// instruction, that the interrupt mailbox is left alone, and the exact effect of the ALU
/// forms, short conditional jumps, immediate moves to registers and MOV Eb,Ib.
pub open spec fn executed(o: CPU, n: CPU, r: Result<usize, CpuError>) -> bool
{
    let op0 = o.memory.code_byte(0);
    let op1 = o.memory.code_byte(1);
    let f = fetched(o);
    &&& op0 != 0xF2 && op0 != 0xF3 ==> (r is Err <==> (undefined_opcode(op0) || undefined_group(op0, op1)))
    &&& is_segment_prefix(op0) ==> n == (CPU {
        memory: Memory { current_segment: prefix_segment(op0), overridden: true, ..f.memory },
        ..f
    })
    &&& !is_segment_prefix(op0) ==> n.memory.current_segment == Segment::DS
        && !n.memory.overridden
    &&& n.interrupt == o.interrupt
    &&& op0 < 0x40 && op0 % 8 < 6 ==> exists|x: CPU|
        #[trigger] std_form_done(f, x, alu_op_of(op0 / 8), op0 % 8) && n == override_cleared(x)
    &&& op0 == 0xC6 ==> exists|x: CPU| #[trigger] mov_byte_imm_done(f, x) && n == override_cleared(x)
    &&& 0x70 <= op0 < 0x80 ==> ({
        let ip_next = (f.memory.ip + 1) % 0x10000;
        n == override_cleared(CPU {
            memory: Memory {
                ip: if condition_holds(f.flags, op0 - 0x70) {
                    short_target(ip_next, op1)
                } else {
                    ip_next as u16
                },
                ..f.memory
            },
            ..f
        })
    })
    &&& 0xB0 <= op0 < 0xB8 ==> n == override_cleared(CPU {
        regs: f.regs.with_byte(operand::byte_reg(op0 % 8), op1 as u8),
        memory: Memory { ip: ((f.memory.ip + 1) % 0x10000) as u16, ..f.memory },
        ..f
    })
    &&& 0xB8 <= op0 < 0xC0 ==> n == override_cleared(CPU {
        regs: f.regs.with_word(operand::word_reg(op0 % 8), (op1 + 256 * o.memory.code_byte(2)) as u16),
        memory: Memory { ip: ((f.memory.ip + 2) % 0x10000) as u16, ..f.memory },
        ..f
    })
}

/// Executes the instruction at CS:IP and returns its cycle count, or the error for an opcode
/// or ModR/M form that the 8086 does not define. After any instruction but a segment-override
/// prefix the next memory operand defaults to DS again.
#[verifier::rlimit(100)]
pub fn run_next_instruction(cpu: &mut CPU) -> (r: Result<usize, CpuError>)
    requires
old(cpu).wf(),
    ensures
final(cpu).wf(),
executed(*old(cpu), *final(cpu), r),
{
    let pending = cpu.interrupt;
    let op0 = fetch_opcode(cpu);
    let prefix = op0 == 0x26 || op0 == 0x2E || op0 == 0x36 || op0 == 0x3E;
    let result = dispatch(cpu, op0);
    let y = Ghost(*cpu);
    finish_instruction(cpu, pending, prefix);
    assert(op0 < 0x40 && op0 % 8 < 6 ==> *cpu == override_cleared(y@));
    assert(op0 == 0xC6 ==> *cpu == override_cleared(y@));
    result
}

fn fetch_opcode(cpu: &mut CPU) -> (r: u8)
    requires
        old(cpu).wf(),
    ensures
        final(cpu).wf(),
        *final(cpu) == fetched(*old(cpu)),
        r as int == old(cpu).memory.code_byte(0),
        final(cpu).memory.code_byte(0) == old(cpu).memory.code_byte(1),
        final(cpu).memory.code_byte(1) == old(cpu).memory.code_byte(2),
{
    cpu.current_address = cpu.memory.get_current_address();
    cpu.memory.next_byte()
}

/// Puts the mailbox back as it was before the instruction and, unless the instruction was a
/// segment prefix, clears the segment override.
fn finish_instruction(cpu: &mut CPU, pending: Option<u8>, prefix: bool)
    requires
        old(cpu).wf(),
    ensures
        final(cpu).wf(),
        prefix ==> *final(cpu) == (CPU { interrupt: pending, ..*old(cpu) }),
        !prefix ==> *final(cpu) == override_cleared(CPU { interrupt: pending, ..*old(cpu) }),
{
    cpu.interrupt = pending;
    if !prefix {
        cpu.memory.current_segment = Segment::DS;
        cpu.memory.overridden = false;
    }
}

/// One step of the processor. A pending hardware interrupt is taken first when interrupts are
/// enabled (which also ends a HLT); otherwise a halted processor idles for one cycle, and a
/// running one executes the next instruction.
pub fn step(cpu: &mut CPU) -> (r: Result<usize, CpuError>)
    requires
        old(cpu).wf(),
    ensures
        final(cpu).wf(),
        ({
            let o = *old(cpu);
            &&& (o.interrupt is Some && o.flags.interrupt) ==> r == Ok::<usize, CpuError>(61)
                && jump::interrupt_taken(CPU { halted: false, interrupt: None, ..o }, *final(cpu), o.interrupt->0)
            &&& !(o.interrupt is Some && o.flags.interrupt) && o.halted ==> r == Ok::<usize, CpuError>(1)
                && *final(cpu) == o
            &&& !(o.interrupt is Some && o.flags.interrupt) && !o.halted ==> executed(o, *final(cpu), r)
        }),
{
    if cpu.flags.interrupt {
        if let Some(v) = cpu.interrupt {
            cpu.interrupt = None;
            jump::hardware_int(cpu, v);
            return Ok(61);
        }
    }
    if cpu.halted {
        return Ok(1);
    }
    run_next_instruction(cpu)
}

} // verus!
