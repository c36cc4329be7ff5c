use vstd::prelude::*;
use crate::cpu8086::CPU;
use crate::flag::{add_result, b2i, sub_result, Flags};
use crate::instructions::jump;
use crate::operand;
use crate::operand::{fast_byte_cycles, fast_word_cycles, slow_byte_cycles, slow_word_cycles};
use crate::register;

verus! {

/// The eight ALU operations of the 0x00-0x3F block and the immediate group, plus TEST.
#[derive(Clone, Copy, Debug, PartialEq, Eq, Structural)]
pub enum AluOp {
    Add,
    Or,
    Adc,
    Sbb,
    And,
    Sub,
    Xor,
    Cmp,
    Test,
}

/// Whether the operation stores its result (CMP and TEST only set flags).
pub open spec fn stores(op: AluOp) -> bool {
    op != AluOp::Cmp && op != AluOp::Test
}

/// The result and flags of an ALU operation on `a` and `b`.
pub open spec fn alu(op: AluOp, f: Flags, a: u16, b: u16, wide: bool) -> (int, Flags) {
    let (ai, bi) = (a as int, b as int);
    match op {
        AluOp::Add => (add_result(ai, bi, 0, wide), f.after_add(ai, bi, 0, wide)),
        AluOp::Adc => (add_result(ai, bi, b2i(f.carry), wide), f.after_add(ai, bi, b2i(f.carry), wide)),
        AluOp::Sub | AluOp::Cmp => (sub_result(ai, bi, 0, wide), f.after_sub(ai, bi, 0, wide)),
        AluOp::Sbb => (sub_result(ai, bi, b2i(f.carry), wide), f.after_sub(ai, bi, b2i(f.carry), wide)),
        AluOp::And | AluOp::Test => ((a & b) as int, f.after_logic((a & b) as int, wide)),
        AluOp::Or => ((a | b) as int, f.after_logic((a | b) as int, wide)),
        AluOp::Xor => ((a ^ b) as int, f.after_logic((a ^ b) as int, wide)),
    }
}

/// Whether `new` is `old` after byte ALU operation `op` on `set_op` and `get_op`.
pub open spec fn alu_byte_done(old: CPU, new: CPU, op: AluOp, set_op: &operand::Byte, get_op: &operand::Byte) -> bool {
    let (r, f) = alu(op, old.flags, old.byte_val(set_op) as u16, old.byte_val(get_op) as u16, false);
    if stores(op) {
        (CPU { flags: f, ..old }).byte_written(new, set_op, r as u8)
    } else {
        new == CPU { flags: f, ..old }
    }
}

/// Whether `new` is `old` after word ALU operation `op` on `set_op` and `get_op`.
pub open spec fn alu_word_done(old: CPU, new: CPU, op: AluOp, set_op: &operand::Word, get_op: &operand::Word) -> bool {
    let (r, f) = alu(op, old.flags, old.word_val(set_op) as u16, old.word_val(get_op) as u16, true);
    if stores(op) {
        (CPU { flags: f, ..old }).word_written(new, set_op, r as u16)
    } else {
        new == CPU { flags: f, ..old }
    }
}

fn alu_value(flags: &mut Flags, op: AluOp, a: u16, b: u16, wide: bool) -> (r: u16)
    requires
        !wide ==> a < 256 && b < 256,
    ensures
        (r as int, *final(flags)) == alu(op, *old(flags), a, b, wide),
        !wide ==> r < 256,
{
    match op {
        AluOp::Add => if wide {
            flags.add_word(a, b)
        } else {
            flags.add_byte(a as u8, b as u8) as u16
        },
        AluOp::Adc => if wide {
            flags.adc_word(a, b)
        } else {
            flags.adc_byte(a as u8, b as u8) as u16
        },
        AluOp::Sub | AluOp::Cmp => if wide {
            flags.cmp_sub_word(a, b)
        } else {
            flags.cmp_sub_byte(a as u8, b as u8) as u16
        },
        AluOp::Sbb => if wide {
            flags.sbb_word(a, b)
        } else {
            flags.sbb_byte(a as u8, b as u8) as u16
        },
        AluOp::And | AluOp::Test => {
            let r = a & b;
            assert(!wide ==> r < 256) by (bit_vector)
                requires !wide ==> a < 256 && b < 256, r == a & b;
            if wide {
                flags.test_and_or_xor_word(r);
            } else {
                flags.test_and_or_xor_byte(r as u8);
            }
            r
        },
        AluOp::Or => {
            let r = a | b;
            assert(!wide ==> r < 256) by (bit_vector)
                requires !wide ==> a < 256 && b < 256, r == a | b;
            if wide {
                flags.test_and_or_xor_word(r);
            } else {
                flags.test_and_or_xor_byte(r as u8);
            }
            r
        },
        AluOp::Xor => {
            let r = a ^ b;
            assert(!wide ==> r < 256) by (bit_vector)
                requires !wide ==> a < 256 && b < 256, r == a ^ b;
            if wide {
                flags.test_and_or_xor_word(r);
            } else {
                flags.test_and_or_xor_byte(r as u8);
            }
            r
        },
    }
}

/// A byte ALU operation: reads both operands, sets the flags, stores unless CMP or TEST.
pub fn alu_byte(cpu: &mut CPU, op: AluOp, set_op: operand::Byte, get_op: operand::Byte) -> (r: usize)
    requires
        old(cpu).wf(),
        stores(op) ==> !(set_op is Imm),
    ensures
        final(cpu).wf(),
        alu_byte_done(*old(cpu), *final(cpu), op, &set_op, &get_op),
        r == if stores(op) {
            slow_byte_cycles(&set_op, &get_op)
        } else {
            fast_byte_cycles(&set_op, &get_op)
        },
{
    let a = cpu.read_byte(&set_op);
    let b = cpu.read_byte(&get_op);
    let r = alu_value(&mut cpu.flags, op, a as u16, b as u16, false);
    if op != AluOp::Cmp && op != AluOp::Test {
        cpu.write_byte(&set_op, r as u8);
        set_op.get_cycles_slow_bytes(&get_op)
    } else {
        set_op.get_cycles_fast_bytes(&get_op)
    }
}

/// A word ALU operation: reads both operands, sets the flags, stores unless CMP or TEST.
pub fn alu_word(cpu: &mut CPU, op: AluOp, set_op: operand::Word, get_op: operand::Word) -> (r: usize)
    requires
        old(cpu).wf(),
        stores(op) ==> !(set_op is Imm),
    ensures
        final(cpu).wf(),
        alu_word_done(*old(cpu), *final(cpu), op, &set_op, &get_op),
        r == if stores(op) {
            slow_word_cycles(&set_op, &get_op)
        } else {
            fast_word_cycles(&set_op, &get_op)
        },
{
    let a = cpu.read_word(&set_op);
    let b = cpu.read_word(&get_op);
    let r = alu_value(&mut cpu.flags, op, a, b, true);
    if op != AluOp::Cmp && op != AluOp::Test {
        cpu.write_word(&set_op, r);
        set_op.get_cycles_slow(&get_op)
    } else {
        set_op.get_cycles_fast(&get_op)
    }
}

pub fn add_byte(cpu: &mut CPU, set_op: operand::Byte, get_op: operand::Byte) -> (r: usize)
    requires old(cpu).wf(), !(set_op is Imm),
    ensures final(cpu).wf(), alu_byte_done(*old(cpu), *final(cpu), AluOp::Add, &set_op, &get_op),
{
    alu_byte(cpu, AluOp::Add, set_op, get_op)
}

pub fn add_word(cpu: &mut CPU, set_op: operand::Word, get_op: operand::Word) -> (r: usize)
    requires old(cpu).wf(), !(set_op is Imm),
    ensures final(cpu).wf(), alu_word_done(*old(cpu), *final(cpu), AluOp::Add, &set_op, &get_op),
{
    alu_word(cpu, AluOp::Add, set_op, get_op)
}

pub fn adc_byte(cpu: &mut CPU, set_op: operand::Byte, get_op: operand::Byte) -> (r: usize)
    requires old(cpu).wf(), !(set_op is Imm),
    ensures final(cpu).wf(), alu_byte_done(*old(cpu), *final(cpu), AluOp::Adc, &set_op, &get_op),
{
    alu_byte(cpu, AluOp::Adc, set_op, get_op)
}

pub fn adc_word(cpu: &mut CPU, set_op: operand::Word, get_op: operand::Word) -> (r: usize)
    requires old(cpu).wf(), !(set_op is Imm),
    ensures final(cpu).wf(), alu_word_done(*old(cpu), *final(cpu), AluOp::Adc, &set_op, &get_op),
{
    alu_word(cpu, AluOp::Adc, set_op, get_op)
}

pub fn sub_byte(cpu: &mut CPU, set_op: operand::Byte, get_op: operand::Byte) -> (r: usize)
    requires old(cpu).wf(), !(set_op is Imm),
    ensures final(cpu).wf(), alu_byte_done(*old(cpu), *final(cpu), AluOp::Sub, &set_op, &get_op),
{
    alu_byte(cpu, AluOp::Sub, set_op, get_op)
}

pub fn sub_word(cpu: &mut CPU, set_op: operand::Word, get_op: operand::Word) -> (r: usize)
    requires old(cpu).wf(), !(set_op is Imm),
    ensures final(cpu).wf(), alu_word_done(*old(cpu), *final(cpu), AluOp::Sub, &set_op, &get_op),
{
    alu_word(cpu, AluOp::Sub, set_op, get_op)
}

pub fn sbb_byte(cpu: &mut CPU, set_op: operand::Byte, get_op: operand::Byte) -> (r: usize)
    requires old(cpu).wf(), !(set_op is Imm),
    ensures final(cpu).wf(), alu_byte_done(*old(cpu), *final(cpu), AluOp::Sbb, &set_op, &get_op),
{
    alu_byte(cpu, AluOp::Sbb, set_op, get_op)
}

pub fn sbb_word(cpu: &mut CPU, set_op: operand::Word, get_op: operand::Word) -> (r: usize)
    requires old(cpu).wf(), !(set_op is Imm),
    ensures final(cpu).wf(), alu_word_done(*old(cpu), *final(cpu), AluOp::Sbb, &set_op, &get_op),
{
    alu_word(cpu, AluOp::Sbb, set_op, get_op)
}

pub fn cmp_byte(cpu: &mut CPU, set_op: operand::Byte, get_op: operand::Byte) -> (r: usize)
    requires old(cpu).wf(),
    ensures final(cpu).wf(), alu_byte_done(*old(cpu), *final(cpu), AluOp::Cmp, &set_op, &get_op),
{
    alu_byte(cpu, AluOp::Cmp, set_op, get_op)
}

pub fn cmp_word(cpu: &mut CPU, set_op: operand::Word, get_op: operand::Word) -> (r: usize)
    requires old(cpu).wf(),
    ensures final(cpu).wf(), alu_word_done(*old(cpu), *final(cpu), AluOp::Cmp, &set_op, &get_op),
{
    alu_word(cpu, AluOp::Cmp, set_op, get_op)
}

pub fn inc_byte(cpu: &mut CPU, op: operand::Byte) -> (r: usize)
    requires old(cpu).wf(), !(op is Imm),
    ensures
        final(cpu).wf(),
        ({
            let v = old(cpu).byte_val(&op);
            (CPU { flags: old(cpu).flags.after_inc(v, false), ..*old(cpu) }).byte_written(
                *final(cpu), &op, add_result(v, 1, 0, false) as u8)
        }),
{
    let value = cpu.read_byte(&op);
    let result = cpu.flags.inc_byte(value);
    cpu.write_byte(&op, result);
    op.get_cycles()
}

pub fn inc_word(cpu: &mut CPU, op: operand::Word) -> (r: usize)
    requires old(cpu).wf(), !(op is Imm),
    ensures
        final(cpu).wf(),
        ({
            let v = old(cpu).word_val(&op);
            (CPU { flags: old(cpu).flags.after_inc(v, true), ..*old(cpu) }).word_written(
                *final(cpu), &op, add_result(v, 1, 0, true) as u16)
        }),
{
    let value = cpu.read_word(&op);
    let result = cpu.flags.inc_word(value);
    cpu.write_word(&op, result);
    op.get_cycles()
}

pub fn dec_byte(cpu: &mut CPU, op: operand::Byte) -> (r: usize)
    requires old(cpu).wf(), !(op is Imm),
    ensures
        final(cpu).wf(),
        ({
            let v = old(cpu).byte_val(&op);
            (CPU { flags: old(cpu).flags.after_dec(v, false), ..*old(cpu) }).byte_written(
                *final(cpu), &op, sub_result(v, 1, 0, false) as u8)
        }),
{
    let value = cpu.read_byte(&op);
    let result = cpu.flags.dec_byte(value);
    cpu.write_byte(&op, result);
    op.get_cycles()
}

pub fn dec_word(cpu: &mut CPU, op: operand::Word) -> (r: usize)
    requires old(cpu).wf(), !(op is Imm),
    ensures
        final(cpu).wf(),
        ({
            let v = old(cpu).word_val(&op);
            (CPU { flags: old(cpu).flags.after_dec(v, true), ..*old(cpu) }).word_written(
                *final(cpu), &op, sub_result(v, 1, 0, true) as u16)
        }),
{
    let value = cpu.read_word(&op);
    let result = cpu.flags.dec_word(value);
    cpu.write_word(&op, result);
    op.get_cycles()
}

/// NEG: the operand becomes `0 - v`, with the flags of that subtraction.
pub fn neg_byte(cpu: &mut CPU, op: operand::Byte) -> (r: usize)
    requires old(cpu).wf(), !(op is Imm),
    ensures
        final(cpu).wf(),
        ({
            let v = old(cpu).byte_val(&op);
            (CPU { flags: old(cpu).flags.after_sub(0, v, 0, false), ..*old(cpu) }).byte_written(
                *final(cpu), &op, sub_result(0, v, 0, false) as u8)
        }),
{
    let value = cpu.read_byte(&op);
    let result = cpu.flags.cmp_sub_byte(0, value);
    cpu.write_byte(&op, result);
    op.get_cycles()
}

/// NEG: the operand becomes `0 - v`, with the flags of that subtraction.
pub fn neg_word(cpu: &mut CPU, op: operand::Word) -> (r: usize)
    requires old(cpu).wf(), !(op is Imm),
    ensures
        final(cpu).wf(),
        ({
            let v = old(cpu).word_val(&op);
            (CPU { flags: old(cpu).flags.after_sub(0, v, 0, true), ..*old(cpu) }).word_written(
                *final(cpu), &op, sub_result(0, v, 0, true) as u16)
        }),
{
    let value = cpu.read_word(&op);
    let result = cpu.flags.cmp_sub_word(0, value);
    cpu.write_word(&op, result);
    op.get_cycles()
}

/// MUL of AL by a byte: AX gets the product; CF = OF = (AH != 0).
pub fn mul_byte(cpu: &mut CPU, op: operand::Byte) -> (r: usize)
    requires old(cpu).wf(),
    ensures
        ({
            let p = old(cpu).regs.byte(register::Byte::AL) * old(cpu).byte_val(&op);
            *final(cpu) == (CPU {
                regs: old(cpu).regs.with_word(register::Word::AX, p as u16),
                flags: Flags { carry: p >= 256, overflow: p >= 256, ..old(cpu).flags },
                ..*old(cpu)
            })
        }),
{
    let al = cpu.regs.get_byte(&register::Byte::AL) as u16;
    let value = cpu.read_byte(&op) as u16;
    assert(al * value <= 255 * 255) by (nonlinear_arith) requires al <= 255, value <= 255;
    let result = al * value;
    cpu.flags.carry = result >= 256;
    cpu.flags.overflow = result >= 256;
    cpu.regs.set_word(&register::Word::AX, result);
    77
}

/// MUL of AX by a word: DX:AX gets the product; CF = OF = (DX != 0).
pub fn mul_word(cpu: &mut CPU, op: operand::Word) -> (r: usize)
    requires old(cpu).wf(),
    ensures
        ({
            let p = old(cpu).regs.ax * old(cpu).word_val(&op);
            *final(cpu) == (CPU {
                regs: old(cpu).regs.with_word(register::Word::AX, (p % 0x10000) as u16).with_word(
                    register::Word::DX, (p / 0x10000) as u16),
                flags: Flags { carry: p >= 0x10000, overflow: p >= 0x10000, ..old(cpu).flags },
                ..*old(cpu)
            })
        }),
{
    let ax = cpu.regs.ax as u32;
    let value = cpu.read_word(&op) as u32;
    assert(ax * value <= 65535 * 65535) by (nonlinear_arith) requires ax <= 65535, value <= 65535;
    let result = ax * value;
    cpu.flags.carry = result >= 0x10000;
    cpu.flags.overflow = result >= 0x10000;
    cpu.regs.set_word(&register::Word::AX, (result % 0x10000) as u16);
    cpu.regs.set_word(&register::Word::DX, (result / 0x10000) as u16);
    118
}

/// A value of the given width read as signed.
pub open spec fn sx(v: int, wide: bool) -> int {
    crate::flag::signed(v, wide)
}

/// IMUL of AL by a byte: AX gets the signed product; CF = OF = (AH is not the sign extension
/// of AL).
#[verifier::rlimit(60)]
pub fn imul_byte(cpu: &mut CPU, op: operand::Byte) -> (r: usize)
    requires old(cpu).wf(),
    ensures
        ({
            let p = sx(old(cpu).regs.byte(register::Byte::AL), false) * sx(old(cpu).byte_val(&op), false);
            let big = p < -128 || p > 127;
            *final(cpu) == (CPU {
                regs: old(cpu).regs.with_word(register::Word::AX, ((p + 0x10000) % 0x10000) as u16),
                flags: Flags { carry: big, overflow: big, ..old(cpu).flags },
                ..*old(cpu)
            })
        }),
{
    let al = cpu.regs.get_byte(&register::Byte::AL) as i32;
    let value = cpu.read_byte(&op) as i32;
    let a: i32 = if al >= 128 { al - 256 } else { al };
    let b: i32 = if value >= 128 { value - 256 } else { value };
    assert(-128 * 128 <= a * b <= 128 * 128) by (nonlinear_arith) requires -128 <= a <= 127, -128 <= b <= 127;
    let p = a * b;
    let big = p < -128 || p > 127;
    cpu.flags.carry = big;
    cpu.flags.overflow = big;
    cpu.regs.set_word(&register::Word::AX, ((p + 0x10000) % 0x10000) as u16);
    98
}

fn signed_product(a: i64, b: i64) -> (r: i64)
    requires
        -32768 <= a <= 32767,
        -32768 <= b <= 32767,
    ensures
        r == a * b,
        -0x4000_0000 <= r <= 0x4000_0000,
{
    assert(-0x4000_0000 <= a * b <= 0x4000_0000) by (nonlinear_arith)
        requires -32768 <= a <= 32767, -32768 <= b <= 32767;
    a * b
}

/// IMUL of AX by a word: DX:AX gets the signed product; CF = OF = (DX is not the sign
/// extension of AX).
pub fn imul_word(cpu: &mut CPU, op: operand::Word) -> (r: usize)
    requires old(cpu).wf(),
    ensures
        ({
            let p = sx(old(cpu).regs.ax as int, true) * sx(old(cpu).word_val(&op), true);
            let u = (p + 0x1_0000_0000) % 0x1_0000_0000;
            let big = p < -32768 || p > 32767;
            *final(cpu) == (CPU {
                regs: old(cpu).regs.with_word(register::Word::AX, (u % 0x10000) as u16).with_word(
                    register::Word::DX, (u / 0x10000) as u16),
                flags: Flags { carry: big, overflow: big, ..old(cpu).flags },
                ..*old(cpu)
            })
        }),
{
    let ax = cpu.regs.ax as i64;
    let value = cpu.read_word(&op) as i64;
    let a: i64 = if ax >= 32768 { ax - 65536 } else { ax };
    let b: i64 = if value >= 32768 { value - 65536 } else { value };
    let p = signed_product(a, b);
    let big = p < -32768 || p > 32767;
    let u = ((p + 0x1_0000_0000) % 0x1_0000_0000) as u32;
    cpu.flags.carry = big;
    cpu.flags.overflow = big;
    cpu.regs.set_word(&register::Word::AX, (u % 0x10000) as u16);
    cpu.regs.set_word(&register::Word::DX, (u / 0x10000) as u16);
    128
}

/// DIV of AX by a byte: AL gets the quotient, AH the remainder; a zero divisor or a quotient
/// above 0xFF takes interrupt 0 instead.
pub fn div_byte(cpu: &mut CPU, op: operand::Byte) -> (r: usize)
    requires old(cpu).wf(),
    ensures
        final(cpu).wf(),
        ({
            let n = old(cpu).regs.ax as int;
            let d = old(cpu).byte_val(&op);
            if d == 0 || n / d > 255 {
                jump::interrupt_taken(*old(cpu), *final(cpu), 0)
            } else {
                *final(cpu) == (CPU {
                    regs: old(cpu).regs.with_word(register::Word::AX, ((n / d) + 256 * (n % d)) as u16),
                    ..*old(cpu)
                })
            }
        }),
{
    let ax = cpu.regs.ax;
    let value = cpu.read_byte(&op) as u16;
    if value == 0 || ax / value > 255 {
        jump::int_n(cpu, 0);
        return 80;
    }
    let q = ax / value;
    let rem = ax % value;
    cpu.regs.set_word(&register::Word::AX, q + 256 * rem);
    80
}

/// DIV of DX:AX by a word: AX gets the quotient, DX the remainder; a zero divisor or a quotient
/// above 0xFFFF takes interrupt 0 instead.
pub fn div_word(cpu: &mut CPU, op: operand::Word) -> (r: usize)
    requires old(cpu).wf(),
    ensures
        final(cpu).wf(),
        ({
            let n = old(cpu).regs.dx * 0x10000 + old(cpu).regs.ax;
            let d = old(cpu).word_val(&op);
            if d == 0 || n / d > 0xFFFF {
                jump::interrupt_taken(*old(cpu), *final(cpu), 0)
            } else {
                *final(cpu) == (CPU {
                    regs: old(cpu).regs.with_word(register::Word::AX, (n / d) as u16).with_word(
                        register::Word::DX, (n % d) as u16),
                    ..*old(cpu)
                })
            }
        }),
{
    let n: u32 = cpu.regs.dx as u32 * 0x10000 + cpu.regs.ax as u32;
    let value = cpu.read_word(&op) as u32;
    if value == 0 || n / value > 0xFFFF {
        jump::int_n(cpu, 0);
        return 144;
    }
    let q = n / value;
    let rem = n % value;
    assert(rem < value);
    cpu.regs.set_word(&register::Word::AX, q as u16);
    cpu.regs.set_word(&register::Word::DX, rem as u16);
    144
}

/// Division rounding toward zero, as IDIV does.
pub open spec fn tdiv(a: int, b: int) -> int {
    let q = (if a < 0 { -a } else { a }) / (if b < 0 { -b } else { b });
    if (a < 0) != (b < 0) {
        -q
    } else {
        q
    }
}

/// The remainder of division rounding toward zero: it has the dividend's sign and is smaller
/// than the divisor in size.
proof fn lemma_tdiv(n: int, d: int)
    requires
        d != 0,
    ensures
        ({
            let rem = n - d * tdiv(n, d);
            &&& (if d < 0 { -d } else { d }) > (if rem < 0 { -rem } else { rem })
            &&& (rem >= 0 || n < 0)
        }),
{
    let na = if n < 0 { -n } else { n };
    let da = if d < 0 { -d } else { d };
    let qa = na / da;
    let ra = na % da;
    vstd::arithmetic::div_mod::lemma_fundamental_div_mod(na, da);
    assert(na == da * qa + ra);
    assert(0 <= ra < da);
    let q = tdiv(n, d);
    if n < 0 && d < 0 {
        assert(q == qa);
        assert(n - d * q == -ra) by (nonlinear_arith)
            requires n == -na, d == -da, q == qa, na == da * qa + ra;
    } else if n < 0 {
        assert(q == -qa);
        assert(n - d * q == -ra) by (nonlinear_arith)
            requires n == -na, d == da, q == -qa, na == da * qa + ra;
    } else if d < 0 {
        assert(q == -qa);
        assert(n - d * q == ra) by (nonlinear_arith)
            requires n == na, d == -da, q == -qa, na == da * qa + ra;
    } else {
        assert(q == qa);
        assert(n - d * q == ra) by (nonlinear_arith)
            requires n == na, d == da, q == qa, na == da * qa + ra;
    }
}

/// Quotient and remainder of division rounding toward zero.
fn tdiv_rem(n: i64, d: i64) -> (r: (i64, i64))
    requires
        d != 0,
        -0x8000_0000 <= n <= 0x8000_0000,
        -0x8000 <= d <= 0x8000,
    ensures
        r.0 == tdiv(n as int, d as int),
        r.1 == n - d * tdiv(n as int, d as int),
        -0x8000 < r.1 < 0x8000,
{
    let na: i64 = if n < 0 { -n } else { n };
    let da: i64 = if d < 0 { -d } else { d };
    let qa = na / da;
    let q: i64 = if (n < 0) != (d < 0) { -qa } else { qa };
    proof {
        lemma_tdiv(n as int, d as int);
        vstd::arithmetic::div_mod::lemma_fundamental_div_mod(na as int, da as int);
        assert(0 <= qa <= na) by (nonlinear_arith)
            requires qa == na / da, da >= 1, na >= 0;
        assert(-0x8000_0000 * 0x8000 <= d * q <= 0x8000_0000 * 0x8000) by (nonlinear_arith)
            requires -0x8000 <= d <= 0x8000, -0x8000_0000 <= q <= 0x8000_0000;
    }
    let rem = n - d * q;
    (q, rem)
}

/// IDIV of AX by a byte: AL gets the quotient (toward zero), AH the remainder (with the sign
/// of the dividend); a zero divisor or a quotient outside -127..127 takes interrupt 0 instead.
#[verifier::rlimit(60)]
pub fn idiv_byte(cpu: &mut CPU, op: operand::Byte) -> (r: usize)
    requires old(cpu).wf(),
    ensures
        final(cpu).wf(),
        ({
            let n = sx(old(cpu).regs.ax as int, true);
            let d = sx(old(cpu).byte_val(&op), false);
            let q = tdiv(n, d);
            if d == 0 || q < -127 || q > 127 {
                jump::interrupt_taken(*old(cpu), *final(cpu), 0)
            } else {
                let rem = n - d * q;
                *final(cpu) == (CPU {
                    regs: old(cpu).regs.with_word(
                        register::Word::AX,
                        (((q + 256) % 256) + 256 * ((rem + 256) % 256)) as u16,
                    ),
                    ..*old(cpu)
                })
            }
        }),
{
    let ax = cpu.regs.ax as i64;
    let v = cpu.read_byte(&op) as i64;
    let n: i64 = if ax >= 32768 { ax - 65536 } else { ax };
    let d: i64 = if v >= 128 { v - 256 } else { v };
    if d == 0 {
        jump::int_n(cpu, 0);
        return 101;
    }
    let (q, rem) = tdiv_rem(n, d);
    if q < -127 || q > 127 {
        jump::int_n(cpu, 0);
        return 101;
    }
    proof {
        lemma_tdiv(n as int, d as int);
    }
    cpu.regs.set_word(&register::Word::AX, (((q + 256) % 256) + 256 * ((rem + 256) % 256)) as u16);
    101
}

/// IDIV of DX:AX by a word: AX gets the quotient (toward zero), DX the remainder; a zero
/// divisor or a quotient outside -32767..32767 takes interrupt 0 instead.
pub fn idiv_word(cpu: &mut CPU, op: operand::Word) -> (r: usize)
    requires old(cpu).wf(),
    ensures
        final(cpu).wf(),
        ({
            let n = sx(old(cpu).regs.dx as int, true) * 0x10000 + old(cpu).regs.ax as int;
            let d = sx(old(cpu).word_val(&op), true);
            let q = tdiv(n, d);
            if d == 0 || q < -32767 || q > 32767 {
                jump::interrupt_taken(*old(cpu), *final(cpu), 0)
            } else {
                let rem = n - d * q;
                *final(cpu) == (CPU {
                    regs: old(cpu).regs.with_word(register::Word::AX, ((q + 0x10000) % 0x10000) as u16).with_word(
                        register::Word::DX, ((rem + 0x10000) % 0x10000) as u16),
                    ..*old(cpu)
                })
            }
        }),
{
    let dx = cpu.regs.dx as i64;
    let sdx: i64 = if dx >= 32768 { dx - 65536 } else { dx };
    let n: i64 = sdx * 0x10000 + cpu.regs.ax as i64;
    let v = cpu.read_word(&op) as i64;
    let d: i64 = if v >= 32768 { v - 65536 } else { v };
    if d == 0 {
        jump::int_n(cpu, 0);
        return 165;
    }
    let (q, rem) = tdiv_rem(n, d);
    if q < -32767 || q > 32767 {
        jump::int_n(cpu, 0);
        return 165;
    }
    cpu.regs.set_word(&register::Word::AX, ((q + 0x10000) % 0x10000) as u16);
    cpu.regs.set_word(&register::Word::DX, ((rem + 0x10000) % 0x10000) as u16);
    165
}

/// CBW: AH becomes 0xFF when AL is negative, else 0.
pub fn cbw(cpu: &mut CPU) -> (r: usize)
    ensures
        *final(cpu) == (CPU {
            regs: old(cpu).regs.with_byte(
                register::Byte::AH,
                if old(cpu).regs.byte(register::Byte::AL) >= 128 { 0xFFu8 } else { 0u8 },
            ),
            ..*old(cpu)
        }),
        r == 2,
{
    if cpu.regs.get_byte(&register::Byte::AL) >= 128 {
        cpu.regs.set_byte(&register::Byte::AH, 0xFF);
    } else {
        cpu.regs.set_byte(&register::Byte::AH, 0);
    }
    2
}

/// CWD: DX becomes 0xFFFF when AX is negative, else 0.
pub fn cwd(cpu: &mut CPU) -> (r: usize)
    ensures
        *final(cpu) == (CPU {
            regs: old(cpu).regs.with_word(
                register::Word::DX,
                if old(cpu).regs.ax >= 0x8000 { 0xFFFFu16 } else { 0u16 },
            ),
            ..*old(cpu)
        }),
        r == 5,
{
    if cpu.regs.ax >= 0x8000 {
        cpu.regs.set_word(&register::Word::DX, 0xFFFF);
    } else {
        cpu.regs.set_word(&register::Word::DX, 0);
    }
    5
}

} // verus!
