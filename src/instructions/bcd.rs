use vstd::prelude::*;
use crate::cpu8086::CPU;
use crate::flag::Flags;
use crate::register;

verus! {

/// AAA: after an unpacked BCD addition, a low digit above 9 (or a half carry) adds 6 to AL and
/// 1 to AH and sets AF and CF; AL keeps only its low digit.
pub fn aaa(cpu: &mut CPU) -> (r: usize)
    ensures
        ({
            let al = old(cpu).regs.byte(register::Byte::AL);
            let ah = old(cpu).regs.byte(register::Byte::AH);
            let adj = al % 16 > 9 || old(cpu).flags.adjust;
            let nal = if adj { ((al + 6) % 256) % 16 } else { al % 16 };
            let nah = if adj { (ah + 1) % 256 } else { ah };
            *final(cpu) == (CPU {
                regs: old(cpu).regs.with_word(register::Word::AX, (nal + 256 * nah) as u16),
                flags: Flags { adjust: adj, carry: adj, ..old(cpu).flags },
                ..*old(cpu)
            })
        }),
{
    let al = cpu.regs.get_byte(&register::Byte::AL);
    let ah = cpu.regs.get_byte(&register::Byte::AH);
    let adj = al % 16 > 9 || cpu.flags.adjust;
    let (nal, nah) = if adj {
        (al.wrapping_add(6) % 16, ah.wrapping_add(1))
    } else {
        (al % 16, ah)
    };
    cpu.flags.adjust = adj;
    cpu.flags.carry = adj;
    cpu.regs.ax = nal as u16 + 256 * nah as u16;
    8
}

/// AAS: after an unpacked BCD subtraction, a low digit above 9 (or a half carry) subtracts 6
/// from AL and 1 from AH and sets AF and CF; AL keeps only its low digit.
pub fn aas(cpu: &mut CPU) -> (r: usize)
    ensures
        ({
            let al = old(cpu).regs.byte(register::Byte::AL);
            let ah = old(cpu).regs.byte(register::Byte::AH);
            let adj = al % 16 > 9 || old(cpu).flags.adjust;
            let nal = if adj { ((al + 250) % 256) % 16 } else { al % 16 };
            let nah = if adj { (ah + 255) % 256 } else { ah };
            *final(cpu) == (CPU {
                regs: old(cpu).regs.with_word(register::Word::AX, (nal + 256 * nah) as u16),
                flags: Flags { adjust: adj, carry: adj, ..old(cpu).flags },
                ..*old(cpu)
            })
        }),
{
    let al = cpu.regs.get_byte(&register::Byte::AL);
    let ah = cpu.regs.get_byte(&register::Byte::AH);
    let adj = al % 16 > 9 || cpu.flags.adjust;
    let (nal, nah) = if adj {
        (al.wrapping_sub(6) % 16, ah.wrapping_sub(1))
    } else {
        (al % 16, ah)
    };
    cpu.flags.adjust = adj;
    cpu.flags.carry = adj;
    cpu.regs.ax = nal as u16 + 256 * nah as u16;
    8
}

/// AAM: AH gets AL / 10 and AL gets AL % 10; parity, zero and sign follow the new AL.
pub fn aam(cpu: &mut CPU) -> (r: usize)
    ensures
        ({
            let al = old(cpu).regs.byte(register::Byte::AL);
            *final(cpu) == (CPU {
                regs: old(cpu).regs.with_word(register::Word::AX, (al % 10 + 256 * (al / 10)) as u16),
                flags: old(cpu).flags.with_pzs(al % 10, false),
                ..*old(cpu)
            })
        }),
{
    let al = cpu.regs.get_byte(&register::Byte::AL);
    cpu.regs.ax = (al % 10) as u16 + 256 * (al / 10) as u16;
    cpu.flags.parity_zero_sign_byte(al % 10);
    83
}

/// AAD: AL gets AH * 10 + AL (in eight bits) and AH is cleared; parity, zero and sign follow
/// the new AL.
pub fn aad(cpu: &mut CPU) -> (r: usize)
    ensures
        ({
            let v = (old(cpu).regs.byte(register::Byte::AH) * 10 + old(cpu).regs.byte(register::Byte::AL)) % 256;
            *final(cpu) == (CPU {
                regs: old(cpu).regs.with_word(register::Word::AX, v as u16),
                flags: old(cpu).flags.with_pzs(v, false),
                ..*old(cpu)
            })
        }),
{
    let al = cpu.regs.get_byte(&register::Byte::AL) as u16;
    let ah = cpu.regs.get_byte(&register::Byte::AH) as u16;
    let result = ((ah * 10 + al) % 256) as u8;
    cpu.regs.ax = result as u16;
    cpu.flags.parity_zero_sign_byte(result);
    60
}

/// DAA: decimal adjust of AL after a packed BCD addition.
pub fn daa(cpu: &mut CPU) -> (r: usize)
    ensures
        ({
            let al = old(cpu).regs.byte(register::Byte::AL);
            let lo = al % 16 > 9 || old(cpu).flags.adjust;
            let al1 = if lo { (al + 6) % 256 } else { al };
            let hi = al > 0x99 || old(cpu).flags.carry;
            let al2 = if hi { (al1 + 0x60) % 256 } else { al1 };
            *final(cpu) == (CPU {
                regs: old(cpu).regs.with_byte(register::Byte::AL, al2 as u8),
                flags: Flags { adjust: lo, carry: hi, ..old(cpu).flags.with_pzs(al2, false) },
                ..*old(cpu)
            })
        }),
{
    let al = cpu.regs.get_byte(&register::Byte::AL);
    let lo = al % 16 > 9 || cpu.flags.adjust;
    let hi = al > 0x99 || cpu.flags.carry;
    let v1: u16 = if lo {
        (al as u16 + 6) % 256
    } else {
        al as u16
    };
    let v2: u16 = if hi {
        (v1 + 0x60) % 256
    } else {
        v1
    };
    let v = v2 as u8;
    cpu.flags.parity_zero_sign_byte(v);
    cpu.flags.adjust = lo;
    cpu.flags.carry = hi;
    cpu.regs.set_byte(&register::Byte::AL, v);
    4
}

/// DAS: decimal adjust of AL after a packed BCD subtraction.
pub fn das(cpu: &mut CPU) -> (r: usize)
    ensures
        ({
            let al = old(cpu).regs.byte(register::Byte::AL);
            let lo = al % 16 > 9 || old(cpu).flags.adjust;
            let al1 = if lo { (al + 250) % 256 } else { al };
            let hi = al > 0x99 || old(cpu).flags.carry;
            let al2 = if hi { (al1 + 0xA0) % 256 } else { al1 };
            *final(cpu) == (CPU {
                regs: old(cpu).regs.with_byte(register::Byte::AL, al2 as u8),
                flags: Flags { adjust: lo, carry: hi, ..old(cpu).flags.with_pzs(al2, false) },
                ..*old(cpu)
            })
        }),
{
    let al = cpu.regs.get_byte(&register::Byte::AL);
    let lo = al % 16 > 9 || cpu.flags.adjust;
    let hi = al > 0x99 || cpu.flags.carry;
    let v1: u16 = if lo {
        (al as u16 + 250) % 256
    } else {
        al as u16
    };
    let v2: u16 = if hi {
        (v1 + 0xA0) % 256
    } else {
        v1
    };
    let v = v2 as u8;
    cpu.flags.parity_zero_sign_byte(v);
    cpu.flags.adjust = lo;
    cpu.flags.carry = hi;
    cpu.regs.set_byte(&register::Byte::AL, v);
    4
}

} // verus!
