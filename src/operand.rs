use vstd::prelude::*;
use vstd::string::StringExecFns;
use crate::memory;
use crate::memory::{Memory, Segment};
use crate::register;
use crate::register::Registers;

verus! {

/// Two operands of one width: the one written and the one read.
pub enum Pair {
    Bytes(Byte, Byte),
    Words(Word, Word),
}

/// A byte operand.
pub enum Byte {
    /// A memory byte at `seg:addr`; `cycles` is the cost of its addressing mode.
    Mem { addr: u16, seg: Segment, label: String, cycles: usize },
    Reg(register::Byte),
    Imm(u8),
}

/// A word operand.
pub enum Word {
    /// A memory word at `seg:addr`; `cycles` is the cost of its addressing mode.
    Mem { addr: u16, seg: Segment, label: String, cycles: usize },
    Reg(register::Word),
    Seg(Segment),
    Imm(u16),
}

/// The byte register that a three-bit register field names.
pub open spec fn byte_reg(i: int) -> register::Byte {
    if i == 0 {
        register::Byte::AL
    } else if i == 1 {
        register::Byte::CL
    } else if i == 2 {
        register::Byte::DL
    } else if i == 3 {
        register::Byte::BL
    } else if i == 4 {
        register::Byte::AH
    } else if i == 5 {
        register::Byte::CH
    } else if i == 6 {
        register::Byte::DH
    } else {
        register::Byte::BH
    }
}

/// The word register that a three-bit register field names.
pub open spec fn word_reg(i: int) -> register::Word {
    if i == 0 {
        register::Word::AX
    } else if i == 1 {
        register::Word::CX
    } else if i == 2 {
        register::Word::DX
    } else if i == 3 {
        register::Word::BX
    } else if i == 4 {
        register::Word::SP
    } else if i == 5 {
        register::Word::BP
    } else if i == 6 {
        register::Word::SI
    } else {
        register::Word::DI
    }
}

/// The segment register that a two-bit segment field names.
pub open spec fn seg_reg(i: int) -> Segment {
    if i == 0 {
        Segment::ES
    } else if i == 1 {
        Segment::CS
    } else if i == 2 {
        Segment::SS
    } else {
        Segment::DS
    }
}

/// The `mod` field of a ModR/M byte.
pub open spec fn mod_of(op1: int) -> int {
    op1 / 64
}

/// The `rm` field of a ModR/M byte.
pub open spec fn rm_of(op1: int) -> int {
    op1 % 8
}

/// The `reg` field of a ModR/M byte.
pub open spec fn reg_of(op1: int) -> int {
    (op1 / 8) % 8
}

/// Whether a memory ModR/M byte names the direct 16-bit address form.
pub open spec fn is_direct(op1: int) -> bool {
    mod_of(op1) == 0 && rm_of(op1) == 6
}

/// The base of the effective address for an `rm` field, before displacement.
pub open spec fn ea_base(regs: Registers, rm: int) -> int {
    let s = if rm == 0 {
        regs.bx + regs.si
    } else if rm == 1 {
        regs.bx + regs.di
    } else if rm == 2 {
        regs.bp + regs.si
    } else if rm == 3 {
        regs.bp + regs.di
    } else if rm == 4 {
        regs.si as int
    } else if rm == 5 {
        regs.di as int
    } else if rm == 6 {
        regs.bp as int
    } else {
        regs.bx as int
    };
    s % 0x10000
}

/// Number of displacement bytes that follow a memory ModR/M byte.
pub open spec fn disp_len(op1: int) -> int {
    if is_direct(op1) {
        2
    } else if mod_of(op1) == 1 {
        1
    } else if mod_of(op1) == 2 {
        2
    } else {
        0
    }
}

/// A byte read as a signed 8-bit number.
pub open spec fn sext8(b: int) -> int {
    if b >= 128 {
        b - 256
    } else {
        b
    }
}

/// The offset that a memory ModR/M byte selects; displacement bytes follow the ModR/M byte.
pub open spec fn ea_offset(m: Memory, regs: Registers, op1: int) -> int {
    let base = ea_base(regs, rm_of(op1));
    if is_direct(op1) {
        m.code_byte(0) + 256 * m.code_byte(1)
    } else if mod_of(op1) == 1 {
        (base + sext8(m.code_byte(0)) + 0x10000) % 0x10000
    } else if mod_of(op1) == 2 {
        (base + m.code_byte(0) + 256 * m.code_byte(1)) % 0x10000
    } else {
        base
    }
}

/// The segment a memory operand uses: an override if one is active, else SS for BP-based forms
/// and DS for the others.
pub open spec fn ea_seg(m: Memory, op1: int) -> Segment {
    let rm = rm_of(op1);
    if m.overridden {
        m.current_segment
    } else if !is_direct(op1) && (rm == 2 || rm == 3 || rm == 6) {
        Segment::SS
    } else {
        Segment::DS
    }
}

/// The cycle cost of a memory addressing form.
pub open spec fn ea_cycles(op1: int) -> int {
    let rm = rm_of(op1);
    let base: int = if rm == 1 || rm == 2 {
        8
    } else if rm == 0 || rm == 3 {
        7
    } else {
        5
    };
    if mod_of(op1) == 1 || mod_of(op1) == 2 {
        base + 6
    } else {
        base
    }
}

/// The memory state after the displacement bytes of `op1` were taken.
pub open spec fn after_disp(m: Memory, op1: int) -> Memory {
    Memory { ip: ((m.ip + disp_len(op1)) % 0x10000) as u16, ..m }
}

/// The memory state once the operand bytes of ModR/M byte `op1` were taken.
pub open spec fn after_rm(m: Memory, op1: int) -> Memory {
    if op1 >= 0xC0 {
        m
    } else {
        after_disp(m, op1)
    }
}

/// Whether `op` is the byte operand that the `mod` and `rm` fields of `op1` name, its
/// displacement read from `m`'s code bytes.
pub open spec fn rm_byte(op: Byte, m: Memory, regs: Registers, op1: int) -> bool {
    if op1 >= 0xC0 {
        op == Byte::Reg(byte_reg(op1 % 8))
    } else {
        op matches Byte::Mem { addr, seg, cycles, .. } && addr as int == ea_offset(m, regs, op1)
            && seg == ea_seg(m, op1) && cycles as int == ea_cycles(op1)
    }
}

/// Whether `op` is the word operand that the `mod` and `rm` fields of `op1` name, its
/// displacement read from `m`'s code bytes.
pub open spec fn rm_word(op: Word, m: Memory, regs: Registers, op1: int) -> bool {
    if op1 >= 0xC0 {
        op == Word::Reg(word_reg(op1 % 8))
    } else {
        op matches Word::Mem { addr, seg, cycles, .. } && addr as int == ea_offset(m, regs, op1)
            && seg == ea_seg(m, op1) && cycles as int == ea_cycles(op1)
    }
}

fn text(s: &str) -> (r: String)
    ensures
        r@ == s@,
{
    String::from_str(s)
}

fn base_of(regs: &Registers, rm: u8) -> (r: (u16, String, usize))
    requires
        rm < 8,
    ensures
        r.0 as int == ea_base(*regs, rm as int),
        r.2 as int == (if rm == 1 || rm == 2 { 8int } else if rm == 0 || rm == 3 { 7int } else { 5int }),
{
    if rm == 0 {
        (regs.bx.wrapping_add(regs.si), text("BX+SI"), 7)
    } else if rm == 1 {
        (regs.bx.wrapping_add(regs.di), text("BX+DI"), 8)
    } else if rm == 2 {
        (regs.bp.wrapping_add(regs.si), text("BP+SI"), 8)
    } else if rm == 3 {
        (regs.bp.wrapping_add(regs.di), text("BP+DI"), 7)
    } else if rm == 4 {
        (regs.si, text("SI"), 5)
    } else if rm == 5 {
        (regs.di, text("DI"), 5)
    } else if rm == 6 {
        (regs.bp, text("BP"), 5)
    } else {
        (regs.bx, text("BX"), 5)
    }
}

fn seg_for(memory: &Memory, op1: u8) -> (r: Segment)
    ensures
        r == ea_seg(*memory, op1 as int),
{
    let rm = op1 % 8;
    let md = op1 / 64;
    if memory.overridden {
        memory.current_segment
    } else if !(md == 0 && rm == 6) && (rm == 2 || rm == 3 || rm == 6) {
        Segment::SS
    } else {
        Segment::DS
    }
}

/// Resolves a memory ModR/M byte: offset, segment, cost and label, taking any displacement.
fn effective_address(memory: &mut Memory, regs: &Registers, op1: u8) -> (r: (u16, Segment, usize, String))
    requires
        old(memory).wf(),
        op1 < 0xC0,
    ensures
        final(memory).wf(),
        *final(memory) == after_disp(*old(memory), op1 as int),
        r.0 as int == ea_offset(*old(memory), *regs, op1 as int),
        r.1 == ea_seg(*old(memory), op1 as int),
        r.2 as int == ea_cycles(op1 as int),
{
    let rm = op1 % 8;
    let md = op1 / 64;
    let (base, label, cycles) = base_of(regs, rm);
    let seg = seg_for(memory, op1);
    if md == 0 {
        if rm == 6 {
            let addr = memory.next_word();
            (addr, seg, cycles, text("disp16"))
        } else {
            (base, seg, cycles, label)
        }
    } else if md == 1 {
        let b = memory.next_byte();
        let disp: u16 = if b >= 128 {
            0xFF00 + b as u16
        } else {
            b as u16
        };
        let mut label = label;
        label.append("+disp8");
        (base.wrapping_add(disp), seg, cycles + 6, label)
    } else {
        let disp = memory.next_word();
        let mut label = label;
        label.append("+disp16");
        (base.wrapping_add(disp), seg, cycles + 6, label)
    }
}

impl Byte {
    pub fn reg_index(nib: u8) -> (r: Byte)
        ensures
            r == Byte::Reg(byte_reg(nib as int % 8)),
    {
        let reg = match nib % 8 {
            0 => register::Byte::AL,
            1 => register::Byte::CL,
            2 => register::Byte::DL,
            3 => register::Byte::BL,
            4 => register::Byte::AH,
            5 => register::Byte::CH,
            6 => register::Byte::DH,
            _ => register::Byte::BH,
        };
        Byte::Reg(reg)
    }

    /// A short text naming the operand: the register, `[form]` for memory, `imm` for a constant.
    pub fn label(&self) -> (r: String)
        ensures
            self matches Byte::Mem { label, .. } ==> r@ == seq!['['] + label@ + seq![']'],
    {
        match self {
            Byte::Mem { label, .. } => {
                let mut s = text("[");
                s.append(label.as_str());
                s.append("]");
                proof {
                    reveal_strlit("[");
                    reveal_strlit("]");
                }
                s
            },
            Byte::Reg(reg) => text(
                match reg {
                    register::Byte::AL => "AL",
                    register::Byte::CL => "CL",
                    register::Byte::DL => "DL",
                    register::Byte::BL => "BL",
                    register::Byte::AH => "AH",
                    register::Byte::CH => "CH",
                    register::Byte::DH => "DH",
                    register::Byte::BH => "BH",
                },
            ),
            Byte::Imm(_) => text("imm"),
        }
    }

    /// The register that the `reg` field (bits 5..3) of a ModR/M byte names.
    pub fn general(op1: u8) -> (r: Byte)
        ensures
            r == Byte::Reg(byte_reg(reg_of(op1 as int))),
    {
        let index = (op1 / 8) % 8;
        Byte::reg_index(index)
    }

    /// A byte at a direct 16-bit offset that follows in the instruction stream.
    pub fn address(memory: &mut Memory) -> (r: Byte)
        requires
            old(memory).wf(),
        ensures
            final(memory).wf(),
            *final(memory) == (Memory { ip: ((old(memory).ip + 2) % 0x10000) as u16, ..*old(memory) }),
            r matches Byte::Mem { addr, seg, cycles, .. } && addr as int == old(memory).code_byte(0)
                + 256 * old(memory).code_byte(1) && seg == old(memory).current_segment && cycles == 5,
    {
        let addr = memory.next_word();
        Byte::Mem { addr, seg: memory.current_segment, label: text("disp16"), cycles: 5 }
    }

    /// The operand that the `mod` and `rm` fields of a ModR/M byte name.
    pub fn extended(memory: &mut Memory, regs: &Registers, op1: u8) -> (r: Byte)
        requires
            old(memory).wf(),
        ensures
            final(memory).wf(),
            rm_byte(r, *old(memory), *regs, op1 as int),
            *final(memory) == after_rm(*old(memory), op1 as int),
    {
        if op1 >= 0xC0 {
            Byte::reg_index(op1 % 8)
        } else {
            let (addr, seg, cycles, label) = effective_address(memory, regs, op1);
            Byte::Mem { addr, seg, label, cycles }
        }
    }

    /// Cycles of a one-operand instruction on this operand.
    pub fn get_cycles(&self) -> (r: usize)
        ensures
            r as int == one_byte_cycles(self),
    {
        match self {
            Byte::Mem { cycles, .. } => if *cycles <= 1000 {
                23 + *cycles
            } else {
                23
            },
            _ => 2,
        }
    }

    /// Cycles of a shift or rotation of this operand, by one or by CL (`count` bits).
    pub fn get_rotate_cycles(&self, get_op: &Byte, count: u8) -> (r: usize)
        ensures
            r == one_byte_cycles(self) + if get_op is Reg { 5 + 4 * count as int } else { 0 },
    {
        let mut cycles = self.get_cycles();
        if let Byte::Reg(_) = get_op {
            cycles = cycles + 5 + 4 * count as usize;
        }
        cycles
    }

    /// Cycles of a two-operand instruction that only reads its destination (CMP, TEST, MOV).
    pub fn get_cycles_fast_bytes(&self, get_op: &Byte) -> (r: usize)
        ensures
            r == fast_byte_cycles(self, get_op),
    {
        let m = mem_cycles_b(self) + mem_cycles_b(get_op);
        match (self, get_op) {
            (Byte::Reg(_), Byte::Reg(_)) => 2,
            (Byte::Reg(_), Byte::Imm(_)) => 4,
            (Byte::Mem { .. }, Byte::Reg(_)) => 13 + m,
            (Byte::Mem { .. }, Byte::Imm(_)) => 14 + m,
            (Byte::Reg(_), Byte::Mem { .. }) => 12 + m,
            _ => 2,
        }
    }

    /// Cycles of a two-operand instruction that writes its destination (ADD, SUB, AND, ...).
    pub fn get_cycles_slow_bytes(&self, get_op: &Byte) -> (r: usize)
        ensures
            r == slow_byte_cycles(self, get_op),
    {
        let m = mem_cycles_b(self) + mem_cycles_b(get_op);
        match (self, get_op) {
            (Byte::Reg(_), Byte::Reg(_)) => 3,
            (Byte::Reg(_), Byte::Imm(_)) => 4,
            (Byte::Mem { .. }, Byte::Reg(_)) => 24 + m,
            (Byte::Mem { .. }, Byte::Imm(_)) => 23 + m,
            (Byte::Reg(_), Byte::Mem { .. }) => 13 + m,
            _ => 3,
        }
    }
}

/// Cycles of a one-operand instruction on a byte operand.
pub open spec fn one_byte_cycles(op: &Byte) -> int {
    match op {
        Byte::Mem { cycles, .. } => if *cycles <= 1000 { 23 + *cycles } else { 23 },
        _ => 2,
    }
}

/// Cycles of a one-operand instruction on a word operand.
pub open spec fn one_word_cycles(op: &Word) -> int {
    match op {
        Word::Mem { cycles, .. } => if *cycles <= 1000 { 24 + *cycles } else { 24 },
        _ => 3,
    }
}

/// The addressing cost carried by a memory operand, bounded; zero for other operands.
pub open spec fn mem_cycles_b_spec(op: &Byte) -> usize {
    match op {
        Byte::Mem { cycles, .. } => if *cycles <= 1000 { *cycles } else { 0 },
        _ => 0,
    }
}

fn mem_cycles_b(op: &Byte) -> (r: usize)
    ensures
        r == mem_cycles_b_spec(op),
        r <= 1000,
{
    match op {
        Byte::Mem { cycles, .. } => if *cycles <= 1000 {
            *cycles
        } else {
            0
        },
        _ => 0,
    }
}

pub open spec fn fast_byte_cycles(set_op: &Byte, get_op: &Byte) -> usize {
    let m = (mem_cycles_b_spec(set_op) + mem_cycles_b_spec(get_op)) as usize;
    match (set_op, get_op) {
        (Byte::Reg(_), Byte::Reg(_)) => 2,
        (Byte::Reg(_), Byte::Imm(_)) => 4,
        (Byte::Mem { .. }, Byte::Reg(_)) => (13 + m) as usize,
        (Byte::Mem { .. }, Byte::Imm(_)) => (14 + m) as usize,
        (Byte::Reg(_), Byte::Mem { .. }) => (12 + m) as usize,
        _ => 2,
    }
}

pub open spec fn slow_byte_cycles(set_op: &Byte, get_op: &Byte) -> usize {
    let m = (mem_cycles_b_spec(set_op) + mem_cycles_b_spec(get_op)) as usize;
    match (set_op, get_op) {
        (Byte::Reg(_), Byte::Reg(_)) => 3,
        (Byte::Reg(_), Byte::Imm(_)) => 4,
        (Byte::Mem { .. }, Byte::Reg(_)) => (24 + m) as usize,
        (Byte::Mem { .. }, Byte::Imm(_)) => (23 + m) as usize,
        (Byte::Reg(_), Byte::Mem { .. }) => (13 + m) as usize,
        _ => 3,
    }
}

pub open spec fn mem_cycles_w_spec(op: &Word) -> usize {
    match op {
        Word::Mem { cycles, .. } => if *cycles <= 1000 { *cycles } else { 0 },
        _ => 0,
    }
}

fn mem_cycles_w(op: &Word) -> (r: usize)
    ensures
        r == mem_cycles_w_spec(op),
        r <= 1000,
{
    match op {
        Word::Mem { cycles, .. } => if *cycles <= 1000 {
            *cycles
        } else {
            0
        },
        _ => 0,
    }
}

pub open spec fn fast_word_cycles(set_op: &Word, get_op: &Word) -> usize {
    let m = (mem_cycles_w_spec(set_op) + mem_cycles_w_spec(get_op)) as usize;
    match (set_op, get_op) {
        (Word::Seg(_), Word::Mem { .. }) => (12 + m) as usize,
        (Word::Mem { .. }, Word::Seg(_)) => (11 + m) as usize,
        (Word::Reg(_), Word::Imm(_)) => 4,
        (Word::Mem { .. }, Word::Reg(_)) => (13 + m) as usize,
        (Word::Mem { .. }, Word::Imm(_)) => (14 + m) as usize,
        (Word::Reg(_), Word::Mem { .. }) => (12 + m) as usize,
        _ => 2,
    }
}

pub open spec fn slow_word_cycles(set_op: &Word, get_op: &Word) -> usize {
    let m = (mem_cycles_w_spec(set_op) + mem_cycles_w_spec(get_op)) as usize;
    match (set_op, get_op) {
        (Word::Reg(_), Word::Imm(_)) => 4,
        (Word::Mem { .. }, Word::Reg(_)) => (24 + m) as usize,
        (Word::Mem { .. }, Word::Imm(_)) => (23 + m) as usize,
        (Word::Reg(_), Word::Mem { .. }) => (13 + m) as usize,
        _ => 3,
    }
}

impl Word {
    pub fn reg_index(index: u8) -> (r: Word)
        ensures
            r == Word::Reg(word_reg(index as int % 8)),
    {
        let reg = match index % 8 {
            0 => register::Word::AX,
            1 => register::Word::CX,
            2 => register::Word::DX,
            3 => register::Word::BX,
            4 => register::Word::SP,
            5 => register::Word::BP,
            6 => register::Word::SI,
            _ => register::Word::DI,
        };
        Word::Reg(reg)
    }

    /// A short text naming the operand: the register, `[form]` for memory, `imm` for a constant.
    pub fn label(&self) -> (r: String)
        ensures
            self matches Word::Mem { label, .. } ==> r@ == seq!['['] + label@ + seq![']'],
    {
        match self {
            Word::Mem { label, .. } => {
                let mut s = text("[");
                s.append(label.as_str());
                s.append("]");
                proof {
                    reveal_strlit("[");
                    reveal_strlit("]");
                }
                s
            },
            Word::Reg(reg) => text(
                match reg {
                    register::Word::AX => "AX",
                    register::Word::CX => "CX",
                    register::Word::DX => "DX",
                    register::Word::BX => "BX",
                    register::Word::SP => "SP",
                    register::Word::BP => "BP",
                    register::Word::SI => "SI",
                    register::Word::DI => "DI",
                },
            ),
            Word::Seg(seg) => text(
                match seg {
                    Segment::ES => "ES",
                    Segment::CS => "CS",
                    Segment::SS => "SS",
                    Segment::DS => "DS",
                },
            ),
            Word::Imm(_) => text("imm"),
        }
    }

    /// The register that the `reg` field (bits 5..3) of a ModR/M byte names.
    pub fn general(op1: u8) -> (r: Word)
        ensures
            r == Word::Reg(word_reg(reg_of(op1 as int))),
    {
        let index = (op1 / 8) % 8;
        Word::reg_index(index)
    }

    /// A word at a direct 16-bit offset that follows in the instruction stream.
    pub fn address(memory: &mut Memory) -> (r: Word)
        requires
            old(memory).wf(),
        ensures
            final(memory).wf(),
            *final(memory) == (Memory { ip: ((old(memory).ip + 2) % 0x10000) as u16, ..*old(memory) }),
            r matches Word::Mem { addr, seg, cycles, .. } && addr as int == old(memory).code_byte(0)
                + 256 * old(memory).code_byte(1) && seg == old(memory).current_segment && cycles == 5,
    {
        let addr = memory.next_word();
        Word::Mem { addr, seg: memory.current_segment, label: text("disp16"), cycles: 5 }
    }

    /// The operand that the `mod` and `rm` fields of a ModR/M byte name.
    pub fn extended(memory: &mut Memory, regs: &Registers, op1: u8) -> (r: Word)
        requires
            old(memory).wf(),
        ensures
            final(memory).wf(),
            rm_word(r, *old(memory), *regs, op1 as int),
            *final(memory) == after_rm(*old(memory), op1 as int),
    {
        if op1 >= 0xC0 {
            Word::reg_index(op1 % 8)
        } else {
            let (addr, seg, cycles, label) = effective_address(memory, regs, op1);
            Word::Mem { addr, seg, label, cycles }
        }
    }

    pub fn seg_index(index: u8) -> (r: Word)
        ensures
            r == Word::Seg(seg_reg(index as int % 4)),
    {
        let seg = match index % 4 {
            0 => Segment::ES,
            1 => Segment::CS,
            2 => Segment::SS,
            _ => Segment::DS,
        };
        Word::Seg(seg)
    }

    /// The segment register that bits 4..3 of a ModR/M byte name.
    pub fn segment(op1: u8) -> (r: Word)
        ensures
            r == Word::Seg(seg_reg((op1 as int / 8) % 4)),
    {
        let index = (op1 / 8) % 4;
        Word::seg_index(index)
    }

    /// Cycles of a one-operand instruction on this operand.
    pub fn get_cycles(&self) -> (r: usize)
        ensures
            r as int == one_word_cycles(self),
    {
        match self {
            Word::Mem { cycles, .. } => if *cycles <= 1000 {
                24 + *cycles
            } else {
                24
            },
            _ => 3,
        }
    }

    /// Cycles of a shift or rotation of this operand, by one or by CL (`count` bits).
    pub fn get_rotate_cycles(&self, get_op: &Byte, count: u8) -> (r: usize)
        ensures
            r == one_word_cycles(self) + if get_op is Reg { 5 + 4 * count as int } else { 0 },
    {
        let mut cycles = self.get_cycles();
        if let Byte::Reg(_) = get_op {
            cycles = cycles + 5 + 4 * count as usize;
        }
        cycles
    }

    /// Cycles of a two-operand instruction that only reads its destination (CMP, TEST, MOV).
    pub fn get_cycles_fast(&self, get_op: &Word) -> (r: usize)
        ensures
            r == fast_word_cycles(self, get_op),
    {
        let m = mem_cycles_w(self) + mem_cycles_w(get_op);
        match (self, get_op) {
            (Word::Seg(_), Word::Mem { .. }) => 12 + m,
            (Word::Mem { .. }, Word::Seg(_)) => 11 + m,
            (Word::Reg(_), Word::Imm(_)) => 4,
            (Word::Mem { .. }, Word::Reg(_)) => 13 + m,
            (Word::Mem { .. }, Word::Imm(_)) => 14 + m,
            (Word::Reg(_), Word::Mem { .. }) => 12 + m,
            _ => 2,
        }
    }

    /// Cycles of a two-operand instruction that writes its destination (ADD, SUB, AND, ...).
    pub fn get_cycles_slow(&self, get_op: &Word) -> (r: usize)
        ensures
            r == slow_word_cycles(self, get_op),
    {
        let m = mem_cycles_w(self) + mem_cycles_w(get_op);
        match (self, get_op) {
            (Word::Reg(_), Word::Imm(_)) => 4,
            (Word::Mem { .. }, Word::Reg(_)) => 24 + m,
            (Word::Mem { .. }, Word::Imm(_)) => 23 + m,
            (Word::Reg(_), Word::Mem { .. }) => 13 + m,
            _ => 3,
        }
    }
}

} // verus!
