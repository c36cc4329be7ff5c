use vstd::prelude::*;

verus! {

/// The eight byte registers, halves of AX, CX, DX and BX.
#[derive(Clone, Copy, Debug, PartialEq, Eq, Structural)]
pub enum Byte {
    AL,
    CL,
    DL,
    BL,
    AH,
    CH,
    DH,
    BH,
}

/// The eight general word registers.
#[derive(Clone, Copy, Debug, PartialEq, Eq, Structural)]
pub enum Word {
    AX,
    CX,
    DX,
    BX,
    SP,
    BP,
    SI,
    DI,
}

/// The word register that holds a byte register.
pub open spec fn parent(reg: Byte) -> Word {
    match reg {
        Byte::AL | Byte::AH => Word::AX,
        Byte::CL | Byte::CH => Word::CX,
        Byte::DL | Byte::DH => Word::DX,
        Byte::BL | Byte::BH => Word::BX,
    }
}

/// Whether a byte register is the high half of its word register.
pub open spec fn is_high(reg: Byte) -> bool {
    match reg {
        Byte::AH | Byte::CH | Byte::DH | Byte::BH => true,
        _ => false,
    }
}

/// The general registers of the processor.
pub struct Registers {
    pub ax: u16,
    pub cx: u16,
    pub dx: u16,
    pub bx: u16,
    pub sp: u16,
    pub bp: u16,
    pub si: u16,
    pub di: u16,
}

impl Default for Registers {
    fn default() -> (r: Registers)
        ensures
            r == Registers::zeroed(),
    {
        Registers { ax: 0, cx: 0, dx: 0, bx: 0, sp: 0, bp: 0, si: 0, di: 0 }
    }
}

impl Registers {
    /// All registers zero.
    pub open spec fn zeroed() -> Registers {
        Registers { ax: 0, cx: 0, dx: 0, bx: 0, sp: 0, bp: 0, si: 0, di: 0 }
    }

    /// The value of a word register.
    pub open spec fn word(self, reg: Word) -> u16 {
        match reg {
            Word::AX => self.ax,
            Word::CX => self.cx,
            Word::DX => self.dx,
            Word::BX => self.bx,
            Word::SP => self.sp,
            Word::BP => self.bp,
            Word::SI => self.si,
            Word::DI => self.di,
        }
    }

    /// These registers with one word register replaced.
    pub open spec fn with_word(self, reg: Word, v: u16) -> Registers {
        match reg {
            Word::AX => Registers { ax: v, ..self },
            Word::CX => Registers { cx: v, ..self },
            Word::DX => Registers { dx: v, ..self },
            Word::BX => Registers { bx: v, ..self },
            Word::SP => Registers { sp: v, ..self },
            Word::BP => Registers { bp: v, ..self },
            Word::SI => Registers { si: v, ..self },
            Word::DI => Registers { di: v, ..self },
        }
    }

    /// The value of a byte register.
    pub open spec fn byte(self, reg: Byte) -> int {
        let w = self.word(parent(reg)) as int;
        if is_high(reg) {
            w / 256
        } else {
            w % 256
        }
    }

    /// These registers with one byte register replaced.
    pub open spec fn with_byte(self, reg: Byte, v: u8) -> Registers {
        let w = self.word(parent(reg)) as int;
        let nw = if is_high(reg) {
            w % 256 + 256 * v
        } else {
            (w / 256) * 256 + v
        };
        self.with_word(parent(reg), nw as u16)
    }

    pub fn set_byte(&mut self, reg: &Byte, value: u8)
        ensures
            *final(self) == old(self).with_byte(*reg, value),
    {
        let w = self.get_word(&byte_parent(reg));
        let nw: u16 = if byte_is_high(reg) {
            w % 256 + 256 * value as u16
        } else {
            (w / 256) * 256 + value as u16
        };
        self.set_word(&byte_parent(reg), nw);
    }

    pub fn get_byte(&self, reg: &Byte) -> (r: u8)
        ensures
            r as int == self.byte(*reg),
    {
        let w = self.get_word(&byte_parent(reg));
        if byte_is_high(reg) {
            (w / 256) as u8
        } else {
            (w % 256) as u8
        }
    }

    pub fn set_word(&mut self, reg: &Word, value: u16)
        ensures
            *final(self) == old(self).with_word(*reg, value),
    {
        match reg {
            Word::AX => self.ax = value,
            Word::CX => self.cx = value,
            Word::DX => self.dx = value,
            Word::BX => self.bx = value,
            Word::SP => self.sp = value,
            Word::BP => self.bp = value,
            Word::SI => self.si = value,
            Word::DI => self.di = value,
        }
    }

    pub fn get_word(&self, reg: &Word) -> (r: u16)
        ensures
            r == self.word(*reg),
    {
        match reg {
            Word::AX => self.ax,
            Word::CX => self.cx,
            Word::DX => self.dx,
            Word::BX => self.bx,
            Word::SP => self.sp,
            Word::BP => self.bp,
            Word::SI => self.si,
            Word::DI => self.di,
        }
    }
}

fn byte_parent(reg: &Byte) -> (r: Word)
    ensures
        r == parent(*reg),
{
    match reg {
        Byte::AL | Byte::AH => Word::AX,
        Byte::CL | Byte::CH => Word::CX,
        Byte::DL | Byte::DH => Word::DX,
        Byte::BL | Byte::BH => Word::BX,
    }
}

fn byte_is_high(reg: &Byte) -> (r: bool)
    ensures
        r == is_high(*reg),
{
    match reg {
        Byte::AH | Byte::CH | Byte::DH | Byte::BH => true,
        _ => false,
    }
}

} // verus!
