use vstd::prelude::*;
use vstd::arithmetic::div_mod::lemma_fundamental_div_mod_converse;

verus! {

/// Half of the value range of an operand: 0x80 for bytes, 0x8000 for words.
pub open spec fn half(wide: bool) -> int {
    if wide {
        0x8000
    } else {
        0x80
    }
}

/// Size of the value range of an operand: 2^8 for bytes, 2^16 for words.
pub open spec fn modulus(wide: bool) -> int {
    2 * half(wide)
}

/// The two's-complement reading of an operand value.
pub open spec fn signed(v: int, wide: bool) -> int {
    if v >= half(wide) {
        v - modulus(wide)
    } else {
        v
    }
}

/// Whether a mathematical signed result lies outside the operand's signed range.
pub open spec fn signed_out_of_range(v: int, wide: bool) -> bool {
    v < -half(wide) || v >= half(wide)
}

/// Number of one-bits among the low eight bits of `v`.
pub open spec fn popcount8(v: int) -> int {
    let b = v % 256;
    b % 2 + (b / 2) % 2 + (b / 4) % 2 + (b / 8) % 2 + (b / 16) % 2 + (b / 32) % 2 + (b / 64) % 2
        + (b / 128) % 2
}

/// Parity as the 8086 defines it: the low byte holds an even number of one-bits.
pub open spec fn even_parity(v: int) -> bool {
    popcount8(v) % 2 == 0
}

/// Bit `k` of `v` (for `k < 16`).
pub open spec fn bit(v: int, k: int) -> bool {
    (v / pow2_16(k)) % 2 == 1
}

pub open spec fn pow2_16(k: int) -> int
    decreases k,
{
    if k <= 0 {
        1
    } else {
        2 * pow2_16(k - 1)
    }
}

/// Result of `a + b + carry_in` in the operand's width.
pub open spec fn add_result(a: int, b: int, cin: int, wide: bool) -> int {
    (a + b + cin) % modulus(wide)
}

/// Result of `a - b - borrow_in` in the operand's width.
pub open spec fn sub_result(a: int, b: int, bin: int, wide: bool) -> int {
    (a - b - bin + modulus(wide)) % modulus(wide)
}

pub open spec fn b2i(b: bool) -> int {
    if b {
        1
    } else {
        0
    }
}

/// The nine flags of the 8086.
pub struct Flags {
    pub carry: bool,
    pub parity: bool,
    pub adjust: bool,
    pub zero: bool,
    pub sign: bool,
    pub trap: bool,
    pub interrupt: bool,
    pub direction: bool,
    pub overflow: bool,
}

impl Clone for Flags {
    fn clone(&self) -> (r: Flags)
        ensures
            r == *self,
    {
        Flags { ..*self }
    }
}

impl Default for Flags {
    fn default() -> (r: Flags)
        ensures
            r == Flags::cleared(),
    {
        Flags {
            carry: false,
            parity: false,
            adjust: false,
            zero: false,
            sign: false,
            trap: false,
            interrupt: false,
            direction: false,
            overflow: false,
        }
    }
}

impl Flags {
    /// All nine flags cleared, as at reset.
    pub open spec fn cleared() -> Flags {
        Flags {
            carry: false,
            parity: false,
            adjust: false,
            zero: false,
            sign: false,
            trap: false,
            interrupt: false,
            direction: false,
            overflow: false,
        }
    }

    /// These flags with parity, zero and sign taken from `r`.
    pub open spec fn with_pzs(self, r: int, wide: bool) -> Flags {
        Flags { parity: even_parity(r), zero: r == 0, sign: r >= half(wide), ..self }
    }

    /// The flags after AND, OR, XOR or TEST produced `r`.
    pub open spec fn after_logic(self, r: int, wide: bool) -> Flags {
        Flags { carry: false, overflow: false, ..self.with_pzs(r, wide) }
    }

    /// The flags after `a + b + cin` (ADD and ADC).
    pub open spec fn after_add(self, a: int, b: int, cin: int, wide: bool) -> Flags {
        Flags {
            carry: a + b + cin >= modulus(wide),
            adjust: a % 16 + b % 16 + cin >= 16,
            overflow: signed_out_of_range(signed(a, wide) + signed(b, wide) + cin, wide),
            ..self.with_pzs(add_result(a, b, cin, wide), wide)
        }
    }

    /// The flags after `a - b - bin` (SUB, SBB, CMP).
    pub open spec fn after_sub(self, a: int, b: int, bin: int, wide: bool) -> Flags {
        Flags {
            carry: a < b + bin,
            adjust: a % 16 < b % 16 + bin,
            overflow: signed_out_of_range(signed(a, wide) - signed(b, wide) - bin, wide),
            ..self.with_pzs(sub_result(a, b, bin, wide), wide)
        }
    }

    /// The flags after INC of `v`: like an addition of one, with carry kept.
    pub open spec fn after_inc(self, v: int, wide: bool) -> Flags {
        Flags { carry: self.carry, ..self.after_add(v, 1, 0, wide) }
    }

    /// The flags after DEC of `v`: like a subtraction of one, with carry kept.
    pub open spec fn after_dec(self, v: int, wide: bool) -> Flags {
        Flags { carry: self.carry, ..self.after_sub(v, 1, 0, wide) }
    }

    /// The low byte of the flag word.
    pub open spec fn bits_byte(self) -> int {
        2 + b2i(self.carry) + 4 * b2i(self.parity) + 16 * b2i(self.adjust) + 64 * b2i(self.zero)
            + 128 * b2i(self.sign)
    }

    /// The flag word, with bits 1 and 12 to 15 always set.
    pub open spec fn bits_word(self) -> int {
        self.bits_byte() + 0xF000 + 256 * b2i(self.trap) + 512 * b2i(self.interrupt) + 1024 * b2i(
            self.direction,
        ) + 2048 * b2i(self.overflow)
    }

    /// These flags with carry, parity, adjust, zero and sign read from `v`.
    pub open spec fn from_bits_byte(self, v: int) -> Flags {
        Flags {
            carry: bit(v, 0),
            parity: bit(v, 2),
            adjust: bit(v, 4),
            zero: bit(v, 6),
            sign: bit(v, 7),
            ..self
        }
    }

    /// The flags read from a flag word.
    pub open spec fn from_bits_word(self, v: int) -> Flags {
        Flags {
            trap: bit(v, 8),
            interrupt: bit(v, 9),
            direction: bit(v, 10),
            overflow: bit(v, 11),
            ..self.from_bits_byte(v)
        }
    }

    pub fn test_and_or_xor_byte(&mut self, result: u8)
        ensures
            *final(self) == old(self).after_logic(result as int, false),
    {
        self.carry = false;
        self.parity_zero_sign_byte(result);
        self.overflow = false;
    }

    pub fn test_and_or_xor_word(&mut self, result: u16)
        ensures
            *final(self) == old(self).after_logic(result as int, true),
    {
        self.carry = false;
        self.parity_zero_sign_word(result);
        self.overflow = false;
    }

    pub fn inc_byte(&mut self, value: u8) -> (r: u8)
        ensures
            r as int == add_result(value as int, 1, 0, false),
            *final(self) == old(self).after_inc(value as int, false),
    {
        let carry = self.carry;
        let r = self.add_byte(value, 1);
        self.carry = carry;
        r
    }

    pub fn inc_word(&mut self, value: u16) -> (r: u16)
        ensures
            r as int == add_result(value as int, 1, 0, true),
            *final(self) == old(self).after_inc(value as int, true),
    {
        let carry = self.carry;
        let r = self.add_word(value, 1);
        self.carry = carry;
        r
    }

    pub fn dec_byte(&mut self, value: u8) -> (r: u8)
        ensures
            r as int == sub_result(value as int, 1, 0, false),
            *final(self) == old(self).after_dec(value as int, false),
    {
        let carry = self.carry;
        let r = self.cmp_sub_byte(value, 1);
        self.carry = carry;
        r
    }

    pub fn dec_word(&mut self, value: u16) -> (r: u16)
        ensures
            r as int == sub_result(value as int, 1, 0, true),
            *final(self) == old(self).after_dec(value as int, true),
    {
        let carry = self.carry;
        let r = self.cmp_sub_word(value, 1);
        self.carry = carry;
        r
    }

    fn add_with(&mut self, a: u16, b: u16, cin: bool, wide: bool) -> (r: u16)
        requires
            !wide ==> a < 256 && b < 256,
        ensures
            r as int == add_result(a as int, b as int, b2i(cin), wide),
            *final(self) == old(self).after_add(a as int, b as int, b2i(cin), wide),
    {
        let m: u32 = if wide {
            0x10000
        } else {
            0x100
        };
        let h: i32 = if wide {
            0x8000
        } else {
            0x80
        };
        let c: u32 = if cin {
            1
        } else {
            0
        };
        let sum: u32 = a as u32 + b as u32 + c;
        let r = (sum % m) as u16;
        let sa: i32 = if a as i32 >= h {
            a as i32 - 2 * h
        } else {
            a as i32
        };
        let sb: i32 = if b as i32 >= h {
            b as i32 - 2 * h
        } else {
            b as i32
        };
        let ss: i32 = sa + sb + c as i32;
        self.carry = sum >= m;
        self.adjust = a % 16 + b % 16 + c as u16 >= 16;
        self.overflow = ss < -h || ss >= h;
        if wide {
            self.parity_zero_sign_word(r);
        } else {
            self.parity_zero_sign_byte(r as u8);
        }
        r
    }

    fn sub_with(&mut self, a: u16, b: u16, bin: bool, wide: bool) -> (r: u16)
        requires
            !wide ==> a < 256 && b < 256,
        ensures
            r as int == sub_result(a as int, b as int, b2i(bin), wide),
            *final(self) == old(self).after_sub(a as int, b as int, b2i(bin), wide),
    {
        let m: u32 = if wide {
            0x10000
        } else {
            0x100
        };
        let h: i32 = if wide {
            0x8000
        } else {
            0x80
        };
        let c: u32 = if bin {
            1
        } else {
            0
        };
        let diff: u32 = a as u32 + m - b as u32 - c;
        let r = (diff % m) as u16;
        let sa: i32 = if a as i32 >= h {
            a as i32 - 2 * h
        } else {
            a as i32
        };
        let sb: i32 = if b as i32 >= h {
            b as i32 - 2 * h
        } else {
            b as i32
        };
        let ss: i32 = sa - sb - c as i32;
        self.carry = (a as u32) < b as u32 + c;
        self.adjust = a % 16 < b % 16 + c as u16;
        self.overflow = ss < -h || ss >= h;
        if wide {
            self.parity_zero_sign_word(r);
        } else {
            self.parity_zero_sign_byte(r as u8);
        }
        r
    }

    pub fn add_byte(&mut self, set_val: u8, get_val: u8) -> (r: u8)
        ensures
            r as int == add_result(set_val as int, get_val as int, 0, false),
            *final(self) == old(self).after_add(set_val as int, get_val as int, 0, false),
    {
        self.add_with(set_val as u16, get_val as u16, false, false) as u8
    }

    pub fn add_word(&mut self, set_val: u16, get_val: u16) -> (r: u16)
        ensures
            r as int == add_result(set_val as int, get_val as int, 0, true),
            *final(self) == old(self).after_add(set_val as int, get_val as int, 0, true),
    {
        self.add_with(set_val, get_val, false, true)
    }

    pub fn adc_byte(&mut self, set_val: u8, get_val: u8) -> (r: u8)
        ensures
            r as int == add_result(set_val as int, get_val as int, b2i(old(self).carry), false),
            *final(self) == old(self).after_add(
                set_val as int,
                get_val as int,
                b2i(old(self).carry),
                false,
            ),
    {
        let c = self.carry;
        self.add_with(set_val as u16, get_val as u16, c, false) as u8
    }

    pub fn adc_word(&mut self, set_val: u16, get_val: u16) -> (r: u16)
        ensures
            r as int == add_result(set_val as int, get_val as int, b2i(old(self).carry), true),
            *final(self) == old(self).after_add(
                set_val as int,
                get_val as int,
                b2i(old(self).carry),
                true,
            ),
    {
        let c = self.carry;
        self.add_with(set_val, get_val, c, true)
    }

    pub fn cmp_sub_byte(&mut self, set_val: u8, get_val: u8) -> (r: u8)
        ensures
            r as int == sub_result(set_val as int, get_val as int, 0, false),
            *final(self) == old(self).after_sub(set_val as int, get_val as int, 0, false),
    {
        self.sub_with(set_val as u16, get_val as u16, false, false) as u8
    }

    pub fn cmp_sub_word(&mut self, set_val: u16, get_val: u16) -> (r: u16)
        ensures
            r as int == sub_result(set_val as int, get_val as int, 0, true),
            *final(self) == old(self).after_sub(set_val as int, get_val as int, 0, true),
    {
        self.sub_with(set_val, get_val, false, true)
    }

    pub fn sbb_byte(&mut self, set_val: u8, get_val: u8) -> (r: u8)
        ensures
            r as int == sub_result(set_val as int, get_val as int, b2i(old(self).carry), false),
            *final(self) == old(self).after_sub(
                set_val as int,
                get_val as int,
                b2i(old(self).carry),
                false,
            ),
    {
        let c = self.carry;
        self.sub_with(set_val as u16, get_val as u16, c, false) as u8
    }

    pub fn sbb_word(&mut self, set_val: u16, get_val: u16) -> (r: u16)
        ensures
            r as int == sub_result(set_val as int, get_val as int, b2i(old(self).carry), true),
            *final(self) == old(self).after_sub(
                set_val as int,
                get_val as int,
                b2i(old(self).carry),
                true,
            ),
    {
        let c = self.carry;
        self.sub_with(set_val, get_val, c, true)
    }

    pub fn get_bits_byte(&self) -> (r: u8)
        ensures
            r as int == self.bits_byte(),
    {
        let mut value: u8 = 0b0000_0010;
        if self.carry {
            value = value + 0b1;
        }
        if self.parity {
            value = value + 0b100;
        }
        if self.adjust {
            value = value + 0b1_0000;
        }
        if self.zero {
            value = value + 0b100_0000;
        }
        if self.sign {
            value = value + 0b1000_0000;
        }
        value
    }

    pub fn get_bits_word(&self) -> (r: u16)
        ensures
            r as int == self.bits_word(),
    {
        let mut value: u16 = self.get_bits_byte() as u16 + 0b1111_0000_0000_0000;
        if self.trap {
            value = value + 0b1_0000_0000;
        }
        if self.interrupt {
            value = value + 0b10_0000_0000;
        }
        if self.direction {
            value = value + 0b100_0000_0000;
        }
        if self.overflow {
            value = value + 0b1000_0000_0000;
        }
        value
    }

    pub fn set_bits_byte(&mut self, value: u8)
        ensures
            *final(self) == old(self).from_bits_byte(value as int),
    {
        proof {
            reveal_with_fuel(pow2_16, 8);
        }
        self.carry = value % 2 == 1;
        self.parity = (value / 4) % 2 == 1;
        self.adjust = (value / 16) % 2 == 1;
        self.zero = (value / 64) % 2 == 1;
        self.sign = (value / 128) % 2 == 1;
    }

    pub fn set_bits_word(&mut self, value: u16)
        ensures
            *final(self) == old(self).from_bits_word(value as int),
    {
        proof {
            reveal_with_fuel(pow2_16, 12);
        }
        self.carry = value % 2 == 1;
        self.parity = (value / 4) % 2 == 1;
        self.adjust = (value / 16) % 2 == 1;
        self.zero = (value / 64) % 2 == 1;
        self.sign = (value / 128) % 2 == 1;
        self.trap = (value / 256) % 2 == 1;
        self.interrupt = (value / 512) % 2 == 1;
        self.direction = (value / 1024) % 2 == 1;
        self.overflow = (value / 2048) % 2 == 1;
    }

    pub fn parity_zero_sign_byte(&mut self, result: u8)
        ensures
            *final(self) == old(self).with_pzs(result as int, false),
    {
        self.parity_byte(result);
        self.zero = result == 0;
        self.sign = result >= 0x80;
    }

    pub fn parity_zero_sign_word(&mut self, result: u16)
        ensures
            *final(self) == old(self).with_pzs(result as int, true),
    {
        let low = (result % 256) as u8;
        assert(popcount8(low as int) == popcount8(result as int));
        self.parity_byte(low);
        self.zero = result == 0;
        self.sign = result >= 0x8000;
    }

    fn parity_byte(&mut self, result: u8)
        ensures
            *final(self) == (Flags { parity: even_parity(result as int), ..*old(self) }),
    {
        let b = result;
        let count: u8 = b % 2 + (b / 2) % 2 + (b / 4) % 2 + (b / 8) % 2 + (b / 16) % 2 + (b / 32) % 2
            + (b / 64) % 2 + (b / 128) % 2;
        assert(b as int % 256 == b as int);
        assert(count as int == popcount8(result as int));
        self.parity = count % 2 == 0;
    }
}

/// The seven shift and rotate operations.
#[derive(Clone, Copy, PartialEq, Eq, Structural)]
pub enum ShiftKind {
    Rol,
    Ror,
    Rcl,
    Rcr,
    Shl,
    Shr,
    Sar,
}

/// Whether the operation is a rotation (which leaves parity, zero and sign alone).
pub open spec fn is_rotate(kind: ShiftKind) -> bool {
    kind == ShiftKind::Rol || kind == ShiftKind::Ror || kind == ShiftKind::Rcl || kind
        == ShiftKind::Rcr
}

/// One step of a shift or rotation by a single bit: the new value and the new carry.
pub open spec fn shift_step(kind: ShiftKind, v: int, c: bool, wide: bool) -> (int, bool) {
    let msb = v >= half(wide);
    let lsb = v % 2 == 1;
    let up = (v * 2) % modulus(wide);
    let down = v / 2;
    match kind {
        ShiftKind::Rol => (up + b2i(msb), msb),
        ShiftKind::Ror => (down + b2i(lsb) * half(wide), lsb),
        ShiftKind::Rcl => (up + b2i(c), msb),
        ShiftKind::Rcr => (down + b2i(c) * half(wide), lsb),
        ShiftKind::Shl => (up, msb),
        ShiftKind::Shr => (down, lsb),
        ShiftKind::Sar => (down + b2i(msb) * half(wide), lsb),
    }
}

/// A shift or rotation by `n` bits, one bit at a time: the value and the last carry.
pub open spec fn shift_n(kind: ShiftKind, v: int, c: bool, n: nat, wide: bool) -> (int, bool)
    decreases n,
{
    if n == 0 {
        (v, c)
    } else {
        let (v1, c1) = shift_n(kind, v, c, (n - 1) as nat, wide);
        shift_step(kind, v1, c1, wide)
    }
}

impl Flags {
    /// The flags after shifting or rotating `v` by `n` bits; a count of zero changes nothing.
    pub open spec fn after_shift(self, kind: ShiftKind, v: int, n: nat, wide: bool) -> Flags {
        if n == 0 {
            self
        } else {
            let (r, c) = shift_n(kind, v, self.carry, n, wide);
            let base = Flags { carry: c, overflow: (v >= half(wide)) != (r >= half(wide)), ..self };
            if is_rotate(kind) {
                base
            } else {
                base.with_pzs(r, wide)
            }
        }
    }

    /// Shifts or rotates `value` by `count` bits and updates the flags.
    pub fn shift(&mut self, kind: ShiftKind, value: u16, count: u8, wide: bool) -> (r: u16)
        requires
            !wide ==> value < 256,
        ensures
            r as int == shift_n(kind, value as int, old(self).carry, count as nat, wide).0,
            *final(self) == old(self).after_shift(kind, value as int, count as nat, wide),
    {
        if count == 0 {
            return value;
        }
        let h: u16 = if wide {
            0x8000
        } else {
            0x80
        };
        let mut v: u16 = value;
        let mut c: bool = self.carry;
        let mut i: u8 = 0;
        while i < count
            invariant
                i <= count,
                h as int == half(wide),
                (v as int) < 2 * half(wide),
                (v as int, c) == shift_n(kind, value as int, old(self).carry, i as nat, wide),
            decreases count - i,
        {
            let msb = v >= h;
            let lsb = v % 2 == 1;
            let up: u16 = if msb {
                ((v - h) * 2) as u16
            } else {
                (v * 2) as u16
            };
            let down: u16 = v / 2;
            proof {
                if msb {
                    lemma_fundamental_div_mod_converse(v as int * 2, modulus(wide), 1, v as int * 2 - modulus(wide));
                } else {
                    lemma_fundamental_div_mod_converse(v as int * 2, modulus(wide), 0, v as int * 2);
                }
            }
            assert(up as int == (v as int * 2) % modulus(wide));
            let (nv, nc) = match kind {
                ShiftKind::Rol => (
                    up + if msb {
                        1
                    } else {
                        0
                    },
                    msb,
                ),
                ShiftKind::Ror => (
                    down + if lsb {
                        h
                    } else {
                        0
                    },
                    lsb,
                ),
                ShiftKind::Rcl => (
                    up + if c {
                        1
                    } else {
                        0
                    },
                    msb,
                ),
                ShiftKind::Rcr => (
                    down + if c {
                        h
                    } else {
                        0
                    },
                    lsb,
                ),
                ShiftKind::Shl => (up, msb),
                ShiftKind::Shr => (down, lsb),
                ShiftKind::Sar => (
                    down + if msb {
                        h
                    } else {
                        0
                    },
                    lsb,
                ),
            };
            v = nv;
            c = nc;
            i = i + 1;
        }
        self.carry = c;
        self.overflow = (value >= h) != (v >= h);
        if !(kind == ShiftKind::Rol || kind == ShiftKind::Ror || kind == ShiftKind::Rcl || kind
            == ShiftKind::Rcr) {
            if wide {
                self.parity_zero_sign_word(v);
            } else {
                self.parity_zero_sign_byte(v as u8);
            }
        }
        v
    }

    /// SHR of a byte by `get_val` bits.
    pub fn shr_ror_rcr_byte(&mut self, set_val: u8, get_val: u8) -> (r: u8)
        ensures
            r as int == shift_n(ShiftKind::Shr, set_val as int, old(self).carry, get_val as nat, false).0,
            *final(self) == old(self).after_shift(ShiftKind::Shr, set_val as int, get_val as nat, false),
    {
        proof { lemma_shift_in_range(ShiftKind::Shr, set_val as int, old(self).carry, get_val as nat, false); }
        self.shift(ShiftKind::Shr, set_val as u16, get_val, false) as u8
    }

    /// SHR of a word by `get_val` bits.
    pub fn shr_ror_rcr_word(&mut self, set_val: u16, get_val: u8) -> (r: u16)
        ensures
            r as int == shift_n(ShiftKind::Shr, set_val as int, old(self).carry, get_val as nat, true).0,
            *final(self) == old(self).after_shift(ShiftKind::Shr, set_val as int, get_val as nat, true),
    {
        self.shift(ShiftKind::Shr, set_val, get_val, true)
    }

    /// SHL of a byte by `get_val` bits.
    pub fn shl_rol_rcl_byte(&mut self, set_val: u8, get_val: u8) -> (r: u8)
        ensures
            r as int == shift_n(ShiftKind::Shl, set_val as int, old(self).carry, get_val as nat, false).0,
            *final(self) == old(self).after_shift(ShiftKind::Shl, set_val as int, get_val as nat, false),
    {
        proof { lemma_shift_in_range(ShiftKind::Shl, set_val as int, old(self).carry, get_val as nat, false); }
        self.shift(ShiftKind::Shl, set_val as u16, get_val, false) as u8
    }

    /// SHL of a word by `get_val` bits.
    pub fn shl_rol_rcl_word(&mut self, set_val: u16, get_val: u8) -> (r: u16)
        ensures
            r as int == shift_n(ShiftKind::Shl, set_val as int, old(self).carry, get_val as nat, true).0,
            *final(self) == old(self).after_shift(ShiftKind::Shl, set_val as int, get_val as nat, true),
    {
        self.shift(ShiftKind::Shl, set_val, get_val, true)
    }
}

/// Shifting keeps a value within its operand width.
pub proof fn lemma_shift_in_range(kind: ShiftKind, v: int, c: bool, n: nat, wide: bool)
    requires
        0 <= v < modulus(wide),
    ensures
        0 <= shift_n(kind, v, c, n, wide).0 < modulus(wide),
    decreases n,
{
    if n > 0 {
        lemma_shift_in_range(kind, v, c, (n - 1) as nat, wide);
        let v1 = shift_n(kind, v, c, (n - 1) as nat, wide).0;
        if v1 >= half(wide) {
            lemma_fundamental_div_mod_converse(v1 * 2, modulus(wide), 1, v1 * 2 - modulus(wide));
        } else {
            lemma_fundamental_div_mod_converse(v1 * 2, modulus(wide), 0, v1 * 2);
        }
    }
}

/// Bit `k` of a sum whose part below `2^k` is `lo` and whose bit `k` is `b`.
proof fn lemma_bit_of_sum(w: int, lo: int, b: int, hi: int, k: int, p: int)
    requires
        p == pow2_16(k),
        w == lo + p * b + 2 * p * hi,
        0 <= k,
        0 <= lo < p,
        b == 0 || b == 1,
        0 <= hi,
    ensures
        bit(w, k) == (b == 1),
{
    assert(p > 0) by {
        lemma_pow2_16_pos(k);
    }
    assert(w == (b + 2 * hi) * p + lo) by (nonlinear_arith)
        requires w == lo + p * b + 2 * p * hi;
    lemma_fundamental_div_mod_converse(w, p, b + 2 * hi, lo);
}

proof fn lemma_pow2_16_pos(k: int)
    ensures
        pow2_16(k) > 0,
    decreases k,
{
    if k > 0 {
        lemma_pow2_16_pos(k - 1);
    }
}

/// Writing the flag word and reading it back restores every flag, and the fixed bits
/// 1 and 12 to 15 of the flag word are set.
pub proof fn lemma_flag_word_round_trip(f: Flags, g: Flags)
    ensures
        g.from_bits_word(f.bits_word()) == f,
        bit(f.bits_word(), 1),
        bit(f.bits_word(), 12),
        bit(f.bits_word(), 13),
        bit(f.bits_word(), 14),
        bit(f.bits_word(), 15),
{
    lemma_flag_bit_0(f);
    lemma_flag_bit_1(f);
    lemma_flag_bit_2(f);
    lemma_flag_bit_4(f);
    lemma_flag_bit_6(f);
    lemma_flag_bit_7(f);
    lemma_flag_bit_8(f);
    lemma_flag_bit_9(f);
    lemma_flag_bit_10(f);
    lemma_flag_bit_11(f);
    lemma_flag_bit_12(f);
    lemma_flag_bit_13(f);
    lemma_flag_bit_14(f);
    lemma_flag_bit_15(f);
}

proof fn lemma_flag_bit_0(f: Flags)
    ensures
        bit(f.bits_word(), 0) == f.carry,
{
    lemma_pow2_16_values();
    let c = b2i(f.carry);
    let p = b2i(f.parity);
    let a = b2i(f.adjust);
    let z = b2i(f.zero);
    let s = b2i(f.sign);
    let t = b2i(f.trap);
    let i = b2i(f.interrupt);
    let d = b2i(f.direction);
    let o = b2i(f.overflow);
    let w = f.bits_word();
    lemma_bit_of_sum(w, 0, c, 1 + 2 * p + 8 * a + 32 * z + 64 * s + 128 * t + 256 * i + 512 * d + 1024 * o + 2048 + 4096 + 8192 + 16384, 0, 1);
}

proof fn lemma_flag_bit_1(f: Flags)
    ensures
        bit(f.bits_word(), 1),
{
    lemma_pow2_16_values();
    let c = b2i(f.carry);
    let p = b2i(f.parity);
    let a = b2i(f.adjust);
    let z = b2i(f.zero);
    let s = b2i(f.sign);
    let t = b2i(f.trap);
    let i = b2i(f.interrupt);
    let d = b2i(f.direction);
    let o = b2i(f.overflow);
    let w = f.bits_word();
    lemma_bit_of_sum(w, c, 1, p + 4 * a + 16 * z + 32 * s + 64 * t + 128 * i + 256 * d + 512 * o + 1024 + 2048 + 4096 + 8192, 1, 2);
}

proof fn lemma_flag_bit_2(f: Flags)
    ensures
        bit(f.bits_word(), 2) == f.parity,
{
    lemma_pow2_16_values();
    let c = b2i(f.carry);
    let p = b2i(f.parity);
    let a = b2i(f.adjust);
    let z = b2i(f.zero);
    let s = b2i(f.sign);
    let t = b2i(f.trap);
    let i = b2i(f.interrupt);
    let d = b2i(f.direction);
    let o = b2i(f.overflow);
    let w = f.bits_word();
    lemma_bit_of_sum(w, c + 2, p, 2 * a + 8 * z + 16 * s + 32 * t + 64 * i + 128 * d + 256 * o + 512 + 1024 + 2048 + 4096, 2, 4);
}

proof fn lemma_flag_bit_4(f: Flags)
    ensures
        bit(f.bits_word(), 4) == f.adjust,
{
    lemma_pow2_16_values();
    let c = b2i(f.carry);
    let p = b2i(f.parity);
    let a = b2i(f.adjust);
    let z = b2i(f.zero);
    let s = b2i(f.sign);
    let t = b2i(f.trap);
    let i = b2i(f.interrupt);
    let d = b2i(f.direction);
    let o = b2i(f.overflow);
    let w = f.bits_word();
    lemma_bit_of_sum(w, c + 2 + 4 * p, a, 2 * z + 4 * s + 8 * t + 16 * i + 32 * d + 64 * o + 128 + 256 + 512 + 1024, 4, 16);
}

proof fn lemma_flag_bit_6(f: Flags)
    ensures
        bit(f.bits_word(), 6) == f.zero,
{
    lemma_pow2_16_values();
    let c = b2i(f.carry);
    let p = b2i(f.parity);
    let a = b2i(f.adjust);
    let z = b2i(f.zero);
    let s = b2i(f.sign);
    let t = b2i(f.trap);
    let i = b2i(f.interrupt);
    let d = b2i(f.direction);
    let o = b2i(f.overflow);
    let w = f.bits_word();
    lemma_bit_of_sum(w, c + 2 + 4 * p + 16 * a, z, s + 2 * t + 4 * i + 8 * d + 16 * o + 32 + 64 + 128 + 256, 6, 64);
}

proof fn lemma_flag_bit_7(f: Flags)
    ensures
        bit(f.bits_word(), 7) == f.sign,
{
    lemma_pow2_16_values();
    let c = b2i(f.carry);
    let p = b2i(f.parity);
    let a = b2i(f.adjust);
    let z = b2i(f.zero);
    let s = b2i(f.sign);
    let t = b2i(f.trap);
    let i = b2i(f.interrupt);
    let d = b2i(f.direction);
    let o = b2i(f.overflow);
    let w = f.bits_word();
    lemma_bit_of_sum(w, c + 2 + 4 * p + 16 * a + 64 * z, s, t + 2 * i + 4 * d + 8 * o + 16 + 32 + 64 + 128, 7, 128);
}

proof fn lemma_flag_bit_8(f: Flags)
    ensures
        bit(f.bits_word(), 8) == f.trap,
{
    lemma_pow2_16_values();
    let c = b2i(f.carry);
    let p = b2i(f.parity);
    let a = b2i(f.adjust);
    let z = b2i(f.zero);
    let s = b2i(f.sign);
    let t = b2i(f.trap);
    let i = b2i(f.interrupt);
    let d = b2i(f.direction);
    let o = b2i(f.overflow);
    let w = f.bits_word();
    lemma_bit_of_sum(w, c + 2 + 4 * p + 16 * a + 64 * z + 128 * s, t, i + 2 * d + 4 * o + 8 + 16 + 32 + 64, 8, 256);
}

proof fn lemma_flag_bit_9(f: Flags)
    ensures
        bit(f.bits_word(), 9) == f.interrupt,
{
    lemma_pow2_16_values();
    let c = b2i(f.carry);
    let p = b2i(f.parity);
    let a = b2i(f.adjust);
    let z = b2i(f.zero);
    let s = b2i(f.sign);
    let t = b2i(f.trap);
    let i = b2i(f.interrupt);
    let d = b2i(f.direction);
    let o = b2i(f.overflow);
    let w = f.bits_word();
    lemma_bit_of_sum(w, c + 2 + 4 * p + 16 * a + 64 * z + 128 * s + 256 * t, i, d + 2 * o + 4 + 8 + 16 + 32, 9, 512);
}

proof fn lemma_flag_bit_10(f: Flags)
    ensures
        bit(f.bits_word(), 10) == f.direction,
{
    lemma_pow2_16_values();
    let c = b2i(f.carry);
    let p = b2i(f.parity);
    let a = b2i(f.adjust);
    let z = b2i(f.zero);
    let s = b2i(f.sign);
    let t = b2i(f.trap);
    let i = b2i(f.interrupt);
    let d = b2i(f.direction);
    let o = b2i(f.overflow);
    let w = f.bits_word();
    lemma_bit_of_sum(w, c + 2 + 4 * p + 16 * a + 64 * z + 128 * s + 256 * t + 512 * i, d, o + 2 + 4 + 8 + 16, 10, 1024);
}

proof fn lemma_flag_bit_11(f: Flags)
    ensures
        bit(f.bits_word(), 11) == f.overflow,
{
    lemma_pow2_16_values();
    let c = b2i(f.carry);
    let p = b2i(f.parity);
    let a = b2i(f.adjust);
    let z = b2i(f.zero);
    let s = b2i(f.sign);
    let t = b2i(f.trap);
    let i = b2i(f.interrupt);
    let d = b2i(f.direction);
    let o = b2i(f.overflow);
    let w = f.bits_word();
    lemma_bit_of_sum(w, c + 2 + 4 * p + 16 * a + 64 * z + 128 * s + 256 * t + 512 * i + 1024 * d, o, 15int, 11, 2048);
}

proof fn lemma_flag_bit_12(f: Flags)
    ensures
        bit(f.bits_word(), 12),
{
    lemma_pow2_16_values();
    let c = b2i(f.carry);
    let p = b2i(f.parity);
    let a = b2i(f.adjust);
    let z = b2i(f.zero);
    let s = b2i(f.sign);
    let t = b2i(f.trap);
    let i = b2i(f.interrupt);
    let d = b2i(f.direction);
    let o = b2i(f.overflow);
    let w = f.bits_word();
    lemma_bit_of_sum(w, c + 2 + 4 * p + 16 * a + 64 * z + 128 * s + 256 * t + 512 * i + 1024 * d + 2048 * o, 1, 7int, 12, 4096);
}

proof fn lemma_flag_bit_13(f: Flags)
    ensures
        bit(f.bits_word(), 13),
{
    lemma_pow2_16_values();
    let c = b2i(f.carry);
    let p = b2i(f.parity);
    let a = b2i(f.adjust);
    let z = b2i(f.zero);
    let s = b2i(f.sign);
    let t = b2i(f.trap);
    let i = b2i(f.interrupt);
    let d = b2i(f.direction);
    let o = b2i(f.overflow);
    let w = f.bits_word();
    lemma_bit_of_sum(w, c + 2 + 4 * p + 16 * a + 64 * z + 128 * s + 256 * t + 512 * i + 1024 * d + 2048 * o + 4096, 1, 3int, 13, 8192);
}

proof fn lemma_flag_bit_14(f: Flags)
    ensures
        bit(f.bits_word(), 14),
{
    lemma_pow2_16_values();
    let c = b2i(f.carry);
    let p = b2i(f.parity);
    let a = b2i(f.adjust);
    let z = b2i(f.zero);
    let s = b2i(f.sign);
    let t = b2i(f.trap);
    let i = b2i(f.interrupt);
    let d = b2i(f.direction);
    let o = b2i(f.overflow);
    let w = f.bits_word();
    lemma_bit_of_sum(w, c + 2 + 4 * p + 16 * a + 64 * z + 128 * s + 256 * t + 512 * i + 1024 * d + 2048 * o + 4096 + 8192, 1, 1int, 14, 16384);
}

proof fn lemma_flag_bit_15(f: Flags)
    ensures
        bit(f.bits_word(), 15),
{
    lemma_pow2_16_values();
    let c = b2i(f.carry);
    let p = b2i(f.parity);
    let a = b2i(f.adjust);
    let z = b2i(f.zero);
    let s = b2i(f.sign);
    let t = b2i(f.trap);
    let i = b2i(f.interrupt);
    let d = b2i(f.direction);
    let o = b2i(f.overflow);
    let w = f.bits_word();
    lemma_bit_of_sum(w, c + 2 + 4 * p + 16 * a + 64 * z + 128 * s + 256 * t + 512 * i + 1024 * d + 2048 * o + 4096 + 8192 + 16384, 1, 0int, 15, 32768);
}

proof fn lemma_pow2_16_values()
    ensures
        pow2_16(0) == 1, pow2_16(1) == 2, pow2_16(2) == 4, pow2_16(3) == 8,
        pow2_16(4) == 16, pow2_16(5) == 32, pow2_16(6) == 64, pow2_16(7) == 128,
        pow2_16(8) == 256, pow2_16(9) == 512, pow2_16(10) == 1024, pow2_16(11) == 2048,
        pow2_16(12) == 4096, pow2_16(13) == 8192, pow2_16(14) == 16384, pow2_16(15) == 32768,
{
    reveal_with_fuel(pow2_16, 16);
}

} // verus!
