use vstd::prelude::*;
use crate::memory1mb;
use crate::memory1mb::{phys, read_word, write_word, MEMORY_SIZE};

verus! {

/// The four segment registers.
#[derive(Clone, Copy, Debug, PartialEq, Eq, Structural)]
pub enum Segment {
    ES,
    CS,
    SS,
    DS,
}

/// The physical address of `segment:offset`, reduced to 20 bits.
pub open spec fn linear(segment: int, offset: int) -> int {
    phys(segment * 16 + offset)
}

/// The 20-bit physical address of `segment:offset`.
pub fn calculate_addr(segment: u16, offset: u16) -> (r: usize)
    ensures
        r as int == linear(segment as int, offset as int),
        r < MEMORY_SIZE,
{
    ((segment as usize) * 16 + offset as usize) % MEMORY_SIZE
}

/// The processor's view of memory: segment registers, instruction pointer, the segment used by
/// the next memory operand, and the physical memory behind them. Instruction bytes are taken
/// from memory at CS:IP one at a time, which is what a prefetch buffer refilled at every IP
/// gives; no separate copy of them is kept.
pub struct Memory {
    pub es: u16,
    pub cs: u16,
    pub ss: u16,
    pub ds: u16,
    pub ip: u16,
    /// Segment for the next memory operand: DS, or the one a prefix chose.
    pub current_segment: Segment,
    /// Whether a segment-override prefix chose `current_segment`.
    pub overridden: bool,
    pub ram: memory1mb::Memory,
}

impl Memory {
    pub open spec fn wf(&self) -> bool {
        self.ram.wf()
    }

    /// The value of a segment register.
    pub open spec fn seg(&self, s: Segment) -> u16 {
        match s {
            Segment::ES => self.es,
            Segment::CS => self.cs,
            Segment::SS => self.ss,
            Segment::DS => self.ds,
        }
    }

    /// This state with one segment register replaced.
    pub open spec fn with_seg(self, s: Segment, v: u16) -> Memory {
        match s {
            Segment::ES => Memory { es: v, ..self },
            Segment::CS => Memory { cs: v, ..self },
            Segment::SS => Memory { ss: v, ..self },
            Segment::DS => Memory { ds: v, ..self },
        }
    }

    /// The physical address of `offset` in the current segment.
    pub open spec fn addr_of(&self, offset: int) -> int {
        linear(self.seg(self.current_segment) as int, offset)
    }

    /// The code byte `k` places after CS:IP, with IP wrapping inside the segment.
    pub open spec fn code_byte(&self, k: int) -> int {
        self.ram@[linear(self.cs as int, (self.ip + k) % 0x10000)] as int
    }

    /// The memory state at reset: CS:IP = F000:FFF0, the other segments zero.
    pub fn new(ram: memory1mb::Memory) -> (r: Memory)
        ensures
            r.cs == 0xF000 && r.ip == 0xFFF0 && r.ds == 0 && r.ss == 0 && r.es == 0,
            r.current_segment == Segment::DS && !r.overridden,
            r.ram == ram,
    {
        Memory {
            cs: 0xF000,
            ds: 0,
            ss: 0,
            es: 0,
            ip: 0xFFF0,
            current_segment: Segment::DS,
            overridden: false,
            ram,
        }
    }

    pub fn set_byte_msg(&mut self, addr: usize, value: u8)
        requires
            old(self).wf(),
        ensures
            final(self).wf(),
            final(self).ram@ == old(self).ram@.update(phys(addr as int), value),
            *final(self) == (Memory { ram: final(self).ram, ..*old(self) }),
    {
        self.ram.set_byte(addr, value);
    }

    pub fn set_word_msg(&mut self, addr: usize, value: u16)
        requires
            old(self).wf(),
        ensures
            final(self).wf(),
            final(self).ram@ == write_word(old(self).ram@, addr as int, value),
            *final(self) == (Memory { ram: final(self).ram, ..*old(self) }),
    {
        self.ram.set_word(addr, value);
    }

    pub fn get_byte_msg(&self, addr: usize) -> (r: u8)
        requires
            self.wf(),
        ensures
            r == self.ram@[phys(addr as int)],
    {
        self.ram.get_byte(addr)
    }

    pub fn get_word_msg(&self, addr: usize) -> (r: u16)
        requires
            self.wf(),
        ensures
            r as int == read_word(self.ram@, addr as int),
    {
        self.ram.get_word(addr)
    }

    /// Takes the next instruction byte at CS:IP and advances IP.
    pub fn next_byte(&mut self) -> (r: u8)
        requires
            old(self).wf(),
        ensures
            final(self).wf(),
            r as int == old(self).code_byte(0),
            *final(self) == (Memory { ip: ((old(self).ip + 1) % 0x10000) as u16, ..*old(self) }),
    {
        let addr = calculate_addr(self.cs, self.ip);
        let b = self.ram.get_byte(addr);
        proof {
            assert(phys(addr as int) == addr as int);
        }
        self.ip = self.ip.wrapping_add(1);
        b
    }

    /// Takes the next instruction word at CS:IP, low byte first, and advances IP by two.
    pub fn next_word(&mut self) -> (r: u16)
        requires
            old(self).wf(),
        ensures
            final(self).wf(),
            r as int == old(self).code_byte(0) + 256 * old(self).code_byte(1),
            *final(self) == (Memory { ip: ((old(self).ip + 2) % 0x10000) as u16, ..*old(self) }),
    {
        let lo = self.next_byte();
        let hi = self.next_byte();
        lo as u16 + 256 * hi as u16
    }

    pub fn set_byte(&mut self, offset: u16, byte: u8)
        requires
            old(self).wf(),
        ensures
            final(self).wf(),
            final(self).ram@ == old(self).ram@.update(old(self).addr_of(offset as int), byte),
            *final(self) == (Memory { ram: final(self).ram, ..*old(self) }),
    {
        let addr = calculate_addr(self.get_seg(&self.current_segment), offset);
        self.set_byte_msg(addr, byte);
    }

    pub fn get_byte(&self, offset: u16) -> (r: u8)
        requires
            self.wf(),
        ensures
            r == self.ram@[self.addr_of(offset as int)],
    {
        let addr = calculate_addr(self.get_seg(&self.current_segment), offset);
        self.get_byte_msg(addr)
    }

    pub fn set_word(&mut self, offset: u16, word: u16)
        requires
            old(self).wf(),
        ensures
            final(self).wf(),
            final(self).ram@ == write_word(old(self).ram@, old(self).addr_of(offset as int), word),
            *final(self) == (Memory { ram: final(self).ram, ..*old(self) }),
    {
        let addr = calculate_addr(self.get_seg(&self.current_segment), offset);
        self.set_word_msg(addr, word);
    }

    pub fn get_word(&self, offset: u16) -> (r: u16)
        requires
            self.wf(),
        ensures
            r as int == read_word(self.ram@, self.addr_of(offset as int)),
    {
        let addr = calculate_addr(self.get_seg(&self.current_segment), offset);
        self.get_word_msg(addr)
    }

    pub fn get_current_address(&self) -> (r: usize)
        ensures
            r as int == linear(self.cs as int, self.ip as int),
            r < MEMORY_SIZE,
    {
        calculate_addr(self.cs, self.ip)
    }

    pub fn set_seg(&mut self, seg: &Segment, value: u16)
        ensures
            *final(self) == old(self).with_seg(*seg, value),
    {
        match seg {
            Segment::ES => self.es = value,
            Segment::CS => self.cs = value,
            Segment::SS => self.ss = value,
            Segment::DS => self.ds = value,
        }
    }

    pub fn get_seg(&self, seg: &Segment) -> (r: u16)
        ensures
            r == self.seg(*seg),
    {
        match seg {
            Segment::ES => self.es,
            Segment::CS => self.cs,
            Segment::SS => self.ss,
            Segment::DS => self.ds,
        }
    }
}

/// Instruction pointer and segment registers are 16-bit values, and every physical address
/// formed from a segment and an offset lies below 2^20.
pub proof fn lemma_addresses_in_range(m: Memory, s: Segment, offset: u16)
    ensures
        0 <= m.ip <= 0xFFFF,
        0 <= m.cs <= 0xFFFF && 0 <= m.ds <= 0xFFFF && 0 <= m.ss <= 0xFFFF && 0 <= m.es <= 0xFFFF,
        0 <= linear(m.seg(s) as int, offset as int) < MEMORY_SIZE,
{
}

} // verus!
