use vstd::prelude::*;
use crate::flag::Flags;
use crate::ibm_xt::Bus;
use crate::memory;
use crate::memory::{linear, Memory, Segment};
use crate::memory1mb;
use crate::memory1mb::{read_word, write_word};
use crate::operand;
use crate::pic::CPUMsg;
use crate::register::Registers;

verus! {

/// The processor: registers, flags, its view of memory, the I/O bus, and the one-slot mailbox
/// for a hardware interrupt.
pub struct CPU {
    pub memory: Memory,
    pub regs: Registers,
    pub flags: Flags,
    /// Physical address of the instruction being executed.
    pub current_address: usize,
    pub bus: Bus,
    /// A hardware interrupt vector waiting to be taken; a newer one replaces an older one.
    pub interrupt: Option<u8>,
    /// Set by HLT; cleared when an interrupt is taken.
    pub halted: bool,
}

/// Why the processor stopped.
#[derive(Clone, Copy, Debug, PartialEq, Eq, Structural)]
pub enum CpuError {
    /// An opcode the 8086 does not define, at physical address `address`.
    UndefinedOpcode { address: usize, op0: u8 },
    /// A ModR/M `reg` field that the opcode's group does not define.
    UndefinedModRm { address: usize, op0: u8, op1: u8 },
}

/// A processor at reset over the given memory and bus: CS:IP = F000:FFF0, other segments,
/// general registers and flags zero.
pub fn start(ram: memory1mb::Memory, bus: Bus) -> (r: CPU)
    requires
        ram.wf(),
    ensures
        r.wf(),
        r.memory.cs == 0xF000 && r.memory.ip == 0xFFF0,
        r.memory.ds == 0 && r.memory.ss == 0 && r.memory.es == 0,
        r.memory.ram@ == ram@,
        r.regs == Registers::zeroed(),
        r.flags == Flags::cleared(),
        r.interrupt is None && !r.halted,
        r.bus == bus,
{
    let memory = Memory::new(ram);
    let current_address = memory.get_current_address();
    CPU {
        memory,
        current_address,
        regs: Registers::default(),
        flags: Flags::default(),
        bus,
        interrupt: None,
        halted: false,
    }
}

/// Whether two memory states agree on everything but the physical memory contents.
pub open spec fn same_pointers(a: Memory, b: Memory) -> bool {
    a.es == b.es && a.cs == b.cs && a.ss == b.ss && a.ds == b.ds && a.ip == b.ip
        && a.current_segment == b.current_segment && a.overridden == b.overridden
}

impl CPU {
    pub open spec fn wf(&self) -> bool {
        self.memory.wf()
    }

    /// Physical memory contents.
    pub open spec fn ram(&self) -> Seq<u8> {
        self.memory.ram@
    }

    /// The physical address of `seg:off`.
    pub open spec fn mem_addr(&self, seg: Segment, off: u16) -> int {
        linear(self.memory.seg(seg) as int, off as int)
    }

    /// The value a byte operand reads.
    pub open spec fn byte_val(&self, op: &operand::Byte) -> int {
        match op {
            operand::Byte::Mem { addr, seg, .. } => self.ram()[self.mem_addr(*seg, *addr)] as int,
            operand::Byte::Reg(r) => self.regs.byte(*r),
            operand::Byte::Imm(v) => *v as int,
        }
    }

    /// The value a word operand reads.
    pub open spec fn word_val(&self, op: &operand::Word) -> int {
        match op {
            operand::Word::Mem { addr, seg, .. } => read_word(self.ram(), self.mem_addr(*seg, *addr)),
            operand::Word::Reg(r) => self.regs.word(*r) as int,
            operand::Word::Seg(s) => self.memory.seg(*s) as int,
            operand::Word::Imm(v) => *v as int,
        }
    }

    /// Whether `new` is this processor with only physical memory changed, to `ram`.
    pub open spec fn only_ram(self, new: CPU, ram: Seq<u8>) -> bool {
        new.wf() && new.ram() == ram && same_pointers(new.memory, self.memory) && new.regs
            == self.regs && new.flags == self.flags && new.bus == self.bus && new.interrupt
            == self.interrupt && new.halted == self.halted && new.current_address
            == self.current_address
    }

    /// Whether `new` is this processor with `v` written to byte operand `op`.
    pub open spec fn byte_written(self, new: CPU, op: &operand::Byte, v: u8) -> bool {
        match op {
            operand::Byte::Mem { addr, seg, .. } => self.only_ram(
                new,
                self.ram().update(self.mem_addr(*seg, *addr), v),
            ),
            operand::Byte::Reg(r) => new == CPU { regs: self.regs.with_byte(*r, v), ..self },
            operand::Byte::Imm(_) => false,
        }
    }

    /// Whether `new` is this processor with `v` written to word operand `op`.
    pub open spec fn word_written(self, new: CPU, op: &operand::Word, v: u16) -> bool {
        match op {
            operand::Word::Mem { addr, seg, .. } => self.only_ram(
                new,
                write_word(self.ram(), self.mem_addr(*seg, *addr), v),
            ),
            operand::Word::Reg(r) => new == CPU { regs: self.regs.with_word(*r, v), ..self },
            operand::Word::Seg(s) => new == CPU { memory: self.memory.with_seg(*s, v), ..self },
            operand::Word::Imm(_) => false,
        }
    }

    /// The eight bytes at CS:IP, little-endian: a view of the upcoming instruction stream for
    /// tracing.
    pub fn get_full_instruction(&self) -> (r: u64)
        requires
            self.wf(),
        ensures
            r as int == memory1mb::read_le(self.ram(), linear(self.memory.cs as int, self.memory.ip as int), 8),
    {
        let addr = memory::calculate_addr(self.memory.cs, self.memory.ip);
        self.memory.ram.get_bytes8(addr)
    }

    /// Reads the byte at `seg:off`.
    pub fn mem_byte(&self, seg: Segment, off: u16) -> (r: u8)
        requires
            self.wf(),
        ensures
            r == self.ram()[self.mem_addr(seg, off)],
    {
        let addr = memory::calculate_addr(self.memory.get_seg(&seg), off);
        self.memory.get_byte_msg(addr)
    }

    /// Reads the word at `seg:off`.
    pub fn mem_word(&self, seg: Segment, off: u16) -> (r: u16)
        requires
            self.wf(),
        ensures
            r as int == read_word(self.ram(), self.mem_addr(seg, off)),
    {
        let addr = memory::calculate_addr(self.memory.get_seg(&seg), off);
        self.memory.get_word_msg(addr)
    }

    /// Writes the byte at `seg:off`.
    pub fn set_mem_byte(&mut self, seg: Segment, off: u16, v: u8)
        requires
            old(self).wf(),
        ensures
            old(self).only_ram(*final(self), old(self).ram().update(old(self).mem_addr(seg, off), v)),
    {
        let addr = memory::calculate_addr(self.memory.get_seg(&seg), off);
        self.memory.set_byte_msg(addr, v);
    }

    /// Writes the word at `seg:off`.
    pub fn set_mem_word(&mut self, seg: Segment, off: u16, v: u16)
        requires
            old(self).wf(),
        ensures
            old(self).only_ram(*final(self), write_word(old(self).ram(), old(self).mem_addr(seg, off), v)),
    {
        let addr = memory::calculate_addr(self.memory.get_seg(&seg), off);
        self.memory.set_word_msg(addr, v);
    }

    pub fn read_byte(&self, op: &operand::Byte) -> (r: u8)
        requires
            self.wf(),
        ensures
            r as int == self.byte_val(op),
    {
        match op {
            operand::Byte::Mem { addr, seg, .. } => self.mem_byte(*seg, *addr),
            operand::Byte::Reg(reg) => self.regs.get_byte(reg),
            operand::Byte::Imm(imm) => *imm,
        }
    }

    pub fn read_word(&self, op: &operand::Word) -> (r: u16)
        requires
            self.wf(),
        ensures
            r as int == self.word_val(op),
    {
        match op {
            operand::Word::Mem { addr, seg, .. } => self.mem_word(*seg, *addr),
            operand::Word::Reg(reg) => self.regs.get_word(reg),
            operand::Word::Seg(seg) => self.memory.get_seg(seg),
            operand::Word::Imm(imm) => *imm,
        }
    }

    /// Writes a byte operand; an immediate is never a destination.
    pub fn write_byte(&mut self, op: &operand::Byte, value: u8)
        requires
            old(self).wf(),
            !(op is Imm),
        ensures
            final(self).wf(),
            old(self).byte_written(*final(self), op, value),
    {
        match op {
            operand::Byte::Mem { addr, seg, .. } => self.set_mem_byte(*seg, *addr, value),
            operand::Byte::Reg(reg) => self.regs.set_byte(reg, value),
            operand::Byte::Imm(_) => {},
        }
    }

    /// Writes a word operand; an immediate is never a destination.
    pub fn write_word(&mut self, op: &operand::Word, value: u16)
        requires
            old(self).wf(),
            !(op is Imm),
        ensures
            final(self).wf(),
            old(self).word_written(*final(self), op, value),
    {
        match op {
            operand::Word::Mem { addr, seg, .. } => self.set_mem_word(*seg, *addr, value),
            operand::Word::Reg(reg) => self.regs.set_word(reg, value),
            operand::Word::Seg(seg) => self.memory.set_seg(seg, value),
            operand::Word::Imm(_) => {},
        }
    }
}

impl CPU {
    /// A message from the interrupt controller: the vector waits in the one-slot mailbox,
    /// replacing any vector that had not been taken yet.
    pub fn process_msg(&mut self, msg: CPUMsg)
        ensures
            *final(self) == (CPU {
                interrupt: Some(
                    match msg {
                        CPUMsg::Interrupt(v) => v,
                    },
                ),
                ..*old(self)
            }),
    {
        match msg {
            CPUMsg::Interrupt(index) => {
                self.interrupt = Some(index);
            },
        }
    }

    /// One tick of the timer's clock; an interrupt the controller raises lands in the mailbox.
    pub fn timer_tick(&mut self)
        ensures
            final(self).memory == old(self).memory,
            final(self).regs == old(self).regs,
            final(self).flags == old(self).flags,
            final(self).halted == old(self).halted,
            ({
                let (c0, f0) = old(self).bus.pit.0.tick_spec();
                let (p, m) = old(self).bus.pic.fire(0);
                &&& final(self).bus.pit.0 == c0
                &&& f0 ==> final(self).bus.pic == p && final(self).interrupt == match m {
                    Some(CPUMsg::Interrupt(v)) => Some(v),
                    None => old(self).interrupt,
                }
                &&& !f0 ==> final(self).bus.pic == old(self).bus.pic && final(self).interrupt == old(self).interrupt
            }),
    {
        if let Some(msg) = self.bus.tick_timer() {
            self.process_msg(msg);
        }
    }
}

} // verus!
