use vstd::prelude::*;

verus! {

/// A message for the interrupt controller: a counter of the interval timer reached zero.
#[derive(Clone, Copy, Debug, PartialEq, Eq, Structural)]
pub enum PICMsg {
    PIT { select_counter: u8 },
}

/// A message for the processor: take the interrupt with this vector.
#[derive(Clone, Copy, Debug, PartialEq, Eq, Structural)]
pub enum CPUMsg {
    Interrupt(u8),
}

#[derive(Clone, Copy, Debug, PartialEq, Eq, Structural)]
pub enum VectorType {
    Bytes4,
    Bytes8,
}

#[derive(Clone, Copy, Debug, PartialEq, Eq, Structural)]
pub enum Trigger {
    Level,
    Edge,
}

/// Which register a read of the command port returns.
#[derive(Clone, Copy, Debug, PartialEq, Eq, Structural)]
pub enum RegisterType {
    /// Interrupt Request Register: requested, not yet delivered.
    IRR,
    /// In-Service Register: delivered, not yet ended.
    ISR,
}

/// The state of one interrupt line.
#[derive(Clone, Copy, Debug, PartialEq, Eq, Structural)]
pub struct IRQ {
    pub master: bool,
    pub enabled: bool,
    pub interrupt_requested: bool,
    pub interrupted_cpu: bool,
}

/// The 8259 programmable interrupt controller.
#[derive(Clone, Copy, Debug, PartialEq, Eq, Structural)]
pub struct PIC {
    pub icw4_needed: bool,
    pub single: bool,
    pub vector_type: VectorType,
    pub trigger: Trigger,
    /// Which initialization word the data port takes next: 2, 3 or 4; 5 means the mask.
    pub next_set_index: u8,
    pub next_get: RegisterType,
    pub vector_offset: u8,
    pub irq0: IRQ,
    pub irq1: IRQ,
    pub irq2: IRQ,
    pub irq3: IRQ,
    pub irq4: IRQ,
    pub irq5: IRQ,
    pub irq6: IRQ,
    pub irq7: IRQ,
}

pub open spec fn b2i(b: bool) -> int {
    if b {
        1
    } else {
        0
    }
}

/// Bit `k` (0 to 7) of a byte.
pub open spec fn bit8(v: int, k: int) -> bool {
    (v / pow2_8(k)) % 2 == 1
}

pub open spec fn pow2_8(k: int) -> int {
    if k == 0 {
        1
    } else if k == 1 {
        2
    } else if k == 2 {
        4
    } else if k == 3 {
        8
    } else if k == 4 {
        16
    } else if k == 5 {
        32
    } else if k == 6 {
        64
    } else {
        128
    }
}

/// A line with no request pending and none in service.
pub open spec fn idle_irq() -> IRQ {
    IRQ { master: false, enabled: false, interrupt_requested: false, interrupted_cpu: false }
}

fn bi(b: bool) -> (r: u8)
    ensures
        r as int == b2i(b),
        r <= 1,
{
    if b {
        1
    } else {
        0
    }
}

fn new_irq() -> (r: IRQ)
    ensures
        r == idle_irq(),
{
    IRQ { master: false, enabled: false, interrupt_requested: false, interrupted_cpu: false }
}

/// The controller at power-on: vectors 0x08 to 0x0F, data port writes set the mask.
pub fn start() -> (r: PIC)
    ensures
        r.vector_offset == 8,
        r.next_set_index == 5,
        r.next_get == RegisterType::IRR,
        r.irq0 == idle_irq() && r.irq1 == idle_irq() && r.irq2 == idle_irq() && r.irq3 == idle_irq(),
        r.irq4 == idle_irq() && r.irq5 == idle_irq() && r.irq6 == idle_irq() && r.irq7 == idle_irq(),
{
    PIC {
        next_set_index: 5,
        vector_offset: 0b1000,
        trigger: Trigger::Level,
        single: false,
        icw4_needed: false,
        next_get: RegisterType::IRR,
        vector_type: VectorType::Bytes4,
        irq0: new_irq(),
        irq1: new_irq(),
        irq2: new_irq(),
        irq3: new_irq(),
        irq4: new_irq(),
        irq5: new_irq(),
        irq6: new_irq(),
        irq7: new_irq(),
    }
}

impl PIC {
    /// The eight lines, line 0 first.
    pub open spec fn line(self, k: int) -> IRQ {
        if k == 0 {
            self.irq0
        } else if k == 1 {
            self.irq1
        } else if k == 2 {
            self.irq2
        } else if k == 3 {
            self.irq3
        } else if k == 4 {
            self.irq4
        } else if k == 5 {
            self.irq5
        } else if k == 6 {
            self.irq6
        } else {
            self.irq7
        }
    }

    /// The Interrupt Request Register as a byte.
    pub open spec fn irr(self) -> int {
        b2i(self.irq0.interrupt_requested) + 2 * b2i(self.irq1.interrupt_requested) + 4 * b2i(
            self.irq2.interrupt_requested,
        ) + 8 * b2i(self.irq3.interrupt_requested) + 16 * b2i(self.irq4.interrupt_requested) + 32
            * b2i(self.irq5.interrupt_requested) + 64 * b2i(self.irq6.interrupt_requested) + 128
            * b2i(self.irq7.interrupt_requested)
    }

    /// The In-Service Register as a byte.
    pub open spec fn isr(self) -> int {
        b2i(self.irq0.interrupted_cpu) + 2 * b2i(self.irq1.interrupted_cpu) + 4 * b2i(
            self.irq2.interrupted_cpu,
        ) + 8 * b2i(self.irq3.interrupted_cpu) + 16 * b2i(self.irq4.interrupted_cpu) + 32 * b2i(
            self.irq5.interrupted_cpu,
        ) + 64 * b2i(self.irq6.interrupted_cpu) + 128 * b2i(self.irq7.interrupted_cpu)
    }

    /// The mask register as a byte: a set bit masks its line.
    pub open spec fn imr(self) -> int {
        b2i(!self.irq0.enabled) + 2 * b2i(!self.irq1.enabled) + 4 * b2i(!self.irq2.enabled) + 8
            * b2i(!self.irq3.enabled) + 16 * b2i(!self.irq4.enabled) + 32 * b2i(!self.irq5.enabled)
            + 64 * b2i(!self.irq6.enabled) + 128 * b2i(!self.irq7.enabled)
    }

    /// The state after a mask byte was written: line `k` is enabled when bit `k` is clear.
    pub open spec fn with_mask(self, v: int) -> PIC {
        PIC {
            irq0: IRQ { enabled: !bit8(v, 0), ..self.irq0 },
            irq1: IRQ { enabled: !bit8(v, 1), ..self.irq1 },
            irq2: IRQ { enabled: !bit8(v, 2), ..self.irq2 },
            irq3: IRQ { enabled: !bit8(v, 3), ..self.irq3 },
            irq4: IRQ { enabled: !bit8(v, 4), ..self.irq4 },
            irq5: IRQ { enabled: !bit8(v, 5), ..self.irq5 },
            irq6: IRQ { enabled: !bit8(v, 6), ..self.irq6 },
            irq7: IRQ { enabled: !bit8(v, 7), ..self.irq7 },
            ..self
        }
    }

    /// The state after ICW3 named the lines that lead to slave controllers.
    pub open spec fn with_master(self, v: int) -> PIC {
        PIC {
            irq0: IRQ { master: !bit8(v, 0), ..self.irq0 },
            irq1: IRQ { master: !bit8(v, 1), ..self.irq1 },
            irq2: IRQ { master: !bit8(v, 2), ..self.irq2 },
            irq3: IRQ { master: !bit8(v, 3), ..self.irq3 },
            irq4: IRQ { master: !bit8(v, 4), ..self.irq4 },
            irq5: IRQ { master: !bit8(v, 5), ..self.irq5 },
            irq6: IRQ { master: !bit8(v, 6), ..self.irq6 },
            irq7: IRQ { master: !bit8(v, 7), ..self.irq7 },
            next_set_index: if self.icw4_needed { 4 } else { 5 },
            ..self
        }
    }

    /// The state after an end of interrupt: no line requested or in service.
    pub open spec fn after_eoi(self) -> PIC {
        PIC {
            irq0: IRQ { interrupt_requested: false, interrupted_cpu: false, ..self.irq0 },
            irq1: IRQ { interrupt_requested: false, interrupted_cpu: false, ..self.irq1 },
            irq2: IRQ { interrupt_requested: false, interrupted_cpu: false, ..self.irq2 },
            irq3: IRQ { interrupt_requested: false, interrupted_cpu: false, ..self.irq3 },
            irq4: IRQ { interrupt_requested: false, interrupted_cpu: false, ..self.irq4 },
            irq5: IRQ { interrupt_requested: false, interrupted_cpu: false, ..self.irq5 },
            irq6: IRQ { interrupt_requested: false, interrupted_cpu: false, ..self.irq6 },
            irq7: IRQ { interrupt_requested: false, interrupted_cpu: false, ..self.irq7 },
            ..self
        }
    }

    /// What a timer message does: the state after it and the message for the processor.
    pub open spec fn fire(self, select_counter: u8) -> (PIC, Option<CPUMsg>) {
        if select_counter != 0 {
            (self, None)
        } else if self.irq0.enabled && !self.irq0.interrupted_cpu {
            (
                PIC {
                    irq0: IRQ { interrupted_cpu: true, interrupt_requested: false, ..self.irq0 },
                    ..self
                },
                Some(CPUMsg::Interrupt(self.vector_offset)),
            )
        } else {
            (PIC { irq0: IRQ { interrupt_requested: true, ..self.irq0 }, ..self }, None)
        }
    }

    /// A read of the command port: the register chosen by the last OCW3.
    pub fn in_port_1(&mut self) -> (r: u8)
        ensures
            *final(self) == *old(self),
            r as int == if old(self).next_get == RegisterType::IRR {
                old(self).irr()
            } else {
                old(self).isr()
            },
    {
        match self.next_get {
            RegisterType::IRR => self.get_interrupt_requested(),
            RegisterType::ISR => self.get_interrupted_cpu(),
        }
    }

    /// A write to the command port: ICW1, end of interrupt, or OCW3.
    pub fn out_port_1(&mut self, register: u8)
        ensures
            (register / 16) % 2 == 1 ==> final(self).next_set_index == 2 && final(self).icw4_needed
                == (register % 2 == 1) && final(self).single == ((register / 2) % 2 == 1)
                && final(self).vector_offset == old(self).vector_offset,
            (register / 16) % 2 == 0 && (register / 8) % 2 == 0 ==> *final(self) == old(
                self,
            ).after_eoi(),
            (register / 16) % 2 == 0 && (register / 8) % 2 == 1 ==> *final(self) == if (register
                / 2) % 2 == 0 {
                *old(self)
            } else {
                PIC {
                    next_get: if register % 2 == 0 {
                        RegisterType::IRR
                    } else {
                        RegisterType::ISR
                    },
                    ..*old(self)
                }
            },
    {
        if (register / 16) % 2 == 1 {
            self.initialization_1(register);
        } else if (register / 8) % 2 == 0 {
            self.operation_control_2(register);
        } else {
            self.operation_control_3(register);
        }
    }

    /// A write to the data port: the next initialization word, or else the mask.
    pub fn out_port_2(&mut self, register: u8)
        ensures
            old(self).next_set_index == 2 ==> *final(self) == (PIC {
                vector_offset: register,
                next_set_index: 3,
                ..*old(self)
            }),
            old(self).next_set_index == 3 ==> *final(self) == old(self).with_master(register as int),
            old(self).next_set_index == 4 ==> *final(self) == (PIC {
                next_set_index: 5,
                ..*old(self)
            }),
            old(self).next_set_index != 2 && old(self).next_set_index != 3 && old(
                self,
            ).next_set_index != 4 ==> *final(self) == old(self).with_mask(register as int),
    {
        if self.next_set_index == 2 {
            self.initialization_2(register);
        } else if self.next_set_index == 3 {
            self.initialization_3(register);
        } else if self.next_set_index == 4 {
            self.initialization_4(register);
        } else {
            self.operation_control_1(register);
        }
    }

    fn initialization_1(&mut self, register: u8)
        ensures
            final(self).next_set_index == 2,
            final(self).icw4_needed == (register % 2 == 1),
            final(self).single == ((register / 2) % 2 == 1),
            final(self).vector_offset == old(self).vector_offset,
    {
        self.icw4_needed = register % 2 == 1;
        self.single = (register / 2) % 2 == 1;
        self.vector_type = if (register / 4) % 2 == 1 {
            VectorType::Bytes4
        } else {
            VectorType::Bytes8
        };
        self.trigger = if (register / 8) % 2 == 1 {
            Trigger::Level
        } else {
            Trigger::Edge
        };
        self.next_set_index = 2;
    }

    fn initialization_2(&mut self, register: u8)
        ensures
            *final(self) == (PIC { vector_offset: register, next_set_index: 3, ..*old(self) }),
    {
        self.vector_offset = register;
        self.next_set_index = 3;
    }

    fn initialization_3(&mut self, register: u8)
        ensures
            *final(self) == old(self).with_master(register as int),
    {
        let next: u8 = if self.icw4_needed {
            4
        } else {
            5
        };
        *self = PIC {
            irq0: IRQ { master: register % 2 == 0, ..self.irq0 },
            irq1: IRQ { master: (register / 2) % 2 == 0, ..self.irq1 },
            irq2: IRQ { master: (register / 4) % 2 == 0, ..self.irq2 },
            irq3: IRQ { master: (register / 8) % 2 == 0, ..self.irq3 },
            irq4: IRQ { master: (register / 16) % 2 == 0, ..self.irq4 },
            irq5: IRQ { master: (register / 32) % 2 == 0, ..self.irq5 },
            irq6: IRQ { master: (register / 64) % 2 == 0, ..self.irq6 },
            irq7: IRQ { master: (register / 128) % 2 == 0, ..self.irq7 },
            next_set_index: next,
            ..*self
        };
    }

    fn initialization_4(&mut self, _register: u8)
        ensures
            *final(self) == (PIC { next_set_index: 5, ..*old(self) }),
    {
        self.next_set_index = 5;
    }

    /// Sets the mask: line `k` is enabled when bit `k` is clear.
    fn operation_control_1(&mut self, register: u8)
        ensures
            *final(self) == old(self).with_mask(register as int),
    {
        *self = PIC {
            irq0: IRQ { enabled: register % 2 == 0, ..self.irq0 },
            irq1: IRQ { enabled: (register / 2) % 2 == 0, ..self.irq1 },
            irq2: IRQ { enabled: (register / 4) % 2 == 0, ..self.irq2 },
            irq3: IRQ { enabled: (register / 8) % 2 == 0, ..self.irq3 },
            irq4: IRQ { enabled: (register / 16) % 2 == 0, ..self.irq4 },
            irq5: IRQ { enabled: (register / 32) % 2 == 0, ..self.irq5 },
            irq6: IRQ { enabled: (register / 64) % 2 == 0, ..self.irq6 },
            irq7: IRQ { enabled: (register / 128) % 2 == 0, ..self.irq7 },
            ..*self
        };
    }

    /// A read of the data port: the mask register.
    pub fn get_irqs_enabled(&self) -> (r: u8)
        ensures
            r as int == self.imr(),
    {
        bi(!self.irq0.enabled) + 2 * bi(!self.irq1.enabled) + 4 * bi(!self.irq2.enabled) + 8 * bi(!self.irq3.enabled) + 16 * bi(!self.irq4.enabled) + 32 * bi(!self.irq5.enabled) + 64 * bi(!self.irq6.enabled) + 128 * bi(!self.irq7.enabled)
    }

    fn get_interrupt_requested(&self) -> (r: u8)
        ensures
            r as int == self.irr(),
    {
        bi(self.irq0.interrupt_requested) + 2 * bi(self.irq1.interrupt_requested) + 4 * bi(self.irq2.interrupt_requested) + 8 * bi(self.irq3.interrupt_requested) + 16 * bi(self.irq4.interrupt_requested) + 32 * bi(self.irq5.interrupt_requested) + 64 * bi(self.irq6.interrupt_requested) + 128 * bi(self.irq7.interrupt_requested)
    }

    fn get_interrupted_cpu(&self) -> (r: u8)
        ensures
            r as int == self.isr(),
    {
        bi(self.irq0.interrupted_cpu) + 2 * bi(self.irq1.interrupted_cpu) + 4 * bi(self.irq2.interrupted_cpu) + 8 * bi(self.irq3.interrupted_cpu) + 16 * bi(self.irq4.interrupted_cpu) + 32 * bi(self.irq5.interrupted_cpu) + 64 * bi(self.irq6.interrupted_cpu) + 128 * bi(self.irq7.interrupted_cpu)
    }

    /// End of interrupt: clears the requested and in-service state of every line.
    fn operation_control_2(&mut self, _register: u8)
        ensures
            *final(self) == old(self).after_eoi(),
    {
        *self = PIC {
            irq0: IRQ { interrupt_requested: false, interrupted_cpu: false, ..self.irq0 },
            irq1: IRQ { interrupt_requested: false, interrupted_cpu: false, ..self.irq1 },
            irq2: IRQ { interrupt_requested: false, interrupted_cpu: false, ..self.irq2 },
            irq3: IRQ { interrupt_requested: false, interrupted_cpu: false, ..self.irq3 },
            irq4: IRQ { interrupt_requested: false, interrupted_cpu: false, ..self.irq4 },
            irq5: IRQ { interrupt_requested: false, interrupted_cpu: false, ..self.irq5 },
            irq6: IRQ { interrupt_requested: false, interrupted_cpu: false, ..self.irq6 },
            irq7: IRQ { interrupt_requested: false, interrupted_cpu: false, ..self.irq7 },
            ..*self
        };
    }

    /// OCW3: when bit 1 is set, bit 0 picks the register that command-port reads return.
    fn operation_control_3(&mut self, register: u8)
        ensures
            *final(self) == if (register / 2) % 2 == 0 {
                *old(self)
            } else {
                PIC {
                    next_get: if register % 2 == 0 {
                        RegisterType::IRR
                    } else {
                        RegisterType::ISR
                    },
                    ..*old(self)
                }
            },
    {
        if (register / 2) % 2 == 0 {
            return ;
        }
        self.next_get = if register % 2 == 0 {
            RegisterType::IRR
        } else {
            RegisterType::ISR
        };
    }

    /// Takes a message from the timer; returns the interrupt to hand to the processor, if any.
    pub fn process_msg(&mut self, msg: PICMsg) -> (r: Option<CPUMsg>)
        ensures
            (*final(self), r) == old(self).fire(
                match msg {
                    PICMsg::PIT { select_counter } => select_counter,
                },
            ),
    {
        match msg {
            PICMsg::PIT { select_counter } => {
                if select_counter == 0 {
                    if self.irq0.enabled && !self.irq0.interrupted_cpu {
                        self.irq0.interrupted_cpu = true;
                        self.irq0.interrupt_requested = false;
                        Some(CPUMsg::Interrupt(self.vector_offset))
                    } else {
                        self.irq0.interrupt_requested = true;
                        None
                    }
                } else {
                    None
                }
            },
        }
    }
}

/// While line 0 is masked a timer message only marks it requested and delivers nothing; a later
/// write that unmasks it delivers nothing either, and leaves the request pending.
pub proof fn lemma_masked_line_holds(p: PIC, v: u8)
    requires
        !p.irq0.enabled,
        p.next_set_index == 5,
        v % 2 == 0,
    ensures
        p.fire(0).1 is None,
        p.fire(0).0.irq0.interrupt_requested,
        p.fire(0).0.with_mask(v as int).irq0.enabled,
        p.fire(0).0.with_mask(v as int).irq0.interrupt_requested,
        p.fire(0).0.with_mask(v as int).irq0.interrupted_cpu == p.irq0.interrupted_cpu,
{
}

} // verus!
