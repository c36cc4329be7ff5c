use vstd::prelude::*;

verus! {

/// Operating mode of a counter.
#[derive(Clone, Copy, Debug, PartialEq, Eq, Structural)]
pub enum Mode {
    Interrupt,
    OneShot,
    RateGenerator,
    SquareWave,
    SoftwareStrobe,
    HardwareStrobe,
}

/// How count bytes are written and read.
#[derive(Clone, Copy, Debug, PartialEq, Eq, Structural)]
pub enum Access {
    LSB,
    MSB,
    LSBThenMSB,
}

/// One counter of the 8253 interval timer: the port-side registers and the counting element.
#[derive(Clone, Copy, Debug, PartialEq, Eq, Structural)]
pub struct Controller {
    pub access: Access,
    /// The low byte of a count whose high byte has not come yet.
    pub low_count: Option<u16>,
    /// Whether the next read in LSB-then-MSB access returns the high byte.
    pub read_high: bool,
    pub select_counter: u8,
    pub mode: Mode,
    pub latched: bool,
    pub counting_element: u16,
    pub initial_count_register: u16,
    pub output_latch: u16,
    pub enabled: bool,
    /// A count written but not yet moved into the counting element (that takes one tick).
    pub pending_count: Option<u16>,
}

/// The three counters of the timer.
#[derive(Clone, Copy, Debug, PartialEq, Eq, Structural)]
pub struct PIT(pub Controller, pub Controller, pub Controller);

/// The operating mode that bits 3..1 of a control word select.
pub open spec fn mode_of(v: int) -> Mode {
    let m = (v / 2) % 8;
    if m == 0 {
        Mode::Interrupt
    } else if m == 1 {
        Mode::OneShot
    } else if m == 2 || m == 6 {
        Mode::RateGenerator
    } else if m == 3 || m == 7 {
        Mode::SquareWave
    } else if m == 4 {
        Mode::SoftwareStrobe
    } else {
        Mode::HardwareStrobe
    }
}

/// The count that a written value stands for: zero means 2^16.
pub open spec fn period(n: u16) -> int {
    if n == 0 {
        0x10000
    } else {
        n as int
    }
}

pub open spec fn new_controller_spec(select_counter: u8) -> Controller {
    Controller {
        access: Access::MSB,
        low_count: None,
        read_high: false,
        select_counter,
        mode: Mode::SquareWave,
        latched: false,
        counting_element: 0,
        initial_count_register: 0,
        output_latch: 0,
        enabled: false,
        pending_count: None,
    }
}

fn new_controller(select_counter: u8) -> (r: Controller)
    ensures
        r == new_controller_spec(select_counter),
{
    Controller {
        access: Access::MSB,
        low_count: None,
        read_high: false,
        select_counter,
        mode: Mode::SquareWave,
        latched: false,
        counting_element: 0,
        initial_count_register: 0,
        output_latch: 0,
        enabled: false,
        pending_count: None,
    }
}

/// The timer at power-on: three idle counters.
pub fn start() -> (r: PIT)
    ensures
        r == PIT(new_controller_spec(0), new_controller_spec(1), new_controller_spec(2)),
{
    PIT(new_controller(0), new_controller(1), new_controller(2))
}

impl Controller {
    /// One tick of the counter's clock: the counter after it, and whether it signalled the
    /// interrupt controller.
    pub open spec fn tick_spec(self) -> (Controller, bool) {
        let (c, fired) = if let Some(n) = self.pending_count {
            (
                Controller {
                    initial_count_register: n,
                    counting_element: n,
                    enabled: true,
                    pending_count: None,
                    ..self
                },
                false,
            )
        } else if !self.enabled {
            (self, false)
        } else {
            let ce = ((self.counting_element + 0xFFFF) % 0x10000) as u16;
            if ce != 0 {
                (Controller { counting_element: ce, ..self }, false)
            } else if self.mode == Mode::Interrupt {
                (Controller { counting_element: 0, enabled: false, ..self }, true)
            } else {
                (Controller { counting_element: self.initial_count_register, ..self }, false)
            }
        };
        if c.latched {
            (c, fired)
        } else {
            (Controller { output_latch: c.counting_element, ..c }, fired)
        }
    }

    /// The counter after `k` ticks and how many signals it gave on the way.
    pub open spec fn run(self, k: nat) -> (Controller, nat)
        decreases k,
    {
        if k == 0 {
            (self, 0)
        } else {
            let (c, n) = self.run((k - 1) as nat);
            let (c2, f) = c.tick_spec();
            (c2, n + if f {
                1nat
            } else {
                0nat
            })
        }
    }

    /// A read of the count port: the counter after it and the byte read.
    pub open spec fn read_spec(self) -> (Controller, int) {
        match self.access {
            Access::LSB => (Controller { latched: false, ..self }, self.output_latch as int % 256),
            Access::MSB => (Controller { latched: false, ..self }, self.output_latch as int / 256),
            Access::LSBThenMSB => if !self.read_high {
                (Controller { read_high: true, ..self }, self.output_latch as int % 256)
            } else {
                (Controller { read_high: false, latched: false, ..self }, self.output_latch as int / 256)
            },
        }
    }

    /// A byte written to the count port: the counter after it.
    pub open spec fn write_spec(self, value: u8) -> Controller {
        match self.access {
            Access::LSB => Controller { pending_count: Some(value as u16), ..self },
            Access::MSB => Controller { pending_count: Some((value as u16 * 256) as u16), ..self },
            Access::LSBThenMSB => match self.low_count {
                None => Controller { low_count: Some(value as u16), ..self },
                Some(low) => Controller {
                    low_count: None,
                    pending_count: Some(((low % 256) + 256 * value as u16) as u16),
                    ..self
                },
            },
        }
    }

    /// A control word for this counter: the counter after it.
    pub open spec fn control_spec(self, value: u8) -> Controller {
        if (value / 16) % 4 == 0 {
            Controller {
                latched: self.enabled || self.latched,
                output_latch: if self.enabled && !self.latched {
                    self.counting_element
                } else {
                    self.output_latch
                },
                ..self
            }
        } else {
            Controller {
                mode: mode_of(value as int),
                access: if (value / 16) % 4 == 1 {
                    Access::LSB
                } else if (value / 16) % 4 == 2 {
                    Access::MSB
                } else {
                    Access::LSBThenMSB
                },
                low_count: None,
                read_high: false,
                ..self
            }
        }
    }

    /// Advances the counter by one tick; returns whether it reached zero in interrupt mode.
    pub fn tick(&mut self) -> (r: bool)
        ensures
            (*final(self), r) == old(self).tick_spec(),
    {
        let mut fired = false;
        if let Some(n) = self.pending_count {
            self.initial_count_register = n;
            self.counting_element = n;
            self.enabled = true;
            self.pending_count = None;
        } else if self.enabled {
            self.counting_element = self.counting_element.wrapping_sub(1);
            if self.counting_element == 0 {
                if self.mode == Mode::Interrupt {
                    self.enabled = false;
                    fired = true;
                } else {
                    self.counting_element = self.initial_count_register;
                }
            }
        }
        if !self.latched {
            self.output_latch = self.counting_element;
        }
        fired
    }

    /// A control word for this counter: a latch command, or mode and access.
    fn set_control_word(&mut self, value: u8)
        ensures
            *final(self) == old(self).control_spec(value),
            (value / 16) % 4 == 0 ==> *final(self) == (Controller {
                latched: old(self).enabled || old(self).latched,
                output_latch: if old(self).enabled && !old(self).latched {
                    old(self).counting_element
                } else {
                    old(self).output_latch
                },
                ..*old(self)
            }),
            (value / 16) % 4 != 0 ==> *final(self) == (Controller {
                mode: mode_of(value as int),
                access: if (value / 16) % 4 == 1 {
                    Access::LSB
                } else if (value / 16) % 4 == 2 {
                    Access::MSB
                } else {
                    Access::LSBThenMSB
                },
                low_count: None,
                read_high: false,
                ..*old(self)
            }),
    {
        let rw = (value / 16) % 4;
        if rw == 0 {
            if self.enabled && !self.latched {
                self.output_latch = self.counting_element;
                self.latched = true;
            }
        } else {
            let m = (value / 2) % 8;
            self.mode = if m == 0 {
                Mode::Interrupt
            } else if m == 1 {
                Mode::OneShot
            } else if m == 2 || m == 6 {
                Mode::RateGenerator
            } else if m == 3 || m == 7 {
                Mode::SquareWave
            } else if m == 4 {
                Mode::SoftwareStrobe
            } else {
                Mode::HardwareStrobe
            };
            self.access = if rw == 1 {
                Access::LSB
            } else if rw == 2 {
                Access::MSB
            } else {
                Access::LSBThenMSB
            };
            self.low_count = None;
            self.read_high = false;
        }
    }

    /// A byte written to the count port; a complete count is loaded on the next tick.
    pub fn set_count(&mut self, value: u8)
        ensures
            *final(self) == old(self).write_spec(value),
            old(self).access == Access::LSB ==> *final(self) == (Controller {
                pending_count: Some(value as u16),
                ..*old(self)
            }),
            old(self).access == Access::MSB ==> *final(self) == (Controller {
                pending_count: Some((value as u16 * 256) as u16),
                ..*old(self)
            }),
            old(self).access == Access::LSBThenMSB && old(self).low_count is None ==> *final(self)
                == (Controller { low_count: Some(value as u16), ..*old(self) }),
            old(self).access == Access::LSBThenMSB && old(self).low_count is Some ==> *final(self)
                == (Controller {
                low_count: None,
                pending_count: Some(
                    ((old(self).low_count->0 % 256) + 256 * value as u16) as u16,
                ),
                ..*old(self)
            }),
    {
        let new_count = value as u16;
        match self.access {
            Access::LSB => {
                self.pending_count = Some(new_count);
            },
            Access::MSB => {
                self.pending_count = Some(new_count * 256);
            },
            Access::LSBThenMSB => match self.low_count {
                None => {
                    self.low_count = Some(new_count);
                },
                Some(low) => {
                    self.low_count = None;
                    self.pending_count = Some(low % 256 + 256 * new_count);
                },
            },
        }
    }

    /// A read of the count port: a byte of the output latch; a latch is released once all of
    /// its bytes were read.
    pub fn get_count(&mut self) -> (r: u8)
        ensures
            (*final(self), r as int) == old(self).read_spec(),
            old(self).access == Access::LSB ==> r as int == old(self).output_latch % 256
                && *final(self) == (Controller { latched: false, ..*old(self) }),
            old(self).access == Access::MSB ==> r as int == old(self).output_latch / 256
                && *final(self) == (Controller { latched: false, ..*old(self) }),
            old(self).access == Access::LSBThenMSB && !old(self).read_high ==> r as int == old(
                self,
            ).output_latch % 256 && *final(self) == (Controller { read_high: true, ..*old(self) }),
            old(self).access == Access::LSBThenMSB && old(self).read_high ==> r as int == old(
                self,
            ).output_latch / 256 && *final(self) == (Controller {
                read_high: false,
                latched: false,
                ..*old(self)
            }),
    {
        let latch = self.output_latch;
        match self.access {
            Access::LSB => {
                self.latched = false;
                (latch % 256) as u8
            },
            Access::MSB => {
                self.latched = false;
                (latch / 256) as u8
            },
            Access::LSBThenMSB => {
                if !self.read_high {
                    self.read_high = true;
                    (latch % 256) as u8
                } else {
                    self.read_high = false;
                    self.latched = false;
                    (latch / 256) as u8
                }
            },
        }
    }
}

impl PIT {
    /// A write to the control port: bits 7..6 select the counter; the read-back command (3) is
    /// not part of the 8253 and is ignored.
    pub fn set_control_word(&mut self, value: u8)
        ensures
            value / 64 == 3 ==> *final(self) == *old(self),
            value / 64 == 0 ==> *final(self) == PIT(old(self).0.control_spec(value), old(self).1, old(self).2),
            value / 64 == 1 ==> *final(self) == PIT(old(self).0, old(self).1.control_spec(value), old(self).2),
            value / 64 == 2 ==> *final(self) == PIT(old(self).0, old(self).1, old(self).2.control_spec(value)),
    {
        let select_counter = value / 64;
        if select_counter == 0 {
            self.0.set_control_word(value);
        } else if select_counter == 1 {
            self.1.set_control_word(value);
        } else if select_counter == 2 {
            self.2.set_control_word(value);
        }
    }

    /// A write to the count port of counter `select_counter` (0 to 2).
    pub fn set_count(&mut self, select_counter: u8, value: u8)
        requires
            select_counter < 3,
        ensures
            select_counter == 0 ==> *final(self) == PIT(old(self).0.write_spec(value), old(self).1, old(self).2),
            select_counter == 1 ==> *final(self) == PIT(old(self).0, old(self).1.write_spec(value), old(self).2),
            select_counter == 2 ==> *final(self) == PIT(old(self).0, old(self).1, old(self).2.write_spec(value)),
    {
        if select_counter == 0 {
            self.0.set_count(value);
        } else if select_counter == 1 {
            self.1.set_count(value);
        } else {
            self.2.set_count(value);
        }
    }

    /// A read of the count port of counter `select_counter` (0 to 2).
    pub fn get_count(&mut self, select_counter: u8) -> (r: u8)
        requires
            select_counter < 3,
        ensures
            select_counter == 0 ==> (final(self).0, r as int) == old(self).0.read_spec()
                && final(self).1 == old(self).1 && final(self).2 == old(self).2,
            select_counter == 1 ==> (final(self).1, r as int) == old(self).1.read_spec()
                && final(self).0 == old(self).0 && final(self).2 == old(self).2,
            select_counter == 2 ==> (final(self).2, r as int) == old(self).2.read_spec()
                && final(self).0 == old(self).0 && final(self).1 == old(self).1,
    {
        if select_counter == 0 {
            self.0.get_count()
        } else if select_counter == 1 {
            self.1.get_count()
        } else {
            self.2.get_count()
        }
    }

    /// One tick for all three counters; whether each signalled.
    pub fn tick(&mut self) -> (r: (bool, bool, bool))
        ensures
            (final(self).0, r.0) == old(self).0.tick_spec(),
            (final(self).1, r.1) == old(self).1.tick_spec(),
            (final(self).2, r.2) == old(self).2.tick_spec(),
    {
        let a = self.0.tick();
        let b = self.1.tick();
        let c = self.2.tick();
        (a, b, c)
    }
}

/// A counter in interrupt mode with count `n` just written: `j` ticks after the load tick it
/// holds `n - j` and has signalled once exactly when `j` reached the period.
proof fn lemma_countdown(c: Controller, j: nat)
    requires
        c.mode == Mode::Interrupt,
        c.pending_count is Some,
        j <= period(c.pending_count->0),
    ensures
        c.run(j + 1).1 == (if j == period(c.pending_count->0) {
            1nat
        } else {
            0nat
        }),
        c.run(j + 1).0.mode == Mode::Interrupt,
        c.run(j + 1).0.pending_count is None,
        j < period(c.pending_count->0) ==> c.run(j + 1).0.enabled && c.run(j + 1).0.counting_element
            as int == (c.pending_count->0 as int - j + 0x10000) % 0x10000,
        j == period(c.pending_count->0) ==> !c.run(j + 1).0.enabled,
    decreases j,
{
    assert(c.run(j + 1) == ({
        let (p, n) = c.run(j);
        let (p2, f) = p.tick_spec();
        (p2, n + if f { 1nat } else { 0nat })
    }));
    if j > 0 {
        lemma_countdown(c, (j - 1) as nat);
        let prev = c.run(j).0;
        let n = c.pending_count->0 as int;
        assert(prev.counting_element as int == (n - (j - 1) + 0x10000) % 0x10000);
        let ce = (prev.counting_element + 0xFFFF) % 0x10000;
        assert(ce == (n - j + 0x10000) % 0x10000);
    } else {
        assert(c.run(0) == (c, 0nat));
    }
}

/// After its period runs out the counter stays silent.
proof fn lemma_silent_after(c: Controller, k: nat)
    requires
        c.mode == Mode::Interrupt,
        c.pending_count is Some,
        k >= period(c.pending_count->0) + 1,
    ensures
        c.run(k).1 == 1,
        !c.run(k).0.enabled,
        c.run(k).0.pending_count is None,
        c.run(k).0.mode == Mode::Interrupt,
    decreases k,
{
    if k == period(c.pending_count->0) + 1 {
        lemma_countdown(c, (k - 1) as nat);
    } else {
        lemma_silent_after(c, (k - 1) as nat);
    }
}

/// A counter given count `n` in interrupt mode signals exactly once, on tick `period(n) + 1`
/// after the write (one tick loads the count, then one per decrement), and never before.
pub proof fn lemma_interrupt_mode_fires_once(c: Controller, k: nat)
    requires
        c.mode == Mode::Interrupt,
        c.pending_count is Some,
    ensures
        c.run(k).1 == (if k >= period(c.pending_count->0) + 1 {
            1nat
        } else {
            0nat
        }),
{
    if k >= period(c.pending_count->0) + 1 {
        lemma_silent_after(c, k);
    } else if k > 0 {
        lemma_countdown(c, (k - 1) as nat);
    }
}

} // verus!
