use vstd::prelude::*;
use crate::dma;
use crate::dma::DMA;
use crate::faraday;
use crate::faraday::PPI;
use crate::graphics;
use crate::graphics::Graphics;
use crate::pic;
use crate::pic::{CPUMsg, PICMsg, PIC};
use crate::pit;
use crate::pit::PIT;

verus! {

/// A port access from the processor. A read answers with the value read.
#[derive(Clone, Copy, Debug, PartialEq, Eq, Structural)]
#[allow(inconsistent_fields)]
pub enum MotherboardMsg {
    OutByte { port: u16, value: u8 },
    OutWord { port: u16, value: u16 },
    InByte { port: u16 },
    InWord { port: u16 },
}

/// The I/O side of the motherboard: the chips behind the processor's IN and OUT ports.
pub struct Bus {
    pub pic: PIC,
    pub pit: PIT,
    pub dma: DMA,
    pub ppi: PPI,
    pub graphics: Graphics,
}

/// Whether a byte read from `port` reaches a chip (other ports read 0xFF).
pub open spec fn is_input_port(port: int) -> bool {
    (0 <= port <= 8) || port == 0x20 || port == 0x21 || (0x40 <= port <= 0x42) || port == 0x60
        || port == 0x61 || port == 0x62 || port == 0x210 || port == 0x3B8
}

/// Whether a byte written to `port` reaches a chip (writes to other ports are dropped).
pub open spec fn is_output_port(port: int) -> bool {
    (0 <= port <= 8) || (0x0A <= port <= 0x0F) || port == 0x20 || port == 0x21 || (0x40 <= port
        <= 0x43) || port == 0x60 || port == 0x61 || port == 0x63 || port == 0xA0 || port == 0x3B4
        || port == 0x3B5 || port == 0x3B8 || port == 0x3D4 || port == 0x3D5 || port == 0x3D8
}

/// Whether `n` is the bus `o` after a byte write of `value` to `port`: the chip that owns the
/// port takes the byte, the others keep their state, and a port nobody owns drops it.
#[verifier::opaque]
pub open spec fn out_byte_done(o: Bus, n: Bus, port: int, value: u8) -> bool {
    &&& !is_output_port(port) ==> n == o
    &&& port <= 0x0F ==> n.pic == o.pic && n.pit == o.pit
        && n.ppi == o.ppi && n.graphics == o.graphics
    &&& port <= 7 && port % 2 == 0 ==> ({
        let c = o.dma.channel(port / 2);
        n.dma == o.dma.with_channel(
            port / 2,
            dma::Channel { address: c.write_value(c.address, value), ..c.toggled() },
        )
    })
    &&& port <= 7 && port % 2 == 1 ==> ({
        let c = o.dma.channel(port / 2);
        n.dma == o.dma.with_channel(
            port / 2,
            dma::Channel { count: c.write_value(c.count, value), ..c.toggled() },
        )
    })
    &&& port == 0x20 || port == 0x21 ==> n.dma == o.dma && n.pit
        == o.pit && n.ppi == o.ppi && n.graphics
        == o.graphics
    &&& port == 0x21 && o.next_mask_write() ==> n.pic == o.pic.with_mask(value as int)
    &&& 0x40 <= port <= 0x43 ==> n.dma == o.dma && n.pic
        == o.pic && n.ppi == o.ppi && n.graphics
        == o.graphics
    &&& port == 0x40 ==> n.pit == PIT(o.pit.0.write_spec(value), o.pit.1, o.pit.2)
    &&& port == 0x41 ==> n.pit == PIT(o.pit.0, o.pit.1.write_spec(value), o.pit.2)
    &&& port == 0x42 ==> n.pit == PIT(o.pit.0, o.pit.1, o.pit.2.write_spec(value))
    &&& port == 0x43 && value / 64 == 0 ==> n.pit == PIT(o.pit.0.control_spec(value), o.pit.1, o.pit.2)
    &&& (port == 0x60 || port == 0x61 || port == 0x63 || port == 0xA0) ==> n.dma
        == o.dma && n.pic == o.pic && n.pit
        == o.pit && n.graphics == o.graphics
    &&& (port == 0x3B4 || port == 0x3B5 || port == 0x3B8 || port == 0x3D4 || port == 0x3D5
        || port == 0x3D8) ==> n.dma == o.dma && n.pic
        == o.pic && n.pit == o.pit && n.ppi
        == o.ppi
    &&& (port == 0x3B4 || port == 0x3D4) ==> n.graphics == (graphics::Graphics {
        current_register: graphics::register_of(value as int),
        ..o.graphics
        })
}

/// Whether `n` is the bus `o` after a word write to `port`: the low byte written to `port`,
/// then the high byte to the next port.
pub open spec fn out_word_done(o: Bus, n: Bus, port: int, value: u16) -> bool {
    exists|mid: Bus|
        #[trigger] out_byte_done(o, mid, port, (value % 256) as u8) && out_byte_done(
            mid,
            n,
            (port + 1) % 0x10000,
            (value / 256) as u8,
        )
}

/// The board at power-on.
pub fn start() -> (r: Bus)
    ensures
        r.pic.vector_offset == 8,
        r.pic.next_set_index == 5,
{
    Bus {
        pic: pic::start(),
        pit: pit::start(),
        dma: dma::start(),
        ppi: faraday::start(),
        graphics: graphics::start(),
    }
}

impl Bus {
    /// Whether the interrupt controller takes the next data-port write as its mask.
    pub open spec fn next_mask_write(&self) -> bool {
        self.pic.next_set_index != 2 && self.pic.next_set_index != 3 && self.pic.next_set_index != 4
    }

    /// A byte written to an I/O port, routed to the chip that owns the port.
    pub fn out_byte(&mut self, port: u16, value: u8)
        ensures
            out_byte_done(*old(self), *final(self), port as int, value),
    {
        proof {
            reveal(out_byte_done);
        }
        if port <= 7 {
            let ch = (port / 2) as u8;
            if port % 2 == 0 {
                self.dma.set_address(ch, value);
            } else {
                self.dma.set_count(ch, value);
            }
        } else if port == 0x08 {
            self.dma.set_status(value);
        } else if port == 0x0A {
            self.dma.set_mask(value);
        } else if port == 0x0B {
            self.dma.set_mode(value);
        } else if port == 0x0C {
            self.dma.reset_flip_flop();
        } else if port == 0x0D {
            self.dma.reset_master();
        } else if port == 0x0E {
            self.dma.reset_mask();
        } else if port == 0x0F {
            self.dma.set_masks(value);
        } else if port == 0x20 {
            self.pic.out_port_1(value);
        } else if port == 0x21 {
            self.pic.out_port_2(value);
        } else if 0x40 <= port && port <= 0x42 {
            self.pit.set_count((port - 0x40) as u8, value);
        } else if port == 0x43 {
            self.pit.set_control_word(value);
        } else if port == 0x60 {
            self.ppi.write_port_a(value);
        } else if port == 0x61 {
            self.ppi.write_port_b(value);
        } else if port == 0x63 {
            self.ppi.set_configuration(value);
        } else if port == 0xA0 {
            self.ppi.set_nmi(value);
        } else if port == 0x3B4 || port == 0x3D4 {
            self.graphics.choose_register(value);
        } else if port == 0x3B5 || port == 0x3D5 {
            self.graphics.set_register_data(value);
        } else if port == 0x3B8 {
            self.graphics.set_mode_bw(value);
        } else if port == 0x3D8 {
            self.graphics.set_mode_color(value);
        }
    }

    /// What a byte read from `port` does: the bus after it and the byte read. A port no chip
    /// owns reads 0xFF.
    #[verifier::opaque]
    pub open spec fn read_spec(self, port: int) -> (Bus, int) {
        if 0 <= port <= 7 {
            let c = self.dma.channel(port / 2);
            let (c2, v) = c.read_spec(if port % 2 == 0 { c.address } else { c.count });
            (Bus { dma: self.dma.with_channel(port / 2, c2), ..self }, v)
        } else if port == 8 {
            (self, 0)
        } else if port == 0x20 {
            (self, if self.pic.next_get == pic::RegisterType::IRR { self.pic.irr() } else { self.pic.isr() })
        } else if port == 0x21 {
            (self, self.pic.imr())
        } else if port == 0x40 {
            let (c, v) = self.pit.0.read_spec();
            (Bus { pit: PIT(c, self.pit.1, self.pit.2), ..self }, v)
        } else if port == 0x41 {
            let (c, v) = self.pit.1.read_spec();
            (Bus { pit: PIT(self.pit.0, c, self.pit.2), ..self }, v)
        } else if port == 0x42 {
            let (c, v) = self.pit.2.read_spec();
            (Bus { pit: PIT(self.pit.0, self.pit.1, c), ..self }, v)
        } else if port == 0x60 {
            (self, self.ppi.keyboard_character as int)
        } else if port == 0x61 {
            (self, self.ppi.port_b_value())
        } else if port == 0x62 {
            (self, self.ppi.port_c_value())
        } else if port == 0x210 {
            (self, 0)
        } else if port == 0x3B8 {
            (self, self.graphics.mode_bw_value())
        } else {
            (self, 0xFF)
        }
    }

    /// A byte read from an I/O port; a port no chip owns reads 0xFF.
    pub fn in_byte(&mut self, port: u16) -> (r: u8)
        ensures
            (*final(self), r as int) == old(self).read_spec(port as int),
            !is_input_port(port as int) ==> r == 0xFF && *final(self) == *old(self),
    {
        proof {
            reveal(Bus::read_spec);
        }
        if port <= 7 {
            let ch = (port / 2) as u8;
            if port % 2 == 0 {
                self.dma.get_address(ch)
            } else {
                self.dma.get_count(ch)
            }
        } else if port == 0x08 {
            self.dma.get_status()
        } else if port == 0x20 {
            self.pic.in_port_1()
        } else if port == 0x21 {
            self.pic.get_irqs_enabled()
        } else if 0x40 <= port && port <= 0x42 {
            self.pit.get_count((port - 0x40) as u8)
        } else if port == 0x60 {
            self.ppi.read_port_a()
        } else if port == 0x61 {
            self.ppi.read_port_b()
        } else if port == 0x62 {
            self.ppi.read_port_c()
        } else if port == 0x210 {
            0
        } else if port == 0x3B8 {
            self.graphics.get_mode_bw()
        } else {
            0xFF
        }
    }

    /// A word written to an I/O port: the low byte to `port`, the high byte to `port + 1`.
    pub fn out_word(&mut self, port: u16, value: u16)
        ensures
            out_word_done(*old(self), *final(self), port as int, value),
    {
        self.out_byte(port, (value % 256) as u8);
        let mid = Ghost(*self);
        self.out_byte(port.wrapping_add(1), (value / 256) as u8);
        assert(out_byte_done(mid@, *self, (port as int + 1) % 0x10000, (value / 256) as u8));
    }

    /// A word read from an I/O port: the low byte from `port`, the high byte from `port + 1`.
    pub fn in_word(&mut self, port: u16) -> (r: u16)
        ensures
            ({
                let (mid, lo) = old(self).read_spec(port as int);
                let (last, hi) = mid.read_spec((port as int + 1) % 0x10000);
                *final(self) == last && r as int == lo + 256 * hi
            }),
    {
        let lo = self.in_byte(port);
        let hi = self.in_byte(port.wrapping_add(1));
        lo as u16 + 256 * hi as u16
    }

    /// One tick of the timer's clock: a counter that reaches zero signals the interrupt
    /// controller, which may hand back an interrupt for the processor.
    pub fn tick_timer(&mut self) -> (r: Option<CPUMsg>)
        ensures
            ({
                let (c0, f0) = old(self).pit.0.tick_spec();
                final(self).pit.0 == c0 && (f0 ==> (final(self).pic, r) == old(self).pic.fire(0))
                    && (!f0 ==> final(self).pic == old(self).pic && r is None)
            }),
            final(self).dma == old(self).dma,
            final(self).ppi == old(self).ppi,
            final(self).graphics == old(self).graphics,
    {
        let (f0, f1, f2) = self.pit.tick();
        let mut result = None;
        if f0 {
            result = self.pic.process_msg(PICMsg::PIT { select_counter: 0 });
        }
        if f1 {
            self.pic.process_msg(PICMsg::PIT { select_counter: 1 });
        }
        if f2 {
            self.pic.process_msg(PICMsg::PIT { select_counter: 2 });
        }
        result
    }
}

impl Bus {
    /// Serves one port access: an OUT answers nothing, an IN answers the value read.
    pub fn process_msg(&mut self, msg: MotherboardMsg) -> (r: Option<u16>)
        ensures
            msg is OutByte || msg is OutWord ==> r is None,
            msg is InByte || msg is InWord ==> r is Some,
            msg matches MotherboardMsg::InByte { port } ==> ({
                let (b, v) = old(self).read_spec(port as int);
                *final(self) == b && r == Some(v as u16)
            }),
            msg matches MotherboardMsg::OutByte { port, value } ==> out_byte_done(
                *old(self),
                *final(self),
                port as int,
                value,
            ),
    {
        match msg {
            MotherboardMsg::OutByte { port, value } => {
                self.out_byte(port, value);
                None
            },
            MotherboardMsg::OutWord { port, value } => {
                self.out_word(port, value);
                None
            },
            MotherboardMsg::InByte { port } => Some(self.in_byte(port) as u16),
            MotherboardMsg::InWord { port } => Some(self.in_word(port)),
        }
    }
}

} // verus!
