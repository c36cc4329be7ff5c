use vstd::prelude::*;
use crate::shared::FlipFlop;

verus! {

#[derive(Clone, Copy, Debug, PartialEq, Eq, Structural)]
pub enum TransferType {
    SelfTest,
    WriteToMemory,
    ReadFromMemory,
}

#[derive(Clone, Copy, Debug, PartialEq, Eq, Structural)]
pub enum TransferMode {
    OnDemand,
    SingleDMA,
    BlockDMA,
    Cascade,
}

/// One channel of the DMA controller.
#[derive(Clone, Copy, Debug, PartialEq, Eq, Structural)]
pub struct Channel {
    pub mask: bool,
    pub address: u16,
    pub count: u16,
    pub flip_flop: FlipFlop,
    pub transfer_type: TransferType,
    pub transfer_mode: TransferMode,
}

/// The 8237 DMA controller's registers.
#[derive(Clone, Copy, Debug, PartialEq, Eq, Structural)]
pub struct DMA {
    pub enabled: bool,
    pub channel_0: Channel,
    pub channel_1: Channel,
    pub channel_2: Channel,
    pub channel_3: Channel,
}

pub open spec fn idle_channel() -> Channel {
    Channel {
        mask: false,
        address: 0,
        count: 0,
        flip_flop: FlipFlop::Low,
        transfer_type: TransferType::SelfTest,
        transfer_mode: TransferMode::SingleDMA,
    }
}

fn new_channel() -> (r: Channel)
    ensures
        r == idle_channel(),
{
    Channel {
        mask: false,
        address: 0,
        count: 0,
        flip_flop: FlipFlop::Low,
        transfer_type: TransferType::SelfTest,
        transfer_mode: TransferMode::SingleDMA,
    }
}

/// The controller at power-on: disabled, every channel idle.
pub fn start() -> (r: DMA)
    ensures
        r == (DMA {
            enabled: false,
            channel_0: idle_channel(),
            channel_1: idle_channel(),
            channel_2: idle_channel(),
            channel_3: idle_channel(),
        }),
{
    DMA {
        enabled: false,
        channel_0: new_channel(),
        channel_1: new_channel(),
        channel_2: new_channel(),
        channel_3: new_channel(),
    }
}

impl Channel {
    /// The byte of `v` that the flip-flop selects, and the channel with the flip-flop toggled.
    pub open spec fn read_spec(self, v: u16) -> (Channel, int) {
        match self.flip_flop {
            FlipFlop::Low => (Channel { flip_flop: FlipFlop::High, ..self }, v as int % 256),
            FlipFlop::High => (Channel { flip_flop: FlipFlop::Low, ..self }, v as int / 256),
        }
    }

    /// `v` with the byte that the flip-flop selects replaced by `b` (the low byte clears the
    /// high one).
    pub open spec fn write_value(self, v: u16, b: u8) -> u16 {
        match self.flip_flop {
            FlipFlop::Low => b as u16,
            FlipFlop::High => (v % 256 + 256 * b) as u16,
        }
    }

    pub open spec fn toggled(self) -> Channel {
        Channel {
            flip_flop: if self.flip_flop == FlipFlop::Low {
                FlipFlop::High
            } else {
                FlipFlop::Low
            },
            ..self
        }
    }

    fn read_piece(&mut self, v: u16) -> (r: u8)
        ensures
            (*final(self), r as int) == old(self).read_spec(v),
    {
        match self.flip_flop {
            FlipFlop::Low => {
                self.flip_flop = FlipFlop::High;
                (v % 256) as u8
            },
            FlipFlop::High => {
                self.flip_flop = FlipFlop::Low;
                (v / 256) as u8
            },
        }
    }

    fn write_piece(&mut self, v: u16, b: u8) -> (r: u16)
        ensures
            r == old(self).write_value(v, b),
            *final(self) == old(self).toggled(),
    {
        match self.flip_flop {
            FlipFlop::Low => {
                self.flip_flop = FlipFlop::High;
                b as u16
            },
            FlipFlop::High => {
                self.flip_flop = FlipFlop::Low;
                v % 256 + 256 * b as u16
            },
        }
    }

    fn get_count(&mut self) -> (r: u8)
        ensures
            (*final(self), r as int) == old(self).read_spec(old(self).count),
    {
        let c = self.count;
        self.read_piece(c)
    }

    fn get_address(&mut self) -> (r: u8)
        ensures
            (*final(self), r as int) == old(self).read_spec(old(self).address),
    {
        let a = self.address;
        self.read_piece(a)
    }

    fn set_count(&mut self, b: u8)
        ensures
            *final(self) == (Channel { count: old(self).write_value(old(self).count, b), ..old(self).toggled() }),
    {
        let c = self.count;
        self.count = self.write_piece(c, b);
    }

    fn set_address(&mut self, b: u8)
        ensures
            *final(self) == (Channel {
                address: old(self).write_value(old(self).address, b),
                ..old(self).toggled()
            }),
    {
        let a = self.address;
        self.address = self.write_piece(a, b);
    }

    fn set_mode(&mut self, register: u8)
        ensures
            final(self).transfer_type == transfer_type_of(register as int),
            final(self).transfer_mode == transfer_mode_of(register as int),
            final(self).address == old(self).address && final(self).count == old(self).count,
            final(self).mask == old(self).mask && final(self).flip_flop == old(self).flip_flop,
    {
        let t = (register / 4) % 4;
        self.transfer_type = if t == 1 {
            TransferType::WriteToMemory
        } else if t == 2 {
            TransferType::ReadFromMemory
        } else {
            TransferType::SelfTest
        };
        let m = register / 64;
        self.transfer_mode = if m == 0 {
            TransferMode::OnDemand
        } else if m == 1 {
            TransferMode::SingleDMA
        } else if m == 2 {
            TransferMode::BlockDMA
        } else {
            TransferMode::Cascade
        };
    }
}

/// The transfer type of a mode byte (bits 3..2); the invalid value 3 reads as a self test.
pub open spec fn transfer_type_of(v: int) -> TransferType {
    let t = (v / 4) % 4;
    if t == 1 {
        TransferType::WriteToMemory
    } else if t == 2 {
        TransferType::ReadFromMemory
    } else {
        TransferType::SelfTest
    }
}

/// The transfer mode of a mode byte (bits 7..6).
pub open spec fn transfer_mode_of(v: int) -> TransferMode {
    let m = v / 64;
    if m == 0 {
        TransferMode::OnDemand
    } else if m == 1 {
        TransferMode::SingleDMA
    } else if m == 2 {
        TransferMode::BlockDMA
    } else {
        TransferMode::Cascade
    }
}

impl DMA {
    /// Channel `i` (0 to 3).
    pub open spec fn channel(self, i: int) -> Channel {
        if i == 0 {
            self.channel_0
        } else if i == 1 {
            self.channel_1
        } else if i == 2 {
            self.channel_2
        } else {
            self.channel_3
        }
    }

    /// This controller with channel `i` replaced.
    pub open spec fn with_channel(self, i: int, c: Channel) -> DMA {
        if i == 0 {
            DMA { channel_0: c, ..self }
        } else if i == 1 {
            DMA { channel_1: c, ..self }
        } else if i == 2 {
            DMA { channel_2: c, ..self }
        } else {
            DMA { channel_3: c, ..self }
        }
    }

    fn take_channel(&self, i: u8) -> (r: Channel)
        requires
            i < 4,
        ensures
            r == self.channel(i as int),
    {
        if i == 0 {
            self.channel_0
        } else if i == 1 {
            self.channel_1
        } else if i == 2 {
            self.channel_2
        } else {
            self.channel_3
        }
    }

    fn put_channel(&mut self, i: u8, c: Channel)
        requires
            i < 4,
        ensures
            *final(self) == old(self).with_channel(i as int, c),
    {
        if i == 0 {
            self.channel_0 = c;
        } else if i == 1 {
            self.channel_1 = c;
        } else if i == 2 {
            self.channel_2 = c;
        } else {
            self.channel_3 = c;
        }
    }

    /// The command register: bit 2 set disables the controller.
    pub fn set_status(&mut self, register: u8)
        ensures
            *final(self) == (DMA { enabled: (register / 4) % 2 == 1, ..*old(self) }),
    {
        self.enabled = (register / 4) % 2 == 1;
    }

    /// The status register: no channel has reached terminal count or asks for service.
    pub fn get_status(&mut self) -> (r: u8)
        ensures
            r == 0,
            *final(self) == *old(self),
    {
        0
    }

    pub fn get_count(&mut self, channel_index: u8) -> (r: u8)
        requires
            channel_index < 4,
        ensures
            ({
                let (c, v) = old(self).channel(channel_index as int).read_spec(
                    old(self).channel(channel_index as int).count,
                );
                *final(self) == old(self).with_channel(channel_index as int, c) && r as int == v
            }),
    {
        let mut c = self.take_channel(channel_index);
        let r = c.get_count();
        self.put_channel(channel_index, c);
        r
    }

    pub fn get_address(&mut self, channel_index: u8) -> (r: u8)
        requires
            channel_index < 4,
        ensures
            ({
                let (c, v) = old(self).channel(channel_index as int).read_spec(
                    old(self).channel(channel_index as int).address,
                );
                *final(self) == old(self).with_channel(channel_index as int, c) && r as int == v
            }),
    {
        let mut c = self.take_channel(channel_index);
        let r = c.get_address();
        self.put_channel(channel_index, c);
        r
    }

    pub fn set_address(&mut self, channel_index: u8, register: u8)
        requires
            channel_index < 4,
        ensures
            ({
                let c = old(self).channel(channel_index as int);
                *final(self) == old(self).with_channel(
                    channel_index as int,
                    Channel { address: c.write_value(c.address, register), ..c.toggled() },
                )
            }),
    {
        let mut c = self.take_channel(channel_index);
        c.set_address(register);
        self.put_channel(channel_index, c);
    }

    pub fn set_count(&mut self, channel_index: u8, register: u8)
        requires
            channel_index < 4,
        ensures
            ({
                let c = old(self).channel(channel_index as int);
                *final(self) == old(self).with_channel(
                    channel_index as int,
                    Channel { count: c.write_value(c.count, register), ..c.toggled() },
                )
            }),
    {
        let mut c = self.take_channel(channel_index);
        c.set_count(register);
        self.put_channel(channel_index, c);
    }

    /// Master clear: every channel masked, every flip-flop on the low byte.
    pub fn reset_master(&mut self)
        ensures
            forall|i: int|
                0 <= i < 4 ==> (#[trigger] final(self).channel(i)) == (Channel {
                    mask: true,
                    flip_flop: FlipFlop::Low,
                    ..old(self).channel(i)
                }),
            final(self).enabled == old(self).enabled,
    {
        self.channel_0.mask = true;
        self.channel_0.flip_flop = FlipFlop::Low;
        self.channel_1.mask = true;
        self.channel_1.flip_flop = FlipFlop::Low;
        self.channel_2.mask = true;
        self.channel_2.flip_flop = FlipFlop::Low;
        self.channel_3.mask = true;
        self.channel_3.flip_flop = FlipFlop::Low;
    }

    /// Every flip-flop back on the low byte.
    pub fn reset_flip_flop(&mut self)
        ensures
            forall|i: int|
                0 <= i < 4 ==> (#[trigger] final(self).channel(i)) == (Channel {
                    flip_flop: FlipFlop::Low,
                    ..old(self).channel(i)
                }),
            final(self).enabled == old(self).enabled,
    {
        self.channel_0.flip_flop = FlipFlop::Low;
        self.channel_1.flip_flop = FlipFlop::Low;
        self.channel_2.flip_flop = FlipFlop::Low;
        self.channel_3.flip_flop = FlipFlop::Low;
    }

    /// Every channel unmasked.
    pub fn reset_mask(&mut self)
        ensures
            forall|i: int|
                0 <= i < 4 ==> (#[trigger] final(self).channel(i)) == (Channel {
                    mask: false,
                    ..old(self).channel(i)
                }),
            final(self).enabled == old(self).enabled,
    {
        self.channel_0.mask = false;
        self.channel_1.mask = false;
        self.channel_2.mask = false;
        self.channel_3.mask = false;
    }

    /// All four masks at once: bit `i` masks channel `i`.
    pub fn set_masks(&mut self, register: u8)
        ensures
            final(self).channel_0 == (Channel { mask: register % 2 == 1, ..old(self).channel_0 }),
            final(self).channel_1 == (Channel { mask: (register / 2) % 2 == 1, ..old(self).channel_1 }),
            final(self).channel_2 == (Channel { mask: (register / 4) % 2 == 1, ..old(self).channel_2 }),
            final(self).channel_3 == (Channel { mask: (register / 8) % 2 == 1, ..old(self).channel_3 }),
            final(self).enabled == old(self).enabled,
    {
        self.channel_0.mask = register % 2 == 1;
        self.channel_1.mask = (register / 2) % 2 == 1;
        self.channel_2.mask = (register / 4) % 2 == 1;
        self.channel_3.mask = (register / 8) % 2 == 1;
    }

    /// One mask: bits 1..0 pick the channel, bit 2 is the mask.
    pub fn set_mask(&mut self, register: u8)
        ensures
            *final(self) == old(self).with_channel(
                register as int % 4,
                Channel { mask: (register / 4) % 2 == 1, ..old(self).channel(register as int % 4) },
            ),
    {
        let i = register % 4;
        let mut c = self.take_channel(i);
        c.mask = (register / 4) % 2 == 1;
        self.put_channel(i, c);
    }

    /// A mode byte: bits 1..0 pick the channel.
    pub fn set_mode(&mut self, register: u8)
        ensures
            ({
                let i = register as int % 4;
                let c = final(self).channel(i);
                c.transfer_type == transfer_type_of(register as int) && c.transfer_mode
                    == transfer_mode_of(register as int) && c.address == old(self).channel(i).address
                    && c.count == old(self).channel(i).count
            }),
    {
        let i = register % 4;
        let mut c = self.take_channel(i);
        c.set_mode(register);
        self.put_channel(i, c);
    }
}

} // verus!
