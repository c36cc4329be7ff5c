use vstd::prelude::*;

verus! {

#[derive(Clone, Copy, Debug, PartialEq, Eq, Structural)]
pub enum CPUSpeed {
    MHz477,
    MHz715,
    MHz954,
}

#[derive(Clone, Copy, Debug, PartialEq, Eq, Structural)]
pub struct Enable {
    pub timer_2: bool,
    pub speaker: bool,
    pub parity_check: bool,
    pub io_check: bool,
    pub keyboard_clock: bool,
    pub nmi: bool,
    pub nmi_8087: bool,
    pub lock_register: bool,
}

#[derive(Clone, Copy, Debug, PartialEq, Eq, Structural)]
pub enum SwitchSelect {
    S0,
    S1,
}

#[derive(Clone, Copy, Debug, PartialEq, Eq, Structural)]
pub enum NumOfFloppies {
    N0,
    N1,
    N2,
    N3,
}

#[derive(Clone, Copy, Debug, PartialEq, Eq, Structural)]
pub enum MemorySize {
    K640,
    K512,
    K256,
}

#[derive(Clone, Copy, Debug, PartialEq, Eq, Structural)]
pub struct Switches {
    pub installed_8087: bool,
    pub memory_size: MemorySize,
    pub num_of_floppies: NumOfFloppies,
    pub switch_select: SwitchSelect,
    pub cpu_speed: CPUSpeed,
}

#[derive(Clone, Copy, Debug, PartialEq, Eq, Structural)]
pub struct Errors {
    pub io_check: bool,
    pub parity_check: bool,
}

/// The programmable peripheral interface of the Faraday FE2010A glue chip.
#[derive(Clone, Copy, Debug, PartialEq, Eq, Structural)]
pub struct PPI {
    pub enable: Enable,
    pub switches: Switches,
    pub errors: Errors,
    pub keyboard_character: u8,
}

pub open spec fn b2i(b: bool) -> int {
    if b {
        1
    } else {
        0
    }
}

/// The interface at power-on: everything off, 640 KiB, no floppies, 4.77 MHz.
pub fn start() -> (r: PPI)
    ensures
        r.keyboard_character == 0,
        r.switches.switch_select == SwitchSelect::S0,
        r.switches.num_of_floppies == NumOfFloppies::N0,
        r.switches.memory_size == MemorySize::K640,
        !r.enable.timer_2 && !r.enable.speaker && !r.enable.parity_check && !r.enable.io_check,
        !r.enable.keyboard_clock && !r.errors.io_check && !r.errors.parity_check,
        !r.switches.installed_8087,
{
    PPI {
        enable: Enable {
            timer_2: false,
            speaker: false,
            parity_check: false,
            io_check: false,
            keyboard_clock: false,
            nmi: false,
            nmi_8087: false,
            lock_register: false,
        },
        switches: Switches {
            installed_8087: false,
            memory_size: MemorySize::K640,
            num_of_floppies: NumOfFloppies::N0,
            switch_select: SwitchSelect::S0,
            cpu_speed: CPUSpeed::MHz477,
        },
        errors: Errors { io_check: false, parity_check: false },
        keyboard_character: 0,
    }
}

impl PPI {
    /// What a read of port B returns.
    pub open spec fn port_b_value(self) -> int {
        b2i(self.enable.timer_2) + 2 * b2i(self.enable.speaker) + 4 * b2i(
            self.switches.switch_select == SwitchSelect::S1,
        ) + 16 * b2i(!self.enable.parity_check) + 32 * b2i(!self.enable.io_check) + 64 * b2i(
            self.enable.keyboard_clock,
        )
    }

    /// What a read of port C returns.
    pub open spec fn port_c_value(self) -> int {
        (if self.switches.switch_select == SwitchSelect::S0 {
            4 * floppies_code(self.switches.num_of_floppies)
        } else {
            2 * b2i(self.switches.installed_8087) + 4 * memory_code(self.switches.memory_size)
        }) + 64 * b2i(self.errors.io_check) + 128 * b2i(self.errors.parity_check)
    }

    /// The configuration register. Bits 2 and 4 both set name no memory size; that write leaves
    /// the memory size as it was.
    pub fn set_configuration(&mut self, value: u8)
        ensures
            final(self).enable.parity_check == (value % 2 == 0),
            final(self).enable.nmi_8087 == ((value / 2) % 2 == 1),
            final(self).switches.memory_size == (if (value / 4) % 2 == 0 && (value / 16) % 2 == 0 {
                MemorySize::K640
            } else if (value / 4) % 2 == 0 {
                MemorySize::K512
            } else if (value / 16) % 2 == 0 {
                MemorySize::K256
            } else {
                old(self).switches.memory_size
            }),
            final(self).switches.cpu_speed == (if value / 32 < 2 {
                CPUSpeed::MHz477
            } else if value / 32 < 4 {
                CPUSpeed::MHz715
            } else {
                CPUSpeed::MHz954
            }),
            final(self).keyboard_character == old(self).keyboard_character,
            final(self).switches.switch_select == old(self).switches.switch_select,
    {
        self.enable.parity_check = value % 2 == 0;
        self.enable.nmi_8087 = (value / 2) % 2 == 1;
        let a = (value / 4) % 2;
        let b = (value / 16) % 2;
        if a == 0 && b == 0 {
            self.switches.memory_size = MemorySize::K640;
        } else if a == 0 {
            self.switches.memory_size = MemorySize::K512;
        } else if b == 0 {
            self.switches.memory_size = MemorySize::K256;
        }
        let s = value / 32;
        self.switches.cpu_speed = if s < 2 {
            CPUSpeed::MHz477
        } else if s < 4 {
            CPUSpeed::MHz715
        } else {
            CPUSpeed::MHz954
        };
    }

    /// The NMI mask register: bit 7 enables the non-maskable interrupt.
    pub fn set_nmi(&mut self, value: u8)
        ensures
            *final(self) == (PPI {
                enable: Enable { nmi: value >= 128, ..old(self).enable },
                ..*old(self)
            }),
    {
        self.enable.nmi = value >= 128;
    }

    /// Port A is read-only on this machine; a write is ignored (the interface is only borrowed,
    /// so nothing in it can change).
    pub fn write_port_a(&self, _value: u8)
        ensures
            true,
    {
    }

    /// Port B: timer gate, speaker, switch bank, check enables (inverted) and keyboard control.
    pub fn write_port_b(&mut self, value: u8)
        ensures
            final(self).enable.timer_2 == (value % 2 == 1),
            final(self).enable.speaker == ((value / 2) % 2 == 1),
            final(self).switches.switch_select == (if (value / 4) % 2 == 1 {
                SwitchSelect::S1
            } else {
                SwitchSelect::S0
            }),
            final(self).enable.parity_check == ((value / 16) % 2 == 0),
            final(self).enable.io_check == ((value / 32) % 2 == 0),
            final(self).enable.keyboard_clock == ((value / 64) % 2 == 1),
            final(self).keyboard_character == (if value >= 128 {
                0
            } else {
                old(self).keyboard_character
            }),
            final(self).errors == old(self).errors,
            final(self).switches.memory_size == old(self).switches.memory_size,
            final(self).switches.num_of_floppies == old(self).switches.num_of_floppies,
            final(self).switches.installed_8087 == old(self).switches.installed_8087,
    {
        self.enable.timer_2 = value % 2 == 1;
        self.enable.speaker = (value / 2) % 2 == 1;
        self.switches.switch_select = if (value / 4) % 2 == 1 {
            SwitchSelect::S1
        } else {
            SwitchSelect::S0
        };
        self.enable.parity_check = (value / 16) % 2 == 0;
        self.enable.io_check = (value / 32) % 2 == 0;
        self.enable.keyboard_clock = (value / 64) % 2 == 1;
        if value >= 128 {
            self.keyboard_character = 0;
        }
    }

    /// Port A: the last keyboard scan code.
    pub fn read_port_a(&self) -> (r: u8)
        ensures
            r == self.keyboard_character,
    {
        self.keyboard_character
    }

    /// Port B read back.
    pub fn read_port_b(&self) -> (r: u8)
        ensures
            r as int == self.port_b_value(),
    {
        let mut result: u8 = 0;
        if self.enable.timer_2 {
            result = result + 0b1;
        }
        if self.enable.speaker {
            result = result + 0b10;
        }
        if let SwitchSelect::S1 = self.switches.switch_select {
            result = result + 0b100;
        }
        if !self.enable.parity_check {
            result = result + 0b1_0000;
        }
        if !self.enable.io_check {
            result = result + 0b10_0000;
        }
        if self.enable.keyboard_clock {
            result = result + 0b100_0000;
        }
        result
    }

    /// Port C: the switch bank chosen by port B, and the error latches in bits 6 and 7.
    pub fn read_port_c(&self) -> (r: u8)
        ensures
            r as int == self.port_c_value(),
    {
        let mut result: u8 = 0;
        match self.switches.switch_select {
            SwitchSelect::S0 => {
                let n: u8 = match self.switches.num_of_floppies {
                    NumOfFloppies::N0 => 0,
                    NumOfFloppies::N1 => 1,
                    NumOfFloppies::N2 => 2,
                    NumOfFloppies::N3 => 3,
                };
                result = result + 4 * n;
            },
            SwitchSelect::S1 => {
                if self.switches.installed_8087 {
                    result = result + 0b10;
                }
                let m: u8 = match self.switches.memory_size {
                    MemorySize::K640 => 0b00,
                    MemorySize::K512 => 0b10,
                    MemorySize::K256 => 0b01,
                };
                result = result + 4 * m;
            },
        }
        if self.errors.io_check {
            result = result + 0b100_0000;
        }
        if self.errors.parity_check {
            result = result + 0b1000_0000;
        }
        result
    }
}

pub open spec fn floppies_code(n: NumOfFloppies) -> int {
    match n {
        NumOfFloppies::N0 => 0,
        NumOfFloppies::N1 => 1,
        NumOfFloppies::N2 => 2,
        NumOfFloppies::N3 => 3,
    }
}

pub open spec fn memory_code(m: MemorySize) -> int {
    match m {
        MemorySize::K640 => 0,
        MemorySize::K512 => 2,
        MemorySize::K256 => 1,
    }
}

} // verus!
