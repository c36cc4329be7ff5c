use vstd::prelude::*;

verus! {

#[derive(Clone, Copy, Debug, PartialEq, Eq, Structural)]
pub enum TextSize {
    D40x25,
    D80x25,
}

#[derive(Clone, Copy, Debug, PartialEq, Eq, Structural)]
pub enum GraphicsType {
    D320x200,
    Text,
}

#[derive(Clone, Copy, Debug, PartialEq, Eq, Structural)]
pub struct BWOptions {
    pub text_size: TextSize,
    pub enabled: bool,
    pub blink: bool,
}

#[derive(Clone, Copy, Debug, PartialEq, Eq, Structural)]
pub struct ColorOptions {
    pub graphics_type: GraphicsType,
    pub black_white: bool,
    pub black_white_640x200: bool,
}

/// The 6845 CRTC register that the index port selects.
#[derive(Clone, Copy, Debug, PartialEq, Eq, Structural)]
pub enum Register {
    HorizontalTotalCharacter,
    HorizontalDisplayedCharactersPerLine,
    HorizontalSyncPosition,
    HorizontalSyncCharacterWidth,
    VerticalTotalLines,
    VerticalTotalAdjust,
    VerticalDisplayedRows,
    VerticalSyncCharacterRows,
    InterlaceMode,
    MaximumScanLineAddress,
    CursorStart,
    CursorEnd,
    StartAddressMSB,
    StartAddressLSB,
    CursorAddressMSB,
    CursorAddressLSB,
    LightPenMSB,
    LightPenLSB,
}

/// The video adapter's mode registers and CRTC registers.
#[derive(Clone, Copy, Debug, PartialEq, Eq, Structural)]
pub struct Graphics {
    pub bw_options: BWOptions,
    pub color_options: ColorOptions,
    pub current_register: Register,
    pub horizontal_total_character: u8,
    pub horizontal_displayed_characters_per_line: u8,
    pub horizontal_sync_position: u8,
    pub horizontal_sync_character_width: u8,
    pub vertical_total_lines: u8,
    pub vertical_total_adjust: u8,
    pub vertical_displayed_rows: u8,
    pub vertical_sync_character_rows: u8,
    pub interlace_mode: u8,
    pub maximum_scan_line_address: u8,
    pub cursor_start: u8,
    pub cursor_end: u8,
    pub start_address: u16,
    pub cursor_address: u16,
    pub light_pen: u16,
}

/// The adapter at power-on: every register zero, 40x25 text, display off.
pub fn start() -> (r: Graphics)
    ensures
        r.current_register == Register::HorizontalTotalCharacter,
        r.bw_options == (BWOptions { text_size: TextSize::D40x25, enabled: false, blink: false }),
        r.start_address == 0 && r.cursor_address == 0 && r.light_pen == 0,
{
    Graphics {
        bw_options: BWOptions { text_size: TextSize::D40x25, enabled: false, blink: false },
        color_options: ColorOptions {
            graphics_type: GraphicsType::D320x200,
            black_white: false,
            black_white_640x200: false,
        },
        current_register: Register::HorizontalTotalCharacter,
        horizontal_total_character: 0,
        horizontal_displayed_characters_per_line: 0,
        horizontal_sync_position: 0,
        horizontal_sync_character_width: 0,
        vertical_total_lines: 0,
        vertical_total_adjust: 0,
        vertical_displayed_rows: 0,
        vertical_sync_character_rows: 0,
        interlace_mode: 0,
        maximum_scan_line_address: 0,
        cursor_start: 0,
        cursor_end: 0,
        start_address: 0,
        cursor_address: 0,
        light_pen: 0,
    }
}

/// `v` with its high byte replaced by `b`.
pub open spec fn with_high(v: u16, b: u8) -> u16 {
    (v % 256 + 256 * b) as u16
}

/// `v` with its low byte replaced by `b`.
pub open spec fn with_low(v: u16, b: u8) -> u16 {
    ((v / 256) * 256 + b) as u16
}

/// The CRTC register with index `i`; an unknown index selects register 0.
pub open spec fn register_of(i: int) -> Register {
    if i == 1 {
        Register::HorizontalDisplayedCharactersPerLine
    } else if i == 2 {
        Register::HorizontalSyncPosition
    } else if i == 3 {
        Register::HorizontalSyncCharacterWidth
    } else if i == 4 {
        Register::VerticalTotalLines
    } else if i == 5 {
        Register::VerticalTotalAdjust
    } else if i == 6 {
        Register::VerticalDisplayedRows
    } else if i == 7 {
        Register::VerticalSyncCharacterRows
    } else if i == 8 {
        Register::InterlaceMode
    } else if i == 9 {
        Register::MaximumScanLineAddress
    } else if i == 10 {
        Register::CursorStart
    } else if i == 11 {
        Register::CursorEnd
    } else if i == 12 {
        Register::StartAddressMSB
    } else if i == 13 {
        Register::StartAddressLSB
    } else if i == 14 {
        Register::CursorAddressMSB
    } else if i == 15 {
        Register::CursorAddressLSB
    } else if i == 16 {
        Register::LightPenMSB
    } else if i == 17 {
        Register::LightPenLSB
    } else {
        Register::HorizontalTotalCharacter
    }
}

impl Graphics {
    /// What a read of the monochrome mode register returns.
    pub open spec fn mode_bw_value(self) -> int {
        (if self.bw_options.text_size == TextSize::D80x25 {
            1int
        } else {
            0int
        }) + (if self.bw_options.enabled {
            8int
        } else {
            0int
        }) + (if self.bw_options.blink {
            32int
        } else {
            0int
        })
    }

    /// The monochrome mode register: bit 0 80-column text, bit 3 display on, bit 5 blink.
    pub fn set_mode_bw(&mut self, register: u8)
        ensures
            *final(self) == (Graphics {
                bw_options: BWOptions {
                    text_size: if register % 2 == 1 {
                        TextSize::D80x25
                    } else {
                        TextSize::D40x25
                    },
                    enabled: (register / 8) % 2 == 1,
                    blink: (register / 32) % 2 == 1,
                },
                ..*old(self)
            }),
    {
        self.bw_options = BWOptions {
            text_size: if register % 2 == 1 {
                TextSize::D80x25
            } else {
                TextSize::D40x25
            },
            enabled: (register / 8) % 2 == 1,
            blink: (register / 32) % 2 == 1,
        };
    }

    /// The monochrome mode register read back.
    pub fn get_mode_bw(&mut self) -> (r: u8)
        ensures
            *final(self) == *old(self),
            r as int == old(self).mode_bw_value(),
    {
        let mut result: u8 = 0;
        if let TextSize::D80x25 = self.bw_options.text_size {
            result = result + 1;
        }
        if self.bw_options.enabled {
            result = result + 0b1000;
        }
        if self.bw_options.blink {
            result = result + 0b10_0000;
        }
        result
    }

    /// The colour mode register: the monochrome bits, plus bit 1 graphics, bit 2 black and
    /// white, bit 4 640x200.
    pub fn set_mode_color(&mut self, register: u8)
        ensures
            final(self).bw_options.enabled == ((register / 8) % 2 == 1),
            final(self).color_options == (ColorOptions {
                graphics_type: if (register / 2) % 2 == 1 {
                    GraphicsType::D320x200
                } else {
                    GraphicsType::Text
                },
                black_white: (register / 4) % 2 == 1,
                black_white_640x200: (register / 16) % 2 == 1,
            }),
            final(self).current_register == old(self).current_register,
    {
        self.set_mode_bw(register);
        self.color_options = ColorOptions {
            graphics_type: if (register / 2) % 2 == 1 {
                GraphicsType::D320x200
            } else {
                GraphicsType::Text
            },
            black_white: (register / 4) % 2 == 1,
            black_white_640x200: (register / 16) % 2 == 1,
        };
    }

    /// The CRTC index port.
    pub fn choose_register(&mut self, register: u8)
        ensures
            *final(self) == (Graphics { current_register: register_of(register as int), ..*old(self) }),
    {
        self.current_register = match register {
            0x01 => Register::HorizontalDisplayedCharactersPerLine,
            0x02 => Register::HorizontalSyncPosition,
            0x03 => Register::HorizontalSyncCharacterWidth,
            0x04 => Register::VerticalTotalLines,
            0x05 => Register::VerticalTotalAdjust,
            0x06 => Register::VerticalDisplayedRows,
            0x07 => Register::VerticalSyncCharacterRows,
            0x08 => Register::InterlaceMode,
            0x09 => Register::MaximumScanLineAddress,
            0x0A => Register::CursorStart,
            0x0B => Register::CursorEnd,
            0x0C => Register::StartAddressMSB,
            0x0D => Register::StartAddressLSB,
            0x0E => Register::CursorAddressMSB,
            0x0F => Register::CursorAddressLSB,
            0x10 => Register::LightPenMSB,
            0x11 => Register::LightPenLSB,
            _ => Register::HorizontalTotalCharacter,
        };
    }

    /// The CRTC data port: writes the selected register.
    pub fn set_register_data(&mut self, register: u8)
        ensures
            final(self).current_register == old(self).current_register,
            old(self).current_register == Register::CursorStart ==> final(self).cursor_start == register,
            old(self).current_register == Register::CursorEnd ==> final(self).cursor_end == register,
            old(self).current_register == Register::StartAddressMSB ==> final(self).start_address
                == with_high(old(self).start_address, register),
            old(self).current_register == Register::StartAddressLSB ==> final(self).start_address
                == with_low(old(self).start_address, register),
            old(self).current_register == Register::CursorAddressMSB ==> final(self).cursor_address
                == with_high(old(self).cursor_address, register),
            old(self).current_register == Register::CursorAddressLSB ==> final(self).cursor_address
                == with_low(old(self).cursor_address, register),
            old(self).current_register == Register::LightPenMSB ==> final(self).light_pen
                == with_high(old(self).light_pen, register),
            old(self).current_register == Register::LightPenLSB ==> final(self).light_pen
                == with_low(old(self).light_pen, register),
            old(self).current_register == Register::HorizontalTotalCharacter ==> final(self).horizontal_total_character == register,
            old(self).current_register == Register::VerticalTotalLines ==> final(self).vertical_total_lines == register,
    {
        match self.current_register {
            Register::HorizontalTotalCharacter => self.horizontal_total_character = register,
            Register::HorizontalDisplayedCharactersPerLine => self.horizontal_displayed_characters_per_line = register,
            Register::HorizontalSyncPosition => self.horizontal_sync_position = register,
            Register::HorizontalSyncCharacterWidth => self.horizontal_sync_character_width = register,
            Register::VerticalTotalLines => self.vertical_total_lines = register,
            Register::VerticalTotalAdjust => self.vertical_total_adjust = register,
            Register::VerticalDisplayedRows => self.vertical_displayed_rows = register,
            Register::VerticalSyncCharacterRows => self.vertical_sync_character_rows = register,
            Register::InterlaceMode => self.interlace_mode = register,
            Register::MaximumScanLineAddress => self.maximum_scan_line_address = register,
            Register::CursorStart => self.cursor_start = register,
            Register::CursorEnd => self.cursor_end = register,
            Register::StartAddressMSB => self.start_address = self.start_address % 256 + 256 * register as u16,
            Register::StartAddressLSB => self.start_address = (self.start_address / 256) * 256 + register as u16,
            Register::CursorAddressMSB => self.cursor_address = self.cursor_address % 256 + 256 * register as u16,
            Register::CursorAddressLSB => self.cursor_address = (self.cursor_address / 256) * 256 + register as u16,
            Register::LightPenMSB => self.light_pen = self.light_pen % 256 + 256 * register as u16,
            Register::LightPenLSB => self.light_pen = (self.light_pen / 256) * 256 + register as u16,
        }
    }
}

} // verus!
