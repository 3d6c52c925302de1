//! Touchscreen controller: the pen position as twelve-bit samples, read
//! out over SPI one byte at a time.

use vstd::prelude::*;
use crate::bits::{field, get_field};

verus! {

/// Touchscreen controller
/// Communicates via SPI protocol (ADS7843 compatible)
#[derive(Debug, Clone, Copy)]
pub struct TouchScreen {
    /// Control byte for current operation
    pub control_byte: u8,
    /// Current output coordinate data
    pub output_coords: u16,
    /// Position in data transfer
    pub data_pos: i32,
    /// Pressed X coordinate (0-4095)
    pub press_x: u16,
    /// Pressed Y coordinate (0-4095)
    pub press_y: u16,
    /// Pen down state
    pub pen_down: bool,
}

/// The sample for pixel column `pixel`: sixteen steps a column, cut to
/// sixteen bits.
pub open spec fn adc_of_x(pixel: i32) -> u16 {
    ((pixel as u32 * 4096) / 256) as u16
}

/// The sample for pixel row `pixel`: 4096 steps over 192 rows, cut to
/// sixteen bits.
pub open spec fn adc_of_y(pixel: i32) -> u16 {
    ((pixel as u32 * 4096) / 192) as u16
}

/// The pixel column of a sample, at most 255.
pub open spec fn pixel_of_x(adc: u16) -> i32 {
    if (adc * 256) / 4096 > 255 {
        255
    } else {
        ((adc * 256) / 4096) as i32
    }
}

/// The pixel row of a sample, at most 191.
pub open spec fn pixel_of_y(adc: u16) -> i32 {
    if (adc * 192) / 4096 > 191 {
        191
    } else {
        ((adc * 192) / 4096) as i32
    }
}

/// A pixel coordinate that the conversion to a sample can take: not
/// negative, and small enough for the product with 4096 to fit in 32 bits.
pub open spec fn convertible(pixel: i32) -> bool {
    0 <= pixel < 0x10_0000
}

impl TouchScreen {
    /// What a measurement of channel `channel` gives: the pen position on
    /// channels 0 (y) and 1 (x), a fixed pressure on channels 3 and 4,
    /// zero on the others. With the pen up the two position channels read
    /// 0xFFF and the pressure channels zero.
    pub open spec fn measured(self, channel: u32) -> u16 {
        if channel == 0 {
            if self.pen_down {
                self.press_y
            } else {
                0xFFF
            }
        } else if channel == 1 {
            if self.pen_down {
                self.press_x
            } else {
                0xFFF
            }
        } else if channel == 3 {
            if self.pen_down {
                2000
            } else {
                0
            }
        } else if channel == 4 {
            if self.pen_down {
                1000
            } else {
                0
            }
        } else {
            0
        }
    }

    /// The controller after a byte is exchanged. The first byte of a
    /// transfer is the control byte, whose bits 4 to 6 choose the channel
    /// to measure; the second byte and the third carry no command.
    pub open spec fn transferred(self, input: u8) -> TouchScreen {
        if self.data_pos == 0 {
            TouchScreen {
                control_byte: input,
                data_pos: 1,
                output_coords: self.measured(field(input as u32, 4, 7)),
                ..self
            }
        } else if self.data_pos == 1 {
            TouchScreen { data_pos: 2, ..self }
        } else {
            TouchScreen { data_pos: 0, ..self }
        }
    }

    /// The byte that the controller sends while it takes `input`: with
    /// the control byte, bits 4 to 7 of the measurement shifted right by
    /// four; with the second byte, the low four bits of the measurement in
    /// the high half of the byte; then zero.
    pub open spec fn reply(self, input: u8) -> u8 {
        if self.data_pos == 0 {
            ((self.measured(field(input as u32, 4, 7)) >> 4) & 0xF0) as u8
        } else if self.data_pos == 1 {
            (((self.output_coords & 0xFF) as u8) << 4)
        } else {
            0
        }
    }

    /// Create new touchscreen controller
    pub fn new() -> (r: Self)
        ensures
            r == (TouchScreen {
                control_byte: 0,
                output_coords: 0,
                data_pos: 0,
                press_x: 0,
                press_y: 0,
                pen_down: false,
            }),
    {
        TouchScreen {
            control_byte: 0,
            output_coords: 0,
            data_pos: 0,
            press_x: 0,
            press_y: 0,
            pen_down: false,
        }
    }

    /// Power on touchscreen
    pub fn power_on(&mut self) -> (r: Result<(), String>)
        ensures
            r.is_ok(),
            *final(self) == (TouchScreen { pen_down: false, press_x: 0, press_y: 0, ..*old(self) }),
    {
        self.pen_down = false;
        self.press_x = 0;
        self.press_y = 0;
        Ok(())
    }

    /// Handle press event at screen coordinates
    pub fn press_event(&mut self, x: i32, y: i32)
        requires
            convertible(x),
            convertible(y),
        ensures
            *final(self) == (TouchScreen {
                press_x: adc_of_x(x),
                press_y: adc_of_y(y),
                pen_down: true,
                ..*old(self)
            }),
    {
        self.press_x = TouchScreen::pixel_to_adc_x(x);
        self.press_y = TouchScreen::pixel_to_adc_y(y);
        self.pen_down = true;
    }

    /// Release pen from touchscreen
    pub fn release(&mut self)
        ensures
            *final(self) == (TouchScreen { pen_down: false, ..*old(self) }),
    {
        self.pen_down = false;
    }

    fn measure(&self, channel: u32) -> (r: u16)
        ensures
            r == self.measured(channel),
    {
        if channel == 0 {
            if self.pen_down {
                self.press_y
            } else {
                0xFFF
            }
        } else if channel == 1 {
            if self.pen_down {
                self.press_x
            } else {
                0xFFF
            }
        } else if channel == 3 {
            if self.pen_down {
                2000
            } else {
                0
            }
        } else if channel == 4 {
            if self.pen_down {
                1000
            } else {
                0
            }
        } else {
            0
        }
    }

    /// Transfer data via SPI
    /// Returns data to send to ARM7/ARM9
    pub fn transfer_data(&mut self, input: u8) -> (r: u8)
        ensures
            *final(self) == old(self).transferred(input),
            r == old(self).reply(input),
    {
        if self.data_pos == 0 {
            self.control_byte = input;
            self.data_pos = 1;
            self.output_coords = self.measure(get_field(input as u32, 4, 7));
            ((self.output_coords >> 4) & 0xF0) as u8
        } else if self.data_pos == 1 {
            self.data_pos = 2;
            ((self.output_coords & 0xFF) as u8) << 4
        } else {
            self.data_pos = 0;
            0
        }
    }

    /// Deselect touchscreen (end of transfer)
    pub fn deselect(&mut self)
        ensures
            *final(self) == (TouchScreen { data_pos: 0, ..*old(self) }),
    {
        self.data_pos = 0;
    }

    /// Get pressed X coordinate
    pub fn get_press_x(&self) -> (r: u16)
        ensures
            r == self.press_x,
    {
        self.press_x
    }

    /// Get pressed Y coordinate
    pub fn get_press_y(&self) -> (r: u16)
        ensures
            r == self.press_y,
    {
        self.press_y
    }

    /// Check if pen is down
    pub fn is_pen_down(&self) -> (r: bool)
        ensures
            r == self.pen_down,
    {
        self.pen_down
    }

    /// Set pressed X coordinate directly
    pub fn set_press_x(&mut self, x: u16)
        ensures
            *final(self) == (TouchScreen { press_x: x, ..*old(self) }),
    {
        self.press_x = x;
    }

    /// Set pressed Y coordinate directly
    pub fn set_press_y(&mut self, y: u16)
        ensures
            *final(self) == (TouchScreen { press_y: y, ..*old(self) }),
    {
        self.press_y = y;
    }

    /// Set pen down state directly
    pub fn set_pen_down(&mut self, down: bool)
        ensures
            *final(self) == (TouchScreen { pen_down: down, ..*old(self) }),
    {
        self.pen_down = down;
    }

    /// Convert ADC value to screen pixel
    pub fn adc_to_pixel_x(adc: u16) -> (r: i32)
        ensures
            r == pixel_of_x(adc),
            0 <= r <= 255,
    {
        let p = (adc as i32 * 256) / 4096;
        if p > 255 {
            255
        } else {
            p
        }
    }

    /// Convert ADC value to screen pixel Y
    pub fn adc_to_pixel_y(adc: u16) -> (r: i32)
        ensures
            r == pixel_of_y(adc),
            0 <= r <= 191,
    {
        let p = (adc as i32 * 192) / 4096;
        if p > 191 {
            191
        } else {
            p
        }
    }

    /// Convert pixel to ADC value X
    pub fn pixel_to_adc_x(pixel: i32) -> (r: u16)
        requires
            convertible(pixel),
        ensures
            r == adc_of_x(pixel),
    {
        ((pixel as u32 * 4096) / 256) as u16
    }

    /// Convert pixel to ADC value Y
    pub fn pixel_to_adc_y(pixel: i32) -> (r: u16)
        requires
            convertible(pixel),
        ensures
            r == adc_of_y(pixel),
    {
        ((pixel as u32 * 4096) / 192) as u16
    }
}

impl Default for TouchScreen {
    fn default() -> (r: TouchScreen)
        ensures
            r == (TouchScreen {
                control_byte: 0,
                output_coords: 0,
                data_pos: 0,
                press_x: 0,
                press_y: 0,
                pen_down: false,
            }),
    {
        TouchScreen::new()
    }
}

} // verus!
