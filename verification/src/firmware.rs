//! Firmware storage: the image, the SPI command state, and the checksums
//! of its settings blocks.

use vstd::prelude::*;
use crate::buffers::filled;

verus! {

/// Firmware size in bytes (256 KB)
pub const FIRMWARE_SIZE: usize = 262144;

/// Firmware commands
#[derive(Debug, Clone, Copy, PartialEq, Eq, Structural)]
pub enum FirmwareCommand {
    /// No command
    NoCommand,
    /// Read status register
    ReadStatusReg,
    /// Read data stream
    ReadStream,
}

impl FirmwareCommand {
    /// The command that a value stands for; a value that names no command
    /// stands for none.
    pub open spec fn of(val: u32) -> FirmwareCommand {
        if val == 1 {
            FirmwareCommand::ReadStatusReg
        } else if val == 2 {
            FirmwareCommand::ReadStream
        } else {
            FirmwareCommand::NoCommand
        }
    }

    /// Convert numeric value to FirmwareCommand
    pub fn from_value(val: u32) -> (r: Self)
        ensures
            r == FirmwareCommand::of(val),
    {
        if val == 1 {
            FirmwareCommand::ReadStatusReg
        } else if val == 2 {
            FirmwareCommand::ReadStream
        } else {
            FirmwareCommand::NoCommand
        }
    }
}

/// Nintendo DS Firmware
/// Stores firmware data and manages SPI communication
pub struct Firmware {
    /// Firmware data (256 KB)
    pub firmware: Vec<u8>,
    /// Status register
    pub status_reg: u8,
    /// User data section
    pub user_data: i32,
    /// Current command
    pub command_id: FirmwareCommand,
    /// Current address
    pub address: u32,
    /// Total arguments for command
    pub total_args: i32,
}

/// One round of the checksum: the register is shifted right by one, and
/// the polynomial 0xA001 is mixed in where the lowest bits of register and
/// byte differ.
pub open spec fn crc_round(crc: u16, byte: u8) -> u16 {
    if (crc ^ (byte as u16)) & 1 != 0 {
        (crc >> 1) ^ 0xA001
    } else {
        crc >> 1
    }
}

/// `n` rounds of the checksum with the same byte.
pub open spec fn crc_rounds(crc: u16, byte: u8, n: nat) -> u16
    decreases n,
{
    if n == 0 {
        crc
    } else {
        crc_round(crc_rounds(crc, byte, (n - 1) as nat), byte)
    }
}

/// The checksum register after the bytes of `data` from `start` up to, not
/// including, `end` are taken in, eight rounds a byte.
pub open spec fn crc_over(data: Seq<u8>, start: int, end: int, crc: u16) -> u16
    decreases end - start,
{
    if end <= start {
        crc
    } else {
        crc_rounds(crc_over(data, start, end - 1, crc), data[end - 1], 8)
    }
}

/// Where a block of `length` bytes from `start` ends in data of `len`
/// bytes: what lies beyond the data does not count.
pub open spec fn block_end(len: int, start: int, length: int) -> int {
    if start + length < len {
        start + length
    } else {
        len
    }
}

impl Firmware {
    /// The image has its full size.
    pub open spec fn wf(&self) -> bool {
        self.firmware.len() == FIRMWARE_SIZE
    }

    /// The firmware after a byte is exchanged. Without a command in work
    /// the byte names the command. A status read ends with the reply. A
    /// stream read moves on by one byte as long as it is inside the image.
    pub open spec fn transferred(&self, input: u8) -> Firmware {
        match self.command_id {
            FirmwareCommand::NoCommand => Firmware {
                command_id: FirmwareCommand::of(input as u32),
                total_args: 0,
                address: 0,
                ..*self
            },
            FirmwareCommand::ReadStatusReg => Firmware {
                command_id: FirmwareCommand::NoCommand,
                ..*self
            },
            FirmwareCommand::ReadStream => if self.address < self.firmware.len() {
                Firmware {
                    address: if self.address == u32::MAX {
                        0
                    } else {
                        (self.address + 1) as u32
                    },
                    ..*self
                }
            } else {
                *self
            },
        }
    }

    /// The byte that the firmware sends while it takes a byte in.
    pub open spec fn reply(&self) -> u8 {
        match self.command_id {
            FirmwareCommand::NoCommand => 0,
            FirmwareCommand::ReadStatusReg => self.status_reg,
            FirmwareCommand::ReadStream => if self.address < self.firmware.len() {
                self.firmware@[self.address as int]
            } else {
                0
            },
        }
    }

    /// The checksum stored at `crc_offset`, low byte first.
    pub open spec fn stored_crc(&self, crc_offset: int) -> u16 {
        (self.firmware@[crc_offset] as u16) | ((self.firmware@[crc_offset + 1] as u16) << 8)
    }

    /// The firmware as it is made: an image of zeros, no command in work.
    pub open spec fn is_new(&self) -> bool {
        &&& self.firmware@ == Seq::new(FIRMWARE_SIZE as nat, |i: int| 0u8)
        &&& self.status_reg == 0
        &&& self.user_data == 0
        &&& self.command_id == FirmwareCommand::NoCommand
        &&& self.address == 0
        &&& self.total_args == 0
    }

    /// Create new Firmware controller
    pub fn new() -> (r: Self)
        ensures
            r.wf(),
            r.is_new(),
    {
        Firmware {
            firmware: filled(FIRMWARE_SIZE, 0u8),
            status_reg: 0,
            user_data: 0,
            command_id: FirmwareCommand::NoCommand,
            address: 0,
            total_args: 0,
        }
    }

    /// Takes the bytes of an image, as far as the firmware has room for
    /// them; tells how many were taken.
    pub fn load_image(&mut self, image: &[u8]) -> (taken: usize)
        requires
            old(self).wf(),
        ensures
            final(self).wf(),
            taken == if image@.len() < FIRMWARE_SIZE { image@.len() } else { FIRMWARE_SIZE as nat },
            forall|i: int| 0 <= i < taken ==> #[trigger] final(self).firmware@[i] == image@[i],
            forall|i: int|
                taken <= i < FIRMWARE_SIZE ==> #[trigger] final(self).firmware@[i] == old(
                    self,
                ).firmware@[i],
            *final(self) == (Firmware { firmware: final(self).firmware, ..*old(self) }),
    {
        let n = if image.len() < FIRMWARE_SIZE {
            image.len()
        } else {
            FIRMWARE_SIZE
        };
        let mut i: usize = 0;
        while i < n
            invariant
                i <= n,
                n <= image@.len(),
                n <= FIRMWARE_SIZE,
                self.wf(),
                *self == (Firmware { firmware: self.firmware, ..*old(self) }),
                forall|k: int| 0 <= k < i ==> #[trigger] self.firmware@[k] == image@[k],
                forall|k: int|
                    i <= k < FIRMWARE_SIZE ==> #[trigger] self.firmware@[k] == old(
                        self,
                    ).firmware@[k],
            decreases n - i,
        {
            self.firmware[i] = image[i];
            i = i + 1;
        }
        n
    }

    /// Load firmware: the status register and the address start at zero.
    /// Returns number of bytes loaded
    pub fn load_firmware(&mut self, _file_name: &str) -> (r: Result<usize, String>)
        ensures
            r == Ok::<usize, String>(FIRMWARE_SIZE),
            *final(self) == (Firmware { status_reg: 0, address: 0, ..*old(self) }),
    {
        self.status_reg = 0x00;
        self.address = 0;
        Ok(FIRMWARE_SIZE)
    }

    /// Direct boot - initialize firmware for direct boot mode
    pub fn direct_boot(&mut self) -> (r: Result<(), String>)
        ensures
            r.is_ok(),
            *final(self) == (Firmware {
                status_reg: 0,
                command_id: FirmwareCommand::NoCommand,
                address: 0,
                ..*old(self)
            }),
    {
        self.status_reg = 0x00;
        self.command_id = FirmwareCommand::NoCommand;
        self.address = 0;
        Ok(())
    }

    /// Transfer data byte via SPI
    /// Input: byte to send to firmware
    /// Returns: byte received from firmware
    pub fn transfer_data(&mut self, input: u8) -> (r: u8)
        ensures
            *final(self) == old(self).transferred(input),
            r == old(self).reply(),
    {
        match self.command_id {
            FirmwareCommand::NoCommand => {
                self.command_id = FirmwareCommand::from_value(input as u32);
                self.total_args = 0;
                self.address = 0;
                0x00
            },
            FirmwareCommand::ReadStatusReg => {
                self.command_id = FirmwareCommand::NoCommand;
                self.status_reg
            },
            FirmwareCommand::ReadStream => {
                if (self.address as usize) < self.firmware.len() {
                    let byte = self.firmware[self.address as usize];
                    self.address = if self.address == u32::MAX {
                        0
                    } else {
                        self.address + 1
                    };
                    byte
                } else {
                    0x00
                }
            },
        }
    }

    /// Deselect firmware (end SPI transfer)
    pub fn deselect(&mut self)
        ensures
            *final(self) == (Firmware {
                command_id: FirmwareCommand::NoCommand,
                address: 0,
                total_args: 0,
                ..*old(self)
            }),
    {
        self.command_id = FirmwareCommand::NoCommand;
        self.address = 0;
        self.total_args = 0;
    }

    /// Get current firmware byte at address; beyond the image the read
    /// gives zero.
    pub fn get_byte(&self, address: usize) -> (r: u8)
        ensures
            r == if address < self.firmware.len() { self.firmware@[address as int] } else { 0 },
    {
        if address < self.firmware.len() {
            self.firmware[address]
        } else {
            0x00
        }
    }

    /// Set firmware byte at address; beyond the image nothing is written.
    pub fn set_byte(&mut self, address: usize, value: u8)
        ensures
            *final(self) == (Firmware { firmware: final(self).firmware, ..*old(self) }),
            final(self).firmware@ == if address < old(self).firmware.len() {
                old(self).firmware@.update(address as int, value)
            } else {
                old(self).firmware@
            },
    {
        if address < self.firmware.len() {
            self.firmware[address] = value;
        }
    }

    /// Get status register value
    pub fn get_status(&self) -> (r: u8)
        ensures
            r == self.status_reg,
    {
        self.status_reg
    }

    /// Set status register value
    pub fn set_status(&mut self, value: u8)
        ensures
            *final(self) == (Firmware { status_reg: value, ..*old(self) }),
    {
        self.status_reg = value;
    }

    /// Get firmware data
    pub fn get_firmware(&self) -> (r: &[u8])
        ensures
            r@ == self.firmware@,
    {
        self.firmware.as_slice()
    }

    /// Get mutable firmware data
    pub fn get_firmware_mut(&mut self) -> (r: &mut [u8])
        ensures
            r@ == old(self).firmware@,
            final(self).firmware@ == final(r)@,
            *final(self) == (Firmware { firmware: final(self).firmware, ..*old(self) }),
    {
        self.firmware.as_mut_slice()
    }

    /// Update CRC16 with new byte
    pub fn crc_update(crc: u16, byte: u8) -> (r: u16)
        ensures
            r == crc_rounds(crc, byte, 8),
    {
        let mut crc = crc;
        let ghost start = crc;
        let mut i: u8 = 0;
        while i < 8
            invariant
                i <= 8,
                crc == crc_rounds(start, byte, i as nat),
            decreases 8 - i,
        {
            let carry = (crc ^ (byte as u16)) & 1;
            crc = crc >> 1;
            if carry != 0 {
                crc = crc ^ 0xA001;
            }
            i = i + 1;
        }
        crc
    }

    /// Create CRC16 for firmware data: the checksum, from 0xFFFF on, of
    /// the `length` bytes from `start`, as far as they lie inside the
    /// data.
    pub fn create_crc(data: &[u8], length: usize, start: usize) -> (r: u16)
        ensures
            r == crc_over(
                data@,
                start as int,
                block_end(data@.len() as int, start as int, length as int),
                0xFFFF,
            ),
    {
        let len = data.len();
        let end: usize = if start >= len {
            len
        } else if length < len - start {
            start + length
        } else {
            len
        };
        let mut crc: u16 = 0xFFFF;
        if start >= end {
            return crc;
        }
        let mut i: usize = start;
        while i < end
            invariant
                end <= len,
                len == data@.len(),
                start <= i <= end,
                crc == crc_over(data@, start as int, i as int, 0xFFFF),
            decreases end - i,
        {
            crc = Firmware::crc_update(crc, data[i]);
            i = i + 1;
        }
        crc
    }

    /// Verify CRC16 in firmware data: whether the checksum of the
    /// `length` bytes from `offset` is the one stored at `crc_offset`. A
    /// checksum that would lie outside the image never matches.
    pub fn verify_crc(&self, start: usize, offset: usize, length: usize, crc_offset: usize) -> (r:
        bool)
        ensures
            r == (crc_offset + 2 <= self.firmware.len() && crc_over(
                self.firmware@,
                offset as int,
                block_end(self.firmware.len() as int, offset as int, length as int),
                0xFFFF,
            ) == self.stored_crc(crc_offset as int)),
    {
        let len = self.firmware.len();
        if len < 2 || crc_offset > len - 2 {
            return false;
        }
        let stored_crc = (self.firmware[crc_offset] as u16) | ((self.firmware[crc_offset + 1] as u16)
            << 8);
        let calculated_crc = Firmware::create_crc(self.firmware.as_slice(), length, offset);
        calculated_crc == stored_crc
    }

    /// Get user data section
    pub fn get_user_data(&self) -> (r: i32)
        ensures
            r == self.user_data,
    {
        self.user_data
    }

    /// Set user data section
    pub fn set_user_data(&mut self, value: i32)
        ensures
            *final(self) == (Firmware { user_data: value, ..*old(self) }),
    {
        self.user_data = value;
    }
}

impl Default for Firmware {
    fn default() -> (r: Firmware)
        ensures
            r.wf(),
            r.is_new(),
    {
        Firmware::new()
    }
}

} // verus!
