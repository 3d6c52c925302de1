//! BIOS software interrupts.

use vstd::prelude::*;

verus! {

/// BIOS handler for software interrupts
#[derive(Debug, Clone, Copy)]
pub struct BIOS {}

/// The digit that stands for `d` in upper-case hexadecimal.
pub open spec fn hex_digit(d: int) -> char {
    if d < 10 {
        ('0' as u8 + d) as char
    } else {
        ('A' as u8 + d - 10) as char
    }
}

/// `n` in upper-case hexadecimal, without leading zeros but with at least
/// one digit.
pub open spec fn hex_upper(n: nat) -> Seq<char>
    decreases n,
{
    if n < 16 {
        seq![hex_digit(n as int)]
    } else {
        hex_upper(n / 16).push(hex_digit((n % 16) as int))
    }
}

/// `n` in upper-case hexadecimal with at least two digits.
pub open spec fn hex_byte(n: nat) -> Seq<char> {
    if n < 16 {
        seq!['0'] + hex_upper(n)
    } else {
        hex_upper(n)
    }
}

/// The highest software interrupt number that the BIOS knows.
pub const LAST_SWI: u32 = 0x1F;

/// The text of the error for a software interrupt that the ARM7 BIOS does
/// not know.
pub open spec fn unknown_swi7(swi_num: u32) -> Seq<char> {
    "Unknown ARM7 SWI: 0x"@ + hex_byte(swi_num as nat)
}

/// The text of the error for a software interrupt that the ARM9 BIOS does
/// not know.
pub open spec fn unknown_swi9(swi_num: u32) -> Seq<char> {
    "Unknown ARM9 SWI: 0x"@ + hex_byte(swi_num as nat)
}

/// Calls `format!` of std with a text and a number in the form `{:02X}`:
/// the result is the text followed by the number in upper-case
/// hexadecimal, with a leading zero where it has a single digit.
#[verifier::external_body]
fn with_hex(text: &str, value: u32) -> (r: String)
    ensures
        r@ == text@ + hex_byte(value as nat),
{
    format!("{}{:02X}", text, value)
}

impl BIOS {
    /// Create new BIOS handler
    pub fn new() -> (r: Self) {
        BIOS {  }
    }

    /// Handle ARM7 software interrupt: every interrupt from 0x00 to 0x1F
    /// is handled and gives zero; any other number is an error.
    pub fn swi7(&self, swi_num: u32) -> (r: Result<i32, String>)
        ensures
            swi_num <= LAST_SWI ==> r == Ok::<i32, String>(0),
            swi_num > LAST_SWI ==> r is Err && r->Err_0@ == unknown_swi7(swi_num),
    {
        if swi_num <= LAST_SWI {
            Ok(0)
        } else {
            Err(with_hex("Unknown ARM7 SWI: 0x", swi_num))
        }
    }

    /// Handle ARM9 software interrupt: every interrupt from 0x00 to 0x1F
    /// is handled and gives zero; any other number is an error.
    pub fn swi9(&self, swi_num: u32) -> (r: Result<i32, String>)
        ensures
            swi_num <= LAST_SWI ==> r == Ok::<i32, String>(0),
            swi_num > LAST_SWI ==> r is Err && r->Err_0@ == unknown_swi9(swi_num),
    {
        if swi_num <= LAST_SWI {
            Ok(0)
        } else {
            Err(with_hex("Unknown ARM9 SWI: 0x", swi_num))
        }
    }

    /// CRC16 lookup table: every entry of it is zero.
    pub fn crc16_table(index: u16) -> (r: u16)
        ensures
            r == 0,
    {
        0
    }

    /// CRC16 calculation. The table of this BIOS holds zero in every
    /// entry, so that each byte only shifts the register, which starts at
    /// zero, left by eight bits: the checksum of any data is zero.
    pub fn crc16(data: &[u8]) -> (r: u16)
        ensures
            r == 0,
    {
        let mut crc: u16 = 0;
        let mut i: usize = 0;
        while i < data.len()
            invariant
                i <= data@.len(),
                crc == 0,
            decreases data@.len() - i,
        {
            let entry = BIOS::crc16_table(((crc >> 8) ^ (data[i] as u16)) & 0xFF);
            assert((0u16 << 8) ^ 0u16 == 0u16) by (bit_vector);
            crc = (crc << 8) ^ entry;
            i = i + 1;
        }
        crc
    }
}

impl Default for BIOS {
    fn default() -> (r: BIOS) {
        BIOS::new()
    }
}

} // verus!
