//! Interrupt sources and the interrupt registers.

use vstd::prelude::*;

verus! {

/// Interrupt sources used by the system
#[derive(Debug, Clone, Copy, PartialEq, Eq, Structural)]
pub enum Interrupt {
    VBlank,
    HBlank,
    VCountMatch,
    Timer0,
    Timer1,
    Timer2,
    Timer3,
    RTC,
    DMA0,
    DMA1,
    DMA2,
    DMA3,
    Keypad,
    GBASlot,
    IPCSync,
    IPCFifoEmpty,
    IPCFifoNEmpty,
    CartTransfer,
    CartIReqMc,
    GeometryFifo,
    UnfoldScreen,
    SPI,
    WiFi,
}

impl Interrupt {
    /// The bit of the interrupt registers that stands for the source.
    pub open spec fn bit(self) -> u32 {
        match self {
            Interrupt::VBlank => 0,
            Interrupt::HBlank => 1,
            Interrupt::VCountMatch => 2,
            Interrupt::Timer0 => 3,
            Interrupt::Timer1 => 4,
            Interrupt::Timer2 => 5,
            Interrupt::Timer3 => 6,
            Interrupt::RTC => 7,
            Interrupt::DMA0 => 8,
            Interrupt::DMA1 => 9,
            Interrupt::DMA2 => 10,
            Interrupt::DMA3 => 11,
            Interrupt::Keypad => 12,
            Interrupt::GBASlot => 13,
            Interrupt::IPCSync => 16,
            Interrupt::IPCFifoEmpty => 17,
            Interrupt::IPCFifoNEmpty => 18,
            Interrupt::CartTransfer => 19,
            Interrupt::CartIReqMc => 20,
            Interrupt::GeometryFifo => 21,
            Interrupt::UnfoldScreen => 22,
            Interrupt::SPI => 23,
            Interrupt::WiFi => 24,
        }
    }
}

impl From<Interrupt> for u32 {
    fn from(i: Interrupt) -> (r: u32) {
        match i {
            Interrupt::VBlank => 0,
            Interrupt::HBlank => 1,
            Interrupt::VCountMatch => 2,
            Interrupt::Timer0 => 3,
            Interrupt::Timer1 => 4,
            Interrupt::Timer2 => 5,
            Interrupt::Timer3 => 6,
            Interrupt::RTC => 7,
            Interrupt::DMA0 => 8,
            Interrupt::DMA1 => 9,
            Interrupt::DMA2 => 10,
            Interrupt::DMA3 => 11,
            Interrupt::Keypad => 12,
            Interrupt::GBASlot => 13,
            Interrupt::IPCSync => 16,
            Interrupt::IPCFifoEmpty => 17,
            Interrupt::IPCFifoNEmpty => 18,
            Interrupt::CartTransfer => 19,
            Interrupt::CartIReqMc => 20,
            Interrupt::GeometryFifo => 21,
            Interrupt::UnfoldScreen => 22,
            Interrupt::SPI => 23,
            Interrupt::WiFi => 24,
        }
    }
}

impl vstd::std_specs::convert::FromSpecImpl<Interrupt> for u32 {
    open spec fn obeys_from_spec() -> bool {
        true
    }

    open spec fn from_spec(i: Interrupt) -> u32 {
        i.bit()
    }
}

/// Interrupt register block
#[derive(Debug, Clone, Copy)]
pub struct InterruptRegs {
    /// Interrupt Master Enable (IME)
    pub ime: u32,
    /// Interrupt Enable (IE) bitmask
    pub ie: u32,
    /// Interrupt Flags (IF) bitmask
    pub iflags: u32,
}

impl InterruptRegs {
    /// Check whether a given interrupt (bit mask) is requesting service
    /// Returns true if enabled and flagged
    pub fn is_requesting_int(&self, bit_mask: u32) -> (r: bool)
        ensures
            r == ((self.ie & bit_mask) != 0 && (self.iflags & bit_mask) != 0),
    {
        (self.ie & bit_mask) != 0 && (self.iflags & bit_mask) != 0
    }
}

impl Default for InterruptRegs {
    fn default() -> (r: InterruptRegs)
        ensures
            r.ime == 0 && r.ie == 0 && r.iflags == 0,
    {
        InterruptRegs { ime: 0, ie: 0, iflags: 0 }
    }
}

} // verus!
