//! Reset-and-clock-control handles: the register fields other components
//! need to gate their peripheral's clock on, modelled as plain state.

use vstd::prelude::*;

verus! {

/// The AHB clock-gate register bits consumed by this crate: one enable
/// bit per transfer block and per GPIO port in use.
pub struct Ahb {
    pub dma1_enabled: bool,
    pub dma2_enabled: bool,
    pub gpiob_enabled: bool,
    pub gpioe_enabled: bool,
}

/// The APB clock-gate bit for one serial peripheral instance: the
/// per-instance view of the shared enable register.
pub struct Apb {
    pub usart_enabled: bool,
}

/// The peripheral-clock-selection field for one serial peripheral
/// instance: the per-instance view of the shared selection register.
pub struct Ccipr {
    pub usart_sel: u8,
}

/// The clock source a serial peripheral is driven from; the variants
/// carry the source's frequency in hertz where it is configurable.
pub enum UsartClkSource {
    Pclk(u32),
    Sysclk(u32),
    Hsi16(u32),
    Lse,
}

impl UsartClkSource {
    /// The frequency, in hertz, of the selected clock source; the
    /// low-speed external oscillator is fixed at 32768 Hz.
    pub open spec fn spec_freq(self) -> u32 {
        match self {
            UsartClkSource::Pclk(f) => f,
            UsartClkSource::Sysclk(f) => f,
            UsartClkSource::Hsi16(f) => f,
            UsartClkSource::Lse => 32768,
        }
    }

    /// The selection code written to the clock-selection field for this
    /// source.
    pub open spec fn spec_sel_bits(self) -> u8 {
        match self {
            UsartClkSource::Pclk(_) => 0b00,
            UsartClkSource::Sysclk(_) => 0b01,
            UsartClkSource::Hsi16(_) => 0b10,
            UsartClkSource::Lse => 0b11,
        }
    }

    /// The frequency, in hertz, of the selected clock source.
    pub fn freq(&self) -> (r: u32)
        ensures
            r == self.spec_freq(),
    {
        match self {
            UsartClkSource::Pclk(f) => *f,
            UsartClkSource::Sysclk(f) => *f,
            UsartClkSource::Hsi16(f) => *f,
            UsartClkSource::Lse => 32768,
        }
    }

    /// The selection code for this source.
    pub fn sel_bits(&self) -> (r: u8)
        ensures
            r == self.spec_sel_bits(),
    {
        match self {
            UsartClkSource::Pclk(_) => 0b00,
            UsartClkSource::Sysclk(_) => 0b01,
            UsartClkSource::Hsi16(_) => 0b10,
            UsartClkSource::Lse => 0b11,
        }
    }
}

} // verus!
