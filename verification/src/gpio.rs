//! General-purpose I/O: register models for the two ports the board's
//! LEDs live on, type-state pins, and the LED handles built from them.
//!
//! A pin's configuration is carried in its type: only a pin reconfigured
//! into push-pull output can be wrapped as an LED, and the
//! reconfiguration's exact effect on the mode and output-type registers
//! is stated bit for bit.

use vstd::prelude::*;

verus! {

use core::marker::PhantomData;
use crate::rcc::Ahb;

/// Marker for GPIO port B.
pub struct PortB;

/// Marker for GPIO port E.
pub struct PortE;

/// Type-state marker: pin left in its after-reset input state.
pub struct Input;

/// Type-state marker: pin configured as an output of the given type.
pub struct Output<OTYPE> {
    pub otype: PhantomData<OTYPE>,
}

/// Type-state marker: push-pull output driver.
pub struct PushPull;

/// Opaque AFRL register: alternate functions of pins 0 to 7.
pub struct AFRL<GPIO> {
    pub bits: u32,
    pub port: PhantomData<GPIO>,
}

/// Opaque AFRH register: alternate functions of pins 8 to 15.
pub struct AFRH<GPIO> {
    pub bits: u32,
    pub port: PhantomData<GPIO>,
}

/// Opaque MODER register: two mode bits per pin.
pub struct MODER<GPIO> {
    pub bits: u32,
    pub port: PhantomData<GPIO>,
}

/// Opaque OTYPER register: one output-type bit per pin.
pub struct OTYPER<GPIO> {
    pub bits: u32,
    pub port: PhantomData<GPIO>,
}

/// Opaque PUPDR register: two pull-up/pull-down bits per pin.
pub struct PUPDR<GPIO> {
    pub bits: u32,
    pub port: PhantomData<GPIO>,
}

/// Pin 2 of port B, in mode `MODE`.
pub struct PB2<MODE> {
    pub mode: PhantomData<MODE>,
}

/// Pin 8 of port E, in mode `MODE`.
pub struct PE8<MODE> {
    pub mode: PhantomData<MODE>,
}

impl PB2<Input> {
    /// Reconfigure the pin as a push-pull output: its two mode bits go
    /// to the general-output code and its output-type bit is cleared;
    /// no other pin's bits change.
    pub fn into_push_pull_output(
        self,
        moder: &mut MODER<PortB>,
        otyper: &mut OTYPER<PortB>,
    ) -> (r: PB2<Output<PushPull>>)
        ensures
            final(moder).bits == (old(moder).bits & !(0b11u32 << 4)) | (0b01u32 << 4),
            final(otyper).bits == old(otyper).bits & !(1u32 << 2),
    {
        moder.bits = (moder.bits & !(0b11u32 << 4)) | (0b01u32 << 4);
        otyper.bits = otyper.bits & !(1u32 << 2);
        PB2 { mode: PhantomData }
    }
}

impl PE8<Input> {
    /// Reconfigure the pin as a push-pull output: its two mode bits go
    /// to the general-output code and its output-type bit is cleared;
    /// no other pin's bits change.
    pub fn into_push_pull_output(
        self,
        moder: &mut MODER<PortE>,
        otyper: &mut OTYPER<PortE>,
    ) -> (r: PE8<Output<PushPull>>)
        ensures
            final(moder).bits == (old(moder).bits & !(0b11u32 << 16)) | (0b01u32 << 16),
            final(otyper).bits == old(otyper).bits & !(1u32 << 8),
    {
        moder.bits = (moder.bits & !(0b11u32 << 16)) | (0b01u32 << 16);
        otyper.bits = otyper.bits & !(1u32 << 8);
        PE8 { mode: PhantomData }
    }
}

/// Port B: the pin used by this crate and the port's configuration
/// registers, obtained by enabling the port's clock gate.
pub struct B {
    pub pb2: PB2<Input>,
    pub moder: MODER<PortB>,
    pub otyper: OTYPER<PortB>,
}

impl B {
    /// Enable the port's clock gate and hand out its pins and registers
    /// with the register models zeroed.
    pub fn new(ahb: &mut Ahb) -> (r: B)
        ensures
            *final(ahb) == (Ahb { gpiob_enabled: true, ..*old(ahb) }),
            r.moder.bits == 0,
            r.otyper.bits == 0,
    {
        ahb.gpiob_enabled = true;
        B {
            pb2: PB2 { mode: PhantomData },
            moder: MODER { bits: 0, port: PhantomData },
            otyper: OTYPER { bits: 0, port: PhantomData },
        }
    }
}

/// Port E: the pin used by this crate and the port's configuration
/// registers, obtained by enabling the port's clock gate.
pub struct E {
    pub pe8: PE8<Input>,
    pub moder: MODER<PortE>,
    pub otyper: OTYPER<PortE>,
}

impl E {
    /// Enable the port's clock gate and hand out its pins and registers
    /// with the register models zeroed.
    pub fn new(ahb: &mut Ahb) -> (r: E)
        ensures
            *final(ahb) == (Ahb { gpioe_enabled: true, ..*old(ahb) }),
            r.moder.bits == 0,
            r.otyper.bits == 0,
    {
        ahb.gpioe_enabled = true;
        E {
            pe8: PE8 { mode: PhantomData },
            moder: MODER { bits: 0, port: PhantomData },
            otyper: OTYPER { bits: 0, port: PhantomData },
        }
    }
}

/// User LED with red color, on pin 2 of port B.
pub struct Led4 {
    pub pin: PB2<Output<PushPull>>,
}

impl Led4 {
    /// Wrap a pin already configured as a push-pull output.
    pub fn new(pin: PB2<Output<PushPull>>) -> (r: Led4) {
        Led4 { pin }
    }
}

/// User LED with green color, on pin 8 of port E.
pub struct Led5 {
    pub pin: PE8<Output<PushPull>>,
}

impl Led5 {
    /// Wrap a pin already configured as a push-pull output.
    pub fn new(pin: PE8<Output<PushPull>>) -> (r: Led5) {
        Led5 { pin }
    }
}

/// Retrieve both user LEDs: reconfigure their pins as push-pull outputs
/// in the ports' registers and wrap them. The pins' new configuration is
/// carried in the LED types; the ports' other registers are consumed
/// with the ports.
pub fn leds(gpio_b: B, gpio_e: E) -> (r: (Led4, Led5)) {
    let B { pb2, mut moder, mut otyper } = gpio_b;
    let led4 = pb2.into_push_pull_output(&mut moder, &mut otyper);
    let E { pe8, moder: mut moder_e, otyper: mut otyper_e } = gpio_e;
    let led5 = pe8.into_push_pull_output(&mut moder_e, &mut otyper_e);
    (Led4::new(led4), Led5::new(led5))
}

} // verus!
