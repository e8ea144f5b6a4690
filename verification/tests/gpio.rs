use stm32l4x6_hal::gpio::{leds, B, E};
use stm32l4x6_hal::rcc::Ahb;

fn fresh_ahb() -> Ahb {
    Ahb { dma1_enabled: false, dma2_enabled: false, gpiob_enabled: false, gpioe_enabled: false }
}

#[test]
fn ports_enable_their_clock_gates() {
    let mut ahb = fresh_ahb();
    let _b = B::new(&mut ahb);
    assert!(ahb.gpiob_enabled && !ahb.gpioe_enabled);
    let _e = E::new(&mut ahb);
    assert!(ahb.gpiob_enabled && ahb.gpioe_enabled);
}

#[test]
fn push_pull_output_sets_exactly_the_pin_mode_bits() {
    let mut ahb = fresh_ahb();
    let B { pb2, mut moder, mut otyper } = B::new(&mut ahb);
    otyper.bits = 1 << 2;
    let _pin = pb2.into_push_pull_output(&mut moder, &mut otyper);
    // Pin 2: mode field (bits 5..4) becomes the output code 01, the
    // output-type bit 2 is cleared.
    assert_eq!(moder.bits, 0b01 << 4);
    assert_eq!(otyper.bits, 0);

    let E { pe8, mut moder, mut otyper } = E::new(&mut ahb);
    moder.bits = 0b11 << 16;
    let _pin = pe8.into_push_pull_output(&mut moder, &mut otyper);
    assert_eq!(moder.bits, 0b01 << 16);
    assert_eq!(otyper.bits, 0);
}

#[test]
fn leds_builds_both_handles() {
    let mut ahb = fresh_ahb();
    let b = B::new(&mut ahb);
    let e = E::new(&mut ahb);
    let (_led4, _led5) = leds(b, e);
}
