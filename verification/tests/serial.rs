use stm32l4x6_hal::dma::{Channel, Half};
use stm32l4x6_hal::rcc::{Apb, Ccipr, UsartClkSource};
use stm32l4x6_hal::serial::{
    Bps, Error, Event, NbError, RxPin, Serial, TxPin, Usart, Usart2,
};

struct TxP;
struct RxP;

impl TxPin<Usart2> for TxP {}

impl RxPin<Usart2> for RxP {}

fn fresh_apb() -> Apb {
    Apb { usart_enabled: false }
}

fn fresh_ccipr() -> Ccipr {
    Ccipr { usart_sel: 0xff }
}

fn configured_serial(clock: UsartClkSource, baud: u32) -> Serial<Usart2, (TxP, RxP)> {
    let usart = Usart::at_reset(0x4000_4424, 0x4000_4428);
    Serial::new(usart, (TxP, RxP), Bps(baud), clock, &mut fresh_apb(), &mut fresh_ccipr())
}

#[test]
fn new_programs_8n1_and_exact_divisor() {
    let usart = Usart::at_reset(0x4000_4424, 0x4000_4428);
    let mut apb = fresh_apb();
    let mut ccipr = fresh_ccipr();
    let serial = Serial::<Usart2, _>::new(
        usart,
        (TxP, RxP),
        Bps(115_200),
        UsartClkSource::Pclk(80_000_000),
        &mut apb,
        &mut ccipr,
    );
    assert!(apb.usart_enabled);
    assert_eq!(ccipr.usart_sel, 0b00);
    let u = &serial.usart;
    assert!(u.enabled && u.tx_enabled && u.rx_enabled);
    assert!(!u.word_m1 && !u.word_m0 && !u.parity_enabled && !u.oversample8);
    assert_eq!(u.stop_bits, 0);
    assert!(!u.lin_enabled && !u.clock_enabled);
    assert!(!u.rts_enabled && !u.cts_enabled);
    assert!(!u.smartcard_enabled && !u.half_duplex && !u.irda_enabled);
    // 80 MHz / 115200 baud, truncated.
    assert_eq!(u.baud_divisor, 694);
    assert!(u.tx_ack && u.rx_ack);
}

#[test]
fn new_selects_the_low_speed_oscillator_code() {
    let mut apb = fresh_apb();
    let mut ccipr = fresh_ccipr();
    let usart = Usart::at_reset(0, 0);
    let serial = Serial::<Usart2, _>::new(
        usart,
        (TxP, RxP),
        Bps(1200),
        UsartClkSource::Lse,
        &mut apb,
        &mut ccipr,
    );
    assert_eq!(ccipr.usart_sel, 0b11);
    // 32768 Hz / 1200 baud.
    assert_eq!(serial.usart.baud_divisor, 27);
}

#[test]
fn serial_listen_and_unlisten_flip_only_the_event_bit() {
    let mut serial = configured_serial(UsartClkSource::Sysclk(16_000_000), 9600);
    serial.listen(Event::Rxne);
    serial.listen(Event::Idle);
    assert!(serial.usart.rxne_irq && !serial.usart.txe_irq && serial.usart.idle_irq);
    serial.unlisten(Event::Rxne);
    assert!(!serial.usart.rxne_irq && serial.usart.idle_irq);
}

#[test]
fn free_returns_peripheral_and_pins() {
    let serial = configured_serial(UsartClkSource::Hsi16(16_000_000), 9600);
    let (usart, _pins) = serial.free();
    assert!(usart.enabled);
    assert_eq!(ccipr_code(), 0b10);
}

fn ccipr_code() -> u8 {
    let mut ccipr = fresh_ccipr();
    let usart = Usart::at_reset(0, 0);
    let _ = Serial::<Usart2, _>::new(
        usart,
        (TxP, RxP),
        Bps(9600),
        UsartClkSource::Hsi16(16_000_000),
        &mut fresh_apb(),
        &mut ccipr,
    );
    ccipr.usart_sel
}

#[test]
fn read_reports_errors_in_priority_order() {
    let serial = configured_serial(UsartClkSource::Pclk(16_000_000), 9600);
    let (_tx, mut rx, mut usart) = serial.split();

    usart.parity_error = true;
    usart.framing_error = true;
    assert_eq!(rx.read(&mut usart), Err(NbError::Other(Error::Parity)));
    usart.parity_error = false;
    assert_eq!(rx.read(&mut usart), Err(NbError::Other(Error::Framing)));
    usart.framing_error = false;
    usart.noise_error = true;
    assert_eq!(rx.read(&mut usart), Err(NbError::Other(Error::Noise)));
    usart.noise_error = false;
    usart.overrun_error = true;
    assert_eq!(rx.read(&mut usart), Err(NbError::Other(Error::Overrun)));
    usart.overrun_error = false;
    assert_eq!(rx.read(&mut usart), Err(NbError::WouldBlock));
}

#[test]
fn read_takes_the_received_byte_once() {
    let serial = configured_serial(UsartClkSource::Pclk(16_000_000), 9600);
    let (_tx, mut rx, mut usart) = serial.split();
    usart.line_receive(0xA5);
    assert_eq!(rx.read(&mut usart), Ok(0xA5));
    assert_eq!(rx.read(&mut usart), Err(NbError::WouldBlock));
}

#[test]
fn unread_byte_plus_new_arrival_is_an_overrun() {
    let mut usart = Usart::at_reset(0, 0);
    usart.line_receive(1);
    usart.line_receive(2);
    assert!(usart.overrun_error);
    // The first byte is kept, as the hardware keeps it.
    assert_eq!(usart.rdr, 1);
}

#[test]
fn write_fills_the_register_then_blocks() {
    let serial = configured_serial(UsartClkSource::Pclk(16_000_000), 9600);
    let (mut tx, _rx, mut usart) = serial.split();
    assert_eq!(tx.write(&mut usart, 0x5A), Ok(()));
    assert_eq!(usart.tdr, 0x5A);
    assert!(!usart.txe && !usart.tc);
    assert_eq!(tx.write(&mut usart, 0x01), Err(NbError::WouldBlock));
    assert_eq!(tx.flush(&usart), Err(NbError::WouldBlock));
    // The hardware finishes shifting the byte out.
    usart.txe = true;
    usart.tc = true;
    assert_eq!(tx.flush(&usart), Ok(()));
}

#[test]
fn circ_read_arms_a_circular_capture_on_the_receive_register() {
    let serial = configured_serial(UsartClkSource::Pclk(16_000_000), 9600);
    let (_tx, rx, mut usart) = serial.split();
    let chan = Channel::reset();
    let cb = rx.circ_read(chan, vec![0u8; 10], vec![0u8; 10], &mut usart);
    assert!(usart.dma_rx_enabled);
    let ch = &cb.channel;
    assert!(ch.enabled && ch.circular && !ch.mem_to_periph && !ch.mem2mem);
    assert!(ch.mem_increment && !ch.periph_increment);
    assert_eq!((ch.mem_size, ch.periph_size, ch.priority), (0, 0, 0b10));
    assert_eq!(ch.count, 20);
    assert_eq!(ch.periph_addr, usart.rdr_addr);
    assert_eq!(cb.readable_half, Half::Second);
    assert_eq!(cb.consumed_offset, 0);
}

#[test]
fn read_exact_arms_a_one_shot_capture() {
    let serial = configured_serial(UsartClkSource::Pclk(16_000_000), 9600);
    let (_tx, rx, mut usart) = serial.split();
    let t = rx.read_exact(Channel::reset(), vec![0u8; 8], &mut usart);
    assert!(usart.dma_rx_enabled);
    assert!(t.channel.enabled && !t.channel.circular && !t.channel.mem_to_periph);
    assert_eq!(t.channel.count, 8);
    assert_eq!(t.channel.priority, 0b10);
    assert_eq!(t.channel.periph_addr, usart.rdr_addr);
    assert_eq!(t.buffer.len(), 8);
}

#[test]
fn write_all_arms_a_one_shot_transmission() {
    let serial = configured_serial(UsartClkSource::Pclk(16_000_000), 9600);
    let (tx, _rx, mut usart) = serial.split();
    let data: Vec<u8> = b"hello".to_vec();
    let t = tx.write_all(Channel::reset(), data.clone(), &mut usart);
    assert!(usart.dma_tx_enabled && !usart.dma_rx_enabled);
    assert!(t.channel.enabled && !t.channel.circular && t.channel.mem_to_periph);
    assert!(t.channel.mem_increment && !t.channel.periph_increment);
    assert_eq!(t.channel.count, 5);
    assert_eq!(t.channel.priority, 0b01);
    assert_eq!(t.channel.periph_addr, usart.tdr_addr);
    assert_eq!(t.buffer(), &data);
}

#[test]
fn armed_transmission_completes_through_the_engine() {
    let serial = configured_serial(UsartClkSource::Pclk(16_000_000), 9600);
    let (tx, _rx, mut usart) = serial.split();
    let data: Vec<u8> = vec![1, 2, 3, 4];
    let mut t = tx.write_all(Channel::reset(), data.clone(), &mut usart);
    assert!(!t.is_done());
    t.channel.engine_transfer(4);
    assert!(t.is_done());
    let (buf, chan, _tx) = t.wait();
    assert_eq!(buf, data);
    assert!(!chan.enabled);
}
