//! Serial (USART) peripheral: register-level model, configuration, and
//! the entry points that arm bulk transfers on its data registers.
//!
//! [`Usart`] models the control, status and data registers the driver
//! reads and writes. [`Serial::new`] proves the 8N1 configuration
//! sequence; [`Rx::circ_read`], [`Rx::read_exact`] and [`Tx::write_all`]
//! arm a channel on the receive or transmit data register and hand back
//! the owning wrapper.

use vstd::prelude::*;

verus! {

use core::marker::PhantomData;
use crate::dma::{Channel, ChannelConfig, CircBuffer, Half, Transfer, R, W, ordering_fence};
use crate::rcc::{Apb, Ccipr, UsartClkSource};

/// Baud rate in bits per second.
#[derive(Debug, PartialEq, Eq, Structural, Clone, Copy)]
pub struct Bps(pub u32);

/// Interrupt event a serial peripheral can signal.
#[derive(Debug, PartialEq, Eq, Structural, Clone, Copy)]
pub enum Event {
    /// New data has been received.
    Rxne,
    /// New data can be sent.
    Txe,
    /// The line has gone idle.
    Idle,
}

/// Serial reception error.
#[derive(Debug, PartialEq, Eq, Structural, Clone, Copy)]
pub enum Error {
    /// Framing error.
    Framing,
    /// Noise error.
    Noise,
    /// Receive buffer overrun.
    Overrun,
    /// Parity check error.
    Parity,
}

/// Outcome of a non-blocking serial operation that could not complete:
/// either nothing is ready yet, or the hardware reported a reception
/// error.
#[derive(Debug, PartialEq, Eq, Structural, Clone, Copy)]
pub enum NbError {
    /// No data or room is available yet; try again later.
    WouldBlock,
    /// The hardware reported an error.
    Other(Error),
}

/// Marker for the first USART instance.
pub struct Usart1;

/// Marker for the second USART instance.
pub struct Usart2;

/// Marker for the third USART instance.
pub struct Usart3;

/// Marker for the fourth (UART-only) instance.
pub struct Uart4;

/// Marker for the fifth (UART-only) instance.
pub struct Uart5;

/// Capability marker: the implementing pin is a legal transmit endpoint
/// for the `USART` instance. Consumed at construction time only.
pub trait TxPin<USART> {

}

/// Capability marker: the implementing pin is a legal receive endpoint
/// for the `USART` instance. Consumed at construction time only.
pub trait RxPin<USART> {

}

/// Register-level model of one serial peripheral: the control bits the
/// driver programs, the status bits the hardware raises, and the two
/// data registers with their bus addresses.
pub struct Usart {
    /// Control: peripheral enable bit.
    pub enabled: bool,
    /// Control: upper word-length bit.
    pub word_m1: bool,
    /// Control: lower word-length bit.
    pub word_m0: bool,
    /// Control: parity control enable.
    pub parity_enabled: bool,
    /// Control: transmitter enable.
    pub tx_enabled: bool,
    /// Control: receiver enable.
    pub rx_enabled: bool,
    /// Control: 8x oversampling (16x when clear).
    pub oversample8: bool,
    /// Control: interrupt enable for received data.
    pub rxne_irq: bool,
    /// Control: interrupt enable for transmit-register-empty.
    pub txe_irq: bool,
    /// Control: interrupt enable for idle line.
    pub idle_irq: bool,
    /// Control: stop-bit field code.
    pub stop_bits: u8,
    /// Control: LIN mode enable.
    pub lin_enabled: bool,
    /// Control: synchronous clock output enable.
    pub clock_enabled: bool,
    /// Control: request-to-send hardware flow control.
    pub rts_enabled: bool,
    /// Control: clear-to-send hardware flow control.
    pub cts_enabled: bool,
    /// Control: smartcard mode enable.
    pub smartcard_enabled: bool,
    /// Control: single-wire half-duplex mode.
    pub half_duplex: bool,
    /// Control: IrDA mode enable.
    pub irda_enabled: bool,
    /// Control: receive-side bulk-transfer requests enable.
    pub dma_rx_enabled: bool,
    /// Control: transmit-side bulk-transfer requests enable.
    pub dma_tx_enabled: bool,
    /// Baud-rate register: the programmed clock divisor.
    pub baud_divisor: u32,
    /// Status, hardware-set: transmitter-enable acknowledged.
    pub tx_ack: bool,
    /// Status, hardware-set: receiver-enable acknowledged.
    pub rx_ack: bool,
    /// Status, hardware-set: transmit data register empty.
    pub txe: bool,
    /// Status, hardware-set: transmission complete.
    pub tc: bool,
    /// Status, hardware-set: receive data register not empty.
    pub rxne: bool,
    /// Status, hardware-set: parity check failed.
    pub parity_error: bool,
    /// Status, hardware-set: framing error.
    pub framing_error: bool,
    /// Status, hardware-set: noise detected.
    pub noise_error: bool,
    /// Status, hardware-set: receive register overrun.
    pub overrun_error: bool,
    /// Receive data register.
    pub rdr: u8,
    /// Transmit data register.
    pub tdr: u8,
    /// Bus address of the receive data register: the peripheral-side
    /// endpoint a receive transfer is pointed at.
    pub rdr_addr: u32,
    /// Bus address of the transmit data register: the peripheral-side
    /// endpoint a transmit transfer is pointed at.
    pub tdr_addr: u32,
}

impl Usart {
    /// A peripheral in its after-reset state, located at the two given
    /// data-register addresses: everything disabled, the transmit
    /// register empty.
    pub fn at_reset(rdr_addr: u32, tdr_addr: u32) -> (u: Usart)
        ensures
            u == (Usart {
                enabled: false,
                word_m1: false,
                word_m0: false,
                parity_enabled: false,
                tx_enabled: false,
                rx_enabled: false,
                oversample8: false,
                rxne_irq: false,
                txe_irq: false,
                idle_irq: false,
                stop_bits: 0,
                lin_enabled: false,
                clock_enabled: false,
                rts_enabled: false,
                cts_enabled: false,
                smartcard_enabled: false,
                half_duplex: false,
                irda_enabled: false,
                dma_rx_enabled: false,
                dma_tx_enabled: false,
                baud_divisor: 0,
                tx_ack: false,
                rx_ack: false,
                txe: true,
                tc: true,
                rxne: false,
                parity_error: false,
                framing_error: false,
                noise_error: false,
                overrun_error: false,
                rdr: 0,
                tdr: 0,
                rdr_addr,
                tdr_addr,
            }),
    {
        Usart {
            enabled: false,
            word_m1: false,
            word_m0: false,
            parity_enabled: false,
            tx_enabled: false,
            rx_enabled: false,
            oversample8: false,
            rxne_irq: false,
            txe_irq: false,
            idle_irq: false,
            stop_bits: 0,
            lin_enabled: false,
            clock_enabled: false,
            rts_enabled: false,
            cts_enabled: false,
            smartcard_enabled: false,
            half_duplex: false,
            irda_enabled: false,
            dma_rx_enabled: false,
            dma_tx_enabled: false,
            baud_divisor: 0,
            tx_ack: false,
            rx_ack: false,
            txe: true,
            tc: true,
            rxne: false,
            parity_error: false,
            framing_error: false,
            noise_error: false,
            overrun_error: false,
            rdr: 0,
            tdr: 0,
            rdr_addr,
            tdr_addr,
        }
    }

    /// Hardware side of the model: a byte arrives on the line. The
    /// receive register takes it; if the previous byte was never read
    /// the overrun flag is raised instead, and the old byte is kept, as
    /// the hardware keeps it.
    pub fn line_receive(&mut self, byte: u8)
        ensures
            *final(self) == (if old(self).rxne {
                Usart { overrun_error: true, ..*old(self) }
            } else {
                Usart { rxne: true, rdr: byte, ..*old(self) }
            }),
    {
        if self.rxne {
            self.overrun_error = true;
        } else {
            self.rxne = true;
            self.rdr = byte;
        }
    }
}

/// Serial abstraction over one peripheral instance and the pin pair it
/// was proven against.
pub struct Serial<INSTANCE, PINS> {
    pub usart: Usart,
    pub pins: PINS,
    pub instance: PhantomData<INSTANCE>,
}

/// Receiver half of a split serial port.
pub struct Rx<INSTANCE> {
    pub instance: PhantomData<INSTANCE>,
}

/// Transmitter half of a split serial port.
pub struct Tx<INSTANCE> {
    pub instance: PhantomData<INSTANCE>,
}

impl<INSTANCE, TX, RX> Serial<INSTANCE, (TX, RX)> {
    /// Configure the peripheral for 8N1 asynchronous operation with 16x
    /// oversampling: select and record the clock source, enable the
    /// peripheral clock, program word length, parity, stop bits and the
    /// baud divisor with the peripheral disabled, keep the modes that
    /// asynchronous operation forbids cleared, then enable it. The
    /// legality condition on the divisor — the selected clock frequency
    /// divided by the baud rate must be at least 16 — is a hardware
    /// constraint on the baud-rate register.
    pub fn new(
        usart: Usart,
        pins: (TX, RX),
        baud_rate: Bps,
        clock: UsartClkSource,
        apb: &mut Apb,
        ccipr: &mut Ccipr,
    ) -> (s: Serial<INSTANCE, (TX, RX)>) where TX: TxPin<INSTANCE>, RX: RxPin<INSTANCE>
        requires
            baud_rate.0 > 0,
            clock.spec_freq() / baud_rate.0 >= 16,
        ensures
            *final(ccipr) == (Ccipr { usart_sel: clock.spec_sel_bits() }),
            *final(apb) == (Apb { usart_enabled: true }),
            s.pins == pins,
            s.usart == (Usart {
                enabled: true,
                word_m1: false,
                word_m0: false,
                parity_enabled: false,
                tx_enabled: true,
                rx_enabled: true,
                oversample8: false,
                stop_bits: 0,
                lin_enabled: false,
                clock_enabled: false,
                rts_enabled: false,
                cts_enabled: false,
                smartcard_enabled: false,
                half_duplex: false,
                irda_enabled: false,
                baud_divisor: clock.spec_freq() / baud_rate.0,
                tx_ack: true,
                rx_ack: true,
                ..usart
            }),
    {
        ccipr.usart_sel = clock.sel_bits();
        apb.usart_enabled = true;

        let brr: u32 = clock.freq() / baud_rate.0;

        // One combined configuration of the control and baud registers,
        // legal because the bits are written while the peripheral is
        // held disabled: 8-bit words, parity off, both directions on,
        // 16x oversampling, one stop bit, no hardware flow control, and
        // the modes asynchronous operation forbids all off. Enabling
        // last makes the hardware acknowledge the enabled directions.
        let usart = Usart {
            enabled: true,
            word_m1: false,
            word_m0: false,
            parity_enabled: false,
            tx_enabled: true,
            rx_enabled: true,
            oversample8: false,
            stop_bits: 0,
            lin_enabled: false,
            clock_enabled: false,
            rts_enabled: false,
            cts_enabled: false,
            smartcard_enabled: false,
            half_duplex: false,
            irda_enabled: false,
            baud_divisor: brr,
            tx_ack: true,
            rx_ack: true,
            ..usart
        };

        Serial { usart, pins, instance: PhantomData }
    }

    /// Start listening for an interrupt event.
    #[verifier::rlimit(30)]
    #[verifier::spinoff_prover]
    pub fn listen(&mut self, event: Event)
        ensures
            final(self).pins == old(self).pins,
            final(self).usart == (Usart {
                rxne_irq: if event == Event::Rxne { true } else { old(self).usart.rxne_irq },
                txe_irq: if event == Event::Txe { true } else { old(self).usart.txe_irq },
                idle_irq: if event == Event::Idle { true } else { old(self).usart.idle_irq },
                ..old(self).usart
            }),
    {
        match event {
            Event::Rxne => self.usart.rxne_irq = true,
            Event::Txe => self.usart.txe_irq = true,
            Event::Idle => self.usart.idle_irq = true,
        }
    }

    /// Stop listening for an interrupt event.
    #[verifier::rlimit(30)]
    #[verifier::spinoff_prover]
    pub fn unlisten(&mut self, event: Event)
        ensures
            final(self).pins == old(self).pins,
            final(self).usart == (Usart {
                rxne_irq: if event == Event::Rxne { false } else { old(self).usart.rxne_irq },
                txe_irq: if event == Event::Txe { false } else { old(self).usart.txe_irq },
                idle_irq: if event == Event::Idle { false } else { old(self).usart.idle_irq },
                ..old(self).usart
            }),
    {
        match event {
            Event::Rxne => self.usart.rxne_irq = false,
            Event::Txe => self.usart.txe_irq = false,
            Event::Idle => self.usart.idle_irq = false,
        }
    }

    /// Split the port into its transmitter and receiver halves; the
    /// register block is handed back alongside, since both halves poll
    /// it per call. The pins stay consumed, as they are when the whole
    /// port is consumed.
    pub fn split(self) -> (out: (Tx<INSTANCE>, Rx<INSTANCE>, Usart))
        ensures
            out.2 == self.usart,
    {
        (Tx { instance: PhantomData }, Rx { instance: PhantomData }, self.usart)
    }

    /// Release the peripheral and the pins.
    pub fn free(self) -> (out: (Usart, (TX, RX)))
        ensures
            out.0 == self.usart,
            out.1 == self.pins,
    {
        (self.usart, self.pins)
    }
}

/// What one non-blocking read returns for a given register snapshot:
/// reception errors are reported first, in the hardware's priority
/// order; then a pending byte is taken; otherwise the caller must try
/// again.
pub open spec fn read_outcome(u: Usart) -> Result<u8, NbError> {
    if u.parity_error {
        Err(NbError::Other(Error::Parity))
    } else if u.framing_error {
        Err(NbError::Other(Error::Framing))
    } else if u.noise_error {
        Err(NbError::Other(Error::Noise))
    } else if u.overrun_error {
        Err(NbError::Other(Error::Overrun))
    } else if u.rxne {
        Ok(u.rdr)
    } else {
        Err(NbError::WouldBlock)
    }
}

impl<INSTANCE> Rx<INSTANCE> {
    /// Non-blocking read of one received byte, per [`read_outcome`];
    /// taking a byte empties the receive register, as reading the
    /// hardware register does.
    pub fn read(&mut self, usart: &mut Usart) -> (res: Result<u8, NbError>)
        ensures
            res == read_outcome(*old(usart)),
            *final(usart) == (if read_outcome(*old(usart)) is Ok {
                Usart { rxne: false, ..*old(usart) }
            } else {
                *old(usart)
            }),
    {
        if usart.parity_error {
            Err(NbError::Other(Error::Parity))
        } else if usart.framing_error {
            Err(NbError::Other(Error::Framing))
        } else if usart.noise_error {
            Err(NbError::Other(Error::Noise))
        } else if usart.overrun_error {
            Err(NbError::Other(Error::Overrun))
        } else if usart.rxne {
            usart.rxne = false;
            Ok(usart.rdr)
        } else {
            Err(NbError::WouldBlock)
        }
    }

    /// Arm a continuous capture of the receive data register into a
    /// two-half buffer: program the count register with the whole
    /// two-half length, point the channel at the receive register,
    /// enable receive-side transfer requests, fence so buffer accesses
    /// are not reordered past the arming write, then set the channel
    /// circular, memory-incrementing, peripheral-to-memory, high
    /// priority and enabled. The memory endpoint is bound by ownership
    /// of the halves; its address register is the unverified shell's
    /// business.
    pub fn circ_read(
        self,
        chan: Channel,
        first_half: Vec<u8>,
        second_half: Vec<u8>,
        usart: &mut Usart,
    ) -> (cb: CircBuffer)
        requires
            !chan.enabled,
            second_half@.len() == first_half@.len(),
            first_half@.len() * 2 <= u16::MAX,
        ensures
            *final(usart) == (Usart { dma_rx_enabled: true, ..*old(usart) }),
            cb == (CircBuffer {
                first_half,
                second_half,
                channel: Channel {
                    enabled: true,
                    circular: true,
                    mem_to_periph: false,
                    mem2mem: false,
                    mem_increment: true,
                    periph_increment: false,
                    mem_size: 0,
                    periph_size: 0,
                    priority: 0b10,
                    count: (first_half@.len() * 2) as u16,
                    reload: (first_half@.len() * 2) as u16,
                    periph_addr: old(usart).rdr_addr,
                    ..chan
                },
                readable_half: Half::Second,
                consumed_offset: 0,
            }),
            cb.wf(),
    {
        let mut chan = chan;
        let len: usize = first_half.len();
        chan.set_count((len * 2) as u16);
        chan.set_periph_addr(usart.rdr_addr);

        // Let the peripheral raise transfer requests on received data.
        usart.dma_rx_enabled = true;

        // Accesses to the buffer must not be reordered after the arming
        // write below.
        ordering_fence();

        chan.apply_config(ChannelConfig {
            mem2mem: false,
            priority: 0b10,
            mem_size: 0,
            periph_size: 0,
            mem_increment: true,
            periph_increment: false,
            circular: true,
            mem_to_periph: false,
            enable: true,
        });

        CircBuffer::new(first_half, second_half, chan)
    }

    /// Arm a one-shot capture of exactly the buffer's length from the
    /// receive data register, with the same sequence as a continuous
    /// capture but in non-circular mode, and wrap it with this receiver
    /// as the lent payload.
    pub fn read_exact(self, chan: Channel, buffer: Vec<u8>, usart: &mut Usart) -> (t: Transfer<
        W,
        Rx<INSTANCE>,
    >)
        requires
            !chan.enabled,
            buffer@.len() <= u16::MAX,
        ensures
            *final(usart) == (Usart { dma_rx_enabled: true, ..*old(usart) }),
            t.buffer == buffer,
            t.payload == self,
            t.channel == (Channel {
                enabled: true,
                circular: false,
                mem_to_periph: false,
                mem2mem: false,
                mem_increment: true,
                periph_increment: false,
                mem_size: 0,
                periph_size: 0,
                priority: 0b10,
                count: buffer@.len() as u16,
                reload: buffer@.len() as u16,
                periph_addr: old(usart).rdr_addr,
                ..chan
            }),
    {
        let mut chan = chan;
        let len: usize = buffer.len();
        chan.set_count(len as u16);
        chan.set_periph_addr(usart.rdr_addr);

        usart.dma_rx_enabled = true;

        ordering_fence();

        chan.apply_config(ChannelConfig {
            mem2mem: false,
            priority: 0b10,
            mem_size: 0,
            periph_size: 0,
            mem_increment: true,
            periph_increment: false,
            circular: false,
            mem_to_periph: false,
            enable: true,
        });

        Transfer::<W, Rx<INSTANCE>>::w(buffer, chan, self)
    }
}

impl<INSTANCE> Tx<INSTANCE> {
    /// Non-blocking write of one byte: accepted only while the transmit
    /// register is empty; accepting it fills the register and lowers
    /// both the empty and the transmission-complete flags. This
    /// transmitter never reports a hardware error.
    pub fn write(&mut self, usart: &mut Usart, byte: u8) -> (res: Result<(), NbError>)
        ensures
            res is Ok <==> old(usart).txe,
            res is Err ==> res == Err::<(), NbError>(NbError::WouldBlock),
            *final(usart) == (if old(usart).txe {
                Usart { tdr: byte, txe: false, tc: false, ..*old(usart) }
            } else {
                *old(usart)
            }),
    {
        if usart.txe {
            usart.tdr = byte;
            usart.txe = false;
            usart.tc = false;
            Ok(())
        } else {
            Err(NbError::WouldBlock)
        }
    }

    /// Non-blocking flush: done exactly when the transmission-complete
    /// flag is set; changes nothing.
    pub fn flush(&mut self, usart: &Usart) -> (res: Result<(), NbError>)
        ensures
            res is Ok <==> usart.tc,
            res is Err ==> res == Err::<(), NbError>(NbError::WouldBlock),
    {
        if usart.tc {
            Ok(())
        } else {
            Err(NbError::WouldBlock)
        }
    }

    /// Arm a one-shot transmission of the whole buffer into the
    /// transmit data register: program the count register, point the
    /// channel at the transmit register, enable transmit-side transfer
    /// requests, fence, then set the channel memory-to-peripheral,
    /// memory-incrementing, medium priority and enabled, and wrap it
    /// with this transmitter as the lent payload.
    pub fn write_all(self, chan: Channel, buffer: Vec<u8>, usart: &mut Usart) -> (t: Transfer<
        R,
        Tx<INSTANCE>,
    >)
        requires
            !chan.enabled,
            buffer@.len() <= u16::MAX,
        ensures
            *final(usart) == (Usart { dma_tx_enabled: true, ..*old(usart) }),
            t.buffer == buffer,
            t.payload == self,
            t.channel == (Channel {
                enabled: true,
                circular: false,
                mem_to_periph: true,
                mem2mem: false,
                mem_increment: true,
                periph_increment: false,
                mem_size: 0,
                periph_size: 0,
                priority: 0b01,
                count: buffer@.len() as u16,
                reload: buffer@.len() as u16,
                periph_addr: old(usart).tdr_addr,
                ..chan
            }),
    {
        let mut chan = chan;
        let len: usize = buffer.len();
        chan.set_count(len as u16);
        chan.set_periph_addr(usart.tdr_addr);

        usart.dma_tx_enabled = true;

        ordering_fence();

        chan.apply_config(ChannelConfig {
            mem2mem: false,
            priority: 0b01,
            mem_size: 0,
            periph_size: 0,
            mem_increment: true,
            periph_increment: false,
            circular: false,
            mem_to_periph: true,
            enable: true,
        });

        Transfer::<R, Tx<INSTANCE>>::r(buffer, chan, self)
    }
}

} // verus!
