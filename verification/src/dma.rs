//! Transfer channels of the bulk-memory-movement block, the circular
//! capture buffer, and one-shot transfers.
//!
//! [`Channel`] is a register-level model of one hardware transfer unit:
//! its control, count and address registers and its four status flags.
//! The engine's autonomous side — moving elements and signalling through
//! the flags — is modelled by [`Channel::engine_transfer`] and the
//! `raise_*` methods, so driver code above it can be verified over every
//! state the registers can reach.

use vstd::prelude::*;

verus! {

use core::marker::PhantomData;
use crate::rcc::Ahb;

/// Errors surfaced by the circular capture buffer.
#[derive(Debug, PartialEq, Eq, Structural, Clone, Copy)]
pub enum Error {
    /// Both half-completion flags were observed set at once: the consumer
    /// fell behind the engine, which wrapped without the data being read.
    Overrun,
    /// The caller-supplied processing function reported failure.
    BufferError,
}

/// Interrupt sources a channel can signal.
#[derive(Debug, PartialEq, Eq, Structural, Clone, Copy)]
pub enum Event {
    HalfTransfer,
    TransferComplete,
    TransferError,
}

/// One half of a double-buffered capture region.
#[derive(Debug, PartialEq, Eq, Structural, Clone, Copy)]
pub enum Half {
    First,
    Second,
}

/// Snapshot of a channel's four status flags.
///
/// `half_complete` reports the first half filled, `complete` the second
/// half (circular mode) or the whole transfer (one-shot mode); `global`
/// is raised alongside any of the other three.
#[derive(Debug, PartialEq, Eq, Structural, Clone, Copy)]
pub struct Flags {
    pub half_complete: bool,
    pub complete: bool,
    pub error: bool,
    pub global: bool,
}

impl Flags {
    /// All four flags lowered.
    pub fn clear() -> (r: Flags)
        ensures
            r == (Flags { half_complete: false, complete: false, error: false, global: false }),
    {
        Flags { half_complete: false, complete: false, error: false, global: false }
    }
}

/// Register-level model of one hardware transfer unit.
///
/// Exactly one live handle exists per channel identity: ownership of the
/// handle is the synchronization primitive, so no two components can race
/// on the same channel. The fields mirror the control, count and address
/// registers and the channel's group of status bits.
pub struct Channel {
    /// Control: channel enable bit.
    pub enabled: bool,
    /// Control: circular-mode bit.
    pub circular: bool,
    /// Control: direction bit — `true` reads memory and writes the
    /// peripheral, `false` the other way around.
    pub mem_to_periph: bool,
    /// Control: memory-to-memory mode bit.
    pub mem2mem: bool,
    /// Control: increment the memory address after each element.
    pub mem_increment: bool,
    /// Control: increment the peripheral address after each element.
    pub periph_increment: bool,
    /// Control: memory-side word-size code.
    pub mem_size: u8,
    /// Control: peripheral-side word-size code.
    pub periph_size: u8,
    /// Control: channel priority code.
    pub priority: u8,
    /// Control: interrupt enable for the half-complete event.
    pub half_transfer_irq: bool,
    /// Control: interrupt enable for the complete event.
    pub complete_irq: bool,
    /// Control: interrupt enable for the error event.
    pub error_irq: bool,
    /// Count register: elements not yet transferred in the whole buffer.
    pub count: u16,
    /// The value the count register was programmed with; in circular mode
    /// the engine reloads `count` from it on wrap-around.
    pub reload: u16,
    /// Memory-side address register.
    pub mem_addr: u32,
    /// Peripheral-side address register.
    pub periph_addr: u32,
    /// The channel's group of status flags.
    pub flags: Flags,
    /// Peripheral request-line selection code.
    pub request_map: u8,
}

/// Control-register fields written in one combined update when a transfer
/// is armed.
pub struct ChannelConfig {
    pub mem2mem: bool,
    pub priority: u8,
    pub mem_size: u8,
    pub periph_size: u8,
    pub mem_increment: bool,
    pub periph_increment: bool,
    pub circular: bool,
    pub mem_to_periph: bool,
    pub enable: bool,
}

impl Channel {
    /// A channel's state after the block-wide reset: everything disabled
    /// and zeroed.
    pub open spec fn is_reset(self) -> bool {
        &&& !self.enabled
        &&& !self.circular
        &&& !self.mem_to_periph
        &&& !self.mem2mem
        &&& !self.mem_increment
        &&& !self.periph_increment
        &&& self.mem_size == 0
        &&& self.periph_size == 0
        &&& self.priority == 0
        &&& !self.half_transfer_irq
        &&& !self.complete_irq
        &&& !self.error_irq
        &&& self.count == 0
        &&& self.reload == 0
        &&& self.mem_addr == 0
        &&& self.periph_addr == 0
        &&& self.flags == (Flags { half_complete: false, complete: false, error: false, global: false })
        &&& self.request_map == 0
    }

    /// A freshly reset channel.
    pub fn reset() -> (r: Channel)
        ensures
            r.is_reset(),
    {
        Channel {
            enabled: false,
            circular: false,
            mem_to_periph: false,
            mem2mem: false,
            mem_increment: false,
            periph_increment: false,
            mem_size: 0,
            periph_size: 0,
            priority: 0,
            half_transfer_irq: false,
            complete_irq: false,
            error_irq: false,
            count: 0,
            reload: 0,
            mem_addr: 0,
            periph_addr: 0,
            flags: Flags::clear(),
            request_map: 0,
        }
    }

    /// Set the interrupt-enable bit for `event`; nothing but that bit
    /// changes, and dispatch is the outside world's business.
    pub fn listen(&mut self, event: Event)
        ensures
            *final(self) == (match event {
                Event::HalfTransfer => Channel { half_transfer_irq: true, ..*old(self) },
                Event::TransferComplete => Channel { complete_irq: true, ..*old(self) },
                Event::TransferError => Channel { error_irq: true, ..*old(self) },
            }),
    {
        match event {
            Event::HalfTransfer => self.half_transfer_irq = true,
            Event::TransferComplete => self.complete_irq = true,
            Event::TransferError => self.error_irq = true,
        }
    }

    /// Clear the interrupt-enable bit for `event`.
    pub fn unlisten(&mut self, event: Event)
        ensures
            *final(self) == (match event {
                Event::HalfTransfer => Channel { half_transfer_irq: false, ..*old(self) },
                Event::TransferComplete => Channel { complete_irq: false, ..*old(self) },
                Event::TransferError => Channel { error_irq: false, ..*old(self) },
            }),
    {
        match event {
            Event::HalfTransfer => self.half_transfer_irq = false,
            Event::TransferComplete => self.complete_irq = false,
            Event::TransferError => self.error_irq = false,
        }
    }

    /// Read-only snapshot of the four status flags.
    pub fn status(&self) -> (r: Flags)
        ensures
            r == self.flags,
    {
        self.flags
    }

    /// Write-one-to-clear on the whole flag group: lowers all four flags.
    pub fn clear_flags(&mut self)
        ensures
            *final(self) == (Channel {
                flags: Flags { half_complete: false, complete: false, error: false, global: false },
                ..*old(self)
            }),
    {
        self.flags = Flags::clear();
    }

    /// Write-one-to-clear on a single event's flag. Clearing the global
    /// flag goes through [`Channel::clear_flags`], which acknowledges all
    /// sources at once.
    pub fn clear_flag(&mut self, event: Event)
        ensures
            *final(self) == (match event {
                Event::HalfTransfer => Channel {
                    flags: Flags { half_complete: false, ..old(self).flags },
                    ..*old(self)
                },
                Event::TransferComplete => Channel {
                    flags: Flags { complete: false, ..old(self).flags },
                    ..*old(self)
                },
                Event::TransferError => Channel {
                    flags: Flags { error: false, ..old(self).flags },
                    ..*old(self)
                },
            }),
    {
        match event {
            Event::HalfTransfer => self.flags.half_complete = false,
            Event::TransferComplete => self.flags.complete = false,
            Event::TransferError => self.flags.error = false,
        }
    }

    /// Current value of the transfer-count register: the number of
    /// elements not yet transferred in the whole (non-halved) buffer.
    pub fn remaining(&self) -> (r: u16)
        ensures
            r == self.count,
    {
        self.count
    }

    /// Program the count register. The hardware latches the value for
    /// circular reload, and accepts writes only while the channel is
    /// disabled.
    pub fn set_count(&mut self, n: u16)
        requires
            !old(self).enabled,
        ensures
            *final(self) == (Channel { count: n, reload: n, ..*old(self) }),
    {
        self.count = n;
        self.reload = n;
    }

    /// Program the memory-side address register (writes are accepted only
    /// while the channel is disabled).
    pub fn set_mem_addr(&mut self, addr: u32)
        requires
            !old(self).enabled,
        ensures
            *final(self) == (Channel { mem_addr: addr, ..*old(self) }),
    {
        self.mem_addr = addr;
    }

    /// Program the peripheral-side address register (writes are accepted
    /// only while the channel is disabled).
    pub fn set_periph_addr(&mut self, addr: u32)
        requires
            !old(self).enabled,
        ensures
            *final(self) == (Channel { periph_addr: addr, ..*old(self) }),
    {
        self.periph_addr = addr;
    }

    /// Bind the channel to a peripheral request line (a 4-bit code).
    pub fn set_req_map(&mut self, bits: u8)
        requires
            bits < 16,
        ensures
            *final(self) == (Channel { request_map: bits, ..*old(self) }),
    {
        self.request_map = bits;
    }

    /// Clear the enable bit, stopping the engine on this channel.
    pub fn disable(&mut self)
        ensures
            *final(self) == (Channel { enabled: false, ..*old(self) }),
    {
        self.enabled = false;
    }

    /// Set the enable bit, letting the engine run on this channel.
    pub fn enable(&mut self)
        ensures
            *final(self) == (Channel { enabled: true, ..*old(self) }),
    {
        self.enabled = true;
    }

    /// Whether the enable bit reads back set.
    pub fn is_enabled(&self) -> (r: bool)
        ensures
            r == self.enabled,
    {
        self.enabled
    }

    /// One combined write of the control-register configuration fields,
    /// as performed when a transfer is armed.
    pub fn apply_config(&mut self, cfg: ChannelConfig)
        requires
            cfg.priority < 4,
            cfg.mem_size < 4,
            cfg.periph_size < 4,
        ensures
            *final(self) == (Channel {
                enabled: cfg.enable,
                circular: cfg.circular,
                mem_to_periph: cfg.mem_to_periph,
                mem2mem: cfg.mem2mem,
                mem_increment: cfg.mem_increment,
                periph_increment: cfg.periph_increment,
                mem_size: cfg.mem_size,
                periph_size: cfg.periph_size,
                priority: cfg.priority,
                ..*old(self)
            }),
    {
        self.enabled = cfg.enable;
        self.circular = cfg.circular;
        self.mem_to_periph = cfg.mem_to_periph;
        self.mem2mem = cfg.mem2mem;
        self.mem_increment = cfg.mem_increment;
        self.periph_increment = cfg.periph_increment;
        self.mem_size = cfg.mem_size;
        self.periph_size = cfg.periph_size;
        self.priority = cfg.priority;
    }

    /// Engine side of the model: raise the half-complete flag (and with it
    /// the global flag), as the hardware does when the first half fills.
    pub fn raise_half_complete(&mut self)
        ensures
            *final(self) == (Channel {
                flags: Flags { half_complete: true, global: true, ..old(self).flags },
                ..*old(self)
            }),
    {
        self.flags.half_complete = true;
        self.flags.global = true;
    }

    /// Engine side of the model: raise the complete flag (and the global
    /// flag), as the hardware does when the buffer or transfer finishes.
    pub fn raise_complete(&mut self)
        ensures
            *final(self) == (Channel {
                flags: Flags { complete: true, global: true, ..old(self).flags },
                ..*old(self)
            }),
    {
        self.flags.complete = true;
        self.flags.global = true;
    }

    /// Engine side of the model: raise the transfer-error flag (and the
    /// global flag).
    pub fn raise_error(&mut self)
        ensures
            *final(self) == (Channel {
                flags: Flags { error: true, global: true, ..old(self).flags },
                ..*old(self)
            }),
    {
        self.flags.error = true;
        self.flags.global = true;
    }

    /// Whether a transfer of `n` elements from `self`'s state crosses the
    /// halfway point of the programmed length.
    pub open spec fn crosses_half(self, n: u16) -> bool {
        self.count > self.reload / 2 && self.count - n <= self.reload / 2
    }

    /// Engine side of the model: the autonomous engine moves `n` elements,
    /// decrementing the count register and raising the flags the hardware
    /// raises — half-complete when the halfway point of the programmed
    /// length is crossed, complete when the count reaches zero. In
    /// circular mode the count then reloads and the engine continues; a
    /// wrap past zero takes a further call.
    pub fn engine_transfer(&mut self, n: u16)
        requires
            old(self).enabled,
            n <= old(self).count,
        ensures
            *final(self) == (Channel {
                count: if old(self).count == n && old(self).circular {
                    old(self).reload
                } else {
                    (old(self).count - n) as u16
                },
                flags: Flags {
                    half_complete: old(self).flags.half_complete || old(self).crosses_half(n),
                    complete: old(self).flags.complete || old(self).count == n,
                    error: old(self).flags.error,
                    global: old(self).flags.global || old(self).crosses_half(n)
                        || old(self).count == n,
                },
                ..*old(self)
            }),
    {
        let new_count: u16 = self.count - n;
        if self.count > self.reload / 2 && new_count <= self.reload / 2 {
            self.flags.half_complete = true;
            self.flags.global = true;
        }
        if new_count == 0 {
            self.flags.complete = true;
            self.flags.global = true;
            if self.circular {
                self.count = self.reload;
            } else {
                self.count = 0;
            }
        } else {
            self.count = new_count;
        }
    }
}

/// The rule by which the circular buffer decides which half may be read,
/// from a snapshot of the status flags and the previously recorded half:
/// both completion flags at once mean the consumer fell behind (overrun);
/// the half opposite the recorded one is taken when its completion flag is
/// set; otherwise the recorded half stands unchanged.
pub open spec fn readable_decision(flags: Flags, last: Half) -> Result<Half, Error> {
    if flags.half_complete && flags.complete {
        Err(Error::Overrun)
    } else {
        match last {
            Half::First => if flags.complete { Ok(Half::Second) } else { Ok(Half::First) },
            Half::Second => if flags.half_complete { Ok(Half::First) } else { Ok(Half::Second) },
        }
    }
}

/// Over every flag snapshot and recorded half: the decision signals
/// overrun exactly when both completion flags are observed set, and the
/// half it returns differs from the recorded one only when the flag of
/// the opposite half's completion was set.
pub proof fn lemma_readable_decision(flags: Flags, last: Half)
    ensures
        readable_decision(flags, last) is Err <==> (flags.half_complete && flags.complete),
        forall|h: Half|
            readable_decision(flags, last) == Ok::<Half, Error>(h) && h != last ==> (match last {
                Half::First => flags.complete && h == Half::Second,
                Half::Second => flags.half_complete && h == Half::First,
            }),
{
}

/// Double-buffered ("circular") capture region: two halves of equal
/// length that the engine fills in turn, the owned channel driving them,
/// which half was last confirmed safe to read, and how much of the
/// current half has already been handed to the caller.
pub struct CircBuffer {
    /// The half the engine fills first.
    pub first_half: Vec<u8>,
    /// The half the engine fills second.
    pub second_half: Vec<u8>,
    /// The channel that runs the capture; owned exclusively.
    pub channel: Channel,
    /// Which half was last confirmed safe to read.
    pub readable_half: Half,
    /// Elements of the current half already handed to the caller.
    pub consumed_offset: usize,
}

impl CircBuffer {
    /// Length of one half of the capture region.
    pub open spec fn half_capacity(self) -> int {
        self.first_half@.len() as int
    }

    /// The contents of half `h`.
    pub open spec fn half_seq(self, h: Half) -> Seq<u8> {
        match h {
            Half::First => self.first_half@,
            Half::Second => self.second_half@,
        }
    }

    /// The half the engine is currently writing: the one opposite the
    /// half recorded as readable.
    pub open spec fn writing_half(self) -> Half {
        match self.readable_half {
            Half::First => Half::Second,
            Half::Second => Half::First,
        }
    }

    /// Elements of the in-progress half the engine has not written yet,
    /// derived from the whole-buffer count register.
    pub open spec fn pending_in_half(self) -> int {
        if self.channel.count > self.half_capacity() {
            self.channel.count - self.half_capacity()
        } else {
            self.channel.count as int
        }
    }

    /// The written-to/unwritten boundary inside the in-progress half.
    pub open spec fn partial_end(self) -> int {
        self.half_capacity() - self.pending_in_half()
    }

    /// Well-formedness: the halves have equal length, consumption stays
    /// within one half, and the count register never exceeds the whole
    /// two-half region.
    pub open spec fn wf(self) -> bool {
        &&& self.second_half@.len() == self.first_half@.len()
        &&& self.consumed_offset <= self.half_capacity()
        &&& self.channel.count <= 2 * self.half_capacity()
    }

    /// Wrap a freshly armed capture: the engine starts on the first half,
    /// so the second half is recorded as the readable one and nothing has
    /// been consumed.
    pub fn new(first_half: Vec<u8>, second_half: Vec<u8>, channel: Channel) -> (r: CircBuffer)
        requires
            second_half@.len() == first_half@.len(),
            channel.count <= 2 * first_half@.len(),
        ensures
            r == (CircBuffer {
                first_half,
                second_half,
                channel,
                readable_half: Half::Second,
                consumed_offset: 0,
            }),
            r.wf(),
    {
        CircBuffer { first_half, second_half, channel, readable_half: Half::Second, consumed_offset: 0 }
    }

    /// Determine, from the hardware flags and the previously recorded
    /// half, which half the caller may now read, following
    /// [`readable_decision`]: on overrun nothing is changed or cleared;
    /// when the opposite half's completion flag is set, that flag is
    /// cleared and the recorded half flips; otherwise the call is
    /// idempotent and returns the recorded half unchanged.
    pub fn readable_half(&mut self) -> (res: Result<Half, Error>)
        ensures
            res == readable_decision(old(self).channel.flags, old(self).readable_half),
            res is Err ==> *final(self) == *old(self),
            final(self).consumed_offset == old(self).consumed_offset,
            final(self).first_half@ == old(self).first_half@,
            final(self).second_half@ == old(self).second_half@,
            forall|h: Half|
                res == Ok::<Half, Error>(h) ==> {
                    &&& final(self).readable_half == h
                    &&& (h == old(self).readable_half ==> *final(self) == *old(self))
                    &&& (h != old(self).readable_half ==> final(self).channel == (Channel {
                        flags: Flags {
                            complete: old(self).channel.flags.complete && h != Half::Second,
                            half_complete: old(self).channel.flags.half_complete && h != Half::First,
                            ..old(self).channel.flags
                        },
                        ..old(self).channel
                    }))
                },
            old(self).wf() ==> final(self).wf(),
    {
        let flags = self.channel.status();
        if flags.half_complete && flags.complete {
            return Err(Error::Overrun);
        }
        let last_read_half = self.readable_half;
        match last_read_half {
            Half::First => {
                if flags.complete {
                    self.channel.clear_flag(Event::TransferComplete);
                    self.readable_half = Half::Second;
                    Ok(Half::Second)
                } else {
                    Ok(Half::First)
                }
            },
            Half::Second => {
                if flags.half_complete {
                    self.channel.clear_flag(Event::HalfTransfer);
                    self.readable_half = Half::First;
                    Ok(Half::First)
                } else {
                    Ok(Half::Second)
                }
            },
        }
    }

    /// The part of the in-progress half the engine has written but the
    /// caller has not consumed: the window a partial peek exposes.
    pub open spec fn partial_window(self) -> Seq<u8> {
        self.half_seq(self.writing_half()).subrange(self.consumed_offset as int, self.partial_end())
    }

    /// How a full peek's outcome relates to what the caller's function
    /// returned for the exposed slice `s` and half `h`: success passes the
    /// function's value through, and a failure report surfaces as
    /// [`Error::BufferError`].
    pub open spec fn peek_outcome<R, F: FnOnce(&[u8], Half) -> Result<R, ()>>(
        f: F,
        s: &[u8],
        h: Half,
        res: Result<R, Error>,
    ) -> bool {
        match res {
            Ok(r) => call_ensures(f, (s, h), Ok::<R, ()>(r)),
            Err(e) => e == Error::BufferError && call_ensures(f, (s, h), Err::<R, ()>(())),
        }
    }

    /// Peek into the readable half: resolve which half may be read, hand
    /// its unconsumed tail to `f`, and reset the consumed offset to zero —
    /// the full-half consumption contract of the non-partial read path.
    /// On overrun nothing is exposed and nothing changes.
    pub fn peek<R, F: FnOnce(&[u8], Half) -> Result<R, ()>>(&mut self, f: F) -> (res: Result<
        R,
        Error,
    >)
        requires
            old(self).wf(),
            forall|s: &[u8], h: Half|
                readable_decision(old(self).channel.flags, old(self).readable_half) == Ok::<
                    Half,
                    Error,
                >(h) && s@ == old(self).half_seq(h).subrange(
                    old(self).consumed_offset as int,
                    old(self).half_capacity(),
                ) ==> #[trigger] call_requires(f, (s, h)),
        ensures
            final(self).wf(),
            final(self).first_half@ == old(self).first_half@,
            final(self).second_half@ == old(self).second_half@,
            readable_decision(old(self).channel.flags, old(self).readable_half) is Err
                ==> *final(self) == *old(self) && res == Err::<R, Error>(Error::Overrun),
            forall|h: Half|
                readable_decision(old(self).channel.flags, old(self).readable_half) == Ok::<
                    Half,
                    Error,
                >(h) ==> {
                    &&& final(self).readable_half == h
                    &&& final(self).consumed_offset == 0
                    &&& final(self).channel == (if h == old(self).readable_half {
                        old(self).channel
                    } else {
                        Channel {
                            flags: Flags {
                                complete: old(self).channel.flags.complete && h != Half::Second,
                                half_complete: old(self).channel.flags.half_complete && h
                                    != Half::First,
                                ..old(self).channel.flags
                            },
                            ..old(self).channel
                        }
                    })
                    &&& exists|s: &[u8]|
                        s@ == old(self).half_seq(h).subrange(
                            old(self).consumed_offset as int,
                            old(self).half_capacity(),
                        ) && Self::peek_outcome(f, s, h, res)
                },
    {
        let half_res = self.readable_half();
        match half_res {
            Err(e) => Err(e),
            Ok(half_being_read) => {
                let offset = self.consumed_offset;
                let buf: &Vec<u8> = match half_being_read {
                    Half::First => &self.first_half,
                    Half::Second => &self.second_half,
                };
                let len = buf.len();
                let slice: &[u8] = vstd::slice::slice_subrange(buf.as_slice(), offset, len);
                let out = f(slice, half_being_read);
                self.consumed_offset = 0;
                proof {
                    assert(slice@ == old(self).half_seq(half_being_read).subrange(
                        old(self).consumed_offset as int,
                        old(self).half_capacity(),
                    ));
                }
                match out {
                    Ok(r) => {
                        proof {
                            assert(Self::peek_outcome(
                                f,
                                slice,
                                half_being_read,
                                Ok::<R, Error>(r),
                            ));
                        }
                        Ok(r)
                    },
                    Err(e0) => {
                        proof {
                            assert(e0 == ());
                            assert(call_ensures(f, (slice, half_being_read), Err::<R, ()>(e0)));
                            assert(Self::peek_outcome(
                                f,
                                slice,
                                half_being_read,
                                Err::<R, Error>(Error::BufferError),
                            ));
                        }
                        Err(Error::BufferError)
                    },
                }
            },
        }
    }

    /// How a partial peek's outcome relates to what the caller's function
    /// returned for the exposed slice `s` and half `h`: on success the
    /// function consumed `l` elements and its value is passed through; a
    /// failure report surfaces as [`Error::BufferError`] and consumes
    /// nothing.
    pub open spec fn partial_outcome<R, F: FnOnce(&[u8], Half) -> Result<(usize, R), ()>>(
        f: F,
        s: &[u8],
        h: Half,
        res: Result<R, Error>,
        l: usize,
    ) -> bool {
        match res {
            Ok(r) => call_ensures(f, (s, h), Ok::<(usize, R), ()>((l, r))),
            Err(e) => e == Error::BufferError && l == 0 && call_ensures(
                f,
                (s, h),
                Err::<(usize, R), ()>(()),
            ),
        }
    }

    /// Peek into the half the engine is currently writing: expose the
    /// slice between the consumed offset and the written-to boundary
    /// derived from the count register. `f` reports how many elements it
    /// actually consumed, which is added to the consumed offset — not
    /// reset — so a consumer can safely drain data the engine has already
    /// written without racing its write cursor.
    #[verifier::rlimit(50)]
    pub fn partial_peek<R, F: FnOnce(&[u8], Half) -> Result<(usize, R), ()>>(&mut self, f: F) -> (res: Result<
        R,
        Error,
    >)
        requires
            old(self).wf(),
            old(self).consumed_offset <= old(self).partial_end(),
            forall|s: &[u8], h: Half|
                s@ == old(self).partial_window() && h == old(self).readable_half
                    ==> #[trigger] call_requires(f, (s, h)),
            forall|s: &[u8], h: Half, l: usize, r: R| #[trigger]
                call_ensures(f, (s, h), Ok::<(usize, R), ()>((l, r))) ==> l <= s@.len(),
        ensures
            final(self).wf(),
            final(self).first_half@ == old(self).first_half@,
            final(self).second_half@ == old(self).second_half@,
            final(self).readable_half == old(self).readable_half,
            final(self).channel == old(self).channel,
            final(self).consumed_offset >= old(self).consumed_offset,
            final(self).consumed_offset <= final(self).partial_end(),
            exists|s: &[u8], l: usize|
                s@ == old(self).partial_window() && #[trigger] Self::partial_outcome(
                    f,
                    s,
                    old(self).readable_half,
                    res,
                    l,
                ) && final(self).consumed_offset == old(self).consumed_offset + l,
    {
        let buf: &Vec<u8> = match self.readable_half {
            Half::First => &self.second_half,
            Half::Second => &self.first_half,
        };
        let pending: usize = self.channel.remaining() as usize;
        let capacity: usize = buf.len();
        let pending: usize = if pending > capacity {
            pending - capacity
        } else {
            pending
        };
        let end: usize = capacity - pending;
        proof {
            assert(end == old(self).partial_end());
        }
        let slice: &[u8] = vstd::slice::slice_subrange(buf.as_slice(), self.consumed_offset, end);
        let half_arg = self.readable_half;
        proof {
            assert(slice@ == old(self).partial_window());
        }
        match f(slice, half_arg) {
            Ok((l, r)) => {
                self.consumed_offset = self.consumed_offset + l;
                proof {
                    assert(Self::partial_outcome(f, slice, half_arg, Ok::<R, Error>(r), l));
                }
                Ok(r)
            },
            Err(e0) => {
                proof {
                    assert(e0 == ());
                    assert(call_ensures(f, (slice, half_arg), Err::<(usize, R), ()>(e0)));
                    assert(Self::partial_outcome(
                        f,
                        slice,
                        half_arg,
                        Err::<R, Error>(Error::BufferError),
                        0,
                    ));
                }
                Err(Error::BufferError)
            },
        }
    }

    /// Acknowledge all of the channel's interrupt sources at once by
    /// clearing the global flag group, for handlers that do not need
    /// per-cause discrimination.
    pub fn answer_isr(&mut self)
        ensures
            *final(self) == (CircBuffer {
                channel: Channel {
                    flags: Flags { half_complete: false, complete: false, error: false, global: false },
                    ..old(self).channel
                },
                ..*old(self)
            }),
    {
        self.channel.clear_flags();
    }
}

/// Over every well-formed buffer state in which a partial peek may run,
/// the exposed window's bounds are ordered and stay inside one half:
/// consumption starts at or after zero, ends at or before the
/// written-to boundary, and that boundary — one half's capacity less the
/// elements still pending inside that half — never exceeds the capacity.
pub proof fn lemma_partial_window_bounds(b: CircBuffer)
    requires
        b.wf(),
        b.consumed_offset <= b.partial_end(),
    ensures
        0 <= b.consumed_offset <= b.partial_end() <= b.half_capacity(),
        b.partial_end() == b.half_capacity() - b.pending_in_half(),
        b.partial_window().len() == b.partial_end() - b.consumed_offset,
{
}

/// A borrowed view of a buffer that lives for the whole program, so that
/// the engine may read it for as long as a transfer runs.
pub trait Static<B> {
    fn borrow(&self) -> &B;
}

impl<B> Static<B> for &'static B {
    fn borrow(&self) -> &B {
        *self
    }
}

/// Marker for a read transfer: memory is the source and the peripheral
/// the destination, so the buffer stays dereferenceable while it runs.
pub struct R;

/// Marker for a write transfer: the engine writes memory, so only the
/// already-written prefix may be inspected while it runs.
pub struct W;

/// Relies on `core::sync::atomic::compiler_fence`: a compiler-level
/// memory-ordering barrier with no value-level effect, placed where
/// accesses to a transfer's buffer must not be reordered across the
/// point at which the engine is armed or confirmed finished.
#[verifier::external_body]
pub(crate) fn ordering_fence() {
    core::sync::atomic::compiler_fence(core::sync::atomic::Ordering::SeqCst);
}

/// A mode-tagged single-shot transfer: it owns its buffer, its channel
/// and the lent peripheral payload jointly for as long as it runs, so no
/// other owner can touch the buffer while the engine may.
pub struct Transfer<MODE, PAYLOAD> {
    pub mode: PhantomData<MODE>,
    pub buffer: Vec<u8>,
    pub channel: Channel,
    pub payload: PAYLOAD,
}

impl<PAYLOAD> Transfer<R, PAYLOAD> {
    /// Wrap an armed read-mode transfer.
    pub fn r(buffer: Vec<u8>, channel: Channel, payload: PAYLOAD) -> (t: Transfer<R, PAYLOAD>)
        ensures
            t.buffer == buffer,
            t.channel == channel,
            t.payload == payload,
    {
        Transfer { mode: PhantomData, buffer, channel, payload }
    }

    /// The buffer of a read-mode transfer; memory is the source, so the
    /// whole of it stays safe to inspect while the transfer runs.
    pub fn buffer(&self) -> (r: &Vec<u8>)
        ensures
            r == &self.buffer,
    {
        &self.buffer
    }
}

impl<PAYLOAD> Transfer<W, PAYLOAD> {
    /// Wrap an armed write-mode transfer.
    pub fn w(buffer: Vec<u8>, channel: Channel, payload: PAYLOAD) -> (t: Transfer<W, PAYLOAD>)
        ensures
            t.buffer == buffer,
            t.channel == channel,
            t.payload == payload,
    {
        Transfer { mode: PhantomData, buffer, channel, payload }
    }

    /// The prefix of the buffer the engine has already written, derived
    /// from the count register.
    pub fn peek(&self) -> (r: &[u8])
        requires
            self.channel.count <= self.buffer@.len(),
        ensures
            r@ == self.buffer@.subrange(0, self.buffer@.len() - self.channel.count),
    {
        let pending: usize = self.channel.remaining() as usize;
        let capacity: usize = self.buffer.len();
        vstd::slice::slice_subrange(self.buffer.as_slice(), 0, capacity - pending)
    }

    /// Pause the transfer, take out the prefix written since the last
    /// restart, re-arm the full length and set the channel running again.
    /// Nothing is returned exactly when the count register still equals
    /// the full re-armed capacity — nothing was written since last time.
    pub fn restart(&mut self) -> (r: Option<&[u8]>)
        requires
            old(self).channel.count <= old(self).buffer@.len(),
            old(self).buffer@.len() <= u16::MAX,
        ensures
            final(self).buffer@ == old(self).buffer@,
            final(self).payload == old(self).payload,
            final(self).channel == (Channel {
                enabled: true,
                count: old(self).buffer@.len() as u16,
                reload: old(self).buffer@.len() as u16,
                ..old(self).channel
            }),
            r is None <==> old(self).channel.count == old(self).buffer@.len(),
            forall|s: &[u8]|
                r == Some(s) ==> s@ == old(self).buffer@.subrange(
                    0,
                    old(self).buffer@.len() - old(self).channel.count,
                ),
    {
        self.stop();
        ordering_fence();
        let pending: usize = self.channel.remaining() as usize;
        let capacity: usize = self.buffer.len();
        ordering_fence();
        self.channel.set_count(capacity as u16);
        self.channel.enable();
        if pending != capacity {
            Some(vstd::slice::slice_subrange(self.buffer.as_slice(), 0, capacity - pending))
        } else {
            None
        }
    }
}

impl<MODE, PAYLOAD> Transfer<MODE, PAYLOAD> {
    /// Whether the completion flag is set. Non-blocking and free of side
    /// effects.
    pub fn is_done(&self) -> (r: bool)
        ensures
            r == self.channel.flags.complete,
    {
        self.channel.status().complete
    }

    /// Acknowledge all of the channel's interrupt sources at once by
    /// clearing the global flag group.
    pub fn answer_isr(&mut self)
        ensures
            *final(self) == (Transfer {
                channel: Channel {
                    flags: Flags { half_complete: false, complete: false, error: false, global: false },
                    ..old(self).channel
                },
                ..*old(self)
            }),
    {
        self.channel.clear_flags();
    }

    /// Forcibly stop the transfer by clearing the channel's enable bit.
    pub fn stop(&mut self)
        ensures
            *final(self) == (Transfer {
                channel: Channel { enabled: false, ..old(self).channel },
                ..*old(self)
            }),
    {
        self.channel.disable();
    }

    /// Set the channel running by setting its enable bit.
    pub fn start(&mut self)
        ensures
            *final(self) == (Transfer {
                channel: Channel { enabled: true, ..old(self).channel },
                ..*old(self)
            }),
    {
        self.channel.enable();
    }

    /// Consume a finished transfer: acknowledge the completion flag,
    /// disable the channel, fence, and only then release the buffer, the
    /// channel and the payload to the caller. The fence keeps the
    /// caller's reads of the buffer from being reordered ahead of the
    /// completion confirmation. In this model the flag only advances
    /// through the explicit engine methods, so the flag must already be
    /// observed set; the unbounded busy-poll that watches live hardware
    /// reach this state belongs to the memory-mapped shell.
    pub fn wait(self) -> (out: (Vec<u8>, Channel, PAYLOAD))
        requires
            self.channel.flags.complete,
        ensures
            out.0 == self.buffer,
            out.2 == self.payload,
            out.1 == (Channel {
                enabled: false,
                flags: Flags { half_complete: false, complete: false, error: false, global: false },
                ..self.channel
            }),
    {
        let mut t = self;
        t.answer_isr();
        t.stop();
        ordering_fence();
        (t.buffer, t.channel, t.payload)
    }
}

/// One exclusively owned handle per channel of a transfer block, as
/// handed out by [`Dma::split`]; the sole root of channel ownership.
pub struct Channels {
    pub c1: Channel,
    pub c2: Channel,
    pub c3: Channel,
    pub c4: Channel,
    pub c5: Channel,
    pub c6: Channel,
    pub c7: Channel,
}

/// Which of the two transfer blocks a token stands for.
#[derive(Debug, PartialEq, Eq, Structural, Clone, Copy)]
pub enum DmaInstance {
    Dma1,
    Dma2,
}

/// Ownership token for one whole transfer block, consumed to obtain its
/// channels.
pub struct Dma {
    pub instance: DmaInstance,
}

impl Dma {
    /// Enable the block's clock gate, reset every channel's control
    /// register — which also stops any in-flight transfer — and hand out
    /// one exclusively owned handle per channel. This is the sole entry
    /// point for obtaining channel handles.
    pub fn split(self, ahb: &mut Ahb) -> (r: Channels)
        ensures
            r.c1.is_reset(),
            r.c2.is_reset(),
            r.c3.is_reset(),
            r.c4.is_reset(),
            r.c5.is_reset(),
            r.c6.is_reset(),
            r.c7.is_reset(),
            *final(ahb) == (match self.instance {
                DmaInstance::Dma1 => Ahb { dma1_enabled: true, ..*old(ahb) },
                DmaInstance::Dma2 => Ahb { dma2_enabled: true, ..*old(ahb) },
            }),
    {
        match self.instance {
            DmaInstance::Dma1 => ahb.dma1_enabled = true,
            DmaInstance::Dma2 => ahb.dma2_enabled = true,
        }
        Channels {
            c1: Channel::reset(),
            c2: Channel::reset(),
            c3: Channel::reset(),
            c4: Channel::reset(),
            c5: Channel::reset(),
            c6: Channel::reset(),
            c7: Channel::reset(),
        }
    }
}

} // verus!
