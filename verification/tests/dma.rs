use stm32l4x6_hal::dma::{
    Channel, ChannelConfig, Channels, CircBuffer, Dma, DmaInstance, Error, Event, Flags, Half,
    Static, Transfer, W,
};
use stm32l4x6_hal::rcc::Ahb;

fn armed_circular_channel(total: u16) -> Channel {
    let mut ch = Channel::reset();
    ch.set_count(total);
    ch.apply_config(ChannelConfig {
        mem2mem: false,
        priority: 0b10,
        mem_size: 0,
        periph_size: 0,
        mem_increment: true,
        periph_increment: false,
        circular: true,
        mem_to_periph: false,
        enable: true,
    });
    ch
}

#[test]
fn status_reports_raised_flags() {
    let mut ch = Channel::reset();
    assert!(!ch.status().half_complete);
    ch.raise_half_complete();
    let f = ch.status();
    assert!(f.half_complete && f.global && !f.complete && !f.error);
}

#[test]
fn listen_and_unlisten_flip_only_the_event_bit() {
    let mut ch = Channel::reset();
    ch.listen(Event::HalfTransfer);
    assert!(ch.half_transfer_irq && !ch.complete_irq && !ch.error_irq);
    ch.listen(Event::TransferError);
    ch.unlisten(Event::HalfTransfer);
    assert!(!ch.half_transfer_irq && !ch.complete_irq && ch.error_irq);
}

#[test]
fn clear_flag_clears_one_clear_flags_clears_all() {
    let mut ch = Channel::reset();
    ch.raise_half_complete();
    ch.raise_complete();
    ch.clear_flag(Event::TransferComplete);
    assert!(ch.flags.half_complete && !ch.flags.complete && ch.flags.global);
    ch.clear_flags();
    assert_eq!(
        ch.flags,
        Flags { half_complete: false, complete: false, error: false, global: false }
    );
}

#[test]
fn engine_transfer_counts_down_and_raises_flags() {
    let mut ch = armed_circular_channel(20);
    ch.engine_transfer(9);
    assert_eq!(ch.remaining(), 11);
    assert!(!ch.flags.half_complete && !ch.flags.complete);
    ch.engine_transfer(1);
    assert_eq!(ch.remaining(), 10);
    assert!(ch.flags.half_complete && !ch.flags.complete && ch.flags.global);
    ch.engine_transfer(10);
    // Circular mode: the count reloads and the completion flag is raised.
    assert_eq!(ch.remaining(), 20);
    assert!(ch.flags.half_complete && ch.flags.complete);
}

#[test]
fn readable_half_flips_only_on_the_opposite_flag() {
    let ch = armed_circular_channel(20);
    let first = vec![0u8; 10];
    let second = vec![0u8; 10];
    let mut cb = CircBuffer::new(first, second, ch);

    // Freshly armed: nothing completed, the recorded half stands.
    assert_eq!(cb.readable_half().unwrap(), Half::Second);
    assert_eq!(cb.readable_half().unwrap(), Half::Second);

    // The engine finishes the first half: the recorded half flips and
    // the half-completion flag is consumed.
    cb.channel.raise_half_complete();
    assert_eq!(cb.readable_half().unwrap(), Half::First);
    assert!(!cb.channel.flags.half_complete);
    // Idempotent until the other half completes.
    assert_eq!(cb.readable_half().unwrap(), Half::First);

    cb.channel.raise_complete();
    assert_eq!(cb.readable_half().unwrap(), Half::Second);
    assert!(!cb.channel.flags.complete);
}

#[test]
fn readable_half_overrun_clears_nothing() {
    let mut ch = armed_circular_channel(20);
    ch.raise_half_complete();
    ch.raise_complete();
    let mut cb = CircBuffer::new(vec![0u8; 10], vec![0u8; 10], ch);
    cb.consumed_offset = 3;
    assert_eq!(cb.readable_half(), Err(Error::Overrun));
    // No flag is cleared and no state moves as a side effect.
    assert!(cb.channel.flags.half_complete && cb.channel.flags.complete);
    assert_eq!(cb.readable_half, Half::Second);
    assert_eq!(cb.consumed_offset, 3);
}

#[test]
fn peek_exposes_unconsumed_tail_and_resets_offset() {
    let mut ch = armed_circular_channel(20);
    ch.raise_half_complete();
    let first: Vec<u8> = (0u8..10).collect();
    let mut cb = CircBuffer::new(first, vec![0u8; 10], ch);
    cb.consumed_offset = 4;

    let (seen, half) = cb
        .peek(|s: &[u8], h| Ok::<(Vec<u8>, Half), ()>((s.to_vec(), h)))
        .unwrap();
    // The flip to the first half kept the offset, so only the tail shows.
    assert_eq!(half, Half::First);
    assert_eq!(seen, vec![4, 5, 6, 7, 8, 9]);
    assert_eq!(cb.consumed_offset, 0);

    // A second peek with no new completion exposes the whole half.
    let (seen, half) = cb
        .peek(|s: &[u8], h| Ok::<(Vec<u8>, Half), ()>((s.to_vec(), h)))
        .unwrap();
    assert_eq!(half, Half::First);
    assert_eq!(seen.len(), 10);
    assert_eq!(cb.consumed_offset, 0);
}

#[test]
fn peek_reports_buffer_error_and_still_resets_offset() {
    let mut ch = armed_circular_channel(20);
    ch.raise_half_complete();
    let mut cb = CircBuffer::new(vec![0u8; 10], vec![0u8; 10], ch);
    cb.consumed_offset = 2;
    let res: Result<(), Error> = cb.peek(|_s: &[u8], _h| Err(()));
    assert_eq!(res, Err(Error::BufferError));
    assert_eq!(cb.consumed_offset, 0);
}

#[test]
fn partial_peek_exposes_written_window_of_in_progress_half() {
    // Two halves of ten elements; the engine has moved nine of the
    // twenty, so eleven remain: one still pending inside the first
    // (in-progress) half, whose written boundary is therefore nine.
    let mut ch = armed_circular_channel(20);
    let first: Vec<u8> = (10u8..20).collect();
    let mut cb = CircBuffer::new(first, vec![0u8; 10], ch);
    cb.channel.engine_transfer(9);
    assert_eq!(cb.channel.remaining(), 11);

    // Consume four of the nine written elements.
    let seen = cb
        .partial_peek(|s: &[u8], _h| Ok::<(usize, Vec<u8>), ()>((4, s.to_vec())))
        .unwrap();
    assert_eq!(seen, vec![10, 11, 12, 13, 14, 15, 16, 17, 18]);
    assert_eq!(cb.consumed_offset, 4);

    // With consumed_offset = 4 the exposed slice is elements [4, 9).
    let seen = cb
        .partial_peek(|s: &[u8], _h| Ok::<(usize, Vec<u8>), ()>((s.len(), s.to_vec())))
        .unwrap();
    assert_eq!(seen, vec![14, 15, 16, 17, 18]);
    assert_eq!(cb.consumed_offset, 9);

    // Nothing new written: the window is empty and the offset holds.
    let seen = cb
        .partial_peek(|s: &[u8], _h| Ok::<(usize, usize), ()>((s.len(), s.len())))
        .unwrap();
    assert_eq!(seen, 0);
    assert_eq!(cb.consumed_offset, 9);
}

#[test]
fn partial_peek_failure_consumes_nothing() {
    let mut cb = CircBuffer::new(vec![0u8; 10], vec![0u8; 10], armed_circular_channel(20));
    cb.channel.engine_transfer(5);
    let res: Result<(), Error> = cb.partial_peek(|_s: &[u8], _h| Err(()));
    assert_eq!(res, Err(Error::BufferError));
    assert_eq!(cb.consumed_offset, 0);
}

#[test]
fn answer_isr_acknowledges_every_source() {
    let mut cb = CircBuffer::new(vec![0u8; 4], vec![0u8; 4], armed_circular_channel(8));
    cb.channel.raise_error();
    cb.channel.raise_half_complete();
    cb.answer_isr();
    assert_eq!(
        cb.channel.flags,
        Flags { half_complete: false, complete: false, error: false, global: false }
    );
}

#[test]
fn wait_on_complete_transfer_returns_parts_with_channel_disabled() {
    let mut ch = Channel::reset();
    ch.set_count(4);
    ch.enable();
    ch.engine_transfer(4);
    assert!(ch.flags.complete);
    let buffer: Vec<u8> = vec![9, 8, 7, 6];
    let t: Transfer<W, u32> = Transfer::w(buffer.clone(), ch, 42u32);
    assert!(t.is_done());
    let (buf, chan, payload) = t.wait();
    assert_eq!(buf, buffer);
    assert_eq!(payload, 42);
    assert!(!chan.enabled);
    assert_eq!(
        chan.flags,
        Flags { half_complete: false, complete: false, error: false, global: false }
    );
    assert_eq!(chan.count, 0);
}

#[test]
fn transfer_peek_shows_written_prefix() {
    let mut ch = Channel::reset();
    ch.set_count(10);
    ch.enable();
    ch.engine_transfer(6);
    let buffer: Vec<u8> = (0u8..10).collect();
    let t: Transfer<W, ()> = Transfer::w(buffer, ch, ());
    assert_eq!(t.peek(), &[0, 1, 2, 3, 4, 5]);
}

#[test]
fn restart_returns_written_prefix_or_nothing() {
    let mut ch = Channel::reset();
    ch.set_count(10);
    ch.enable();
    let buffer: Vec<u8> = (0u8..10).collect();
    let mut t: Transfer<W, ()> = Transfer::w(buffer, ch, ());

    // Nothing transferred since arming: no data comes back, the channel
    // is re-armed to the full capacity and running.
    assert_eq!(t.restart(), None);
    assert!(t.channel.enabled);
    assert_eq!(t.channel.count, 10);

    // Three elements arrive; restart hands back exactly that prefix.
    t.channel.engine_transfer(3);
    let got = t.restart().map(<[u8]>::to_vec);
    assert_eq!(got, Some(vec![0, 1, 2]));
    assert!(t.channel.enabled);
    assert_eq!(t.channel.count, 10);
}

#[test]
fn stop_and_start_toggle_only_the_enable_bit() {
    let mut ch = Channel::reset();
    ch.set_count(5);
    ch.enable();
    let mut t: Transfer<W, ()> = Transfer::w(vec![0u8; 5], ch, ());
    t.stop();
    assert!(!t.channel.enabled);
    assert_eq!(t.channel.count, 5);
    t.start();
    assert!(t.channel.enabled);
}

#[test]
fn split_enables_clock_and_resets_all_channels() {
    let mut ahb = Ahb {
        dma1_enabled: false,
        dma2_enabled: false,
        gpiob_enabled: false,
        gpioe_enabled: false,
    };
    let block = Dma { instance: DmaInstance::Dma1 };
    let chans: Channels = block.split(&mut ahb);
    assert!(ahb.dma1_enabled && !ahb.dma2_enabled);
    for ch in [&chans.c1, &chans.c2, &chans.c3, &chans.c4, &chans.c5, &chans.c6, &chans.c7] {
        assert!(!ch.enabled && !ch.circular && ch.count == 0 && ch.request_map == 0);
    }
}

#[test]
fn request_map_binds_the_selection_code() {
    let mut ch = Channel::reset();
    ch.set_req_map(0b0101);
    assert_eq!(ch.request_map, 0b0101);
}

#[test]
fn static_borrow_hands_out_the_referent() {
    static WORD: [u8; 3] = [1, 2, 3];
    let handle: &'static [u8; 3] = &WORD;
    assert_eq!(Static::borrow(&handle), &[1, 2, 3]);
}
