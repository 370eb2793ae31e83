//! Tests for the interrupt-side and idle-side task steps.

use neotron_bmc::ps2::Ps2Decoder;
use neotron_bmc::queue::WordQueue;
use neotron_bmc::tasks::idle_poll;
use neotron_bmc::tasks::on_clock_edge;

/// Clock the 11 bits of `word`, LSB first, into the decoder/queue pair.
fn clock_frame(decoder: &mut Ps2Decoder, queue: &mut WordQueue, word: u16) -> Result<(), u16> {
    let mut last = Ok(());
    for i in 0..11 {
        last = on_clock_edge(decoder, queue, (word >> i) & 1 != 0);
    }
    last
}

#[test]
fn clocked_frame_reaches_idle_as_data_byte() {
    let mut decoder = Ps2Decoder::new();
    let mut queue = WordQueue::new();
    // Valid frame: data 0x55 (even ones), parity high, stop high.
    let word: u16 = (0x55u16 << 1) | (1 << 9) | (1 << 10);
    assert_eq!(clock_frame(&mut decoder, &mut queue, word), Ok(()));
    assert_eq!(idle_poll(&mut queue), Some(Ok(0x55)));
    assert_eq!(idle_poll(&mut queue), None);
}

#[test]
fn malformed_frame_reaches_idle_raw() {
    let mut decoder = Ps2Decoder::new();
    let mut queue = WordQueue::new();
    // Stop bit low: collection still succeeds, validation refuses.
    let word: u16 = (0x55u16 << 1) | (1 << 9);
    assert_eq!(clock_frame(&mut decoder, &mut queue, word), Ok(()));
    assert_eq!(idle_poll(&mut queue), Some(Err(word)));
}

#[test]
fn ninth_unconsumed_frame_overflows_the_queue() {
    let mut decoder = Ps2Decoder::new();
    let mut queue = WordQueue::new();
    for word in 0..8u16 {
        assert_eq!(clock_frame(&mut decoder, &mut queue, word), Ok(()));
    }
    assert_eq!(clock_frame(&mut decoder, &mut queue, 8), Err(8));
    // The stored frames are untouched and drain in order.
    for word in 0..8u16 {
        let expected = Ps2Decoder::check_word(word).ok_or(word);
        assert_eq!(idle_poll(&mut queue), Some(expected));
    }
    assert_eq!(idle_poll(&mut queue), None);
}
