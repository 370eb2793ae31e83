//! The compute halves of the interrupt handlers and of the idle loop.
//!
//! Interrupt context hands these functions the raw values it read (a data
//! pin level, the chip-select level, a received bus byte) and drives their
//! returned values back to the hardware; everything decided in between is
//! verified here.

use crate::ps2::check_word_spec;
use crate::ps2::word_value;
use crate::ps2::Ps2Decoder;
use crate::queue::WordQueue;
use crate::queue::QUEUE_CAPACITY;
use crate::registers::SpiPeripheral;
use vstd::prelude::*;

verus! {

/// What one idle-loop poll of the word queue produced.
pub open spec fn decoded_word(word: u16) -> Result<u8, u16> {
    match check_word_spec(word) {
        Some(byte) => Ok(byte),
        None => Err(word),
    }
}

/// One falling clock edge on the line-protocol input: feed the sampled data
/// bit to the decoder, and when that completes a frame, queue the raw word
/// for background processing. A full queue refuses the word — `Err` hands
/// it back, and the interrupt side treats that as a fatal sizing bug.
pub fn on_clock_edge(decoder: &mut Ps2Decoder, queue: &mut WordQueue, data_bit: bool) -> (r: Result<
    (),
    u16,
>)
    requires
        old(decoder).wf(),
        old(queue).wf(),
    ensures
        final(decoder).wf(),
        final(queue).wf(),
        old(decoder).bits@.len() < 10 ==> {
            &&& r is Ok
            &&& final(decoder).bits@ == old(decoder).bits@.push(data_bit)
            &&& final(queue)@ == old(queue)@
        },
        old(decoder).bits@.len() == 10 ==> {
            let word = word_value(old(decoder).bits@.push(data_bit)) as u16;
            &&& final(decoder).bits@ == Seq::<bool>::empty()
            &&& (old(queue)@.len() < QUEUE_CAPACITY ==> r is Ok && final(queue)@ == old(queue)@.push(
                word,
            ))
            &&& (old(queue)@.len() == QUEUE_CAPACITY ==> r == Err::<(), u16>(word) && final(queue)@
                == old(queue)@)
        },
{
    if let Some(word) = decoder.add_bit(data_bit) {
        queue.enqueue(word)
    } else {
        Ok(())
    }
}

/// One edge on the bus chip-select line: a low level arms the register
/// server for a fresh session, a high level disarms it and abandons any
/// transfer in flight.
pub fn on_chip_select_edge(spi: &mut SpiPeripheral, cs_low: bool)
    requires
        old(spi).wf(),
    ensures
        final(spi).wf(),
        final(spi).enabled == cs_low,
        cs_low ==> final(spi).count == 0 && final(spi).reply_byte is None && final(spi).tx@ == seq![
            crate::registers::BUS_FILLER,
        ],
        !cs_low ==> final(spi).tx@ == Seq::<u8>::empty(),
{
    if cs_low {
        spi.enable();
    } else {
        spi.disable();
    }
}

/// One pass of the idle loop: take the oldest queued word, if any, and
/// validate it — a well-formed frame yields its data byte, a malformed one
/// is handed back raw for logging.
pub fn idle_poll(queue: &mut WordQueue) -> (r: Option<Result<u8, u16>>)
    requires
        old(queue).wf(),
    ensures
        final(queue).wf(),
        old(queue)@.len() == 0 ==> r is None && final(queue)@ == old(queue)@,
        old(queue)@.len() > 0 ==> {
            &&& final(queue)@ == old(queue)@.drop_first()
            &&& r == Some(decoded_word(old(queue)@[0]))
        },
{
    match queue.dequeue() {
        Some(word) => match Ps2Decoder::check_word(word) {
            Some(byte) => Some(Ok(byte)),
            None => Some(Err(word)),
        },
        None => None,
    }
}

} // verus!
