//! Bit-level decoder for the PS/2-style keyboard/mouse line protocol.
//!
//! Each frame has 11 bits, arriving one per clock edge: a start bit (must be
//! low), 8 data bits least-significant first, an odd parity bit, and a stop
//! bit (must be high). Collection never fails: after the 11th bit the raw
//! word is handed off and the decoder re-arms unconditionally. Validation is
//! a separate pure check applied later, in background context.

use vstd::prelude::*;

verus! {

/// The numeric value of a bit sequence, least significant bit first.
pub open spec fn word_value(bits: Seq<bool>) -> int
    decreases bits.len(),
{
    if bits.len() == 0 {
        0
    } else {
        word_value(bits.drop_last()) + if bits.last() {
            (1u16 << ((bits.len() - 1) as u16)) as int
        } else {
            0
        }
    }
}

/// A bit sequence of at most 15 bits values to less than one bit beyond its
/// top position.
pub proof fn lemma_word_value_bound(bits: Seq<bool>)
    requires
        bits.len() <= 15,
    ensures
        0 <= word_value(bits) < (1u16 << (bits.len() as u16)),
    decreases bits.len(),
{
    if bits.len() == 0 {
        assert(1u16 << 0u16 == 1u16) by (bit_vector);
    } else {
        lemma_word_value_bound(bits.drop_last());
        let k: u16 = (bits.len() - 1) as u16;
        assert((1u16 << k) + (1u16 << k) == (1u16 << ((k + 1) as u16))) by (bit_vector)
            requires
                k <= 14,
        ;
    }
}

/// Accumulates line-protocol frames bit by bit. `bit_mask` marks the
/// position the next bit lands on; `collector` holds the bits seen so far.
pub struct Ps2Decoder {
    /// The single set bit marks where the next incoming bit is placed.
    pub bit_mask: u16,
    /// The bits collected since the last frame completed.
    pub collector: u16,
    /// The collected bits themselves, oldest (least significant) first.
    pub bits: Ghost<Seq<bool>>,
}

impl Ps2Decoder {
    /// The mask tracks how many bits were collected, and the collector is
    /// exactly their value.
    pub open spec fn wf(self) -> bool {
        &&& self.bits@.len() <= 10
        &&& self.bit_mask == 1u16 << (self.bits@.len() as u16)
        &&& self.collector == word_value(self.bits@)
    }

    /// A fresh decoder awaiting a start bit.
    pub fn new() -> (d: Ps2Decoder)
        ensures
            d.wf(),
            d.bits@ == Seq::<bool>::empty(),
    {
        proof {
            assert(1u16 << 0u16 == 1u16) by (bit_vector);
        }
        Ps2Decoder { bit_mask: 1, collector: 0, bits: Ghost(Seq::empty()) }
    }

    /// Re-arm for the next frame, dropping any partial collection.
    pub fn reset(&mut self)
        ensures
            final(self).wf(),
            final(self).bits@ == Seq::<bool>::empty(),
    {
        proof {
            assert(1u16 << 0u16 == 1u16) by (bit_vector);
        }
        self.bit_mask = 1;
        self.collector = 0;
        self.bits = Ghost(Seq::empty());
    }

    /// Take in one bit. The first ten bits of a frame are collected
    /// silently; the eleventh completes the frame, whose raw value — the
    /// collected bits, least significant first — is handed off while the
    /// decoder re-arms unconditionally.
    pub fn add_bit(&mut self, bit: bool) -> (word: Option<u16>)
        requires
            old(self).wf(),
        ensures
            final(self).wf(),
            old(self).bits@.len() < 10 ==> word is None && final(self).bits@ == old(
                self,
            ).bits@.push(bit),
            old(self).bits@.len() == 10 ==> word == Some(
                word_value(old(self).bits@.push(bit)) as u16,
            ) && final(self).bits@ == Seq::<bool>::empty(),
    {
        let ghost prev = self.bits@;
        proof {
            lemma_word_value_bound(prev);
        }
        if bit {
            proof {
                let c = self.collector;
                let k: u16 = prev.len() as u16;
                assert((c | (1u16 << k)) == c + (1u16 << k)) by (bit_vector)
                    requires
                        k <= 10,
                        c < (1u16 << k),
                ;
            }
            self.collector = self.collector | self.bit_mask;
        }
        self.bits = Ghost(prev.push(bit));
        proof {
            assert(prev.push(bit).drop_last() =~= prev);
        }
        if self.bit_mask == 0b100_0000_0000 {
            proof {
                let k: u16 = prev.len() as u16;
                assert((1u16 << k) == 0x400u16 ==> k == 10) by (bit_vector)
                    requires
                        k <= 10,
                ;
            }
            let word = self.collector;
            self.reset();
            Some(word)
        } else {
            proof {
                let k: u16 = prev.len() as u16;
                let k1: u16 = (prev.len() + 1) as u16;
                assert((1u16 << k) != 0x400u16 ==> k != 10) by (bit_vector)
                    requires
                        k <= 10,
                ;
                assert(((1u16 << k) << 1u16) == (1u16 << k1)) by (bit_vector)
                    requires
                        k <= 9,
                        k1 == k + 1,
                ;
            }
            self.bit_mask = self.bit_mask << 1u16;
            None
        }
    }

    /// Validate a raw 11-bit frame: the start bit must be low, the stop bit
    /// high, and the parity bit must make the total number of high bits
    /// across data and parity odd. A valid frame yields its data byte; any
    /// malformed frame yields nothing.
    pub fn check_word(word: u16) -> (data: Option<u8>)
        ensures
            data == check_word_spec(word),
    {
        let start = word & 0x001 != 0;
        let parity = word & 0x200 != 0;
        let stop = word & 0x400 != 0;
        let data_bits = ((word >> 1u16) & 0xFF) as u8;

        if start {
            return None;
        }
        if !stop {
            return None;
        }

        let mut ones: u8 = 0;
        if data_bits & 0x01 != 0 {
            ones += 1;
        }
        if data_bits & 0x02 != 0 {
            ones += 1;
        }
        if data_bits & 0x04 != 0 {
            ones += 1;
        }
        if data_bits & 0x08 != 0 {
            ones += 1;
        }
        if data_bits & 0x10 != 0 {
            ones += 1;
        }
        if data_bits & 0x20 != 0 {
            ones += 1;
        }
        if data_bits & 0x40 != 0 {
            ones += 1;
        }
        if data_bits & 0x80 != 0 {
            ones += 1;
        }
        let need_parity = ones % 2 == 0;

        if need_parity != parity {
            return None;
        }

        Some(data_bits)
    }
}

/// Whether the start bit (position 0) of a raw frame is high.
pub open spec fn start_bit(word: u16) -> bool {
    word & 0x001u16 != 0
}

/// Whether the parity bit (position 9) of a raw frame is high.
pub open spec fn parity_bit(word: u16) -> bool {
    word & 0x200u16 != 0
}

/// Whether the stop bit (position 10) of a raw frame is high.
pub open spec fn stop_bit(word: u16) -> bool {
    word & 0x400u16 != 0
}

/// The data byte of a raw frame: positions 1 through 8, LSB first.
pub open spec fn data_byte(word: u16) -> u8 {
    ((word >> 1u16) & 0xFFu16) as u8
}

/// How many bits of a byte are high.
pub open spec fn one_bits(data: u8) -> int {
    (if data & 0x01u8 != 0 {
        1int
    } else {
        0int
    }) + (if data & 0x02u8 != 0 {
        1int
    } else {
        0int
    }) + (if data & 0x04u8 != 0 {
        1int
    } else {
        0int
    }) + (if data & 0x08u8 != 0 {
        1int
    } else {
        0int
    }) + (if data & 0x10u8 != 0 {
        1int
    } else {
        0int
    }) + (if data & 0x20u8 != 0 {
        1int
    } else {
        0int
    }) + (if data & 0x40u8 != 0 {
        1int
    } else {
        0int
    }) + (if data & 0x80u8 != 0 {
        1int
    } else {
        0int
    })
}

/// A raw frame is well formed when its start bit is low, its stop bit is
/// high, and the parity bit is high exactly when the data byte has an even
/// number of high bits (odd parity over data and parity together).
pub open spec fn frame_valid(word: u16) -> bool {
    &&& !start_bit(word)
    &&& stop_bit(word)
    &&& parity_bit(word) == (one_bits(data_byte(word)) % 2 == 0)
}

/// What validation returns for a raw frame.
pub open spec fn check_word_spec(word: u16) -> Option<u8> {
    if frame_valid(word) {
        Some(data_byte(word))
    } else {
        None
    }
}

/// The 11 bits of a raw frame, least significant first.
pub open spec fn frame_bits(word: u16) -> Seq<bool> {
    Seq::new(11, |i: int| (word >> (i as u16)) & 1u16 == 1u16)
}

/// The value of the first `k` frame bits is the frame's low `k` bits.
proof fn lemma_frame_bits_value_take(word: u16, k: u16)
    requires
        k <= 11,
    ensures
        word_value(frame_bits(word).take(k as int)) == word & (((1u16 << k) - 1) as u16),
    decreases k,
{
    if k == 0 {
        assert(frame_bits(word).take(0) =~= Seq::<bool>::empty());
        assert(word & (((1u16 << 0u16) - 1) as u16) == 0u16) by (bit_vector);
    } else {
        let j: u16 = (k - 1) as u16;
        lemma_frame_bits_value_take(word, j);
        let s = frame_bits(word);
        assert(s.take(k as int).drop_last() =~= s.take(j as int));
        assert(s.take(k as int).last() == ((word >> j) & 1u16 == 1u16));
        assert((word & (((1u16 << j) - 1) as u16)) + (if (word >> j) & 1u16 == 1u16 {
            (1u16 << j) as int
        } else {
            0int
        }) == word & (((1u16 << ((j + 1) as u16)) - 1) as u16)) by (bit_vector)
            requires
                j <= 10,
        ;
    }
}

/// Assembling a frame's 11 bits, least significant first, reproduces the
/// frame: what the decoder hands off for the bit stream of `word` is `word`
/// itself.
pub proof fn lemma_assemble_frame(word: u16)
    requires
        word < 0x800,
    ensures
        word_value(frame_bits(word)) == word,
{
    lemma_frame_bits_value_take(word, 11);
    assert(frame_bits(word).take(11) =~= frame_bits(word));
    assert(word & (((1u16 << 11u16) - 1) as u16) == word) by (bit_vector)
        requires
            word < 0x800,
    ;
}

/// The frame round-trip law: assembling the 11 bits of a frame reproduces
/// it, and validation then yields its data byte exactly when the start bit
/// is low, the stop bit is high, and the total count of high bits across
/// data byte and parity bit is odd; every other frame is rejected.
pub proof fn lemma_frame_round_trip(word: u16)
    requires
        word < 0x800,
    ensures
        word_value(frame_bits(word)) == word,
        (check_word_spec(word) == Some(data_byte(word))) <==> (!start_bit(word) && stop_bit(word)
            && (one_bits(data_byte(word)) + (if parity_bit(word) {
            1int
        } else {
            0int
        })) % 2 == 1),
        check_word_spec(word) != Some(data_byte(word)) ==> check_word_spec(word) is None,
{
    lemma_assemble_frame(word);
}

} // verus!
