//! Debounced edge detection for a noisy digital input.
//!
//! A `Debouncer` keeps a shift register of the last `depth` raw samples plus
//! the last confirmed stable level. A level is confirmed once the last
//! `depth` samples are unanimous, and an edge is reported exactly once, on
//! the sample where the confirmed level changes.

use vstd::prelude::*;

verus! {

/// A change in the confirmed level of a monitored input.
#[derive(Copy, Clone, PartialEq, Eq, Structural, Debug)]
pub enum Edge {
    /// The confirmed level changed from low to high.
    Rising,
    /// The confirmed level changed from high to low.
    Falling,
}

/// A debouncer over a `depth`-sample window: the window of recent raw
/// samples is the low `depth` bits of `window` (newest sample in bit 0),
/// and `confirmed` is the last stable level the window unanimously agreed
/// on.
#[verifier::ext_equal]
pub struct Debouncer {
    /// Shift register of the most recent raw samples, one bit per sample.
    pub window: u16,
    /// How many unanimous consecutive samples confirm a level; between 1 and 16.
    pub depth: u8,
    /// The last confirmed stable level.
    pub confirmed: bool,
}

/// The all-ones window of `depth` bits: the value `window` takes when the
/// last `depth` samples were all high.
pub open spec fn window_mask(depth: u8) -> u16
    recommends
        1 <= depth <= 16,
{
    if depth == 16 {
        0xFFFFu16
    } else {
        ((1u16 << depth) - 1) as u16
    }
}

impl Debouncer {
    /// The window never holds bits beyond its depth.
    pub open spec fn wf(self) -> bool {
        &&& 1 <= self.depth <= 16
        &&& self.window <= window_mask(self.depth)
    }

    /// The sample window after shifting one new raw sample in.
    pub open spec fn spec_shift(self, sample: bool) -> u16 {
        ((self.window << 1) | (if sample {
            1u16
        } else {
            0u16
        })) & window_mask(self.depth)
    }

    /// The confirmed level after one new raw sample: it changes only when
    /// the shifted window is unanimous for the opposite level.
    pub open spec fn spec_confirmed_after(self, sample: bool) -> bool {
        if self.spec_shift(sample) == window_mask(self.depth) {
            true
        } else if self.spec_shift(sample) == 0 {
            false
        } else {
            self.confirmed
        }
    }

    /// The edge reported for one new raw sample, if any.
    pub open spec fn spec_edge(self, sample: bool) -> Option<Edge> {
        if self.spec_shift(sample) == window_mask(self.depth) && !self.confirmed {
            Some(Edge::Rising)
        } else if self.spec_shift(sample) == 0 && self.confirmed {
            Some(Edge::Falling)
        } else {
            None
        }
    }

    /// The whole debouncer state after one new raw sample.
    pub open spec fn spec_update(self, sample: bool) -> Debouncer {
        Debouncer {
            window: self.spec_shift(sample),
            depth: self.depth,
            confirmed: self.spec_confirmed_after(sample),
        }
    }

    /// A fresh debouncer confirming after `depth` unanimous samples, with
    /// `initial` as the already-confirmed level.
    pub fn new(depth: u8, initial: bool) -> (d: Debouncer)
        requires
            1 <= depth <= 16,
        ensures
            d.wf(),
            d.depth == depth,
            d.confirmed == initial,
            d.window == if initial {
                window_mask(depth)
            } else {
                0u16
            },
    {
        let window = if initial {
            mask_of(depth)
        } else {
            0u16
        };
        Debouncer { window, depth, confirmed: initial }
    }

    /// Push one raw sample and report the confirmed edge, if this sample
    /// produced one.
    pub fn update(&mut self, sample: bool) -> (edge: Option<Edge>)
        requires
            old(self).wf(),
        ensures
            final(self).wf(),
            *final(self) == old(self).spec_update(sample),
            edge == old(self).spec_edge(sample),
    {
        let mask = mask_of(self.depth);
        let bit: u16 = if sample {
            1
        } else {
            0
        };
        let shifted = ((self.window << 1u16) | bit) & mask;
        proof {
            let w = self.window;
            let d = self.depth;
            assert(((w << 1u16) | bit) & mask <= mask) by (bit_vector);
            assert(window_mask(d) != 0u16) by (bit_vector)
                requires
                    1 <= d <= 16,
            ;
        }
        self.window = shifted;
        let edge = if self.window == mask && !self.confirmed {
            self.confirmed = true;
            Some(Edge::Rising)
        } else if self.window == 0 && self.confirmed {
            self.confirmed = false;
            Some(Edge::Falling)
        } else {
            None
        };
        proof {
            assert(*self =~= old(self).spec_update(sample));
        }
        edge
    }

    /// The current confirmed stable level.
    pub fn is_high(&self) -> (level: bool)
        ensures
            level == self.confirmed,
    {
        self.confirmed
    }
}

/// The all-ones window of `depth` bits, computed at run time.
fn mask_of(depth: u8) -> (mask: u16)
    requires
        1 <= depth <= 16,
    ensures
        mask == window_mask(depth),
{
    if depth == 16 {
        0xFFFFu16
    } else {
        proof {
            assert(1u16 << depth >= 1u16) by (bit_vector)
                requires
                    depth < 16,
            ;
        }
        (1u16 << depth) - 1
    }
}

/// Debounce idempotence: once the debouncer has confirmed a level, a further
/// sample at that same level produces no edge and leaves the confirmed level
/// unchanged — so any number of identical samples after confirmation is
/// silent.
pub proof fn lemma_confirmed_idempotent(d: Debouncer, sample: bool)
    requires
        d.wf(),
        d.confirmed == sample,
    ensures
        d.spec_edge(sample) is None,
        d.spec_confirmed_after(sample) == d.confirmed,
{
    let w = d.window;
    let depth = d.depth;
    if sample {
        assert(((w << 1u16) | 1u16) & window_mask(depth) != 0u16) by (bit_vector)
            requires
                1 <= depth <= 16,
        ;
    } else {
        assert(((w << 1u16) | 0u16) & window_mask(depth) != window_mask(depth)) by (bit_vector)
            requires
                1 <= depth <= 16,
        ;
    }
}

} // verus!
