//! Bounded FIFO queue for decoded line-protocol words.
//!
//! The queue moves words from the decoder's interrupt context to background
//! processing. It holds at most [`QUEUE_CAPACITY`] words; enqueueing onto a
//! full queue is refused (the word is handed back, and the producer treats
//! that as a sizing bug), while dequeueing from an empty queue simply
//! reports that nothing is pending.

use vstd::prelude::*;

verus! {

/// How many words the queue can hold at once.
pub const QUEUE_CAPACITY: usize = 8;

/// A fixed-capacity ring buffer of 11-bit line-protocol words: `len` words
/// are stored, oldest first, starting at slot `head`.
pub struct WordQueue {
    /// Backing storage; always exactly `QUEUE_CAPACITY` slots.
    pub buf: Vec<u16>,
    /// Slot of the oldest stored word.
    pub head: usize,
    /// How many words are stored.
    pub len: usize,
}

impl WordQueue {
    /// The storage has its fixed size and the indices stay in range.
    pub open spec fn wf(self) -> bool {
        &&& self.buf@.len() == QUEUE_CAPACITY
        &&& self.head < QUEUE_CAPACITY
        &&& self.len <= QUEUE_CAPACITY
    }

    /// The slot holding the `i`-th stored word, counting from the oldest.
    pub open spec fn slot(self, i: int) -> int {
        if self.head + i < QUEUE_CAPACITY {
            self.head + i
        } else {
            self.head + i - QUEUE_CAPACITY
        }
    }

    /// A fresh, empty queue.
    pub fn new() -> (q: WordQueue)
        ensures
            q.wf(),
            q@ == Seq::<u16>::empty(),
    {
        let mut buf: Vec<u16> = Vec::new();
        let mut i: usize = 0;
        while i < QUEUE_CAPACITY
            invariant
                i <= QUEUE_CAPACITY,
                buf@.len() == i,
            decreases QUEUE_CAPACITY - i,
        {
            buf.push(0);
            i += 1;
        }
        let q = WordQueue { buf, head: 0, len: 0 };
        proof {
            assert(q@ =~= Seq::<u16>::empty());
        }
        q
    }

    /// Store one word at the back of the queue, or hand it back unchanged
    /// when the queue is already full.
    pub fn enqueue(&mut self, word: u16) -> (r: Result<(), u16>)
        requires
            old(self).wf(),
        ensures
            final(self).wf(),
            old(self)@.len() < QUEUE_CAPACITY ==> r is Ok && final(self)@ == old(self)@.push(word),
            old(self)@.len() == QUEUE_CAPACITY ==> r == Err::<(), u16>(word) && final(self)@ == old(
                self,
            )@,
    {
        if self.len == QUEUE_CAPACITY {
            return Err(word);
        }
        let mut idx = self.head + self.len;
        if idx >= QUEUE_CAPACITY {
            idx -= QUEUE_CAPACITY;
        }
        self.buf[idx] = word;
        self.len += 1;
        proof {
            assert(self@ =~= old(self)@.push(word));
        }
        Ok(())
    }

    /// Take the oldest stored word out of the queue, or report that nothing
    /// is pending.
    pub fn dequeue(&mut self) -> (r: Option<u16>)
        requires
            old(self).wf(),
        ensures
            final(self).wf(),
            old(self)@.len() == 0 ==> r is None && final(self)@ == old(self)@,
            old(self)@.len() > 0 ==> r == Some(old(self)@[0]) && final(self)@ == old(
                self,
            )@.drop_first(),
    {
        if self.len == 0 {
            return None;
        }
        let word = self.buf[self.head];
        self.head = if self.head + 1 == QUEUE_CAPACITY {
            0
        } else {
            self.head + 1
        };
        self.len -= 1;
        proof {
            assert(self@ =~= old(self)@.drop_first());
        }
        Some(word)
    }

    /// How many words are pending.
    pub fn pending(&self) -> (n: usize)
        ensures
            n == self@.len(),
    {
        self.len
    }
}

impl View for WordQueue {
    type V = Seq<u16>;

    /// The stored words, oldest first.
    open spec fn view(&self) -> Seq<u16> {
        Seq::new(self.len as nat, |i: int| self.buf@[self.slot(i)])
    }
}

/// The contents of a queue filled from empty by enqueueing the words of
/// `words` one at a time, following `enqueue`'s contract.
pub open spec fn filled_from_empty(words: Seq<u16>) -> Seq<u16>
    decreases words.len(),
{
    if words.len() == 0 {
        Seq::<u16>::empty()
    } else {
        filled_from_empty(words.drop_last()).push(words.last())
    }
}

/// FIFO order: filling a queue from empty with up to [`QUEUE_CAPACITY`]
/// words leaves exactly those words in arrival order, so `dequeue` — which
/// always returns the first of the stored words — hands them back oldest
/// first.
pub proof fn lemma_fifo_order(words: Seq<u16>)
    requires
        words.len() <= QUEUE_CAPACITY,
    ensures
        filled_from_empty(words) == words,
    decreases words.len(),
{
    if words.len() == 0 {
        assert(filled_from_empty(words) =~= words);
    } else {
        lemma_fifo_order(words.drop_last());
        assert(filled_from_empty(words) =~= words);
    }
}

} // verus!
