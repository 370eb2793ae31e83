//! Tests for the bounded word queue.

use neotron_bmc::queue::WordQueue;

#[test]
fn fifo_order_up_to_capacity() {
    let mut q = WordQueue::new();
    for i in 0..8u16 {
        assert_eq!(q.enqueue(100 + i), Ok(()));
    }
    assert_eq!(q.pending(), 8);
    for i in 0..8u16 {
        assert_eq!(q.dequeue(), Some(100 + i));
    }
    assert_eq!(q.dequeue(), None);
}

#[test]
fn ninth_enqueue_rejected() {
    let mut q = WordQueue::new();
    for i in 0..8u16 {
        assert_eq!(q.enqueue(i), Ok(()));
    }
    // The queue is full: the ninth word is handed back, and the stored
    // words are untouched.
    assert_eq!(q.enqueue(999), Err(999));
    assert_eq!(q.pending(), 8);
    assert_eq!(q.dequeue(), Some(0));
}

#[test]
fn empty_dequeue_is_not_an_error() {
    let mut q = WordQueue::new();
    assert_eq!(q.dequeue(), None);
    assert_eq!(q.pending(), 0);
}

#[test]
fn interleaved_wraparound_keeps_order() {
    let mut q = WordQueue::new();
    let mut next_in = 0u16;
    let mut next_out = 0u16;
    // Push the ring's head around several times.
    for _ in 0..5 {
        for _ in 0..6 {
            assert_eq!(q.enqueue(next_in), Ok(()));
            next_in += 1;
        }
        for _ in 0..6 {
            assert_eq!(q.dequeue(), Some(next_out));
            next_out += 1;
        }
    }
    assert_eq!(q.dequeue(), None);
}
