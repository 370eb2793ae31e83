//! Tests for the virtual register server: end-to-end bus sessions against
//! a three-byte identity string.

use neotron_bmc::registers::RegisterState;
use neotron_bmc::registers::SpiPeripheral;
use neotron_bmc::tasks::on_chip_select_edge;

#[test]
fn register_lookup_with_sentinel() {
    let regs = RegisterState::new(vec![b'N', b'E', b'O']);
    assert_eq!(regs.register_byte(0), b'N');
    assert_eq!(regs.register_byte(1), b'E');
    assert_eq!(regs.register_byte(2), b'O');
    assert_eq!(regs.register_byte(3), 0xFF);
    assert_eq!(regs.register_byte(0xFF), 0xFF);
}

#[test]
fn end_to_end_session_reads_two_registers() {
    let regs = RegisterState::new(vec![b'N', b'E', b'O']);
    let mut spi = SpiPeripheral::new();
    spi.enable();
    // One continuous session: each (padding, offset) pair is answered two
    // exchanges later, trailed by a filler.
    let sent = [0x00, 0x00, 0x00, 0x01, 0x00, 0x00];
    let mut wire = Vec::new();
    for b in sent {
        wire.push(spi.exchange(&regs, b));
    }
    // Exchange 1 shifts the preloaded filler; the 'N' for offset 0 leaves
    // on the 4th exchange, the 'E' for offset 1 on the 6th.
    assert_eq!(wire, vec![0xFF, 0x00, 0x00, b'N', 0xFF, b'E']);
}

#[test]
fn out_of_range_offset_yields_sentinel() {
    let regs = RegisterState::new(vec![b'N', b'E', b'O']);
    let mut spi = SpiPeripheral::new();
    spi.enable();
    let sent = [0x00, 0xFF, 0x00, 0x00];
    let mut wire = Vec::new();
    for b in sent {
        wire.push(spi.exchange(&regs, b));
    }
    assert_eq!(wire, vec![0xFF, 0x00, 0x00, 0xFF]);
}

#[test]
fn new_session_restarts_the_pairing() {
    let regs = RegisterState::new(vec![b'N', b'E', b'O']);
    let mut spi = SpiPeripheral::new();

    // First session: request offset 2 but drop chip-select before the
    // reply leaves; the transfer in flight is abandoned.
    on_chip_select_edge(&mut spi, true);
    assert!(spi.enabled);
    spi.exchange(&regs, 0x00);
    spi.exchange(&regs, 0x02);
    on_chip_select_edge(&mut spi, false);
    assert!(!spi.enabled);

    // Second session: the counter and output start fresh.
    on_chip_select_edge(&mut spi, true);
    let mut wire = Vec::new();
    for b in [0x00, 0x02, 0x00, 0x00] {
        wire.push(spi.exchange(&regs, b));
    }
    assert_eq!(wire, vec![0xFF, 0x00, 0x00, b'O']);
}

#[test]
fn read_pairs_padding_and_offset() {
    let regs = RegisterState::new(vec![b'A']);
    let mut spi = SpiPeripheral::new();
    spi.enable();
    // The first byte of each pair is padding, the second an offset.
    assert_eq!(spi.read(0x42), None);
    assert_eq!(spi.read(0x00), Some(0x00));
    assert_eq!(spi.read(0x99), None);
    assert_eq!(spi.read(0x07), Some(0x07));
}

#[test]
fn reply_leaves_on_a_following_exchange() {
    let regs = RegisterState::new(vec![b'A', b'B']);
    let mut spi = SpiPeripheral::new();
    spi.enable();
    spi.exchange(&regs, 0x00);
    spi.exchange(&regs, 0x01);
    // The looked-up byte is queued during the next exchange and leaves on
    // the one after, trailed by a filler.
    assert_eq!(spi.exchange(&regs, 0x00), 0x00);
    assert_eq!(spi.exchange(&regs, 0x00), b'B');
    assert_eq!(spi.exchange(&regs, 0x00), 0xFF);
}
