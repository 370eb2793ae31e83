//! The virtual register server: the slave side of a register-read protocol
//! over a full-duplex synchronous serial bus.
//!
//! The register space is a read-only byte string (the firmware identity).
//! Because the transmit register must be loaded one exchange ahead, a
//! logical read costs at least two exchanges: the host first sends a
//! padding byte, then the register offset; the served byte leaves on a
//! following exchange, trailed by a filler so further polling returns a
//! defined value. The peripheral is modelled with its outgoing bytes in an
//! explicit transmit list: hardware writes the front of that list onto the
//! wire on each exchange.

use vstd::prelude::*;

verus! {

/// Filler preloaded for the first exchange of a session and sent after
/// each served byte; also the sentinel for an out-of-range offset.
pub const BUS_FILLER: u8 = 0xFF;

/// The read-only register space: a byte string addressed by an 8-bit
/// offset, fixed for the process lifetime.
pub struct RegisterState {
    /// The firmware identity string, read byte by byte over the bus.
    pub firmware_version: Vec<u8>,
}

impl RegisterState {
    /// A register space over the given identity bytes.
    pub fn new(firmware_version: Vec<u8>) -> (r: RegisterState)
        ensures
            r.firmware_version@ == firmware_version@,
    {
        RegisterState { firmware_version }
    }

    /// The byte served for an offset: the identity byte there, or the
    /// sentinel when the offset lies beyond the identity string.
    pub open spec fn spec_register_byte(self, offset: u8) -> u8 {
        if offset < self.firmware_version@.len() {
            self.firmware_version@[offset as int]
        } else {
            BUS_FILLER
        }
    }

    /// Look up the byte served for an offset.
    pub fn register_byte(&self, offset: u8) -> (b: u8)
        ensures
            b == self.spec_register_byte(offset),
    {
        if (offset as usize) < self.firmware_version.len() {
            self.firmware_version[offset as usize]
        } else {
            BUS_FILLER
        }
    }
}

/// The outgoing bytes after the front one has been shifted onto the wire.
pub open spec fn tx_after_shift(tx: Seq<u8>) -> Seq<u8> {
    if tx.len() > 0 {
        tx.drop_first()
    } else {
        tx
    }
}

/// The byte an exchange shifts onto the wire: the front outgoing byte, or
/// zero when nothing is queued (an underrun).
pub open spec fn shifted_byte(tx: Seq<u8>) -> u8 {
    if tx.len() > 0 {
        tx[0]
    } else {
        0u8
    }
}

/// The outgoing bytes after a received byte is handled: a pending reply is
/// queued for transmission, trailed by a filler.
pub open spec fn tx_after_reply(tx: Seq<u8>, reply: Option<u8>) -> Seq<u8> {
    match reply {
        Some(b) => tx.push(b).push(BUS_FILLER),
        None => tx,
    }
}

/// The slave-side bus peripheral: enabled while the host holds chip-select
/// low, a two-phase counter telling a padding byte from an offset byte, the
/// reply awaiting transmission, and the bytes queued to go out.
pub struct SpiPeripheral {
    /// Whether the peripheral is armed (chip-select held low).
    pub enabled: bool,
    /// Two-phase counter: 0 when the next received byte is padding, 1 when
    /// it is a register offset.
    pub count: u8,
    /// A byte looked up for the host, not yet queued to go out.
    pub reply_byte: Option<u8>,
    /// The bytes queued to go out, front first.
    pub tx: Vec<u8>,
}

impl SpiPeripheral {
    /// The two-phase counter never leaves its two phases.
    pub open spec fn wf(self) -> bool {
        self.count <= 1
    }

    /// The peripheral as built at startup: disarmed, nothing pending.
    pub fn new() -> (p: SpiPeripheral)
        ensures
            p.wf(),
            !p.enabled,
            p.count == 0,
            p.reply_byte is None,
            p.tx@ == Seq::<u8>::empty(),
    {
        SpiPeripheral { enabled: false, count: 0, reply_byte: None, tx: Vec::new() }
    }

    /// Arm the peripheral on a falling chip-select edge: restart the
    /// two-phase counter, forget any pending reply, and preload a filler so
    /// the first exchange of the session has defined output.
    pub fn enable(&mut self)
        ensures
            final(self).wf(),
            final(self).enabled,
            final(self).count == 0,
            final(self).reply_byte is None,
            final(self).tx@ == seq![BUS_FILLER],
    {
        self.enabled = true;
        self.count = 0;
        self.reply_byte = None;
        self.tx = Vec::new();
        self.tx.push(BUS_FILLER);
        proof {
            assert(self.tx@ =~= seq![BUS_FILLER]);
        }
    }

    /// Disarm the peripheral on a rising chip-select edge; a transfer in
    /// flight is abandoned.
    pub fn disable(&mut self)
        requires
            old(self).wf(),
        ensures
            final(self).wf(),
            !final(self).enabled,
            final(self).count == old(self).count,
            final(self).reply_byte == old(self).reply_byte,
            final(self).tx@ == Seq::<u8>::empty(),
    {
        self.enabled = false;
        self.tx = Vec::new();
    }

    /// Handle one received byte: queue a pending reply (trailed by a
    /// filler) for transmission, advance the two-phase counter, and return
    /// the byte when it completed a (padding, offset) pair and is therefore
    /// a register offset.
    pub fn read(&mut self, cmd: u8) -> (offset: Option<u8>)
        requires
            old(self).wf(),
            old(self).enabled,
        ensures
            final(self).wf(),
            final(self).enabled,
            final(self).tx@ == tx_after_reply(old(self).tx@, old(self).reply_byte),
            final(self).reply_byte is None,
            final(self).count == (if old(self).count == 0 {
                1u8
            } else {
                0u8
            }),
            offset == (if old(self).count == 1 {
                Some(cmd)
            } else {
                None::<u8>
            }),
    {
        if let Some(b) = self.reply_byte.take() {
            self.tx.push(b);
            self.tx.push(BUS_FILLER);
        }
        if self.count == 0 {
            self.count = 1;
            None
        } else {
            self.count = 0;
            Some(cmd)
        }
    }

    /// Record the byte to serve for the offset just received; it goes out
    /// on a following exchange.
    pub fn reply(&mut self, value: u8)
        requires
            old(self).wf(),
        ensures
            final(self).wf(),
            final(self).enabled == old(self).enabled,
            final(self).count == old(self).count,
            final(self).reply_byte == Some(value),
            final(self).tx@ == old(self).tx@,
    {
        self.reply_byte = Some(value);
    }

    /// Shift the front outgoing byte onto the wire; with nothing queued the
    /// exchange underruns and shifts zeroes.
    pub fn shift_out(&mut self) -> (wire: u8)
        requires
            old(self).wf(),
            old(self).enabled,
        ensures
            final(self).wf(),
            final(self).enabled,
            final(self).count == old(self).count,
            final(self).reply_byte == old(self).reply_byte,
            wire == shifted_byte(old(self).tx@),
            final(self).tx@ == tx_after_shift(old(self).tx@),
    {
        if self.tx.len() == 0 {
            0
        } else {
            self.tx.remove(0)
        }
    }

    /// Handle one received byte end to end: a completed (padding, offset)
    /// pair is answered by looking the offset up in the register space and
    /// holding the byte for a following exchange.
    pub fn process(&mut self, registers: &RegisterState, cmd: u8)
        requires
            old(self).wf(),
            old(self).enabled,
        ensures
            final(self).wf(),
            final(self).enabled,
            final(self).tx@ == tx_after_reply(old(self).tx@, old(self).reply_byte),
            final(self).count == (if old(self).count == 0 {
                1u8
            } else {
                0u8
            }),
            final(self).reply_byte == (if old(self).count == 1 {
                Some(registers.spec_register_byte(cmd))
            } else {
                None::<u8>
            }),
    {
        if let Some(offset) = self.read(cmd) {
            let b = registers.register_byte(offset);
            self.reply(b);
        }
    }

    /// One full bus exchange: the front outgoing byte leaves on the wire
    /// while `incoming` arrives, then the received byte is handled.
    pub fn exchange(&mut self, registers: &RegisterState, incoming: u8) -> (wire: u8)
        requires
            old(self).wf(),
            old(self).enabled,
        ensures
            final(self).wf(),
            final(self).enabled,
            wire == shifted_byte(old(self).tx@),
            final(self).tx@ == tx_after_reply(tx_after_shift(old(self).tx@), old(self).reply_byte),
            final(self).count == (if old(self).count == 0 {
                1u8
            } else {
                0u8
            }),
            final(self).reply_byte == (if old(self).count == 1 {
                Some(registers.spec_register_byte(incoming))
            } else {
                None::<u8>
            }),
    {
        let wire = self.shift_out();
        self.process(registers, incoming);
        wire
    }
}

} // verus!
