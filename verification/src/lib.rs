//! Core logic of a board management controller: the debounced-input power
//! sequencer, the bit-level keyboard/mouse line decoder, the bounded word
//! queue that carries decoded words out of interrupt context, the one-shot
//! task timer with its shared-resource discipline, and the virtual
//! register server answering reads over a synchronous serial bus.
//!
//! Hardware access (pin levels, peripheral registers, interrupt wiring) is a
//! thin collaborator around this crate: every function here computes from
//! plain values to plain values, so the whole crate is verified.

pub mod debounce;
pub mod power;
pub mod ps2;
pub mod queue;
pub mod registers;
pub mod resources;
pub mod scheduler;
pub mod tasks;
