//! Cross-context transport for terminal-style UI input events.
//!
//! Input events (mouse, keyboard, resize) are observed in one execution
//! context, collected in a per-producer [`accumulator::Accumulator`], and
//! handed off in whole batches to a shared [`transport::Transport`].  A
//! separate execution context drains the transport through an
//! [`adapter::ConsumerAdapter`], which converts each event into the
//! higher-level form consumed by a render loop.
//!
//! The transport exists in three interchangeable strategies under one
//! contract: an unbounded queue behind a blocking lock
//! ([`blocking_queue`]), a fixed-capacity store behind a non-blocking spin
//! flag ([`spin_ring`]), and a flat word-addressed region for genuinely
//! parallel contexts that share raw memory ([`raw_buffer`]), whose
//! fixed-width event encoding lives in [`codec`].  All three preserve
//! event order end to end, bound their memory, and never leave either
//! side permanently stalled; [`laws`] states those guarantees once, over
//! the transition functions the contracts are written in.

pub mod accumulator;
pub mod adapter;
pub mod blocking_queue;
pub mod codec;
pub mod event;
pub mod flag;
pub mod laws;
pub mod raw_buffer;
pub mod spin_ring;
pub mod transport;
