//! Lockstep frame synchronization for a two-peer trail game.
//!
//! Two independently clocked processes keep a simulation in perfect agreement
//! over an unreliable byte stream. The crate provides the single-byte wire
//! codec, the frame-barrier session state machine that decides when a frame
//! may run, the deterministic simulation stepper that consumes the
//! synchronized inputs, and the small handshake records exchanged before a
//! session starts. All I/O stays outside: callers feed bytes and stimuli in
//! and carry packets and outcomes out.

pub mod codec;
pub mod game;
pub mod handshake;
pub mod session;
