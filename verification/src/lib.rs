//! Interrupt-driven I2C slave engine for a key-matrix controller peripheral.
//!
//! The heart of the crate is a bus-level protocol state machine
//! ([`engine::StateInner`]) that turns the status flags of the two I2C
//! interrupt lines (event and error) into stage transitions and register
//! actions. The surrounding firmware performs the actual register reads and
//! writes; every decision is made, and verified, here.

pub mod buffers;
pub mod engine;
pub mod keys;
pub mod laws;
pub mod leds;
pub mod machine;
pub mod packet;
pub mod stage;
