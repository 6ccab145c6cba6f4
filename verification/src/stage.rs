//! Protocol state and the events that drive it.
//!
//! [`Stage`] is the single source of truth for what the bus is doing right
//! now. It is advanced only by the two interrupt handlers; the application
//! task merely consumes `ReceivedDataReady` and resets to `Waiting`.

use vstd::prelude::*;

use crate::buffers::{rx_contents, RxBuf};
use crate::packet::Packet;

verus! {

/// The protocol stage. Exactly one instance exists per driver.
pub enum Stage {
    /// Idle; no transfer in progress. The initial stage, re-entered after
    /// every completed or aborted transfer.
    Waiting,
    /// Address-matched with the host reading. The `usize` is the index of
    /// the next byte to emit; once it reaches the packet length it stays
    /// there and padding zero bytes are emitted.
    Transmitting(Packet, usize),
    /// Address-matched with the host writing; the buffer accumulates the
    /// incoming bytes, up to its fixed capacity.
    Receiving(RxBuf),
    /// A complete inbound transfer is waiting for the application task.
    ReceivedDataReady(Packet),
}

/// The mathematical shape of a [`Stage`].
pub enum StageView {
    Waiting,
    Transmitting { packet: Seq<u8>, cursor: int },
    Receiving { buf: Seq<u8> },
    Ready { packet: Seq<u8> },
}

impl View for Stage {
    type V = StageView;

    open spec fn view(&self) -> StageView {
        match *self {
            Stage::Waiting => StageView::Waiting,
            Stage::Transmitting(p, i) => StageView::Transmitting { packet: p@, cursor: i as int },
            Stage::Receiving(b) => StageView::Receiving { buf: rx_contents(b) },
            Stage::ReceivedDataReady(p) => StageView::Ready { packet: p@ },
        }
    }
}

/// Status flags of the event interrupt, as read from the status registers.
/// `tra` is the transfer-direction bit latched by the secondary status read:
/// true when the host is reading (the driver transmits).
#[derive(Clone, Copy)]
pub struct EventFlags {
    /// The bus master has addressed this peripheral.
    pub addr: bool,
    /// Direction of the matched transfer: true when the host reads.
    pub tra: bool,
    /// Transmit register empty: ready for the next outbound byte.
    pub tx_e: bool,
    /// Receive register not empty: an inbound byte is available.
    pub rx_ne: bool,
    /// Stop condition seen on the bus.
    pub stopf: bool,
}

/// Fault flags of the error interrupt. Several may be set at once.
#[derive(Clone, Copy)]
pub struct ErrorFlags {
    /// Bus error (misplaced start or stop).
    pub berr: bool,
    /// Arbitration lost to another master.
    pub arlo: bool,
    /// Acknowledge failure: no ack received for the last byte.
    pub af: bool,
    /// Overrun or underrun of the data register.
    pub ovr: bool,
    /// Packet-error-checking failure.
    pub pecerr: bool,
    /// Bus timeout.
    pub timeout: bool,
    /// SMBus alert.
    pub smbalert: bool,
}

/// One classified bus fault, for the diagnostic log.
#[derive(Clone, Copy, PartialEq, Eq, Debug)]
pub enum Fault {
    BusError,
    ArbitrationLost,
    AckFailure,
    Overrun,
    PecFailure,
    Timeout,
    SmbAlert,
}

/// A local condition worth logging; never fatal and never propagated to the
/// application task as an error.
#[derive(Clone, Copy, PartialEq, Eq, Debug)]
pub enum Diagnostic {
    /// An inbound byte arrived with the assembly buffer already full; the
    /// byte was dropped and the transfer continues.
    RxOverflow,
    /// The completed inbound transfer did not have the packet length; the
    /// value is the length received, and a default packet was delivered.
    LengthMismatch(usize),
}

/// What the event handler asks the caller to do to the peripheral registers,
/// beyond the status read that produced the flags. The caller performs each
/// requested action with the documented two-step clear sequences.
pub struct EventOutcome {
    /// Clear the address-match flag (read the status register, then the
    /// secondary status register).
    pub clear_addr: bool,
    /// Write this byte into the data register.
    pub write_dr: Option<u8>,
    /// Read (and so drain) the data register.
    pub read_dr: bool,
    /// Clear the stop-condition flag (read the status register, then write
    /// the control register).
    pub clear_stop: bool,
    /// Withhold acknowledgment until the received packet is consumed.
    pub disable_ack: bool,
    /// Wake this registered waiter: a packet is ready.
    pub wake: Option<u64>,
    /// A condition to log.
    pub diagnostic: Option<Diagnostic>,
}

/// An [`EventOutcome`] that requests nothing.
pub open spec fn quiet_outcome() -> EventOutcome {
    EventOutcome {
        clear_addr: false,
        write_dr: None,
        read_dr: false,
        clear_stop: false,
        disable_ack: false,
        wake: None,
        diagnostic: None,
    }
}

/// What the error handler asks the caller to do to the registers.
pub struct ErrorOutcome {
    /// The no-ack flag ended a transmission: the expected termination of a
    /// host read, not a fault.
    pub expected_end: bool,
    /// Clear only the acknowledge-failure flag.
    pub clear_af: bool,
    /// Re-enable acknowledgment.
    pub enable_ack: bool,
    /// Clear the whole status register.
    pub clear_status: bool,
    /// Afterwards re-check address-match, stop-condition and pending-receive
    /// artifacts and clear each that is still set, with the same two-step
    /// sequences the event handler uses.
    pub resync: bool,
    /// Every fault flag that was set, classified, for the log.
    pub faults: Vec<Fault>,
}

/// The whole driver state as mathematics: the protocol stage, the queued
/// outbound packets (front first), whether acknowledgment is currently
/// enabled, and the registered waiter, if any.
pub struct DriverModel {
    pub stage: StageView,
    pub tx: Seq<Seq<u8>>,
    pub ack: bool,
    pub waiter: Option<u64>,
}

} // verus!
