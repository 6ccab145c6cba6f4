//! The protocol state machine, as specification functions.
//!
//! Each function maps the driver model and one interrupt's flags to the next
//! model and the register actions owed. The executable handlers in
//! [`crate::engine`] are proved to implement these functions exactly.

use vstd::prelude::*;

use crate::packet::zero_packet;
use crate::stage::{
    quiet_outcome, Diagnostic, DriverModel, ErrorFlags, EventFlags, EventOutcome, Fault, StageView,
};

verus! {

/// Capacity of the inbound assembly buffer, in bytes.
pub open spec fn rx_capacity() -> int {
    64
}

/// Number of bytes in a packet.
pub open spec fn packet_len() -> int {
    17
}

/// The driver state established at construction: idle, nothing queued,
/// acknowledgment armed, nobody waiting.
pub open spec fn initial_model() -> DriverModel {
    DriverModel { stage: StageView::Waiting, tx: Seq::empty(), ack: true, waiter: None }
}

/// One step of the event handler: address match takes priority, then the
/// stage-specific flag, then a lightweight resynchronization when the event
/// fired with no stage matching it.
pub open spec fn event_step(pre: DriverModel, f: EventFlags, dr: u8) -> (DriverModel, EventOutcome) {
    if f.addr {
        if f.tra {
            // Host reads: transmit the next queued packet, or zeros.
            let packet = if pre.tx.len() > 0 {
                pre.tx[0]
            } else {
                zero_packet()
            };
            let tx = if pre.tx.len() > 0 {
                pre.tx.skip(1)
            } else {
                pre.tx
            };
            (
                DriverModel { stage: StageView::Transmitting { packet, cursor: 0 }, tx, ..pre },
                EventOutcome { clear_addr: true, ..quiet_outcome() },
            )
        } else {
            // Host writes: start assembling a fresh inbound transfer.
            (
                DriverModel { stage: StageView::Receiving { buf: Seq::empty() }, ..pre },
                EventOutcome { clear_addr: true, ..quiet_outcome() },
            )
        }
    } else {
        match pre.stage {
            StageView::Transmitting { packet, cursor } => {
                if f.tx_e {
                    // Emit the next byte, or a padding zero past the end.
                    let byte = if cursor < packet_len() {
                        packet[cursor]
                    } else {
                        0u8
                    };
                    let next = if cursor < packet_len() {
                        cursor + 1
                    } else {
                        cursor
                    };
                    (
                        DriverModel {
                            stage: StageView::Transmitting { packet, cursor: next },
                            ..pre
                        },
                        EventOutcome { write_dr: Some(byte), ..quiet_outcome() },
                    )
                } else {
                    (pre, quiet_outcome())
                }
            },
            StageView::Receiving { buf } => {
                if f.rx_ne {
                    if buf.len() < rx_capacity() {
                        (
                            DriverModel {
                                stage: StageView::Receiving { buf: buf.push(dr) },
                                ..pre
                            },
                            EventOutcome { read_dr: true, ..quiet_outcome() },
                        )
                    } else {
                        // Buffer full: drop the byte, log, keep receiving.
                        (
                            pre,
                            EventOutcome {
                                read_dr: true,
                                diagnostic: Some(Diagnostic::RxOverflow),
                                ..quiet_outcome()
                            },
                        )
                    }
                } else if f.stopf {
                    // Transfer complete: deliver the buffer as a packet when
                    // it has exactly the packet length, else a default
                    // packet with a diagnostic. Acknowledgment is withheld
                    // until the application drains the packet.
                    let packet = if buf.len() == packet_len() {
                        buf
                    } else {
                        zero_packet()
                    };
                    let diagnostic = if buf.len() == packet_len() {
                        None
                    } else {
                        Some(Diagnostic::LengthMismatch(buf.len() as usize))
                    };
                    (
                        DriverModel {
                            stage: StageView::Ready { packet },
                            ack: false,
                            waiter: None,
                            ..pre
                        },
                        EventOutcome {
                            clear_stop: true,
                            disable_ack: true,
                            wake: pre.waiter,
                            diagnostic,
                            ..quiet_outcome()
                        },
                    )
                } else {
                    (pre, quiet_outcome())
                }
            },
            _ => {
                // Waiting or Ready with no address match: resynchronize by
                // draining whatever flag fired, without a stage transition.
                (
                    pre,
                    EventOutcome { clear_stop: f.stopf, read_dr: f.rx_ne, ..quiet_outcome() },
                )
            },
        }
    }
}

/// The no-ack flag during a transmission is the expected end of a host read,
/// not a fault.
pub open spec fn is_expected_end(pre: DriverModel, f: ErrorFlags) -> bool {
    &&& pre.stage is Transmitting
    &&& f.af
}

/// One step of the error handler. Expected termination only returns to
/// `Waiting`; every other fault forces full recovery: acknowledgment back
/// on, all status cleared, stage abandoned to `Waiting`.
pub open spec fn error_step(pre: DriverModel, f: ErrorFlags) -> DriverModel {
    if is_expected_end(pre, f) {
        DriverModel { stage: StageView::Waiting, ..pre }
    } else {
        DriverModel { stage: StageView::Waiting, ack: true, ..pre }
    }
}

/// Every set fault flag, classified, in the fixed reporting order.
pub open spec fn fault_list(f: ErrorFlags) -> Seq<Fault> {
    let s = Seq::<Fault>::empty();
    let s = if f.berr { s.push(Fault::BusError) } else { s };
    let s = if f.arlo { s.push(Fault::ArbitrationLost) } else { s };
    let s = if f.af { s.push(Fault::AckFailure) } else { s };
    let s = if f.ovr { s.push(Fault::Overrun) } else { s };
    let s = if f.pecerr { s.push(Fault::PecFailure) } else { s };
    let s = if f.timeout { s.push(Fault::Timeout) } else { s };
    let s = if f.smbalert { s.push(Fault::SmbAlert) } else { s };
    s
}

/// One poll of the application task: a ready packet is taken, the stage
/// reset and acknowledgment re-armed; otherwise the caller is registered as
/// the waiter (the most recent registration wins) and must suspend.
pub open spec fn poll_step(pre: DriverModel, waker: u64) -> (DriverModel, Option<Seq<u8>>) {
    match pre.stage {
        StageView::Ready { packet } => (
            DriverModel { stage: StageView::Waiting, ack: true, ..pre },
            Some(packet),
        ),
        _ => (DriverModel { waiter: Some(waker), ..pre }, None),
    }
}

/// Capacity of the outbound queue, in packets: an enqueued packet is
/// appended while the queue is shorter than this, and handed back otherwise.
pub open spec fn tx_capacity() -> int {
    16
}

} // verus!
