//! The executable driver: interrupt-facing state block and task-facing handle.
//!
//! [`StateInner`] is the state shared between the two interrupt handlers and
//! the application task; in the firmware every access to it happens inside an
//! interrupt or a critical section with both interrupt lines disabled, so the
//! handlers below see it exclusively. Each handler is proved to implement the
//! corresponding step function of [`crate::machine`] exactly.

use vstd::prelude::*;

use crate::buffers::{
    rx_buf_new, rx_into_packet, rx_len, rx_push, tx_contents, tx_dequeue, tx_enqueue, tx_queue_new,
    TxQueue,
};
use crate::machine::{
    error_step, event_step, fault_list, initial_model, is_expected_end, poll_step, tx_capacity,
};
use crate::packet::{default_packet, Packet, PACKET_LEN};
use crate::stage::{
    Diagnostic, DriverModel, ErrorFlags, ErrorOutcome, EventFlags, EventOutcome, Fault, Stage,
};

verus! {

/// Builds an [`EventOutcome`] that requests nothing.
fn quiet() -> (o: EventOutcome)
    ensures
        o == crate::stage::quiet_outcome(),
{
    EventOutcome {
        clear_addr: false,
        write_dr: None,
        read_dr: false,
        clear_stop: false,
        disable_ack: false,
        wake: None,
        diagnostic: None,
    }
}

/// Classifies every set fault flag, in the fixed reporting order.
pub fn classify_faults(f: ErrorFlags) -> (v: Vec<Fault>)
    ensures
        v@ == fault_list(f),
{
    let mut v: Vec<Fault> = Vec::new();
    if f.berr {
        v.push(Fault::BusError);
    }
    if f.arlo {
        v.push(Fault::ArbitrationLost);
    }
    if f.af {
        v.push(Fault::AckFailure);
    }
    if f.ovr {
        v.push(Fault::Overrun);
    }
    if f.pecerr {
        v.push(Fault::PecFailure);
    }
    if f.timeout {
        v.push(Fault::Timeout);
    }
    if f.smbalert {
        v.push(Fault::SmbAlert);
    }
    v
}

/// The driver's internal state: the protocol stage, the outbound queue, the
/// wake registration and the modelled acknowledge bit of the control
/// register. Mutated only by the interrupt handlers and, within critical
/// sections, by the task-facing handle.
pub struct StateInner {
    stage: Stage,
    tx_buffer: TxQueue,
    waiter: Option<u64>,
    ack: bool,
}

impl View for StateInner {
    type V = DriverModel;

    closed spec fn view(&self) -> DriverModel {
        DriverModel {
            stage: self.stage@,
            tx: tx_contents(self.tx_buffer),
            ack: self.ack,
            waiter: self.waiter,
        }
    }
}

impl StateInner {
    /// The state a freshly constructed driver starts in.
    pub fn new() -> (s: StateInner)
        ensures
            s@ == initial_model(),
    {
        StateInner { stage: Stage::Waiting, tx_buffer: tx_queue_new(), waiter: None, ack: true }
    }

    /// The event interrupt handler. `f` holds the status flags just read;
    /// `dr` is the byte the data register would yield if read. The returned
    /// outcome lists the register actions the caller owes the peripheral.
    pub fn on_event(&mut self, f: EventFlags, dr: u8) -> (out: EventOutcome)
        ensures
            final(self)@ == event_step(old(self)@, f, dr).0,
            out == event_step(old(self)@, f, dr).1,
    {
        if f.addr {
            if f.tra {
                // Host reads: transmit the next queued packet, or zeros.
                let packet = match tx_dequeue(&mut self.tx_buffer) {
                    Some(p) => p,
                    None => default_packet(),
                };
                self.stage = Stage::Transmitting(packet, 0);
                let mut out = quiet();
                out.clear_addr = true;
                out
            } else {
                // Host writes: assemble a fresh inbound transfer.
                self.stage = Stage::Receiving(rx_buf_new());
                let mut out = quiet();
                out.clear_addr = true;
                out
            }
        } else {
            // Take the stage out so its buffers can be moved.
            let mut st = Stage::Waiting;
            core::mem::swap(&mut self.stage, &mut st);
            match st {
                Stage::Transmitting(packet, idx) => {
                    if f.tx_e {
                        // Emit the next byte, or a padding zero past the end.
                        let byte = if idx < PACKET_LEN {
                            packet[idx]
                        } else {
                            0u8
                        };
                        let next = if idx < PACKET_LEN {
                            idx + 1
                        } else {
                            idx
                        };
                        self.stage = Stage::Transmitting(packet, next);
                        let mut out = quiet();
                        out.write_dr = Some(byte);
                        out
                    } else {
                        self.stage = Stage::Transmitting(packet, idx);
                        quiet()
                    }
                },
                Stage::Receiving(mut buf) => {
                    if f.rx_ne {
                        let pushed = rx_push(&mut buf, dr);
                        self.stage = Stage::Receiving(buf);
                        let mut out = quiet();
                        out.read_dr = true;
                        if pushed.is_err() {
                            // Buffer full: the byte is dropped, the
                            // transfer continues, the tail is lost.
                            out.diagnostic = Some(Diagnostic::RxOverflow);
                        }
                        out
                    } else if f.stopf {
                        // Transfer complete. Withhold acknowledgment until
                        // the application drains the packet, and wake the
                        // registered waiter.
                        let wake = self.waiter;
                        self.waiter = None;
                        self.ack = false;
                        let mut out = quiet();
                        out.clear_stop = true;
                        out.disable_ack = true;
                        out.wake = wake;
                        match rx_into_packet(buf) {
                            Ok(p) => {
                                self.stage = Stage::ReceivedDataReady(p);
                            },
                            Err(b) => {
                                let got = rx_len(&b);
                                out.diagnostic = Some(Diagnostic::LengthMismatch(got));
                                self.stage = Stage::ReceivedDataReady(default_packet());
                            },
                        }
                        out
                    } else {
                        self.stage = Stage::Receiving(buf);
                        quiet()
                    }
                },
                Stage::Waiting => {
                    // Event with no stage matching it: resynchronize.
                    self.stage = Stage::Waiting;
                    let mut out = quiet();
                    out.clear_stop = f.stopf;
                    out.read_dr = f.rx_ne;
                    out
                },
                Stage::ReceivedDataReady(p) => {
                    self.stage = Stage::ReceivedDataReady(p);
                    let mut out = quiet();
                    out.clear_stop = f.stopf;
                    out.read_dr = f.rx_ne;
                    out
                },
            }
        }
    }

    /// The error interrupt handler. A no-ack while transmitting is the
    /// expected end of a host read and only returns the stage to `Waiting`;
    /// everything else is classified and answered with full recovery.
    pub fn on_error(&mut self, f: ErrorFlags) -> (out: ErrorOutcome)
        ensures
            final(self)@ == error_step(old(self)@, f),
            out.expected_end == is_expected_end(old(self)@, f),
            out.clear_af == is_expected_end(old(self)@, f),
            out.enable_ack == !is_expected_end(old(self)@, f),
            out.clear_status == !is_expected_end(old(self)@, f),
            out.resync == !is_expected_end(old(self)@, f),
            out.faults@ == if is_expected_end(old(self)@, f) {
                Seq::<Fault>::empty()
            } else {
                fault_list(f)
            },
    {
        let transmitting = match &self.stage {
            Stage::Transmitting(..) => true,
            _ => false,
        };
        if transmitting && f.af {
            self.stage = Stage::Waiting;
            ErrorOutcome {
                expected_end: true,
                clear_af: true,
                enable_ack: false,
                clear_status: false,
                resync: false,
                faults: Vec::new(),
            }
        } else {
            // Unconditional recovery: acknowledgment back on, every status
            // flag cleared, any in-progress transfer abandoned.
            self.stage = Stage::Waiting;
            self.ack = true;
            ErrorOutcome {
                expected_end: false,
                clear_af: false,
                enable_ack: true,
                clear_status: true,
                resync: true,
                faults: classify_faults(f),
            }
        }
    }

    /// One poll from the application task: takes a ready packet and re-arms
    /// acknowledgment, or registers the caller as the waiter (the most
    /// recent registration wins) to be woken by the event handler.
    pub fn poll_received_packet(&mut self, waker: u64) -> (r: Option<Packet>)
        ensures
            final(self)@ == poll_step(old(self)@, waker).0,
            r is Some <==> poll_step(old(self)@, waker).1 is Some,
            r matches Some(p) ==> Some(p@) == poll_step(old(self)@, waker).1,
    {
        let mut st = Stage::Waiting;
        core::mem::swap(&mut self.stage, &mut st);
        match st {
            Stage::ReceivedDataReady(p) => {
                // Stage stays `Waiting`; the host may transfer again.
                self.ack = true;
                Some(p)
            },
            other => {
                self.stage = other;
                self.waiter = Some(waker);
                None
            },
        }
    }
}

/// The handle the application task holds. In the firmware its methods run
/// inside critical sections (both interrupt lines disabled), which is the
/// sole synchronization discipline of the system.
pub struct I2cSlave {
    /// The shared state block, advanced by the interrupt handlers.
    pub inner: StateInner,
    /// The 7-bit slave address the peripheral answers to.
    pub address: u16,
}

impl I2cSlave {
    /// Constructs the driver for the given 7-bit slave address. In the
    /// firmware this also configures the peripheral registers and installs
    /// the interrupt handlers, and must happen outside interrupt context.
    pub fn new(address: u16) -> (s: I2cSlave)
        requires
            address < 128,
        ensures
            s.inner@ == initial_model(),
            s.address == address,
    {
        I2cSlave { inner: StateInner::new(), address }
    }

    /// Queues a packet for the host's next read transfers. Returns the
    /// packet unchanged when the queue already holds its capacity of 16;
    /// never blocks, never silently drops.
    pub fn enqueue(&mut self, packet: Packet) -> (r: Result<(), Packet>)
        ensures
            r is Ok <==> old(self).inner@.tx.len() < tx_capacity(),
            r is Ok ==> final(self).inner@ == (DriverModel {
                tx: old(self).inner@.tx.push(packet@),
                ..old(self).inner@
            }),
            r matches Err(p) ==> p == packet && final(self).inner@ == old(self).inner@,
            final(self).address == old(self).address,
    {
        tx_enqueue(&mut self.inner.tx_buffer, packet)
    }

    /// One poll for the next complete inbound packet: the task-facing face
    /// of [`StateInner::poll_received_packet`].
    pub fn poll_received(&mut self, waker: u64) -> (r: Option<Packet>)
        ensures
            final(self).inner@ == poll_step(old(self).inner@, waker).0,
            r is Some <==> poll_step(old(self).inner@, waker).1 is Some,
            r matches Some(p) ==> Some(p@) == poll_step(old(self).inner@, waker).1,
            final(self).address == old(self).address,
    {
        self.inner.poll_received_packet(waker)
    }
}

} // verus!
