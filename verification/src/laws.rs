//! System-level laws of the protocol machine.
//!
//! Each proof function states one guarantee of the driver over whole event
//! sequences, on top of the per-step contracts of [`crate::engine`]. The
//! recursive specification functions here fold [`event_step`] over the event
//! sequences the laws quantify about.

use vstd::prelude::*;

use crate::machine::{
    error_step, event_step, fault_list, is_expected_end, packet_len, poll_step,
};
use crate::packet::zero_packet;
use crate::stage::{Diagnostic, DriverModel, ErrorFlags, EventFlags, Fault, StageView};

verus! {

/// An address match announcing a host read.
pub open spec fn read_start_flags() -> EventFlags {
    EventFlags { addr: true, tra: true, tx_e: false, rx_ne: false, stopf: false }
}

/// The transmit register asking for the next byte.
pub open spec fn tx_ready_flags() -> EventFlags {
    EventFlags { addr: false, tra: false, tx_e: true, rx_ne: false, stopf: false }
}

/// An inbound byte waiting in the data register.
pub open spec fn rx_ready_flags() -> EventFlags {
    EventFlags { addr: false, tra: false, tx_e: false, rx_ne: true, stopf: false }
}

/// A stop condition ending the transfer.
pub open spec fn stop_flags() -> EventFlags {
    EventFlags { addr: false, tra: false, tx_e: false, rx_ne: false, stopf: true }
}

/// Law: an address match always enters the stage matching the latched
/// direction bit — `Transmitting` when the host reads, fed from the front of
/// the outbound queue (zeros when it is empty), and `Receiving` with a fresh
/// empty buffer when the host writes. The stale stage, whatever it was, is
/// discarded, so neither direction can ever serve the other's buffer.
pub proof fn lemma_address_match_direction(pre: DriverModel, f: EventFlags, dr: u8)
    requires
        f.addr,
    ensures
        f.tra ==> event_step(pre, f, dr).0.stage == (StageView::Transmitting {
            packet: if pre.tx.len() > 0 {
                pre.tx[0]
            } else {
                zero_packet()
            },
            cursor: 0,
        }),
        !f.tra ==> event_step(pre, f, dr).0.stage == (StageView::Receiving {
            buf: Seq::<u8>::empty(),
        }),
{
}

/// Law: a byte leaves the driver only while it is transmitting, and that
/// byte is the transmit packet's byte at the cursor — past the end, the
/// padding zero — never anything held by the receive path.
pub proof fn lemma_emitted_byte_source(pre: DriverModel, f: EventFlags, dr: u8)
    ensures
        event_step(pre, f, dr).1.write_dr is Some ==> !f.addr && f.tx_e && pre.stage is Transmitting,
        pre.stage matches StageView::Transmitting { packet, cursor } ==> (!f.addr && f.tx_e
            ==> event_step(pre, f, dr).1.write_dr == Some(
            if cursor < packet_len() {
                packet[cursor]
            } else {
                0u8
            },
        )),
{
}

/// The model after `k` transmit-register-empty events.
pub open spec fn after_tx_events(pre: DriverModel, k: nat) -> DriverModel
    decreases k,
{
    if k == 0 {
        pre
    } else {
        event_step(after_tx_events(pre, (k - 1) as nat), tx_ready_flags(), 0u8).0
    }
}

/// The byte emitted by the transmit event after `k` earlier ones.
pub open spec fn emitted_byte(pre: DriverModel, k: nat) -> Option<u8> {
    event_step(after_tx_events(pre, k), tx_ready_flags(), 0u8).1.write_dr
}

/// Law: a transmission that starts at cursor zero emits the packet's bytes
/// in index order, byte for byte, and padding zeros from the packet's end
/// on; only the cursor moves, and it stops at the packet length.
pub proof fn lemma_transmit_in_order(pre: DriverModel, p: Seq<u8>, k: nat)
    requires
        pre.stage == (StageView::Transmitting { packet: p, cursor: 0 }),
    ensures
        after_tx_events(pre, k) == (DriverModel {
            stage: StageView::Transmitting {
                packet: p,
                cursor: if k <= packet_len() {
                    k as int
                } else {
                    packet_len()
                },
            },
            ..pre
        }),
        emitted_byte(pre, k) == Some(
            if k < packet_len() {
                p[k as int]
            } else {
                0u8
            },
        ),
    decreases k,
{
    if k > 0 {
        lemma_transmit_in_order(pre, p, (k - 1) as nat);
    }
}

/// The terminating no-ack of a host read, arriving on the error line.
pub open spec fn end_of_read_flags() -> ErrorFlags {
    ErrorFlags {
        berr: false,
        arlo: false,
        af: true,
        ovr: false,
        pecerr: false,
        timeout: false,
        smbalert: false,
    }
}

/// The model after one complete host read: an address match, one fetch per
/// packet byte, then the terminating no-ack.
pub open spec fn after_read_transfer(pre: DriverModel) -> DriverModel {
    let started = event_step(pre, read_start_flags(), 0u8).0;
    error_step(after_tx_events(started, packet_len() as nat), end_of_read_flags())
}

/// The bytes one complete host read hands to the bus, in emission order.
pub open spec fn read_transfer_bytes(pre: DriverModel) -> Seq<u8> {
    let started = event_step(pre, read_start_flags(), 0u8).0;
    Seq::new(
        packet_len() as nat,
        |k: int|
            match emitted_byte(started, k as nat) {
                Some(b) => b,
                None => 0u8,
            },
    )
}

/// The model after `n` complete host reads.
pub open spec fn after_read_transfers(pre: DriverModel, n: nat) -> DriverModel
    decreases n,
{
    if n == 0 {
        pre
    } else {
        after_read_transfer(after_read_transfers(pre, (n - 1) as nat))
    }
}

/// One complete host read emits the front queued packet byte for byte,
/// leaves the rest of the queue behind it, and returns cleanly to `Waiting`
/// with nothing else of the driver touched.
pub proof fn lemma_read_transfer(pre: DriverModel)
    requires
        pre.tx.len() > 0,
        pre.tx[0].len() == packet_len(),
    ensures
        read_transfer_bytes(pre) == pre.tx[0],
        after_read_transfer(pre) == (DriverModel {
            stage: StageView::Waiting,
            tx: pre.tx.skip(1),
            ..pre
        }),
{
    let started = event_step(pre, read_start_flags(), 0u8).0;
    assert forall|k: int| 0 <= k < packet_len() implies read_transfer_bytes(pre)[k]
        == pre.tx[0][k] by {
        lemma_transmit_in_order(started, pre.tx[0], k as nat);
    }
    assert(read_transfer_bytes(pre) =~= pre.tx[0]);
    lemma_transmit_in_order(started, pre.tx[0], packet_len() as nat);
}

/// Law: enqueued packets leave in submission order. After `i` complete host
/// reads the queue holds exactly the unserved suffix, and the next read
/// emits exactly the `i`-th submitted packet, byte for byte.
pub proof fn lemma_transfers_deliver_in_order(pre: DriverModel, i: nat)
    requires
        i < pre.tx.len(),
        forall|j: int| 0 <= j < pre.tx.len() ==> (#[trigger] pre.tx[j]).len() == packet_len(),
    ensures
        after_read_transfers(pre, i).tx == pre.tx.skip(i as int),
        read_transfer_bytes(after_read_transfers(pre, i)) == pre.tx[i as int],
    decreases i,
{
    if i == 0 {
        assert(pre.tx.skip(0) =~= pre.tx);
    } else {
        lemma_transfers_deliver_in_order(pre, (i - 1) as nat);
        lemma_read_transfer(after_read_transfers(pre, (i - 1) as nat));
        assert(pre.tx.skip(i as int - 1).skip(1) =~= pre.tx.skip(i as int));
    }
    lemma_read_transfer(after_read_transfers(pre, i));
}

/// The model after the bytes of `data` have arrived one by one.
pub open spec fn after_rx_bytes(pre: DriverModel, data: Seq<u8>) -> DriverModel
    decreases data.len(),
{
    if data.len() == 0 {
        pre
    } else {
        after_rx_bytes(event_step(pre, rx_ready_flags(), data[0]).0, data.skip(1))
    }
}

/// While a transfer fits the buffer, the arriving bytes are assembled in
/// order behind what is already there; nothing else of the driver moves.
pub proof fn lemma_receive_assembles(pre: DriverModel, buf: Seq<u8>, data: Seq<u8>)
    requires
        pre.stage == (StageView::Receiving { buf }),
        buf.len() + data.len() <= 64,
    ensures
        after_rx_bytes(pre, data) == (DriverModel {
            stage: StageView::Receiving { buf: buf + data },
            ..pre
        }),
    decreases data.len(),
{
    if data.len() == 0 {
        assert(buf + data =~= buf);
    } else {
        let stepped = event_step(pre, rx_ready_flags(), data[0]).0;
        lemma_receive_assembles(stepped, buf.push(data[0]), data.skip(1));
        assert(buf.push(data[0]) + data.skip(1) =~= buf + data);
    }
}

/// Law: a byte arriving with the assembly buffer already full is dropped
/// with a diagnostic; the transfer continues unchanged.
pub proof fn lemma_receive_overflow(pre: DriverModel, buf: Seq<u8>, dr: u8)
    requires
        pre.stage == (StageView::Receiving { buf }),
        buf.len() >= 64,
    ensures
        event_step(pre, rx_ready_flags(), dr).0 == pre,
        event_step(pre, rx_ready_flags(), dr).1.diagnostic == Some(Diagnostic::RxOverflow),
{
}

/// Law: a completed inbound transfer of exactly the packet length delivers
/// those bytes in order; any other length delivers the default packet with a
/// length diagnostic. Either way the stage becomes `ReceivedDataReady` (it
/// is never stuck), acknowledgment is withheld, and the registered waiter is
/// woken.
pub proof fn lemma_receive_transfer(pre: DriverModel, data: Seq<u8>)
    requires
        pre.stage == (StageView::Receiving { buf: Seq::<u8>::empty() }),
        data.len() <= 64,
    ensures
        ({
            let done = event_step(after_rx_bytes(pre, data), stop_flags(), 0u8);
            &&& done.0 == (DriverModel {
                stage: StageView::Ready {
                    packet: if data.len() == packet_len() {
                        data
                    } else {
                        zero_packet()
                    },
                },
                ack: false,
                waiter: None,
                ..pre
            })
            &&& done.1.wake == pre.waiter
            &&& done.1.disable_ack
            &&& done.1.diagnostic == (if data.len() == packet_len() {
                None
            } else {
                Some(Diagnostic::LengthMismatch(data.len() as usize))
            })
        }),
{
    lemma_receive_assembles(pre, Seq::<u8>::empty(), data);
    assert(Seq::<u8>::empty() + data =~= data);
}

/// Law: once acknowledgment is withheld, no event-handler step re-enables
/// it; only the application task's poll (or error recovery) does. This is
/// the backpressure that keeps a second transfer from overwriting a ready
/// packet.
pub proof fn lemma_ack_stays_withheld(pre: DriverModel, f: EventFlags, dr: u8)
    requires
        !pre.ack,
    ensures
        !event_step(pre, f, dr).0.ack,
{
}

/// Law: whatever combination of fault flags arrives and whatever the stage
/// was, the error handler leaves the stage `Waiting`; except for the
/// expected end of a transmission (no-ack while transmitting, which touches
/// nothing else), it also re-enables acknowledgment.
pub proof fn lemma_error_forces_waiting(pre: DriverModel, f: ErrorFlags)
    ensures
        error_step(pre, f).stage is Waiting,
        error_step(pre, f).tx == pre.tx,
        !is_expected_end(pre, f) ==> error_step(pre, f).ack,
        is_expected_end(pre, f) ==> error_step(pre, f).ack == pre.ack,
{
}

/// Law: the no-ack flag while transmitting — however few bytes were emitted
/// — is the expected termination of a host read: the stage returns cleanly
/// to `Waiting` and nothing is reported as a fault.
pub proof fn lemma_expected_termination(pre: DriverModel, f: ErrorFlags)
    requires
        pre.stage is Transmitting,
        f.af,
    ensures
        is_expected_end(pre, f),
        error_step(pre, f) == (DriverModel { stage: StageView::Waiting, ..pre }),
{
}

/// Law: the classified fault list names a fault exactly when its flag is
/// set — every simultaneously-set flag is reported.
pub proof fn lemma_fault_classification(f: ErrorFlags)
    ensures
        fault_list(f).contains(Fault::BusError) <==> f.berr,
        fault_list(f).contains(Fault::ArbitrationLost) <==> f.arlo,
        fault_list(f).contains(Fault::AckFailure) <==> f.af,
        fault_list(f).contains(Fault::Overrun) <==> f.ovr,
        fault_list(f).contains(Fault::PecFailure) <==> f.pecerr,
        fault_list(f).contains(Fault::Timeout) <==> f.timeout,
        fault_list(f).contains(Fault::SmbAlert) <==> f.smbalert,
{
    broadcast use vstd::seq_lib::lemma_seq_contains_after_push;
    broadcast use vstd::seq_lib::lemma_seq_empty_contains_nothing;

}

/// Law: a poll finding no ready packet registers its caller (the most
/// recent registration wins); the transfer that then completes wakes exactly
/// that caller; the next poll resolves exactly once with the delivered
/// packet and re-arms acknowledgment; polling again suspends anew — the same
/// transfer is never delivered twice.
pub proof fn lemma_receive_resolves_once(pre: DriverModel, buf: Seq<u8>, w: u64, w2: u64)
    requires
        pre.stage == (StageView::Receiving { buf }),
    ensures
        ({
            let polled = poll_step(pre, w);
            let done = event_step(polled.0, stop_flags(), 0u8);
            let taken = poll_step(done.0, w2);
            let again = poll_step(taken.0, w2);
            &&& polled.1 is None
            &&& polled.0.waiter == Some(w)
            &&& done.1.wake == Some(w)
            &&& done.0.stage is Ready
            &&& taken.1 == Some(
                if buf.len() == packet_len() {
                    buf
                } else {
                    zero_packet()
                },
            )
            &&& taken.0.stage is Waiting
            &&& taken.0.ack
            &&& again.1 is None
            &&& again.0.waiter == Some(w2)
        }),
{
}

} // verus!
