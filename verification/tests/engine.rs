use i2c_keypad::engine::{I2cSlave, StateInner};
use i2c_keypad::stage::{Diagnostic, ErrorFlags, EventFlags, Fault};

fn no_event() -> EventFlags {
    EventFlags { addr: false, tra: false, tx_e: false, rx_ne: false, stopf: false }
}

fn addr_match(host_reads: bool) -> EventFlags {
    EventFlags { addr: true, tra: host_reads, ..no_event() }
}

fn tx_ready() -> EventFlags {
    EventFlags { tx_e: true, ..no_event() }
}

fn rx_ready() -> EventFlags {
    EventFlags { rx_ne: true, ..no_event() }
}

fn stop() -> EventFlags {
    EventFlags { stopf: true, ..no_event() }
}

fn no_error() -> ErrorFlags {
    ErrorFlags {
        berr: false,
        arlo: false,
        af: false,
        ovr: false,
        pecerr: false,
        timeout: false,
        smbalert: false,
    }
}

fn packet_of(seed: u8) -> [u8; 17] {
    let mut p = [0u8; 17];
    for i in 0..17 {
        p[i] = seed.wrapping_add(i as u8);
    }
    p
}

/// Runs one complete host-read transfer and returns the bytes emitted.
fn run_read_transfer(state: &mut StateInner, n_bytes: usize) -> Vec<u8> {
    let out = state.on_event(addr_match(true), 0);
    assert!(out.clear_addr);
    let mut bytes = Vec::new();
    for _ in 0..n_bytes {
        let out = state.on_event(tx_ready(), 0);
        bytes.push(out.write_dr.expect("transmitting must emit a byte"));
    }
    // Host stops reading: no-ack arrives on the error line.
    let out = state.on_error(ErrorFlags { af: true, ..no_error() });
    assert!(out.expected_end);
    bytes
}

/// Runs one complete host-write transfer of the given bytes.
fn run_write_transfer(state: &mut StateInner, data: &[u8]) {
    let out = state.on_event(addr_match(false), 0);
    assert!(out.clear_addr);
    for &b in data {
        state.on_event(rx_ready(), b);
    }
    let out = state.on_event(stop(), 0);
    assert!(out.clear_stop);
    assert!(out.disable_ack);
}

#[test]
fn address_match_enters_matching_direction() {
    let mut state = StateInner::new();
    // Host read: the driver transmits (queue empty: zeros).
    let out = state.on_event(addr_match(true), 0);
    assert!(out.clear_addr);
    let out = state.on_event(tx_ready(), 0);
    assert_eq!(out.write_dr, Some(0));
    // Host write mid-way: direction flips, receive buffer is fresh.
    let out = state.on_event(addr_match(false), 0);
    assert!(out.clear_addr);
    let out = state.on_event(rx_ready(), 0xAB);
    assert!(out.read_dr);
    assert_eq!(out.write_dr, None);
}

#[test]
fn empty_queue_transmits_padding_zeros() {
    let mut state = StateInner::new();
    let bytes = run_read_transfer(&mut state, 20);
    assert_eq!(bytes, vec![0u8; 20]);
}

#[test]
fn transmit_emits_queued_packet_bytes_then_padding() {
    let mut i2c = I2cSlave::new(0x77);
    let p = packet_of(10);
    assert!(i2c.enqueue(p).is_ok());
    let bytes = run_read_transfer(&mut i2c.inner, 19);
    assert_eq!(&bytes[..17], &p[..]);
    assert_eq!(&bytes[17..], &[0, 0]);
}

#[test]
fn queue_drains_in_submission_order() {
    let mut i2c = I2cSlave::new(0x77);
    let packets: Vec<[u8; 17]> = (0..16).map(|k| packet_of(k * 3)).collect();
    for p in &packets {
        assert!(i2c.enqueue(*p).is_ok());
    }
    for p in &packets {
        let bytes = run_read_transfer(&mut i2c.inner, 17);
        assert_eq!(&bytes[..], &p[..]);
    }
    // Drained: the next transfer is padding again.
    let bytes = run_read_transfer(&mut i2c.inner, 17);
    assert_eq!(bytes, vec![0u8; 17]);
}

#[test]
fn seventeenth_packet_is_rejected_unchanged() {
    let mut i2c = I2cSlave::new(0x77);
    for k in 0..16 {
        assert!(i2c.enqueue(packet_of(k)).is_ok());
    }
    let extra = packet_of(200);
    match i2c.enqueue(extra) {
        Err(p) => assert_eq!(p, extra),
        Ok(()) => panic!("a 17th packet must be rejected"),
    }
    // Queue contents are unaffected: the 16 packets drain in order.
    for k in 0..16 {
        let bytes = run_read_transfer(&mut i2c.inner, 17);
        assert_eq!(&bytes[..], &packet_of(k)[..]);
    }
}

#[test]
fn receive_of_exact_length_delivers_bytes_in_order() {
    let mut i2c = I2cSlave::new(0x42);
    let data = packet_of(100);
    let out = i2c.inner.on_event(addr_match(false), 0);
    assert!(out.clear_addr);
    for &b in &data {
        let out = i2c.inner.on_event(rx_ready(), b);
        assert!(out.read_dr);
        assert_eq!(out.diagnostic, None);
    }
    let out = i2c.inner.on_event(stop(), 0);
    assert!(out.clear_stop);
    assert!(out.disable_ack);
    assert_eq!(out.diagnostic, None);
    assert_eq!(i2c.poll_received(1), Some(data));
}

#[test]
fn short_receive_delivers_default_packet_with_diagnostic() {
    let mut state = StateInner::new();
    let out = state.on_event(addr_match(false), 0);
    assert!(out.clear_addr);
    for b in [1u8, 2, 3, 4, 5] {
        state.on_event(rx_ready(), b);
    }
    let out = state.on_event(stop(), 0);
    assert!(out.disable_ack);
    assert_eq!(out.diagnostic, Some(Diagnostic::LengthMismatch(5)));
    // The stage is not stuck: the packet (default) is delivered.
    assert_eq!(state.poll_received_packet(1), Some([0u8; 17]));
}

#[test]
fn long_receive_delivers_default_packet_with_diagnostic() {
    let mut state = StateInner::new();
    run_write_transfer(&mut state, &[9u8; 25]);
    assert_eq!(state.poll_received_packet(1), Some([0u8; 17]));
}

#[test]
fn empty_receive_delivers_default_packet_with_diagnostic() {
    let mut state = StateInner::new();
    let out = state.on_event(addr_match(false), 0);
    assert!(out.clear_addr);
    let out = state.on_event(stop(), 0);
    assert_eq!(out.diagnostic, Some(Diagnostic::LengthMismatch(0)));
    assert_eq!(state.poll_received_packet(1), Some([0u8; 17]));
}

#[test]
fn oversized_receive_drops_tail_with_overflow_diagnostic() {
    let mut state = StateInner::new();
    state.on_event(addr_match(false), 0);
    for k in 0..64 {
        let out = state.on_event(rx_ready(), k as u8);
        assert_eq!(out.diagnostic, None);
    }
    // The 65th byte no longer fits: dropped, logged, transfer continues.
    let out = state.on_event(rx_ready(), 0xEE);
    assert!(out.read_dr);
    assert_eq!(out.diagnostic, Some(Diagnostic::RxOverflow));
    let out = state.on_event(stop(), 0);
    assert_eq!(out.diagnostic, Some(Diagnostic::LengthMismatch(64)));
    assert_eq!(state.poll_received_packet(1), Some([0u8; 17]));
}

#[test]
fn faults_force_recovery_with_all_flags_reported() {
    let mut state = StateInner::new();
    // Mid-receive, several faults at once.
    state.on_event(addr_match(false), 0);
    state.on_event(rx_ready(), 7);
    let out = state.on_error(ErrorFlags {
        berr: true,
        ovr: true,
        timeout: true,
        ..no_error()
    });
    assert!(!out.expected_end);
    assert!(out.enable_ack);
    assert!(out.clear_status);
    assert!(out.resync);
    assert_eq!(out.faults, vec![Fault::BusError, Fault::Overrun, Fault::Timeout]);
    // The stage is back to Waiting: a stray event only resynchronizes.
    let out = state.on_event(stop(), 0);
    assert!(out.clear_stop);
    assert_eq!(out.wake, None);
}

#[test]
fn every_fault_flag_is_classified_in_order() {
    let mut state = StateInner::new();
    let out = state.on_error(ErrorFlags {
        berr: true,
        arlo: true,
        af: true,
        ovr: true,
        pecerr: true,
        timeout: true,
        smbalert: true,
    });
    assert_eq!(
        out.faults,
        vec![
            Fault::BusError,
            Fault::ArbitrationLost,
            Fault::AckFailure,
            Fault::Overrun,
            Fault::PecFailure,
            Fault::Timeout,
            Fault::SmbAlert,
        ]
    );
}

#[test]
fn spurious_error_recovers_with_nothing_to_report() {
    let mut state = StateInner::new();
    state.on_event(addr_match(false), 0);
    let out = state.on_error(no_error());
    assert!(!out.expected_end);
    assert!(out.enable_ack);
    assert!(out.clear_status);
    assert!(out.faults.is_empty());
    // The in-progress transfer was abandoned: its stop is now a stray flag.
    let out = state.on_event(stop(), 0);
    assert!(out.clear_stop);
    assert!(!out.disable_ack);
    assert_eq!(out.wake, None);
}

#[test]
fn no_ack_while_transmitting_is_not_an_error() {
    let mut i2c = I2cSlave::new(0x77);
    assert!(i2c.enqueue(packet_of(50)).is_ok());
    i2c.inner.on_event(addr_match(true), 0);
    // Host reads only 3 of the 17 bytes, then stops acknowledging.
    for _ in 0..3 {
        i2c.inner.on_event(tx_ready(), 0);
    }
    let out = i2c.inner.on_error(ErrorFlags { af: true, ..no_error() });
    assert!(out.expected_end);
    assert!(out.clear_af);
    assert!(!out.clear_status);
    assert!(out.faults.is_empty());
    // Clean return to Waiting: the next write transfer works.
    run_write_transfer(&mut i2c.inner, &packet_of(60));
    assert_eq!(i2c.poll_received(1), Some(packet_of(60)));
}

#[test]
fn receive_resolves_exactly_once_per_transfer() {
    let mut i2c = I2cSlave::new(0x15);
    // Suspended with no data ready: the caller is registered.
    assert_eq!(i2c.poll_received(7), None);
    // A transfer completes; the stop wakes the registered waiter.
    i2c.inner.on_event(addr_match(false), 0);
    let data = packet_of(1);
    for &b in &data {
        i2c.inner.on_event(rx_ready(), b);
    }
    let out = i2c.inner.on_event(stop(), 0);
    assert_eq!(out.wake, Some(7));
    // Resolves exactly once with the delivered packet.
    assert_eq!(i2c.poll_received(7), Some(data));
    assert_eq!(i2c.poll_received(7), None);
}

#[test]
fn last_registered_waiter_wins() {
    let mut state = StateInner::new();
    // Two polls suspend in turn; the second registration overwrites the
    // first, so the completing transfer wakes only the second caller.
    assert_eq!(state.poll_received_packet(1), None);
    assert_eq!(state.poll_received_packet(2), None);
    state.on_event(addr_match(false), 0);
    for &b in &packet_of(0) {
        state.on_event(rx_ready(), b);
    }
    let out = state.on_event(stop(), 0);
    assert_eq!(out.wake, Some(2));
}

#[test]
fn stray_events_while_waiting_only_drain_flags() {
    let mut state = StateInner::new();
    let out = state.on_event(
        EventFlags { addr: false, tra: false, tx_e: false, rx_ne: true, stopf: true },
        0x5A,
    );
    assert!(out.clear_stop);
    assert!(out.read_dr);
    assert_eq!(out.write_dr, None);
    assert_eq!(out.wake, None);
    assert_eq!(out.diagnostic, None);
}

#[test]
fn new_driver_starts_idle() {
    let mut i2c = I2cSlave::new(0x10);
    assert_eq!(i2c.address, 0x10);
    // Nothing queued, nothing ready.
    assert_eq!(i2c.poll_received(1), None);
    let bytes = run_read_transfer(&mut i2c.inner, 5);
    assert_eq!(bytes, vec![0u8; 5]);
}
