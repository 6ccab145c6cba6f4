//! The fixed-size payload exchanged with the host in either direction.

use vstd::prelude::*;

verus! {

/// Number of payload bytes in one packet, in both directions.
pub const PACKET_LEN: usize = 17;

/// A packet is an opaque fixed-size byte payload. It is copied, never
/// referenced, across the interrupt/task boundary.
pub type Packet = [u8; 17];

/// The default packet: all zero bytes. Delivered when an inbound transfer
/// has the wrong length, and transmitted when the outbound queue is empty.
pub open spec fn zero_packet() -> Seq<u8> {
    Seq::new(PACKET_LEN as nat, |i: int| 0u8)
}

/// Builds the all-zero default packet.
pub fn default_packet() -> (r: Packet)
    ensures
        r@ == zero_packet(),
{
    let r: Packet = [0u8; 17];
    proof {
        assert(r@ =~= zero_packet());
    }
    r
}

} // verus!
