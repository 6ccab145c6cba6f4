//! Bounded buffers backing the driver, held in `heapless` containers.
//!
//! The outbound queue is a fixed-capacity FIFO of packets (capacity 16); the
//! inbound assembly buffer grows up to 64 bytes during a single transfer.
//! Both are opaque to the verifier: their contents are named by the
//! uninterpreted functions [`tx_contents`] and [`rx_contents`], and every
//! method the driver calls goes through a trusted wrapper whose contract
//! states, over those names, what the `heapless` source shows.

use vstd::prelude::*;

use crate::packet::Packet;

verus! {

#[verifier::external_type_specification]
#[verifier::external_body]
#[verifier::reject_recursive_types(T)]
pub struct ExSpscQueue<T, const N: usize>(heapless::spsc::Queue<T, N>);

#[verifier::external_type_specification]
#[verifier::external_body]
#[verifier::reject_recursive_types(T)]
pub struct ExBoundedVec<T, const N: usize>(heapless::Vec<T, N>);

/// The outbound queue. `heapless::spsc::Queue<T, N>` stores at most `N - 1`
/// items, so 17 slots give the capacity of 16 packets.
pub type TxQueue = heapless::spsc::Queue<Packet, 17>;

/// The inbound assembly buffer: up to 64 bytes of one transfer.
pub type RxBuf = heapless::Vec<u8, 64>;

/// The packets held by the outbound queue, front (next to leave) first,
/// each as its byte sequence.
pub uninterp spec fn tx_contents(q: TxQueue) -> Seq<Seq<u8>>;

/// The bytes held by the inbound assembly buffer, in arrival order.
pub uninterp spec fn rx_contents(v: RxBuf) -> Seq<u8>;

/// Relies on `heapless::spsc::Queue::new`: the new queue is empty.
#[verifier::external_body]
pub(crate) fn tx_queue_new() -> (q: TxQueue)
    ensures
        tx_contents(q) == Seq::<Seq<u8>>::empty(),
{
    heapless::spsc::Queue::new()
}

/// Relies on `heapless::spsc::Queue::enqueue`: appends the item at the back,
/// or hands it back unchanged once the queue already holds 16 packets.
#[verifier::external_body]
pub(crate) fn tx_enqueue(q: &mut TxQueue, p: Packet) -> (r: Result<(), Packet>)
    ensures
        r is Ok <==> tx_contents(*old(q)).len() < 16,
        r is Ok ==> tx_contents(*final(q)) == tx_contents(*old(q)).push(p@),
        r matches Err(x) ==> x == p && tx_contents(*final(q)) == tx_contents(*old(q)),
{
    q.enqueue(p)
}

/// Relies on `heapless::spsc::Queue::dequeue`: removes and returns the front
/// item, or returns `None` and leaves the queue alone when it is empty.
#[verifier::external_body]
pub(crate) fn tx_dequeue(q: &mut TxQueue) -> (r: Option<Packet>)
    ensures
        tx_contents(*old(q)).len() == 0 ==> r is None
            && tx_contents(*final(q)) == tx_contents(*old(q)),
        tx_contents(*old(q)).len() > 0 ==> (r matches Some(p)
            && p@ == tx_contents(*old(q))[0])
            && tx_contents(*final(q)) == tx_contents(*old(q)).skip(1),
{
    q.dequeue()
}

/// Relies on `heapless::Vec::new`: the new buffer is empty.
#[verifier::external_body]
pub(crate) fn rx_buf_new() -> (v: RxBuf)
    ensures
        rx_contents(v) == Seq::<u8>::empty(),
{
    heapless::Vec::new()
}

/// Relies on `heapless::Vec::push`: appends the byte at the back, or hands it
/// back unchanged once the buffer already holds 64 bytes.
#[verifier::external_body]
pub(crate) fn rx_push(v: &mut RxBuf, b: u8) -> (r: Result<(), u8>)
    ensures
        r is Ok <==> rx_contents(*old(v)).len() < 64,
        r is Ok ==> rx_contents(*final(v)) == rx_contents(*old(v)).push(b),
        r matches Err(x) ==> x == b && rx_contents(*final(v)) == rx_contents(*old(v)),
{
    v.push(b)
}

/// Relies on `heapless::Vec::len`: the number of bytes held.
#[verifier::external_body]
pub(crate) fn rx_len(v: &RxBuf) -> (n: usize)
    ensures
        n == rx_contents(*v).len(),
{
    v.len()
}

/// Relies on `heapless::Vec::into_array`: the buffer becomes an array of its
/// bytes exactly when it holds exactly 17 of them; otherwise it comes back
/// unchanged.
#[verifier::external_body]
pub(crate) fn rx_into_packet(v: RxBuf) -> (r: Result<Packet, RxBuf>)
    ensures
        r is Ok <==> rx_contents(v).len() == 17,
        r matches Ok(p) ==> p@ == rx_contents(v),
        r matches Err(b) ==> rx_contents(b) == rx_contents(v),
{
    v.into_array::<17>()
}

} // verus!
