//! The two sixteen-entry queues between the transport context and the
//! application context.
//!
//! Each queue is split once into its writing and its reading end. The two
//! ends work in different contexts, so what one end finds depends on what
//! the other has done in the meantime: nothing is assumed about when a
//! packet is accepted or when one arrives.

use vstd::prelude::*;
use heapless::consts::U16;
use heapless::spsc::{Consumer, Producer, Queue};
use crate::hci::bluenrg::BlueNrg;
use crate::hci::HciPacket;

verus! {

/// A queue of packets that has not been split yet.
#[verifier::external_body]
pub struct PacketQueue {
    queue: Queue<HciPacket<BlueNrg>, U16>,
}

/// The writing end of a queue.
#[verifier::external_body]
pub struct PacketProducer {
    producer: Producer<'static, HciPacket<BlueNrg>, U16>,
}

/// The reading end of a queue.
#[verifier::external_body]
pub struct PacketConsumer {
    consumer: Consumer<'static, HciPacket<BlueNrg>, U16>,
}

impl PacketQueue {
    /// `heapless::spsc::Queue::new`: a queue for sixteen packets.
    #[verifier::external_body]
    pub fn new() -> PacketQueue {
        PacketQueue { queue: Queue::new() }
    }

    /// `heapless::spsc::Queue::split`: the writing end and the reading end.
    #[verifier::external_body]
    pub fn split(&'static mut self) -> (PacketProducer, PacketConsumer) {
        let (producer, consumer) = self.queue.split();
        (PacketProducer { producer }, PacketConsumer { consumer })
    }
}

impl PacketProducer {
    /// `heapless::spsc::Producer::enqueue`: the packet is taken, or the queue
    /// is full and the same packet comes back. It does not panic.
    #[verifier::external_body]
    pub(crate) fn enqueue(&mut self, packet: HciPacket<BlueNrg>) -> (r: Result<(), HciPacket<BlueNrg>>)
        ensures
            r matches Err(back) ==> back == packet,
        no_unwind
    {
        self.producer.enqueue(packet)
    }
}

impl PacketConsumer {
    /// `heapless::spsc::Consumer::dequeue`: the packet at the front, if any.
    /// It does not panic.
    #[verifier::external_body]
    pub(crate) fn dequeue(&mut self) -> (r: Option<HciPacket<BlueNrg>>)
        no_unwind
    {
        self.consumer.dequeue()
    }
}

} // verus!
