use std::collections::VecDeque;
use vstd::prelude::*;

verus! {

/// Milliseconds a packet has waited: `now - received`, or zero for a clock that went back.
pub open spec fn hold_time_spec(received_ms: u64, now_ms: u64) -> u64 {
    if now_ms >= received_ms {
        (now_ms - received_ms) as u64
    } else {
        0
    }
}

/// An uplink radio packet waiting for an offer and purchase, with the time it arrived.
pub struct QueuedPacket {
    pub payload: Vec<u8>,
    pub received_ms: u64,
}

/// What a queued packet is: its bytes and its arrival time.
pub struct PacketView {
    pub payload: Seq<u8>,
    pub received_ms: u64,
}

impl View for QueuedPacket {
    type V = PacketView;

    open spec fn view(&self) -> PacketView {
        PacketView { payload: self.payload@, received_ms: self.received_ms }
    }
}

impl QueuedPacket {
    pub fn new(payload: Vec<u8>, received_ms: u64) -> (r: QueuedPacket)
        ensures
            r.payload@ == payload@,
            r.received_ms == received_ms,
    {
        QueuedPacket { payload, received_ms }
    }

    /// How long the packet has waited at `now_ms`.
    pub fn hold_time(&self, now_ms: u64) -> (r: u64)
        ensures
            r == hold_time_spec(self.received_ms, now_ms),
    {
        if now_ms >= self.received_ms {
            now_ms - self.received_ms
        } else {
            0
        }
    }

    /// A copy with the same bytes and arrival time.
    pub fn duplicate(&self) -> (r: QueuedPacket)
        ensures
            r@ == self@,
    {
        let payload = self.payload.clone();
        assert(payload@ =~= self.payload@);
        QueuedPacket { payload, received_ms: self.received_ms }
    }
}

/// The first-in first-out queue of packets waiting for a purchase.
pub struct PacketQueue {
    packets: VecDeque<QueuedPacket>,
}

impl View for PacketQueue {
    type V = Seq<PacketView>;

    closed spec fn view(&self) -> Seq<PacketView> {
        self.packets@.map_values(|p: QueuedPacket| p@)
    }
}

impl PacketQueue {
    pub fn new() -> (r: PacketQueue)
        ensures
            r@ == Seq::<PacketView>::empty(),
    {
        let r = PacketQueue { packets: VecDeque::new() };
        assert(r@ =~= Seq::<PacketView>::empty());
        r
    }

    pub fn len(&self) -> (r: usize)
        ensures
            r == self@.len(),
    {
        self.packets.len()
    }

    pub fn is_empty(&self) -> (r: bool)
        ensures
            r == (self@.len() == 0),
    {
        self.packets.len() == 0
    }

    /// A copy of the packet at `index`, counted from the oldest; the queue keeps it.
    pub fn copy_at(&self, index: usize) -> (r: QueuedPacket)
        requires
            index < self@.len(),
        ensures
            r@ == self@[index as int],
    {
        self.packets[index].duplicate()
    }

    /// Puts a packet at the back of the queue.
    pub fn push(&mut self, packet: QueuedPacket)
        ensures
            final(self)@ == old(self)@.push(packet@),
    {
        self.packets.push_back(packet);
        assert(self@ =~= old(self)@.push(packet@));
    }

    /// Takes the oldest packet out of the queue, if there is one.
    pub fn pop(&mut self) -> (r: Option<QueuedPacket>)
        ensures
            old(self)@.len() == 0 ==> r is None && final(self)@ == old(self)@,
            old(self)@.len() > 0 ==> r is Some && r->0@ == old(self)@[0] && final(self)@
                == old(self)@.drop_first(),
    {
        let r = self.packets.pop_front();
        assert(self@ =~= old(self)@.drop_first() || old(self)@.len() == 0);
        proof {
            if old(self)@.len() == 0 {
                assert(self@ =~= old(self)@);
            }
        }
        r
    }
}

} // verus!
