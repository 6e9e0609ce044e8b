use crate::channel::{Error, StateChannel};
use crate::queue::{PacketQueue, PacketView, QueuedPacket};
use crate::reconcile::{AcceptRule, Reconciliation, start_stage};
use vstd::prelude::*;

verus! {

/// An inbound message of the state-channel protocol, as plain values.
pub enum Inbound {
    /// A response for the device side; `downlink` is the packet it converts to, if any.
    Response { downlink: Option<Vec<u8>> },
    Packet,
    Offer,
    Purchase { channel: Option<StateChannel> },
    Banner { channel: Option<StateChannel> },
    Reject,
}

/// Outside work that the driver performs, in the order given.
pub enum Command {
    /// Ask the transport to connect; connecting again while connected does nothing.
    Connect,
    /// Send the packet message for this packet.
    SendPacket(QueuedPacket),
}

/// What the client does with an inbound message that it handled.
pub enum Reaction {
    Nothing,
    /// Hand this downlink to the downlink sink.
    Deliver(Vec<u8>),
    /// Drive this reconciliation to its end, then call `Reconciliation::conclude`.
    Reconcile(Reconciliation),
}

/// The decisions of the router client: which packets wait, and what each uplink
/// and inbound message calls for.
pub struct RouterClient {
    queue: PacketQueue,
}

impl View for RouterClient {
    type V = Seq<PacketView>;

    /// The packets waiting for a purchase, oldest first.
    closed spec fn view(&self) -> Seq<PacketView> {
        self.queue@
    }
}

/// The packets that a flood offers from `waiting`, starting after the first
/// `offered`, where the transport takes `capacity` more messages: each offer is
/// for the next packet in arrival order and uses one unit of capacity, and each
/// packet is offered at most once.
pub open spec fn flood(waiting: Seq<PacketView>, offered: nat, capacity: nat) -> Seq<PacketView>
    decreases capacity,
{
    if capacity == 0 || offered >= waiting.len() {
        Seq::empty()
    } else {
        seq![waiting[offered as int]] + flood(waiting, offered + 1, (capacity - 1) as nat)
    }
}

/// The oldest waiting packet, taken out by a purchase or a reject, and the
/// packets left; nothing is taken from an empty queue.
pub open spec fn take_oldest(waiting: Seq<PacketView>) -> (Option<PacketView>, Seq<PacketView>) {
    if waiting.len() == 0 {
        (None, waiting)
    } else {
        (Some(waiting[0]), waiting.drop_first())
    }
}

impl RouterClient {
    /// A client with no waiting packet.
    pub fn new() -> (r: RouterClient)
        ensures
            r@ == Seq::<PacketView>::empty(),
    {
        RouterClient { queue: PacketQueue::new() }
    }

    pub fn waiting_len(&self) -> (r: usize)
        ensures
            r == self@.len(),
    {
        self.queue.len()
    }

    /// An uplink arrived while the store holds `trusted_count` trusted channels.
    /// The packet waits for an offer and purchase, and is also sent at once; where
    /// no channel is trusted yet, a connect comes before that send.
    pub fn handle_uplink(&mut self, packet: QueuedPacket, trusted_count: u64) -> (r: Vec<Command>)
        ensures
            final(self)@ == old(self)@.push(packet@),
            trusted_count == 0 ==> r@.len() == 2 && r@[0] is Connect && r@[1] is SendPacket
                && r@[1]->SendPacket_0@ == packet@,
            trusted_count != 0 ==> r@.len() == 1 && r@[0] is SendPacket && r@[0]->SendPacket_0@
                == packet@,
    {
        let mut r: Vec<Command> = Vec::new();
        if trusted_count == 0 {
            r.push(Command::Connect);
        }
        let copy = packet.duplicate();
        self.queue.push(copy);
        r.push(Command::SendPacket(packet));
        r
    }

    /// Handles one inbound message. Packets and offers never come to this side;
    /// a reject drops the oldest waiting packet; a purchase takes the oldest
    /// waiting packet and reconciles its channel; a banner reconciles its channel.
    pub fn handle_message(&mut self, message: Inbound) -> (r: Result<Reaction, Error>)
        ensures
            match message {
                Inbound::Response { downlink } => final(self)@ == old(self)@ && match downlink {
                    Some(d) => r is Ok && r->Ok_0 is Deliver && r->Ok_0->Deliver_0@ == d@,
                    None => r is Ok && r->Ok_0 is Nothing,
                },
                Inbound::Packet | Inbound::Offer => final(self)@ == old(self)@ && r
                    == Err::<Reaction, Error>(Error::UnexpectedMessage),
                Inbound::Reject => r is Ok && r->Ok_0 is Nothing && final(self)@ == take_oldest(
                    old(self)@,
                ).1,
                Inbound::Banner { channel } => final(self)@ == old(self)@ && r is Ok
                    && r->Ok_0 is Reconcile && r->Ok_0->Reconcile_0.rule_spec() is Any
                    && r->Ok_0->Reconcile_0.stage_spec() == start_stage(channel),
                Inbound::Purchase { channel } => r is Ok && r->Ok_0 is Reconcile && ({
                    let rec = r->Ok_0->Reconcile_0;
                    &&& rec.stage_spec() == start_stage(channel)
                    &&& rec.rule_spec() is Purchase
                    &&& final(self)@ == take_oldest(old(self)@).1
                    &&& match rec.rule_spec()->packet {
                        Some(p) => take_oldest(old(self)@).0 == Some(p@),
                        None => take_oldest(old(self)@).0 is None,
                    }
                }),
            },
    {
        match message {
            Inbound::Response { downlink } => match downlink {
                Some(d) => Ok(Reaction::Deliver(d)),
                None => Ok(Reaction::Nothing),
            },
            Inbound::Packet => Err(Error::UnexpectedMessage),
            Inbound::Offer => Err(Error::UnexpectedMessage),
            Inbound::Reject => {
                let _ = self.queue.pop();
                Ok(Reaction::Nothing)
            },
            Inbound::Banner { channel } => {
                Ok(Reaction::Reconcile(Reconciliation::start(AcceptRule::Any, channel)))
            },
            Inbound::Purchase { channel } => {
                let packet = self.queue.pop();
                let rule = AcceptRule::Purchase { packet };
                Ok(Reaction::Reconcile(Reconciliation::start(rule, channel)))
            },
        }
    }

    /// One step of an offer flood, after `offered` packets were offered, where
    /// the transport takes `capacity` more messages: a copy of the next packet to
    /// offer. Nothing where the capacity is zero or every packet was offered.
    /// The queue is left as it is: a packet leaves it only on a purchase or a
    /// reject.
    pub fn next_offer(&self, offered: usize, capacity: u64) -> (r: Option<QueuedPacket>)
        ensures
            capacity == 0 || offered >= self@.len() ==> r is None,
            capacity > 0 && offered < self@.len() ==> r is Some && r->0@ == self@[offered as int],
            r is Some ==> flood(self@, offered as nat, capacity as nat) == seq![r->0@] + flood(
                self@,
                offered as nat + 1,
                (capacity - 1) as nat,
            ),
    {
        if capacity == 0 || offered >= self.queue.len() {
            return None;
        }
        Some(self.queue.copy_at(offered))
    }
}

/// A flood where the transport takes `capacity` messages offers the oldest
/// `min(capacity, waiting)` packets in arrival order, each once: exactly
/// `capacity` offers where at least that many packets wait.
pub proof fn lemma_flood_respects_capacity(waiting: Seq<PacketView>, capacity: nat)
    ensures
        capacity <= waiting.len() ==> flood(waiting, 0, capacity) == waiting.take(capacity as int),
        capacity > waiting.len() ==> flood(waiting, 0, capacity) == waiting,
{
    lemma_flood_from(waiting, 0, capacity);
    assert(waiting.subrange(0, waiting.len() as int) =~= waiting);
}

proof fn lemma_flood_from(waiting: Seq<PacketView>, offered: nat, capacity: nat)
    requires
        offered <= waiting.len(),
    ensures
        offered + capacity <= waiting.len() ==> flood(waiting, offered, capacity) == waiting.subrange(
            offered as int,
            (offered + capacity) as int,
        ),
        offered + capacity > waiting.len() ==> flood(waiting, offered, capacity) == waiting.subrange(
            offered as int,
            waiting.len() as int,
        ),
    decreases capacity,
{
    if capacity == 0 || offered >= waiting.len() {
        assert(waiting.subrange(offered as int, offered as int) =~= Seq::<PacketView>::empty());
    } else {
        lemma_flood_from(waiting, offered + 1, (capacity - 1) as nat);
        if offered + capacity <= waiting.len() {
            assert(seq![waiting[offered as int]] + waiting.subrange((offered + 1) as int, (offered + capacity) as int)
                =~= waiting.subrange(offered as int, (offered + capacity) as int));
        } else {
            assert(seq![waiting[offered as int]] + waiting.subrange(
                (offered + 1) as int,
                waiting.len() as int,
            ) =~= waiting.subrange(offered as int, waiting.len() as int));
        }
    }
}

/// Purchases take waiting packets in the order they arrived: after `first` and
/// then `second` join an empty queue, the first purchase takes `first`, the
/// second takes `second`, and none is left.
pub proof fn lemma_purchases_in_arrival_order(first: PacketView, second: PacketView)
    ensures
        ({
            let waiting = Seq::<PacketView>::empty().push(first).push(second);
            let (a, rest) = take_oldest(waiting);
            let (b, left) = take_oldest(rest);
            &&& a == Some(first)
            &&& b == Some(second)
            &&& left.len() == 0
        }),
{
    let waiting = Seq::<PacketView>::empty().push(first).push(second);
    assert(waiting.drop_first() =~= seq![second]);
}

} // verus!
