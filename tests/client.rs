use router_client::channel::{Error, StateChannel};
use router_client::client::{Command, Inbound, Reaction, RouterClient};
use router_client::queue::QueuedPacket;
use router_client::reconcile::{Event, FollowUp, Reconciliation, Stage};

fn packet(tag: u8, at: u64) -> QueuedPacket {
    QueuedPacket::new(vec![tag], at)
}

fn sent_payload(c: &Command) -> Option<Vec<u8>> {
    match c {
        Command::SendPacket(p) => Some(p.payload.clone()),
        Command::Connect => None,
    }
}

fn reconciliation(r: Result<Reaction, Error>) -> Reconciliation {
    match r {
        Ok(Reaction::Reconcile(rec)) => rec,
        _ => panic!("expected a reconciliation"),
    }
}

/// Drives a reconciliation against a store of trusted channels and a log, where
/// every outside step succeeds.
fn drive(
    mut rec: Reconciliation,
    trusted: &mut Vec<StateChannel>,
    log: &mut Vec<StateChannel>,
) -> Reconciliation {
    while !rec.is_finished() {
        let event = match rec.stage() {
            Stage::Lookup { incoming } => {
                let found = trusted.iter().find(|c| c.same_id(incoming));
                Event::Found(Ok(found.map(|c| StateChannel::new(c.id.clone(), c.state.clone()))))
            }
            Stage::Merging { incoming, .. } | Stage::Building { incoming, .. } => Event::Built(
                Ok(StateChannel::new(incoming.id.clone(), incoming.state.clone())),
            ),
            Stage::Checking { .. } | Stage::Accepting { .. } => Event::Verdict(Ok(())),
            Stage::Storing { candidate } => {
                trusted.retain(|c| !c.same_id(candidate));
                trusted.push(StateChannel::new(candidate.id.clone(), candidate.state.clone()));
                Event::Written(Ok(()))
            }
            Stage::Appending { candidate, .. } => {
                log.push(StateChannel::new(candidate.id.clone(), candidate.state.clone()));
                Event::Written(Ok(()))
            }
            Stage::Finished { .. } => unreachable!(),
        };
        rec = rec.advance(event);
    }
    rec
}

/// Runs a flood where each offer uses one unit of capacity; returns the offered payloads.
fn flood(client: &RouterClient, capacity: u64) -> Vec<Vec<u8>> {
    let mut offers = Vec::new();
    let mut offered: usize = 0;
    while let Some(p) = client.next_offer(offered, capacity - offered as u64) {
        offers.push(p.payload.clone());
        offered += 1;
    }
    offers
}

#[test]
fn first_uplink_connects_before_sending() {
    let mut client = RouterClient::new();
    let cmds = client.handle_uplink(packet(1, 0), 0);
    assert_eq!(cmds.len(), 2);
    assert!(matches!(cmds[0], Command::Connect));
    assert_eq!(sent_payload(&cmds[1]), Some(vec![1]));
    assert_eq!(client.waiting_len(), 1);
}

#[test]
fn uplink_with_trusted_channel_only_sends() {
    let mut client = RouterClient::new();
    let cmds = client.handle_uplink(packet(1, 0), 3);
    assert_eq!(cmds.len(), 1);
    assert_eq!(sent_payload(&cmds[0]), Some(vec![1]));
}

#[test]
fn packet_and_offer_messages_are_unexpected() {
    let mut client = RouterClient::new();
    client.handle_uplink(packet(1, 0), 1);
    assert!(matches!(client.handle_message(Inbound::Packet), Err(Error::UnexpectedMessage)));
    assert!(matches!(client.handle_message(Inbound::Offer), Err(Error::UnexpectedMessage)));
    assert_eq!(client.waiting_len(), 1);
}

#[test]
fn response_is_delivered_when_convertible() {
    let mut client = RouterClient::new();
    match client.handle_message(Inbound::Response { downlink: Some(vec![4, 2]) }) {
        Ok(Reaction::Deliver(d)) => assert_eq!(d, vec![4, 2]),
        _ => panic!("expected a downlink"),
    }
    assert!(matches!(
        client.handle_message(Inbound::Response { downlink: None }),
        Ok(Reaction::Nothing)
    ));
}

#[test]
fn reject_removes_oldest_packet() {
    let mut client = RouterClient::new();
    client.handle_uplink(packet(1, 0), 1);
    client.handle_uplink(packet(2, 0), 1);
    client.handle_uplink(packet(3, 0), 1);
    assert!(matches!(client.handle_message(Inbound::Reject), Ok(Reaction::Nothing)));
    assert_eq!(client.waiting_len(), 2);
    assert_eq!(flood(&client, 2), vec![vec![2], vec![3]]);
}

#[test]
fn reject_on_empty_queue_does_nothing() {
    let mut client = RouterClient::new();
    assert!(matches!(client.handle_message(Inbound::Reject), Ok(Reaction::Nothing)));
    assert_eq!(client.waiting_len(), 0);
}

#[test]
fn purchases_take_packets_in_order() {
    let mut client = RouterClient::new();
    client.handle_uplink(packet(1, 0), 1);
    client.handle_uplink(packet(2, 0), 1);
    let mut trusted = vec![StateChannel::new(vec![9], vec![0])];
    let mut log = Vec::new();
    for expected in [vec![1u8], vec![2u8]] {
        let msg = Inbound::Purchase { channel: Some(StateChannel::new(vec![9], vec![1])) };
        let rec = drive(reconciliation(client.handle_message(msg)), &mut trusted, &mut log);
        match rec.conclude() {
            Ok(FollowUp::SendPacket(p)) => assert_eq!(p.payload, expected),
            _ => panic!("expected the purchased packet"),
        }
    }
    assert_eq!(client.waiting_len(), 0);
}

#[test]
fn purchase_without_channel_is_not_found() {
    let mut client = RouterClient::new();
    client.handle_uplink(packet(1, 0), 1);
    let rec = reconciliation(client.handle_message(Inbound::Purchase { channel: None }));
    assert!(matches!(rec.conclude(), Err(Error::ChannelNotFound)));
}

#[test]
fn flood_stops_at_capacity() {
    let mut client = RouterClient::new();
    for tag in 1..=5u8 {
        client.handle_uplink(packet(tag, 0), 1);
    }
    assert_eq!(flood(&client, 3), vec![vec![1], vec![2], vec![3]]);
    assert_eq!(client.waiting_len(), 5);
    assert_eq!(flood(&client, 2), vec![vec![1], vec![2]]);
}

#[test]
fn flood_offers_each_packet_once() {
    let mut client = RouterClient::new();
    client.handle_uplink(packet(1, 0), 1);
    client.handle_uplink(packet(2, 0), 1);
    assert_eq!(flood(&client, 5), vec![vec![1], vec![2]]);
    assert_eq!(client.waiting_len(), 2);
}

#[test]
fn flood_keeps_queue_order_for_purchases() {
    let mut client = RouterClient::new();
    for tag in 1..=3u8 {
        client.handle_uplink(packet(tag, 0), 1);
    }
    assert_eq!(flood(&client, 1), vec![vec![1]]);
    let mut trusted = vec![StateChannel::new(vec![9], vec![0])];
    let mut log = Vec::new();
    let msg = Inbound::Purchase { channel: Some(StateChannel::new(vec![9], vec![1])) };
    let rec = drive(reconciliation(client.handle_message(msg)), &mut trusted, &mut log);
    match rec.conclude() {
        Ok(FollowUp::SendPacket(p)) => assert_eq!(p.payload, vec![1]),
        _ => panic!("expected the oldest packet"),
    }
    assert_eq!(client.waiting_len(), 2);
}

#[test]
fn flood_with_zero_capacity_offers_nothing() {
    let mut client = RouterClient::new();
    client.handle_uplink(packet(1, 0), 1);
    assert!(flood(&client, 0).is_empty());
    assert_eq!(client.waiting_len(), 1);
}

#[test]
fn invalid_banner_channel_is_logged_not_trusted() {
    let mut client = RouterClient::new();
    let msg = Inbound::Banner { channel: Some(StateChannel::new(vec![5], vec![1])) };
    let mut rec = reconciliation(client.handle_message(msg));
    rec = rec.advance(Event::Found(Ok(None)));
    rec = rec.advance(Event::Built(Ok(StateChannel::new(vec![5], vec![1]))));
    rec = rec.advance(Event::Verdict(Err(Error::InvalidChannel)));
    let mut trusted: Vec<StateChannel> = Vec::new();
    let mut log = Vec::new();
    let rec = drive(rec, &mut trusted, &mut log);
    assert!(matches!(rec.conclude(), Err(Error::InvalidChannel)));
    assert_eq!(log.len(), 1);
    assert_eq!(log[0].id, vec![5]);
    assert!(trusted.is_empty());
}

#[test]
fn end_to_end_uplink_banner_purchase_response() {
    let mut client = RouterClient::new();
    let mut trusted: Vec<StateChannel> = Vec::new();
    let mut log = Vec::new();

    let cmds = client.handle_uplink(packet(0xA, 100), trusted.len() as u64);
    assert!(matches!(cmds[0], Command::Connect));
    assert_eq!(sent_payload(&cmds[1]), Some(vec![0xA]));

    let banner = Inbound::Banner { channel: Some(StateChannel::new(vec![0xC1], vec![1])) };
    let rec = drive(reconciliation(client.handle_message(banner)), &mut trusted, &mut log);
    assert!(matches!(rec.conclude(), Ok(FollowUp::SendOffers)));
    assert_eq!(trusted.len(), 1);
    assert_eq!(trusted[0].id, vec![0xC1]);
    assert_eq!(flood(&client, 1), vec![vec![0xA]]);
    assert_eq!(client.waiting_len(), 1);

    let purchase = Inbound::Purchase { channel: Some(StateChannel::new(vec![0xC1], vec![2])) };
    let rec = drive(reconciliation(client.handle_message(purchase)), &mut trusted, &mut log);
    match rec.conclude() {
        Ok(FollowUp::SendPacket(p)) => {
            assert_eq!(p.payload, vec![0xA]);
            assert_eq!(p.hold_time(160), 60);
        }
        _ => panic!("expected the purchased packet"),
    }
    assert_eq!(client.waiting_len(), 0);
    assert_eq!(trusted[0].state, vec![2]);

    let mut sink = Vec::new();
    if let Ok(Reaction::Deliver(d)) =
        client.handle_message(Inbound::Response { downlink: Some(vec![0xD]) })
    {
        sink.push(d);
    }
    assert_eq!(sink, vec![vec![0xD]]);
    assert!(log.is_empty());
}
