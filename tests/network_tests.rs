use tmsn::mock_network::MockNetwork;
use tmsn::mock_network::TryRecvError;
use tmsn::network::heartbeat_request;
use tmsn::network::on_inbound;
use tmsn::network::DEFAULT_HEARTBEAT_SECS;
use tmsn::packet::Packet;
use tmsn::packet::PacketType;
use tmsn::perfstats::PerfStats;
use tmsn::receiving::ConnectRetry;
use tmsn::receiving::LineOutcome;
use tmsn::receiving::PeerReader;
use tmsn::routing::SubscriberTable;
use tmsn::routing::HEAD_NODE;

/// Reads `packet` from `reader` as one line, and hands it to the local handler.
fn receive(
    reader: &mut PeerReader,
    stats: &mut PerfStats,
    packet: Packet,
    report: Option<PerfStats>,
) -> (Option<String>, Option<(Option<String>, Packet)>) {
    match reader.on_line("[0,{...}]\n", Some(packet)) {
        LineOutcome::Delivered { sender, packet, reply } => {
            assert!(stats.can_update(&packet));
            (on_inbound(stats, sender, packet, report), reply)
        }
        other => panic!("unexpected outcome {:?}", other),
    }
}

#[test]
fn inbound_hands_on_messages_only() {
    let mut stats = PerfStats::new();
    let mut msg = Packet::new("\"m\"".to_string());
    msg.mark_received();
    assert_eq!(on_inbound(&mut stats, "a".to_string(), msg.clone(), None), Some("\"m\"".to_string()));
    let echo = msg.get_receipt().unwrap();
    assert_eq!(on_inbound(&mut stats, "a".to_string(), echo, None), None);
    let mut hb = Packet::get_hb("{}".to_string());
    hb.mark_received();
    assert_eq!(on_inbound(&mut stats, "a".to_string(), hb, Some(PerfStats::new())), None);
    assert_eq!(stats.total, 3);
    assert_eq!((stats.num_msg, stats.num_msg_echo, stats.num_hb), (1, 1, 1));
}

#[test]
fn heartbeat_goes_to_head_node() {
    let (dest, p) = heartbeat_request("{\"total\":4}".to_string());
    assert_eq!(dest, Some(HEAD_NODE.to_string()));
    assert_eq!(p.packet_type, PacketType::Heartbeat);
    assert_eq!(p.content, Some("{\"total\":4}".to_string()));
    assert_eq!(DEFAULT_HEARTBEAT_SECS, 30);
}

#[test]
fn single_peer_loopback() {
    let neighbours = vec!["127.0.0.1".to_string()];
    let mut table = SubscriberTable::new();
    table.accept("127.0.0.1".to_string());
    assert!(table.is_ready(neighbours.len()));
    let mut reader = PeerReader::new("127.0.0.1".to_string());
    let mut stats = PerfStats::new();

    let (seq, targets) = table.next_frame(&None);
    assert_eq!((seq, targets), (0, vec![0]));
    let (delivered, reply) = receive(&mut reader, &mut stats, Packet::new("\"Hello\"".to_string()), None);
    assert_eq!(delivered, Some("\"Hello\"".to_string()));

    let (dest, echo) = reply.unwrap();
    assert_eq!(table.next_frame(&dest).1, vec![0]);
    let (delivered, reply) = receive(&mut reader, &mut stats, echo, None);
    assert_eq!(delivered, None);
    assert!(reply.is_none());

    let (dest, hb) = heartbeat_request("{}".to_string());
    assert_eq!(table.next_frame(&dest).1, vec![0]);
    let (_, reply) = receive(&mut reader, &mut stats, hb, Some(PerfStats::new()));
    let (_, hb_echo) = reply.unwrap();
    receive(&mut reader, &mut stats, hb_echo, None);

    assert_eq!(stats.num_msg, 1);
    assert_eq!(stats.num_msg_echo, 1);
    assert!(stats.num_hb >= 1);
    assert_eq!(stats.others.len(), 1);
    assert_eq!(stats.others[0].0, "127.0.0.1");
}

#[test]
fn two_peer_broadcast() {
    let mut x_table = SubscriberTable::new();
    x_table.accept("10.0.0.2".to_string());
    let mut y_table = SubscriberTable::new();
    y_table.accept("10.0.0.1".to_string());
    let mut x_reads_y = PeerReader::new("10.0.0.2".to_string());
    let mut y_reads_x = PeerReader::new("10.0.0.1".to_string());
    let mut x_stats = PerfStats::new();
    let mut y_stats = PerfStats::new();

    assert_eq!(x_table.next_frame(&None).1, vec![0]);
    let (delivered, reply) = receive(&mut y_reads_x, &mut y_stats, Packet::new("42".to_string()), None);
    assert_eq!(delivered, Some("42".to_string()));
    assert_eq!(y_stats.num_msg, 1);

    let (dest, echo) = reply.unwrap();
    assert_eq!(dest, Some("10.0.0.1".to_string()));
    assert_eq!(y_table.next_frame(&dest).1, vec![0]);
    receive(&mut x_reads_y, &mut x_stats, echo, None);
    assert_eq!(x_stats.num_msg_echo, 1);
    assert_eq!(x_stats.num_msg, 0);
}

#[test]
fn unicast_via_head_node() {
    let mut a = SubscriberTable::new();
    a.accept("10.0.0.2".to_string());
    a.accept("10.0.0.3".to_string());
    let (_, targets) = a.next_frame(&Some(HEAD_NODE.to_string()));
    assert_eq!(targets, vec![0]);
}

#[test]
fn reconnect_budget_leaves_subscribers_alone() {
    let mut table = SubscriberTable::new();
    table.accept("10.0.0.7".to_string());
    let mut retry = ConnectRetry::new();
    let mut failures = 0;
    while retry.may_attempt() {
        retry.start_attempt();
        failures += 1;
    }
    assert_eq!(failures, 3);
    assert_eq!(table.get_subscribers(), vec!["10.0.0.7".to_string()]);
}

#[test]
fn mock_round_trip() {
    let mut net = MockNetwork::new(8080, &vec![]);
    assert_eq!(
        net.mock_send(&"peerX".to_string(), "\"hi\"".to_string()),
        Some(("peerX".to_string(), "\"hi\"".to_string()))
    );
    assert_eq!(net.mock_get(), Err(TryRecvError::Empty));
    assert_eq!(net.send(Some("peerY".to_string()), "\"out\"".to_string()), Ok(()));
    let (dest, packet) = net.mock_get().unwrap();
    assert_eq!(dest, Some("peerY".to_string()));
    assert_eq!(packet.packet_type, PacketType::Message);
    assert_eq!(packet.content, Some("\"out\"".to_string()));
    assert_eq!(net.mock_get(), Err(TryRecvError::Empty));
}

#[test]
fn mock_reports_placeholder_subscriber_and_empty_health() {
    let net = MockNetwork::new(8080, &vec!["10.0.0.2".to_string()]);
    assert_eq!(net.get_subscribers(), vec!["mock".to_string()]);
    assert_eq!(net._perf_stats.total, 0);
    assert!(net._perf_stats.others.is_empty());
}

fn stress_test_network(pkg_interval: u64) {
    let load_mul: Vec<usize> = vec![1, 1, 5, 10, 100, 200, 1];
    for load in load_mul {
        let message: String = std::iter::repeat('a').take(1024 * load).collect();
        let mut net = MockNetwork::new(8082, &vec![]);
        for i in 0..100u64 {
            let payload = format!("\"{}{}\"", message, i * pkg_interval);
            assert!(net.send(None, payload).is_ok());
        }
        for i in 0..100u64 {
            let (dest, packet) = net.mock_get().unwrap();
            assert_eq!(dest, None);
            assert_eq!(packet.content, Some(format!("\"{}{}\"", message, i * pkg_interval)));
        }
        assert!(net.mock_get().is_err());
    }
}

#[test]
fn stress_test_network_10() {
    stress_test_network(10);
}
