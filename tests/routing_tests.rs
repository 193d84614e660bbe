use tmsn::routing::frame_line;
use tmsn::routing::SubscriberTable;
use tmsn::routing::HEAD_NODE;

fn table(addrs: &[&str]) -> SubscriberTable {
    let mut t = SubscriberTable::new();
    for a in addrs {
        t.accept(a.to_string());
    }
    t
}

#[test]
fn subscribers_keep_acceptance_order() {
    let mut t = SubscriberTable::new();
    assert_eq!(t.len(), 0);
    assert!(t.get_subscribers().is_empty());
    t.accept("10.0.0.2".to_string());
    t.accept("10.0.0.1".to_string());
    assert_eq!(t.get_subscribers(), vec!["10.0.0.2".to_string(), "10.0.0.1".to_string()]);
    t.accept("10.0.0.3".to_string());
    assert_eq!(t.len(), 3);
    assert_eq!(
        t.get_subscribers(),
        vec!["10.0.0.2".to_string(), "10.0.0.1".to_string(), "10.0.0.3".to_string()]
    );
}

#[test]
fn broadcast_routes_to_every_subscriber() {
    let t = table(&["b", "c", "d"]);
    assert_eq!(t.route(&None), vec![0, 1, 2]);
    assert_eq!(table(&[]).route(&None), Vec::<usize>::new());
}

#[test]
fn head_node_routes_to_first_subscriber_only() {
    let t = table(&["10.0.0.2", "10.0.0.3"]);
    assert_eq!(t.route(&Some(HEAD_NODE.to_string())), vec![0]);
    assert_eq!(table(&[]).route(&Some(HEAD_NODE.to_string())), Vec::<usize>::new());
}

#[test]
fn unicast_routes_to_matching_address() {
    let t = table(&["10.0.0.2", "10.0.0.3", "10.0.0.3"]);
    assert_eq!(t.route(&Some("10.0.0.3".to_string())), vec![1, 2]);
    assert_eq!(t.route(&Some("10.0.0.2".to_string())), vec![0]);
    assert_eq!(t.route(&Some("10.0.0.9".to_string())), Vec::<usize>::new());
}

#[test]
fn frames_carry_increasing_sequence_numbers() {
    let mut t = table(&["b", "c"]);
    let (s0, d0) = t.next_frame(&None);
    let (s1, d1) = t.next_frame(&Some("c".to_string()));
    let (s2, d2) = t.next_frame(&Some("nobody".to_string()));
    assert_eq!((s0, s1, s2), (0, 1, 2));
    assert_eq!(d0, vec![0, 1]);
    assert_eq!(d1, vec![1]);
    assert!(d2.is_empty());
    assert_eq!(t.get_subscribers(), vec!["b".to_string(), "c".to_string()]);
}

#[test]
fn ready_once_every_neighbour_subscribed() {
    let mut t = SubscriberTable::new();
    assert!(!t.is_ready(2));
    t.accept("x".to_string());
    assert!(!t.is_ready(2));
    t.accept("y".to_string());
    assert!(t.is_ready(2));
    assert!(SubscriberTable::new().is_ready(0));
}

#[test]
fn frame_ends_with_one_line_break() {
    assert_eq!(frame_line("[0,{}]".to_string()), "[0,{}]\n");
    assert_eq!(frame_line(String::new()), "\n");
}

#[test]
fn each_subscriber_gets_its_packets_in_issue_order() {
    let mut t = table(&["10.0.0.2", "10.0.0.3", "10.0.0.4"]);
    let dests: Vec<Option<String>> = vec![
        None,
        Some("10.0.0.3".to_string()),
        Some("10.0.0.2".to_string()),
        None,
        Some("10.0.0.4".to_string()),
        Some("10.0.0.3".to_string()),
    ];
    let mut logs: Vec<Vec<u32>> = vec![vec![], vec![], vec![]];
    for d in &dests {
        let (seq, targets) = t.next_frame(d);
        for k in targets {
            logs[k].push(seq);
        }
    }
    assert_eq!(logs[0], vec![0, 2, 3]);
    assert_eq!(logs[1], vec![0, 1, 3, 5]);
    assert_eq!(logs[2], vec![0, 3, 4]);
}
