use async_socket::accept::NodeMsg;
use async_socket::addr::PeerAddr;
use async_socket::registry::Notice;
use async_socket::registry::Registry;
use bytes::BytesMut;

fn v4(last: u32, port: u16) -> PeerAddr {
    PeerAddr::V4 { ip4: 0x0a64_0100 + last, port }
}

fn sender_msg(
    a: PeerAddr,
) -> (NodeMsg, tokio::sync::mpsc::Sender<BytesMut>, tokio::sync::oneshot::Receiver<()>) {
    let (tx, _rx) = tokio::sync::mpsc::channel::<BytesMut>(20);
    let (close_tx, close_rx) = tokio::sync::oneshot::channel::<()>();
    (NodeMsg::Sender(a, tx.clone(), Some(close_tx)), tx, close_rx)
}

fn sorted(mut list: Vec<PeerAddr>) -> Vec<PeerAddr> {
    list.sort_by_key(|a| match a {
        PeerAddr::V4 { ip4, port } => (*ip4 as u128, *port),
        PeerAddr::V6 { ip6, port, .. } => (*ip6, *port),
    });
    list
}

#[test]
fn a_new_registry_has_no_nodes() {
    let r = Registry::new();
    assert_eq!(r.len(), 0);
    assert!(r.addresses().is_empty());
    assert!(!r.contains(v4(1, 1)));
    assert!(r.outbound(v4(1, 1)).is_none());
    assert_eq!(r.sent_count(v4(1, 1)), None);
}

#[test]
fn a_node_joins_gets_its_link_and_leaves() {
    let a = v4(3, 5000);
    let mut r = Registry::new();
    assert!(matches!(r.apply(NodeMsg::Connected(a)), Notice::Joined(x) if x == a));
    assert!(r.contains(a));
    assert!(r.outbound(a).is_none());
    assert_eq!(r.sent_count(a), None);
    let (msg, tx, _close_rx) = sender_msg(a);
    assert!(matches!(r.apply(msg), Notice::Linked(x) if x == a));
    assert!(r.outbound(a).unwrap().same_channel(&tx));
    assert_eq!(r.sent_count(a), Some(0));
    assert!(matches!(r.apply(NodeMsg::Disconnected(a)), Notice::Left(x) if x == a));
    assert!(!r.contains(a));
    assert!(r.outbound(a).is_none());
    assert_eq!(r.sent_count(a), None);
    assert!(r.take_close(a).is_none());
    assert!(r.addresses().is_empty());
}

#[test]
fn the_active_set_is_connected_without_disconnected() {
    let a = v4(1, 1000);
    let b = v4(2, 1000);
    let c = v4(2, 1001);
    let d = PeerAddr::V6 { ip6: 1, port: 1000, flowinfo: 0, scope_id: 0 };
    let mut r = Registry::new();
    r.apply(NodeMsg::Connected(a));
    r.apply(NodeMsg::Connected(b));
    r.apply(sender_msg(b).0);
    r.apply(NodeMsg::Connected(c));
    r.apply(sender_msg(a).0);
    r.apply(NodeMsg::Disconnected(b));
    r.apply(NodeMsg::Connected(d));
    r.apply(sender_msg(c).0);
    r.apply(NodeMsg::Event(a, BytesMut::from("hello")));
    r.apply(NodeMsg::Disconnected(a));
    r.apply(NodeMsg::Connected(b));
    r.apply(sender_msg(d).0);
    assert_eq!(sorted(r.addresses()), sorted(vec![b, c, d]));
    assert_eq!(r.len(), 3);
    assert!(!r.contains(a));
    assert!(r.contains(b));
    assert!(r.outbound(b).is_none());
    assert!(r.outbound(c).is_some());
    assert!(r.outbound(d).is_some());
    r.apply(NodeMsg::Disconnected(b));
    r.apply(NodeMsg::Disconnected(c));
    r.apply(NodeMsg::Disconnected(d));
    assert!(r.addresses().is_empty());
    assert_eq!(r.len(), 0);
}

#[test]
fn addresses_differ_by_any_field() {
    let a = PeerAddr::V6 { ip6: 7, port: 9, flowinfo: 0, scope_id: 0 };
    let b = PeerAddr::V6 { ip6: 7, port: 9, flowinfo: 1, scope_id: 0 };
    let c = PeerAddr::V6 { ip6: 7, port: 9, flowinfo: 0, scope_id: 1 };
    let d = PeerAddr::V4 { ip4: 7, port: 9 };
    let mut r = Registry::new();
    for x in [a, b, c, d] {
        assert!(matches!(r.apply(NodeMsg::Connected(x)), Notice::Joined(_)));
    }
    assert_eq!(r.addresses().len(), 4);
    assert!(matches!(r.apply(NodeMsg::Disconnected(b)), Notice::Left(_)));
    assert!(r.contains(a) && !r.contains(b) && r.contains(c) && r.contains(d));
}

#[test]
fn a_repeated_message_changes_nothing() {
    let a = v4(9, 9);
    let mut r = Registry::new();
    r.apply(NodeMsg::Connected(a));
    assert!(matches!(r.apply(NodeMsg::Connected(a)), Notice::Ignored));
    assert_eq!(r.addresses(), vec![a]);
    let (first, first_tx, _c1) = sender_msg(a);
    let (second, second_tx, _c2) = sender_msg(a);
    assert!(matches!(r.apply(first), Notice::Linked(_)));
    r.record_sent(a);
    assert!(matches!(r.apply(second), Notice::Ignored));
    assert!(r.outbound(a).unwrap().same_channel(&first_tx));
    assert!(!r.outbound(a).unwrap().same_channel(&second_tx));
    assert_eq!(r.sent_count(a), Some(1));
    assert!(matches!(r.apply(NodeMsg::Disconnected(a)), Notice::Left(_)));
    assert!(matches!(r.apply(NodeMsg::Disconnected(a)), Notice::Ignored));
    assert!(r.addresses().is_empty());
}

#[test]
fn handles_of_an_unknown_node_are_not_kept() {
    let a = v4(4, 4);
    let mut r = Registry::new();
    assert!(matches!(r.apply(sender_msg(a).0), Notice::Ignored));
    assert!(!r.contains(a));
    assert!(r.outbound(a).is_none());
    assert!(r.take_close(a).is_none());
    assert_eq!(r.record_sent(a), None);
}

#[test]
fn data_of_an_active_node_reaches_the_application() {
    let a = v4(5, 5);
    let mut r = Registry::new();
    r.apply(NodeMsg::Connected(a));
    match r.apply(NodeMsg::Event(a, BytesMut::from("ping"))) {
        Notice::Data(x, data) => {
            assert_eq!(x, a);
            assert_eq!(&data[..], b"ping");
        }
        other => panic!("unexpected notice: {:?}", other),
    }
    assert!(matches!(r.apply(NodeMsg::Event(a, BytesMut::from("bit"))), Notice::Ignored));
    assert!(matches!(r.apply(NodeMsg::Event(v4(6, 6), BytesMut::from("ping"))), Notice::Ignored));
    assert_eq!(r.addresses(), vec![a]);
}

#[test]
fn sent_messages_are_counted_per_node() {
    let a = v4(1, 1);
    let b = v4(2, 2);
    let mut r = Registry::new();
    r.apply(NodeMsg::Connected(a));
    r.apply(NodeMsg::Connected(b));
    assert_eq!(r.record_sent(a), None);
    r.apply(sender_msg(a).0);
    r.apply(sender_msg(b).0);
    for n in 1..=11u64 {
        assert_eq!(r.record_sent(a), Some(n));
    }
    assert_eq!(r.record_sent(b), Some(1));
    assert_eq!(r.sent_count(a), Some(11));
    assert_eq!(r.sent_count(b), Some(1));
    assert_eq!(sorted(r.addresses()), sorted(vec![a, b]));
}

#[test]
fn the_close_handle_is_taken_once_and_the_node_stays_until_it_disconnects() {
    let a = v4(7, 7);
    let mut r = Registry::new();
    r.apply(NodeMsg::Connected(a));
    assert!(r.take_close(a).is_none());
    let (msg, tx, mut close_rx) = sender_msg(a);
    r.apply(msg);
    r.record_sent(a);
    let close = r.take_close(a).unwrap();
    close.send(()).unwrap();
    assert!(close_rx.try_recv().is_ok());
    assert!(r.take_close(a).is_none());
    assert!(r.contains(a));
    assert!(r.outbound(a).unwrap().same_channel(&tx));
    assert_eq!(r.sent_count(a), Some(1));
    assert!(matches!(r.apply(NodeMsg::Disconnected(a)), Notice::Left(_)));
    assert!(!r.contains(a));
    assert!(matches!(r.apply(NodeMsg::Disconnected(a)), Notice::Ignored));
}

#[test]
fn a_node_is_closed_once_it_is_past_the_limit() {
    let a = v4(7, 8);
    let b = v4(7, 9);
    let mut r = Registry::new();
    r.apply(NodeMsg::Connected(a));
    r.apply(NodeMsg::Connected(b));
    assert!(r.close_if_due(a, 0).is_none());
    let (msg, _tx, mut close_rx) = sender_msg(a);
    r.apply(msg);
    r.apply(sender_msg(b).0);
    for _ in 0..10 {
        r.record_sent(a);
        assert!(r.close_if_due(a, 10).is_none());
    }
    assert_eq!(r.sent_count(a), Some(10));
    r.record_sent(a);
    assert!(r.close_if_due(b, 10).is_none());
    let close = r.close_if_due(a, 10).unwrap();
    close.send(()).unwrap();
    assert!(close_rx.try_recv().is_ok());
    assert!(r.close_if_due(a, 10).is_none());
    assert!(r.take_close(a).is_none());
    assert!(r.take_close(b).is_some());
    assert!(r.contains(a));
    assert_eq!(r.sent_count(a), Some(11));
    r.apply(NodeMsg::Disconnected(a));
    assert!(r.close_if_due(a, 0).is_none());
    assert_eq!(r.len(), 1);
}

#[test]
fn a_limit_of_zero_closes_after_the_first_message() {
    let a = v4(6, 1);
    let mut r = Registry::new();
    r.apply(NodeMsg::Connected(a));
    r.apply(sender_msg(a).0);
    assert!(r.close_if_due(a, 0).is_none());
    r.record_sent(a);
    assert!(r.close_if_due(a, 1).is_none());
    assert!(r.close_if_due(a, 0).is_some());
    assert!(r.close_if_due(v4(6, 2), 0).is_none());
}

#[test]
fn a_node_without_a_close_handle_has_none_to_take() {
    let a = v4(8, 8);
    let (tx, _rx) = tokio::sync::mpsc::channel::<BytesMut>(1);
    let mut r = Registry::new();
    r.apply(NodeMsg::Connected(a));
    r.apply(NodeMsg::Sender(a, tx, None));
    assert!(r.take_close(a).is_none());
    assert!(r.outbound(a).is_some());
}

#[test]
fn an_address_can_come_back_after_it_left() {
    let a = v4(1, 2);
    let mut r = Registry::new();
    r.apply(NodeMsg::Connected(a));
    r.apply(sender_msg(a).0);
    r.record_sent(a);
    r.apply(NodeMsg::Disconnected(a));
    assert!(matches!(r.apply(NodeMsg::Connected(a)), Notice::Joined(_)));
    assert!(r.outbound(a).is_none());
    let (msg, tx, _c) = sender_msg(a);
    assert!(matches!(r.apply(msg), Notice::Linked(_)));
    assert!(r.outbound(a).unwrap().same_channel(&tx));
    assert_eq!(r.sent_count(a), Some(0));
}

#[test]
fn a_message_names_its_node() {
    let a = v4(3, 3);
    assert_eq!(NodeMsg::Connected(a).address(), a);
    assert_eq!(NodeMsg::Disconnected(a).address(), a);
    assert_eq!(NodeMsg::Event(a, BytesMut::new()).address(), a);
    assert_eq!(sender_msg(a).0.address(), a);
}
