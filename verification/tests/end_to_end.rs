use async_socket::accept::NodeMsg;
use async_socket::addr::PeerAddr;
use async_socket::frame::decode_frame;
use async_socket::manager::reader_step;
use async_socket::manager::writer_step;
use async_socket::manager::ControlAction;
use async_socket::manager::ControlEvent;
use async_socket::manager::ControlLoop;
use async_socket::manager::NodeShim;
use async_socket::manager::ReaderAction;
use async_socket::manager::ReaderEvent;
use async_socket::manager::ShimAction;
use async_socket::manager::ShimEvent;
use async_socket::manager::WriterAction;
use async_socket::manager::WriterEvent;
use async_socket::registry::Notice;
use async_socket::registry::Registry;
use bytes::BytesMut;

/// Carries one frame from the writer of one end to the reader of the other
/// and returns what the reader delivers.
fn across_the_wire(payload: BytesMut) -> BytesMut {
    let frame = match writer_step(WriterEvent::Message { payload, cancelled: false }) {
        WriterAction::Write(frame) => frame,
        other => panic!("unexpected action: {:?}", other),
    };
    let prefix = [frame[0], frame[1], frame[2], frame[3]];
    let mut body = match reader_step(ReaderEvent::PrefixRead(prefix)) {
        ReaderAction::ReadBody(body) => body,
        other => panic!("unexpected action: {:?}", other),
    };
    assert_eq!(body.len(), frame.len() - 4);
    body.copy_from_slice(&frame[4..]);
    let (whole, used) = decode_frame(&frame[..]).unwrap();
    assert_eq!(used, frame.len());
    assert_eq!(whole, body);
    match reader_step(ReaderEvent::BodyRead(body)) {
        ReaderAction::Deliver(p) => p,
        other => panic!("unexpected action: {:?}", other),
    }
}

#[test]
fn a_client_with_keepalive_and_a_server_without() {
    let addr = PeerAddr::V4 { ip4: 0x7f00_0001, port: 51000 };
    let mut registry = Registry::new();
    let mut shim = NodeShim::new(addr);
    let mut server_loop = ControlLoop::new(false);
    let mut client_loop = ControlLoop::new(true);
    assert!(matches!(server_loop.step(ControlEvent::RoutinesStarted), ControlAction::HandOver));
    assert!(matches!(client_loop.step(ControlEvent::RoutinesStarted), ControlAction::HandOver));

    let (tx, _rx) = tokio::sync::mpsc::channel::<BytesMut>(20);
    let (close_tx, _close_rx) = tokio::sync::oneshot::channel::<()>();
    let mut notices = Vec::new();
    match shim.step(ShimEvent::Established { outbound: tx, close: Some(close_tx) }) {
        ShimAction::Announce(first, second) => {
            notices.push(registry.apply(first));
            notices.push(registry.apply(second));
        }
        other => panic!("unexpected action: {:?}", other),
    }
    assert!(matches!(notices[0], Notice::Joined(a) if a == addr));
    assert!(matches!(notices[1], Notice::Linked(a) if a == addr));
    assert_eq!(registry.addresses(), vec![addr]);

    let mut data_events = 0;
    for _ in 0..3 {
        assert!(matches!(server_loop.step(ControlEvent::KeepaliveTick), ControlAction::Wait));
        let beat = match client_loop.step(ControlEvent::KeepaliveTick) {
            ControlAction::QueueHeartbeat(beat) => beat,
            other => panic!("unexpected action: {:?}", other),
        };
        let delivered = across_the_wire(beat);
        assert_eq!(&delivered[..], b"bit");
        if let ShimAction::Forward(msg) = shim.step(ShimEvent::Inbound(delivered)) {
            if let Notice::Data(_, _) = registry.apply(msg) {
                data_events += 1;
            }
        }
    }
    assert_eq!(data_events, 0);

    let delivered = across_the_wire(BytesMut::from("ping"));
    let msg = match shim.step(ShimEvent::Inbound(delivered)) {
        ShimAction::Forward(msg) => msg,
        other => panic!("unexpected action: {:?}", other),
    };
    assert!(matches!(&msg, NodeMsg::Event(a, _) if *a == addr));
    match registry.apply(msg) {
        Notice::Data(a, data) => {
            assert_eq!(a, addr);
            assert_eq!(&data[..], b"ping");
        }
        other => panic!("unexpected notice: {:?}", other),
    }

    match shim.step(ShimEvent::InboundClosed) {
        ShimAction::Disconnect { notice, close_inbound } => {
            assert!(!close_inbound);
            assert!(matches!(registry.apply(notice), Notice::Left(a) if a == addr));
        }
        other => panic!("unexpected action: {:?}", other),
    }
    assert!(registry.addresses().is_empty());
}
