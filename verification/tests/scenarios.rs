//! Whole datagrams through the verified receive-loop step.
use bytes::BytesMut;
use shed::render::{render_decode_error, render_fetch_result};
use shed::web::{Action, Addr, Reply, WebConfig, WebSentinel};

fn sentinel() -> WebSentinel {
    WebSentinel::new(WebConfig { socket: Addr { ip: 2130706433, port: 0 } })
}

fn peer(n: u16) -> Addr {
    Addr { ip: 2130706433, port: 50000 + n }
}

fn send_payload(action: Option<Action>) -> Vec<u8> {
    match action {
        Some(Action::Send(reply)) => reply.payload,
        other => panic!("expected a plain send, got {:?}", other),
    }
}

fn step(st: &mut WebSentinel, datagram: &[u8], from: Addr) -> Option<Action> {
    let mut buf = BytesMut::from(datagram);
    st.handle_datagram(&mut buf, from)
}

#[test]
fn scenario_init_start_list() {
    let mut st = sentinel();
    let p = peer(1);
    let r1 = step(&mut st, b"INIT svcA", p);
    assert_eq!(send_payload(r1), b"OK".to_vec());
    let r2 = step(&mut st, b"START svcA", p);
    match r2 {
        Some(Action::SendAndStart(reply, id)) => {
            assert_eq!(reply, Reply { to: p, payload: b"OK".to_vec() });
            assert_eq!(id, b"svcA".to_vec());
        }
        other => panic!("expected a send with a start hook, got {:?}", other),
    }
    let r3 = step(&mut st, b"LIST", p);
    assert_eq!(send_payload(r3), b"OK svcA=running".to_vec());
}

#[test]
fn scenario_start_without_init() {
    let mut st = sentinel();
    let p = peer(2);
    let r = step(&mut st, b"START svcB", p);
    match r {
        Some(Action::Send(reply)) => {
            assert_eq!(reply.to, p);
            assert_eq!(reply.payload, b"ERR unknown_service svcB".to_vec());
        }
        other => panic!("expected an error reply, got {:?}", other),
    }
    // the table is unchanged: still empty
    let r2 = step(&mut st, b"LIST", p);
    assert_eq!(send_payload(r2), b"OK".to_vec());
}

#[test]
fn scenario_empty_datagram() {
    let mut st = sentinel();
    let p = peer(3);
    step(&mut st, b"INIT svcA", p);
    let before = st.list_status();
    let r = step(&mut st, b"", p);
    assert!(r.is_none());
    assert_eq!(st.list_status(), before);
}

#[test]
fn scenario_two_peers_listing() {
    let mut st = sentinel();
    let first = peer(4);
    let second = peer(5);
    let r1 = step(&mut st, b"LIST", first);
    let r2 = step(&mut st, b"LIST", second);
    match (r1, r2) {
        (Some(Action::Send(a)), Some(Action::Send(b))) => {
            assert_eq!(a.to, first);
            assert_eq!(b.to, second);
            assert_ne!(a.to, b.to);
            assert_eq!(a.payload, b.payload);
        }
        other => panic!("expected two sends, got {:?}", other),
    }
}

#[test]
fn scenario_mixed_table_rendering() {
    let mut st = sentinel();
    let p = peer(6);
    step(&mut st, b"INIT svcA", p);
    step(&mut st, b"INIT svcB", p);
    step(&mut st, b"START svcB", p);
    let r = step(&mut st, b"LIST", p);
    assert_eq!(send_payload(r), b"OK svcA=stopped svcB=running".to_vec());
}

#[test]
fn scenario_fetch_delegation() {
    let mut st = sentinel();
    let p = peer(7);
    let r = step(&mut st, b"FETCH nws/report", p);
    match r {
        Some(Action::Fetch(to, resource)) => {
            assert_eq!(to, p);
            assert_eq!(resource, b"nws/report".to_vec());
        }
        other => panic!("expected a fetch delegation, got {:?}", other),
    }
    assert_eq!(render_fetch_result(true, b"cloudy"), b"OK cloudy".to_vec());
    assert_eq!(render_fetch_result(true, b""), b"OK".to_vec());
    assert_eq!(
        render_fetch_result(false, b"timeout"),
        b"ERR collaborator_error timeout".to_vec()
    );
    assert_eq!(render_fetch_result(false, b""), b"ERR collaborator_error".to_vec());
}

#[test]
fn scenario_malformed_frame_is_answered() {
    let mut st = sentinel();
    let p = peer(8);
    let r = step(&mut st, b"BOGUS frame", p);
    match r {
        Some(Action::Send(reply)) => {
            assert_eq!(reply.to, p);
            assert_eq!(reply.payload, b"ERR decode_error".to_vec());
            assert_eq!(reply.payload, render_decode_error());
        }
        other => panic!("expected an error reply, got {:?}", other),
    }
    let r2 = step(&mut st, b"LIST", p);
    assert_eq!(send_payload(r2), b"OK".to_vec());
}

#[test]
fn scenario_shutdown_closes() {
    let mut st = sentinel();
    let p = peer(9);
    step(&mut st, b"INIT svcA", p);
    let r = step(&mut st, b"SHUTDOWN", p);
    match r {
        Some(Action::SendAndClose(reply)) => {
            assert_eq!(reply, Reply { to: p, payload: b"OK".to_vec() });
        }
        other => panic!("expected a send-and-close, got {:?}", other),
    }
    let r2 = step(&mut st, b"LIST", p);
    assert_eq!(send_payload(r2), b"ERR terminated".to_vec());
}

#[test]
fn scenario_stop_hook() {
    let mut st = sentinel();
    let p = peer(10);
    step(&mut st, b"INIT svcA", p);
    step(&mut st, b"START svcA", p);
    let r = step(&mut st, b"STOP svcA", p);
    match r {
        Some(Action::SendAndStop(reply, id)) => {
            assert_eq!(reply, Reply { to: p, payload: b"OK".to_vec() });
            assert_eq!(id, b"svcA".to_vec());
        }
        other => panic!("expected a send with a stop hook, got {:?}", other),
    }
}

#[test]
fn scenario_config_through_the_wire() {
    let mut st = sentinel();
    let p = peer(11);
    let r = step(&mut st, b"CONFIG 9099", p);
    assert_eq!(send_payload(r), b"OK".to_vec());
    assert_eq!(st.config().socket.port, 9099);
    assert_eq!(st.config().socket.ip, 0);
    let r2 = step(&mut st, b"CONFIG 70000", p);
    assert_eq!(send_payload(r2), b"ERR decode_error".to_vec());
    assert_eq!(st.config().socket.port, 9099);
}

#[test]
fn frame_size_is_bounded_by_one_datagram() {
    assert_eq!(shed::MTU, 65535);
}
