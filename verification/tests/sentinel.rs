//! The sentinel's state machine, exercised through `apply`.
use shed::command::{Signal, WebCommand};
use shed::web::{
    Addr, ApplyError, CommandResponse, Hook, Response, WebConfig, WebSentinel,
};

fn local_cfg() -> WebConfig {
    WebConfig { socket: Addr { ip: 2130706433, port: 0 } }
}

fn peer(n: u16) -> Addr {
    Addr { ip: 2130706433, port: 40000 + n }
}

#[test]
fn test_sentinel() {
    let cfg = local_cfg();
    let mut st = WebSentinel::new(cfg);
    let res = st.send_signal(Signal::Init(b"test".to_vec()), peer(1));
    assert!(res == CommandResponse);
}

#[test]
fn init_creates_stopped_entry() {
    let mut st = WebSentinel::new(local_cfg());
    let r = st.apply(WebCommand::Signal(Signal::Init(b"svcA".to_vec())), peer(1));
    assert_eq!(r, Response::Applied(None));
    let table = st.list_status();
    assert_eq!(table.len(), 1);
    assert_eq!(table[0].id, b"svcA".to_vec());
    assert!(!table[0].running);
    assert_eq!(table[0].last_peer, Some(peer(1)));
}

#[test]
fn start_runs_and_is_idempotent() {
    let mut st = WebSentinel::new(local_cfg());
    st.apply(WebCommand::Signal(Signal::Init(b"svcA".to_vec())), peer(1));
    let first = st.apply(WebCommand::Signal(Signal::Start(b"svcA".to_vec())), peer(2));
    assert_eq!(first, Response::Applied(Some(Hook::Start(b"svcA".to_vec()))));
    let before = st.list_status();
    // the second start is an idempotent no-op: no error, no hook, no change
    let second = st.apply(WebCommand::Signal(Signal::Start(b"svcA".to_vec())), peer(3));
    assert_eq!(second, Response::Applied(None));
    let after = st.list_status();
    assert_eq!(before, after);
    assert!(after[0].running);
    assert_eq!(after[0].last_peer, Some(peer(2)));
}

#[test]
fn stop_is_symmetric_and_idempotent() {
    let mut st = WebSentinel::new(local_cfg());
    st.apply(WebCommand::Signal(Signal::Init(b"svcA".to_vec())), peer(1));
    st.apply(WebCommand::Signal(Signal::Start(b"svcA".to_vec())), peer(1));
    let first = st.apply(WebCommand::Signal(Signal::Stop(b"svcA".to_vec())), peer(1));
    assert_eq!(first, Response::Applied(Some(Hook::Stop(b"svcA".to_vec()))));
    let second = st.apply(WebCommand::Signal(Signal::Stop(b"svcA".to_vec())), peer(1));
    assert_eq!(second, Response::Applied(None));
    assert!(!st.list_status()[0].running);
}

#[test]
fn start_without_init_is_guarded() {
    let mut st = WebSentinel::new(local_cfg());
    st.apply(WebCommand::Signal(Signal::Init(b"other".to_vec())), peer(1));
    let before = st.list_status();
    let r = st.apply(WebCommand::Signal(Signal::Start(b"svcB".to_vec())), peer(1));
    assert_eq!(r, Response::Failed(ApplyError::UnknownService(b"svcB".to_vec())));
    let r2 = st.apply(WebCommand::Signal(Signal::Stop(b"svcB".to_vec())), peer(1));
    assert_eq!(r2, Response::Failed(ApplyError::UnknownService(b"svcB".to_vec())));
    assert_eq!(st.list_status(), before);
}

#[test]
fn init_resets_a_running_entry() {
    let mut st = WebSentinel::new(local_cfg());
    st.apply(WebCommand::Signal(Signal::Init(b"svcA".to_vec())), peer(1));
    st.apply(WebCommand::Signal(Signal::Start(b"svcA".to_vec())), peer(1));
    assert!(st.list_status()[0].running);
    let r = st.apply(WebCommand::Signal(Signal::Init(b"svcA".to_vec())), peer(2));
    assert_eq!(r, Response::Applied(None));
    let table = st.list_status();
    assert_eq!(table.len(), 1);
    assert!(!table[0].running);
    assert_eq!(table[0].last_peer, Some(peer(2)));
}

#[test]
fn list_returns_a_snapshot() {
    let mut st = WebSentinel::new(local_cfg());
    st.apply(WebCommand::Signal(Signal::Init(b"a".to_vec())), peer(1));
    st.apply(WebCommand::Signal(Signal::Init(b"b".to_vec())), peer(1));
    st.apply(WebCommand::Signal(Signal::Start(b"b".to_vec())), peer(1));
    match st.apply(WebCommand::List, peer(1)) {
        Response::Table(t) => {
            assert_eq!(t.len(), 2);
            assert_eq!(t[0].id, b"a".to_vec());
            assert!(!t[0].running);
            assert_eq!(t[1].id, b"b".to_vec());
            assert!(t[1].running);
        }
        other => panic!("expected a table, got {:?}", other),
    }
}

#[test]
fn fetch_is_delegated_uninterpreted() {
    let mut st = WebSentinel::new(local_cfg());
    let r = st.apply(WebCommand::Fetch(b"ipapi/ip".to_vec()), peer(1));
    assert_eq!(r, Response::FetchRequested(b"ipapi/ip".to_vec()));
    assert_eq!(st.list_status(), Vec::new());
}

#[test]
fn config_is_stored_for_future_sockets() {
    let mut st = WebSentinel::new(local_cfg());
    assert_eq!(st.config(), local_cfg());
    let next = WebConfig { socket: Addr { ip: 0, port: 9099 } };
    let r = st.apply(WebCommand::Config(next), peer(1));
    assert_eq!(r, Response::Applied(None));
    assert_eq!(st.config(), next);
}

#[test]
fn shutdown_is_terminal() {
    let mut st = WebSentinel::new(local_cfg());
    st.apply(WebCommand::Signal(Signal::Init(b"svcA".to_vec())), peer(1));
    let down = st.apply(WebCommand::Signal(Signal::Shutdown), peer(1));
    assert_eq!(down, Response::Applied(Some(Hook::Close)));
    assert_eq!(st.list_status(), Vec::new());
    // every later command, of any kind, is refused without change
    let r1 = st.apply(WebCommand::List, peer(2));
    assert_eq!(r1, Response::Failed(ApplyError::Terminated));
    let r2 = st.apply(WebCommand::Signal(Signal::Init(b"svcA".to_vec())), peer(2));
    assert_eq!(r2, Response::Failed(ApplyError::Terminated));
    let r3 = st.apply(WebCommand::Fetch(b"r".to_vec()), peer(2));
    assert_eq!(r3, Response::Failed(ApplyError::Terminated));
    assert_eq!(st.list_status(), Vec::new());
}
