//! The supervisor ("Sentinel") and its service-status table.
//!
//! A `WebSentinel` owns a table of service statuses and the bind parameters
//! for future control sockets. Commands parsed from frames are applied to it
//! strictly one at a time, which serializes every effect on the table in
//! arrival order; the socket itself, and the collaborators that the returned
//! hooks drive, live outside this crate.
use vstd::prelude::*;

use bytes::BytesMut;

use crate::coding::{bm_to_vec, bytes_mut_data, decode_spec, Codec};
use crate::command::{eq_bytes, parse_command, parse_spec, Cmd, Sig, Signal, WebCommand};
use crate::daemon::DaemonState;
use crate::render::{
    decode_err_render, err_render_spec, render_decode_error, render_response, render_table, txt_ok,
};

verus! {

/// A peer or bind address, as plain values: a numeric host and a port.
/// The transport layer outside this crate maps its socket-address type to
/// and from this form. Within the protocol an address is informational
/// only — it records where a reply went or where a signal came from, and
/// is never an access-control lock.
#[derive(Clone, Copy, Debug, PartialEq, Eq, Structural)]
pub struct Addr {
    pub ip: u32,
    pub port: u16,
}

/// Configuration for the web transport: where a control socket binds.
/// Stored by the sentinel for future sockets only; an already bound socket
/// is not rebound in place.
#[derive(Clone, Copy, Debug, PartialEq, Eq, Structural)]
pub struct WebConfig {
    pub socket: Addr,
}

/// The acknowledgment token for a delivered signal. It carries no detail on
/// purpose: `apply` is the interface that reports outcomes.
#[derive(Clone, Copy, Debug, PartialEq, Eq, Structural)]
pub struct CommandResponse;

/// One managed service's status: its name, whether it runs, and the peer
/// that last signalled it (informational only).
#[derive(Debug, PartialEq, Eq)]
pub struct ServiceStatus {
    pub id: Vec<u8>,
    pub running: bool,
    pub last_peer: Option<Addr>,
}

/// The mathematical shape of a `ServiceStatus`.
pub struct Svc {
    pub id: Seq<u8>,
    pub running: bool,
    pub last_peer: Option<Addr>,
}

impl View for ServiceStatus {
    type V = Svc;

    open spec fn view(&self) -> Svc {
        Svc { id: self.id@, running: self.running, last_peer: self.last_peer }
    }
}

/// An effect the embedder must drive after a successful signal: the
/// collaborator hooks and the closing of the control socket are outside
/// this crate.
#[derive(Debug, PartialEq, Eq)]
pub enum Hook {
    /// Invoke the named service's start hook.
    Start(Vec<u8>),
    /// Invoke the named service's stop hook.
    Stop(Vec<u8>),
    /// Close the control socket: the sentinel is terminated.
    Close,
}

/// The mathematical shape of a `Hook`.
pub enum HookView {
    Start(Seq<u8>),
    Stop(Seq<u8>),
    Close,
}

impl View for Hook {
    type V = HookView;

    open spec fn view(&self) -> HookView {
        match self {
            Hook::Start(id) => HookView::Start(id@),
            Hook::Stop(id) => HookView::Stop(id@),
            Hook::Close => HookView::Close,
        }
    }
}

/// Why a well-formed command was refused. Neither case mutates any state.
#[derive(Debug, PartialEq, Eq)]
pub enum ApplyError {
    /// `Start`/`Stop` named a service that no `Init` created.
    UnknownService(Vec<u8>),
    /// The sentinel was shut down; only a restart recovers.
    Terminated,
}

/// The mathematical shape of an `ApplyError`.
pub enum ErrView {
    UnknownService(Seq<u8>),
    Terminated,
}

impl View for ApplyError {
    type V = ErrView;

    open spec fn view(&self) -> ErrView {
        match self {
            ApplyError::UnknownService(id) => ErrView::UnknownService(id@),
            ApplyError::Terminated => ErrView::Terminated,
        }
    }
}

/// What applying one command yields.
#[derive(Debug, PartialEq, Eq)]
pub enum Response {
    /// An immutable snapshot of the full status table, for `List`.
    Table(Vec<ServiceStatus>),
    /// `Fetch` delegates: the embedder runs the HTTP collaborator on this
    /// resource, then wraps the outcome with `render_fetch_result`.
    FetchRequested(Vec<u8>),
    /// The command took effect; the hook, if any, must now be driven.
    Applied(Option<Hook>),
    /// The command was refused and nothing changed.
    Failed(ApplyError),
}

/// The mathematical shape of a `Response`.
pub enum Resp {
    Table(Seq<Svc>),
    FetchRequested(Seq<u8>),
    Applied(Option<HookView>),
    Failed(ErrView),
}

impl View for Response {
    type V = Resp;

    open spec fn view(&self) -> Resp {
        match self {
            Response::Table(t) => Resp::Table(t@.map_values(|s: ServiceStatus| s@)),
            Response::FetchRequested(r) => Resp::FetchRequested(r@),
            Response::Applied(h) => Resp::Applied(
                match h {
                    Some(hook) => Some(hook@),
                    None => None,
                },
            ),
            Response::Failed(e) => Resp::Failed(e@),
        }
    }
}

// ---------------------------------------------------------------------------
// The table model.
// ---------------------------------------------------------------------------
/// Every service name occurs at most once in the table.
pub open spec fn ids_unique(table: Seq<Svc>) -> bool {
    forall|i: int, j: int| 0 <= i < j < table.len() ==> table[i].id != table[j].id
}

/// Some entry carries this name.
pub open spec fn has_svc(table: Seq<Svc>, id: Seq<u8>) -> bool {
    exists|i: int| 0 <= i < table.len() && table[i].id == id
}

/// The position of the entry carrying this name (unique when `ids_unique`).
pub open spec fn idx_of(table: Seq<Svc>, id: Seq<u8>) -> int {
    choose|i: int| 0 <= i < table.len() && table[i].id == id
}

/// The named entry exists and is running.
pub open spec fn svc_running(table: Seq<Svc>, id: Seq<u8>) -> bool {
    has_svc(table, id) && table[idx_of(table, id)].running
}

/// What `Init` does to the table: reset the existing entry, or append a new
/// one, stopped either way and stamped with the signalling peer.
pub open spec fn init_svc(table: Seq<Svc>, id: Seq<u8>, peer: Addr) -> Seq<Svc> {
    let entry = Svc { id: id, running: false, last_peer: Some(peer) };
    if has_svc(table, id) {
        table.update(idx_of(table, id), entry)
    } else {
        table.push(entry)
    }
}

/// What a successful `Start`/`Stop` does: flip the named entry's `running`
/// and stamp the signalling peer.
pub open spec fn set_running(table: Seq<Svc>, id: Seq<u8>, run: bool, peer: Addr) -> Seq<Svc>
    recommends
        has_svc(table, id),
{
    table.update(idx_of(table, id), Svc { id: id, running: run, last_peer: Some(peer) })
}

/// The whole supervisor, mathematically: the table, the stored bind
/// parameters, and whether it still accepts commands.
pub struct SentinelView {
    pub table: Seq<Svc>,
    pub cfg: WebConfig,
    pub alive: bool,
}

/// The transition a lifecycle signal makes, and what it answers.
pub open spec fn apply_signal_spec(st: SentinelView, sig: Sig, peer: Addr) -> (SentinelView, Resp) {
    match sig {
        Sig::Init(id) => (
            SentinelView { table: init_svc(st.table, id, peer), cfg: st.cfg, alive: st.alive },
            Resp::Applied(Option::<HookView>::None),
        ),
        Sig::Start(id) => if !has_svc(st.table, id) {
            (st, Resp::Failed(ErrView::UnknownService(id)))
        } else if svc_running(st.table, id) {
            (st, Resp::Applied(Option::<HookView>::None))
        } else {
            (
                SentinelView {
                    table: set_running(st.table, id, true, peer),
                    cfg: st.cfg,
                    alive: st.alive,
                },
                Resp::Applied(Some(HookView::Start(id))),
            )
        },
        Sig::Stop(id) => if !has_svc(st.table, id) {
            (st, Resp::Failed(ErrView::UnknownService(id)))
        } else if !svc_running(st.table, id) {
            (st, Resp::Applied(Option::<HookView>::None))
        } else {
            (
                SentinelView {
                    table: set_running(st.table, id, false, peer),
                    cfg: st.cfg,
                    alive: st.alive,
                },
                Resp::Applied(Some(HookView::Stop(id))),
            )
        },
        Sig::Shutdown => (
            SentinelView { table: Seq::<Svc>::empty(), cfg: st.cfg, alive: false },
            Resp::Applied(Some(HookView::Close)),
        ),
    }
}

/// The transition one command makes, and what it answers. Once the sentinel
/// is no longer alive, every command fails with `Terminated` and nothing
/// changes.
pub open spec fn apply_spec(st: SentinelView, cmd: Cmd, peer: Addr) -> (SentinelView, Resp) {
    if !st.alive {
        (st, Resp::Failed(ErrView::Terminated))
    } else {
        match cmd {
            Cmd::List => (st, Resp::Table(st.table)),
            Cmd::Fetch(res) => (st, Resp::FetchRequested(res)),
            Cmd::Config(c) => (
                SentinelView { table: st.table, cfg: c, alive: st.alive },
                Resp::Applied(Option::<HookView>::None),
            ),
            Cmd::Signal(sig) => apply_signal_spec(st, sig, peer),
        }
    }
}

// ---------------------------------------------------------------------------
// Small verified helpers.
// ---------------------------------------------------------------------------
/// A fresh copy of a byte string.
fn clone_bytes(v: &Vec<u8>) -> (r: Vec<u8>)
    ensures
        r@ == v@,
{
    let mut r: Vec<u8> = Vec::new();
    let mut i: usize = 0;
    while i < v.len()
        invariant
            0 <= i <= v@.len(),
            r@ == v@.take(i as int),
        decreases v@.len() - i,
    {
        r.push(v[i]);
        proof {
            assert(r@ =~= v@.take(i + 1));
        }
        i = i + 1;
    }
    proof {
        assert(v@.take(v@.len() as int) =~= v@);
    }
    r
}

/// A fresh copy of one status entry, equal under the view.
fn copy_status(s: &ServiceStatus) -> (r: ServiceStatus)
    ensures
        r@ == s@,
{
    ServiceStatus { id: clone_bytes(&s.id), running: s.running, last_peer: s.last_peer }
}

/// Where the named service sits in the vector, if anywhere.
fn find_index(stats: &Vec<ServiceStatus>, id: &[u8]) -> (r: Option<usize>)
    ensures
        match r {
            Some(i) => i < stats@.len() && stats@[i as int].id@ == id@,
            None => forall|j: int| 0 <= j < stats@.len() ==> stats@[j].id@ != id@,
        },
{
    let mut i: usize = 0;
    while i < stats.len()
        invariant
            0 <= i <= stats@.len(),
            forall|j: int| 0 <= j < i ==> stats@[j].id@ != id@,
        decreases stats@.len() - i,
    {
        if eq_bytes(stats[i].id.as_slice(), id) {
            return Some(i);
        }
        i = i + 1;
    }
    None
}

/// With unique names, the entry found at `i` is the one `idx_of` picks.
proof fn lemma_idx_of(table: Seq<Svc>, id: Seq<u8>, i: int)
    requires
        ids_unique(table),
        0 <= i < table.len(),
        table[i].id == id,
    ensures
        has_svc(table, id),
        idx_of(table, id) == i,
{
    assert(has_svc(table, id));
    let j = idx_of(table, id);
    assert(0 <= j < table.len() && table[j].id == id);
    if i < j {
        assert(table[i].id != table[j].id);
    } else if j < i {
        assert(table[j].id != table[i].id);
    }
}

/// Replacing an entry with one of the same name keeps names unique.
proof fn lemma_update_keeps_unique(table: Seq<Svc>, i: int, entry: Svc)
    requires
        ids_unique(table),
        0 <= i < table.len(),
        entry.id == table[i].id,
    ensures
        ids_unique(table.update(i, entry)),
{
    let t2 = table.update(i, entry);
    assert forall|p: int, q: int| 0 <= p < q < t2.len() implies t2[p].id != t2[q].id by {
        assert(table[p].id != table[q].id);
    }
}

/// Appending a fresh name keeps names unique.
proof fn lemma_push_keeps_unique(table: Seq<Svc>, entry: Svc)
    requires
        ids_unique(table),
        !has_svc(table, entry.id),
    ensures
        ids_unique(table.push(entry)),
{
    let t2 = table.push(entry);
    assert forall|p: int, q: int| 0 <= p < q < t2.len() implies t2[p].id != t2[q].id by {
        if q < table.len() {
            assert(table[p].id != table[q].id);
        } else {
            assert(t2[q] == entry);
            assert(t2[p] == table[p]);
            if table[p].id == entry.id {
                assert(has_svc(table, entry.id));
            }
        }
    }
}

// ---------------------------------------------------------------------------
// The sentinel.
// ---------------------------------------------------------------------------
/// The supervisor: a table of service statuses, the stored bind parameters,
/// and a liveness flag. It is created alive with an empty table, mutated
/// only through `apply`, and dies irreversibly on the shutdown signal.
pub struct WebSentinel {
    stats: Vec<ServiceStatus>,
    cfg: WebConfig,
    state: DaemonState,
}

impl View for WebSentinel {
    type V = SentinelView;

    closed spec fn view(&self) -> SentinelView {
        SentinelView {
            table: self.stats@.map_values(|s: ServiceStatus| s@),
            cfg: self.cfg,
            alive: self.state is Alive,
        }
    }
}

impl WebSentinel {
    /// The one internal invariant: service names are unique in the table.
    pub open spec fn wf(&self) -> bool {
        ids_unique(self@.table)
    }

    /// A fresh supervisor: alive, with an empty table and the given bind
    /// parameters stored.
    pub fn new(cfg: WebConfig) -> (r: Self)
        ensures
            r@ == (SentinelView { table: Seq::<Svc>::empty(), cfg: cfg, alive: true }),
            r.wf(),
    {
        let r = WebSentinel { stats: Vec::new(), cfg: cfg, state: DaemonState::Alive };
        proof {
            assert(r@.table =~= Seq::<Svc>::empty());
        }
        r
    }

    /// An immutable snapshot copy of the full status table.
    pub fn list_status(&self) -> (r: Vec<ServiceStatus>)
        ensures
            r@.map_values(|s: ServiceStatus| s@) == self@.table,
    {
        let mut out: Vec<ServiceStatus> = Vec::new();
        let mut i: usize = 0;
        while i < self.stats.len()
            invariant
                0 <= i <= self.stats@.len(),
                out@.len() == i,
                forall|j: int| 0 <= j < i ==> out@[j]@ == self.stats@[j]@,
            decreases self.stats@.len() - i,
        {
            let entry = copy_status(&self.stats[i]);
            out.push(entry);
            i = i + 1;
        }
        proof {
            assert(out@.map_values(|s: ServiceStatus| s@) =~= self@.table);
        }
        out
    }

    /// The bind parameters stored for future control sockets: what the
    /// sentinel was created with, or what the last `Config` command set.
    pub fn config(&self) -> (c: WebConfig)
        ensures
            c == self@.cfg,
    {
        self.cfg
    }

    /// Whether the sentinel still accepts commands.
    pub fn state(&self) -> (s: DaemonState)
        ensures
            (s is Alive) == self@.alive,
    {
        self.state
    }

    /// Apply one command, as `apply_spec` says: the table and configuration
    /// move exactly as specified, and the response reports the outcome. The
    /// signalling peer is recorded on the entry a signal touches.
    pub fn apply(&mut self, cmd: WebCommand, peer: Addr) -> (r: Response)
        requires
            old(self).wf(),
        ensures
            final(self).wf(),
            final(self)@ == apply_spec(old(self)@, cmd@, peer).0,
            r@ == apply_spec(old(self)@, cmd@, peer).1,
    {
        match self.state {
            DaemonState::Dead => Response::Failed(ApplyError::Terminated),
            DaemonState::Alive => match cmd {
                WebCommand::List => Response::Table(self.list_status()),
                WebCommand::Fetch(res) => Response::FetchRequested(res),
                WebCommand::Config(c) => {
                    self.cfg = c;
                    Response::Applied(None)
                },
                WebCommand::Signal(sig) => self.apply_signal(sig, peer),
            },
        }
    }

    /// Deliver one lifecycle signal and acknowledge it. The state moves as
    /// `apply` would move it; the detailed outcome is deliberately dropped,
    /// so callers that need it use `apply` instead.
    pub fn send_signal(&mut self, tx: Signal, peer: Addr) -> (r: CommandResponse)
        requires
            old(self).wf(),
        ensures
            final(self).wf(),
            final(self)@ == apply_spec(old(self)@, Cmd::Signal(tx@), peer).0,
            r == (CommandResponse {  }),
    {
        let _ = self.apply(WebCommand::Signal(tx), peer);
        CommandResponse {  }
    }

    fn apply_signal(&mut self, sig: Signal, peer: Addr) -> (r: Response)
        requires
            old(self).wf(),
            old(self)@.alive,
        ensures
            final(self).wf(),
            final(self)@ == apply_signal_spec(old(self)@, sig@, peer).0,
            r@ == apply_signal_spec(old(self)@, sig@, peer).1,
    {
        match sig {
            Signal::Shutdown => {
                self.stats.clear();
                self.state = DaemonState::Dead;
                proof {
                    assert(final(self)@.table =~= Seq::<Svc>::empty());
                }
                Response::Applied(Some(Hook::Close))
            },
            Signal::Init(id) => {
                let idx = find_index(&self.stats, id.as_slice());
                let entry = ServiceStatus { id: id, running: false, last_peer: Some(peer) };
                match idx {
                    Some(i) => {
                        proof {
                            lemma_idx_of(old(self)@.table, entry@.id, i as int);
                            lemma_update_keeps_unique(old(self)@.table, i as int, entry@);
                        }
                        self.stats[i] = entry;
                        proof {
                            assert(final(self)@.table =~= old(self)@.table.update(
                                i as int,
                                Svc { id: entry@.id, running: false, last_peer: Some(peer) },
                            ));
                        }
                    },
                    None => {
                        proof {
                            if has_svc(old(self)@.table, entry@.id) {
                                let w = idx_of(old(self)@.table, entry@.id);
                                assert(old(self)@.table[w].id == entry@.id);
                            }
                            lemma_push_keeps_unique(old(self)@.table, entry@);
                        }
                        self.stats.push(entry);
                        proof {
                            assert(final(self)@.table =~= old(self)@.table.push(
                                Svc { id: entry@.id, running: false, last_peer: Some(peer) },
                            ));
                        }
                    },
                }
                Response::Applied(None)
            },
            Signal::Start(id) => {
                let idx = find_index(&self.stats, id.as_slice());
                match idx {
                    None => {
                        proof {
                            if has_svc(old(self)@.table, id@) {
                                let w = idx_of(old(self)@.table, id@);
                                assert(old(self)@.table[w].id == id@);
                            }
                        }
                        Response::Failed(ApplyError::UnknownService(id))
                    },
                    Some(i) => {
                        proof {
                            lemma_idx_of(old(self)@.table, id@, i as int);
                        }
                        if self.stats[i].running {
                            Response::Applied(None)
                        } else {
                            let hook_id = clone_bytes(&id);
                            let entry = ServiceStatus {
                                id: id,
                                running: true,
                                last_peer: Some(peer),
                            };
                            proof {
                                lemma_update_keeps_unique(old(self)@.table, i as int, entry@);
                            }
                            self.stats[i] = entry;
                            proof {
                                assert(final(self)@.table =~= set_running(
                                    old(self)@.table,
                                    entry@.id,
                                    true,
                                    peer,
                                ));
                            }
                            Response::Applied(Some(Hook::Start(hook_id)))
                        }
                    },
                }
            },
            Signal::Stop(id) => {
                let idx = find_index(&self.stats, id.as_slice());
                match idx {
                    None => {
                        proof {
                            if has_svc(old(self)@.table, id@) {
                                let w = idx_of(old(self)@.table, id@);
                                assert(old(self)@.table[w].id == id@);
                            }
                        }
                        Response::Failed(ApplyError::UnknownService(id))
                    },
                    Some(i) => {
                        proof {
                            lemma_idx_of(old(self)@.table, id@, i as int);
                        }
                        if !self.stats[i].running {
                            Response::Applied(None)
                        } else {
                            let hook_id = clone_bytes(&id);
                            let entry = ServiceStatus {
                                id: id,
                                running: false,
                                last_peer: Some(peer),
                            };
                            proof {
                                lemma_update_keeps_unique(old(self)@.table, i as int, entry@);
                            }
                            self.stats[i] = entry;
                            proof {
                                assert(final(self)@.table =~= set_running(
                                    old(self)@.table,
                                    entry@.id,
                                    false,
                                    peer,
                                ));
                            }
                            Response::Applied(Some(Hook::Stop(hook_id)))
                        }
                    },
                }
            },
        }
    }
}

// ---------------------------------------------------------------------------
// The receive-loop step.
// ---------------------------------------------------------------------------
/// One addressed reply: the bytes to send and the peer to send them to.
#[derive(Debug, PartialEq, Eq)]
pub struct Reply {
    pub to: Addr,
    pub payload: Vec<u8>,
}

/// The mathematical shape of a `Reply`.
pub struct ReplyView {
    pub to: Addr,
    pub payload: Seq<u8>,
}

impl View for Reply {
    type V = ReplyView;

    open spec fn view(&self) -> ReplyView {
        ReplyView { to: self.to, payload: self.payload@ }
    }
}

/// What the receive loop must do after one datagram was handled. The loop
/// performs the transport and collaborator work this crate cannot: sending,
/// the lifecycle hooks, closing the socket, and the HTTP fetch.
#[derive(Debug, PartialEq, Eq)]
pub enum Action {
    /// Send the reply.
    Send(Reply),
    /// Send the reply, then invoke the named service's start hook.
    SendAndStart(Reply, Vec<u8>),
    /// Send the reply, then invoke the named service's stop hook.
    SendAndStop(Reply, Vec<u8>),
    /// Send the reply, then close the control socket and leave the loop:
    /// the sentinel is terminated.
    SendAndClose(Reply),
    /// Run the HTTP collaborator on the resource, wrap its outcome with
    /// `render_fetch_result`, and send that to the peer.
    Fetch(Addr, Vec<u8>),
}

/// The mathematical shape of an `Action`.
pub enum ActionView {
    Send(ReplyView),
    SendAndStart(ReplyView, Seq<u8>),
    SendAndStop(ReplyView, Seq<u8>),
    SendAndClose(ReplyView),
    Fetch(Addr, Seq<u8>),
}

impl View for Action {
    type V = ActionView;

    open spec fn view(&self) -> ActionView {
        match self {
            Action::Send(rp) => ActionView::Send(rp@),
            Action::SendAndStart(rp, id) => ActionView::SendAndStart(rp@, id@),
            Action::SendAndStop(rp, id) => ActionView::SendAndStop(rp@, id@),
            Action::SendAndClose(rp) => ActionView::SendAndClose(rp@),
            Action::Fetch(p, res) => ActionView::Fetch(*p, res@),
        }
    }
}

/// The action a response calls for, addressed to the peer that asked.
pub open spec fn action_for(peer: Addr, resp: Resp) -> ActionView {
    match resp {
        Resp::FetchRequested(res) => ActionView::Fetch(peer, res),
        Resp::Table(t) => ActionView::Send(
            ReplyView { to: peer, payload: txt_ok() + render_table(t) },
        ),
        Resp::Applied(hook) => match hook {
            None => ActionView::Send(ReplyView { to: peer, payload: txt_ok() }),
            Some(HookView::Start(id)) => ActionView::SendAndStart(
                ReplyView { to: peer, payload: txt_ok() },
                id,
            ),
            Some(HookView::Stop(id)) => ActionView::SendAndStop(
                ReplyView { to: peer, payload: txt_ok() },
                id,
            ),
            Some(HookView::Close) => ActionView::SendAndClose(
                ReplyView { to: peer, payload: txt_ok() },
            ),
        },
        Resp::Failed(e) => ActionView::Send(ReplyView { to: peer, payload: err_render_spec(e) }),
    }
}

/// The whole per-datagram step: decode (an empty datagram is a keepalive —
/// no response, no state change), parse (a malformed frame is answered with
/// `ERR decode_error` and nothing else happens), apply, render.
pub open spec fn handle_spec(st: SentinelView, b: Seq<u8>, peer: Addr) -> (
    SentinelView,
    Option<ActionView>,
) {
    match decode_spec(b) {
        None => (st, None),
        Some(f) => match parse_spec(f) {
            Err(_) => (
                st,
                Some(ActionView::Send(ReplyView { to: peer, payload: decode_err_render() })),
            ),
            Ok(cmd) => {
                let next = apply_spec(st, cmd, peer);
                (next.0, Some(action_for(peer, next.1)))
            },
        },
    }
}

/// Where an action is directed.
pub open spec fn action_dest(a: ActionView) -> Addr {
    match a {
        ActionView::Send(rp) => rp.to,
        ActionView::SendAndStart(rp, _) => rp.to,
        ActionView::SendAndStop(rp, _) => rp.to,
        ActionView::SendAndClose(rp) => rp.to,
        ActionView::Fetch(p, _) => p,
    }
}

impl WebSentinel {
    /// The step the receive loop runs once per datagram. The buffer is left
    /// drained; the returned action, if any, is addressed to the peer the
    /// datagram came from.
    pub fn handle_datagram(&mut self, buf: &mut BytesMut, peer: Addr) -> (r: Option<Action>)
        requires
            old(self).wf(),
        ensures
            final(self).wf(),
            final(self)@ == handle_spec(old(self)@, bytes_mut_data(*old(buf)), peer).0,
            match r {
                Some(a) => handle_spec(old(self)@, bytes_mut_data(*old(buf)), peer).1 == Some(a@),
                None => handle_spec(old(self)@, bytes_mut_data(*old(buf)), peer).1 is None,
            },
            bytes_mut_data(*final(buf)).len() == 0,
    {
        let codec = Codec::new();
        let frame_opt = match codec.decode(buf) {
            Ok(f) => f,
            Err(_) => {
                proof {
                    assert(false);
                }
                None
            },
        };
        match frame_opt {
            None => None,
            Some(frame) => {
                let data = bm_to_vec(&frame);
                match parse_command(data.as_slice()) {
                    Err(_) => Some(
                        Action::Send(Reply { to: peer, payload: render_decode_error() }),
                    ),
                    Ok(cmd) => {
                        let resp = self.apply(cmd, peer);
                        let rendered = render_response(&resp);
                        match resp {
                            Response::FetchRequested(res) => Some(Action::Fetch(peer, res)),
                            Response::Applied(hook) => {
                                let payload = match rendered {
                                    Some(v) => v,
                                    None => {
                                        proof {
                                            assert(false);
                                        }
                                        Vec::new()
                                    },
                                };
                                match hook {
                                    None => Some(Action::Send(Reply { to: peer, payload })),
                                    Some(Hook::Start(id)) => Some(
                                        Action::SendAndStart(Reply { to: peer, payload }, id),
                                    ),
                                    Some(Hook::Stop(id)) => Some(
                                        Action::SendAndStop(Reply { to: peer, payload }, id),
                                    ),
                                    Some(Hook::Close) => Some(
                                        Action::SendAndClose(Reply { to: peer, payload }),
                                    ),
                                }
                            },
                            Response::Table(_) => {
                                let payload = match rendered {
                                    Some(v) => v,
                                    None => {
                                        proof {
                                            assert(false);
                                        }
                                        Vec::new()
                                    },
                                };
                                Some(Action::Send(Reply { to: peer, payload }))
                            },
                            Response::Failed(_) => {
                                let payload = match rendered {
                                    Some(v) => v,
                                    None => {
                                        proof {
                                            assert(false);
                                        }
                                        Vec::new()
                                    },
                                };
                                Some(Action::Send(Reply { to: peer, payload }))
                            },
                        }
                    },
                }
            },
        }
    }
}

// ---------------------------------------------------------------------------
// The laws the state machine obeys.
// ---------------------------------------------------------------------------
/// Addressing: whatever one datagram causes, the reply or fetch it yields is
/// directed to the peer the datagram came from, never to another; only an
/// empty datagram yields nothing.
pub proof fn lemma_reply_addressing(st: SentinelView, b: Seq<u8>, peer: Addr)
    ensures
        ({
            let r = handle_spec(st, b, peer);
            match r.1 {
                Some(a) => action_dest(a) == peer,
                None => b.len() == 0 && r.0 == st,
            }
        }),
{
}

/// Idempotence: applying `Start` twice in succession to an initialized,
/// stopped service leaves it running, and the second call changes nothing
/// and reports no error.
pub proof fn lemma_start_idempotent(st: SentinelView, id: Seq<u8>, peer: Addr, peer2: Addr)
    requires
        st.alive,
        ids_unique(st.table),
        has_svc(st.table, id),
        !svc_running(st.table, id),
    ensures
        ({
            let first = apply_spec(st, Cmd::Signal(Sig::Start(id)), peer);
            let second = apply_spec(first.0, Cmd::Signal(Sig::Start(id)), peer2);
            &&& svc_running(first.0.table, id)
            &&& second.0 == first.0
            &&& second.1 == Resp::Applied(Option::<HookView>::None)
            &&& svc_running(second.0.table, id)
        }),
{
    let i = idx_of(st.table, id);
    assert(0 <= i < st.table.len() && st.table[i].id == id);
    let t1 = set_running(st.table, id, true, peer);
    lemma_idx_of(t1, id, i);
    assert(t1[i].running);
}

/// Guarded mutation: `Start` or `Stop` on a target with no prior `Init`
/// fails with `UnknownService` and leaves the whole state unchanged.
pub proof fn lemma_unknown_service_guard(st: SentinelView, id: Seq<u8>, peer: Addr, stop: bool)
    requires
        st.alive,
        !has_svc(st.table, id),
    ensures
        ({
            let sig = if stop {
                Sig::Stop(id)
            } else {
                Sig::Start(id)
            };
            let r = apply_spec(st, Cmd::Signal(sig), peer);
            &&& r.0 == st
            &&& r.1 == Resp::Failed(ErrView::UnknownService(id))
        }),
{
}

/// Terminal behavior: the shutdown signal empties the table and kills the
/// sentinel, and from then on every command — whatever it is, from whatever
/// peer — returns `Terminated` and changes nothing.
pub proof fn lemma_shutdown_terminal(st: SentinelView, peer: Addr, cmd: Cmd, peer2: Addr)
    requires
        st.alive,
    ensures
        ({
            let down = apply_spec(st, Cmd::Signal(Sig::Shutdown), peer);
            let later = apply_spec(down.0, cmd, peer2);
            &&& !down.0.alive
            &&& down.0.table == Seq::<Svc>::empty()
            &&& down.1 == Resp::Applied(Some(HookView::Close))
            &&& later.0 == down.0
            &&& later.1 == Resp::Failed(ErrView::Terminated)
        }),
{
}

} // verus!

