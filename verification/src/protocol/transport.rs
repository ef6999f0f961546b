//! Transport configuration, and the decisions of the loops that accept
//! connections and serve each of them.

use vstd::prelude::*;
use crate::named_map::NamedMap;
use crate::protocol::{ProtocolError, ProtocolResult};
use crate::text::{append_str, string_from, views};

verus! {

/// TLS configuration for transport.
#[derive(Debug, Clone)]
pub struct TlsConfig {
    pub enabled: bool,
    pub certificate_path: Option<String>,
    pub private_key_path: Option<String>,
    pub ca_certificate_path: Option<String>,
    pub accept_invalid_certs: bool,
    pub accept_invalid_hostnames: bool,
}

impl Default for TlsConfig {
    /// TLS off, no paths, nothing invalid accepted.
    fn default() -> (r: Self)
        ensures
            !r.enabled,
            r.certificate_path is None,
            r.private_key_path is None,
            r.ca_certificate_path is None,
            !r.accept_invalid_certs,
            !r.accept_invalid_hostnames,
    {
        TlsConfig {
            enabled: false,
            certificate_path: None,
            private_key_path: None,
            ca_certificate_path: None,
            accept_invalid_certs: false,
            accept_invalid_hostnames: false,
        }
    }
}

/// Transport configuration. Timeouts are in seconds, the buffer size in
/// bytes.
#[derive(Debug, Clone)]
pub struct TransportConfig {
    pub max_connections: usize,
    pub read_timeout: u64,
    pub write_timeout: u64,
    pub buffer_size: usize,
    pub compression: bool,
    pub tls: TlsConfig,
}

impl Default for TransportConfig {
    /// 100 connections, 30 s timeouts, a 64 KiB buffer, compression on,
    /// default TLS settings.
    fn default() -> (r: Self)
        ensures
            r.max_connections == 100,
            r.read_timeout == 30,
            r.write_timeout == 30,
            r.buffer_size == 64 * 1024,
            r.compression,
            !r.tls.enabled,
            r.tls.certificate_path is None,
            r.tls.private_key_path is None,
            r.tls.ca_certificate_path is None,
            !r.tls.accept_invalid_certs,
            !r.tls.accept_invalid_hostnames,
    {
        TransportConfig {
            max_connections: 100,
            read_timeout: 30,
            write_timeout: 30,
            buffer_size: 64 * 1024,
            compression: true,
            tls: TlsConfig::default(),
        }
    }
}

/// What the accepting loop of a listener sees.
#[derive(Debug, Clone, Copy, PartialEq, Eq, Structural)]
pub enum ListenerEvent {
    /// A connection came in; whether its remote address is known.
    Accepted { has_remote_addr: bool },
    /// The handler was told that the connection opened; whether it
    /// accepted the opening.
    OpenHandled { ok: bool },
    /// Accepting failed.
    AcceptFailed,
    /// The shutdown signal arrived.
    Shutdown,
}

/// What the accepting loop does next.
#[derive(Debug, Clone, Copy, PartialEq, Eq, Structural)]
pub enum ListenerAction {
    /// Drop this connection and keep accepting.
    Skip,
    /// Tell the handler that the connection opened.
    Open,
    /// Register the connection and serve it.
    Serve,
    /// Leave the loop.
    Stop,
}

/// The accepting loop: a connection without a remote address is skipped, so
/// is one whose opening the handler refused; one it accepted is served. A
/// failure or the shutdown signal ends the loop.
pub fn listener_step(event: ListenerEvent) -> (r: ListenerAction)
    ensures
        r == match event {
            ListenerEvent::Accepted { has_remote_addr } => if has_remote_addr {
                ListenerAction::Open
            } else {
                ListenerAction::Skip
            },
            ListenerEvent::OpenHandled { ok } => if ok {
                ListenerAction::Serve
            } else {
                ListenerAction::Skip
            },
            ListenerEvent::AcceptFailed => ListenerAction::Stop,
            ListenerEvent::Shutdown => ListenerAction::Stop,
        },
{
    match event {
        ListenerEvent::Accepted { has_remote_addr } => {
            if has_remote_addr {
                ListenerAction::Open
            } else {
                ListenerAction::Skip
            }
        },
        ListenerEvent::OpenHandled { ok } => {
            if ok {
                ListenerAction::Serve
            } else {
                ListenerAction::Skip
            }
        },
        ListenerEvent::AcceptFailed => ListenerAction::Stop,
        ListenerEvent::Shutdown => ListenerAction::Stop,
    }
}

/// What the loop serving one connection sees.
#[derive(Debug, Clone, Copy, PartialEq, Eq, Structural)]
pub enum ConnectionEvent {
    /// A message came in and the handler processed it; whether it succeeded.
    MessageHandled { handler_ok: bool },
    /// The peer closed the stream.
    StreamEnded,
    /// Receiving failed.
    ReceiveFailed,
    /// An outgoing message was written; whether the write succeeded.
    Sent { ok: bool },
    /// The shutdown signal arrived.
    Shutdown,
}

/// What the serving loop does next.
#[derive(Debug, Clone, Copy, PartialEq, Eq, Structural)]
pub enum ConnectionAction {
    /// Keep serving.
    Continue,
    /// Leave the loop: unregister the connection, tell the handler it closed,
    /// and close it.
    Close,
}

/// The serving loop: it goes on while messages are handled and writes
/// succeed, and ends on anything else.
pub fn connection_step(event: ConnectionEvent) -> (r: ConnectionAction)
    ensures
        r == match event {
            ConnectionEvent::MessageHandled { handler_ok } => if handler_ok {
                ConnectionAction::Continue
            } else {
                ConnectionAction::Close
            },
            ConnectionEvent::Sent { ok } => if ok {
                ConnectionAction::Continue
            } else {
                ConnectionAction::Close
            },
            ConnectionEvent::StreamEnded => ConnectionAction::Close,
            ConnectionEvent::ReceiveFailed => ConnectionAction::Close,
            ConnectionEvent::Shutdown => ConnectionAction::Close,
        },
{
    match event {
        ConnectionEvent::MessageHandled { handler_ok } => {
            if handler_ok {
                ConnectionAction::Continue
            } else {
                ConnectionAction::Close
            }
        },
        ConnectionEvent::Sent { ok } => {
            if ok {
                ConnectionAction::Continue
            } else {
                ConnectionAction::Close
            }
        },
        ConnectionEvent::StreamEnded => ConnectionAction::Close,
        ConnectionEvent::ReceiveFailed => ConnectionAction::Close,
        ConnectionEvent::Shutdown => ConnectionAction::Close,
    }
}


/// Where an accepted connection is in its life.
#[derive(Debug, Clone, Copy, PartialEq, Eq, Structural)]
pub enum ConnectionLife {
    /// Just accepted.
    Accepted,
    /// The handler is being told that it opened.
    Opening,
    /// Registered and served.
    Serving,
    /// Dropped from the table; the handler is to be told it closed.
    Unregistered,
    /// The handler was told it closed; the stream is to be closed.
    Notified,
    /// Over.
    Finished,
}

/// What happened to an accepted connection.
#[derive(Debug, Clone, Copy, PartialEq, Eq, Structural)]
pub enum LifeEvent {
    /// The connection arrived; whether its remote address is known.
    Arrived { has_remote_addr: bool },
    /// The handler was told it opened; whether it accepted.
    OpenHandled { ok: bool },
    /// A turn of serving it.
    Served(ConnectionEvent),
    /// The last action was carried out.
    Done,
}

/// What the caller does next with an accepted connection.
#[derive(Debug, Clone, Copy, PartialEq, Eq, Structural)]
pub enum LifeAction {
    /// Drop the connection without telling the handler.
    Skip,
    /// Tell the handler that the connection opened.
    CallOpened,
    /// Register the connection and start serving it.
    Register,
    /// Go on serving it.
    KeepServing,
    /// Drop it from the table of connections.
    Unregister,
    /// Tell the handler that it closed.
    CallClosed,
    /// Close its stream.
    CloseStream,
    /// Nothing: the event does not fit where the connection is.
    Nothing,
}

/// One step of a connection's life: where it goes and what the caller
/// does. An arrival without a remote address is skipped; otherwise the
/// handler is told it opened, and only an accepted opening registers it.
/// It is served while `connection_step` says so; then it is unregistered,
/// the handler is told it closed, and its stream is closed, in that order.
pub open spec fn life_step_spec(p: ConnectionLife, e: LifeEvent) -> (ConnectionLife, LifeAction) {
    match (p, e) {
        (ConnectionLife::Accepted, LifeEvent::Arrived { has_remote_addr }) => if has_remote_addr {
            (ConnectionLife::Opening, LifeAction::CallOpened)
        } else {
            (ConnectionLife::Finished, LifeAction::Skip)
        },
        (ConnectionLife::Opening, LifeEvent::OpenHandled { ok }) => if ok {
            (ConnectionLife::Serving, LifeAction::Register)
        } else {
            (ConnectionLife::Finished, LifeAction::Skip)
        },
        (ConnectionLife::Serving, LifeEvent::Served(c)) => match c {
            ConnectionEvent::MessageHandled { handler_ok: true } => (ConnectionLife::Serving, LifeAction::KeepServing),
            ConnectionEvent::Sent { ok: true } => (ConnectionLife::Serving, LifeAction::KeepServing),
            _ => (ConnectionLife::Unregistered, LifeAction::Unregister),
        },
        (ConnectionLife::Unregistered, LifeEvent::Done) => (ConnectionLife::Notified, LifeAction::CallClosed),
        (ConnectionLife::Notified, LifeEvent::Done) => (ConnectionLife::Finished, LifeAction::CloseStream),
        _ => (p, LifeAction::Nothing),
    }
}

/// One step of a connection's life (see `life_step_spec`).
pub fn life_step(p: ConnectionLife, e: LifeEvent) -> (r: (ConnectionLife, LifeAction))
    ensures
        r == life_step_spec(p, e),
{
    match (p, e) {
        (ConnectionLife::Accepted, LifeEvent::Arrived { has_remote_addr }) => {
            if has_remote_addr {
                (ConnectionLife::Opening, LifeAction::CallOpened)
            } else {
                (ConnectionLife::Finished, LifeAction::Skip)
            }
        },
        (ConnectionLife::Opening, LifeEvent::OpenHandled { ok }) => {
            if ok {
                (ConnectionLife::Serving, LifeAction::Register)
            } else {
                (ConnectionLife::Finished, LifeAction::Skip)
            }
        },
        (ConnectionLife::Serving, LifeEvent::Served(c)) => {
            if connection_step(c) == ConnectionAction::Continue {
                (ConnectionLife::Serving, LifeAction::KeepServing)
            } else {
                (ConnectionLife::Unregistered, LifeAction::Unregister)
            }
        },
        (ConnectionLife::Unregistered, LifeEvent::Done) => (ConnectionLife::Notified, LifeAction::CallClosed),
        (ConnectionLife::Notified, LifeEvent::Done) => (ConnectionLife::Finished, LifeAction::CloseStream),
        _ => (p, LifeAction::Nothing),
    }
}

/// Where a connection is after a run of events from its acceptance, and the
/// actions taken, in order.
pub open spec fn life_run(events: Seq<LifeEvent>) -> (ConnectionLife, Seq<LifeAction>)
    decreases events.len(),
{
    if events.len() == 0 {
        (ConnectionLife::Accepted, Seq::<LifeAction>::empty())
    } else {
        let (p, acts) = life_run(events.drop_last());
        let (q, a) = life_step_spec(p, events.last());
        (q, acts.push(a))
    }
}

/// The order a connection's actions must come in, and where the connection
/// is after them (`None` where they are out of order): skipped at once, or
/// told opened and then skipped, or told opened, registered, served,
/// unregistered, told closed and closed, with `Nothing` anywhere.
pub open spec fn life_order(acts: Seq<LifeAction>) -> Option<ConnectionLife>
    decreases acts.len(),
{
    if acts.len() == 0 {
        Some(ConnectionLife::Accepted)
    } else {
        match (life_order(acts.drop_last()), acts.last()) {
            (Some(p), LifeAction::Nothing) => Some(p),
            (Some(ConnectionLife::Accepted), LifeAction::Skip) => Some(ConnectionLife::Finished),
            (Some(ConnectionLife::Accepted), LifeAction::CallOpened) => Some(ConnectionLife::Opening),
            (Some(ConnectionLife::Opening), LifeAction::Skip) => Some(ConnectionLife::Finished),
            (Some(ConnectionLife::Opening), LifeAction::Register) => Some(ConnectionLife::Serving),
            (Some(ConnectionLife::Serving), LifeAction::KeepServing) => Some(ConnectionLife::Serving),
            (Some(ConnectionLife::Serving), LifeAction::Unregister) => Some(ConnectionLife::Unregistered),
            (Some(ConnectionLife::Unregistered), LifeAction::CallClosed) => Some(ConnectionLife::Notified),
            (Some(ConnectionLife::Notified), LifeAction::CloseStream) => Some(ConnectionLife::Finished),
            _ => None,
        }
    }
}

/// The life of an accepted connection keeps its order, whatever happens:
/// its actions follow `life_order`; a connection without a remote address
/// is skipped and the handler never hears of it; it is registered only
/// right after the handler was told it opened and accepted; and it is
/// unregistered, then the handler is told it closed, then its stream is
/// closed.
pub proof fn connection_life_in_order(events: Seq<LifeEvent>)
    ensures
        life_order(life_run(events).1) == Some(life_run(events).0),
        life_run(events).1.len() == events.len(),
        events.len() > 0 && events[0] == (LifeEvent::Arrived { has_remote_addr: false }) ==> forall|i: int|
            0 <= i < events.len() ==> #[trigger] life_run(events).1[i] == LifeAction::Skip || life_run(events).1[i]
                == LifeAction::Nothing,
        forall|i: int|
            0 <= i < events.len() && #[trigger] life_run(events).1[i] == LifeAction::Register ==> events[i]
                == (LifeEvent::OpenHandled { ok: true }) && 1 <= i && life_run(events.take(i)).0
                == ConnectionLife::Opening,
    decreases events.len(),
{
    if events.len() > 0 {
        let init = events.drop_last();
        connection_life_in_order(init);
        lemma_life_len(init);
        let (p, acts) = life_run(init);
        let (q, a) = life_step_spec(p, events.last());
        assert(life_run(events).1 == acts.push(a));
        assert(life_run(events).1.drop_last() =~= acts);
        assert(events.take(events.len() - 1) =~= init);
        assert forall|i: int|
            0 <= i < events.len() && #[trigger] life_run(events).1[i] == LifeAction::Register implies events[i]
                == (LifeEvent::OpenHandled { ok: true }) && 1 <= i && life_run(events.take(i)).0
                == ConnectionLife::Opening by {
            if i < init.len() {
                assert(life_run(events).1[i] == acts[i]);
                assert(init[i] == events[i]);
                assert(init.take(i) =~= events.take(i));
            } else {
                assert(a == LifeAction::Register);
                if p == ConnectionLife::Accepted {
                    assert(init.len() == 0 || life_order(acts) == Some(ConnectionLife::Accepted));
                }
                lemma_life_accepted_at_start(init);
            }
        }
        if events[0] == (LifeEvent::Arrived { has_remote_addr: false }) {
            lemma_life_skipped(events);
        }
    }
}

proof fn lemma_life_len(events: Seq<LifeEvent>)
    ensures
        life_run(events).1.len() == events.len(),
    decreases events.len(),
{
    if events.len() > 0 {
        lemma_life_len(events.drop_last());
    }
}

/// A connection only stands just accepted before any event.
proof fn lemma_life_accepted_at_start(events: Seq<LifeEvent>)
    ensures
        life_run(events).0 == ConnectionLife::Accepted ==> forall|i: int| 0 <= i < events.len() ==> life_run(events).1[i] == LifeAction::Nothing,
    decreases events.len(),
{
    if events.len() > 0 {
        let init = events.drop_last();
        lemma_life_accepted_at_start(init);
        lemma_life_len(init);
        let (p, acts) = life_run(init);
        let (q, a) = life_step_spec(p, events.last());
        assert(life_run(events).1 == acts.push(a));
        if q == ConnectionLife::Accepted {
            assert(p == ConnectionLife::Accepted);
            assert(a == LifeAction::Nothing);
            assert forall|i: int| 0 <= i < events.len() implies life_run(events).1[i] == LifeAction::Nothing by {
                if i < init.len() {
                    assert(life_run(events).1[i] == acts[i]);
                }
            }
        }
    }
}

/// A connection that arrived without a remote address is finished at once,
/// and nothing but that skip happens to it.
proof fn lemma_life_skipped(events: Seq<LifeEvent>)
    requires
        events.len() > 0,
        events[0] == (LifeEvent::Arrived { has_remote_addr: false }),
    ensures
        life_run(events).0 == ConnectionLife::Finished,
        forall|i: int|
            0 <= i < events.len() ==> #[trigger] life_run(events).1[i] == LifeAction::Skip || life_run(events).1[i]
                == LifeAction::Nothing,
    decreases events.len(),
{
    if events.len() == 1 {
        assert(events.drop_last() =~= Seq::<LifeEvent>::empty());
    } else {
        let init = events.drop_last();
        assert(init[0] == events[0]);
        lemma_life_skipped(init);
        lemma_life_len(init);
        let (p, acts) = life_run(init);
        let (q, a) = life_step_spec(p, events.last());
        assert(life_run(events).1 == acts.push(a));
        assert forall|i: int| 0 <= i < events.len() implies #[trigger] life_run(events).1[i] == LifeAction::Skip
            || life_run(events).1[i] == LifeAction::Nothing by {
            if i < init.len() {
                assert(life_run(events).1[i] == acts[i]);
            }
        }
    }
}

/// How `{:?}` writes a list of texts (`["a", "b"]`, each text quoted and
/// escaped).
pub uninterp spec fn debug_list_text(items: Seq<Seq<char>>) -> Seq<char>;

/// `format!("{:?}", items)`. Claimed: the text is a function of the items
/// alone.
#[verifier::external_body]
fn debug_list(items: &Vec<String>) -> (r: String)
    ensures
        r@ == debug_list_text(views(items@)),
{
    format!("{:?}", items)
}

/// The report of one failed send of a broadcast: the peer and the error.
pub open spec fn broadcast_failure(addr: Seq<char>, error: Seq<char>) -> Seq<char> {
    addr + ": "@ + error
}

/// The connections of a transport: the peers (by the text of their socket
/// address) that a message can be routed to, while the transport runs.
pub struct TransportManager {
    config: TransportConfig,
    connections: NamedMap<()>,
    shut_down: bool,
}

impl TransportManager {
    /// The peers connected.
    pub closed spec fn peers(&self) -> Set<Seq<char>> {
        self.connections@.dom()
    }

    pub closed spec fn config_spec(&self) -> TransportConfig {
        self.config
    }

    /// Whether the shutdown signal was sent.
    pub closed spec fn is_shut_down(&self) -> bool {
        self.shut_down
    }

    /// The manager's internal invariant.
    pub closed spec fn wf(&self) -> bool {
        self.connections.wf()
    }

    /// A transport with no connection.
    pub fn new(config: TransportConfig) -> (r: Self)
        ensures
            r.wf(),
            r.config_spec() == config,
            r.peers().is_empty(),
            !r.is_shut_down(),
    {
        TransportManager { config, connections: NamedMap::new(), shut_down: false }
    }

    /// A connection to `addr` was accepted and its opening handled: it can
    /// be routed to (replacing an earlier connection to the same peer).
    pub fn connection_opened(&mut self, addr: String)
        requires
            old(self).wf(),
        ensures
            final(self).wf(),
            final(self).peers() == old(self).peers().insert(addr@),
            final(self).config_spec() == old(self).config_spec(),
            final(self).is_shut_down() == old(self).is_shut_down(),
    {
        self.connections.insert(addr, ());
    }

    /// An outgoing connection to `addr` was made and the handler told it
    /// opened: where the handler refused, its error is returned and nothing
    /// changes; else the connection can be routed to.
    pub fn connected(&mut self, addr: String, opened: ProtocolResult<()>) -> (r: ProtocolResult<()>)
        requires
            old(self).wf(),
        ensures
            final(self).wf(),
            final(self).config_spec() == old(self).config_spec(),
            final(self).is_shut_down() == old(self).is_shut_down(),
            match opened {
                Ok(()) => r is Ok && final(self).peers() == old(self).peers().insert(addr@),
                Err(e) => r == Err::<(), ProtocolError>(e) && final(self).peers() == old(self).peers(),
            },
    {
        match opened {
            Ok(()) => {
                self.connections.insert(addr, ());
                Ok(())
            },
            Err(e) => Err(e),
        }
    }

    /// The connection to `addr` ended: it can no longer be routed to.
    pub fn connection_closed(&mut self, addr: &str)
        requires
            old(self).wf(),
        ensures
            final(self).wf(),
            final(self).peers() == old(self).peers().remove(addr@),
            final(self).config_spec() == old(self).config_spec(),
            final(self).is_shut_down() == old(self).is_shut_down(),
    {
        self.connections.remove(addr);
    }

    /// Where a message to `addr` goes: to that peer's connection where there
    /// is one, else nowhere, a transport error that names the peer.
    pub fn send_to(&self, addr: &str) -> (r: ProtocolResult<()>)
        requires
            self.wf(),
        ensures
            self.peers().contains(addr@) ==> r is Ok,
            !self.peers().contains(addr@) ==> (r matches Err(ProtocolError::Transport(m)) && m@ == "No connection to "@
                + addr@),
    {
        if self.connections.contains_key(addr) {
            Ok(())
        } else {
            let mut m = string_from("No connection to ");
            append_str(&mut m, addr);
            Err(ProtocolError::Transport(m))
        }
    }

    /// The outcome of handing a message to a connection's queue: a failure
    /// is a transport error that quotes it.
    pub fn send_outcome(sent: Result<(), String>) -> (r: ProtocolResult<()>)
        ensures
            match sent {
                Ok(()) => r is Ok,
                Err(e) => r matches Err(ProtocolError::Transport(m)) && m@ == "Failed to send message: "@ + e@,
            },
    {
        match sent {
            Ok(()) => Ok(()),
            Err(e) => {
                let mut m = string_from("Failed to send message: ");
                append_str(&mut m, e.as_str());
                Err(ProtocolError::Transport(m))
            },
        }
    }

    /// The peers a broadcast goes to, each once.
    pub fn broadcast_targets(&self) -> (r: Vec<String>)
        requires
            self.wf(),
        ensures
            r.len() == self.peers().len(),
            forall|i: int| 0 <= i < r.len() ==> self.peers().contains(#[trigger] r[i]@),
            forall|i: int, j: int| 0 <= i < j < r.len() ==> r[i]@ != r[j]@,
            forall|k: Seq<char>| #[trigger] self.peers().contains(k) ==> exists|i: int| 0 <= i < r.len() && r[i]@ == k,
    {
        self.connections.keys()
    }

    /// The outcome of a broadcast, given the peers whose send failed and
    /// why: none is success; else a transport error that lists each failure
    /// as `peer: error`.
    pub fn broadcast_outcome(failures: &Vec<(String, String)>) -> (r: ProtocolResult<()>)
        ensures
            failures.len() == 0 ==> r is Ok,
            failures.len() > 0 ==> (r matches Err(ProtocolError::Transport(m)) && m@ == "Broadcast errors: "@
                + debug_list_text(
                Seq::new(failures@.len(), |i: int| broadcast_failure(failures@[i].0@, failures@[i].1@)),
            )),
    {
        if failures.len() == 0 {
            return Ok(());
        }
        let mut items: Vec<String> = Vec::new();
        let mut i: usize = 0;
        while i < failures.len()
            invariant
                i <= failures.len(),
                items.len() == i,
                forall|j: int| 0 <= j < i ==> #[trigger] items@[j]@ == broadcast_failure(failures@[j].0@, failures@[j].1@),
            decreases failures.len() - i,
        {
            let mut item = failures[i].0.clone();
            append_str(&mut item, ": ");
            append_str(&mut item, failures[i].1.as_str());
            items.push(item);
            i += 1;
        }
        assert(views(items@) =~= Seq::new(
            failures@.len(),
            |i: int| broadcast_failure(failures@[i].0@, failures@[i].1@),
        ));
        let mut m = string_from("Broadcast errors: ");
        let list = debug_list(&items);
        append_str(&mut m, list.as_str());
        Err(ProtocolError::Transport(m))
    }

    /// Sends the shutdown signal.
    pub fn shutdown(&mut self) -> (r: ProtocolResult<()>)
        requires
            old(self).wf(),
        ensures
            r is Ok,
            final(self).wf(),
            final(self).is_shut_down(),
            final(self).peers() == old(self).peers(),
            final(self).config_spec() == old(self).config_spec(),
    {
        self.shut_down = true;
        Ok(())
    }

    /// The number of connections.
    pub fn connection_count(&self) -> (r: usize)
        requires
            self.wf(),
        ensures
            r == self.peers().len(),
    {
        self.connections.len()
    }

    /// The transport's settings.
    pub fn config(&self) -> (r: &TransportConfig)
        ensures
            *r == self.config_spec(),
    {
        &self.config
    }
}

} // verus!
