//! The two ends of the protocol: a server that opens a session for every
//! connection it accepts, and a client with the one session of its
//! connection. The caller runs the network side and reports each outcome.

use vstd::prelude::*;
use crate::bridge::{new_uuid, uuid_hyphenated, uuid_text};
use crate::kvm_core::types::{NetworkAddress, Timestamp};
use crate::named_map::{NamedMap, entry_opened};
use crate::protocol::manager::fresh_session;
use crate::protocol::session::{PeerInfo, ProtocolSession};
use crate::protocol::{ProtocolConfig, ProtocolError, ProtocolResult};
use crate::text::{append_str, string_from};

verus! {

/// Whether `p` is what an endpoint knows of a peer it just met: the given
/// id, name and address, video and input, not authenticated.
pub open spec fn is_new_peer(
    p: PeerInfo,
    peer_id: Seq<char>,
    peer_name: Seq<char>,
    ip: Seq<char>,
    port: u16,
) -> bool {
    &&& p.peer_id@ == peer_id
    &&& p.peer_name@ == peer_name
    &&& p.address.ip@ == ip
    &&& p.address.port == port
    &&& p.capabilities@.len() == 2
    &&& p.capabilities@[0]@ == "video"@
    &&& p.capabilities@[1]@ == "input"@
    &&& !p.authenticated
}

/// A peer just met, seen now.
pub fn new_peer(peer_id: &str, peer_name: &str, ip: String, port: u16) -> (r: PeerInfo)
    ensures
        is_new_peer(r, peer_id@, peer_name@, ip@, port),
{
    let mut caps: Vec<String> = Vec::new();
    caps.push(string_from("video"));
    caps.push(string_from("input"));
    PeerInfo {
        peer_id: string_from(peer_id),
        peer_name: string_from(peer_name),
        address: NetworkAddress { ip, port },
        capabilities: caps,
        authenticated: false,
        last_seen: Timestamp::now(),
    }
}

/// The id a server gives the session of an accepted connection:
/// `server-session-` and a UUID.
pub open spec fn is_server_session_id(id: Seq<char>) -> bool {
    exists|v: u128| id == "server-session-"@ + uuid_hyphenated(v)
}

/// A fresh id for the session of an accepted connection.
pub fn new_server_session_id() -> (r: String)
    ensures
        is_server_session_id(r@),
{
    let mut id = string_from("server-session-");
    let u = uuid_text(new_uuid());
    append_str(&mut id, u.as_str());
    id
}

/// What the accepting loop of a server sees.
#[derive(Debug, Clone)]
pub enum AcceptEvent {
    /// A connection came in, from this address (IP text and port) where it
    /// is known.
    Accepted { remote: Option<(String, u16)> },
    /// Accepting failed.
    Failed,
    /// The shutdown signal arrived.
    Shutdown,
}

/// A protocol server: the sessions of the connections it accepted, by id.
pub struct ProtocolServer {
    config: ProtocolConfig,
    sessions: NamedMap<ProtocolSession>,
}

impl ProtocolServer {
    pub closed spec fn config_spec(&self) -> ProtocolConfig {
        self.config
    }

    /// The sessions, by id.
    pub closed spec fn sessions(&self) -> Map<Seq<char>, ProtocolSession> {
        self.sessions@
    }

    /// The server's internal invariant.
    pub closed spec fn wf(&self) -> bool {
        &&& self.sessions.wf()
        &&& forall|k: Seq<char>| #[trigger] self.sessions@.contains_key(k) ==> self.sessions@[k]@.session_id == k
    }

    /// A server with no session yet.
    pub fn new(config: ProtocolConfig) -> (r: ProtocolResult<Self>)
        ensures
            r matches Ok(s) && s.wf() && s.config_spec() == config
                && s.sessions() == Map::<Seq<char>, ProtocolSession>::empty(),
    {
        Ok(ProtocolServer { config, sessions: NamedMap::new() })
    }

    /// One turn of the accepting loop. An accepted connection gets a new
    /// session, whose id is returned: the peer is an unauthenticated client
    /// at the connection's address (`127.0.0.1:0` where it is unknown). A
    /// failure or the shutdown signal ends the loop (`None`) and changes
    /// nothing.
    pub fn on_accept(&mut self, event: AcceptEvent) -> (r: Option<String>)
        requires
            old(self).wf(),
        ensures
            final(self).wf(),
            final(self).config_spec() == old(self).config_spec(),
            match event {
                AcceptEvent::Accepted { remote } => r matches Some(id) && {
                    let (ip, port) = match remote {
                        Some((ip, port)) => (ip@, port),
                        None => ("127.0.0.1"@, 0u16),
                    };
                    &&& is_server_session_id(id@)
                    &&& entry_opened(old(self).sessions(), final(self).sessions(), id@)
                    &&& is_new_peer(final(self).sessions()[id@]@.peer, "client"@, "KVM Client"@, ip, port)
                    &&& fresh_session(
                        final(self).sessions()[id@]@,
                        id@,
                        final(self).sessions()[id@]@.peer,
                        old(self).config_spec(),
                    )
                },
                AcceptEvent::Failed => r is None && final(self).sessions() == old(self).sessions(),
                AcceptEvent::Shutdown => r is None && final(self).sessions() == old(self).sessions(),
            },
    {
        match event {
            AcceptEvent::Accepted { remote } => {
                let (ip, port) = match remote {
                    Some((ip, port)) => (ip, port),
                    None => (string_from("127.0.0.1"), 0u16),
                };
                let id = new_server_session_id();
                let peer = new_peer("client", "KVM Client", ip, port);
                let session = ProtocolSession::new(id.clone(), peer, self.config.duplicate());
                self.sessions.insert(id.clone(), session);
                Some(id)
            },
            AcceptEvent::Failed => None,
            AcceptEvent::Shutdown => None,
        }
    }

    /// Stops the server: every session is closed and dropped.
    pub fn stop(&mut self) -> (r: ProtocolResult<()>)
        requires
            old(self).wf(),
        ensures
            r is Ok,
            final(self).wf(),
            final(self).config_spec() == old(self).config_spec(),
            final(self).sessions() == Map::<Seq<char>, ProtocolSession>::empty(),
    {
        let mut entries = self.sessions.drain();
        let n = entries.len();
        let mut i: usize = 0;
        while i < n
            invariant
                entries.len() == n - i,
                i <= n,
            decreases n - i,
        {
            let (_id, mut session) = entries.remove(0);
            let _ = session.close();
            i += 1;
        }
        Ok(())
    }

    /// The number of sessions.
    pub fn session_count(&self) -> (r: usize)
        requires
            self.wf(),
        ensures
            r == self.sessions().len(),
    {
        self.sessions.len()
    }

    /// The session with the given id.
    pub fn get_session(&self, session_id: &str) -> (r: Option<&ProtocolSession>)
        requires
            self.wf(),
        ensures
            match r {
                Some(s) => self.sessions().contains_key(session_id@) && *s == self.sessions()[session_id@],
                None => !self.sessions().contains_key(session_id@),
            },
    {
        self.sessions.get(session_id)
    }
}

/// A protocol client: whether it is connected, and the session of its
/// connection.
pub struct ProtocolClient {
    config: ProtocolConfig,
    session: Option<ProtocolSession>,
    connected: bool,
}

impl ProtocolClient {
    pub closed spec fn config_spec(&self) -> ProtocolConfig {
        self.config
    }

    pub closed spec fn is_connected(&self) -> bool {
        self.connected
    }

    pub closed spec fn session_spec(&self) -> Option<ProtocolSession> {
        self.session
    }

    /// A client that is not connected and has no session.
    pub fn new(config: ProtocolConfig) -> (r: Self)
        ensures
            r.config_spec() == config,
            !r.is_connected(),
            r.session_spec() is None,
    {
        ProtocolClient { config, session: None, connected: false }
    }

    /// The transport connection to the server at `ip`:`port` is up: the
    /// client is connected, with a new session `client-session` whose peer
    /// is the unauthenticated server at that address.
    pub fn on_connected(&mut self, ip: String, port: u16)
        ensures
            final(self).config_spec() == old(self).config_spec(),
            final(self).is_connected(),
            final(self).session_spec() matches Some(s) && {
                &&& is_new_peer(s@.peer, "server"@, "KVM Server"@, ip@, port)
                &&& fresh_session(s@, "client-session"@, s@.peer, old(self).config_spec())
            },
    {
        let peer = new_peer("server", "KVM Server", ip, port);
        let session = ProtocolSession::new(string_from("client-session"), peer, self.config.duplicate());
        self.session = Some(session);
        self.connected = true;
    }

    /// Whether a message may be sent or received: only while connected.
    pub fn check_connected(&self) -> (r: ProtocolResult<()>)
        ensures
            self.is_connected() ==> r is Ok,
            !self.is_connected() ==> (r matches Err(ProtocolError::Transport(m))
                && m@ == "Not connected"@),
    {
        if self.connected {
            Ok(())
        } else {
            Err(ProtocolError::Transport(string_from("Not connected")))
        }
    }

    /// Disconnects, given the outcome of closing the transport connection
    /// (`Ok` where there was none). The client is no longer connected. A
    /// failed close is returned as it is and leaves the session; otherwise
    /// the session, if any, is closed and dropped.
    pub fn disconnect(&mut self, closed: ProtocolResult<()>) -> (r: ProtocolResult<()>)
        ensures
            final(self).config_spec() == old(self).config_spec(),
            !final(self).is_connected(),
            match closed {
                Ok(()) => r is Ok && final(self).session_spec() is None,
                Err(e) => r == Err::<(), ProtocolError>(e) && final(self).session_spec() == old(
                    self,
                ).session_spec(),
            },
    {
        self.connected = false;
        match closed {
            Err(e) => Err(e),
            Ok(()) => {
                match self.session.take() {
                    Some(mut s) => {
                        let _ = s.close();
                    },
                    None => {},
                }
                Ok(())
            },
        }
    }

    /// The session of the connection, if any.
    pub fn session(&self) -> (r: Option<&ProtocolSession>)
        ensures
            match self.session_spec() {
                Some(s) => r matches Some(x) && *x == s,
                None => r is None,
            },
    {
        match &self.session {
            Some(s) => Some(s),
            None => None,
        }
    }
}

} // verus!
