//! The registry of protocol sessions.

use vstd::prelude::*;
use crate::named_map::{NamedMap, distinct_names, entries_map, entry_opened, lemma_entries_map_dom, lemma_entries_map_value};
use crate::protocol::endpoint::{is_new_peer, ProtocolClient, ProtocolServer};
use crate::protocol::messages::ProtocolMessage;
use crate::protocol::session::{
    PeerInfo, ProtocolSession, SessionState, SessionView, send_effect,
};
use crate::protocol::{ProtocolConfig, ProtocolError, ProtocolResult};
use crate::text::{append_str, string_from};

verus! {

impl ProtocolConfig {
    /// A field-by-field copy of the configuration.
    pub fn duplicate(&self) -> (r: Self)
        ensures
            r == *self,
    {
        ProtocolConfig {
            version: self.version.clone(),
            max_message_size: self.max_message_size,
            heartbeat_interval: self.heartbeat_interval,
            session_timeout: self.session_timeout,
            compression_enabled: self.compression_enabled,
        }
    }
}

/// Whether `v` is a session just made with this id, peer and
/// configuration.
pub open spec fn fresh_session(
    v: SessionView,
    session_id: Seq<char>,
    peer: PeerInfo,
    config: ProtocolConfig,
) -> bool {
    &&& v.session_id == session_id
    &&& v.peer == peer
    &&& v.config == config
    &&& v.state == SessionState::Connecting
    &&& v.pending == Seq::<ProtocolMessage>::empty()
    &&& v.receiving
    &&& v.heartbeat_sequence == 0
}

/// What a broadcast does to one session: a clone of the message is sent
/// through it.
pub open spec fn broadcast_effect(old: SessionView, new: SessionView, message: ProtocolMessage) -> bool {
    exists|m: ProtocolMessage, r: ProtocolResult<()>|
        cloned(message, m) && #[trigger] send_effect(old, new, m, r)
}

/// The sessions of a protocol endpoint, by session id, with the server it
/// runs and the client connection it holds, if any.
pub struct ProtocolManager {
    config: ProtocolConfig,
    sessions: NamedMap<ProtocolSession>,
    server: Option<ProtocolServer>,
    client: Option<ProtocolClient>,
}

impl ProtocolManager {
    /// The configuration new sessions get.
    pub closed spec fn config_spec(&self) -> ProtocolConfig {
        self.config
    }

    /// The sessions, by id.
    pub closed spec fn sessions(&self) -> Map<Seq<char>, ProtocolSession> {
        self.sessions@
    }

    /// The server it runs, if any.
    pub closed spec fn server_spec(&self) -> Option<ProtocolServer> {
        self.server
    }

    /// The client connection it holds, if any.
    pub closed spec fn client_spec(&self) -> Option<ProtocolClient> {
        self.client
    }

    /// The manager's internal invariant.
    pub closed spec fn wf(&self) -> bool {
        &&& self.sessions.wf()
        &&& forall|k: Seq<char>| #[trigger] self.sessions@.contains_key(k) ==> self.sessions@[k]@.session_id == k
        &&& self.server matches Some(s) ==> s.wf()
    }

    /// A manager with no session.
    pub fn new(config: ProtocolConfig) -> (r: Self)
        ensures
            r.wf(),
            r.config_spec() == config,
            r.sessions() == Map::<Seq<char>, ProtocolSession>::empty(),
            r.server_spec() is None,
            r.client_spec() is None,
    {
        ProtocolManager { config, sessions: NamedMap::new(), server: None, client: None }
    }

    /// A manager with the default configuration.
    pub fn default() -> (r: Self)
        ensures
            r.wf(),
            r.config_spec().version@ == crate::protocol::PROTOCOL_VERSION@,
            r.config_spec().heartbeat_interval == 30,
            r.config_spec().session_timeout == 300,
            r.config_spec().compression_enabled,
            r.sessions() == Map::<Seq<char>, ProtocolSession>::empty(),
            r.server_spec() is None,
            r.client_spec() is None,
    {
        Self::new(ProtocolConfig::default())
    }

    /// Starts the manager; there is nothing to fail.
    pub fn start(&self) -> (r: ProtocolResult<()>)
        ensures
            r is Ok,
    {
        Ok(())
    }

    /// Stops the manager: every session is closed and dropped.
    pub fn stop(&mut self) -> (r: ProtocolResult<()>)
        requires
            old(self).wf(),
        ensures
            r is Ok,
            final(self).wf(),
            final(self).config_spec() == old(self).config_spec(),
            final(self).sessions() == Map::<Seq<char>, ProtocolSession>::empty(),
    {
        let mut entries = self.sessions.drain();
        let n = entries.len();
        let mut i: usize = 0;
        while i < n
            invariant
                entries.len() == n - i,
                i <= n,
            decreases n - i,
        {
            let (_id, mut session) = entries.remove(0);
            let _ = session.close();
            i += 1;
        }
        Ok(())
    }

    /// The protocol configuration.
    pub fn config(&self) -> (r: &ProtocolConfig)
        ensures
            *r == self.config_spec(),
    {
        &self.config
    }

    /// Creates a session under the given id, replacing any session that had
    /// it.
    pub fn create_session(&mut self, session_id: String, peer_info: PeerInfo) -> (r: ProtocolResult<()>)
        requires
            old(self).wf(),
        ensures
            r is Ok,
            final(self).wf(),
            final(self).config_spec() == old(self).config_spec(),
            entry_opened(old(self).sessions(), final(self).sessions(), session_id@),
            fresh_session(
                final(self).sessions()[session_id@]@,
                session_id@,
                peer_info,
                old(self).config_spec(),
            ),
    {
        let config = self.config.duplicate();
        let key = session_id.clone();
        let session = ProtocolSession::new(session_id, peer_info, config);
        self.sessions.insert(key, session);
        Ok(())
    }

    /// The session with the given id.
    pub fn get_session(&self, session_id: &str) -> (r: Option<&ProtocolSession>)
        requires
            self.wf(),
        ensures
            match r {
                Some(s) => self.sessions().contains_key(session_id@) && *s == self.sessions()[session_id@],
                None => !self.sessions().contains_key(session_id@),
            },
    {
        self.sessions.get(session_id)
    }

    /// Drops the session with the given id, if there is one.
    pub fn remove_session(&mut self, session_id: &str) -> (r: ProtocolResult<()>)
        requires
            old(self).wf(),
        ensures
            r is Ok,
            final(self).wf(),
            final(self).config_spec() == old(self).config_spec(),
            final(self).sessions() == old(self).sessions().remove(session_id@),
    {
        self.sessions.remove(session_id);
        Ok(())
    }

    /// The number of sessions.
    pub fn active_sessions(&self) -> (r: usize)
        requires
            self.wf(),
        ensures
            r == self.sessions().len(),
    {
        self.sessions.len()
    }

    /// Sends a message through the session with the given id.
    pub fn send_message(&mut self, session_id: &str, message: ProtocolMessage) -> (r: ProtocolResult<()>)
        requires
            old(self).wf(),
        ensures
            final(self).wf(),
            final(self).config_spec() == old(self).config_spec(),
            !old(self).sessions().contains_key(session_id@) ==> final(self).sessions() == old(self).sessions()
                && (r matches Err(ProtocolError::Session(e)) && e@ == "Session not found: "@ + session_id@),
            old(self).sessions().contains_key(session_id@) ==> {
                &&& final(self).sessions().dom() == old(self).sessions().dom()
                &&& send_effect(
                    old(self).sessions()[session_id@]@,
                    final(self).sessions()[session_id@]@,
                    message,
                    r,
                )
                &&& forall|k: Seq<char>|
                    k != session_id@ && #[trigger] old(self).sessions().contains_key(k) ==> final(self).sessions()[k]
                        == old(self).sessions()[k]
            },
    {
        match self.sessions.remove_entry(session_id) {
            Some((key, mut session)) => {
                let r = session.send_message(message);
                self.sessions.insert(key, session);
                proof {
                    assert(final(self).sessions().dom() =~= old(self).sessions().dom());
                }
                r
            },
            None => {
                let mut e = string_from("Session not found: ");
                append_str(&mut e, session_id);
                Err(ProtocolError::Session(e))
            },
        }
    }

    /// Sends a clone of the message through every session; failures are
    /// ignored.
    pub fn broadcast_message(&mut self, message: ProtocolMessage) -> (r: ProtocolResult<()>)
        requires
            old(self).wf(),
        ensures
            r is Ok,
            final(self).wf(),
            final(self).config_spec() == old(self).config_spec(),
            final(self).sessions().dom() == old(self).sessions().dom(),
            forall|k: Seq<char>|
                #[trigger] old(self).sessions().contains_key(k) ==> broadcast_effect(
                    old(self).sessions()[k]@,
                    final(self).sessions()[k]@,
                    message,
                ),
    {
        let mut entries = self.sessions.drain();
        let ghost orig = entries@;
        let ghost old_sessions = old(self).sessions();
        proof {
            lemma_entries_map_dom(orig);
        }
        let mut rebuilt: NamedMap<ProtocolSession> = NamedMap::new();
        while entries.len() > 0
            invariant
                rebuilt.wf(),
                entries@ == orig.take(entries.len() as int),
                entries.len() <= orig.len(),
                distinct_names(orig),
                entries_map(orig) == old_sessions,
                forall|k: Seq<char>| #[trigger] old_sessions.contains_key(k) ==> old_sessions[k]@.session_id == k,
                forall|k: Seq<char>|
                    #[trigger] rebuilt@.contains_key(k) <==> exists|j: int|
                        entries.len() <= j < orig.len() && orig[j].0@ == k,
                forall|j: int|
                    entries.len() <= j < orig.len() ==> rebuilt@.contains_key(#[trigger] orig[j].0@)
                        && broadcast_effect(orig[j].1@, rebuilt@[orig[j].0@]@, message),
                forall|k: Seq<char>| #[trigger] rebuilt@.contains_key(k) ==> rebuilt@[k]@.session_id == k,
            decreases entries.len(),
        {
            let ghost n = entries.len() as int;
            let (key, mut session) = entries.pop().unwrap();
            let ghost old_v = session@;
            proof {
                assert(orig[n - 1].1@ == old_v);
                lemma_entries_map_value(orig, n - 1);
            }
            let m2 = message.clone();
            let r2 = session.send_message(m2);
            assert(broadcast_effect(old_v, session@, message));
            let ghost pre = rebuilt@;
            rebuilt.insert(key, session);
            proof {
                assert forall|j: int| entries.len() <= j < orig.len() implies rebuilt@.contains_key(
                    #[trigger] orig[j].0@,
                ) && broadcast_effect(orig[j].1@, rebuilt@[orig[j].0@]@, message) by {
                    if j < n - 1 {
                    } else if j > n - 1 {
                        assert(orig[j].0@ != orig[n - 1].0@);
                    }
                }
                assert forall|k: Seq<char>| #[trigger] rebuilt@.contains_key(k) <==> exists|j: int|
                    entries.len() <= j < orig.len() && orig[j].0@ == k by {
                    if rebuilt@.contains_key(k) && k != orig[n - 1].0@ {
                        assert(pre.contains_key(k));
                    }
                    if exists|j: int| entries.len() <= j < orig.len() && orig[j].0@ == k {
                        let j = choose|j: int| entries.len() <= j < orig.len() && orig[j].0@ == k;
                        if j != n - 1 {
                            assert(pre.contains_key(k));
                        }
                    }
                }
            }
        }
        self.sessions = rebuilt;
        proof {
            assert forall|k: Seq<char>| #[trigger] old_sessions.contains_key(k) implies broadcast_effect(
                old_sessions[k]@,
                self.sessions@[k]@,
                message,
            ) by {
                let j = choose|j: int| 0 <= j < orig.len() && orig[j].0@ == k;
                lemma_entries_map_value(orig, j);
            }
            assert(self.sessions@.dom() =~= old_sessions.dom());
        }
        Ok(())
    }
}


impl ProtocolManager {
    /// Keeps a server with the manager's configuration, once the caller has
    /// started listening (`started`); a failure to start is returned and
    /// keeps nothing.
    pub fn create_server(&mut self, started: ProtocolResult<()>) -> (r: ProtocolResult<()>)
        requires
            old(self).wf(),
        ensures
            final(self).wf(),
            final(self).config_spec() == old(self).config_spec(),
            final(self).sessions() == old(self).sessions(),
            final(self).client_spec() == old(self).client_spec(),
            match started {
                Ok(()) => r is Ok && (final(self).server_spec() matches Some(s) && s.config_spec()
                    == old(self).config_spec() && s.sessions().is_empty()),
                Err(e) => r == Err::<(), ProtocolError>(e) && final(self).server_spec() == old(self).server_spec(),
            },
    {
        match started {
            Ok(()) => {
                match ProtocolServer::new(self.config.duplicate()) {
                    Ok(server) => {
                        self.server = Some(server);
                        Ok(())
                    },
                    Err(e) => Err(e),
                }
            },
            Err(e) => Err(e),
        }
    }

    /// Stops the server, if any, closing its sessions, and drops it.
    pub fn stop_server(&mut self) -> (r: ProtocolResult<()>)
        requires
            old(self).wf(),
        ensures
            r is Ok,
            final(self).wf(),
            final(self).server_spec() is None,
            final(self).config_spec() == old(self).config_spec(),
            final(self).sessions() == old(self).sessions(),
            final(self).client_spec() == old(self).client_spec(),
    {
        match self.server.take() {
            Some(mut server) => server.stop(),
            None => Ok(()),
        }
    }

    /// Keeps a client connected to the server at the given address (IP text
    /// and port), once the caller has made the connection (`connected`); a
    /// failure to connect is returned and keeps nothing.
    pub fn create_client(&mut self, connected: ProtocolResult<(String, u16)>) -> (r: ProtocolResult<()>)
        requires
            old(self).wf(),
        ensures
            final(self).wf(),
            final(self).config_spec() == old(self).config_spec(),
            final(self).sessions() == old(self).sessions(),
            final(self).server_spec() == old(self).server_spec(),
            match connected {
                Ok((ip, port)) => r is Ok && (final(self).client_spec() matches Some(c) && c.is_connected()
                    && c.config_spec() == old(self).config_spec() && (c.session_spec() matches Some(s) && {
                    &&& is_new_peer(s@.peer, "server"@, "KVM Server"@, ip@, port)
                    &&& fresh_session(s@, "client-session"@, s@.peer, old(self).config_spec())
                })),
                Err(e) => r == Err::<(), ProtocolError>(e) && final(self).client_spec() == old(self).client_spec(),
            },
    {
        match connected {
            Ok((ip, port)) => {
                let mut client = ProtocolClient::new(self.config.duplicate());
                client.on_connected(ip, port);
                self.client = Some(client);
                Ok(())
            },
            Err(e) => Err(e),
        }
    }

    /// Disconnects and drops the client, if any, given the outcome of
    /// closing its connection; that outcome is returned.
    pub fn disconnect_client(&mut self, closed: ProtocolResult<()>) -> (r: ProtocolResult<()>)
        requires
            old(self).wf(),
        ensures
            final(self).wf(),
            final(self).client_spec() is None,
            final(self).config_spec() == old(self).config_spec(),
            final(self).sessions() == old(self).sessions(),
            final(self).server_spec() == old(self).server_spec(),
            old(self).client_spec() is Some ==> match closed {
                Ok(()) => r is Ok,
                Err(e) => r == Err::<(), ProtocolError>(e),
            },
            old(self).client_spec() is None ==> r is Ok,
    {
        match self.client.take() {
            Some(mut client) => client.disconnect(closed),
            None => Ok(()),
        }
    }

    /// Whether the client may send or receive: there must be a client, and
    /// it must be connected.
    pub fn client_link(&self) -> (r: ProtocolResult<()>)
        ensures
            self.client_spec() is None ==> (r matches Err(ProtocolError::Transport(m)) && m@
                == "Client not connected"@),
            self.client_spec() matches Some(c) ==> (c.is_connected() ==> r is Ok) && (!c.is_connected() ==> (
            r matches Err(ProtocolError::Transport(m)) && m@ == "Not connected"@)),
    {
        match &self.client {
            Some(c) => c.check_connected(),
            None => Err(ProtocolError::Transport(string_from("Client not connected"))),
        }
    }

    /// The session of the client's connection, if any.
    pub fn client_session(&self) -> (r: Option<&ProtocolSession>)
        ensures
            match self.client_spec() {
                Some(c) => match c.session_spec() {
                    Some(s) => r matches Some(x) && *x == s,
                    None => r is None,
                },
                None => r is None,
            },
    {
        match &self.client {
            Some(c) => c.session(),
            None => None,
        }
    }
}

} // verus!
