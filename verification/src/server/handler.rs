//! How the server answers client messages: a `Hello` opens a session and is
//! welcomed, an authentication request is always granted, a `Goodbye` ends
//! the session, and input events go on to the platform.

use vstd::prelude::*;
use crate::kvm_core::types::{NetworkAddress, Timestamp};
use crate::named_map::{NamedMap, entry_opened};
use crate::platform::PlatformResult;
use crate::protocol::endpoint::{is_server_session_id, new_server_session_id};
use crate::protocol::manager::{ProtocolManager, fresh_session};
use crate::protocol::messages::{AuthResponsePayload, ClientInfo, HelloPayload, MessagePayload, MessageType, ProtocolMessage, ServerInfo, WelcomePayload};
use crate::protocol::session::PeerInfo;
use crate::protocol::PROTOCOL_VERSION;
use crate::server::{ServerConfig, ServerError, ServerResult};
use crate::text::{append_str, string_from};

verus! {

/// What the server knows of a client session, and when it connected and
/// was last active.
#[derive(Debug, Clone)]
pub struct ClientSession {
    pub session_id: String,
    pub client_info: ClientInfo,
    pub connected_at: Timestamp,
    pub last_activity: Timestamp,
}

impl ClientInfo {
    /// A field-by-field copy.
    pub fn duplicate(&self) -> (r: Self)
        ensures
            r == *self,
    {
        ClientInfo {
            client_id: self.client_id.clone(),
            client_name: self.client_name.clone(),
            platform: self.platform.clone(),
            version: self.version.clone(),
        }
    }
}

impl ClientSession {
    /// A field-by-field copy.
    pub fn duplicate(&self) -> (r: Self)
        ensures
            r == *self,
    {
        ClientSession {
            session_id: self.session_id.clone(),
            client_info: self.client_info.duplicate(),
            connected_at: self.connected_at,
            last_activity: self.last_activity,
        }
    }
}

/// The kinds of input event the server forwards.
#[derive(Debug, Clone, Copy, PartialEq, Eq, Structural)]
pub enum InputKind {
    Keyboard,
    Mouse,
    Unknown,
}

/// The kind of an input event type name.
pub open spec fn input_kind_of(event_type: Seq<char>) -> InputKind {
    if event_type == "keyboard"@ {
        InputKind::Keyboard
    } else if event_type == "mouse"@ {
        InputKind::Mouse
    } else {
        InputKind::Unknown
    }
}

/// The kind of an input event type name.
pub fn input_kind(event_type: &String) -> (r: InputKind)
    ensures
        r == input_kind_of(event_type@),
{
    let keyboard = string_from("keyboard");
    let mouse = string_from("mouse");
    if *event_type == keyboard {
        InputKind::Keyboard
    } else if *event_type == mouse {
        InputKind::Mouse
    } else {
        InputKind::Unknown
    }
}

/// What the caller does after a message was handled.
#[derive(Debug, Clone)]
pub enum HandlerAction {
    /// Nothing.
    Nothing,
    /// Send this `Welcome` to the client.
    SendWelcome(ProtocolMessage),
    /// Send this authentication response to the client, which belongs to
    /// the given session.
    SendAuthResponse { response: ProtocolMessage, session_id: Option<String> },
    /// Hand this input event (its JSON text) to the platform, as the given
    /// kind, on behalf of the given session.
    ForwardInput { kind: InputKind, data: String, session_id: Option<String> },
}

/// Whether `m` is the welcome of a new session `sid` on a server named
/// `server_name`.
pub open spec fn is_welcome(m: ProtocolMessage, sid: Seq<char>, server_name: Seq<char>) -> bool {
    m.header.message_type == MessageType::Welcome && (m.header.session_id matches Some(s) && s@ == sid)
        && !m.header.compression && (m.payload matches MessagePayload::Welcome(w) && {
        &&& w.session_id@ == sid
        &&& w.server_info.server_id@ == "soft-kvm-server"@
        &&& w.server_info.server_name@ == server_name
        &&& w.server_info.protocol_version@ == PROTOCOL_VERSION@
        &&& w.negotiated_capabilities@.len() == 2
        &&& w.negotiated_capabilities@[0]@ == "video"@
        &&& w.negotiated_capabilities@[1]@ == "input"@
    })
}

/// Whether `m` grants authentication, bound to the session `sid` where
/// there is one.
pub open spec fn is_auth_grant(m: ProtocolMessage, sid: Option<String>) -> bool {
    &&& m.header.message_type == MessageType::AuthResponse
    &&& match sid {
        Some(s) => m.header.session_id matches Some(t) && t@ == s@,
        None => m.header.session_id is None,
    }
    &&& m.payload matches MessagePayload::AuthResponse(a) && {
        &&& a.success
        &&& a.session_token matches Some(t) && t@ == "dummy-token"@
        &&& a.error_message is None
    }
}

/// The client sessions after the one named `sid` (if any, and if present)
/// was marked active at some time.
pub open spec fn touched(
    old: Map<Seq<char>, ClientSession>,
    new: Map<Seq<char>, ClientSession>,
    sid: Option<String>,
) -> bool {
    &&& new.dom() == old.dom()
    &&& forall|k: Seq<char>|
        #[trigger] old.contains_key(k) ==> {
            if sid matches Some(s) && s@ == k {
                new[k] == (ClientSession { last_activity: new[k].last_activity, ..old[k] })
            } else {
                new[k] == old[k]
            }
        }
}

/// The server's message handler: the client sessions it opened, by id.
pub struct ServerMessageHandler {
    config: ServerConfig,
    platform_available: bool,
    active_sessions: NamedMap<ClientSession>,
}

impl ServerMessageHandler {
    pub closed spec fn config_spec(&self) -> ServerConfig {
        self.config
    }

    pub closed spec fn platform_available_spec(&self) -> bool {
        self.platform_available
    }

    /// The client sessions, by id.
    pub closed spec fn sessions(&self) -> Map<Seq<char>, ClientSession> {
        self.active_sessions@
    }

    /// The handler's internal invariant.
    pub closed spec fn wf(&self) -> bool {
        &&& self.active_sessions.wf()
        &&& forall|k: Seq<char>|
            #[trigger] self.active_sessions@.contains_key(k) ==> self.active_sessions@[k].session_id@ == k
    }

    /// A handler with no session; input events go to the platform only
    /// where one is available.
    pub fn new(config: ServerConfig, platform_available: bool) -> (r: Self)
        ensures
            r.wf(),
            r.config_spec() == config,
            r.platform_available_spec() == platform_available,
            r.sessions() == Map::<Seq<char>, ClientSession>::empty(),
    {
        ServerMessageHandler { config, platform_available, active_sessions: NamedMap::new() }
    }

    /// Marks the client session `sid` active now, if there is one.
    fn touch(&mut self, sid: &Option<String>)
        requires
            old(self).wf(),
        ensures
            final(self).wf(),
            final(self).config_spec() == old(self).config_spec(),
            final(self).platform_available_spec() == old(self).platform_available_spec(),
            touched(old(self).sessions(), final(self).sessions(), *sid),
    {
        match sid {
            Some(s) => {
                match self.active_sessions.remove_entry(s.as_str()) {
                    Some((key, mut session)) => {
                        let ghost before = session;
                        session.last_activity = Timestamp::now();
                        assert(session == (ClientSession {
                            last_activity: session.last_activity,
                            ..before
                        }));
                        self.active_sessions.insert(key, session);
                        proof {
                            assert(self.sessions().dom() =~= old(self).sessions().dom());
                            assert forall|k: Seq<char>| #[trigger] old(self).sessions().contains_key(k) implies {
                                if sid matches Some(t) && t@ == k {
                                    self.sessions()[k] == (ClientSession {
                                        last_activity: self.sessions()[k].last_activity,
                                        ..old(self).sessions()[k]
                                    })
                                } else {
                                    self.sessions()[k] == old(self).sessions()[k]
                                }
                            } by {
                                if k != s@ {
                                    assert(self.sessions()[k] == old(self).sessions()[k]);
                                }
                            }
                        }
                    },
                    None => {
                        assert(self.sessions() =~= old(self).sessions());
                    },
                }
            },
            None => {},
        }
    }

    /// Opens a session for a client that said hello and returns the
    /// welcome: the session gets a fresh `server-session-` id in the
    /// protocol sessions (the client's id, name and capabilities, at
    /// 127.0.0.1:0) and among the client sessions.
    pub fn handle_hello(&mut self, protocol: &mut ProtocolManager, payload: HelloPayload) -> (r:
        ServerResult<HandlerAction>)
        requires
            old(self).wf(),
            old(protocol).wf(),
        ensures
            final(self).wf(),
            final(protocol).wf(),
            final(self).config_spec() == old(self).config_spec(),
            final(self).platform_available_spec() == old(self).platform_available_spec(),
            final(protocol).config_spec() == old(protocol).config_spec(),
            r matches Ok(HandlerAction::SendWelcome(m)) && exists|sid: Seq<char>| {
                &&& is_server_session_id(sid)
                &&& #[trigger] is_welcome(m, sid, old(self).config_spec().server_name@)
                &&& entry_opened(old(protocol).sessions(), final(protocol).sessions(), sid)
                &&& fresh_session(
                    final(protocol).sessions()[sid]@,
                    sid,
                    final(protocol).sessions()[sid]@.peer,
                    old(protocol).config_spec(),
                )
                &&& final(protocol).sessions()[sid]@.peer.peer_id@ == payload.client_info.client_id@
                &&& final(protocol).sessions()[sid]@.peer.peer_name@ == payload.client_info.client_name@
                &&& final(protocol).sessions()[sid]@.peer.address.ip@ == "127.0.0.1"@
                &&& final(protocol).sessions()[sid]@.peer.address.port == 0
                &&& final(protocol).sessions()[sid]@.peer.capabilities == payload.capabilities
                &&& !final(protocol).sessions()[sid]@.peer.authenticated
                &&& entry_opened(old(self).sessions(), final(self).sessions(), sid)
                &&& final(self).sessions()[sid].session_id@ == sid
                &&& final(self).sessions()[sid].client_info == payload.client_info
                &&& final(self).sessions()[sid].connected_at
                    == final(self).sessions()[sid].last_activity
            },
    {
        let session_id = new_server_session_id();
        let peer = PeerInfo {
            peer_id: payload.client_info.client_id.clone(),
            peer_name: payload.client_info.client_name.clone(),
            address: NetworkAddress { ip: string_from("127.0.0.1"), port: 0 },
            capabilities: payload.capabilities,
            authenticated: false,
            last_seen: Timestamp::now(),
        };
        let _ = protocol.create_session(session_id.clone(), peer);
        let now = Timestamp::now();
        let client_session = ClientSession {
            session_id: session_id.clone(),
            client_info: payload.client_info,
            connected_at: now,
            last_activity: now,
        };
        self.active_sessions.insert(session_id.clone(), client_session);
        let mut caps: Vec<String> = Vec::new();
        caps.push(string_from("video"));
        caps.push(string_from("input"));
        let welcome = WelcomePayload {
            server_info: ServerInfo {
                server_id: string_from("soft-kvm-server"),
                server_name: self.config.server_name.clone(),
                protocol_version: string_from(PROTOCOL_VERSION),
            },
            session_id: session_id.clone(),
            negotiated_capabilities: caps,
        };
        let ghost sid = session_id@;
        let response = ProtocolMessage::for_session(
            MessageType::Welcome,
            MessagePayload::Welcome(welcome),
            session_id,
        );
        assert(is_welcome(response, sid, old(self).config_spec().server_name@));
        Ok(HandlerAction::SendWelcome(response))
    }

    /// Handles a client message. A hello is welcomed (see `handle_hello`);
    /// an authentication request is granted; a heartbeat marks its session
    /// active; a goodbye drops its session from both registries; an input
    /// event goes to the platform where one is available (keyboard and
    /// mouse events only), and otherwise marks its session active. Other
    /// messages are ignored.
    pub fn handle_message(&mut self, protocol: &mut ProtocolManager, message: ProtocolMessage) -> (r:
        ServerResult<HandlerAction>)
        requires
            old(self).wf(),
            old(protocol).wf(),
        ensures
            final(self).wf(),
            final(protocol).wf(),
            final(self).config_spec() == old(self).config_spec(),
            final(self).platform_available_spec() == old(self).platform_available_spec(),
            final(protocol).config_spec() == old(protocol).config_spec(),
            match message.payload {
                MessagePayload::Hello(_) => r matches Ok(HandlerAction::SendWelcome(_)),
                MessagePayload::AuthRequest(_) => r matches Ok(
                    HandlerAction::SendAuthResponse { response, session_id },
                ) && session_id == message.header.session_id && is_auth_grant(
                    response,
                    message.header.session_id,
                ) && final(self).sessions() == old(self).sessions() && *final(protocol)
                    == *old(protocol),
                MessagePayload::Heartbeat(_) => r matches Ok(HandlerAction::Nothing) && touched(
                    old(self).sessions(),
                    final(self).sessions(),
                    message.header.session_id,
                ) && *final(protocol) == *old(protocol),
                MessagePayload::Goodbye(_) => r is Ok && match message.header.session_id {
                    Some(s) => final(self).sessions() == old(self).sessions().remove(s@)
                        && final(protocol).sessions() == old(protocol).sessions().remove(s@),
                    None => final(self).sessions() == old(self).sessions()
                        && *final(protocol) == *old(protocol),
                },
                MessagePayload::InputEvent(p) => *final(protocol) == *old(protocol) && if old(
                    self,
                ).platform_available_spec() && input_kind_of(p.event_type@) != InputKind::Unknown {
                    r matches Ok(HandlerAction::ForwardInput { kind, data, session_id }) && kind
                        == input_kind_of(p.event_type@) && data@ == p.data@ && session_id
                        == message.header.session_id && final(self).sessions() == old(
                        self,
                    ).sessions()
                } else {
                    r matches Ok(HandlerAction::Nothing) && touched(
                        old(self).sessions(),
                        final(self).sessions(),
                        message.header.session_id,
                    )
                },
                _ => r matches Ok(HandlerAction::Nothing) && final(self).sessions() == old(
                    self,
                ).sessions() && *final(protocol) == *old(protocol),
            },
    {
        let sid = message.header.session_id;
        match message.payload {
            MessagePayload::Hello(p) => self.handle_hello(protocol, p),
            MessagePayload::AuthRequest(_) => {
                let grant = AuthResponsePayload {
                    success: true,
                    session_token: Some(string_from("dummy-token")),
                    error_message: None,
                };
                let response = ProtocolMessage::new(
                    MessageType::AuthResponse,
                    MessagePayload::AuthResponse(grant),
                );
                let response = match &sid {
                    Some(s) => response.with_session(s.clone()),
                    None => response,
                };
                Ok(HandlerAction::SendAuthResponse { response, session_id: sid })
            },
            MessagePayload::Heartbeat(_) => {
                self.touch(&sid);
                Ok(HandlerAction::Nothing)
            },
            MessagePayload::Goodbye(_) => {
                match &sid {
                    Some(s) => {
                        self.active_sessions.remove(s.as_str());
                        let _ = protocol.remove_session(s.as_str());
                    },
                    None => {},
                }
                Ok(HandlerAction::Nothing)
            },
            MessagePayload::InputEvent(p) => {
                let kind = input_kind(&p.event_type);
                if self.platform_available && kind != InputKind::Unknown {
                    Ok(HandlerAction::ForwardInput { kind, data: p.data, session_id: sid })
                } else {
                    self.touch(&sid);
                    Ok(HandlerAction::Nothing)
                }
            },
            _ => Ok(HandlerAction::Nothing),
        }
    }

    /// The outcome of sending a reply: a welcome or an authentication
    /// response that could not be sent is a generic error that quotes the
    /// failure; a sent authentication response marks its session active.
    pub fn reply_sent(&mut self, action: &HandlerAction, sent: Result<(), String>) -> (r: ServerResult<()>)
        requires
            old(self).wf(),
        ensures
            final(self).wf(),
            final(self).config_spec() == old(self).config_spec(),
            final(self).platform_available_spec() == old(self).platform_available_spec(),
            match (action, sent) {
                (HandlerAction::SendWelcome(_), Err(e)) => r matches Err(ServerError::Generic(m))
                    && m@ == "Failed to send welcome: "@ + e@ && final(self).sessions() == old(
                    self,
                ).sessions(),
                (HandlerAction::SendAuthResponse { .. }, Err(e)) => r matches Err(
                    ServerError::Generic(m),
                ) && m@ == "Failed to send auth response: "@ + e@ && final(self).sessions() == old(
                    self,
                ).sessions(),
                (HandlerAction::SendAuthResponse { session_id, .. }, Ok(())) => r is Ok && touched(
                    old(self).sessions(),
                    final(self).sessions(),
                    *session_id,
                ),
                _ => r is Ok && final(self).sessions() == old(self).sessions(),
            },
    {
        match (action, sent) {
            (HandlerAction::SendWelcome(_), Err(e)) => {
                let mut m = string_from("Failed to send welcome: ");
                append_str(&mut m, e.as_str());
                Err(ServerError::Generic(m))
            },
            (HandlerAction::SendAuthResponse { .. }, Err(e)) => {
                let mut m = string_from("Failed to send auth response: ");
                append_str(&mut m, e.as_str());
                Err(ServerError::Generic(m))
            },
            (HandlerAction::SendAuthResponse { session_id, .. }, Ok(())) => {
                self.touch(session_id);
                Ok(())
            },
            _ => Ok(()),
        }
    }

    /// The outcome of handing an input event to the platform: a failure is
    /// a platform error; a success marks the session active.
    pub fn input_forwarded(&mut self, session_id: &Option<String>, result: PlatformResult<()>) -> (r:
        ServerResult<()>)
        requires
            old(self).wf(),
        ensures
            final(self).wf(),
            final(self).config_spec() == old(self).config_spec(),
            final(self).platform_available_spec() == old(self).platform_available_spec(),
            match result {
                Ok(()) => r is Ok && touched(old(self).sessions(), final(self).sessions(), *session_id),
                Err(e) => r == Err::<(), ServerError>(ServerError::Platform(e)) && final(self).sessions()
                    == old(self).sessions(),
            },
    {
        match result {
            Ok(()) => {
                self.touch(session_id);
                Ok(())
            },
            Err(e) => Err(ServerError::Platform(e)),
        }
    }

    /// The client sessions.
    pub fn get_active_sessions(&self) -> (r: Vec<ClientSession>)
        requires
            self.wf(),
        ensures
            r.len() == self.sessions().len(),
            forall|i: int|
                0 <= i < r.len() ==> self.sessions().contains_key(#[trigger] r[i].session_id@)
                    && self.sessions()[r[i].session_id@] == r[i],
            forall|i: int, j: int| 0 <= i < j < r.len() ==> r[i].session_id@ != r[j].session_id@,
    {
        let keys = self.active_sessions.keys();
        let mut out: Vec<ClientSession> = Vec::new();
        let mut i: usize = 0;
        while i < keys.len()
            invariant
                self.wf(),
                i <= keys.len(),
                out.len() == i,
                keys.len() == self.sessions().len(),
                forall|j: int| 0 <= j < keys.len() ==> self.sessions().contains_key(#[trigger] keys[j]@),
                forall|a: int, b: int| 0 <= a < b < keys.len() ==> keys[a]@ != keys[b]@,
                forall|j: int| 0 <= j < i ==> #[trigger] out[j].session_id@ == keys[j]@ && self.sessions()[keys[j]@]
                    == out[j],
            decreases keys.len() - i,
        {
            match self.active_sessions.get(keys[i].as_str()) {
                Some(s) => {
                    out.push(s.duplicate());
                },
                None => {
                    assert(false);
                },
            }
            i += 1;
        }
        out
    }

    /// The number of client sessions.
    pub fn session_count(&self) -> (r: usize)
        requires
            self.wf(),
        ensures
            r == self.sessions().len(),
    {
        self.active_sessions.len()
    }
}

/// A client that says hello and then goodbye, in the session the hello
/// opened, leaves the server as it found it: its client sessions and its
/// protocol sessions are those before the hello, where the session id the
/// hello picked was not in use yet.
pub proof fn goodbye_undoes_hello(
    handler_before: ServerMessageHandler,
    handler_after_hello: ServerMessageHandler,
    handler_after_goodbye: ServerMessageHandler,
    protocol_before: ProtocolManager,
    protocol_after_hello: ProtocolManager,
    protocol_after_goodbye: ProtocolManager,
    sid: Seq<char>,
)
    requires
        !handler_before.sessions().contains_key(sid),
        !protocol_before.sessions().contains_key(sid),
        entry_opened(handler_before.sessions(), handler_after_hello.sessions(), sid),
        entry_opened(protocol_before.sessions(), protocol_after_hello.sessions(), sid),
        handler_after_goodbye.sessions() == handler_after_hello.sessions().remove(sid),
        protocol_after_goodbye.sessions() == protocol_after_hello.sessions().remove(sid),
    ensures
        handler_after_goodbye.sessions() == handler_before.sessions(),
        protocol_after_goodbye.sessions() == protocol_before.sessions(),
{
    assert(handler_after_goodbye.sessions() =~= handler_before.sessions());
    assert(protocol_after_goodbye.sessions() =~= protocol_before.sessions());
}

/// An input event of type `keyboard` is forwarded as a keyboard event, one
/// of type `mouse` as a mouse event, and one of any other type is not
/// forwarded.
pub proof fn input_events_forwarded_by_type(event_type: Seq<char>)
    ensures
        event_type == "keyboard"@ ==> input_kind_of(event_type) == InputKind::Keyboard,
        event_type == "mouse"@ ==> input_kind_of(event_type) == InputKind::Mouse,
        event_type != "keyboard"@ && event_type != "mouse"@ ==> input_kind_of(event_type) == InputKind::Unknown,
{
    reveal_strlit("keyboard");
    reveal_strlit("mouse");
    assert("keyboard"@ != "mouse"@) by {
        assert("keyboard"@.len() != "mouse"@.len());
    }
}

} // verus!
