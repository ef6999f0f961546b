//! How the client answers the server: a welcome gives it its session (and,
//! with security on, an authentication request goes out), a granted
//! authentication starts input capture, a heartbeat is answered with a
//! `Pong`, and a goodbye ends the session.

use vstd::prelude::*;
use crate::bridge::{current_username, json_quote, json_string_text};
use crate::client::{ClientConfig, ClientError, ClientResult};
use crate::protocol::messages::{
    AuthRequestPayload, MessagePayload, MessageType, ProtocolMessage, session_message,
};
use crate::text::{append_str, string_from};

verus! {

/// The JSON text of the credentials a client presents for `user`: an
/// object with a fixed password hash and the user name, keys in
/// order.
pub open spec fn credentials_text(user: Seq<char>) -> Seq<char> {
    "{\"password_hash\":\"dummy_password_hash\",\"username\":"@ + json_string_text(user) + "}"@
}

/// Whether `m` is the authentication request of session `sid`: the
/// `password` method with the credentials of some user.
pub open spec fn is_auth_request(m: ProtocolMessage, sid: Seq<char>) -> bool {
    &&& m.header.message_type == MessageType::AuthRequest
    &&& m.header.session_id matches Some(s) && s@ == sid
    &&& m.payload matches MessagePayload::AuthRequest(a) && a.auth_method@ == "password"@
        && exists|user: Seq<char>| a.credentials@ == #[trigger] credentials_text(user)
}

/// What the caller does after the client handled a message from the
/// server.
#[derive(Debug, Clone)]
pub enum ClientAction {
    /// Nothing.
    Nothing,
    /// Keep this session id, then send the authentication request, if any.
    BeginSession { session_id: String, auth_request: Option<ProtocolMessage> },
    /// Start capturing input with the default input settings.
    StartInputCapture,
    /// Send this message to the server.
    Send(ProtocolMessage),
    /// Forget the session id, after stopping input capture where the
    /// platform has it.
    EndSession { stop_capture: bool },
}

/// The client's message handler.
pub struct ClientMessageHandler {
    config: ClientConfig,
    platform_available: bool,
}

impl ClientMessageHandler {
    pub closed spec fn config_spec(&self) -> ClientConfig {
        self.config
    }

    pub closed spec fn platform_available_spec(&self) -> bool {
        self.platform_available
    }

    /// A handler for a client with this configuration; input capture is
    /// started only where a platform is available.
    pub fn new(config: ClientConfig, platform_available: bool) -> (r: Self)
        ensures
            r.config_spec() == config,
            r.platform_available_spec() == platform_available,
    {
        ClientMessageHandler { config, platform_available }
    }

    /// The authentication request for session `session_id`: the `password`
    /// method with the credentials of the user running the process.
    pub fn auth_request(&self, session_id: String) -> (r: ProtocolMessage)
        ensures
            is_auth_request(r, session_id@),
    {
        let user = current_username();
        let mut credentials = string_from("{\"password_hash\":\"dummy_password_hash\",\"username\":");
        let quoted = json_quote(user.as_str());
        append_str(&mut credentials, quoted.as_str());
        append_str(&mut credentials, "}");
        assert(credentials@ == credentials_text(user@));
        let payload = AuthRequestPayload { auth_method: string_from("password"), credentials };
        ProtocolMessage::for_session(MessageType::AuthRequest, MessagePayload::AuthRequest(payload), session_id)
    }

    /// Handles a message from the server. A welcome begins its session,
    /// with an authentication request where security is on. A granted
    /// authentication starts input capture where a platform is available;
    /// a refused one is an authentication error with the server's message
    /// ("Unknown authentication error" where it gave none). A heartbeat is
    /// answered with a `Pong` bound to the same session (the empty id where
    /// it had none). A goodbye ends the session. Other messages are
    /// ignored.
    pub fn handle_message(&self, message: ProtocolMessage) -> (r: ClientResult<ClientAction>)
        ensures
            match message.payload {
                MessagePayload::Welcome(w) => r matches Ok(
                    ClientAction::BeginSession { session_id, auth_request },
                ) && session_id@ == w.session_id@ && if self.config_spec().enable_security {
                    auth_request matches Some(a) && is_auth_request(a, w.session_id@)
                } else {
                    auth_request is None
                },
                MessagePayload::AuthResponse(a) => if a.success {
                    if self.platform_available_spec() {
                        r matches Ok(ClientAction::StartInputCapture)
                    } else {
                        r matches Ok(ClientAction::Nothing)
                    }
                } else {
                    r matches Err(ClientError::Authentication(m)) && match a.error_message {
                        Some(e) => m@ == e@,
                        None => m@ == "Unknown authentication error"@,
                    }
                },
                MessagePayload::Heartbeat(_) => r matches Ok(ClientAction::Send(p)) && session_message(
                    p,
                    MessageType::Pong,
                    MessagePayload::Pong,
                    match message.header.session_id {
                        Some(s) => s@,
                        None => Seq::<char>::empty(),
                    },
                ),
                MessagePayload::Goodbye(_) => r matches Ok(ClientAction::EndSession { stop_capture })
                    && stop_capture == self.platform_available_spec(),
                _ => r matches Ok(ClientAction::Nothing),
            },
    {
        match message.payload {
            MessagePayload::Welcome(w) => {
                let auth_request = if self.config.enable_security {
                    Some(self.auth_request(w.session_id.clone()))
                } else {
                    None
                };
                Ok(ClientAction::BeginSession { session_id: w.session_id, auth_request })
            },
            MessagePayload::AuthResponse(a) => {
                if a.success {
                    if self.platform_available {
                        Ok(ClientAction::StartInputCapture)
                    } else {
                        Ok(ClientAction::Nothing)
                    }
                } else {
                    match a.error_message {
                        Some(e) => Err(ClientError::Authentication(e)),
                        None => Err(ClientError::Authentication(string_from("Unknown authentication error"))),
                    }
                }
            },
            MessagePayload::Heartbeat(_) => {
                let sid = match message.header.session_id {
                    Some(s) => s,
                    None => String::new(),
                };
                Ok(ClientAction::Send(ProtocolMessage::for_session(MessageType::Pong, MessagePayload::Pong, sid)))
            },
            MessagePayload::Goodbye(_) => Ok(ClientAction::EndSession { stop_capture: self.platform_available }),
            _ => Ok(ClientAction::Nothing),
        }
    }
}

} // verus!
