//! The decisions of a WebSocket connection: when a message may be sent,
//! what a frame read from the stream means, when the connection closes, the
//! URL a client dials and the key material a TLS listener needs. The caller
//! drives the stream and hands each outcome to these functions.

use vstd::prelude::*;
use crate::protocol::{ProtocolError, ProtocolResult};
use crate::protocol::transport::{TlsConfig, TransportConfig};
use crate::plugins::tls::{server_acceptor, server_config_failure};
use crate::text::{append_str, decimal, push_decimal, string_from};

verus! {

#[verifier::external_type_specification]
#[verifier::external_body]
pub struct ExUrl(url::Url);

/// The error text that `url::Url::parse` gives for `text`, or `None` where
/// the text parses.
pub uninterp spec fn url_parse_failure(text: Seq<char>) -> Option<Seq<char>>;

/// `url::Url::parse`, its error written as text. Claimed: whether it fails,
/// and the text of its error, depend on the input text alone.
#[verifier::external_body]
fn parse_url(text: &str) -> (r: Result<url::Url, String>)
    ensures
        match r {
            Ok(_) => url_parse_failure(text@) is None,
            Err(e) => url_parse_failure(text@) == Some(e@),
        },
{
    match url::Url::parse(text) {
        Ok(u) => Ok(u),
        Err(e) => Err(e.to_string()),
    }
}

/// The certificates that `rustls_pemfile::certs` finds in `data` (each as
/// DER bytes), or `None` where it fails.
pub uninterp spec fn pem_certificates(data: Seq<u8>) -> Option<Seq<Seq<u8>>>;

/// `rustls_pemfile::certs` over the bytes of `data`. Claimed: the outcome
/// depends on the bytes alone.
#[verifier::external_body]
fn read_pem_certificates(data: &Vec<u8>) -> (r: Option<Vec<Vec<u8>>>)
    ensures
        match r {
            Some(v) => pem_certificates(data@) == Some(v.deep_view()),
            None => pem_certificates(data@) is None,
        },
{
    let mut reader = std::io::Cursor::new(data.as_slice());
    match rustls_pemfile::certs(&mut reader) {
        Ok(v) => Some(v),
        Err(_) => None,
    }
}

/// The PKCS #8 private keys that `rustls_pemfile::pkcs8_private_keys` finds
/// in `data`, in order, or `None` where it fails.
pub uninterp spec fn pem_pkcs8_keys(data: Seq<u8>) -> Option<Seq<Seq<u8>>>;

/// `rustls_pemfile::pkcs8_private_keys` over the bytes of `data`. Claimed:
/// the outcome depends on the bytes alone.
#[verifier::external_body]
fn read_pem_pkcs8_keys(data: &Vec<u8>) -> (r: Option<Vec<Vec<u8>>>)
    ensures
        match r {
            Some(v) => pem_pkcs8_keys(data@) == Some(v.deep_view()),
            None => pem_pkcs8_keys(data@) is None,
        },
{
    let mut reader = std::io::Cursor::new(data.as_slice());
    match rustls_pemfile::pkcs8_private_keys(&mut reader) {
        Ok(v) => Some(v),
        Err(_) => None,
    }
}

/// The text of the URL a client dials: `wss://` with TLS, else `ws://`,
/// then the address.
pub open spec fn websocket_url_text(addr: Seq<char>, tls_enabled: bool) -> Seq<char> {
    (if tls_enabled {
        "wss://"@
    } else {
        "ws://"@
    }) + addr
}

/// The URL a client dials for `addr` (the text of a socket address). A text
/// that does not parse as a URL is a transport error that quotes the
/// parser's message.
pub fn websocket_url(addr: &str, tls_enabled: bool) -> (r: ProtocolResult<url::Url>)
    ensures
        match url_parse_failure(websocket_url_text(addr@, tls_enabled)) {
            None => r is Ok,
            Some(e) => r matches Err(ProtocolError::Transport(m)) && m@ == "Invalid URL: "@ + e,
        },
{
    let mut text = if tls_enabled {
        string_from("wss://")
    } else {
        string_from("ws://")
    };
    append_str(&mut text, addr);
    match parse_url(text.as_str()) {
        Ok(u) => Ok(u),
        Err(e) => {
            let mut m = string_from("Invalid URL: ");
            append_str(&mut m, e.as_str());
            Err(ProtocolError::Transport(m))
        },
    }
}

/// The certificate and private key paths of a TLS listener, in that order.
/// A missing path is a transport error that names it; the certificate is
/// looked at first.
pub fn tls_key_paths(tls: &TlsConfig) -> (r: ProtocolResult<(String, String)>)
    ensures
        match (tls.certificate_path, tls.private_key_path) {
            (Some(c), Some(k)) => r matches Ok((rc, rk)) && rc@ == c@ && rk@ == k@,
            (None, _) => r matches Err(ProtocolError::Transport(m))
                && m@ == "Certificate path not specified"@,
            (Some(_), None) => r matches Err(ProtocolError::Transport(m))
                && m@ == "Private key path not specified"@,
        },
{
    let cert = match &tls.certificate_path {
        Some(c) => c.clone(),
        None => {
            return Err(ProtocolError::Transport(string_from("Certificate path not specified")));
        },
    };
    let key = match &tls.private_key_path {
        Some(k) => k.clone(),
        None => {
            return Err(ProtocolError::Transport(string_from("Private key path not specified")));
        },
    };
    Ok((cert, key))
}

/// The certificates of a PEM file's bytes, as DER bytes. Bytes the PEM
/// reader rejects are a transport error.
pub fn certificates_from_pem(data: &Vec<u8>) -> (r: ProtocolResult<Vec<Vec<u8>>>)
    ensures
        match pem_certificates(data@) {
            Some(cs) => r matches Ok(v) && v.deep_view() == cs,
            None => r matches Err(ProtocolError::Transport(m))
                && m@ == "Failed to parse certificate"@,
        },
{
    match read_pem_certificates(data) {
        Some(v) => Ok(v),
        None => Err(ProtocolError::Transport(string_from("Failed to parse certificate"))),
    }
}

/// The first PKCS #8 private key of a PEM file's bytes. Bytes the PEM reader
/// rejects, and a file without such a key, are transport errors.
pub fn private_key_from_pem(data: &Vec<u8>) -> (r: ProtocolResult<Vec<u8>>)
    ensures
        match pem_pkcs8_keys(data@) {
            Some(ks) => if ks.len() > 0 {
                r matches Ok(k) && k@ == ks[0]
            } else {
                r matches Err(ProtocolError::Transport(m)) && m@ == "No PKCS8 private key found"@
            },
            None => r matches Err(ProtocolError::Transport(m))
                && m@ == "Failed to parse PKCS8 private key"@,
        },
{
    match read_pem_pkcs8_keys(data) {
        Some(keys) => {
            if keys.len() > 0 {
                let k = keys[0].clone();
                proof {
                    assert(keys.deep_view()[0] == keys@[0]@);
                }
                Ok(k)
            } else {
                Err(ProtocolError::Transport(string_from("No PKCS8 private key found")))
            }
        },
        None => Err(ProtocolError::Transport(string_from("Failed to parse PKCS8 private key"))),
    }
}

/// The acceptor of a TLS listener, from the certificate chain and the
/// private key it loaded (DER bytes), offering no ALPN protocol. A chain and
/// key that make no server configuration are a transport error.
pub fn tls_acceptor(certs: &Vec<Vec<u8>>, key: &Vec<u8>) -> (r: ProtocolResult<tokio_rustls::TlsAcceptor>)
    ensures
        match server_config_failure(certs.deep_view(), key@) {
            None => r is Ok,
            Some(e) => r matches Err(ProtocolError::Transport(m)) && m@ == "TLS config error: "@ + e,
        },
{
    let no_alpn: Vec<Vec<u8>> = Vec::new();
    match server_acceptor(certs, key, &no_alpn) {
        Ok(a) => Ok(a),
        Err(e) => {
            let mut m = string_from("TLS config error: ");
            append_str(&mut m, e.as_str());
            Err(ProtocolError::Transport(m))
        },
    }
}

/// The text of the error for a message too large for the buffer.
pub open spec fn oversize_text(size: nat, buffer: nat) -> Seq<char> {
    "Message size "@ + decimal(size) + " exceeds buffer size "@ + decimal(buffer)
}

/// What reading the stream of a connection gave.
#[derive(Debug, Clone)]
pub enum WsIncoming {
    /// A binary frame with these bytes.
    Binary(Vec<u8>),
    /// A text frame.
    Text(String),
    Ping,
    Pong,
    /// The peer's close frame.
    Close,
    /// A raw frame.
    Frame,
    /// The stream failed with this error text.
    StreamError(String),
    /// The stream ended.
    StreamEnded,
    /// Nothing came within the read timeout.
    TimedOut,
}

/// What the library knows of a WebSocket connection: the peer's address (as
/// text), the transport settings, and whether the connection is alive.
#[derive(Debug)]
pub struct WebSocketConnection {
    remote_addr: String,
    config: TransportConfig,
    is_alive: bool,
}

impl WebSocketConnection {
    /// A live connection to `remote_addr`.
    pub fn new(remote_addr: String, config: TransportConfig) -> (r: Self)
        ensures
            r.is_alive_spec(),
            r.remote_addr_spec() == remote_addr@,
            r.config_spec() == config,
    {
        WebSocketConnection { remote_addr, config, is_alive: true }
    }

    pub closed spec fn is_alive_spec(&self) -> bool {
        self.is_alive
    }

    pub closed spec fn remote_addr_spec(&self) -> Seq<char> {
        self.remote_addr@
    }

    pub closed spec fn config_spec(&self) -> TransportConfig {
        self.config
    }

    /// Whether the connection is alive.
    pub fn is_alive(&self) -> (r: bool)
        ensures
            r == self.is_alive_spec(),
    {
        self.is_alive
    }

    /// The peer's address.
    pub fn remote_addr(&self) -> (r: &String)
        ensures
            r@ == self.remote_addr_spec(),
    {
        &self.remote_addr
    }

    /// The transport settings.
    pub fn config(&self) -> (r: &TransportConfig)
        ensures
            *r == self.config_spec(),
    {
        &self.config
    }

    /// Whether a message may go out, given the outcome of serializing it
    /// (its length in bytes, or the serializer's error text): not on a
    /// closed connection, not when serializing failed, and not when it is
    /// larger than the buffer.
    pub fn check_send(&self, serialized: Result<usize, String>) -> (r: ProtocolResult<()>)
        ensures
            !self.is_alive_spec() ==> (r matches Err(ProtocolError::Transport(m))
                && m@ == "Connection is closed"@),
            self.is_alive_spec() ==> match serialized {
                Err(e) => r matches Err(ProtocolError::Serialization(m)) && m@ == e@,
                Ok(n) => if n > self.config_spec().buffer_size {
                    r matches Err(ProtocolError::Transport(m))
                        && m@ == oversize_text(n as nat, self.config_spec().buffer_size as nat)
                } else {
                    r is Ok
                },
            },
    {
        if !self.is_alive {
            return Err(ProtocolError::Transport(string_from("Connection is closed")));
        }
        match serialized {
            Err(e) => Err(ProtocolError::Serialization(e)),
            Ok(n) => {
                if n > self.config.buffer_size {
                    let mut m = string_from("Message size ");
                    push_decimal(&mut m, n as u64);
                    append_str(&mut m, " exceeds buffer size ");
                    push_decimal(&mut m, self.config.buffer_size as u64);
                    Err(ProtocolError::Transport(m))
                } else {
                    Ok(())
                }
            },
        }
    }

    /// The outcome of writing a message to the stream: a failed write is a
    /// WebSocket error that quotes it.
    pub fn finish_send(&self, written: Result<(), String>) -> (r: ProtocolResult<()>)
        ensures
            match written {
                Ok(()) => r is Ok,
                Err(e) => r matches Err(ProtocolError::WebSocket(m))
                    && m@ == "Failed to send message: "@ + e@,
            },
    {
        match written {
            Ok(()) => Ok(()),
            Err(e) => {
                let mut m = string_from("Failed to send message: ");
                append_str(&mut m, e.as_str());
                Err(ProtocolError::WebSocket(m))
            },
        }
    }

    /// What a read of the stream means. A closed connection reads nothing.
    /// A binary frame hands its bytes on; text, ping, pong and raw frames
    /// give nothing; a close frame, a failed stream and an ended stream
    /// leave the connection dead (the failure is a WebSocket error); a
    /// timeout is a timeout error and leaves the connection as it was.
    pub fn receive_step(&mut self, incoming: WsIncoming) -> (r: ProtocolResult<Option<Vec<u8>>>)
        ensures
            final(self).remote_addr_spec() == old(self).remote_addr_spec(),
            final(self).config_spec() == old(self).config_spec(),
            !old(self).is_alive_spec() ==> (r matches Ok(None) && !final(self).is_alive_spec()),
            old(self).is_alive_spec() ==> match incoming {
                WsIncoming::Binary(data) => r matches Ok(Some(d)) && d@ == data@
                    && final(self).is_alive_spec(),
                WsIncoming::Text(_) => r matches Ok(None) && final(self).is_alive_spec(),
                WsIncoming::Ping => r matches Ok(None) && final(self).is_alive_spec(),
                WsIncoming::Pong => r matches Ok(None) && final(self).is_alive_spec(),
                WsIncoming::Frame => r matches Ok(None) && final(self).is_alive_spec(),
                WsIncoming::Close => r matches Ok(None) && !final(self).is_alive_spec(),
                WsIncoming::StreamError(e) => r matches Err(ProtocolError::WebSocket(m))
                    && m@ == "WebSocket error: "@ + e@ && !final(self).is_alive_spec(),
                WsIncoming::StreamEnded => r matches Ok(None) && !final(self).is_alive_spec(),
                WsIncoming::TimedOut => r matches Err(ProtocolError::Timeout)
                    && final(self).is_alive_spec(),
            },
    {
        if !self.is_alive {
            return Ok(None);
        }
        match incoming {
            WsIncoming::Binary(data) => Ok(Some(data)),
            WsIncoming::Text(_) => Ok(None),
            WsIncoming::Ping => Ok(None),
            WsIncoming::Pong => Ok(None),
            WsIncoming::Frame => Ok(None),
            WsIncoming::Close => {
                self.is_alive = false;
                Ok(None)
            },
            WsIncoming::StreamError(e) => {
                self.is_alive = false;
                let mut m = string_from("WebSocket error: ");
                append_str(&mut m, e.as_str());
                Err(ProtocolError::WebSocket(m))
            },
            WsIncoming::StreamEnded => {
                self.is_alive = false;
                Ok(None)
            },
            WsIncoming::TimedOut => Err(ProtocolError::Timeout),
        }
    }

    /// The outcome of closing the stream, which is done only while the
    /// connection is alive: a successful close leaves it dead; a failed one
    /// is a WebSocket error and leaves it alive.
    pub fn finish_close(&mut self, closed: Result<(), String>) -> (r: ProtocolResult<()>)
        ensures
            final(self).remote_addr_spec() == old(self).remote_addr_spec(),
            final(self).config_spec() == old(self).config_spec(),
            match closed {
                Ok(()) => r is Ok && !final(self).is_alive_spec(),
                Err(e) => r matches Err(ProtocolError::WebSocket(m))
                    && m@ == "Failed to close WebSocket: "@ + e@
                    && final(self).is_alive_spec() == old(self).is_alive_spec(),
            },
    {
        match closed {
            Ok(()) => {
                self.is_alive = false;
                Ok(())
            },
            Err(e) => {
                let mut m = string_from("Failed to close WebSocket: ");
                append_str(&mut m, e.as_str());
                Err(ProtocolError::WebSocket(m))
            },
        }
    }
}

/// A certificate verifier for development that accepts every server
/// certificate. The caller gives its copy of this type the `rustls`
/// verifier trait.
pub struct NoCertificateVerification;

} // verus!
