//! TLS set-up for the security plugin: the certificate chain, key and
//! trust roots of each end of a connection, the `rustls` acceptor or
//! connector they build, and the fingerprint of the certificate. Accepting
//! and connecting over a socket are the caller's.

use vstd::prelude::*;
use crate::kvm_core::error::{KvmError, KvmResult};
use crate::plugins::security::{certificate_fingerprint, TlsConnectionType, TlsStats};
use crate::bridge::{hex_of_bytes, sha256_digest};
use crate::text::{append_str, string_from};

verus! {

#[verifier::external_type_specification]
#[verifier::external_body]
pub struct ExRootCertStore(rustls::RootCertStore);

#[verifier::external_type_specification]
#[verifier::external_body]
pub struct ExTlsAcceptor(tokio_rustls::TlsAcceptor);

#[verifier::external_type_specification]
#[verifier::external_body]
pub struct ExTlsConnector(tokio_rustls::TlsConnector);

/// The error text of `rustls::RootCertStore::add` for a certificate (DER
/// bytes), or `None` where it is accepted.
pub uninterp spec fn root_store_failure(der: Seq<u8>) -> Option<Seq<char>>;

/// An empty trust store, `rustls::RootCertStore::empty`. Nothing is
/// claimed of it.
#[verifier::external_body]
fn root_store_empty() -> (r: rustls::RootCertStore) {
    rustls::RootCertStore::empty()
}

/// `RootCertStore::add` of a certificate (DER bytes), its error written as
/// text. Claimed: whether the certificate is refused, and the text of the
/// refusal, depend on its bytes alone (the store parses them as a trust
/// anchor). Nothing is claimed of what the store holds afterwards.
#[verifier::external_body]
fn root_store_add(store: &mut rustls::RootCertStore, der: &Vec<u8>) -> (r: Result<(), String>)
    ensures
        match r {
            Ok(()) => root_store_failure(der@) is None,
            Err(e) => root_store_failure(der@) == Some(e@),
        },
{
    match store.add(&rustls::Certificate(der.clone())) {
        Ok(()) => Ok(()),
        Err(e) => Err(e.to_string()),
    }
}

/// The error text of `with_single_cert` for a certificate chain and a
/// private key (DER bytes), or `None` where they make a server
/// configuration.
pub uninterp spec fn server_config_failure(chain: Seq<Seq<u8>>, key: Seq<u8>) -> Option<Seq<char>>;

/// A TLS acceptor: `rustls::ServerConfig::builder()` with safe defaults, no
/// client authentication and the single certificate chain and key, the
/// ALPN protocols set, wrapped in a `tokio_rustls::TlsAcceptor`. Claimed:
/// whether it fails, and the text of the failure, depend on the chain and
/// the key alone.
#[verifier::external_body]
pub(crate) fn server_acceptor(chain: &Vec<Vec<u8>>, key: &Vec<u8>, alpn: &Vec<Vec<u8>>) -> (r: Result<
    tokio_rustls::TlsAcceptor,
    String,
>)
    ensures
        match r {
            Ok(_) => server_config_failure(chain.deep_view(), key@) is None,
            Err(e) => server_config_failure(chain.deep_view(), key@) == Some(e@),
        },
{
    let certs: Vec<rustls::Certificate> = chain.iter().map(|c| rustls::Certificate(c.clone())).collect();
    match rustls::ServerConfig::builder().with_safe_defaults().with_no_client_auth().with_single_cert(
        certs,
        rustls::PrivateKey(key.clone()),
    ) {
        Ok(mut config) => {
            config.alpn_protocols = alpn.clone();
            Ok(tokio_rustls::TlsAcceptor::from(std::sync::Arc::new(config)))
        },
        Err(e) => Err(e.to_string()),
    }
}

/// A TLS connector: `rustls::ClientConfig::builder()` with safe defaults, a
/// copy of the trust roots and no client authentication, the ALPN
/// protocols set, wrapped in a `tokio_rustls::TlsConnector`. Nothing is
/// claimed of it.
#[verifier::external_body]
fn client_connector(roots: &rustls::RootCertStore, alpn: &Vec<Vec<u8>>) -> (r: tokio_rustls::TlsConnector) {
    let mut config = rustls::ClientConfig::builder().with_safe_defaults().with_root_certificates(
        roots.clone(),
    ).with_no_client_auth();
    config.alpn_protocols = alpn.clone();
    tokio_rustls::TlsConnector::from(std::sync::Arc::new(config))
}

/// The ALPN protocol of the KVM connections, `soft-kvm/1`.
pub open spec fn kvm_alpn() -> Seq<u8> {
    seq![115u8, 111, 102, 116, 45, 107, 118, 109, 47, 49]
}

/// The ALPN protocols offered: the KVM protocol alone.
fn kvm_alpn_protocols() -> (r: Vec<Vec<u8>>)
    ensures
        r.deep_view() == seq![kvm_alpn()],
{
    let mut p: Vec<u8> = Vec::new();
    p.push(115u8);
    p.push(111u8);
    p.push(102u8);
    p.push(116u8);
    p.push(45u8);
    p.push(107u8);
    p.push(118u8);
    p.push(109u8);
    p.push(47u8);
    p.push(49u8);
    assert(p@ =~= kvm_alpn());
    let ghost pv = p@;
    let mut v: Vec<Vec<u8>> = Vec::new();
    v.push(p);
    assert(v@[0]@ == pv);
    assert(v.deep_view()[0] =~= kvm_alpn());
    assert(v.deep_view() =~= seq![kvm_alpn()]);
    v
}

/// The TLS settings of one end: its role, certificate chain and private key
/// (DER bytes), the roots it trusts, and the ALPN protocols it offers.
pub struct TlsConfig {
    pub connection_type: TlsConnectionType,
    pub cert_chain: Vec<Vec<u8>>,
    pub private_key: Option<Vec<u8>>,
    pub ca_certificates: rustls::RootCertStore,
    pub alpn_protocols: Vec<Vec<u8>>,
}

/// A TLS end ready to run a handshake.
pub enum TlsConnection {
    Server(tokio_rustls::TlsAcceptor),
    Client(tokio_rustls::TlsConnector),
}

impl TlsConfig {
    /// The server end with a certificate chain and key; the first
    /// certificate is its own trust root (self-signed on the LAN). A first
    /// certificate the trust store refuses is a security error.
    pub fn server(cert_chain: Vec<Vec<u8>>, private_key: Vec<u8>) -> (r: KvmResult<Self>)
        requires
            cert_chain.len() > 0,
        ensures
            match root_store_failure(cert_chain@[0]@) {
                Some(e) => r matches Err(KvmError::Security(m)) && m@ == "Failed to add CA certificate: "@ + e,
                None => r matches Ok(c) && {
                    &&& c.connection_type == TlsConnectionType::Server
                    &&& c.cert_chain.deep_view() == cert_chain.deep_view()
                    &&& c.private_key matches Some(k) && k@ == private_key@
                    &&& c.alpn_protocols.deep_view() == seq![kvm_alpn()]
                },
            },
    {
        let mut ca_store = root_store_empty();
        match root_store_add(&mut ca_store, &cert_chain[0]) {
            Ok(()) => {},
            Err(e) => {
                let mut m = string_from("Failed to add CA certificate: ");
                append_str(&mut m, e.as_str());
                return Err(KvmError::Security(m));
            },
        };
        Ok(TlsConfig {
            connection_type: TlsConnectionType::Server,
            cert_chain,
            private_key: Some(private_key),
            ca_certificates: ca_store,
            alpn_protocols: kvm_alpn_protocols(),
        })
    }

    /// The client end, trusting the given roots.
    pub fn client(ca_certificates: rustls::RootCertStore) -> (r: Self)
        ensures
            r.connection_type == TlsConnectionType::Client,
            r.cert_chain@.len() == 0,
            r.private_key is None,
            r.ca_certificates == ca_certificates,
            r.alpn_protocols.deep_view() == seq![kvm_alpn()],
    {
        TlsConfig {
            connection_type: TlsConnectionType::Client,
            cert_chain: Vec::new(),
            private_key: None,
            ca_certificates,
            alpn_protocols: kvm_alpn_protocols(),
        }
    }

    /// The acceptor (server end) or connector (client end) of these
    /// settings. A server end needs its private key, and a chain and key
    /// that make a server configuration; each failure is a security error.
    pub fn build(&self) -> (r: KvmResult<TlsConnection>)
        ensures
            self.connection_type == TlsConnectionType::Client ==> r matches Ok(TlsConnection::Client(_)),
            self.connection_type == TlsConnectionType::Server ==> match self.private_key {
                None => r matches Err(KvmError::Security(m)) && m@ == "Private key required for server"@,
                Some(k) => match server_config_failure(self.cert_chain.deep_view(), k@) {
                    None => r matches Ok(TlsConnection::Server(_)),
                    Some(e) => r matches Err(KvmError::Security(m)) && m@ == "Failed to create server config: "@ + e,
                },
            },
    {
        match self.connection_type {
            TlsConnectionType::Server => {
                let key = match &self.private_key {
                    Some(k) => k,
                    None => {
                        return Err(KvmError::Security(string_from("Private key required for server")));
                    },
                };
                match server_acceptor(&self.cert_chain, key, &self.alpn_protocols) {
                    Ok(a) => Ok(TlsConnection::Server(a)),
                    Err(e) => {
                        let mut m = string_from("Failed to create server config: ");
                        append_str(&mut m, e.as_str());
                        Err(KvmError::Security(m))
                    },
                }
            },
            TlsConnectionType::Client => Ok(
                TlsConnection::Client(client_connector(&self.ca_certificates, &self.alpn_protocols)),
            ),
        }
    }
}

impl TlsConnection {
    /// The acceptor for a handshake as the server; a client end cannot
    /// accept.
    pub fn acceptor(&self) -> (r: KvmResult<&tokio_rustls::TlsAcceptor>)
        ensures
            self is Server ==> r is Ok,
            self is Client ==> (r matches Err(KvmError::Security(m)) && m@ == "Cannot accept on client connection"@),
    {
        match self {
            TlsConnection::Server(a) => Ok(a),
            TlsConnection::Client(_) => Err(KvmError::Security(string_from("Cannot accept on client connection"))),
        }
    }

    /// The connector for a handshake as the client; a server end cannot
    /// connect.
    pub fn connector(&self) -> (r: KvmResult<&tokio_rustls::TlsConnector>)
        ensures
            self is Client ==> r is Ok,
            self is Server ==> (r matches Err(KvmError::Security(m)) && m@ == "Cannot connect on server connection"@),
    {
        match self {
            TlsConnection::Client(c) => Ok(c),
            TlsConnection::Server(_) => Err(KvmError::Security(string_from("Cannot connect on server connection"))),
        }
    }
}

/// The TLS settings of a node and the statistics of its connections.
pub struct TlsManager {
    config: TlsConfig,
    stats: TlsStats,
}

impl TlsManager {
    pub closed spec fn config_spec(&self) -> &TlsConfig {
        &self.config
    }

    pub closed spec fn stats_spec(&self) -> TlsStats {
        self.stats
    }

    /// A manager for these settings, with no connection counted.
    pub fn new(config: TlsConfig) -> (r: Self)
        ensures
            *r.config_spec() == config,
            r.stats_spec().total_connections == 0,
            r.stats_spec().active_connections == 0,
            r.stats_spec().handshake_failures == 0,
            r.stats_spec().protocol_version is None,
            r.stats_spec().cipher_suite is None,
    {
        TlsManager { config, stats: TlsStats::new() }
    }

    /// A manager for these settings (see `new`); it does not fail.
    pub fn from_config(config: TlsConfig) -> (r: KvmResult<Self>)
        ensures
            r matches Ok(m) && *m.config_spec() == config && m.stats_spec().total_connections == 0
                && m.stats_spec().active_connections == 0 && m.stats_spec().handshake_failures == 0,
    {
        Ok(Self::new(config))
    }

    /// The statistics.
    pub fn get_stats(&self) -> (r: &TlsStats)
        ensures
            *r == self.stats_spec(),
    {
        &self.stats
    }

    /// The statistics, to record connections in.
    pub fn stats_mut(&mut self) -> (r: &mut TlsStats)
        ensures
            *r == old(self).stats_spec(),
            final(self).stats_spec() == *final(r),
            final(self).config_spec() == old(self).config_spec(),
    {
        &mut self.stats
    }

    /// The acceptor or connector of the settings (see `TlsConfig::build`).
    pub fn create_connection(&self) -> (r: KvmResult<TlsConnection>)
        ensures
            self.config_spec().connection_type == TlsConnectionType::Client ==> r matches Ok(
                TlsConnection::Client(_),
            ),
            self.config_spec().connection_type == TlsConnectionType::Server ==> match self.config_spec().private_key {
                None => r matches Err(KvmError::Security(m)) && m@ == "Private key required for server"@,
                Some(k) => match server_config_failure(self.config_spec().cert_chain.deep_view(), k@) {
                    None => r matches Ok(TlsConnection::Server(_)),
                    Some(e) => r matches Err(KvmError::Security(m)) && m@ == "Failed to create server config: "@ + e,
                },
            },
    {
        self.config.build()
    }

    /// The fingerprint of the node's certificate: the SHA-256 digest of the
    /// first certificate of its chain in lowercase hexadecimal; none without
    /// a certificate.
    pub fn get_certificate_fingerprint(&self) -> (r: Option<String>)
        ensures
            self.config_spec().cert_chain@.len() == 0 ==> r is None,
            self.config_spec().cert_chain@.len() > 0 ==> (r matches Some(f) && f@ == hex_of_bytes(
                sha256_digest(self.config_spec().cert_chain@[0]@),
            )),
    {
        certificate_fingerprint(&self.config.cert_chain)
    }
}

} // verus!
