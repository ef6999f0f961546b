//! Security settings, TLS connection statistics and certificate
//! fingerprints.

use vstd::prelude::*;
use crate::bridge::{hex_encode, hex_of_bytes, sha256, sha256_digest};
use crate::named_map::NamedMap;
use crate::text::{parse_unsigned, parse_unsigned_exec, string_from, views};

verus! {

/// Where the TLS material of the shell is.
#[derive(Debug, Clone)]
pub struct TlsConfig {
    pub cert_path: Option<String>,
    pub key_path: Option<String>,
    pub ca_cert_path: Option<String>,
}

/// What is known of a certificate.
#[derive(Debug, Clone)]
pub struct CertificateInfo {
    pub subject: String,
    pub issuer: String,
    pub valid_from: String,
    pub valid_until: String,
    pub fingerprint: String,
}

/// The answer to the shell's request to set up TLS.
pub fn init_tls(config: TlsConfig) -> (r: Result<String, String>)
    ensures
        r matches Ok(m) && m@ == "TLS initialized"@,
{
    Ok(string_from("TLS initialized"))
}

/// The certificate the shell reports for a new self-signed certificate:
/// subject and issuer are the common name, valid through 2024, with a
/// fixed fingerprint.
pub fn generate_certificate(common_name: String) -> (r: Result<CertificateInfo, String>)
    ensures
        r matches Ok(c) && c.subject@ == common_name@ && c.issuer@ == common_name@ && c.valid_from@
            == "2024-01-01"@ && c.valid_until@ == "2025-01-01"@ && c.fingerprint@ == "00:11:22:33:44:55"@,
{
    Ok(CertificateInfo {
        subject: common_name.clone(),
        issuer: common_name,
        valid_from: string_from("2024-01-01"),
        valid_until: string_from("2025-01-01"),
        fingerprint: string_from("00:11:22:33:44:55"),
    })
}

/// The answer to the shell's request to validate a certificate: valid.
pub fn validate_certificate(cert_data: String) -> (r: Result<bool, String>)
    ensures
        r matches Ok(true),
{
    Ok(true)
}

/// Security settings.
#[derive(Debug, Clone)]
pub struct SecurityConfig {
    pub tls: TlsSecurityConfig,
    pub certificates: CertificateSecurityConfig,
    pub handshake: HandshakeSecurityConfig,
}

/// TLS settings.
#[derive(Debug, Clone)]
pub struct TlsSecurityConfig {
    pub enabled: bool,
    pub require_client_cert: bool,
    pub cipher_suites: Vec<String>,
    pub protocol_versions: Vec<String>,
}

/// Certificate settings.
#[derive(Debug, Clone)]
pub struct CertificateSecurityConfig {
    pub auto_generate: bool,
    pub validity_days: i64,
    pub allowed_domains: Vec<String>,
    pub require_revocation_check: bool,
}

/// Handshake settings; the fingerprints to verify are by host.
#[derive(Debug, Clone)]
pub struct HandshakeSecurityConfig {
    pub timeout_seconds: u64,
    pub max_retries: u32,
    pub allow_self_signed: bool,
    pub verify_fingerprints: NamedMap<String>,
}

/// Whether `c` holds the default TLS settings: on, no client certificate,
/// AES-256-GCM with SHA-384, TLS 1.3 only.
pub open spec fn default_tls(c: TlsSecurityConfig) -> bool {
    &&& c.enabled
    &&& !c.require_client_cert
    &&& views(c.cipher_suites@) == seq!["TLS13_AES_256_GCM_SHA384"@]
    &&& views(c.protocol_versions@) == seq!["TLSv1.3"@]
}

/// Whether `c` holds the default certificate settings: generated, valid a
/// year, for `local` and `localhost`, without revocation checks.
pub open spec fn default_certificates(c: CertificateSecurityConfig) -> bool {
    &&& c.auto_generate
    &&& c.validity_days == 365
    &&& views(c.allowed_domains@) == seq!["local"@, "localhost"@]
    &&& !c.require_revocation_check
}

/// Whether `c` holds the default handshake settings: 30 s, three retries,
/// self-signed certificates allowed, no fingerprints.
pub open spec fn default_handshake(c: HandshakeSecurityConfig) -> bool {
    &&& c.timeout_seconds == 30
    &&& c.max_retries == 3
    &&& c.allow_self_signed
    &&& c.verify_fingerprints.wf()
    &&& c.verify_fingerprints@ == Map::<Seq<char>, String>::empty()
}

/// The text list with one entry.
fn one_string(s: &str) -> (r: Vec<String>)
    ensures
        views(r@) == seq![s@],
{
    let mut v: Vec<String> = Vec::new();
    v.push(string_from(s));
    assert(views(v@) =~= seq![s@]);
    v
}

impl Default for TlsSecurityConfig {
    fn default() -> (r: Self)
        ensures
            default_tls(r),
    {
        TlsSecurityConfig {
            enabled: true,
            require_client_cert: false,
            cipher_suites: one_string("TLS13_AES_256_GCM_SHA384"),
            protocol_versions: one_string("TLSv1.3"),
        }
    }
}

impl Default for CertificateSecurityConfig {
    fn default() -> (r: Self)
        ensures
            default_certificates(r),
    {
        let mut domains: Vec<String> = Vec::new();
        domains.push(string_from("local"));
        domains.push(string_from("localhost"));
        assert(views(domains@) =~= seq!["local"@, "localhost"@]);
        CertificateSecurityConfig {
            auto_generate: true,
            validity_days: 365,
            allowed_domains: domains,
            require_revocation_check: false,
        }
    }
}

impl Default for HandshakeSecurityConfig {
    fn default() -> (r: Self)
        ensures
            default_handshake(r),
    {
        HandshakeSecurityConfig {
            timeout_seconds: 30,
            max_retries: 3,
            allow_self_signed: true,
            verify_fingerprints: NamedMap::new(),
        }
    }
}

impl Default for SecurityConfig {
    fn default() -> (r: Self)
        ensures
            default_tls(r.tls),
            default_certificates(r.certificates),
            default_handshake(r.handshake),
    {
        SecurityConfig {
            tls: TlsSecurityConfig::default(),
            certificates: CertificateSecurityConfig::default(),
            handshake: HandshakeSecurityConfig::default(),
        }
    }
}

/// The environment's settings for security: the values of
/// `SOFT_KVM_TLS_ENABLED`, `SOFT_KVM_REQUIRE_CLIENT_CERT` and
/// `SOFT_KVM_HANDSHAKE_TIMEOUT`, where set.
#[derive(Debug, Clone)]
pub struct SecurityEnv {
    pub tls_enabled: Option<String>,
    pub require_client_cert: Option<String>,
    pub handshake_timeout: Option<String>,
}

/// A boolean as `str::parse` reads it: exactly `true` or `false`.
pub open spec fn bool_from_text(s: Seq<char>) -> Option<bool> {
    if s == "true"@ {
        Some(true)
    } else if s == "false"@ {
        Some(false)
    } else {
        None
    }
}

/// Reads a boolean as `str::parse` does.
pub fn parse_bool(s: &String) -> (r: Option<bool>)
    ensures
        r == bool_from_text(s@),
{
    let t = string_from("true");
    let f = string_from("false");
    if *s == t {
        Some(true)
    } else if *s == f {
        Some(false)
    } else {
        None
    }
}

/// The value an environment setting gives a flag: the flag it reads as,
/// or the fallback where it does not read; the old value where it is not
/// set.
pub open spec fn flag_setting(value: Option<String>, old: bool, fallback: bool) -> bool {
    match value {
        Some(v) => match bool_from_text(v@) {
            Some(b) => b,
            None => fallback,
        },
        None => old,
    }
}

/// Creating and adjusting security settings.
pub struct SecurityConfigLoader;

impl SecurityConfigLoader {
    /// The default settings.
    pub fn create_default() -> (r: SecurityConfig)
        ensures
            default_tls(r.tls),
            default_certificates(r.certificates),
            default_handshake(r.handshake),
    {
        SecurityConfig::default()
    }

    /// The settings with the environment's values in place: TLS on or off
    /// (on where the value does not read as a boolean), client
    /// certificates required or not (not, likewise), and the handshake
    /// timeout in seconds (30 where the value does not read as a number).
    pub fn override_from_env(config: SecurityConfig, env: &SecurityEnv) -> (r: SecurityConfig)
        ensures
            r.tls.enabled == flag_setting(env.tls_enabled, config.tls.enabled, true),
            r.tls.require_client_cert == flag_setting(env.require_client_cert, config.tls.require_client_cert, false),
            r.handshake.timeout_seconds == match env.handshake_timeout {
                Some(v) => match parse_unsigned(v@, u64::MAX as nat) {
                    Some(n) => n as u64,
                    None => 30u64,
                },
                None => config.handshake.timeout_seconds,
            },
            r.tls.cipher_suites == config.tls.cipher_suites,
            r.tls.protocol_versions == config.tls.protocol_versions,
            r.certificates == config.certificates,
            r.handshake.max_retries == config.handshake.max_retries,
            r.handshake.allow_self_signed == config.handshake.allow_self_signed,
            r.handshake.verify_fingerprints == config.handshake.verify_fingerprints,
    {
        let mut config = config;
        match &env.tls_enabled {
            Some(v) => {
                config.tls.enabled = match parse_bool(v) {
                    Some(b) => b,
                    None => true,
                };
            },
            None => {},
        }
        match &env.require_client_cert {
            Some(v) => {
                config.tls.require_client_cert = match parse_bool(v) {
                    Some(b) => b,
                    None => false,
                };
            },
            None => {},
        }
        match &env.handshake_timeout {
            Some(v) => {
                config.handshake.timeout_seconds = match parse_unsigned_exec(v.as_str(), u64::MAX) {
                    Some(n) => n,
                    None => 30,
                };
            },
            None => {},
        }
        config
    }
}

/// Which end of a TLS connection.
#[derive(Debug, Clone, Copy, PartialEq, Eq, Structural)]
pub enum TlsConnectionType {
    Server,
    Client,
}

/// TLS connection statistics.
#[derive(Debug, Clone)]
pub struct TlsStats {
    pub total_connections: u64,
    pub active_connections: u64,
    pub handshake_failures: u64,
    pub protocol_version: Option<String>,
    pub cipher_suite: Option<String>,
}

/// What happens to a TLS end's counters.
#[derive(Debug, Clone, Copy, PartialEq, Eq, Structural)]
pub enum TlsStatsEvent {
    /// A connection was made.
    Connected,
    /// A handshake failed.
    HandshakeFailed,
    /// A connection closed.
    Closed,
}

/// How an event moves the counters from `old` to `new`.
pub open spec fn stats_step(old: TlsStats, new: TlsStats, e: TlsStatsEvent) -> bool {
    match e {
        TlsStatsEvent::Connected => new.total_connections == old.total_connections + 1
            && new.active_connections == old.active_connections + 1
            && new.handshake_failures == old.handshake_failures,
        TlsStatsEvent::HandshakeFailed => new.total_connections == old.total_connections
            && new.active_connections == old.active_connections
            && new.handshake_failures == old.handshake_failures + 1,
        TlsStatsEvent::Closed => new.total_connections == old.total_connections
            && new.active_connections == (if old.active_connections > 0 {
                old.active_connections - 1
            } else {
                0
            })
            && new.handshake_failures == old.handshake_failures,
    }
}

proof fn lemma_active_at_most_total(states: Seq<TlsStats>, events: Seq<TlsStatsEvent>, i: int)
    requires
        states.len() == events.len() + 1,
        states[0].active_connections <= states[0].total_connections,
        forall|j: int| 0 <= j < events.len() ==> #[trigger] stats_step(states[j], states[j + 1], events[j]),
        0 <= i < states.len(),
    ensures
        states[i].active_connections <= states[i].total_connections,
    decreases i,
{
    if i > 0 {
        lemma_active_at_most_total(states, events, i - 1);
        let j = i - 1;
        assert(stats_step(states[j], states[j + 1], events[j]));
        assert(j + 1 == i);
    }
}

/// A TLS end never counts more active connections than connections made:
/// from counters where that holds (such as new ones), every run of
/// connections made, handshakes failed and connections closed keeps it.
pub proof fn active_connections_never_exceed_total(states: Seq<TlsStats>, events: Seq<TlsStatsEvent>)
    requires
        states.len() == events.len() + 1,
        states[0].active_connections <= states[0].total_connections,
        forall|j: int| 0 <= j < events.len() ==> #[trigger] stats_step(states[j], states[j + 1], events[j]),
    ensures
        forall|i: int|
            0 <= i < states.len() ==> #[trigger] states[i].active_connections <= states[i].total_connections,
{
    assert forall|i: int| 0 <= i < states.len() implies #[trigger] states[i].active_connections
        <= states[i].total_connections by {
        lemma_active_at_most_total(states, events, i);
    }
}

impl TlsStats {
    /// No connection yet.
    pub fn new() -> (r: Self)
        ensures
            r.total_connections == 0,
            r.active_connections == 0,
            r.handshake_failures == 0,
            r.protocol_version is None,
            r.cipher_suite is None,
    {
        TlsStats {
            total_connections: 0,
            active_connections: 0,
            handshake_failures: 0,
            protocol_version: None,
            cipher_suite: None,
        }
    }

    /// A connection was established, with the protocol version and cipher
    /// suite it negotiated where known (as `Debug` writes them): it counts
    /// as a connection and as an active one, and what it negotiated
    /// replaces what was recorded.
    pub fn record_connection(&mut self, protocol_version: Option<String>, cipher_suite: Option<String>)
        requires
            old(self).total_connections < u64::MAX,
            old(self).active_connections < u64::MAX,
        ensures
            final(self).total_connections == old(self).total_connections + 1,
            final(self).active_connections == old(self).active_connections + 1,
            final(self).handshake_failures == old(self).handshake_failures,
            stats_step(*old(self), *final(self), TlsStatsEvent::Connected),
            final(self).protocol_version == match protocol_version {
                Some(v) => Some(v),
                None => old(self).protocol_version,
            },
            final(self).cipher_suite == match cipher_suite {
                Some(s) => Some(s),
                None => old(self).cipher_suite,
            },
    {
        self.total_connections = self.total_connections + 1;
        self.active_connections = self.active_connections + 1;
        match protocol_version {
            Some(v) => {
                self.protocol_version = Some(v);
            },
            None => {},
        }
        match cipher_suite {
            Some(s) => {
                self.cipher_suite = Some(s);
            },
            None => {},
        }
    }

    /// A handshake failed.
    pub fn record_handshake_failure(&mut self)
        requires
            old(self).handshake_failures < u64::MAX,
        ensures
            final(self).handshake_failures == old(self).handshake_failures + 1,
            stats_step(*old(self), *final(self), TlsStatsEvent::HandshakeFailed),
            final(self).total_connections == old(self).total_connections,
            final(self).active_connections == old(self).active_connections,
            final(self).protocol_version == old(self).protocol_version,
            final(self).cipher_suite == old(self).cipher_suite,
    {
        self.handshake_failures = self.handshake_failures + 1;
    }

    /// A connection closed: one active connection fewer, never below zero.
    pub fn record_connection_closed(&mut self)
        ensures
            final(self).active_connections == if old(self).active_connections > 0 {
                (old(self).active_connections - 1) as u64
            } else {
                0
            },
            final(self).total_connections == old(self).total_connections,
            final(self).handshake_failures == old(self).handshake_failures,
            final(self).protocol_version == old(self).protocol_version,
            final(self).cipher_suite == old(self).cipher_suite,
            stats_step(*old(self), *final(self), TlsStatsEvent::Closed),
    {
        if self.active_connections > 0 {
            self.active_connections = self.active_connections - 1;
        }
    }
}

/// The fingerprint of a certificate chain: the SHA-256 digest of its first
/// certificate (DER bytes) in lowercase hexadecimal; none for an empty
/// chain.
pub fn certificate_fingerprint(cert_chain: &Vec<Vec<u8>>) -> (r: Option<String>)
    ensures
        cert_chain@.len() == 0 ==> r is None,
        cert_chain@.len() > 0 ==> (r matches Some(f) && f@ == hex_of_bytes(sha256_digest(cert_chain@[0]@))),
{
    if cert_chain.len() == 0 {
        return None;
    }
    let digest = sha256(cert_chain[0].as_slice());
    Some(hex_encode(digest.as_slice()))
}

} // verus!
